//! One tick of the whole simulation: the pets roam, those that meet are
//! paired, the pairs converge, the interaction timers age, and the
//! reactions and icons come and go.

use vstd::prelude::*;
use crate::commands::{Command, Commands, Entity};
use crate::gameplay::events::ConversationActionEvent;
use crate::gameplay::player::chatting::{
    all_marked, chatting_icon_spawner, chatting_icon_tick, expired_icons, icon_commands,
    lemma_new_icons_well_formed, new_icons, surviving_icons, ChattingIcon,
};
use crate::gameplay::player::components::{
    ConversationHistoryResource, ConversationView, EntityPairConversationState, EtherPet,
};
use crate::gameplay::player::convergence::{
    converge, gather, lemma_gather, march, pair_entity_convergence_system, release_all, Approach,
    Gathering, Marching,
};
use crate::gameplay::player::conversation::first_involving;
use crate::gameplay::player::emote::{
    answered, emote_commands, emote_event, emote_icon_tick, emote_movement_system,
    emotion_index_spec, expired_emotes, followers, lemma_spawned_count, orphans,
    surviving_emotes, Emote,
};
use crate::gameplay::player::events::EmoteEvent;
use crate::gameplay::player::interaction::{
    any_conversation_ends, finished_released, inactive_player_proximity_detection_event,
    notified_all, tick_player_interaction_timers,
};
use crate::gameplay::player::pairing::{
    inactive_player_proximity_detection, resolve, resolve_pair, resolve_row, resolve_rows,
    snapshot_spec, Candidate, Resolution,
};
use crate::gameplay::player::roaming::{inactive_player_roaming_system, roamed_by_chance};
use crate::gameplay::spritesheet::components::{ChattingIconSheet, EmotionIconSheet};
use crate::math::Vec3;

verus! {

/// The whole state of the simulation.
#[derive(Clone, Debug, PartialEq, Eq)]
pub struct Simulation {
    pub pets: Vec<EtherPet>,
    pub walls: Vec<Vec3>,
    pub conversations: EntityPairConversationState,
    pub history: ConversationHistoryResource,
    pub emotes: Vec<Emote>,
    pub icons: Vec<ChattingIcon>,
    pub commands: Commands,
    pub emotion_icon_sheet: EmotionIconSheet,
    pub chatting_icon_sheet: ChattingIconSheet,
}

/// The mathematical content of a `Simulation`.
#[verifier::ext_equal]
pub struct SimulationView {
    pub pets: Seq<EtherPet>,
    pub walls: Seq<Vec3>,
    pub conversations: ConversationView,
    pub history: Seq<EmoteEvent>,
    pub emotes: Seq<Emote>,
    pub icons: Seq<ChattingIcon>,
    pub queue: Seq<Command>,
    pub next_entity: Entity,
    pub emotion_icon_sheet: EmotionIconSheet,
    pub chatting_icon_sheet: ChattingIconSheet,
}

/// What a tick hands to the outside: the requests to start a conversation.
#[verifier::ext_equal]
pub struct Ticked {
    pub state: SimulationView,
    pub requests: Seq<ConversationActionEvent>,
}

/// Why a tick was not made.
#[derive(Clone, Copy, Debug, PartialEq, Eq, Structural)]
pub enum TickError {
    /// There may not be enough handles left for the icons of this tick.
    OutOfHandles,
}

impl View for Simulation {
    type V = SimulationView;

    open spec fn view(&self) -> SimulationView {
        SimulationView {
            pets: self.pets@,
            walls: self.walls@,
            conversations: self.conversations@,
            history: self.history.entities_to_emote@,
            emotes: self.emotes@,
            icons: self.icons@,
            queue: self.commands.queue@,
            next_entity: self.commands.next_entity,
            emotion_icon_sheet: self.emotion_icon_sheet,
            chatting_icon_sheet: self.chatting_icon_sheet,
        }
    }
}

/// Whether `after` is what the roaming behaviour can make of `before`, pet
/// by pet, for some outcome of chance.
pub open spec fn roamed_all(
    before: Seq<EtherPet>,
    after: Seq<EtherPet>,
    delta: u64,
    walls: Seq<Vec3>,
) -> bool {
    &&& after.len() == before.len()
    &&& forall|i: int|
        0 <= i < before.len() ==> roamed_by_chance(before[i], #[trigger] after[i], delta, walls)
}

/// The pets with their interaction timers aged by `delta` milliseconds.
pub open spec fn all_aged(pets: Seq<EtherPet>, delta: u64) -> Seq<EtherPet> {
    Seq::new(pets.len(), |i: int| pets[i].timers_aged(delta))
}

impl SimulationView {
    /// The icons of the conversations are well formed.
    pub open spec fn well_formed(self) -> bool {
        forall|k: int| 0 <= k < self.icons.len() ==> (#[trigger] self.icons[k]).well_formed()
    }

    /// The number of handles that a tick sets aside: one for every reaction
    /// and pet, one for every conversation, and one for every two pets.
    pub open spec fn handles_wanted(self) -> int {
        (self.history.len() * self.pets.len() + self.conversations.pairs.len() + self.pets.len()
            * self.pets.len()) as int
    }

    /// A tick of `delta` milliseconds, once the pets have roamed and become
    /// `roamed`.
    ///
    /// The pets that are free are scanned and paired, and those paired are
    /// asked to talk. The pairs converge. The interaction timers age; if a
    /// conversation ends, the reactions queued so far are handed on, and an
    /// icon is made for each pet that one of them names. The reaction icons
    /// follow their pets and age. Every conversation without an icon gets
    /// one, and the icons of the conversations age.
    pub open spec fn ticked(self, roamed: Seq<EtherPet>, delta: u64) -> Ticked {
        let scan = resolve(self.conversations, snapshot_spec(roamed));
        let asked = notified_all(roamed, scan.events, scan.events.len() as int);
        let met = converge(asked, scan.state, self.walls);
        let pets = all_aged(met.pets, delta);
        let released = finished_released(met.state, met.pets, delta, met.pets.len() as int);
        let ends = any_conversation_ends(met.pets, delta, met.pets.len() as int);
        let reactions = if ends {
            self.history
        } else {
            Seq::empty()
        };
        let born = answered(reactions, pets, self.next_entity, reactions.len() as int);
        let shown = self.emotes + born;
        let led = followers(shown, pets, shown.len() as int);
        let handle = (self.next_entity + born.len()) as u64;
        let icons_born = new_icons(released.pairs, handle, released.pairs.len() as int);
        let icons = self.icons + icons_born;
        Ticked {
            state: SimulationView {
                pets,
                walls: self.walls,
                conversations: ConversationView {
                    pairs: all_marked(released.pairs),
                    ledger: released.ledger,
                },
                history: if ends {
                    Seq::empty()
                } else {
                    self.history
                },
                emotes: surviving_emotes(led, delta, led.len() as int),
                icons: surviving_icons(icons, delta, icons.len() as int),
                queue: self.queue + emote_commands(born, self.emotion_icon_sheet) + orphans(
                    shown,
                    pets,
                    shown.len() as int,
                ) + expired_emotes(led, delta, led.len() as int) + icon_commands(
                    icons_born,
                    self.chatting_icon_sheet,
                ) + expired_icons(icons, delta, icons.len() as int),
                next_entity: (handle + icons_born.len()) as u64,
                emotion_icon_sheet: self.emotion_icon_sheet,
                chatting_icon_sheet: self.chatting_icon_sheet,
            },
            requests: scan.events,
        }
    }
}

/// A snapshot holds no more candidates than there are pets.
pub proof fn lemma_snapshot_bound(pets: Seq<EtherPet>)
    ensures
        snapshot_spec(pets).len() <= pets.len(),
    decreases pets.len(),
{
    if pets.len() > 0 {
        lemma_snapshot_bound(pets.drop_last());
    }
}

/// A step of the scan records at most one conversation.
pub proof fn lemma_resolve_pair_bound(r: Resolution, a: Candidate, b: Candidate)
    ensures
        resolve_pair(r, a, b).state.pairs.len() <= r.state.pairs.len() + 1,
{
}

/// The scan of a row records at most one conversation for each candidate.
pub proof fn lemma_resolve_row_bound(r: Resolution, snapshot: Seq<Candidate>, i: int, j_end: int)
    requires
        0 <= i,
        j_end <= snapshot.len(),
    ensures
        resolve_row(r, snapshot, i, j_end).state.pairs.len() <= r.state.pairs.len()
            + snapshot.len(),
        j_end > i ==> resolve_row(r, snapshot, i, j_end).state.pairs.len() <= r.state.pairs.len()
            + j_end - i - 1,
    decreases j_end - i,
{
    if j_end > i + 1 {
        lemma_resolve_row_bound(r, snapshot, i, j_end - 1);
        lemma_resolve_pair_bound(
            resolve_row(r, snapshot, i, j_end - 1),
            snapshot[i],
            snapshot[j_end - 1],
        );
    }
}

/// The scan of `i_end` rows records at most one conversation for each row
/// and candidate.
pub proof fn lemma_resolve_rows_bound(r: Resolution, snapshot: Seq<Candidate>, i_end: int)
    requires
        0 <= i_end <= snapshot.len(),
    ensures
        resolve_rows(r, snapshot, i_end).state.pairs.len() <= r.state.pairs.len() + i_end
            * snapshot.len(),
    decreases i_end,
{
    if i_end > 0 {
        lemma_resolve_rows_bound(r, snapshot, i_end - 1);
        lemma_resolve_row_bound(
            resolve_rows(r, snapshot, i_end - 1),
            snapshot,
            i_end - 1,
            snapshot.len() as int,
        );
        assert(i_end * snapshot.len() == (i_end - 1) * snapshot.len() + snapshot.len())
            by (nonlinear_arith);
    } else {
        assert(i_end * snapshot.len() == 0) by (nonlinear_arith)
            requires
                i_end == 0,
        ;
    }
}

/// Leaving conversations never adds one.
pub proof fn lemma_without_entity_bound(v: ConversationView, entity: Entity)
    ensures
        v.without_entity(entity).pairs.len() <= v.pairs.len(),
    decreases v.pairs.len(),
{
    let index = first_involving(v.pairs, entity, 0);
    if 0 <= index < v.pairs.len() {
        lemma_without_entity_bound(v.dissolved(index), entity);
    }
}

/// Releasing the stuck responders never adds a conversation.
pub proof fn lemma_release_all_bound(v: ConversationView, stuck: Seq<Entity>, k_end: int)
    ensures
        release_all(v, stuck, k_end).pairs.len() <= v.pairs.len(),
    decreases k_end,
{
    if k_end > 0 {
        lemma_release_all_bound(v, stuck, k_end - 1);
        lemma_without_entity_bound(release_all(v, stuck, k_end - 1), stuck[k_end - 1]);
    }
}

/// Releasing the pets whose conversations end never adds a conversation.
pub proof fn lemma_finished_released_bound(
    v: ConversationView,
    pets: Seq<EtherPet>,
    delta: u64,
    k_end: int,
)
    ensures
        finished_released(v, pets, delta, k_end).pairs.len() <= v.pairs.len(),
    decreases k_end,
{
    if k_end > 0 {
        lemma_finished_released_bound(v, pets, delta, k_end - 1);
        if pets[k_end - 1].conversation_ends(delta) {
            lemma_without_entity_bound(
                finished_released(v, pets, delta, k_end - 1),
                pets[k_end - 1].entity,
            );
        }
    }
}

impl Simulation {
    /// Decides whether the icons of the conversations are well formed.
    pub fn is_well_formed(&self) -> (b: bool)
        ensures
            b == self@.well_formed(),
    {
        let mut k: usize = 0;
        while k < self.icons.len()
            invariant
                k <= self.icons.len(),
                forall|j: int| 0 <= j < k ==> (#[trigger] self.icons@[j]).well_formed(),
            decreases self.icons.len() - k,
        {
            if !self.icons[k].is_well_formed() {
                assert(!self@.icons[k as int].well_formed());
                return false;
            }
            k += 1;
        }
        true
    }

    /// Decides whether the handles that a tick sets aside are left.
    pub fn has_handles(&self) -> (b: bool)
        ensures
            b == (self@.next_entity + self@.handles_wanted() <= u64::MAX),
    {
        let n = self.pets.len() as u128;
        let queued = self.history.entities_to_emote.len() as u128;
        let pairs = self.conversations.pair_entities_in_conversation.len() as u128;
        assert(queued * n <= 0xFFFF_FFFF_FFFF_FFFF * 0xFFFF_FFFF_FFFF_FFFF && n * n
            <= 0xFFFF_FFFF_FFFF_FFFF * 0xFFFF_FFFF_FFFF_FFFF) by (nonlinear_arith)
            requires
                0 <= queued <= 0xFFFF_FFFF_FFFF_FFFF,
                0 <= n <= 0xFFFF_FFFF_FFFF_FFFF,
        ;
        let for_reactions: u128 = queued * n;
        let for_pairs: u128 = n * n;
        let room: u128 = (u64::MAX - self.commands.next_entity) as u128;
        if for_reactions > room || for_pairs > room {
            false
        } else {
            for_reactions + pairs + for_pairs <= room
        }
    }

    /// Advances the simulation by `delta` milliseconds.
    ///
    /// The tick is refused, and nothing changes, if the handles that it sets
    /// aside are not left. Otherwise the pets roam as chance has it, and the
    /// rest of the tick follows from where they went. Returns the requests
    /// to start a conversation.
    pub fn tick(&mut self, delta: u64) -> (outcome: Result<
        Vec<ConversationActionEvent>,
        TickError,
    >)
        requires
            old(self)@.well_formed(),
        ensures
            final(self)@.well_formed(),
            old(self)@.conversations.exclusive() ==> final(self)@.conversations.exclusive(),
            match outcome {
                Ok(requests) => {
                    &&& old(self)@.next_entity + old(self)@.handles_wanted() <= u64::MAX
                    &&& exists|roamed: Seq<EtherPet>|
                        {
                            &&& #[trigger] roamed_all(old(self)@.pets, roamed, delta, old(self)@.walls)
                            &&& final(self)@ == old(self)@.ticked(roamed, delta).state
                            &&& requests@ == old(self)@.ticked(roamed, delta).requests
                        }
                },
                Err(error) => {
                    &&& error == TickError::OutOfHandles
                    &&& old(self)@.next_entity + old(self)@.handles_wanted() > u64::MAX
                    &&& final(self)@ == old(self)@
                },
            },
    {
        if !self.has_handles() {
            return Err(TickError::OutOfHandles);
        }
        let ghost start = self@;
        let ghost n = self.pets@.len() as int;

        inactive_player_roaming_system(delta, &self.walls, &mut self.pets);
        let ghost roamed = self.pets@;

        let requests = inactive_player_proximity_detection(&mut self.conversations, &self.pets);
        inactive_player_proximity_detection_event(&requests, &mut self.pets);
        let ghost scan = resolve(start.conversations, snapshot_spec(roamed));
        let ghost asked = self.pets@;
        proof {
            lemma_notified_length(roamed, scan.events, scan.events.len() as int);
        }

        pair_entity_convergence_system(&mut self.conversations, &mut self.pets, &self.walls);
        let ghost met = converge(asked, scan.state, start.walls);
        proof {
            lemma_converge_length(asked, scan.state, start.walls);
        }

        let reactions = tick_player_interaction_timers(
            delta,
            &mut self.pets,
            &mut self.conversations,
            &mut self.history,
        );
        let ghost pets = self.pets@;
        let ghost released = self.conversations@;
        proof {
            assert(pets =~= all_aged(met.pets, delta));
            lemma_snapshot_bound(roamed);
            lemma_resolve_rows_bound(
                Resolution { state: start.conversations, events: Seq::empty() },
                snapshot_spec(roamed),
                snapshot_spec(roamed).len() as int,
            );
            let g = gather(
                Gathering { pets: asked, approaches: Seq::empty() },
                scan.state.pairs,
                scan.state.pairs.len() as int,
            );
            let m = march(
                Marching { pets: g.pets, stuck: Seq::empty() },
                start.walls,
                g.approaches,
                g.approaches.len() as int,
            );
            lemma_release_all_bound(scan.state, m.stuck, m.stuck.len() as int);
            lemma_finished_released_bound(met.state, met.pets, delta, met.pets.len() as int);
            let s = snapshot_spec(roamed).len() as int;
            assert(s * s <= n * n) by (nonlinear_arith)
                requires
                    0 <= s <= n,
            ;
            assert(released.pairs.len() <= start.conversations.pairs.len() + n * n);
            assert(reactions@.len() * n <= start.history.len() * n) by (nonlinear_arith)
                requires
                    0 <= reactions@.len() <= start.history.len(),
                    0 <= n,
            ;
        }

        emote_event(
            &mut self.commands,
            &reactions,
            &self.pets,
            &self.emotion_icon_sheet,
            &mut self.emotes,
        );
        let ghost born = answered(reactions@, pets, start.next_entity, reactions@.len() as int);
        proof {
            lemma_answered_bound(reactions@, pets, start.next_entity, reactions@.len() as int);
        }
        emote_movement_system(&mut self.emotes, &self.pets, &mut self.commands);
        emote_icon_tick(delta, &mut self.emotes, &mut self.commands);

        let ghost handle = self.commands.next_entity;
        chatting_icon_spawner(
            &mut self.commands,
            &mut self.conversations,
            &self.chatting_icon_sheet,
            &mut self.icons,
        );
        proof {
            lemma_new_icons_well_formed(released.pairs, handle, released.pairs.len() as int);
            let fresh = new_icons(released.pairs, handle, released.pairs.len() as int);
            assert(self.icons@ == start.icons + fresh);
            assert forall|k: int| 0 <= k < self.icons@.len() implies (
            #[trigger] self.icons@[k]).well_formed() by {
                if k < start.icons.len() {
                    assert(self.icons@[k] == start.icons[k]);
                } else {
                    assert(self.icons@[k] == fresh[k - start.icons.len()]);
                }
            }
        }
        chatting_icon_tick(delta, &mut self.icons, &mut self.commands);

        proof {
            assert(roamed_all(start.pets, roamed, delta, start.walls));
            assert(self@ == start.ticked(roamed, delta).state);
            if start.conversations.exclusive() {
                assert(self@.conversations.exclusive());
            }
        }
        Ok(requests)
    }
}

/// Asking pets to talk neither adds nor removes a pet.
pub proof fn lemma_notified_length(
    pets: Seq<EtherPet>,
    events: Seq<ConversationActionEvent>,
    k_end: int,
)
    ensures
        notified_all(pets, events, k_end).len() == pets.len(),
    decreases k_end,
{
    if k_end > 0 {
        lemma_notified_length(pets, events, k_end - 1);
    }
}

/// Convergence neither adds nor removes a pet.
pub proof fn lemma_converge_length(pets: Seq<EtherPet>, state: ConversationView, walls: Seq<Vec3>)
    ensures
        converge(pets, state, walls).pets.len() == pets.len(),
{
    lemma_gather(pets, state.pairs, state.pairs.len() as int);
    let g = gather(
        Gathering { pets, approaches: Seq::empty() },
        state.pairs,
        state.pairs.len() as int,
    );
    lemma_march_length(
        Marching { pets: g.pets, stuck: Seq::empty() },
        walls,
        g.approaches,
        g.approaches.len() as int,
    );
}

/// The second pass of the controller neither adds nor removes a pet.
pub proof fn lemma_march_length(
    m: Marching,
    walls: Seq<Vec3>,
    approaches: Seq<Approach>,
    k_end: int,
)
    ensures
        march(m, walls, approaches, k_end).pets.len() == m.pets.len(),
    decreases k_end,
{
    if k_end > 0 {
        lemma_march_length(m, walls, approaches, k_end - 1);
    }
}

/// The reactions create at most one icon for each request and pet.
pub proof fn lemma_answered_bound(
    events: Seq<EmoteEvent>,
    pets: Seq<EtherPet>,
    first_entity: Entity,
    k_end: int,
)
    requires
        0 <= k_end <= events.len(),
    ensures
        answered(events, pets, first_entity, k_end).len() <= k_end * pets.len(),
    decreases k_end,
{
    if k_end > 0 {
        lemma_answered_bound(events, pets, first_entity, k_end - 1);
        let earlier = answered(events, pets, first_entity, k_end - 1);
        lemma_spawned_count(
            pets,
            events[k_end - 1].entity_uuid@,
            emotion_index_spec(events[k_end - 1].emote@),
            (first_entity + earlier.len()) as u64,
            pets.len() as int,
        );
        assert(k_end * pets.len() == (k_end - 1) * pets.len() + pets.len()) by (nonlinear_arith);
    } else {
        assert(k_end * pets.len() == 0) by (nonlinear_arith)
            requires
                k_end == 0,
        ;
    }
}

} // verus!
