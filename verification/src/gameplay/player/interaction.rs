//! The interaction timers of the pets: answering requests to talk, ageing
//! cooldowns and conversations, and ending the conversations that are over.

use vstd::prelude::*;
use crate::gameplay::events::ConversationActionEvent;
use crate::gameplay::player::components::{
    ConversationHistoryResource, ConversationView, EntityPairConversationState, EtherPet,
};
use crate::gameplay::player::convergence::{find_pet, first_pet};
use crate::gameplay::player::conversation::{
    lemma_without_entity_exclusive, remove_entity_from_conversation,
};
use crate::gameplay::player::events::EmoteEvent;

verus! {

impl EtherPet {
    /// The pet after a request to talk has reached it.
    pub open spec fn asked_to_talk(self) -> EtherPet {
        EtherPet { interaction_timers: self.interaction_timers.activated(), ..self }
    }

    /// The pet after its interaction timers have aged by `delta`
    /// milliseconds. A pet steered by hand is left alone.
    pub open spec fn timers_aged(self, delta: u64) -> EtherPet {
        if self.active {
            self
        } else {
            EtherPet { interaction_timers: self.interaction_timers.ticked(delta), ..self }
        }
    }

    /// Whether the pet's conversation ends on a tick of `delta` milliseconds.
    pub open spec fn conversation_ends(self, delta: u64) -> bool {
        !self.active && self.interaction_timers.completes(delta)
    }
}

/// The pets after one notification: the anchor and the responder, each if
/// found, have been asked to talk.
pub open spec fn notified(pets: Seq<EtherPet>, event: ConversationActionEvent) -> Seq<EtherPet> {
    let first = first_pet(pets, event.entity_a, 0);
    let asked = if 0 <= first < pets.len() {
        pets.update(first, pets[first].asked_to_talk())
    } else {
        pets
    };
    let second = first_pet(asked, event.entity_b, 0);
    if 0 <= second < asked.len() {
        asked.update(second, asked[second].asked_to_talk())
    } else {
        asked
    }
}

/// The pets after the first `k_end` notifications.
pub open spec fn notified_all(
    pets: Seq<EtherPet>,
    events: Seq<ConversationActionEvent>,
    k_end: int,
) -> Seq<EtherPet>
    decreases k_end,
{
    if k_end <= 0 {
        pets
    } else {
        notified(notified_all(pets, events, k_end - 1), events[k_end - 1])
    }
}

/// The record of conversations after each of the first `k_end` pets whose
/// conversation ends on this tick has left it, in the order of the store.
pub open spec fn finished_released(
    v: ConversationView,
    pets: Seq<EtherPet>,
    delta: u64,
    k_end: int,
) -> ConversationView
    decreases k_end,
{
    if k_end <= 0 {
        v
    } else if pets[k_end - 1].conversation_ends(delta) {
        finished_released(v, pets, delta, k_end - 1).without_entity(pets[k_end - 1].entity)
    } else {
        finished_released(v, pets, delta, k_end - 1)
    }
}

/// Whether the conversation of one of the first `k_end` pets ends on this
/// tick.
pub open spec fn any_conversation_ends(pets: Seq<EtherPet>, delta: u64, k_end: int) -> bool {
    exists|i: int| 0 <= i < k_end && i < pets.len() && (#[trigger] pets[i]).conversation_ends(delta)
}

/// Releasing the pets whose conversations end keeps an exclusive record
/// exclusive.
pub proof fn lemma_finished_released_exclusive(
    v: ConversationView,
    pets: Seq<EtherPet>,
    delta: u64,
    k_end: int,
)
    requires
        v.exclusive(),
    ensures
        finished_released(v, pets, delta, k_end).exclusive(),
    decreases k_end,
{
    if k_end > 0 {
        lemma_finished_released_exclusive(v, pets, delta, k_end - 1);
        if pets[k_end - 1].conversation_ends(delta) {
            lemma_without_entity_exclusive(
                finished_released(v, pets, delta, k_end - 1),
                pets[k_end - 1].entity,
            );
        }
    }
}

/// Delivers the notifications of new conversations: the anchor and the
/// responder of each become active, if their cooldown allows.
pub fn inactive_player_proximity_detection_event(
    events: &Vec<ConversationActionEvent>,
    pets: &mut Vec<EtherPet>,
)
    ensures
        final(pets)@ == notified_all(old(pets)@, events@, events@.len() as int),
{
    let mut k: usize = 0;
    while k < events.len()
        invariant
            k <= events.len(),
            pets@ == notified_all(old(pets)@, events@, k as int),
        decreases events.len() - k,
    {
        let event = events[k];
        let first = find_pet(pets, event.entity_a);
        if first < pets.len() {
            pets[first].interaction_timers.activate();
        }
        let second = find_pet(pets, event.entity_b);
        if second < pets.len() {
            pets[second].interaction_timers.activate();
        }
        k += 1;
    }
}

/// Moves every queued reaction, oldest first, to the end of `events`.
pub fn drain_reactions(history: &mut ConversationHistoryResource, events: &mut Vec<EmoteEvent>)
    ensures
        final(history).entities_to_emote@ == Seq::<EmoteEvent>::empty(),
        final(events)@ == old(events)@ + old(history).entities_to_emote@,
{
    loop
        invariant
            events@ + history.entities_to_emote@ == old(events)@ + old(history).entities_to_emote@,
        ensures
            history.entities_to_emote@.len() == 0,
            events@ + history.entities_to_emote@ == old(events)@ + old(history).entities_to_emote@,
        decreases history.entities_to_emote@.len(),
    {
        let ghost queue = history.entities_to_emote@;
        let ghost sent = events@;
        match history.entities_to_emote.pop_front() {
            Some(response) => {
                events.push(response);
                assert(events@ + history.entities_to_emote@ == sent + queue);
            },
            None => {
                break ;
            },
        }
    }
    assert(history.entities_to_emote@ == Seq::<EmoteEvent>::empty());
    assert(events@ + history.entities_to_emote@ == events@);
}

/// Ages the interaction timers of every pet that is not steered by hand.
///
/// When the conversation of a pet ends, every reaction queued so far is
/// handed on, oldest first, and the pet leaves its conversation, which frees
/// its partner too. Returns the reactions handed on.
pub fn tick_player_interaction_timers(
    delta: u64,
    pets: &mut Vec<EtherPet>,
    entity_pair_convo_state: &mut EntityPairConversationState,
    history: &mut ConversationHistoryResource,
) -> (emotes: Vec<EmoteEvent>)
    ensures
        final(pets)@.len() == old(pets)@.len(),
        forall|i: int|
            0 <= i < old(pets)@.len() ==> #[trigger] final(pets)@[i] == old(pets)@[i].timers_aged(
                delta,
            ),
        final(entity_pair_convo_state)@ == finished_released(
            old(entity_pair_convo_state)@,
            old(pets)@,
            delta,
            old(pets)@.len() as int,
        ),
        old(entity_pair_convo_state)@.exclusive() ==> final(entity_pair_convo_state)@.exclusive(),
        any_conversation_ends(old(pets)@, delta, old(pets)@.len() as int) ==> emotes@ == old(history).entities_to_emote@ && final(history).entities_to_emote@ == Seq::<EmoteEvent>::empty(),
        !any_conversation_ends(old(pets)@, delta, old(pets)@.len() as int) ==> emotes@ == Seq::<
            EmoteEvent,
        >::empty() && final(history).entities_to_emote@ == old(history).entities_to_emote@,
{
    let mut emotes: Vec<EmoteEvent> = Vec::new();
    let ghost pets0 = pets@;
    let ghost state0 = entity_pair_convo_state@;
    let ghost queue0 = history.entities_to_emote@;
    let n = pets.len();
    let mut i: usize = 0;
    while i < n
        invariant
            i <= n,
            n == pets@.len(),
            pets0.len() == n,
            forall|j: int| 0 <= j < i ==> #[trigger] pets@[j] == pets0[j].timers_aged(delta),
            forall|j: int| i <= j < n ==> #[trigger] pets@[j] == pets0[j],
            entity_pair_convo_state@ == finished_released(state0, pets0, delta, i as int),
            state0.exclusive() ==> entity_pair_convo_state@.exclusive(),
            any_conversation_ends(pets0, delta, i as int) ==> emotes@ == queue0
                && history.entities_to_emote@ == Seq::<EmoteEvent>::empty(),
            !any_conversation_ends(pets0, delta, i as int) ==> emotes@ == Seq::<
                EmoteEvent,
            >::empty() && history.entities_to_emote@ == queue0,
        decreases n - i,
    {
        assert(pets@[i as int] == pets0[i as int]);
        let ghost ended_before = any_conversation_ends(pets0, delta, i as int);
        if !pets[i].active {
            let completed = pets[i].interaction_timers.tick(delta);
            if completed {
                drain_reactions(history, &mut emotes);
                let entity = pets[i].entity;
                proof {
                    if state0.exclusive() {
                        lemma_without_entity_exclusive(entity_pair_convo_state@, entity);
                    }
                }
                remove_entity_from_conversation(entity, entity_pair_convo_state);
                assert(any_conversation_ends(pets0, delta, i + 1));
            }
        }
        proof {
            if !pets0[i as int].conversation_ends(delta) {
                if any_conversation_ends(pets0, delta, i + 1) {
                    let j = choose|j: int|
                        0 <= j < i + 1 && j < pets0.len() && (#[trigger] pets0[j]).conversation_ends(
                            delta,
                        );
                    assert(j < i);
                    assert(ended_before);
                }
            }
            if ended_before {
                let j = choose|j: int|
                    0 <= j < i && j < pets0.len() && (#[trigger] pets0[j]).conversation_ends(delta);
                assert(any_conversation_ends(pets0, delta, i + 1));
            }
        }
        i += 1;
    }
    emotes
}

} // verus!
