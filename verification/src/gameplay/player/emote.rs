//! The emote pipeline: reactions requested for a pet become icons that
//! hover over it for a fixed time and then disappear.

use vstd::prelude::*;
use crate::commands::{Command, Commands, Entity};
use crate::config::{EMOTE_HEIGHT, EMOTE_LAYER};
use crate::gameplay::components::{EmoteIcon, IconAnimation};
use crate::gameplay::player::components::{EmoteParentEntity, EtherPet};
use crate::gameplay::player::events::EmoteEvent;
use crate::gameplay::spritesheet::components::EmotionIconSheet;
use crate::gameplay::spritesheet::systems::{spawn_emote_sprite, sprite_command};
use crate::math::Vec3;
use crate::text::same_text;
use crate::time::{lemma_total_time_grows, total_time, Timer, TimerMode};

verus! {

/// How long a reaction icon is shown: half the length of a conversation.
pub const EMOTE_LIFETIME: u64 = 5_000;

/// A reaction icon: its own handle, the pet it belongs to, where it is
/// shown, the timer that ends it, and the cell of the sheet it shows.
#[derive(Clone, Copy, Debug, PartialEq, Eq, Structural)]
pub struct Emote {
    pub entity: Entity,
    pub parent: EmoteParentEntity,
    pub translation: Vec3,
    pub icon: EmoteIcon,
    pub animation: IconAnimation,
    pub emotion_index: usize,
}

/// The cell of the icon sheet that shows the emotion called `emotion`.
/// Every name but the five listed shows the last cell.
pub open spec fn emotion_index_spec(emotion: Seq<char>) -> usize {
    if emotion == "Happiness"@ {
        0
    } else if emotion == "Excitement"@ {
        1
    } else if emotion == "Sadness"@ {
        2
    } else if emotion == "Fear"@ {
        3
    } else if emotion == "Disgust"@ {
        4
    } else {
        5
    }
}

/// The place of a new reaction icon: above the pet, in front of everything.
pub open spec fn emote_origin_spec(pet: Vec3) -> Vec3 {
    pet.displaced(0, EMOTE_HEIGHT as int, EMOTE_LAYER as int)
}

/// The place of a reaction icon that follows its pet: above the pet, on the
/// pet's layer.
pub open spec fn emote_follow_spec(pet: Vec3) -> Vec3 {
    pet.displaced(0, EMOTE_HEIGHT as int, 0)
}

/// The reaction icon created for `pet`, with the handle `entity`.
pub open spec fn new_emote(pet: EtherPet, entity: Entity, emotion_index: usize) -> Emote {
    Emote {
        entity,
        parent: EmoteParentEntity { entity: pet.entity },
        translation: emote_origin_spec(pet.translation),
        icon: EmoteIcon {
            emote_icon_despawn_timer: Timer::fresh(EMOTE_LIFETIME, TimerMode::Once),
        },
        animation: IconAnimation { current_frame: 0, frame_count: 4 },
        emotion_index,
    }
}

/// The reaction icons created for those of the first `k_end` pets whose
/// identity is `uuid`, one for each, in the order of the store. Their
/// handles count up from `first_entity`.
pub open spec fn spawned_emotes(
    pets: Seq<EtherPet>,
    uuid: Seq<char>,
    emotion_index: usize,
    first_entity: Entity,
    k_end: int,
) -> Seq<Emote>
    decreases k_end,
{
    if k_end <= 0 {
        Seq::empty()
    } else {
        let earlier = spawned_emotes(pets, uuid, emotion_index, first_entity, k_end - 1);
        if pets[k_end - 1].unique_id.uuid@ == uuid {
            earlier.push(
                new_emote(pets[k_end - 1], (first_entity + earlier.len()) as u64, emotion_index),
            )
        } else {
            earlier
        }
    }
}

/// The number of the first `k_end` pets whose identity is `uuid`.
pub open spec fn count_matching(pets: Seq<EtherPet>, uuid: Seq<char>, k_end: int) -> nat
    decreases k_end,
{
    if k_end <= 0 {
        0
    } else if pets[k_end - 1].unique_id.uuid@ == uuid {
        count_matching(pets, uuid, k_end - 1) + 1
    } else {
        count_matching(pets, uuid, k_end - 1)
    }
}

/// The commands that show `emotes`, one for each, in order.
pub open spec fn emote_commands(emotes: Seq<Emote>, sheet: EmotionIconSheet) -> Seq<Command> {
    Seq::new(
        emotes.len(),
        |k: int| sprite_command(emotes[k].entity, sheet.0, emotes[k].emotion_index, emotes[k].translation),
    )
}

impl Emote {
    /// The icon after `delta` milliseconds.
    pub open spec fn ticked(self, delta: u64) -> Emote {
        Emote {
            icon: EmoteIcon {
                emote_icon_despawn_timer: self.icon.emote_icon_despawn_timer.ticked(delta),
            },
            ..self
        }
    }

    /// Whether the icon's time is up after `delta` milliseconds.
    pub open spec fn expires(self, delta: u64) -> bool {
        self.icon.emote_icon_despawn_timer.ticked(delta).finished
    }
}

/// The icons that are still shown after `delta` milliseconds, of the first
/// `k_end`: those whose time is not up, aged, in order.
pub open spec fn surviving_emotes(emotes: Seq<Emote>, delta: u64, k_end: int) -> Seq<Emote>
    decreases k_end,
{
    if k_end <= 0 {
        Seq::empty()
    } else if emotes[k_end - 1].expires(delta) {
        surviving_emotes(emotes, delta, k_end - 1)
    } else {
        surviving_emotes(emotes, delta, k_end - 1).push(emotes[k_end - 1].ticked(delta))
    }
}

/// The commands that remove the icons whose time is up after `delta`
/// milliseconds, of the first `k_end`, in order.
pub open spec fn expired_emotes(emotes: Seq<Emote>, delta: u64, k_end: int) -> Seq<Command>
    decreases k_end,
{
    if k_end <= 0 {
        Seq::empty()
    } else if emotes[k_end - 1].expires(delta) {
        expired_emotes(emotes, delta, k_end - 1).push(
            Command::Despawn { entity: emotes[k_end - 1].entity },
        )
    } else {
        expired_emotes(emotes, delta, k_end - 1)
    }
}

/// The first index at or after `from` of a pet with the handle `entity`, or
/// the number of pets if there is none.
pub open spec fn first_with_entity(pets: Seq<EtherPet>, entity: Entity, from: int) -> int
    decreases pets.len() - from,
{
    if from < 0 || from >= pets.len() {
        pets.len() as int
    } else if pets[from].entity == entity {
        from
    } else {
        first_with_entity(pets, entity, from + 1)
    }
}

/// Whether the pet that the icon belongs to is found among `pets`.
pub open spec fn parent_found(emote: Emote, pets: Seq<EtherPet>) -> bool {
    0 <= first_with_entity(pets, emote.parent.entity, 0) < pets.len()
}

/// The icon after it has caught up with its pet.
pub open spec fn following(emote: Emote, pets: Seq<EtherPet>) -> Emote
    recommends
        parent_found(emote, pets),
{
    Emote {
        translation: emote_follow_spec(
            pets[first_with_entity(pets, emote.parent.entity, 0)].translation,
        ),
        ..emote
    }
}

/// Those of the first `k_end` icons whose pet is found, each caught up with
/// its pet, in order.
pub open spec fn followers(emotes: Seq<Emote>, pets: Seq<EtherPet>, k_end: int) -> Seq<Emote>
    decreases k_end,
{
    if k_end <= 0 {
        Seq::empty()
    } else if parent_found(emotes[k_end - 1], pets) {
        followers(emotes, pets, k_end - 1).push(following(emotes[k_end - 1], pets))
    } else {
        followers(emotes, pets, k_end - 1)
    }
}

/// The commands that remove those of the first `k_end` icons whose pet is
/// not found, in order.
pub open spec fn orphans(emotes: Seq<Emote>, pets: Seq<EtherPet>, k_end: int) -> Seq<Command>
    decreases k_end,
{
    if k_end <= 0 {
        Seq::empty()
    } else if parent_found(emotes[k_end - 1], pets) {
        orphans(emotes, pets, k_end - 1)
    } else {
        orphans(emotes, pets, k_end - 1).push(Command::Despawn { entity: emotes[k_end - 1].entity })
    }
}

/// Finds the cell of the icon sheet that shows the emotion called `emotion`.
pub fn get_emotion_index(emotion: &str) -> (index: usize)
    ensures
        index == emotion_index_spec(emotion@),
        index <= 5,
{
    if same_text(emotion, "Happiness") {
        0
    } else if same_text(emotion, "Excitement") {
        1
    } else if same_text(emotion, "Sadness") {
        2
    } else if same_text(emotion, "Fear") {
        3
    } else if same_text(emotion, "Disgust") {
        4
    } else {
        5
    }
}

/// Creates a reaction icon for every pet whose identity is `entity_id`.
pub fn spawn_emote(
    commands: &mut Commands,
    pets: &Vec<EtherPet>,
    entity_id: &str,
    emotion_index: usize,
    emotion_icon_sheet: &EmotionIconSheet,
    emotes: &mut Vec<Emote>,
)
    requires
        old(commands).has_room(pets@.len() as int),
    ensures
        final(emotes)@ == old(emotes)@ + spawned_emotes(
            pets@,
            entity_id@,
            emotion_index,
            old(commands).next_entity,
            pets@.len() as int,
        ),
        final(commands).queue@ == old(commands).queue@ + emote_commands(
            spawned_emotes(
                pets@,
                entity_id@,
                emotion_index,
                old(commands).next_entity,
                pets@.len() as int,
            ),
            *emotion_icon_sheet,
        ),
        final(commands).next_entity == old(commands).next_entity + count_matching(
            pets@,
            entity_id@,
            pets@.len() as int,
        ),
{
    let ghost first = commands.next_entity;
    let mut k: usize = 0;
    while k < pets.len()
        invariant
            k <= pets.len(),
            first == old(commands).next_entity,
            first + pets@.len() <= u64::MAX,
            spawned_emotes(pets@, entity_id@, emotion_index, first, k as int).len()
                == count_matching(pets@, entity_id@, k as int) <= k,
            commands.next_entity == first + count_matching(pets@, entity_id@, k as int),
            emotes@ == old(emotes)@ + spawned_emotes(
                pets@,
                entity_id@,
                emotion_index,
                first,
                k as int,
            ),
            commands.queue@ == old(commands).queue@ + emote_commands(
                spawned_emotes(pets@, entity_id@, emotion_index, first, k as int),
                *emotion_icon_sheet,
            ),
        decreases pets.len() - k,
    {
        let pet = &pets[k];
        if same_text(pet.unique_id.uuid.as_str(), entity_id) {
            let emote_translation = pet.translation.displace(
                0,
                EMOTE_HEIGHT as i128,
                EMOTE_LAYER as i128,
            );
            let emote_entity = spawn_emote_sprite(
                commands,
                emotion_icon_sheet,
                emotion_index,
                emote_translation,
            );
            emotes.push(
                Emote {
                    entity: emote_entity,
                    parent: EmoteParentEntity { entity: pet.entity },
                    translation: emote_translation,
                    icon: EmoteIcon {
                        emote_icon_despawn_timer: Timer::from_millis(
                            EMOTE_LIFETIME,
                            TimerMode::Once,
                        ),
                    },
                    animation: IconAnimation { current_frame: 0, frame_count: 4 },
                    emotion_index,
                },
            );
        }
        k += 1;
    }
}

/// Answers every reaction request: for each, in order, a reaction icon is
/// created for every pet whose identity the request names.
pub fn emote_event(
    commands: &mut Commands,
    events: &Vec<EmoteEvent>,
    pets: &Vec<EtherPet>,
    emotion_icon_sheet: &EmotionIconSheet,
    emotes: &mut Vec<Emote>,
)
    requires
        old(commands).has_room((events@.len() * pets@.len()) as int),
    ensures
        final(emotes)@ == old(emotes)@ + answered(
            events@,
            pets@,
            old(commands).next_entity,
            events@.len() as int,
        ),
        final(commands).queue@ == old(commands).queue@ + emote_commands(
            answered(events@, pets@, old(commands).next_entity, events@.len() as int),
            *emotion_icon_sheet,
        ),
        final(commands).next_entity == old(commands).next_entity + answered(
            events@,
            pets@,
            old(commands).next_entity,
            events@.len() as int,
        ).len(),
{
    let ghost first = commands.next_entity;
    let mut k: usize = 0;
    while k < events.len()
        invariant
            k <= events.len(),
            first == old(commands).next_entity,
            first + events@.len() * pets@.len() <= u64::MAX,
            answered(events@, pets@, first, k as int).len() <= k * pets@.len(),
            commands.next_entity == first + answered(events@, pets@, first, k as int).len(),
            emotes@ == old(emotes)@ + answered(events@, pets@, first, k as int),
            commands.queue@ == old(commands).queue@ + emote_commands(
                answered(events@, pets@, first, k as int),
                *emotion_icon_sheet,
            ),
        decreases events.len() - k,
    {
        let event = &events[k];
        let emotion_index = get_emotion_index(event.emote.as_str());
        proof {
            lemma_spawned_count(
                pets@,
                event.entity_uuid@,
                emotion_index,
                commands.next_entity,
                pets@.len() as int,
            );
            assert((k + 1) * pets@.len() == k * pets@.len() + pets@.len()) by (nonlinear_arith);
            assert((k + 1) * pets@.len() <= events@.len() * pets@.len()) by (nonlinear_arith)
                requires
                    k + 1 <= events@.len(),
            ;
        }
        spawn_emote(
            commands,
            pets,
            event.entity_uuid.as_str(),
            emotion_index,
            emotion_icon_sheet,
            emotes,
        );
        k += 1;
    }
}

/// The reaction icons created in answer to the first `k_end` requests.
pub open spec fn answered(
    events: Seq<EmoteEvent>,
    pets: Seq<EtherPet>,
    first_entity: Entity,
    k_end: int,
) -> Seq<Emote>
    decreases k_end,
{
    if k_end <= 0 {
        Seq::empty()
    } else {
        let earlier = answered(events, pets, first_entity, k_end - 1);
        earlier + spawned_emotes(
            pets,
            events[k_end - 1].entity_uuid@,
            emotion_index_spec(events[k_end - 1].emote@),
            (first_entity + earlier.len()) as u64,
            pets.len() as int,
        )
    }
}

/// A reaction creates exactly one icon for each pet whose identity it
/// names: as many icons as there are such pets.
pub proof fn lemma_spawned_count(
    pets: Seq<EtherPet>,
    uuid: Seq<char>,
    emotion_index: usize,
    first_entity: Entity,
    k_end: int,
)
    requires
        0 <= k_end <= pets.len(),
    ensures
        spawned_emotes(pets, uuid, emotion_index, first_entity, k_end).len() == count_matching(
            pets,
            uuid,
            k_end,
        ),
        count_matching(pets, uuid, k_end) <= k_end,
    decreases k_end,
{
    if k_end > 0 {
        lemma_spawned_count(pets, uuid, emotion_index, first_entity, k_end - 1);
    }
}

/// Every icon that a reaction creates belongs to a pet whose identity the
/// reaction names, hovers above that pet, and starts with its full lifetime
/// ahead of it.
pub proof fn lemma_spawned_belong(
    pets: Seq<EtherPet>,
    uuid: Seq<char>,
    emotion_index: usize,
    first_entity: Entity,
    k_end: int,
    j: int,
)
    requires
        0 <= k_end <= pets.len(),
        0 <= j < spawned_emotes(pets, uuid, emotion_index, first_entity, k_end).len(),
    ensures
        exists|i: int|
            0 <= i < k_end && (#[trigger] pets[i]).unique_id.uuid@ == uuid && spawned_emotes(
                pets,
                uuid,
                emotion_index,
                first_entity,
                k_end,
            )[j].parent.entity == pets[i].entity && spawned_emotes(
                pets,
                uuid,
                emotion_index,
                first_entity,
                k_end,
            )[j].translation == emote_origin_spec(pets[i].translation),
        spawned_emotes(
            pets,
            uuid,
            emotion_index,
            first_entity,
            k_end,
        )[j].icon.emote_icon_despawn_timer == Timer::fresh(EMOTE_LIFETIME, TimerMode::Once),
    decreases k_end,
{
    let earlier = spawned_emotes(pets, uuid, emotion_index, first_entity, k_end - 1);
    if j < earlier.len() {
        lemma_spawned_belong(pets, uuid, emotion_index, first_entity, k_end - 1, j);
        let i = choose|i: int|
            0 <= i < k_end - 1 && (#[trigger] pets[i]).unique_id.uuid@ == uuid && earlier[j].parent.entity
                == pets[i].entity && earlier[j].translation == emote_origin_spec(
                pets[i].translation,
            );
        assert(pets[i].unique_id.uuid@ == uuid);
    } else {
        assert(pets[k_end - 1].unique_id.uuid@ == uuid);
    }
}

/// Moves every reaction icon to its pet. An icon whose pet is no longer
/// found is dropped, and its removal is queued.
pub fn emote_movement_system(
    emotes: &mut Vec<Emote>,
    pets: &Vec<EtherPet>,
    commands: &mut Commands,
)
    ensures
        final(emotes)@ == followers(old(emotes)@, pets@, old(emotes)@.len() as int),
        final(commands).queue@ == old(commands).queue@ + orphans(
            old(emotes)@,
            pets@,
            old(emotes)@.len() as int,
        ),
        final(commands).next_entity == old(commands).next_entity,
{
    let mut kept: Vec<Emote> = Vec::new();
    let n = emotes.len();
    let mut k: usize = 0;
    while k < n
        invariant
            k <= n,
            n == emotes@.len(),
            emotes@ == old(emotes)@,
            kept@ == followers(emotes@, pets@, k as int),
            commands.queue@ == old(commands).queue@ + orphans(emotes@, pets@, k as int),
            commands.next_entity == old(commands).next_entity,
        decreases n - k,
    {
        let mut emote = emotes[k];
        let parent = emote.parent.entity;
        let mut i: usize = 0;
        while i < pets.len() && pets[i].entity != parent
            invariant
                i <= pets.len(),
                first_with_entity(pets@, parent, 0) == first_with_entity(pets@, parent, i as int),
            decreases pets.len() - i,
        {
            i += 1;
        }
        if i < pets.len() {
            emote.translation = pets[i].translation.displace(0, EMOTE_HEIGHT as i128, 0);
            kept.push(emote);
        } else {
            commands.despawn(emote.entity);
        }
        k += 1;
    }
    *emotes = kept;
}

/// What the movement pass keeps: an icon is among the followers, caught up
/// with its pet, exactly if its pet is found, and its removal is queued
/// exactly if it is not.
pub proof fn lemma_followers_kept(emotes: Seq<Emote>, pets: Seq<EtherPet>, k_end: int, k: int)
    requires
        0 <= k < k_end <= emotes.len(),
    ensures
        parent_found(emotes[k], pets) ==> followers(emotes, pets, k_end).contains(
            following(emotes[k], pets),
        ),
        !parent_found(emotes[k], pets) ==> orphans(emotes, pets, k_end).contains(
            Command::Despawn { entity: emotes[k].entity },
        ),
        followers(emotes, pets, k_end).len() + orphans(emotes, pets, k_end).len() == k_end,
    decreases k_end,
{
    let kept = followers(emotes, pets, k_end);
    let gone = orphans(emotes, pets, k_end);
    let kept_before = followers(emotes, pets, k_end - 1);
    let gone_before = orphans(emotes, pets, k_end - 1);
    let last = emotes[k_end - 1];
    assert(kept == if parent_found(last, pets) {
        kept_before.push(following(last, pets))
    } else {
        kept_before
    });
    assert(gone == if parent_found(last, pets) {
        gone_before
    } else {
        gone_before.push(Command::Despawn { entity: last.entity })
    });
    if k_end > 1 {
        lemma_followers_kept(emotes, pets, k_end - 1, if k < k_end - 1 {
            k
        } else {
            0
        });
    } else {
        assert(kept_before.len() == 0 && gone_before.len() == 0);
    }
    if k < k_end - 1 {
        if parent_found(emotes[k], pets) {
            let at = choose|at: int|
                0 <= at < kept_before.len() && kept_before[at] == following(emotes[k], pets);
            assert(kept[at] == following(emotes[k], pets));
        } else {
            let at = choose|at: int|
                0 <= at < gone_before.len() && gone_before[at] == (Command::Despawn {
                    entity: emotes[k].entity,
                });
            assert(gone[at] == (Command::Despawn { entity: emotes[k].entity }));
        }
    } else {
        if parent_found(emotes[k], pets) {
            assert(kept[kept.len() - 1] == following(emotes[k], pets));
        } else {
            assert(gone[gone.len() - 1] == (Command::Despawn { entity: emotes[k].entity }));
        }
    }
}

/// Ages every reaction icon by `delta` milliseconds. The icons whose time is
/// up are removed, and the removal of each is queued.
pub fn emote_icon_tick(delta: u64, emotes: &mut Vec<Emote>, commands: &mut Commands)
    ensures
        final(emotes)@ == surviving_emotes(old(emotes)@, delta, old(emotes)@.len() as int),
        final(commands).queue@ == old(commands).queue@ + expired_emotes(
            old(emotes)@,
            delta,
            old(emotes)@.len() as int,
        ),
        final(commands).next_entity == old(commands).next_entity,
{
    let mut kept: Vec<Emote> = Vec::new();
    let n = emotes.len();
    let mut k: usize = 0;
    while k < n
        invariant
            k <= n,
            n == emotes@.len(),
            emotes@ == old(emotes)@,
            kept@ == surviving_emotes(emotes@, delta, k as int),
            commands.queue@ == old(commands).queue@ + expired_emotes(emotes@, delta, k as int),
            commands.next_entity == old(commands).next_entity,
        decreases n - k,
    {
        let mut emote = emotes[k];
        emote.icon.emote_icon_despawn_timer.tick(delta);
        if emote.icon.emote_icon_despawn_timer.finished() {
            commands.despawn(emote.entity);
        } else {
            kept.push(emote);
        }
        k += 1;
    }
    *emotes = kept;
}

/// The lifetime of a reaction icon. The time of an icon with a fresh timer
/// is not up while the ticks add up to less than its lifetime, and is up on
/// the very tick that brings them to it: `steps` are the ticks that the icon
/// has seen before the one of `delta` milliseconds. So an icon whose pet is
/// found on every tick is shown for exactly its lifetime.
pub proof fn lemma_emote_lifetime(emote: Emote, steps: Seq<u64>, delta: u64)
    requires
        emote.icon.emote_icon_despawn_timer == Timer::fresh(
            emote.icon.emote_icon_despawn_timer.duration,
            TimerMode::Once,
        ),
        total_time(steps) < emote.icon.emote_icon_despawn_timer.duration,
    ensures
        aged_emote(emote, steps).expires(delta) <==> total_time(steps) + delta
            >= emote.icon.emote_icon_despawn_timer.duration,
{
    emote.icon.emote_icon_despawn_timer.lemma_runs_until_duration(steps);
    lemma_aged_emote(emote, steps);
    lemma_total_time_grows(steps);
}

/// The icon after one tick for each of `steps`, none of which ends it.
pub open spec fn aged_emote(emote: Emote, steps: Seq<u64>) -> Emote
    decreases steps.len(),
{
    if steps.len() == 0 {
        emote
    } else {
        aged_emote(emote, steps.drop_last()).ticked(steps.last())
    }
}

/// Ageing an icon ages its timer and nothing else.
pub proof fn lemma_aged_emote(emote: Emote, steps: Seq<u64>)
    ensures
        aged_emote(emote, steps) == (Emote {
            icon: EmoteIcon {
                emote_icon_despawn_timer: emote.icon.emote_icon_despawn_timer.aged(steps),
            },
            ..emote
        }),
    decreases steps.len(),
{
    if steps.len() > 0 {
        lemma_aged_emote(emote, steps.drop_last());
    }
}

/// What a tick keeps and what it removes: an icon is among the survivors,
/// aged, exactly if its time is not up, and its removal is queued exactly if
/// it is.
pub proof fn lemma_tick_keeps_unexpired(emotes: Seq<Emote>, delta: u64, k_end: int, k: int)
    requires
        0 <= k < k_end <= emotes.len(),
    ensures
        !emotes[k].expires(delta) ==> surviving_emotes(emotes, delta, k_end).contains(
            emotes[k].ticked(delta),
        ),
        emotes[k].expires(delta) ==> expired_emotes(emotes, delta, k_end).contains(
            Command::Despawn { entity: emotes[k].entity },
        ),
        surviving_emotes(emotes, delta, k_end).len() + expired_emotes(emotes, delta, k_end).len()
            == k_end,
        forall|j: int|
            0 <= j < surviving_emotes(emotes, delta, k_end).len() ==> !(
            #[trigger] surviving_emotes(
                emotes,
                delta,
                k_end,
            )[j]).icon.emote_icon_despawn_timer.finished,
    decreases k_end,
{
    let kept = surviving_emotes(emotes, delta, k_end);
    let gone = expired_emotes(emotes, delta, k_end);
    let kept_before = surviving_emotes(emotes, delta, k_end - 1);
    let gone_before = expired_emotes(emotes, delta, k_end - 1);
    let last = emotes[k_end - 1];
    assert(kept == if last.expires(delta) {
        kept_before
    } else {
        kept_before.push(last.ticked(delta))
    });
    assert(gone == if last.expires(delta) {
        gone_before.push(Command::Despawn { entity: last.entity })
    } else {
        gone_before
    });
    if k_end > 1 {
        lemma_tick_keeps_unexpired(emotes, delta, k_end - 1, if k < k_end - 1 {
            k
        } else {
            0
        });
    } else {
        assert(kept_before.len() == 0 && gone_before.len() == 0);
    }
    if k < k_end - 1 {
        if !emotes[k].expires(delta) {
            let at = choose|at: int|
                0 <= at < kept_before.len() && kept_before[at] == emotes[k].ticked(delta);
            assert(kept[at] == emotes[k].ticked(delta));
        } else {
            let at = choose|at: int|
                0 <= at < gone_before.len() && gone_before[at] == (Command::Despawn {
                    entity: emotes[k].entity,
                });
            assert(gone[at] == (Command::Despawn { entity: emotes[k].entity }));
        }
    } else {
        if !emotes[k].expires(delta) {
            assert(kept[kept.len() - 1] == emotes[k].ticked(delta));
        } else {
            assert(gone[gone.len() - 1] == (Command::Despawn { entity: emotes[k].entity }));
        }
    }
    assert forall|j: int| 0 <= j < kept.len() implies !(
    #[trigger] kept[j]).icon.emote_icon_despawn_timer.finished by {
        if j < kept_before.len() {
            assert(kept[j] == kept_before[j]);
        }
    }
}

} // verus!
