//! The icon that hovers over a conversation while it lasts.

use vstd::prelude::*;
use crate::commands::{Command, Commands, Entity, SpriteSheetBundle};
use crate::gameplay::components::{ChattingIconButton, IconAnimation};
use crate::gameplay::player::components::{
    ConversationView, EntityPairConversationState, PairEntityConversationData, Quadrants,
};
use crate::gameplay::spritesheet::components::ChattingIconSheet;
use crate::gameplay::spritesheet::systems::{chatting_scale, spawn_chatting_sprite};
use crate::gameplay::tile::systems::{boxes_overlap, collide, tile_extent};
use crate::math::{Vec2, Vec3};
use crate::time::{Timer, TimerMode};

verus! {

/// How long the icon of a conversation is shown: nine tenths of the length
/// of a conversation.
pub const CHATTING_ICON_LIFETIME: u64 = 9_000;

/// The icon of a conversation: its handle, where it is shown, the cell of
/// the sheet it shows, the timer that ends it, and its animation.
#[derive(Clone, Copy, Debug, PartialEq, Eq, Structural)]
pub struct ChattingIcon {
    pub entity: Entity,
    pub translation: Vec3,
    pub sprite_index: usize,
    pub button: ChattingIconButton,
    pub animation: IconAnimation,
}

/// The place of the icon of a conversation: above the place where its
/// anchor stood when the two met, shifted toward the responder. A
/// conversation without a quadrant has its icon at the origin.
pub open spec fn icon_place_spec(pair: PairEntityConversationData) -> Vec3 {
    match pair.quadrant {
        Quadrants::TopLeft => pair.entity_a_pos.displaced(0, 20_000, 0),
        Quadrants::TopRight => pair.entity_a_pos.displaced(7_500, 15_000, 0),
        Quadrants::BottomLeft => pair.entity_a_pos.displaced(0, 15_000, 0),
        Quadrants::BottomRight => pair.entity_a_pos.displaced(-7_500, 15_000, 0),
        Quadrants::Aligned => Vec3::zero_spec(),
    }
}

/// The icon made for `pair`, with the handle `entity`.
pub open spec fn new_icon(pair: PairEntityConversationData, entity: Entity) -> ChattingIcon {
    ChattingIcon {
        entity,
        translation: icon_place_spec(pair),
        sprite_index: 0,
        button: ChattingIconButton {
            chatting_icon_despawn_timer: Timer::fresh(CHATTING_ICON_LIFETIME, TimerMode::Once),
        },
        animation: IconAnimation { current_frame: 0, frame_count: 4 },
    }
}

/// The icons made for those of the first `k_end` conversations that have
/// none yet, in order, with handles that count up from `first_entity`.
pub open spec fn new_icons(
    pairs: Seq<PairEntityConversationData>,
    first_entity: Entity,
    k_end: int,
) -> Seq<ChattingIcon>
    decreases k_end,
{
    if k_end <= 0 {
        Seq::empty()
    } else {
        let earlier = new_icons(pairs, first_entity, k_end - 1);
        if pairs[k_end - 1].chatting_icon_spawned {
            earlier
        } else {
            earlier.push(new_icon(pairs[k_end - 1], (first_entity + earlier.len()) as u64))
        }
    }
}

/// A new icon has its whole lifetime ahead of it, and is well formed.
pub proof fn lemma_new_icons_well_formed(
    pairs: Seq<PairEntityConversationData>,
    first_entity: Entity,
    k_end: int,
)
    ensures
        forall|j: int|
            0 <= j < new_icons(pairs, first_entity, k_end).len() ==> (#[trigger] new_icons(
                pairs,
                first_entity,
                k_end,
            )[j]).well_formed(),
    decreases k_end,
{
    if k_end > 0 {
        lemma_new_icons_well_formed(pairs, first_entity, k_end - 1);
        let earlier = new_icons(pairs, first_entity, k_end - 1);
        let all = new_icons(pairs, first_entity, k_end);
        assert forall|j: int| 0 <= j < all.len() implies (#[trigger] all[j]).well_formed() by {
            if j < earlier.len() {
                assert(all[j] == earlier[j]);
            }
        }
    }
}

/// The commands that show `icons`.
pub open spec fn icon_commands(icons: Seq<ChattingIcon>, sheet: ChattingIconSheet) -> Seq<Command> {
    Seq::new(
        icons.len(),
        |k: int|
            Command::Spawn {
                entity: icons[k].entity,
                bundle: SpriteSheetBundle {
                    atlas: sheet.0,
                    index: 0,
                    translation: icons[k].translation,
                    scale: chatting_scale(),
                },
            },
    )
}

/// The conversations once each has its icon.
pub open spec fn all_marked(pairs: Seq<PairEntityConversationData>) -> Seq<
    PairEntityConversationData,
> {
    Seq::new(
        pairs.len(),
        |k: int| PairEntityConversationData { chatting_icon_spawned: true, ..pairs[k] },
    )
}

/// Giving conversations their icons changes neither who talks to whom nor
/// the ledger, so an exclusive record stays exclusive.
pub proof fn lemma_marking_keeps_exclusive(v: ConversationView)
    requires
        v.exclusive(),
    ensures
        (ConversationView { pairs: all_marked(v.pairs), ledger: v.ledger }).exclusive(),
{
    let w = ConversationView { pairs: all_marked(v.pairs), ledger: v.ledger };
    assert forall|i: int, j: int|
        0 <= i < w.pairs.len() && 0 <= j < w.pairs.len() && i != j implies !(
    #[trigger] w.pairs[i]).shares_entity(#[trigger] w.pairs[j]) by {
        assert(!v.pairs[i].shares_entity(v.pairs[j]));
    }
    assert forall|i: int| 0 <= i < w.pairs.len() implies (#[trigger] w.pairs[i]).entity_a
        != w.pairs[i].entity_b by {
        assert(v.pairs[i].entity_a != v.pairs[i].entity_b);
    }
    assert forall|e: Entity| #[trigger] w.in_conversation(e) <==> w.paired(e) by {
        assert(v.in_conversation(e) <==> v.paired(e));
        if v.paired(e) {
            let k = choose|k: int| 0 <= k < v.pairs.len() && (#[trigger] v.pairs[k]).involves(e);
            assert(w.pairs[k].involves(e));
        }
        if w.paired(e) {
            let k = choose|k: int| 0 <= k < w.pairs.len() && (#[trigger] w.pairs[k]).involves(e);
            assert(v.pairs[k].involves(e));
        }
    }
}

/// Computes the place of the icon of a conversation.
pub fn icon_place(pair: &PairEntityConversationData) -> (place: Vec3)
    ensures
        place == icon_place_spec(*pair),
{
    match pair.quadrant {
        Quadrants::TopLeft => pair.entity_a_pos.displace(0, 20_000, 0),
        Quadrants::TopRight => pair.entity_a_pos.displace(7_500, 15_000, 0),
        Quadrants::BottomLeft => pair.entity_a_pos.displace(0, 15_000, 0),
        Quadrants::BottomRight => pair.entity_a_pos.displace(-7_500, 15_000, 0),
        Quadrants::Aligned => Vec3::zero(),
    }
}

/// Gives every conversation that has none yet its icon.
pub fn chatting_icon_spawner(
    commands: &mut Commands,
    entity_pair_convo_state: &mut EntityPairConversationState,
    chatting_icon_sheet: &ChattingIconSheet,
    icons: &mut Vec<ChattingIcon>,
)
    requires
        old(commands).has_room(old(entity_pair_convo_state)@.pairs.len() as int),
    ensures
        final(entity_pair_convo_state)@.pairs == all_marked(old(entity_pair_convo_state)@.pairs),
        final(entity_pair_convo_state)@.ledger == old(entity_pair_convo_state)@.ledger,
        old(entity_pair_convo_state)@.exclusive() ==> final(entity_pair_convo_state)@.exclusive(),
        final(icons)@ == old(icons)@ + new_icons(
            old(entity_pair_convo_state)@.pairs,
            old(commands).next_entity,
            old(entity_pair_convo_state)@.pairs.len() as int,
        ),
        final(commands).queue@ == old(commands).queue@ + icon_commands(
            new_icons(
                old(entity_pair_convo_state)@.pairs,
                old(commands).next_entity,
                old(entity_pair_convo_state)@.pairs.len() as int,
            ),
            *chatting_icon_sheet,
        ),
        final(commands).next_entity == old(commands).next_entity + new_icons(
            old(entity_pair_convo_state)@.pairs,
            old(commands).next_entity,
            old(entity_pair_convo_state)@.pairs.len() as int,
        ).len(),
{
    let ghost pairs0 = entity_pair_convo_state@.pairs;
    let ghost first = commands.next_entity;
    proof {
        if entity_pair_convo_state@.exclusive() {
            lemma_marking_keeps_exclusive(entity_pair_convo_state@);
        }
    }
    let n = entity_pair_convo_state.pair_entities_in_conversation.len();
    let mut k: usize = 0;
    while k < n
        invariant
            k <= n,
            n == pairs0.len(),
            n == entity_pair_convo_state@.pairs.len(),
            first == old(commands).next_entity,
            first + n <= u64::MAX,
            entity_pair_convo_state@.ledger == old(entity_pair_convo_state)@.ledger,
            forall|j: int|
                0 <= j < k ==> #[trigger] entity_pair_convo_state@.pairs[j] == all_marked(
                    pairs0,
                )[j],
            forall|j: int| k <= j < n ==> #[trigger] entity_pair_convo_state@.pairs[j] == pairs0[j],
            new_icons(pairs0, first, k as int).len() <= k,
            commands.next_entity == first + new_icons(pairs0, first, k as int).len(),
            icons@ == old(icons)@ + new_icons(pairs0, first, k as int),
            commands.queue@ == old(commands).queue@ + icon_commands(
                new_icons(pairs0, first, k as int),
                *chatting_icon_sheet,
            ),
        decreases n - k,
    {
        let pair = entity_pair_convo_state.pair_entities_in_conversation[k];
        if !pair.chatting_icon_spawned {
            let icon_translation = icon_place(&pair);
            let chatting_icon_entity = spawn_chatting_sprite(
                commands,
                chatting_icon_sheet,
                0,
                icon_translation,
            );
            icons.push(
                ChattingIcon {
                    entity: chatting_icon_entity,
                    translation: icon_translation,
                    sprite_index: 0,
                    button: ChattingIconButton {
                        chatting_icon_despawn_timer: Timer::from_millis(
                            CHATTING_ICON_LIFETIME,
                            TimerMode::Once,
                        ),
                    },
                    animation: IconAnimation { current_frame: 0, frame_count: 4 },
                },
            );
            entity_pair_convo_state.pair_entities_in_conversation[k].chatting_icon_spawned = true;
        }
        k += 1;
    }
    assert(entity_pair_convo_state@.pairs == all_marked(pairs0));
}

/// The cell of the sheet that the icon of a conversation shows when
/// `elapsed` milliseconds of its time have passed.
///
/// The icon opens during the first 16000/27 milliseconds, through the cells
/// 0 to 3. It closes from the same length of time before the eight seconds
/// of the conversation's talk are over, through the cells from 4 on. In
/// between it cycles through the cells 8 to 11, three to each such length of
/// time.
pub open spec fn icon_frame_spec(elapsed: u64) -> int {
    if 27 * elapsed < 16_000 {
        (162 * elapsed + 16_000) / 32_000
    } else if 27 * elapsed >= 200_000 {
        4 + (54 * elapsed - 400_000 + 16_000) / 32_000
    } else {
        8 + ((162 * elapsed - 96_000 + 16_000) / 32_000) % 4
    }
}

/// Computes the cell of the sheet that the icon of a conversation shows.
pub fn icon_frame(elapsed: u64) -> (frame: usize)
    requires
        elapsed <= CHATTING_ICON_LIFETIME,
    ensures
        frame == icon_frame_spec(elapsed),
{
    if 27 * elapsed < 16_000 {
        ((162 * elapsed + 16_000) / 32_000) as usize
    } else if 27 * elapsed >= 200_000 {
        (4 + (54 * elapsed - 400_000 + 16_000) / 32_000) as usize
    } else {
        (8 + ((162 * elapsed - 96_000 + 16_000) / 32_000) % 4) as usize
    }
}

impl ChattingIcon {
    /// The icon's timer never runs past the lifetime of an icon.
    pub open spec fn well_formed(self) -> bool {
        &&& self.button.chatting_icon_despawn_timer.duration <= CHATTING_ICON_LIFETIME
        &&& self.button.chatting_icon_despawn_timer.elapsed
            <= self.button.chatting_icon_despawn_timer.duration
        &&& self.button.chatting_icon_despawn_timer.mode == TimerMode::Once
    }

    /// Decides whether the icon is well formed.
    pub fn is_well_formed(&self) -> (b: bool)
        ensures
            b == self.well_formed(),
    {
        let timer = &self.button.chatting_icon_despawn_timer;
        let once = match timer.mode {
            TimerMode::Once => true,
            TimerMode::Repeating => false,
        };
        timer.duration <= CHATTING_ICON_LIFETIME && timer.elapsed <= timer.duration && once
    }

    /// The icon after `delta` milliseconds: its timer has aged and it shows
    /// the cell that belongs to the time passed.
    pub open spec fn ticked(self, delta: u64) -> ChattingIcon {
        ChattingIcon {
            sprite_index: icon_frame_spec(
                self.button.chatting_icon_despawn_timer.ticked(delta).elapsed,
            ) as usize,
            button: ChattingIconButton {
                chatting_icon_despawn_timer: self.button.chatting_icon_despawn_timer.ticked(
                    delta,
                ),
            },
            ..self
        }
    }

    /// Whether the icon's time is up after `delta` milliseconds.
    pub open spec fn expires(self, delta: u64) -> bool {
        self.button.chatting_icon_despawn_timer.ticked(delta).finished
    }
}

/// The icons that are still shown after `delta` milliseconds, of the first
/// `k_end`: those whose time is not up, aged, in order.
pub open spec fn surviving_icons(icons: Seq<ChattingIcon>, delta: u64, k_end: int) -> Seq<
    ChattingIcon,
>
    decreases k_end,
{
    if k_end <= 0 {
        Seq::empty()
    } else if icons[k_end - 1].expires(delta) {
        surviving_icons(icons, delta, k_end - 1)
    } else {
        surviving_icons(icons, delta, k_end - 1).push(icons[k_end - 1].ticked(delta))
    }
}

/// The commands that remove the icons whose time is up after `delta`
/// milliseconds, of the first `k_end`, in order.
pub open spec fn expired_icons(icons: Seq<ChattingIcon>, delta: u64, k_end: int) -> Seq<Command>
    decreases k_end,
{
    if k_end <= 0 {
        Seq::empty()
    } else if icons[k_end - 1].expires(delta) {
        expired_icons(icons, delta, k_end - 1).push(
            Command::Despawn { entity: icons[k_end - 1].entity },
        )
    } else {
        expired_icons(icons, delta, k_end - 1)
    }
}

/// Ages the icon of every conversation by `delta` milliseconds and lets it
/// show the cell that belongs to its age. The icons whose time is up are
/// removed, and the removal of each is queued.
pub fn chatting_icon_tick(delta: u64, icons: &mut Vec<ChattingIcon>, commands: &mut Commands)
    requires
        forall|k: int| 0 <= k < old(icons)@.len() ==> (#[trigger] old(icons)@[k]).well_formed(),
    ensures
        final(icons)@ == surviving_icons(old(icons)@, delta, old(icons)@.len() as int),
        forall|k: int| 0 <= k < final(icons)@.len() ==> (#[trigger] final(icons)@[k]).well_formed(),
        final(commands).queue@ == old(commands).queue@ + expired_icons(
            old(icons)@,
            delta,
            old(icons)@.len() as int,
        ),
        final(commands).next_entity == old(commands).next_entity,
{
    let mut kept: Vec<ChattingIcon> = Vec::new();
    let n = icons.len();
    let mut k: usize = 0;
    while k < n
        invariant
            k <= n,
            n == icons@.len(),
            icons@ == old(icons)@,
            forall|j: int| 0 <= j < n ==> (#[trigger] icons@[j]).well_formed(),
            forall|j: int| 0 <= j < kept@.len() ==> (#[trigger] kept@[j]).well_formed(),
            kept@ == surviving_icons(icons@, delta, k as int),
            commands.queue@ == old(commands).queue@ + expired_icons(icons@, delta, k as int),
            commands.next_entity == old(commands).next_entity,
        decreases n - k,
    {
        let mut icon = icons[k];
        icon.button.chatting_icon_despawn_timer.tick(delta);
        icon.sprite_index = icon_frame(icon.button.chatting_icon_despawn_timer.elapsed());
        if icon.button.chatting_icon_despawn_timer.finished() {
            commands.despawn(icon.entity);
        } else {
            kept.push(icon);
        }
        k += 1;
    }
    *icons = kept;
}

/// Whether a click at `point` hits the icon: the point lies inside the box
/// of a tile around the icon.
pub open spec fn icon_hit(icon: ChattingIcon, point: Vec3) -> bool {
    boxes_overlap(point, Vec2 { x: 0, y: 0 }, icon.translation, tile_extent())
}

/// The handles of those of the first `k_end` icons that a click at `point`
/// hits, in order.
pub open spec fn icons_hit(icons: Seq<ChattingIcon>, point: Vec3, k_end: int) -> Seq<Entity>
    decreases k_end,
{
    if k_end <= 0 {
        Seq::empty()
    } else if icon_hit(icons[k_end - 1], point) {
        icons_hit(icons, point, k_end - 1).push(icons[k_end - 1].entity)
    } else {
        icons_hit(icons, point, k_end - 1)
    }
}

/// Answers a click at the world position `click`: lists the icons under it.
/// Without a click there is none.
pub fn chatting_icon_on_hover(click: Option<Vec3>, icons: &Vec<ChattingIcon>) -> (hit: Vec<Entity>)
    ensures
        hit@ == match click {
            Some(point) => icons_hit(icons@, point, icons@.len() as int),
            None => Seq::empty(),
        },
{
    let mut hit: Vec<Entity> = Vec::new();
    match click {
        None => {},
        Some(point) => {
            let mut k: usize = 0;
            while k < icons.len()
                invariant
                    k <= icons.len(),
                    hit@ == icons_hit(icons@, point, k as int),
                decreases icons.len() - k,
            {
                if collide(
                    point,
                    Vec2 { x: 0, y: 0 },
                    icons[k].translation,
                    Vec2 { x: 16_000, y: 16_000 },
                ) {
                    hit.push(icons[k].entity);
                }
                k += 1;
            }
        },
    }
    hit
}

} // verus!
