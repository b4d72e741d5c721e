//! The convergence controller: for each conversation it turns the anchor
//! toward its partner and walks the responder to a rendezvous point beside
//! the anchor, unless an obstacle stands there.

use vstd::prelude::*;
use crate::commands::Entity;
use crate::config::{ENTITY_CONVO_DISTANCE, ENTITY_CONVO_SIDE_OFFSET};
use crate::gameplay::components::{Animation, DirectionIntent, EntityActionState, GenericActions};
use crate::gameplay::player::components::{
    ConversationView, EntityPairConversationState, EtherPet, PairEntityConversationData,
    Quadrants,
};
use crate::gameplay::player::conversation::{
    lemma_without_entity_exclusive, lemma_without_entity_frees_partner,
    lemma_without_entity_keeps_others, lemma_without_entity_monotone,
    remove_entity_from_conversation,
};
use crate::gameplay::tile::systems::{basic_wall_collision_check, is_blocked};
use crate::math::{
    abs_spec, div_toward_zero, div_trunc, lemma_isqrt_bounds, round_units, round_units_spec,
    scaled_length_spec, unit_component_spec, unit_vector, Vec3,
};

verus! {

/// The way the anchor of a conversation faces, if the quadrant fixes one.
pub open spec fn anchor_facing(quadrant: Quadrants) -> Option<DirectionIntent> {
    match quadrant {
        Quadrants::TopLeft => Some(DirectionIntent::Up),
        Quadrants::TopRight => Some(DirectionIntent::Right),
        Quadrants::BottomLeft => Some(DirectionIntent::Down),
        Quadrants::BottomRight => Some(DirectionIntent::Left),
        Quadrants::Aligned => None,
    }
}

/// The way the responder of a conversation faces: opposite to its anchor.
pub open spec fn responder_facing(quadrant: Quadrants) -> Option<DirectionIntent> {
    match quadrant {
        Quadrants::TopLeft => Some(DirectionIntent::Down),
        Quadrants::TopRight => Some(DirectionIntent::Left),
        Quadrants::BottomLeft => Some(DirectionIntent::Up),
        Quadrants::BottomRight => Some(DirectionIntent::Right),
        Quadrants::Aligned => None,
    }
}

/// The point beside the anchor at which the responder is to stand, kept
/// within the world: above the anchor by the talking distance, to its right
/// by half of it, below it by the talking distance, or to its left by
/// `ENTITY_CONVO_SIDE_OFFSET`.
pub open spec fn rendezvous_spec(quadrant: Quadrants, anchor: Vec3) -> Vec3 {
    match quadrant {
        Quadrants::TopLeft => anchor.displaced(0, ENTITY_CONVO_DISTANCE as int, 0),
        Quadrants::TopRight => anchor.displaced((ENTITY_CONVO_DISTANCE / 2) as int, 0, 0),
        Quadrants::BottomLeft => anchor.displaced(0, -(ENTITY_CONVO_DISTANCE as int), 0),
        Quadrants::BottomRight => anchor.displaced(-(ENTITY_CONVO_SIDE_OFFSET as int), 0, 0),
        Quadrants::Aligned => anchor,
    }
}

/// Whether the responder has arrived: rounded to whole units, it shares with
/// the anchor the coordinate along which the rendezvous point does not
/// differ from the anchor.
pub open spec fn arrived_spec(quadrant: Quadrants, anchor: Vec3, responder: Vec3) -> bool {
    match quadrant {
        Quadrants::TopLeft | Quadrants::BottomLeft => round_units_spec(responder.x as int)
            == round_units_spec(anchor.x as int),
        Quadrants::TopRight | Quadrants::BottomRight => round_units_spec(responder.y as int)
            == round_units_spec(anchor.y as int),
        Quadrants::Aligned => true,
    }
}

/// The position one step of length `speed` from `from` toward `target`, in
/// the plane. Both ends are taken within the world, and so is the result.
/// Within the world the layer does not change.
pub open spec fn step_toward_spec(from: Vec3, target: Vec3, speed: u32) -> Vec3 {
    let start = from.displaced(0, 0, 0);
    let goal = target.displaced(0, 0, 0);
    let dx = goal.x - start.x;
    let dy = goal.y - start.y;
    start.displaced(
        div_toward_zero(unit_component_spec(dx, dx, dy) * speed, 1000),
        div_toward_zero(unit_component_spec(dy, dx, dy) * speed, 1000),
        0,
    )
}

impl EtherPet {
    /// The pet as the anchor of a conversation: it stands idle and faces its
    /// partner.
    pub open spec fn facing_partner(self, quadrant: Quadrants) -> EtherPet {
        EtherPet {
            action_state: EntityActionState {
                action: GenericActions::Idle,
            },
            animation: Animation {
                last_direction: match anchor_facing(quadrant) {
                    Some(direction) => direction,
                    None => self.animation.last_direction,
                },
                ..self.animation
            },
            ..self
        }
    }

    /// Whether the pet, as the responder of a conversation, finds its
    /// rendezvous point obstructed: it has not arrived, and an obstacle
    /// stands at the point.
    pub open spec fn obstructed(self, quadrant: Quadrants, anchor: Vec3, walls: Seq<Vec3>) -> bool {
        &&& quadrant != Quadrants::Aligned
        &&& !arrived_spec(quadrant, anchor, self.translation)
        &&& is_blocked(walls, rendezvous_spec(quadrant, anchor))
    }

    /// The pet after one step as the responder of a conversation.
    ///
    /// Nothing changes when the quadrant is `Aligned`. Otherwise the pet
    /// faces its anchor. If it has arrived, or if its rendezvous point is
    /// obstructed, it stands idle; else it walks one step toward the point.
    pub open spec fn approaching(self, quadrant: Quadrants, anchor: Vec3, walls: Seq<Vec3>) -> EtherPet {
        match responder_facing(quadrant) {
            None => self,
            Some(direction) => {
                let walking = !arrived_spec(quadrant, anchor, self.translation) && !is_blocked(
                    walls,
                    rendezvous_spec(quadrant, anchor),
                );
                EtherPet {
                    action_state: EntityActionState {
                        action: if walking {
                            GenericActions::Walk
                        } else {
                            GenericActions::Idle
                        },
                    },
                    animation: Animation {
                        last_direction: direction,
                        ..self.animation
                    },
                    translation: if walking {
                        step_toward_spec(
                            self.translation,
                            rendezvous_spec(quadrant, anchor),
                            self.movement.speed,
                        )
                    } else {
                        self.translation
                    },
                    ..self
                }
            },
        }
    }
}

/// Computes the rendezvous point of a quadrant beside `anchor`.
pub fn rendezvous(quadrant: Quadrants, anchor: Vec3) -> (target: Vec3)
    ensures
        target == rendezvous_spec(quadrant, anchor),
        anchor.in_world() || quadrant != Quadrants::Aligned ==> target.in_world(),
{
    match quadrant {
        Quadrants::TopLeft => anchor.displace(0, ENTITY_CONVO_DISTANCE as i128, 0),
        Quadrants::TopRight => anchor.displace((ENTITY_CONVO_DISTANCE / 2) as i128, 0, 0),
        Quadrants::BottomLeft => anchor.displace(0, -(ENTITY_CONVO_DISTANCE as i128), 0),
        Quadrants::BottomRight => anchor.displace(-(ENTITY_CONVO_SIDE_OFFSET as i128), 0, 0),
        Quadrants::Aligned => anchor,
    }
}

/// Decides whether a responder has arrived beside its anchor.
pub fn arrived(quadrant: Quadrants, anchor: Vec3, responder: Vec3) -> (b: bool)
    ensures
        b == arrived_spec(quadrant, anchor, responder),
{
    match quadrant {
        Quadrants::TopLeft | Quadrants::BottomLeft => round_units(responder.x) == round_units(
            anchor.x,
        ),
        Quadrants::TopRight | Quadrants::BottomRight => round_units(responder.y) == round_units(
            anchor.y,
        ),
        Quadrants::Aligned => true,
    }
}

/// Takes one step of length `speed` from `from` toward `target`.
pub fn step_toward(from: Vec3, target: Vec3, speed: u32) -> (to: Vec3)
    ensures
        to == step_toward_spec(from, target, speed),
        to.in_world(),
{
    let start = from.displace(0, 0, 0);
    let goal = target.displace(0, 0, 0);
    let unit = unit_vector(goal.x - start.x, goal.y - start.y);
    assert(-1000 * 0x1_0000_0000 <= unit.0 * speed <= 1000 * 0x1_0000_0000 && -1000
        * 0x1_0000_0000 <= unit.1 * speed <= 1000 * 0x1_0000_0000) by (nonlinear_arith)
        requires
            -1000 <= unit.0 <= 1000,
            -1000 <= unit.1 <= 1000,
            0 <= speed < 0x1_0000_0000,
    ;
    let dx = div_trunc(unit.0 as i128 * speed as i128, 1000);
    let dy = div_trunc(unit.1 as i128 * speed as i128, 1000);
    start.displace(dx, dy, 0)
}

impl EtherPet {
    /// Makes the pet the anchor of a conversation: it stands idle and faces
    /// its partner.
    pub fn face_partner(&mut self, quadrant: Quadrants)
        ensures
            *final(self) == old(self).facing_partner(quadrant),
    {
        self.action_state.action = GenericActions::Idle;
        match quadrant {
            Quadrants::TopLeft => {
                self.animation.last_direction = DirectionIntent::Up;
            },
            Quadrants::TopRight => {
                self.animation.last_direction = DirectionIntent::Right;
            },
            Quadrants::BottomLeft => {
                self.animation.last_direction = DirectionIntent::Down;
            },
            Quadrants::BottomRight => {
                self.animation.last_direction = DirectionIntent::Left;
            },
            Quadrants::Aligned => {},
        }
    }

    /// Advances the pet by one step as the responder of a conversation, and
    /// reports whether it found its rendezvous point obstructed.
    pub fn approach(&mut self, quadrant: Quadrants, anchor: Vec3, walls: &Vec<Vec3>) -> (stuck: bool)
        ensures
            *final(self) == old(self).approaching(quadrant, anchor, walls@),
            stuck == old(self).obstructed(quadrant, anchor, walls@),
            old(self).translation.in_world() ==> final(self).translation.in_world(),
    {
        let direction = match quadrant {
            Quadrants::TopLeft => DirectionIntent::Down,
            Quadrants::TopRight => DirectionIntent::Left,
            Quadrants::BottomLeft => DirectionIntent::Up,
            Quadrants::BottomRight => DirectionIntent::Right,
            Quadrants::Aligned => {
                return false;
            },
        };
        self.animation.last_direction = direction;
        if arrived(quadrant, anchor, self.translation) {
            self.action_state.action = GenericActions::Idle;
            false
        } else {
            self.action_state.action = GenericActions::Walk;
            let target = rendezvous(quadrant, anchor);
            if basic_wall_collision_check(target, walls) {
                self.translation = step_toward(self.translation, target, self.movement.speed);
                false
            } else {
                self.action_state.action = GenericActions::Idle;
                true
            }
        }
    }
}

/// What the controller notes of a conversation whose anchor it found: who
/// responds, where the anchor stands, and the quadrant.
#[derive(Clone, Copy, Debug, PartialEq, Eq, Structural)]
pub struct Approach {
    pub responder: Entity,
    pub anchor_position: Vec3,
    pub quadrant: Quadrants,
}

/// The first pass of the controller: the pets with the anchors turned, and
/// the approaches noted, in the order of the conversations.
#[verifier::ext_equal]
pub struct Gathering {
    pub pets: Seq<EtherPet>,
    pub approaches: Seq<Approach>,
}

/// The second pass of the controller: the pets with the responders moved,
/// and the responders that found their rendezvous point obstructed.
#[verifier::ext_equal]
pub struct Marching {
    pub pets: Seq<EtherPet>,
    pub stuck: Seq<Entity>,
}

/// The outcome of the controller: the pets and the record of conversations.
#[verifier::ext_equal]
pub struct Converged {
    pub pets: Seq<EtherPet>,
    pub state: ConversationView,
}

/// Every pet stands within the world.
pub open spec fn all_in_world(pets: Seq<EtherPet>) -> bool {
    forall|i: int| 0 <= i < pets.len() ==> (#[trigger] pets[i]).translation.in_world()
}

/// The first index at or after `from` of a pet with the handle `entity` that
/// is not steered by hand, or the number of pets if there is none.
pub open spec fn first_pet(pets: Seq<EtherPet>, entity: Entity, from: int) -> int
    decreases pets.len() - from,
{
    if from < 0 || from >= pets.len() {
        pets.len() as int
    } else if pets[from].entity == entity && !pets[from].active {
        from
    } else {
        first_pet(pets, entity, from + 1)
    }
}

/// The first pass for one conversation. If its anchor is found, the anchor
/// turns to its partner and the approach is noted.
pub open spec fn gather_step(g: Gathering, pair: PairEntityConversationData) -> Gathering {
    let found = first_pet(g.pets, pair.entity_a, 0);
    if 0 <= found < g.pets.len() {
        Gathering {
            pets: g.pets.update(found, g.pets[found].facing_partner(pair.quadrant)),
            approaches: g.approaches.push(
                Approach {
                    responder: pair.entity_b,
                    anchor_position: g.pets[found].translation,
                    quadrant: pair.quadrant,
                },
            ),
        }
    } else {
        g
    }
}

/// The first pass for the first `k_end` conversations.
pub open spec fn gather(
    g: Gathering,
    pairs: Seq<PairEntityConversationData>,
    k_end: int,
) -> Gathering
    decreases k_end,
{
    if k_end <= 0 {
        g
    } else {
        gather_step(gather(g, pairs, k_end - 1), pairs[k_end - 1])
    }
}

/// The second pass for one approach. If its responder is found, the
/// responder takes its step, and is noted if it found its rendezvous point
/// obstructed.
pub open spec fn march_step(m: Marching, walls: Seq<Vec3>, approach: Approach) -> Marching {
    let found = first_pet(m.pets, approach.responder, 0);
    if 0 <= found < m.pets.len() {
        Marching {
            pets: m.pets.update(
                found,
                m.pets[found].approaching(approach.quadrant, approach.anchor_position, walls),
            ),
            stuck: if m.pets[found].obstructed(
                approach.quadrant,
                approach.anchor_position,
                walls,
            ) {
                m.stuck.push(approach.responder)
            } else {
                m.stuck
            },
        }
    } else {
        m
    }
}

/// The second pass for the first `k_end` approaches.
pub open spec fn march(m: Marching, walls: Seq<Vec3>, approaches: Seq<Approach>, k_end: int) -> Marching
    decreases k_end,
{
    if k_end <= 0 {
        m
    } else {
        march_step(march(m, walls, approaches, k_end - 1), walls, approaches[k_end - 1])
    }
}

/// The record of conversations after the first `k_end` of `stuck` have left
/// theirs.
pub open spec fn release_all(v: ConversationView, stuck: Seq<Entity>, k_end: int) -> ConversationView
    decreases k_end,
{
    if k_end <= 0 {
        v
    } else {
        release_all(v, stuck, k_end - 1).without_entity(stuck[k_end - 1])
    }
}

/// One tick of the controller. First every anchor that is found turns to its
/// partner. Then every responder that is found takes its step toward the
/// place where its anchor stood. Last, every responder that found its
/// rendezvous point obstructed leaves its conversation, and its partner with
/// it.
pub open spec fn converge(pets: Seq<EtherPet>, state: ConversationView, walls: Seq<Vec3>) -> Converged {
    let g = gather(
        Gathering { pets, approaches: Seq::empty() },
        state.pairs,
        state.pairs.len() as int,
    );
    let m = march(
        Marching { pets: g.pets, stuck: Seq::empty() },
        walls,
        g.approaches,
        g.approaches.len() as int,
    );
    Converged { pets: m.pets, state: release_all(state, m.stuck, m.stuck.len() as int) }
}

/// Releasing entities from an exclusive record leaves it exclusive.
pub proof fn lemma_release_all_exclusive(v: ConversationView, stuck: Seq<Entity>, k_end: int)
    requires
        v.exclusive(),
    ensures
        release_all(v, stuck, k_end).exclusive(),
    decreases k_end,
{
    if k_end > 0 {
        lemma_release_all_exclusive(v, stuck, k_end - 1);
        lemma_without_entity_exclusive(release_all(v, stuck, k_end - 1), stuck[k_end - 1]);
    }
}

/// Exclusivity survives a tick of the controller.
pub proof fn lemma_converge_exclusive(pets: Seq<EtherPet>, state: ConversationView, walls: Seq<Vec3>)
    requires
        state.exclusive(),
    ensures
        converge(pets, state, walls).state.exclusive(),
{
    let g = gather(
        Gathering { pets, approaches: Seq::empty() },
        state.pairs,
        state.pairs.len() as int,
    );
    let m = march(
        Marching { pets: g.pets, stuck: Seq::empty() },
        walls,
        g.approaches,
        g.approaches.len() as int,
    );
    lemma_release_all_exclusive(state, m.stuck, m.stuck.len() as int);
}

/// Finds the first pet with the handle `entity` that is not steered by hand.
/// Returns the number of pets if there is none.
pub fn find_pet(pets: &Vec<EtherPet>, entity: Entity) -> (index: usize)
    ensures
        index == first_pet(pets@, entity, 0),
        index <= pets@.len(),
        index < pets@.len() ==> pets@[index as int].entity == entity && !pets@[index as int].active,
{
    let mut i: usize = 0;
    while i < pets.len()
        invariant
            i <= pets.len(),
            first_pet(pets@, entity, 0) == first_pet(pets@, entity, i as int),
        decreases pets.len() - i,
    {
        if pets[i].entity == entity && !pets[i].active {
            return i;
        }
        i += 1;
    }
    i
}

/// Runs one tick of the convergence controller over all conversations.
pub fn pair_entity_convergence_system(
    entity_pair_convo_state: &mut EntityPairConversationState,
    pets: &mut Vec<EtherPet>,
    walls: &Vec<Vec3>,
)
    ensures
        final(pets)@ == converge(old(pets)@, old(entity_pair_convo_state)@, walls@).pets,
        final(entity_pair_convo_state)@ == converge(
            old(pets)@,
            old(entity_pair_convo_state)@,
            walls@,
        ).state,
        all_in_world(old(pets)@) ==> all_in_world(final(pets)@),
        old(entity_pair_convo_state)@.exclusive() ==> final(entity_pair_convo_state)@.exclusive(),
{
    let ghost pets0 = pets@;
    let ghost state0 = entity_pair_convo_state@;
    let mut entities_to_update: Vec<Approach> = Vec::new();
    let mut entities_to_remove: Vec<Entity> = Vec::new();

    let pair_count = entity_pair_convo_state.pair_entities_in_conversation.len();
    let mut k: usize = 0;
    while k < pair_count
        invariant
            k <= pair_count,
            pair_count == entity_pair_convo_state@.pairs.len(),
            entity_pair_convo_state@ == state0,
            all_in_world(pets0) ==> all_in_world(pets@),
            (Gathering { pets: pets@, approaches: entities_to_update@ }) == gather(
                Gathering { pets: pets0, approaches: Seq::empty() },
                state0.pairs,
                k as int,
            ),
        decreases pair_count - k,
    {
        let pair = entity_pair_convo_state.pair_entities_in_conversation[k];
        let found = find_pet(pets, pair.entity_a);
        if found < pets.len() {
            let anchor_position = pets[found].translation;
            pets[found].face_partner(pair.quadrant);
            entities_to_update.push(
                Approach { responder: pair.entity_b, anchor_position, quadrant: pair.quadrant },
            );
        }
        k += 1;
    }

    let ghost gathered = Gathering { pets: pets@, approaches: entities_to_update@ };
    let approach_count = entities_to_update.len();
    let mut k: usize = 0;
    while k < approach_count
        invariant
            k <= approach_count,
            approach_count == entities_to_update@.len(),
            entities_to_update@ == gathered.approaches,
            all_in_world(pets0) ==> all_in_world(pets@),
            (Marching { pets: pets@, stuck: entities_to_remove@ }) == march(
                Marching { pets: gathered.pets, stuck: Seq::empty() },
                walls@,
                gathered.approaches,
                k as int,
            ),
        decreases approach_count - k,
    {
        let approach = entities_to_update[k];
        let found = find_pet(pets, approach.responder);
        if found < pets.len() {
            let stuck = pets[found].approach(approach.quadrant, approach.anchor_position, walls);
            if stuck {
                entities_to_remove.push(approach.responder);
            }
        }
        k += 1;
    }

    let ghost marched = Marching { pets: pets@, stuck: entities_to_remove@ };
    let stuck_count = entities_to_remove.len();
    let mut k: usize = 0;
    while k < stuck_count
        invariant
            k <= stuck_count,
            stuck_count == entities_to_remove@.len(),
            entities_to_remove@ == marched.stuck,
            entity_pair_convo_state@ == release_all(state0, marched.stuck, k as int),
            state0.exclusive() ==> entity_pair_convo_state@.exclusive(),
        decreases stuck_count - k,
    {
        remove_entity_from_conversation(entities_to_remove[k], entity_pair_convo_state);
        k += 1;
    }
}

/// Two stores hold the same pets in the same places: handle for handle,
/// with the same marks and positions.
pub open spec fn same_roster(a: Seq<EtherPet>, b: Seq<EtherPet>) -> bool {
    &&& a.len() == b.len()
    &&& forall|i: int|
        0 <= i < a.len() ==> (#[trigger] a[i]).entity == b[i].entity && a[i].active == b[i].active
}

/// `first_pet` returns an index within bounds, and the pet it finds has the
/// handle asked for and is not steered by hand.
pub proof fn lemma_first_pet(pets: Seq<EtherPet>, entity: Entity, from: int)
    requires
        0 <= from <= pets.len(),
    ensures
        from <= first_pet(pets, entity, from) <= pets.len(),
        first_pet(pets, entity, from) < pets.len() ==> pets[first_pet(pets, entity, from)].entity
            == entity && !pets[first_pet(pets, entity, from)].active,
    decreases pets.len() - from,
{
    if from < pets.len() && !(pets[from].entity == entity && !pets[from].active) {
        lemma_first_pet(pets, entity, from + 1);
    }
}

/// Stores with the same roster answer every lookup alike.
pub proof fn lemma_first_pet_same_roster(
    a: Seq<EtherPet>,
    b: Seq<EtherPet>,
    entity: Entity,
    from: int,
)
    requires
        same_roster(a, b),
        0 <= from <= a.len(),
    ensures
        first_pet(a, entity, from) == first_pet(b, entity, from),
    decreases a.len() - from,
{
    if from < a.len() {
        assert(a[from].entity == b[from].entity && a[from].active == b[from].active);
        if !(a[from].entity == entity && !a[from].active) {
            lemma_first_pet_same_roster(a, b, entity, from + 1);
        }
    }
}

/// The approach that the first pass notes for `pair`, given that its anchor
/// is found in `pets`.
pub open spec fn approach_of(pets: Seq<EtherPet>, pair: PairEntityConversationData) -> Approach {
    Approach {
        responder: pair.entity_b,
        anchor_position: pets[first_pet(pets, pair.entity_a, 0)].translation,
        quadrant: pair.quadrant,
    }
}

/// Whether the anchor of `pair` is found in `pets`.
pub open spec fn anchor_found(pets: Seq<EtherPet>, pair: PairEntityConversationData) -> bool {
    first_pet(pets, pair.entity_a, 0) < pets.len()
}

/// Whether `approach` is the one that the first pass notes for one of the
/// first `k_end` conversations.
pub open spec fn noted_for(
    pets: Seq<EtherPet>,
    pairs: Seq<PairEntityConversationData>,
    k_end: int,
    approach: Approach,
) -> bool {
    exists|k: int|
        0 <= k < k_end && anchor_found(pets, #[trigger] pairs[k]) && approach == approach_of(
            pets,
            pairs[k],
        )
}

/// What the first pass does and does not do. It keeps the roster and moves
/// nobody; it notes an approach for every conversation whose anchor is
/// found, and no other approach.
pub proof fn lemma_gather(pets: Seq<EtherPet>, pairs: Seq<PairEntityConversationData>, k_end: int)
    requires
        0 <= k_end <= pairs.len(),
    ensures
        same_roster(
            pets,
            gather(Gathering { pets, approaches: Seq::empty() }, pairs, k_end).pets,
        ),
        forall|i: int|
            0 <= i < pets.len() ==> (#[trigger] gather(
                Gathering { pets, approaches: Seq::empty() },
                pairs,
                k_end,
            ).pets[i]).translation == pets[i].translation,
        forall|k: int|
            0 <= k < k_end && anchor_found(pets, #[trigger] pairs[k]) ==> gather(
                Gathering { pets, approaches: Seq::empty() },
                pairs,
                k_end,
            ).approaches.contains(approach_of(pets, pairs[k])),
        forall|j: int|
            0 <= j < gather(
                Gathering { pets, approaches: Seq::empty() },
                pairs,
                k_end,
            ).approaches.len() ==> noted_for(
                pets,
                pairs,
                k_end,
                #[trigger] gather(
                    Gathering { pets, approaches: Seq::empty() },
                    pairs,
                    k_end,
                ).approaches[j],
            ),
    decreases k_end,
{
    let g0 = Gathering { pets, approaches: Seq::empty() };
    if k_end > 0 {
        lemma_gather(pets, pairs, k_end - 1);
        let before = gather(g0, pairs, k_end - 1);
        let after = gather(g0, pairs, k_end);
        let pair = pairs[k_end - 1];
        lemma_first_pet_same_roster(pets, before.pets, pair.entity_a, 0);
        lemma_first_pet(pets, pair.entity_a, 0);
        let found = first_pet(pets, pair.entity_a, 0);
        assert(after == gather_step(before, pair));
        assert forall|k: int| 0 <= k < k_end && anchor_found(pets, #[trigger] pairs[k]) implies
            after.approaches.contains(approach_of(pets, pairs[k])) by {
            if k < k_end - 1 {
                assert(before.approaches.contains(approach_of(pets, pairs[k])));
                let j = choose|j: int|
                    0 <= j < before.approaches.len() && before.approaches[j] == approach_of(
                        pets,
                        pairs[k],
                    );
                assert(after.approaches[j] == approach_of(pets, pairs[k]));
            } else {
                assert(after.approaches[before.approaches.len() as int] == approach_of(
                    pets,
                    pairs[k],
                ));
            }
        }
        assert forall|j: int| 0 <= j < after.approaches.len() implies noted_for(
            pets,
            pairs,
            k_end,
            #[trigger] after.approaches[j],
        ) by {
            if j < before.approaches.len() {
                assert(noted_for(pets, pairs, k_end - 1, before.approaches[j]));
                let k = choose|k: int|
                    0 <= k < k_end - 1 && anchor_found(pets, #[trigger] pairs[k])
                        && before.approaches[j] == approach_of(pets, pairs[k]);
                assert(after.approaches[j] == approach_of(pets, pairs[k]));
            } else {
                assert(anchor_found(pets, pairs[k_end - 1]));
                assert(after.approaches[j] == approach_of(pets, pairs[k_end - 1]));
            }
        }
    }
}

/// Whether one of the first `n` approaches has the responder `entity`.
pub open spec fn approached(approaches: Seq<Approach>, entity: Entity, n: int) -> bool {
    exists|j: int| 0 <= j < n && j < approaches.len() && (#[trigger] approaches[j]).responder == entity
}

/// What the second pass does to one responder. Suppose every approach with
/// the responder `approach.responder` is `approach`, the responder is found
/// at `index`, and it finds its rendezvous point obstructed. Then the pass
/// keeps the roster, leaves the responder where it is, and notes it as stuck
/// as soon as its approach has been processed.
pub proof fn lemma_march_notes_obstructed(
    pets: Seq<EtherPet>,
    walls: Seq<Vec3>,
    approaches: Seq<Approach>,
    approach: Approach,
    index: int,
    n: int,
)
    requires
        0 <= n <= approaches.len(),
        index == first_pet(pets, approach.responder, 0),
        0 <= index < pets.len(),
        forall|j: int|
            0 <= j < approaches.len() && (#[trigger] approaches[j]).responder
                == approach.responder ==> approaches[j] == approach,
        pets[index].obstructed(approach.quadrant, approach.anchor_position, walls),
    ensures
        same_roster(pets, march(Marching { pets, stuck: Seq::empty() }, walls, approaches, n).pets),
        march(Marching { pets, stuck: Seq::empty() }, walls, approaches, n).pets[index].translation
            == pets[index].translation,
        approached(approaches, approach.responder, n) ==> march(
            Marching { pets, stuck: Seq::empty() },
            walls,
            approaches,
            n,
        ).stuck.contains(approach.responder),
    decreases n,
{
    let m0 = Marching { pets, stuck: Seq::empty() };
    if n > 0 {
        lemma_march_notes_obstructed(pets, walls, approaches, approach, index, n - 1);
        let before = march(m0, walls, approaches, n - 1);
        let after = march(m0, walls, approaches, n);
        let current = approaches[n - 1];
        assert(after == march_step(before, walls, current));
        lemma_first_pet_same_roster(pets, before.pets, current.responder, 0);
        lemma_first_pet(pets, current.responder, 0);
        lemma_first_pet(pets, approach.responder, 0);
        let found = first_pet(before.pets, current.responder, 0);
        if approached(approaches, approach.responder, n - 1) {
            let j = choose|j: int|
                0 <= j < n - 1 && j < approaches.len() && (#[trigger] approaches[j]).responder
                    == approach.responder;
            let at = choose|at: int|
                0 <= at < before.stuck.len() && before.stuck[at] == approach.responder;
            assert(after.stuck[at] == approach.responder);
        }
        if current.responder == approach.responder {
            assert(current == approach);
            assert(found == index);
            assert(before.pets[index].obstructed(
                approach.quadrant,
                approach.anchor_position,
                walls,
            ));
            assert(after.pets[index] == before.pets[index].approaching(
                approach.quadrant,
                approach.anchor_position,
                walls,
            ));
            assert(after.stuck[after.stuck.len() - 1] == approach.responder);
        } else {
            if approached(approaches, approach.responder, n) {
                let j = choose|j: int|
                    0 <= j < n && j < approaches.len() && (#[trigger] approaches[j]).responder
                        == approach.responder;
                assert(j < n - 1);
                assert(approached(approaches, approach.responder, n - 1));
            }
        }
    }
}

/// What releasing does to one conversation of an exclusive record. As long
/// as none of its members is released the conversation stays; once one is,
/// neither member is in any conversation, and the ledger marks neither.
pub proof fn lemma_release_frees_pair(
    v: ConversationView,
    stuck: Seq<Entity>,
    pair: PairEntityConversationData,
    n: int,
)
    requires
        v.exclusive(),
        v.pairs.contains(pair),
        0 <= n <= stuck.len(),
    ensures
        release_all(v, stuck, n).exclusive(),
        release_all(v, stuck, n).pairs.contains(pair) || (!release_all(v, stuck, n).paired(
            pair.entity_a,
        ) && !release_all(v, stuck, n).paired(pair.entity_b) && !release_all(
            v,
            stuck,
            n,
        ).in_conversation(pair.entity_a) && !release_all(v, stuck, n).in_conversation(
            pair.entity_b,
        )),
        (exists|j: int| 0 <= j < n && pair.involves(#[trigger] stuck[j])) ==> !release_all(
            v,
            stuck,
            n,
        ).pairs.contains(pair),
    decreases n,
{
    if n > 0 {
        lemma_release_frees_pair(v, stuck, pair, n - 1);
        let before = release_all(v, stuck, n - 1);
        let after = release_all(v, stuck, n);
        let leaving = stuck[n - 1];
        assert(after == before.without_entity(leaving));
        lemma_without_entity_exclusive(before, leaving);
        lemma_without_entity_monotone(before, leaving, pair.entity_a);
        lemma_without_entity_monotone(before, leaving, pair.entity_b);
        if before.pairs.contains(pair) {
            let m = choose|m: int| 0 <= m < before.pairs.len() && before.pairs[m] == pair;
            if pair.involves(leaving) {
                lemma_without_entity_frees_partner(before, m, leaving);
            } else {
                lemma_without_entity_keeps_others(before, leaving, m);
            }
        }
        if after.pairs.contains(pair) {
            let m = choose|m: int| 0 <= m < after.pairs.len() && after.pairs[m] == pair;
            assert(after.pairs[m].involves(pair.entity_a));
            assert(after.paired(pair.entity_a));
            assert(before.paired(pair.entity_a));
            assert(before.pairs.contains(pair));
            assert(!pair.involves(leaving));
            if exists|j: int| 0 <= j < n && pair.involves(#[trigger] stuck[j]) {
                let j = choose|j: int| 0 <= j < n && pair.involves(#[trigger] stuck[j]);
                assert(j < n - 1);
            }
        }
    }
}

/// Obstructed convergence. In an exclusive record, take a conversation whose
/// anchor and responder are both found, and whose responder has not arrived
/// and finds an obstacle at its rendezvous point. After one tick of the
/// controller the conversation is gone: neither of the two is in any
/// conversation, the ledger marks neither, and the responder has not moved.
pub proof fn lemma_obstructed_pair_dissolved(
    pets: Seq<EtherPet>,
    state: ConversationView,
    walls: Seq<Vec3>,
    k: int,
)
    requires
        state.exclusive(),
        0 <= k < state.pairs.len(),
        first_pet(pets, state.pairs[k].entity_a, 0) < pets.len(),
        first_pet(pets, state.pairs[k].entity_b, 0) < pets.len(),
        pets[first_pet(pets, state.pairs[k].entity_b, 0)].obstructed(
            state.pairs[k].quadrant,
            pets[first_pet(pets, state.pairs[k].entity_a, 0)].translation,
            walls,
        ),
    ensures
        !converge(pets, state, walls).state.paired(state.pairs[k].entity_a),
        !converge(pets, state, walls).state.paired(state.pairs[k].entity_b),
        !converge(pets, state, walls).state.in_conversation(state.pairs[k].entity_a),
        !converge(pets, state, walls).state.in_conversation(state.pairs[k].entity_b),
        converge(pets, state, walls).state.exclusive(),
        converge(pets, state, walls).pets[first_pet(
            pets,
            state.pairs[k].entity_b,
            0,
        )].translation == pets[first_pet(pets, state.pairs[k].entity_b, 0)].translation,
{
    let pair = state.pairs[k];
    let g = gather(
        Gathering { pets, approaches: Seq::empty() },
        state.pairs,
        state.pairs.len() as int,
    );
    lemma_gather(pets, state.pairs, state.pairs.len() as int);
    let expected = approach_of(pets, pair);
    lemma_first_pet(pets, pair.entity_b, 0);
    lemma_first_pet_same_roster(pets, g.pets, pair.entity_b, 0);
    let index = first_pet(pets, pair.entity_b, 0);
    assert(anchor_found(pets, state.pairs[k]));
    assert(g.approaches.contains(expected));
    assert forall|j: int|
        0 <= j < g.approaches.len() && (#[trigger] g.approaches[j]).responder
            == expected.responder implies g.approaches[j] == expected by {
        assert(noted_for(pets, state.pairs, state.pairs.len() as int, g.approaches[j]));
        let k2 = choose|k2: int|
            0 <= k2 < state.pairs.len() && anchor_found(pets, #[trigger] state.pairs[k2])
                && g.approaches[j] == approach_of(pets, state.pairs[k2]);
        if k2 != k {
            assert(state.pairs[k2].shares_entity(state.pairs[k]));
        }
    }
    assert(g.pets[index].translation == pets[index].translation);
    lemma_march_notes_obstructed(
        g.pets,
        walls,
        g.approaches,
        expected,
        index,
        g.approaches.len() as int,
    );
    let m = march(
        Marching { pets: g.pets, stuck: Seq::empty() },
        walls,
        g.approaches,
        g.approaches.len() as int,
    );
    let at = choose|at: int| 0 <= at < g.approaches.len() && g.approaches[at] == expected;
    assert(approached(g.approaches, expected.responder, g.approaches.len() as int));
    assert(m.stuck.contains(pair.entity_b));
    let s = choose|s: int| 0 <= s < m.stuck.len() && m.stuck[s] == pair.entity_b;
    assert(pair.involves(m.stuck[s]));
    lemma_release_frees_pair(state, m.stuck, pair, m.stuck.len() as int);
}

/// The sum of the distances between two points along the two planar axes.
pub open spec fn planar_gap(a: Vec3, b: Vec3) -> int {
    abs_spec(b.x - a.x) + abs_spec(b.y - a.y)
}

/// Whether `target` is at least one step of length `speed` away from `from`,
/// in the plane.
pub open spec fn beyond_reach(from: Vec3, target: Vec3, speed: u32) -> bool {
    (target.x - from.x) * (target.x - from.x) + (target.y - from.y) * (target.y - from.y) >= speed
        * speed
}

/// The position after `n` steps from `from` toward `target`.
pub open spec fn walk_spec(from: Vec3, target: Vec3, speed: u32, n: nat) -> Vec3
    decreases n,
{
    if n == 0 {
        from
    } else {
        step_toward_spec(walk_spec(from, target, speed, (n - 1) as nat), target, speed)
    }
}

/// The arithmetic of one step. For a displacement of magnitudes `a` and `b`
/// at least `s` long, with `l` the scaled length, `p` and `q` the unit
/// components and `u` and `v` the step along each axis: the step does not
/// pass the target on either axis, and the two axes together gain almost
/// `s`.
proof fn lemma_step_arithmetic(a: int, b: int, s: int, l: int, p: int, q: int, u: int, v: int)
    requires
        a >= 0,
        b >= 0,
        s >= 1,
        a * a + b * b >= s * s,
        l >= 0,
        l * l <= (a * a + b * b) * 1_000_000,
        (a * a + b * b) * 1_000_000 < (l + 1) * (l + 1),
        l > 0 ==> p == (a * 1_000_000) / l && q == (b * 1_000_000) / l,
        u == (p * s) / 1000,
        v == (q * s) / 1000,
    ensures
        l >= 1000 * s,
        0 <= u <= a,
        0 <= v <= b,
        1000 * (u + v) + 2000 > 999 * s,
{
    let t = a * a + b * b;
    assert(l >= 1000 * s) by (nonlinear_arith)
        requires
            l >= 0,
            s >= 1,
            t >= s * s,
            t * 1_000_000 < (l + 1) * (l + 1),
    ;
    let big_a = a * 1_000_000;
    let big_b = b * 1_000_000;
    assert(p >= 0 && p * l <= big_a < p * l + l) by (nonlinear_arith)
        requires
            p == big_a / l,
            l > 0,
            big_a >= 0,
    ;
    assert(q >= 0 && q * l <= big_b < q * l + l) by (nonlinear_arith)
        requires
            q == big_b / l,
            l > 0,
            big_b >= 0,
    ;
    let yx = p * s;
    let yy = q * s;
    assert(yx >= 0 && yy >= 0) by (nonlinear_arith)
        requires
            yx == p * s,
            yy == q * s,
            p >= 0,
            q >= 0,
            s >= 0,
    ;
    assert(yx <= a * 1000) by (nonlinear_arith)
        requires
            yx == p * s,
            p * l <= a * 1_000_000,
            1000 * s <= l,
            l > 0,
            s >= 1,
            a >= 0,
            p >= 0,
    {
        assert(yx * l == (p * l) * s);
        assert((p * l) * s <= (a * 1_000_000) * s);
        assert((a * 1_000_000) * s == (a * 1000) * (1000 * s));
        assert((a * 1000) * (1000 * s) <= (a * 1000) * l);
    }
    assert(yy <= b * 1000) by (nonlinear_arith)
        requires
            yy == q * s,
            q * l <= b * 1_000_000,
            1000 * s <= l,
            l > 0,
            s >= 1,
            b >= 0,
            q >= 0,
    {
        assert(yy * l == (q * l) * s);
        assert((q * l) * s <= (b * 1_000_000) * s);
        assert((b * 1_000_000) * s == (b * 1000) * (1000 * s));
        assert((b * 1000) * (1000 * s) <= (b * 1000) * l);
    }
    assert((a + b) * 1000 >= l) by (nonlinear_arith)
        requires
            a >= 0,
            b >= 0,
            l >= 0,
            l * l <= (a * a + b * b) * 1_000_000,
    ;
    assert(p + q >= 999) by (nonlinear_arith)
        requires
            p * l + l > big_a,
            q * l + l > big_b,
            big_a + big_b >= 1000 * l,
            l > 0,
    ;
    assert(yx + yy >= 999 * s) by (nonlinear_arith)
        requires
            yx == p * s,
            yy == q * s,
            p + q >= 999,
            s >= 0,
    ;
}

/// One step of an unobstructed approach. While the target is at least one
/// step away, a step stays within the world and on the same layer, passes
/// the target on neither axis, and closes the gap along the two axes by
/// more than `0.999 * speed - 2` sub-units in all.
pub proof fn lemma_step_toward_progress(from: Vec3, target: Vec3, speed: u32)
    requires
        from.in_world(),
        target.in_world(),
        speed >= 1,
        beyond_reach(from, target, speed),
    ensures
        step_toward_spec(from, target, speed).in_world(),
        step_toward_spec(from, target, speed).z == from.z,
        abs_spec(target.x - step_toward_spec(from, target, speed).x) <= abs_spec(
            target.x - from.x,
        ),
        abs_spec(target.y - step_toward_spec(from, target, speed).y) <= abs_spec(
            target.y - from.y,
        ),
        1000 * planar_gap(step_toward_spec(from, target, speed), target) + 999 * speed < 1000
            * planar_gap(from, target) + 2000,
{
    assert(from.displaced(0, 0, 0) == from);
    assert(target.displaced(0, 0, 0) == target);
    let dx = target.x - from.x;
    let dy = target.y - from.y;
    let a = abs_spec(dx);
    let b = abs_spec(dy);
    let s = speed as int;
    let n = ((dx * dx + dy * dy) * 1_000_000) as nat;
    let l = scaled_length_spec(dx, dy) as int;
    assert(a * a == dx * dx && b * b == dy * dy && dx * dx >= 0 && dy * dy >= 0)
        by (nonlinear_arith)
        requires
            a == abs_spec(dx),
            b == abs_spec(dy),
    ;
    lemma_isqrt_bounds(n);
    let p = (a * 1_000_000) / l;
    let q = (b * 1_000_000) / l;
    let u = (p * s) / 1000;
    let v = (q * s) / 1000;
    lemma_step_arithmetic(a, b, s, l, p, q, u, v);
    let nx = unit_component_spec(dx, dx, dy);
    let ny = unit_component_spec(dy, dx, dy);
    assert(nx == if dx >= 0 {
        p
    } else {
        -p
    });
    assert(ny == if dy >= 0 {
        q
    } else {
        -q
    });
    assert(p >= 0 && q >= 0) by (nonlinear_arith)
        requires
            p == (a * 1_000_000) / l,
            q == (b * 1_000_000) / l,
            a >= 0,
            b >= 0,
            l > 0,
    ;
    assert((-p) * s == -(p * s) && (-q) * s == -(q * s) && p * s >= 0 && q * s >= 0)
        by (nonlinear_arith)
        requires
            p >= 0,
            q >= 0,
            s >= 0,
    ;
    let sx = div_toward_zero(nx * s, 1000);
    let sy = div_toward_zero(ny * s, 1000);
    assert(sx == if dx >= 0 {
        u
    } else {
        -u
    });
    assert(sy == if dy >= 0 {
        v
    } else {
        -v
    });
}

/// Convergence. As long as every position on the way is at least one step
/// away from the target, `n` unobstructed steps close the gap along the two
/// axes by more than `n * (0.999 * speed - 2)` sub-units, and all of them
/// stay within the world. The number of such steps is therefore bounded by
/// the gap at the start divided by `0.999 * speed - 2`.
pub proof fn lemma_walk_converges(from: Vec3, target: Vec3, speed: u32, n: nat)
    requires
        from.in_world(),
        target.in_world(),
        speed >= 1,
        forall|i: nat| i < n ==> beyond_reach(#[trigger] walk_spec(from, target, speed, i), target, speed),
    ensures
        walk_spec(from, target, speed, n).in_world(),
        walk_spec(from, target, speed, n).z == from.z,
        1000 * planar_gap(walk_spec(from, target, speed, n), target) + n * (999 * speed - 2000)
            <= 1000 * planar_gap(from, target),
        n * (999 * speed - 2000) <= 1000 * planar_gap(from, target),
    decreases n,
{
    if n > 0 {
        let m = (n - 1) as nat;
        lemma_walk_converges(from, target, speed, m);
        let before = walk_spec(from, target, speed, m);
        assert(beyond_reach(before, target, speed));
        lemma_step_toward_progress(before, target, speed);
        assert(n * (999 * speed - 2000) == m * (999 * speed - 2000) + (999 * speed - 2000))
            by (nonlinear_arith)
            requires
                n == m + 1,
        ;
    }
    assert(planar_gap(walk_spec(from, target, speed, n), target) >= 0);
}

} // verus!
