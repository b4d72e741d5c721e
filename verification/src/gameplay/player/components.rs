//! The attributes of pets and the shared record of their conversations.

use vstd::prelude::*;
use std::collections::HashMap;
use std::collections::VecDeque;
use crate::commands::Entity;
use crate::gameplay::components::{
    Animation, AnimationTimers, Attack, BasicEntityCollider, EntityActionState,
    InteractionTimers, Movement, Roaming,
};
use crate::gameplay::player::events::EmoteEvent;
use crate::math::Vec3;

verus! {

/// A pet: one simulated agent with everything it carries.
#[derive(Clone, Debug, PartialEq, Eq)]
pub struct EtherPet {
    pub entity: Entity,
    pub unique_id: PlayerUniqueId,
    /// Whether the pet is steered by hand. Such a pet takes no part in
    /// roaming or conversations.
    pub active: bool,
    pub translation: Vec3,
    pub sprite_index: usize,
    pub movement: Movement,
    pub animation: Animation,
    pub animation_timers: AnimationTimers,
    pub action_state: EntityActionState,
    pub attack: Attack,
    pub roaming: Roaming,
    pub collider: BasicEntityCollider,
    pub interaction_timers: InteractionTimers,
}

/// Marks the pet that is steered by hand.
#[derive(Clone, Copy, Debug, PartialEq, Eq, Structural)]
pub struct ActiveEtherPet;

/// The bearing of one pet from another: one of four diagonal sectors, or
/// `Aligned` when the two share a coordinate and so lie in no sector.
#[derive(Clone, Copy, Debug, PartialEq, Eq, Structural)]
pub enum Quadrants {
    TopLeft,
    TopRight,
    BottomRight,
    BottomLeft,
    Aligned,
}

/// A conversation between two pets. `entity_a` is the anchor and `entity_b`
/// the responder; the positions are those at which the pair was formed, and
/// the quadrant is the bearing of the responder from the anchor.
#[derive(Clone, Copy, Debug, PartialEq, Eq, Structural)]
pub struct PairEntityConversationData {
    pub entity_a: Entity,
    pub entity_b: Entity,
    pub entity_a_pos: Vec3,
    pub entity_b_pos: Vec3,
    pub quadrant: Quadrants,
    pub chatting_icon_spawned: bool,
    pub conversation_http_request_sent: bool,
}

/// The conversations in progress and the ledger of who is in one.
#[derive(Clone, Debug, PartialEq, Eq)]
pub struct EntityPairConversationState {
    pub pair_entities_in_conversation: Vec<PairEntityConversationData>,
    pub entities_in_conversation: HashMap<Entity, bool>,
}

/// The emotions a pet can show.
#[derive(Clone, Copy, Debug, PartialEq, Eq, Structural)]
pub enum BasicEmotions {
    Happiness,
    Excitement,
    Sadness,
    Fear,
    Disgust,
    Hate,
}

/// The seed record of a pet.
#[derive(Clone, Debug, PartialEq, Eq)]
pub struct PlayerData {
    pub name: String,
    pub attack_dmg: i32,
    pub speed: u32,
    pub player_id: String,
    pub emotion: BasicEmotions,
}

/// The identity of a pet.
#[derive(Clone, Debug, PartialEq, Eq)]
pub struct PlayerUniqueId {
    pub uuid: String,
}

/// The pet that a reaction icon belongs to. It is a key to look the pet up
/// by, never a claim on it.
#[derive(Clone, Copy, Debug, PartialEq, Eq, Structural)]
pub struct EmoteParentEntity {
    pub entity: Entity,
}

/// The reactions that finished conversations have left to be shown, oldest
/// first.
#[derive(Clone, Debug, PartialEq, Eq)]
pub struct ConversationHistoryResource {
    pub entities_to_emote: VecDeque<EmoteEvent>,
}

/// The mathematical content of an `EntityPairConversationState`.
#[verifier::ext_equal]
pub struct ConversationView {
    pub pairs: Seq<PairEntityConversationData>,
    pub ledger: Map<Entity, bool>,
}

impl PairEntityConversationData {
    /// Whether `entity` is one of the two in this conversation.
    pub open spec fn involves(self, entity: Entity) -> bool {
        self.entity_a == entity || self.entity_b == entity
    }

    /// Whether some pet is in both conversations.
    pub open spec fn shares_entity(self, other: PairEntityConversationData) -> bool {
        self.involves(other.entity_a) || self.involves(other.entity_b)
    }

    /// Whether this is the conversation of `a` and `b`, in either order.
    pub open spec fn joins(self, a: Entity, b: Entity) -> bool {
        (self.entity_a == a && self.entity_b == b) || (self.entity_a == b && self.entity_b == a)
    }
}

impl ConversationView {
    /// Whether the ledger marks `entity` as being in a conversation.
    pub open spec fn in_conversation(self, entity: Entity) -> bool {
        self.ledger.contains_key(entity) && self.ledger[entity]
    }

    /// Whether some conversation involves `entity`.
    pub open spec fn paired(self, entity: Entity) -> bool {
        exists|i: int| 0 <= i < self.pairs.len() && (#[trigger] self.pairs[i]).involves(entity)
    }

    /// The exclusivity invariant. No pet talks to itself, no pet is in two
    /// conversations, and the ledger marks exactly the pets that are in one.
    pub open spec fn exclusive(self) -> bool {
        &&& forall|i: int|
            0 <= i < self.pairs.len() ==> (#[trigger] self.pairs[i]).entity_a
                != self.pairs[i].entity_b
        &&& forall|i: int, j: int|
            0 <= i < self.pairs.len() && 0 <= j < self.pairs.len() && i != j ==> !(
            #[trigger] self.pairs[i]).shares_entity(#[trigger] self.pairs[j])
        &&& forall|e: Entity| #[trigger] self.in_conversation(e) <==> self.paired(e)
    }
}

impl View for EntityPairConversationState {
    type V = ConversationView;

    open spec fn view(&self) -> ConversationView {
        ConversationView {
            pairs: self.pair_entities_in_conversation@,
            ledger: self.entities_in_conversation@,
        }
    }
}

impl Default for EntityPairConversationState {
    fn default() -> (state: EntityPairConversationState)
        ensures
            state@.pairs == Seq::<PairEntityConversationData>::empty(),
            state@.ledger == Map::<Entity, bool>::empty(),
            state@.exclusive(),
    {
        EntityPairConversationState::new()
    }
}

impl EntityPairConversationState {
    /// Creates the record of a world in which nobody talks.
    pub fn new() -> (state: EntityPairConversationState)
        ensures
            state@.pairs == Seq::<PairEntityConversationData>::empty(),
            state@.ledger == Map::<Entity, bool>::empty(),
            state@.exclusive(),
    {
        EntityPairConversationState {
            pair_entities_in_conversation: Vec::new(),
            entities_in_conversation: HashMap::new(),
        }
    }
}

} // verus!
