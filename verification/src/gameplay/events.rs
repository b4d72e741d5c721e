//! Notifications passed between the systems of the simulation.

use vstd::prelude::*;
use crate::commands::Entity;

verus! {

/// Two entities have been paired and ask to start a conversation.
#[derive(Clone, Copy, Debug, PartialEq, Eq, Structural)]
pub struct ConversationActionEvent {
    pub entity_a: Entity,
    pub entity_b: Entity,
}

} // verus!
