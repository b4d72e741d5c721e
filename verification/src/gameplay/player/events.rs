//! Notifications addressed to pets.

use vstd::prelude::*;

verus! {

/// A reaction requested for every pet whose identity is `entity_uuid`.
#[derive(Clone, Debug, PartialEq, Eq)]
pub struct EmoteEvent {
    pub entity_uuid: String,
    pub emote: String,
}

} // verus!
