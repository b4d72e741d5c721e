//! The constants of the simulation. Lengths are in sub-units (thousandths of
//! a world unit), times in milliseconds.

use vstd::prelude::*;

verus! {

/// Two pets start a conversation only when they are closer than this.
pub const ENTITY_CONVO_DISTANCE: u32 = 15_000;

/// Two pets start a conversation only when they are farther apart than this.
pub const ENTITY_CONVO_MIN_DISTANCE: u32 = 10_000;

/// How long a conversation lasts.
pub const ENTITY_CONVO_DURATION: u64 = 10_000;

/// How long a pet rests after a conversation before it can start another.
pub const ENTITY_CONVO_COOLDOWN: u64 = 15_000;

/// How far to the left of the anchor a responder stands when it approached
/// from the lower right.
pub const ENTITY_CONVO_SIDE_OFFSET: i64 = 12_000;

/// Height of a reaction icon above its pet.
pub const EMOTE_HEIGHT: i64 = 17_500;

/// Layer offset that puts a new reaction icon in front of everything else.
pub const EMOTE_LAYER: i64 = 1_000_000;

} // verus!
