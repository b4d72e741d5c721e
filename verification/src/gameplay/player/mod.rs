//! Pets: what they carry and the systems that move them, pair them up and
//! let them react.

pub mod chatting;
pub mod components;
pub mod convergence;
pub mod conversation;
pub mod emote;
pub mod events;
pub mod interaction;
pub mod pairing;
pub mod roaming;
pub mod spawner;
pub mod systems;
