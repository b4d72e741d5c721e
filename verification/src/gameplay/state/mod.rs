//! The states of the game and the transitions between them.

pub mod components;
pub mod systems;
