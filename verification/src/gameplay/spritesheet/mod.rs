//! The sprite sheets and the sprites cut from them.

pub mod components;
pub mod systems;
