//! The simulation proper: the attributes of entities and the systems that
//! advance them.

pub mod components;
pub mod events;
pub mod player;
pub mod simulation;
pub mod spritesheet;
pub mod state;
pub mod tile;
