//! The fixed data that a world is set up from.

pub mod player_data;
pub mod spawn_data;
