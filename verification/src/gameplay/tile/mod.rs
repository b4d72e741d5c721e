//! The tile map: static obstacles, water and the grids that maps are read
//! from.

pub mod components;
pub mod grid;
pub mod systems;
