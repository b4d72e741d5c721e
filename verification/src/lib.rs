//! Simulation core for a small world of autonomous pets that roam, pair up
//! for timed conversations when they meet, and show their reactions.
//!
//! All quantities are integers. Lengths are counted in thousandths of a world
//! unit and times in milliseconds, so every rule of the simulation is exact
//! and reproducible. The library decides; showing the world, reading its
//! files and listening to the keys is left to the program that uses it,
//! which is told what to show through a buffer of commands.

pub mod commands;
pub mod config;
pub mod data;
pub mod gameplay;
pub mod math;
pub mod text;
pub mod time;
