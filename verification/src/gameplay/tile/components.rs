//! The attributes of map tiles and the descriptions of map files.

use vstd::prelude::*;
use crate::commands::Entity;
use crate::time::Timer;

verus! {

/// A map that was built: its size in tiles and the tiles it spawned.
#[derive(Clone, Debug, PartialEq, Eq)]
pub struct TiledMap {
    pub width: usize,
    pub height: usize,
    pub tiles: Vec<Entity>,
}

/// Marks a tile that blocks movement.
#[derive(Clone, Copy, Debug, PartialEq, Eq, Structural)]
pub struct BasicTileCollider;

/// Marks a tile that registers contact without blocking.
#[derive(Clone, Copy, Debug, PartialEq, Eq, Structural)]
pub struct BasicPassiveTileCollider;

/// The animation of a water tile: the frame shown is `base_index` plus
/// `current_frame`.
#[derive(Clone, Copy, Debug, PartialEq, Eq, Structural)]
pub struct WaterSpriteAnimation {
    pub timer: Timer,
    pub frame_count: usize,
    pub current_frame: usize,
    pub base_index: usize,
}

/// One layer of the map: the file of tile indices it is read from, the sheet
/// its tiles are cut from, and which tile indices collide.
pub struct CSVMapData {
    pub csv_file_path: &'static str,
    pub spritesheet_resource_name: &'static str,
    pub collision_indices: Vec<i32>,
    pub passive_collision_indices: Vec<i32>,
    pub z_index: i64,
    pub is_vertically_inverted: bool,
}

/// Where the spawn points of the cattle are read from, and their layer.
pub struct NpcSpawnData {
    pub csv_file_path: &'static str,
    pub z_index: i64,
}

/// Where the spawn points of the pets are read from, and their layer.
pub struct PlayerSpawnData {
    pub csv_file_path: &'static str,
    pub z_index: i64,
}

} // verus!
