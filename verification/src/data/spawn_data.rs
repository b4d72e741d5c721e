//! Where the spawn points of a world are read from.

use vstd::prelude::*;
use crate::gameplay::tile::components::{NpcSpawnData, PlayerSpawnData};

verus! {

/// Layer on which the pets stand, in sub-units.
pub const PLAYER_LAYER: i64 = 900_000;

/// Layer on which the cattle stand, in sub-units.
pub const NPC_LAYER: i64 = 901_000;

/// Names the grid of spawn points of the cattle and their layer.
pub fn get_npc_spawn_data() -> (data: Vec<NpcSpawnData>)
    ensures
        data@.len() == 1,
        data@[0].csv_file_path@ == "assets/tiled_maps/csv/gossip_farm_sim_v2_cow_spawn_points.csv"@,
        data@[0].z_index == NPC_LAYER,
{
    let mut data: Vec<NpcSpawnData> = Vec::new();
    data.push(
        NpcSpawnData {
            csv_file_path: "assets/tiled_maps/csv/gossip_farm_sim_v2_cow_spawn_points.csv",
            z_index: NPC_LAYER,
        },
    );
    data
}

/// Names the grid of spawn points of the pets and their layer.
pub fn get_player_spawn_data() -> (data: Vec<PlayerSpawnData>)
    ensures
        data@.len() == 1,
        data@[0].csv_file_path@
            == "assets/tiled_maps/csv/gossip_farm_sim_v2_character_spawn_points.csv"@,
        data@[0].z_index == PLAYER_LAYER,
{
    let mut data: Vec<PlayerSpawnData> = Vec::new();
    data.push(
        PlayerSpawnData {
            csv_file_path: "assets/tiled_maps/csv/gossip_farm_sim_v2_character_spawn_points.csv",
            z_index: PLAYER_LAYER,
        },
    );
    data
}

} // verus!
