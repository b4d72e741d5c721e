//! Obstacle queries and the systems of the tile map.

use vstd::prelude::*;
use crate::commands::{Command, Commands, Entity, Handle};
use crate::gameplay::spritesheet::components::WaterSpriteSheet;
use crate::gameplay::spritesheet::systems::{
    spawn_map, spawn_water_spritesheet_sprite, sprite_command, water_animation_spec,
};
use crate::gameplay::tile::components::{CSVMapData, TiledMap, WaterSpriteAnimation};
use crate::gameplay::tile::grid::{
    csv_records, grid_of, read_grid, tile_translation, tile_translation_spec, GridError,
};
use crate::math::{Vec2, Vec3};

verus! {

/// Extent of the probe that stands for a moving entity in an obstacle query:
/// a hundredth of a tile.
pub open spec fn probe_size() -> Vec2 {
    Vec2 { x: 160, y: 160 }
}

/// Extent of a tile.
pub open spec fn tile_extent() -> Vec2 {
    Vec2 { x: 16_000, y: 16_000 }
}

/// Whether two axis-aligned boxes, given by centre and extent, overlap in the
/// plane. Boxes that merely touch do not overlap.
pub open spec fn boxes_overlap(a_pos: Vec3, a_size: Vec2, b_pos: Vec3, b_size: Vec2) -> bool {
    &&& 2 * a_pos.x - a_size.x < 2 * b_pos.x + b_size.x
    &&& 2 * a_pos.x + a_size.x > 2 * b_pos.x - b_size.x
    &&& 2 * a_pos.y - a_size.y < 2 * b_pos.y + b_size.y
    &&& 2 * a_pos.y + a_size.y > 2 * b_pos.y - b_size.y
}

/// Whether a probe at `target` overlaps the tile-sized box around `obstacle`.
pub open spec fn overlaps_tile(target: Vec3, obstacle: Vec3) -> bool {
    boxes_overlap(target, probe_size(), obstacle, tile_extent())
}

/// Whether a probe at `target` overlaps any of `obstacles`.
pub open spec fn is_blocked(obstacles: Seq<Vec3>, target: Vec3) -> bool {
    exists|i: int| 0 <= i < obstacles.len() && overlaps_tile(target, #[trigger] obstacles[i])
}

/// Tests two axis-aligned boxes, given by centre and extent, for overlap.
pub fn collide(a_pos: Vec3, a_size: Vec2, b_pos: Vec3, b_size: Vec2) -> (hit: bool)
    ensures
        hit == boxes_overlap(a_pos, a_size, b_pos, b_size),
{
    let ax: i128 = 2 * (a_pos.x as i128);
    let ay: i128 = 2 * (a_pos.y as i128);
    let bx: i128 = 2 * (b_pos.x as i128);
    let by: i128 = 2 * (b_pos.y as i128);
    ax - (a_size.x as i128) < bx + (b_size.x as i128)
        && ax + (a_size.x as i128) > bx - (b_size.x as i128)
        && ay - (a_size.y as i128) < by + (b_size.y as i128)
        && ay + (a_size.y as i128) > by - (b_size.y as i128)
}

/// Reports whether `target_player_pos` is free of the walls: `true` when a
/// probe there overlaps none of them.
pub fn basic_wall_collision_check(target_player_pos: Vec3, walls: &Vec<Vec3>) -> (free: bool)
    ensures
        free == !is_blocked(walls@, target_player_pos),
{
    let probe = Vec2 { x: 160, y: 160 };
    let tile = Vec2 { x: 16_000, y: 16_000 };
    let mut i: usize = 0;
    while i < walls.len()
        invariant
            i <= walls.len(),
            probe == probe_size(),
            tile == tile_extent(),
            forall|j: int| 0 <= j < i ==> !overlaps_tile(target_player_pos, #[trigger] walls@[j]),
        decreases walls.len() - i,
    {
        if collide(target_player_pos, probe, walls[i], tile) {
            return false;
        }
        i += 1;
    }
    true
}

/// Number of water tiles in a row of the sea.
pub const WATER_COLUMNS: usize = 100;

/// Number of rows of water tiles in the sea.
pub const WATER_ROWS: usize = 60;

/// A water tile: its handle, the cell of the sheet it shows, and its
/// animation.
#[derive(Clone, Copy, Debug, PartialEq, Eq, Structural)]
pub struct WaterTile {
    pub entity: Entity,
    pub sprite_index: usize,
    pub animation: WaterSpriteAnimation,
}

/// The place of the water tile number `k`, counted row by row from the upper
/// left corner of the sea.
pub open spec fn water_place(k: int) -> Vec3 {
    tile_translation_spec(
        k % (WATER_COLUMNS as int),
        k / (WATER_COLUMNS as int),
        WATER_COLUMNS as int,
        WATER_ROWS as int,
        0,
    )
}

/// The first `count` water tiles of the sea, with handles that count up from
/// `first_entity`.
pub open spec fn water_tiles(first_entity: Entity, count: int) -> Seq<WaterTile> {
    Seq::new(
        count as nat,
        |k: int|
            WaterTile {
                entity: (first_entity + k) as u64,
                sprite_index: 0,
                animation: water_animation_spec(),
            },
    )
}

/// The commands that show the first `count` water tiles of the sea.
pub open spec fn water_sprites(first_entity: Entity, sheet: WaterSpriteSheet, count: int) -> Seq<
    Command,
> {
    Seq::new(
        count as nat,
        |k: int| sprite_command((first_entity + k) as u64, sheet.0, 0, water_place(k)),
    )
}

/// Covers the whole screen with water tiles, row by row from the upper left
/// corner, and then creates the bare entity that stands for the sea.
pub fn spawn_water(commands: &mut Commands, water_sheet: &WaterSpriteSheet) -> (tiles: Vec<
    WaterTile,
>)
    requires
        old(commands).has_room(WATER_COLUMNS * WATER_ROWS + 1),
    ensures
        tiles@ == water_tiles(old(commands).next_entity, WATER_COLUMNS * WATER_ROWS),
        final(commands).queue@ == (old(commands).queue@ + water_sprites(
            old(commands).next_entity,
            *water_sheet,
            WATER_COLUMNS * WATER_ROWS,
        )).push(
            Command::SpawnEmpty {
                entity: (old(commands).next_entity + WATER_COLUMNS * WATER_ROWS) as u64,
            },
        ),
        final(commands).next_entity == old(commands).next_entity + WATER_COLUMNS * WATER_ROWS + 1,
{
    let ghost first = commands.next_entity;
    let mut tiles: Vec<WaterTile> = Vec::new();
    let mut y: usize = 0;
    while y < WATER_ROWS
        invariant
            y <= WATER_ROWS,
            first == old(commands).next_entity,
            first + 6001 <= u64::MAX,
            commands.next_entity == first + y * 100,
            tiles@ == water_tiles(first, y * 100),
            commands.queue@ == old(commands).queue@ + water_sprites(first, *water_sheet, y * 100),
        decreases WATER_ROWS - y,
    {
        let mut x: usize = 0;
        while x < WATER_COLUMNS
            invariant
                x <= WATER_COLUMNS,
                y < WATER_ROWS,
                first == old(commands).next_entity,
                first + 6001 <= u64::MAX,
                commands.next_entity == first + y * 100 + x,
                tiles@ == water_tiles(first, y * 100 + x),
                commands.queue@ == old(commands).queue@ + water_sprites(
                    first,
                    *water_sheet,
                    y * 100 + x,
                ),
            decreases WATER_COLUMNS - x,
        {
            let place = tile_translation(x, y, WATER_COLUMNS, WATER_ROWS, 0);
            assert(place == water_place(y * 100 + x));
            let spawned = spawn_water_spritesheet_sprite(commands, water_sheet, 0, place);
            tiles.push(WaterTile { entity: spawned.0, sprite_index: 0, animation: spawned.1 });
            x += 1;
        }
        y += 1;
    }
    commands.spawn_empty();
    tiles
}

impl WaterTile {
    /// Whether the animation can advance: it has a frame to show, and its
    /// frames fit in the sheet.
    pub open spec fn well_formed(self) -> bool {
        &&& 0 < self.animation.frame_count
        &&& self.animation.current_frame < self.animation.frame_count
        &&& self.animation.base_index + self.animation.frame_count <= usize::MAX
    }

    /// Decides whether the animation can advance.
    pub fn is_well_formed(&self) -> (b: bool)
        ensures
            b == self.well_formed(),
    {
        0 < self.animation.frame_count && self.animation.current_frame
            < self.animation.frame_count && self.animation.base_index <= usize::MAX
            - self.animation.frame_count
    }

    /// The tile after `delta` milliseconds: when its timer finishes, it
    /// shows the next frame, the first one after the last, and the timer
    /// starts over.
    pub open spec fn animated(self, delta: u64) -> WaterTile {
        if self.animation.timer.ticked(delta).finished {
            let frame = ((self.animation.current_frame + 1) % (
            self.animation.frame_count as int)) as usize;
            WaterTile {
                sprite_index: (self.animation.base_index + frame) as usize,
                animation: WaterSpriteAnimation {
                    timer: self.animation.timer.ticked(delta).rewound(),
                    current_frame: frame,
                    ..self.animation
                },
                ..self
            }
        } else {
            WaterTile {
                animation: WaterSpriteAnimation {
                    timer: self.animation.timer.ticked(delta),
                    ..self.animation
                },
                ..self
            }
        }
    }
}

/// Advances the animation of every water tile by `delta` milliseconds.
pub fn water_sprite_animation(delta: u64, tiles: &mut Vec<WaterTile>)
    requires
        forall|k: int| 0 <= k < old(tiles)@.len() ==> (#[trigger] old(tiles)@[k]).well_formed(),
    ensures
        final(tiles)@.len() == old(tiles)@.len(),
        forall|k: int|
            0 <= k < old(tiles)@.len() ==> #[trigger] final(tiles)@[k] == old(tiles)@[k].animated(
                delta,
            ),
        forall|k: int| 0 <= k < final(tiles)@.len() ==> (#[trigger] final(tiles)@[k]).well_formed(),
{
    let n = tiles.len();
    let mut k: usize = 0;
    while k < n
        invariant
            k <= n,
            n == tiles@.len(),
            n == old(tiles)@.len(),
            forall|j: int| 0 <= j < n ==> (#[trigger] tiles@[j]).well_formed(),
            forall|j: int| 0 <= j < k ==> #[trigger] tiles@[j] == old(tiles)@[j].animated(delta),
            forall|j: int| k <= j < n ==> #[trigger] tiles@[j] == old(tiles)@[j],
        decreases n - k,
    {
        let mut tile = tiles[k];
        tile.animation.timer.tick(delta);
        if tile.animation.timer.finished() {
            tile.animation.current_frame = (tile.animation.current_frame + 1)
                % tile.animation.frame_count;
            tile.sprite_index = tile.animation.base_index + tile.animation.current_frame;
            tile.animation.timer.reset();
        }
        tiles.set(k, tile);
        k += 1;
    }
}

/// What building a map layer yields: the map, and the places of the tiles
/// that block movement and of those that register contact.
#[derive(Clone, Debug, PartialEq, Eq)]
pub struct MapLayer {
    pub map: TiledMap,
    pub colliders: Vec<Vec3>,
    pub passive_colliders: Vec<Vec3>,
}

/// Whether `indices` lists `tile_index`.
pub open spec fn lists(indices: Seq<i32>, tile_index: i32) -> bool {
    exists|k: int| 0 <= k < indices.len() && #[trigger] indices[k] == tile_index
}

/// Decides whether `indices` lists `tile_index`.
pub fn contains_index(indices: &Vec<i32>, tile_index: i32) -> (found: bool)
    ensures
        found == lists(indices@, tile_index),
{
    let mut k: usize = 0;
    while k < indices.len()
        invariant
            k <= indices.len(),
            forall|j: int| 0 <= j < k ==> #[trigger] indices@[j] != tile_index,
        decreases indices.len() - k,
    {
        if indices[k] == tile_index {
            return true;
        }
        k += 1;
    }
    false
}

/// The tiles of a map layer, of the first `x_end` cells of row `y`: for each
/// cell that holds a tile, the cell of the sheet and the place of the tile.
pub open spec fn row_tiles(
    row: Seq<i32>,
    y: int,
    x_end: int,
    width: int,
    height: int,
    z_index: i64,
) -> Seq<(i32, Vec3)>
    decreases x_end,
{
    if x_end <= 0 {
        Seq::empty()
    } else if row[x_end - 1] >= 0 {
        row_tiles(row, y, x_end - 1, width, height, z_index).push(
            (row[x_end - 1], tile_translation_spec(x_end - 1, y, width, height, z_index)),
        )
    } else {
        row_tiles(row, y, x_end - 1, width, height, z_index)
    }
}

/// The tiles of a map layer, of the first `y_end` rows, in reading order.
pub open spec fn grid_tiles(grid: Seq<Seq<i32>>, y_end: int, z_index: i64) -> Seq<(i32, Vec3)>
    decreases y_end,
{
    if y_end <= 0 {
        Seq::empty()
    } else {
        grid_tiles(grid, y_end - 1, z_index) + row_tiles(
            grid[y_end - 1],
            y_end - 1,
            grid[y_end - 1].len() as int,
            grid[0].len() as int,
            grid.len() as int,
            z_index,
        )
    }
}

/// The commands that show `tiles`, with handles that count up from
/// `first_entity`.
pub open spec fn tile_sprites(tiles: Seq<(i32, Vec3)>, first_entity: Entity, sheet: Handle) -> Seq<
    Command,
> {
    Seq::new(
        tiles.len(),
        |k: int| sprite_command((first_entity + k) as u64, sheet, tiles[k].0 as usize, tiles[k].1),
    )
}

/// The places of those of the first `k_end` of `tiles` whose index
/// `indices` lists, in order.
pub open spec fn listed_places(tiles: Seq<(i32, Vec3)>, indices: Seq<i32>, k_end: int) -> Seq<Vec3>
    decreases k_end,
{
    if k_end <= 0 {
        Seq::empty()
    } else if lists(indices, tiles[k_end - 1].0) {
        listed_places(tiles, indices, k_end - 1).push(tiles[k_end - 1].1)
    } else {
        listed_places(tiles, indices, k_end - 1)
    }
}

/// Lists the tiles of a grid in reading order: cells with a negative index
/// hold no tile.
pub fn tiles_of_grid(grid: &Vec<Vec<i32>>, z_index: i64) -> (tiles: Vec<(i32, Vec3)>)
    requires
        grid@.len() > 0,
    ensures
        tiles@ == grid_tiles(grid.deep_view(), grid@.len() as int, z_index),
{
    let ghost cells = grid.deep_view();
    let map_height = grid.len();
    let map_width = grid[0].len();
    assert(cells[0] == grid@[0]@);
    let mut tiles: Vec<(i32, Vec3)> = Vec::new();
    let mut y: usize = 0;
    while y < grid.len()
        invariant
            y <= grid.len(),
            cells == grid.deep_view(),
            map_height == cells.len(),
            map_width == cells[0].len(),
            tiles@ == grid_tiles(cells, y as int, z_index),
        decreases grid.len() - y,
    {
        let row = &grid[y];
        assert(cells[y as int] == row@);
        let ghost before = tiles@;
        let mut x: usize = 0;
        while x < row.len()
            invariant
                x <= row.len(),
                cells[y as int] == row@,
                tiles@ == before + row_tiles(
                    row@,
                    y as int,
                    x as int,
                    map_width as int,
                    map_height as int,
                    z_index,
                ),
            decreases row.len() - x,
        {
            if row[x] >= 0 {
                tiles.push((row[x], tile_translation(x, y, map_width, map_height, z_index)));
            }
            x += 1;
        }
        y += 1;
    }
    tiles
}

/// Places the tiles of one layer of the map: every tile gets a sprite, and
/// the tiles whose index the layer lists as colliding are noted as
/// obstacles. Last comes the bare entity that stands for the map.
pub fn place_tiles(
    commands: &mut Commands,
    map_data: &CSVMapData,
    spritesheet_handle: &Handle,
    found: &Vec<(i32, Vec3)>,
    width: usize,
    height: usize,
) -> (layer: MapLayer)
    requires
        old(commands).has_room(found@.len() as int + 1),
        forall|j: int| 0 <= j < found@.len() ==> (#[trigger] found@[j]).0 >= 0,
    ensures
        layer.map.width == width,
        layer.map.height == height,
        layer.map.tiles@ == Seq::new(
            found@.len(),
            |k: int| (old(commands).next_entity + k) as u64,
        ),
        layer.colliders@ == listed_places(
            found@,
            map_data.collision_indices@,
            found@.len() as int,
        ),
        layer.passive_colliders@ == listed_places(
            found@,
            map_data.passive_collision_indices@,
            found@.len() as int,
        ),
        final(commands).queue@ == (old(commands).queue@ + tile_sprites(
            found@,
            old(commands).next_entity,
            *spritesheet_handle,
        )).push(
            Command::SpawnEmpty { entity: (old(commands).next_entity + found@.len()) as u64 },
        ),
        final(commands).next_entity == old(commands).next_entity + found@.len() + 1,
{
    let ghost first = commands.next_entity;
    let mut tiles: Vec<Entity> = Vec::new();
    let mut colliders: Vec<Vec3> = Vec::new();
    let mut passive_colliders: Vec<Vec3> = Vec::new();
    let mut k: usize = 0;
    while k < found.len()
        invariant
            k <= found.len(),
            first == old(commands).next_entity,
            first + found@.len() + 1 <= u64::MAX,
            forall|j: int| 0 <= j < found@.len() ==> (#[trigger] found@[j]).0 >= 0,
            commands.next_entity == first + k,
            tiles@ == Seq::new(k as nat, |j: int| (first + j) as u64),
            colliders@ == listed_places(found@, map_data.collision_indices@, k as int),
            passive_colliders@ == listed_places(
                found@,
                map_data.passive_collision_indices@,
                k as int,
            ),
            commands.queue@ == old(commands).queue@ + tile_sprites(
                found@.take(k as int),
                first,
                *spritesheet_handle,
            ),
        decreases found.len() - k,
    {
        let tile_index = found[k].0;
        let place = found[k].1;
        let tile = spawn_map(commands, spritesheet_handle, tile_index as usize, place);
        if contains_index(&map_data.collision_indices, tile_index) {
            colliders.push(place);
        }
        if contains_index(&map_data.passive_collision_indices, tile_index) {
            passive_colliders.push(place);
        }
        tiles.push(tile);
        assert(found@.take(k + 1) == found@.take(k as int).push(found@[k as int]));
        k += 1;
    }
    assert(found@.take(found@.len() as int) == found@);
    commands.spawn_empty();
    MapLayer { map: TiledMap { width, height, tiles }, colliders, passive_colliders }
}

/// Every tile of a grid has a cell of the sheet to show: its index is not
/// negative.
pub proof fn lemma_grid_tiles_indexed(grid: Seq<Seq<i32>>, y_end: int, z_index: i64)
    requires
        0 <= y_end <= grid.len(),
    ensures
        forall|j: int|
            0 <= j < grid_tiles(grid, y_end, z_index).len() ==> (#[trigger] grid_tiles(
                grid,
                y_end,
                z_index,
            )[j]).0 >= 0,
    decreases y_end,
{
    if y_end > 0 {
        lemma_grid_tiles_indexed(grid, y_end - 1, z_index);
        lemma_row_tiles_indexed(
            grid[y_end - 1],
            y_end - 1,
            grid[y_end - 1].len() as int,
            grid[0].len() as int,
            grid.len() as int,
            z_index,
        );
        let before = grid_tiles(grid, y_end - 1, z_index);
        let row = row_tiles(
            grid[y_end - 1],
            y_end - 1,
            grid[y_end - 1].len() as int,
            grid[0].len() as int,
            grid.len() as int,
            z_index,
        );
        let after = grid_tiles(grid, y_end, z_index);
        assert forall|j: int| 0 <= j < after.len() implies (#[trigger] after[j]).0 >= 0 by {
            if j < before.len() {
                assert(after[j] == before[j]);
            } else {
                assert(after[j] == row[j - before.len()]);
            }
        }
    }
}

/// Every tile of a row has a cell of the sheet to show.
pub proof fn lemma_row_tiles_indexed(
    row: Seq<i32>,
    y: int,
    x_end: int,
    width: int,
    height: int,
    z_index: i64,
)
    requires
        0 <= x_end <= row.len(),
    ensures
        forall|j: int|
            0 <= j < row_tiles(row, y, x_end, width, height, z_index).len() ==> (
            #[trigger] row_tiles(row, y, x_end, width, height, z_index)[j]).0 >= 0,
    decreases x_end,
{
    if x_end > 0 {
        lemma_row_tiles_indexed(row, y, x_end - 1, width, height, z_index);
        let before = row_tiles(row, y, x_end - 1, width, height, z_index);
        let after = row_tiles(row, y, x_end, width, height, z_index);
        assert forall|j: int| 0 <= j < after.len() implies (#[trigger] after[j]).0 >= 0 by {
            if j < before.len() {
                assert(after[j] == before[j]);
            }
        }
    }
}

/// What building a layer from a text of tile indices comes to, given the
/// records of the text and the number of handles that are left: the error,
/// or the grid.
pub open spec fn layer_grid_of(
    records: Option<Seq<Seq<Seq<char>>>>,
    z_index: i64,
    handles_left: int,
) -> Result<Seq<Seq<i32>>, GridError> {
    match grid_of(records) {
        Err(error) => Err(error),
        Ok(cells) => if cells.len() == 0 {
            Err(GridError::NoRows)
        } else if grid_tiles(cells, cells.len() as int, z_index).len() >= handles_left {
            Err(GridError::TooLarge)
        } else {
            Ok(cells)
        },
    }
}

/// Builds one layer of the map from the text of its grid of tile indices.
/// The text is refused if it is not well-formed, if a cell holds no number,
/// if it holds no row, or if it holds more tiles than there are handles
/// left.
pub fn spawn_map_from_csv(
    commands: &mut Commands,
    map_data: &CSVMapData,
    spritesheet_handle: &Handle,
    data: &[u8],
) -> (layer: Result<MapLayer, GridError>)
    ensures
        match layer {
            Ok(built) => {
                &&& layer_grid_of(
                    csv_records(data@),
                    map_data.z_index,
                    u64::MAX - old(commands).next_entity,
                ) matches Ok(cells)
                &&& built.map.width == cells[0].len()
                &&& built.map.height == cells.len()
                &&& built.map.tiles@ == Seq::new(
                    grid_tiles(cells, cells.len() as int, map_data.z_index).len(),
                    |k: int| (old(commands).next_entity + k) as u64,
                )
                &&& built.colliders@ == listed_places(
                    grid_tiles(cells, cells.len() as int, map_data.z_index),
                    map_data.collision_indices@,
                    grid_tiles(cells, cells.len() as int, map_data.z_index).len() as int,
                )
                &&& built.passive_colliders@ == listed_places(
                    grid_tiles(cells, cells.len() as int, map_data.z_index),
                    map_data.passive_collision_indices@,
                    grid_tiles(cells, cells.len() as int, map_data.z_index).len() as int,
                )
                &&& final(commands).queue@ == (old(commands).queue@ + tile_sprites(
                    grid_tiles(cells, cells.len() as int, map_data.z_index),
                    old(commands).next_entity,
                    *spritesheet_handle,
                )).push(
                    Command::SpawnEmpty {
                        entity: (old(commands).next_entity + grid_tiles(
                            cells,
                            cells.len() as int,
                            map_data.z_index,
                        ).len()) as u64,
                    },
                )
            },
            Err(error) => {
                &&& final(commands).queue@ == old(commands).queue@
                &&& final(commands).next_entity == old(commands).next_entity
                &&& layer_grid_of(
                    csv_records(data@),
                    map_data.z_index,
                    u64::MAX - old(commands).next_entity,
                ) == Err::<Seq<Seq<i32>>, GridError>(error)
            },
        },
{
    match read_grid(data) {
        Err(error) => Err(error),
        Ok(grid) => {
            if grid.len() == 0 {
                return Err(GridError::NoRows);
            }
            let tiles = tiles_of_grid(&grid, map_data.z_index);
            proof {
                assert(grid.deep_view().len() == grid@.len());
                assert(grid.deep_view()[0] == grid@[0]@);
                lemma_grid_tiles_indexed(grid.deep_view(), grid@.len() as int, map_data.z_index);
            }
            if tiles.len() as u128 >= (u64::MAX - commands.next_entity) as u128 {
                return Err(GridError::TooLarge);
            }
            Ok(
                place_tiles(
                    commands,
                    map_data,
                    spritesheet_handle,
                    &tiles,
                    grid[0].len(),
                    grid.len(),
                ),
            )
        },
    }
}

} // verus!
