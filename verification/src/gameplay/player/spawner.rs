//! Setting up the pets of a world: each pet of the roster is placed on a
//! spawn point of the grid, in reading order, until either runs out.

use vstd::prelude::*;
use crate::commands::{Command, Commands, Entity};
use crate::data::player_data::get_player_data;
use crate::data::spawn_data::PLAYER_LAYER;
use crate::gameplay::components::{
    Animation, AnimationTimers, Attack, BasicEntityCollider, DirectionIntent, EntityActionState,
    GenericActions, InteractionTimers, Movement, Roaming, RoamingPhase,
};
use crate::gameplay::player::components::{EtherPet, PlayerData, PlayerUniqueId};
use crate::gameplay::spritesheet::components::PlayerSpriteSheet;
use crate::gameplay::spritesheet::systems::{spawn_player_spritesheet_sprite, sprite_command};
use crate::gameplay::tile::grid::{
    csv_records, grid_of, grid_slots, occupied_cells, read_grid, slots_view, tile_translation,
    tile_translation_spec, GridError,
};
use crate::math::{Vec2, Vec3};
use crate::time::{Timer, TimerMode};

verus! {

/// The timers that set the frame rates of a new pet.
pub open spec fn pet_animation_timers() -> AnimationTimers {
    AnimationTimers {
        idle_timer: Timer::fresh(250, TimerMode::Repeating),
        walk_timer: Timer::fresh(75, TimerMode::Repeating),
        attack_timer: Timer::fresh(100, TimerMode::Once),
        eat_timer: Timer::fresh(75, TimerMode::Repeating),
        emote_timer: Timer::fresh(100, TimerMode::Repeating),
    }
}

/// The roaming behaviour of a new pet: it roams, without a direction yet,
/// at the speed of its seed record.
pub open spec fn pet_roaming(speed: u32) -> Roaming {
    Roaming {
        phase: RoamingPhase::Roaming,
        roam_direction: Vec3::zero_spec(),
        roam_time: 0,
        roam_max_time: 5_000,
        roam_speed: speed,
        idle_time: 0,
        idle_max_time: 2_000,
        eating_time: 0,
        eating_max_time: 3_000,
        emote_time: 0,
        emote_max_time: 3_000,
    }
}

/// The pet made from the seed record `data`, with the handle `entity`, at
/// `translation`: idle, facing down, free to talk, and not steered by hand.
pub open spec fn new_pet_spec(entity: Entity, data: PlayerData, translation: Vec3) -> EtherPet {
    EtherPet {
        entity,
        unique_id: PlayerUniqueId { uuid: data.player_id },
        active: false,
        translation,
        sprite_index: 0,
        movement: Movement { direction: Vec2 { x: 0, y: 0 }, speed: data.speed },
        animation: Animation {
            last_direction: DirectionIntent::Down,
            current_frame: 0,
            frame_count: 8,
        },
        animation_timers: pet_animation_timers(),
        action_state: EntityActionState { action: GenericActions::Idle },
        attack: Attack { attack_active: false, attack_dmg: data.attack_dmg },
        roaming: pet_roaming(data.speed),
        collider: BasicEntityCollider { width: 16_000, height: 16_000, collided: false },
        interaction_timers: InteractionTimers::initial(),
    }
}

/// The number of pets placed: as many as there are seed records and spawn
/// points for.
pub open spec fn placed_count(roster: Seq<PlayerData>, slots: Seq<(int, int)>) -> nat {
    if roster.len() <= slots.len() {
        roster.len()
    } else {
        slots.len()
    }
}

/// The place of the spawn point `slot` of a grid of `width` by `height`
/// cells, on the layer of the pets.
pub open spec fn spawn_place(slot: (int, int), width: int, height: int, z_index: i64) -> Vec3 {
    tile_translation_spec(slot.0, slot.1, width, height, z_index)
}

/// The pets placed on a grid: the first seed record on the first spawn
/// point, and so on, with handles that count up from `first_entity`.
pub open spec fn placed_pets(
    roster: Seq<PlayerData>,
    grid: Seq<Seq<i32>>,
    z_index: i64,
    first_entity: Entity,
) -> Seq<EtherPet> {
    let slots = grid_slots(grid, grid.len() as int);
    Seq::new(
        placed_count(roster, slots),
        |k: int|
            new_pet_spec(
                (first_entity + k) as u64,
                roster[k],
                spawn_place(slots[k], grid[0].len() as int, grid.len() as int, z_index),
            ),
    )
}

/// The commands that show the pets placed on a grid.
pub open spec fn placed_sprites(
    roster: Seq<PlayerData>,
    grid: Seq<Seq<i32>>,
    z_index: i64,
    first_entity: Entity,
    sheet: PlayerSpriteSheet,
) -> Seq<Command> {
    let slots = grid_slots(grid, grid.len() as int);
    Seq::new(
        placed_count(roster, slots),
        |k: int|
            sprite_command(
                (first_entity + k) as u64,
                sheet.0,
                0,
                spawn_place(slots[k], grid[0].len() as int, grid.len() as int, z_index),
            ),
    )
}

/// Makes the pet of a seed record.
pub fn new_pet(entity: Entity, data: &PlayerData, translation: Vec3) -> (pet: EtherPet)
    ensures
        pet == new_pet_spec(entity, *data, translation),
{
    EtherPet {
        entity,
        unique_id: PlayerUniqueId { uuid: data.player_id.clone() },
        active: false,
        translation,
        sprite_index: 0,
        movement: Movement { direction: Vec2 { x: 0, y: 0 }, speed: data.speed },
        animation: Animation {
            last_direction: DirectionIntent::Down,
            current_frame: 0,
            frame_count: 8,
        },
        animation_timers: AnimationTimers {
            idle_timer: Timer::from_millis(250, TimerMode::Repeating),
            walk_timer: Timer::from_millis(75, TimerMode::Repeating),
            attack_timer: Timer::from_millis(100, TimerMode::Once),
            eat_timer: Timer::from_millis(75, TimerMode::Repeating),
            emote_timer: Timer::from_millis(100, TimerMode::Repeating),
        },
        action_state: EntityActionState { action: GenericActions::Idle },
        attack: Attack { attack_active: false, attack_dmg: data.attack_dmg },
        roaming: Roaming {
            phase: RoamingPhase::Roaming,
            roam_direction: Vec3::zero(),
            roam_time: 0,
            roam_max_time: 5_000,
            roam_speed: data.speed,
            idle_time: 0,
            idle_max_time: 2_000,
            eating_time: 0,
            eating_max_time: 3_000,
            emote_time: 0,
            emote_max_time: 3_000,
        },
        collider: BasicEntityCollider { width: 16_000, height: 16_000, collided: false },
        interaction_timers: InteractionTimers::new(),
    }
}

/// Places the pets of `roster` on the spawn points of `grid`, in reading
/// order, until either runs out. A grid without rows is refused.
pub fn spawn_on_grid(
    commands: &mut Commands,
    player_spritesheet: &PlayerSpriteSheet,
    grid: &Vec<Vec<i32>>,
    z_index: i64,
    roster: &Vec<PlayerData>,
) -> (spawned: Result<Vec<EtherPet>, GridError>)
    requires
        old(commands).has_room(roster@.len() as int),
    ensures
        grid@.len() == 0 <==> spawned == Err::<Vec<EtherPet>, GridError>(GridError::NoRows),
        grid@.len() > 0 <==> spawned is Ok,
        spawned matches Ok(pets) ==> {
            &&& pets@ == placed_pets(roster@, grid.deep_view(), z_index, old(commands).next_entity)
            &&& final(commands).queue@ == old(commands).queue@ + placed_sprites(
                roster@,
                grid.deep_view(),
                z_index,
                old(commands).next_entity,
                *player_spritesheet,
            )
            &&& final(commands).next_entity == old(commands).next_entity + pets@.len()
        },
        spawned is Err ==> final(commands).queue@ == old(commands).queue@ && final(commands).next_entity == old(commands).next_entity,
{
    if grid.len() == 0 {
        return Err(GridError::NoRows);
    }
    let map_height = grid.len();
    let map_width = grid[0].len();
    let slots = occupied_cells(grid);
    let ghost cells = grid.deep_view();
    let ghost spec_slots = grid_slots(cells, cells.len() as int);
    let ghost first = commands.next_entity;
    assert(cells[0] == grid@[0]@);
    let count = if roster.len() <= slots.len() {
        roster.len()
    } else {
        slots.len()
    };
    let mut pets: Vec<EtherPet> = Vec::new();
    let mut player_amount: usize = 0;
    while player_amount < count
        invariant
            player_amount <= count,
            count == placed_count(roster@, spec_slots),
            count <= roster@.len(),
            count <= slots@.len(),
            slots_view(slots@) == spec_slots,
            first == old(commands).next_entity,
            first + roster@.len() <= u64::MAX,
            commands.next_entity == first + player_amount,
            map_width == cells[0].len(),
            map_height == cells.len(),
            pets@ == Seq::new(
                player_amount as nat,
                |k: int|
                    new_pet_spec(
                        (first + k) as u64,
                        roster@[k],
                        spawn_place(spec_slots[k], map_width as int, map_height as int, z_index),
                    ),
            ),
            commands.queue@ == old(commands).queue@ + Seq::new(
                player_amount as nat,
                |k: int|
                    sprite_command(
                        (first + k) as u64,
                        player_spritesheet.0,
                        0,
                        spawn_place(spec_slots[k], map_width as int, map_height as int, z_index),
                    ),
            ),
        decreases count - player_amount,
    {
        let slot = slots[player_amount];
        assert(slots_view(slots@)[player_amount as int] == (slot.0 as int, slot.1 as int));
        let tile_translation = tile_translation(slot.0, slot.1, map_width, map_height, z_index);
        let player_entity = spawn_player_spritesheet_sprite(
            commands,
            player_spritesheet,
            0,
            tile_translation,
        );
        pets.push(new_pet(player_entity, &roster[player_amount], tile_translation));
        player_amount += 1;
    }
    Ok(pets)
}

/// What setting up the pets from a text of spawn points yields: the error
/// of the grid, if it cannot be read or has no rows, or else the grid.
pub open spec fn spawn_grid_of(records: Option<Seq<Seq<Seq<char>>>>) -> Result<
    Seq<Seq<i32>>,
    GridError,
> {
    match grid_of(records) {
        Err(error) => Err(error),
        Ok(cells) => if cells.len() == 0 {
            Err(GridError::NoRows)
        } else {
            Ok(cells)
        },
    }
}

/// Sets up the pets of a world from the text of its grid of spawn points.
///
/// The text is refused if it is not well-formed, if a cell holds no number,
/// or if it holds no row. Otherwise the pets of the roster are placed on the
/// spawn points, in reading order, on the layer of the pets.
pub fn player_spawner(
    commands: &mut Commands,
    player_spritesheet: &PlayerSpriteSheet,
    spawn_points: &[u8],
) -> (spawned: Result<Vec<EtherPet>, GridError>)
    requires
        old(commands).has_room(7),
    ensures
        match spawned {
            Ok(pets) => {
                &&& spawn_grid_of(csv_records(spawn_points@)) is Ok
                &&& exists|roster: Seq<PlayerData>|
                    {
                        &&& #[trigger] is_the_roster(roster)
                        &&& pets@ == placed_pets(
                            roster,
                            spawn_grid_of(csv_records(spawn_points@))->Ok_0,
                            PLAYER_LAYER,
                            old(commands).next_entity,
                        )
                        &&& final(commands).queue@ == old(commands).queue@ + placed_sprites(
                            roster,
                            spawn_grid_of(csv_records(spawn_points@))->Ok_0,
                            PLAYER_LAYER,
                            old(commands).next_entity,
                            *player_spritesheet,
                        )
                    }
                &&& final(commands).next_entity == old(commands).next_entity + pets@.len()
            },
            Err(error) => {
                &&& spawn_grid_of(csv_records(spawn_points@)) == Err::<Seq<Seq<i32>>, GridError>(
                    error,
                )
                &&& final(commands).queue@ == old(commands).queue@
                &&& final(commands).next_entity == old(commands).next_entity
            },
        },
{
    let all_player_data = get_player_data();
    match read_grid(spawn_points) {
        Err(error) => Err(error),
        Ok(grid) => {
            let spawned = spawn_on_grid(
                commands,
                player_spritesheet,
                &grid,
                PLAYER_LAYER,
                &all_player_data,
            );
            proof {
                let cells = grid.deep_view();
                assert(cells.len() == grid@.len());
                assert(grid_of(csv_records(spawn_points@)) == Ok::<Seq<Seq<i32>>, GridError>(
                    cells,
                ));
                assert(is_the_roster(all_player_data@));
                if spawned is Ok {
                    assert(spawn_grid_of(csv_records(spawn_points@)) == Ok::<
                        Seq<Seq<i32>>,
                        GridError,
                    >(cells));
                } else {
                    assert(grid@.len() == 0);
                }
            }
            spawned
        },
    }
}

/// Whether `roster` holds the seed records of the roster, in order.
pub open spec fn is_the_roster(roster: Seq<PlayerData>) -> bool {
    &&& roster.len() == crate::data::player_data::player_data_spec().len()
    &&& forall|k: int|
        0 <= k < roster.len() ==> (#[trigger] roster[k])@
            == crate::data::player_data::player_data_spec()[k]
}

} // verus!
