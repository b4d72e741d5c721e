use etherpets::commands::{Command, Commands, Handle, SpriteSheetBundle};
use etherpets::data::player_data::get_player_data;
use etherpets::data::spawn_data::{get_npc_spawn_data, get_player_spawn_data};
use etherpets::gameplay::components::{
    DirectionIntent, GenericActions, InteractionTimers, RoamingPhase,
};
use etherpets::gameplay::player::components::{BasicEmotions, PlayerData};
use etherpets::gameplay::player::spawner::{new_pet, player_spawner, spawn_on_grid};
use etherpets::gameplay::spritesheet::components::PlayerSpriteSheet;
use etherpets::gameplay::tile::grid::GridError;
use etherpets::math::{Vec2, Vec3};
use etherpets::time::{Timer, TimerMode};

fn sheet() -> PlayerSpriteSheet {
    PlayerSpriteSheet(Handle { id: 0 })
}

#[test]
fn roster_has_seven_pets() {
    let roster = get_player_data();
    let summary: Vec<(&str, i32, u32, &str, BasicEmotions)> = roster
        .iter()
        .map(|p| (p.name.as_str(), p.attack_dmg, p.speed, p.player_id.as_str(), p.emotion))
        .collect();
    assert_eq!(
        summary,
        vec![
            ("Chester", 5, 4_000, "1", BasicEmotions::Happiness),
            ("Jakobo", 5, 3_000, "2", BasicEmotions::Hate),
            ("Marcy", 5, 3_500, "3", BasicEmotions::Disgust),
            ("Kitty", 10, 2_500, "4", BasicEmotions::Fear),
            ("Nimbus", 3, 2_000, "5", BasicEmotions::Hate),
            ("Andrea", 2, 4_000, "6", BasicEmotions::Sadness),
            ("Salem", 20, 5_000, "7", BasicEmotions::Excitement),
        ]
    );
}

#[test]
fn spawn_points_are_named() {
    let pets = get_player_spawn_data();
    assert_eq!(pets.len(), 1);
    assert_eq!(
        pets[0].csv_file_path,
        "assets/tiled_maps/csv/gossip_farm_sim_v2_character_spawn_points.csv"
    );
    assert_eq!(pets[0].z_index, 900_000);
    let cattle = get_npc_spawn_data();
    assert_eq!(cattle.len(), 1);
    assert_eq!(
        cattle[0].csv_file_path,
        "assets/tiled_maps/csv/gossip_farm_sim_v2_cow_spawn_points.csv"
    );
    assert_eq!(cattle[0].z_index, 901_000);
}

#[test]
fn new_pet_starts_idle_and_free() {
    let data = PlayerData {
        name: "Kitty".to_string(),
        attack_dmg: 10,
        speed: 2_500,
        player_id: "4".to_string(),
        emotion: BasicEmotions::Fear,
    };
    let pet = new_pet(77, &data, Vec3 { x: 1, y: 2, z: 3 });
    assert_eq!(pet.entity, 77);
    assert_eq!(pet.unique_id.uuid, "4");
    assert!(!pet.active);
    assert_eq!(pet.translation, Vec3 { x: 1, y: 2, z: 3 });
    assert_eq!(pet.sprite_index, 0);
    assert_eq!(pet.movement.direction, Vec2 { x: 0, y: 0 });
    assert_eq!(pet.movement.speed, 2_500);
    assert_eq!(pet.animation.last_direction, DirectionIntent::Down);
    assert_eq!((pet.animation.current_frame, pet.animation.frame_count), (0, 8));
    assert_eq!(pet.animation_timers.idle_timer, Timer::from_millis(250, TimerMode::Repeating));
    assert_eq!(pet.animation_timers.walk_timer, Timer::from_millis(75, TimerMode::Repeating));
    assert_eq!(pet.animation_timers.attack_timer, Timer::from_millis(100, TimerMode::Once));
    assert_eq!(pet.animation_timers.eat_timer, Timer::from_millis(75, TimerMode::Repeating));
    assert_eq!(pet.animation_timers.emote_timer, Timer::from_millis(100, TimerMode::Repeating));
    assert_eq!(pet.action_state.action, GenericActions::Idle);
    assert_eq!((pet.attack.attack_active, pet.attack.attack_dmg), (false, 10));
    assert_eq!(pet.roaming.phase, RoamingPhase::Roaming);
    assert_eq!(pet.roaming.roam_direction, Vec3 { x: 0, y: 0, z: 0 });
    assert_eq!((pet.roaming.roam_time, pet.roaming.roam_max_time), (0, 5_000));
    assert_eq!(pet.roaming.roam_speed, 2_500);
    assert_eq!((pet.roaming.idle_time, pet.roaming.idle_max_time), (0, 2_000));
    assert_eq!((pet.roaming.eating_time, pet.roaming.eating_max_time), (0, 3_000));
    assert_eq!((pet.roaming.emote_time, pet.roaming.emote_max_time), (0, 3_000));
    assert_eq!((pet.collider.width, pet.collider.height, pet.collider.collided), (16_000, 16_000, false));
    assert_eq!(pet.interaction_timers, InteractionTimers::new());
}

#[test]
fn pets_take_the_spawn_points_in_reading_order() {
    let mut commands = Commands::new(40);
    let pets =
        player_spawner(&mut commands, &sheet(), b"a,b,c,d\n-1,0,-1,5\n7,-1,-1,-1\n").unwrap();
    let placed: Vec<(u64, &str, u32, Vec3)> = pets
        .iter()
        .map(|p| (p.entity, p.unique_id.uuid.as_str(), p.movement.speed, p.translation))
        .collect();
    assert_eq!(
        placed,
        vec![
            (40, "1", 4_000, Vec3 { x: -16_000, y: 16_000, z: 900_000 }),
            (41, "2", 3_000, Vec3 { x: 16_000, y: 16_000, z: 900_000 }),
            (42, "3", 3_500, Vec3 { x: -32_000, y: 0, z: 900_000 }),
        ]
    );
    assert_eq!(commands.next_entity, 43);
    assert_eq!(commands.queue.len(), 3);
    assert_eq!(
        commands.queue[2],
        Command::Spawn {
            entity: 42,
            bundle: SpriteSheetBundle {
                atlas: Handle { id: 0 },
                index: 0,
                translation: Vec3 { x: -32_000, y: 0, z: 900_000 },
                scale: Vec3 { x: 1_000, y: 1_000, z: 1_000 },
            },
        }
    );
    assert_eq!(pets[0], new_pet(40, &get_player_data()[0], pets[0].translation));
}

#[test]
fn spawning_stops_when_the_roster_runs_out() {
    let mut commands = Commands::new(0);
    let text = b"h,h,h,h,h\n1,1,1,1,1\n1,1,1,1,1\n";
    let pets = player_spawner(&mut commands, &sheet(), text).unwrap();
    assert_eq!(pets.len(), 7);
    assert_eq!(pets[6].unique_id.uuid, "7");
    assert_eq!(pets[4].translation, Vec3 { x: 24_000, y: 16_000, z: 900_000 });
    assert_eq!(pets[5].translation, Vec3 { x: -40_000, y: 0, z: 900_000 });
    assert_eq!(commands.next_entity, 7);
}

#[test]
fn grid_without_spawn_points_places_nobody() {
    let mut commands = Commands::new(0);
    assert_eq!(player_spawner(&mut commands, &sheet(), b"h\n-1\n-1\n"), Ok(Vec::new()));
    assert_eq!(commands, Commands::new(0));
}

#[test]
fn bad_spawn_points_are_refused() {
    let cases: [(&[u8], GridError); 4] = [
        (b"a,b\n1,2\n3\n", GridError::Malformed),
        (b"a\n1\nx\n", GridError::NotANumber),
        (b"a,b\n", GridError::NoRows),
        (b"", GridError::NoRows),
    ];
    for (text, error) in cases {
        let mut commands = Commands::new(3);
        assert_eq!(player_spawner(&mut commands, &sheet(), text), Err(error));
        assert_eq!(commands, Commands::new(3));
    }
}

#[test]
fn any_roster_can_be_placed_on_a_grid() {
    let roster = vec![get_player_data().remove(3)];
    let mut commands = Commands::new(9);
    let grid = vec![vec![-1], vec![-1, -1, 4], vec![2]];
    let pets = spawn_on_grid(&mut commands, &sheet(), &grid, -7, &roster).unwrap();
    assert_eq!(pets.len(), 1);
    assert_eq!(pets[0].unique_id.uuid, "4");
    // the width of the grid is that of its first row
    assert_eq!(pets[0].translation, Vec3 { x: 24_000, y: 8_000, z: -7 });
    assert_eq!(
        spawn_on_grid(&mut commands, &sheet(), &Vec::new(), 0, &roster),
        Err(GridError::NoRows)
    );
    assert_eq!(spawn_on_grid(&mut commands, &sheet(), &grid, 0, &Vec::new()), Ok(Vec::new()));
}
