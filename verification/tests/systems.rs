use etherpets::commands::{Command, Commands, Handle, SpriteSheetBundle};
use etherpets::gameplay::components::{DirectionIntent, GenericActions};
use etherpets::gameplay::player::chatting::{
    chatting_icon_on_hover, chatting_icon_spawner, chatting_icon_tick, icon_frame, icon_place,
    ChattingIcon,
};
use etherpets::gameplay::player::components::{
    BasicEmotions, EntityPairConversationState, EtherPet, PairEntityConversationData, PlayerData,
    Quadrants,
};
use etherpets::gameplay::player::pairing::inactive_player_proximity_detection;
use etherpets::gameplay::player::spawner::new_pet;
use etherpets::gameplay::player::systems::{
    base_index, basic_player_entity_collision_check, places_of_npcs, player_activation_system,
    player_confinement_system, player_input, player_movement_system, player_sprite_animation,
    queue_pair_entity_conversation_request, update_app_state_system, Keys,
};
use etherpets::gameplay::spritesheet::components::ChattingIconSheet;
use etherpets::gameplay::state::components::{CameraState, GameState, HttpRequestState};
use etherpets::gameplay::state::systems::{
    _pause_game, _resume_game, transition_to_game_state, transition_to_main_menu_state,
};
use etherpets::math::{Vec2, Vec3};
use etherpets::text::same_text;

fn pet(entity: u64, x: i64, y: i64) -> EtherPet {
    let data = PlayerData {
        name: format!("pet {}", entity),
        attack_dmg: 1,
        speed: 4_000,
        player_id: format!("{}", entity),
        emotion: BasicEmotions::Happiness,
    };
    new_pet(entity, &data, Vec3 { x, y, z: 900_000 })
}

const NO_KEYS: Keys =
    Keys { left: false, right: false, up: false, down: false, attack: false, release: false };

#[test]
fn texts_are_compared_by_their_characters() {
    assert!(same_text("Fear", "Fear"));
    assert!(!same_text("Fear", "fear"));
    assert!(!same_text("Fear", "Fea"));
    assert!(same_text("", ""));
}

#[test]
fn a_lone_pet_is_kept_on_the_screen() {
    let mut pets = vec![pet(1, 900_000, -500_000)];
    player_confinement_system(&mut pets);
    assert_eq!(pets[0].translation, Vec3 { x: 792_000, y: -472_000, z: 900_000 });
    let mut pets = vec![pet(1, -792_001, 472_000)];
    player_confinement_system(&mut pets);
    assert_eq!(pets[0].translation, Vec3 { x: -792_000, y: 472_000, z: 900_000 });
    let mut pets = vec![pet(1, 5, 6)];
    player_confinement_system(&mut pets);
    assert_eq!(pets[0].translation, Vec3 { x: 5, y: 6, z: 900_000 });
}

#[test]
fn pets_in_company_are_not_confined() {
    let mut pets = vec![pet(1, 900_000, 0), pet(2, 0, 900_000)];
    let before = pets.clone();
    player_confinement_system(&mut pets);
    assert_eq!(pets, before);
    let mut nobody: Vec<EtherPet> = Vec::new();
    player_confinement_system(&mut nobody);
    assert!(nobody.is_empty());
}

#[test]
fn pets_are_carried_along_their_heading() {
    let mut pets = vec![pet(1, 0, 0), pet(2, 10, 10)];
    pets[0].movement.direction = Vec2 { x: 600, y: -800 };
    player_movement_system(250, &mut pets);
    // 600 * 4000 * 250 / 10^6 = 600
    assert_eq!(pets[0].translation, Vec3 { x: 600, y: -800, z: 900_000 });
    assert_eq!(pets[1].translation, Vec3 { x: 10, y: 10, z: 900_000 });
    pets[0].movement.direction = Vec2 { x: -1, y: 1 };
    player_movement_system(249, &mut pets);
    assert_eq!(pets[0].translation, Vec3 { x: 600, y: -800, z: 900_000 });
}

#[test]
fn rows_of_the_sheet() {
    let rows = [
        (DirectionIntent::Down, 0, 32, 96),
        (DirectionIntent::Up, 8, 40, 104),
        (DirectionIntent::Left, 16, 56, 112),
        (DirectionIntent::Right, 24, 48, 120),
    ];
    for (direction, idle, walk, attack) in rows {
        assert_eq!(base_index(direction, GenericActions::Idle), idle);
        assert_eq!(base_index(direction, GenericActions::Walk), walk);
        assert_eq!(base_index(direction, GenericActions::Attack), attack);
        assert_eq!(base_index(direction, GenericActions::Eating), 0);
        assert_eq!(base_index(direction, GenericActions::Emote), 0);
    }
}

#[test]
fn idle_and_walking_pets_cycle_their_frames() {
    let mut pets = vec![pet(1, 0, 0), pet(2, 0, 0), pet(3, 0, 0)];
    pets[1].action_state.action = GenericActions::Walk;
    pets[1].animation.last_direction = DirectionIntent::Left;
    pets[1].animation.current_frame = 7;
    pets[2].action_state.action = GenericActions::Eating;
    pets[2].animation.current_frame = 2;
    assert!(player_sprite_animation(74, &mut pets).is_empty());
    assert_eq!(pets[0].sprite_index, 0);
    assert_eq!(pets[1].sprite_index, 63);
    assert_eq!(pets[2].sprite_index, 2);
    assert!(player_sprite_animation(1, &mut pets).is_empty());
    assert_eq!(pets[1].animation.current_frame, 0);
    assert_eq!(pets[1].sprite_index, 56);
    assert_eq!(pets[0].sprite_index, 0);
    player_sprite_animation(175, &mut pets);
    assert_eq!(pets[0].animation.current_frame, 1);
    assert_eq!(pets[0].sprite_index, 1);
    assert_eq!(pets[2].sprite_index, 2);
}

#[test]
fn an_attack_ends_with_its_sound() {
    let mut pets = vec![pet(9, 0, 0)];
    pets[0].action_state.action = GenericActions::Attack;
    pets[0].animation.last_direction = DirectionIntent::Up;
    pets[0].animation.current_frame = 6;
    assert!(player_sprite_animation(99, &mut pets).is_empty());
    assert_eq!(pets[0].sprite_index, 110);
    // the timer runs out: the next frame, and on every tick after it another
    assert!(player_sprite_animation(1, &mut pets).is_empty());
    assert_eq!(pets[0].animation.current_frame, 7);
    assert_eq!(pets[0].sprite_index, 111);
    assert_eq!(pets[0].action_state.action, GenericActions::Attack);
    assert_eq!(player_sprite_animation(0, &mut pets), vec![9]);
    assert_eq!(pets[0].animation.current_frame, 0);
    assert_eq!(pets[0].sprite_index, 104);
    assert_eq!(pets[0].action_state.action, GenericActions::Idle);
    assert_eq!(pets[0].animation_timers.attack_timer.elapsed(), 0);
    assert!(!pets[0].animation_timers.attack_timer.finished());
}

#[test]
fn only_pets_on_their_own_are_obstacles() {
    let mut pets = vec![pet(1, 0, 0), pet(2, 50_000, 0)];
    pets[1].active = true;
    assert_eq!(places_of_npcs(&pets), vec![Vec3 { x: 0, y: 0, z: 900_000 }]);
    assert!(!basic_player_entity_collision_check(Vec3 { x: 8_079, y: 0, z: 0 }, &pets));
    assert!(basic_player_entity_collision_check(Vec3 { x: 8_080, y: 0, z: 0 }, &pets));
    assert!(basic_player_entity_collision_check(Vec3 { x: 50_000, y: 0, z: 0 }, &pets));
}

#[test]
fn keys_steer_the_pet_in_hand() {
    let mut pets = vec![pet(1, 0, 0), pet(2, 100_000, 0)];
    pets[0].active = true;
    let before_other = pets[1].clone();
    let keys = Keys { right: true, up: true, ..NO_KEYS };
    // stride: 4000 * 16 * 16 / 1000 = 1024
    assert_eq!(player_input(keys, 16, &mut pets, &Vec::new()), None);
    assert_eq!(pets[0].translation, Vec3 { x: 1_024, y: 1_024, z: 900_000 });
    assert_eq!(pets[0].animation.last_direction, DirectionIntent::Up);
    assert_eq!(pets[0].action_state.action, GenericActions::Walk);
    assert!(pets[0].active);
    assert_eq!(pets[1], before_other);
    let keys = Keys { left: true, right: true, down: true, ..NO_KEYS };
    player_input(keys, 16, &mut pets, &Vec::new());
    assert_eq!(pets[0].translation, Vec3 { x: 1_024, y: 0, z: 900_000 });
    assert_eq!(pets[0].animation.last_direction, DirectionIntent::Down);
    player_input(Keys { left: true, ..NO_KEYS }, 16, &mut pets, &Vec::new());
    assert_eq!(pets[0].translation, Vec3 { x: 0, y: 0, z: 900_000 });
    assert_eq!(pets[0].animation.last_direction, DirectionIntent::Left);
    player_input(NO_KEYS, 16, &mut pets, &Vec::new());
    assert_eq!(pets[0].action_state.action, GenericActions::Idle);
    assert_eq!(pets[0].animation.last_direction, DirectionIntent::Left);
}

#[test]
fn walls_and_pets_stop_the_pet_in_hand_axis_by_axis() {
    let mut pets = vec![pet(1, 0, 0), pet(2, 0, 9_000)];
    pets[0].active = true;
    let walls = vec![Vec3 { x: 9_000, y: 0, z: 0 }];
    let keys = Keys { right: true, down: true, ..NO_KEYS };
    player_input(keys, 16, &mut pets, &walls);
    assert_eq!(pets[0].translation, Vec3 { x: 0, y: -1_024, z: 900_000 });
    assert_eq!(pets[0].action_state.action, GenericActions::Walk);
    let keys = Keys { left: true, up: true, ..NO_KEYS };
    player_input(keys, 16, &mut pets, &walls);
    player_input(keys, 16, &mut pets, &walls);
    // the way up is barred by the other pet
    assert_eq!(pets[0].translation, Vec3 { x: -2_048, y: 0, z: 900_000 });
}

#[test]
fn an_attack_is_not_broken_off() {
    let mut pets = vec![pet(1, 0, 0)];
    pets[0].active = true;
    player_input(Keys { attack: true, left: true, ..NO_KEYS }, 16, &mut pets, &Vec::new());
    assert_eq!(pets[0].action_state.action, GenericActions::Attack);
    assert_eq!(pets[0].translation, Vec3 { x: -1_024, y: 0, z: 900_000 });
    player_input(NO_KEYS, 16, &mut pets, &Vec::new());
    assert_eq!(pets[0].action_state.action, GenericActions::Attack);
}

#[test]
fn letting_go_returns_the_camera() {
    let mut pets = vec![pet(1, 0, 0), pet(2, 50_000, 0)];
    assert_eq!(player_input(Keys { release: true, ..NO_KEYS }, 16, &mut pets, &Vec::new()), None);
    pets[1].active = true;
    assert_eq!(
        player_input(Keys { release: true, up: true, ..NO_KEYS }, 16, &mut pets, &Vec::new()),
        Some(CameraState::ManualCameraControl)
    );
    assert!(!pets[1].active);
    assert_eq!(pets[1].translation, Vec3 { x: 50_000, y: 1_024, z: 900_000 });
}

#[test]
fn a_click_takes_the_pet_under_it_in_hand() {
    let mut pets = vec![pet(1, 0, 0), pet(2, 50_000, 0)];
    pets[1].active = true;
    player_activation_system(None, &mut pets);
    assert!(!pets[0].active && pets[1].active);
    player_activation_system(Some(Vec3 { x: 7_999, y: -7_999, z: 0 }), &mut pets);
    assert!(pets[0].active && !pets[1].active);
    player_activation_system(Some(Vec3 { x: 8_000, y: 0, z: 0 }), &mut pets);
    assert!(!pets[0].active && !pets[1].active);
}

#[test]
fn the_camera_follows_the_pet_in_hand() {
    let mut pets = vec![pet(1, 0, 0), pet(2, 50_000, 0)];
    let follow = CameraState::FollowPlayer;
    let menu = CameraState::MainMenuCamera;
    let manual = CameraState::ManualCameraControl;
    assert_eq!(update_app_state_system(follow, GameState::Playing, &pets), Some(manual));
    assert_eq!(update_app_state_system(manual, GameState::Playing, &pets), None);
    assert_eq!(update_app_state_system(follow, GameState::Pause, &pets), None);
    pets[1].active = true;
    assert_eq!(update_app_state_system(menu, GameState::Playing, &pets), Some(follow));
    assert_eq!(update_app_state_system(follow, GameState::Playing, &pets), None);
    assert_eq!(update_app_state_system(menu, GameState::MainMenu, &pets), None);
    assert_eq!(update_app_state_system(menu, GameState::Playing, &Vec::new()), Some(manual));
}

#[test]
fn game_states_change_on_their_keys() {
    assert_eq!(CameraState::default(), CameraState::MainMenuCamera);
    assert_eq!(GameState::default(), GameState::MainMenu);
    assert_eq!(HttpRequestState::default(), HttpRequestState::Idle);
    assert_eq!(DirectionIntent::default(), DirectionIntent::Down);
    assert_eq!(GenericActions::default(), GenericActions::Idle);
    assert_eq!(_pause_game(), GameState::Pause);
    assert_eq!(_resume_game(), GameState::Playing);
    assert_eq!(
        transition_to_main_menu_state(true, GameState::Playing),
        Some((CameraState::MainMenuCamera, GameState::MainMenu))
    );
    assert_eq!(transition_to_main_menu_state(true, GameState::MainMenu), None);
    assert_eq!(transition_to_main_menu_state(false, GameState::Playing), None);
    assert_eq!(
        transition_to_game_state(true, GameState::MainMenu),
        Some((CameraState::ManualCameraControl, GameState::Playing))
    );
    assert_eq!(transition_to_game_state(true, GameState::Playing), None);
    assert_eq!(transition_to_game_state(false, GameState::Pause), None);
    queue_pair_entity_conversation_request();
}

fn pair(quadrant: Quadrants) -> PairEntityConversationData {
    PairEntityConversationData {
        entity_a: 1,
        entity_b: 2,
        entity_a_pos: Vec3 { x: 100_000, y: 50_000, z: 900_000 },
        entity_b_pos: Vec3 { x: 0, y: 0, z: 0 },
        quadrant,
        chatting_icon_spawned: false,
        conversation_http_request_sent: false,
    }
}

#[test]
fn the_icon_hovers_over_the_anchor() {
    assert_eq!(icon_place(&pair(Quadrants::TopLeft)), Vec3 { x: 100_000, y: 70_000, z: 900_000 });
    assert_eq!(icon_place(&pair(Quadrants::TopRight)), Vec3 { x: 107_500, y: 65_000, z: 900_000 });
    assert_eq!(icon_place(&pair(Quadrants::BottomLeft)), Vec3 { x: 100_000, y: 65_000, z: 900_000 });
    assert_eq!(
        icon_place(&pair(Quadrants::BottomRight)),
        Vec3 { x: 92_500, y: 65_000, z: 900_000 }
    );
    assert_eq!(icon_place(&pair(Quadrants::Aligned)), Vec3 { x: 0, y: 0, z: 0 });
}

#[test]
fn the_icon_opens_cycles_and_closes() {
    assert_eq!(icon_frame(0), 0);
    assert_eq!(icon_frame(100), 1);
    assert_eq!(icon_frame(592), 3);
    assert_eq!(icon_frame(593), 8);
    assert_eq!(icon_frame(1_000), 10);
    assert_eq!(icon_frame(4_000), 9);
    assert_eq!(icon_frame(7_407), 10);
    assert_eq!(icon_frame(7_408), 4);
    assert_eq!(icon_frame(8_000), 5);
    assert_eq!(icon_frame(9_000), 7);
}

#[test]
fn every_conversation_gets_one_icon() {
    let pets = vec![pet(1, 0, 0), pet(2, 12_000, 5_000), pet(3, 100_000, 0), pet(4, 112_000, 0)];
    let mut state = EntityPairConversationState::new();
    inactive_player_proximity_detection(&mut state, &pets);
    let ledger = state.entities_in_conversation.clone();
    let mut commands = Commands::new(30);
    let mut icons: Vec<ChattingIcon> = Vec::new();
    let sheet = ChattingIconSheet(Handle { id: 17 });
    chatting_icon_spawner(&mut commands, &mut state, &sheet, &mut icons);
    assert_eq!(icons.len(), 2);
    assert_eq!(icons[0].entity, 30);
    assert_eq!(icons[0].translation, Vec3 { x: 7_500, y: 15_000, z: 900_000 });
    assert_eq!(icons[1].entity, 31);
    assert_eq!(icons[1].translation, Vec3 { x: 0, y: 0, z: 0 });
    assert_eq!(icons[0].button.chatting_icon_despawn_timer.duration, 9_000);
    assert_eq!((icons[0].animation.current_frame, icons[0].animation.frame_count), (0, 4));
    assert!(state.pair_entities_in_conversation.iter().all(|p| p.chatting_icon_spawned));
    assert_eq!(state.entities_in_conversation, ledger);
    assert_eq!(
        commands.queue[0],
        Command::Spawn {
            entity: 30,
            bundle: SpriteSheetBundle {
                atlas: Handle { id: 17 },
                index: 0,
                translation: Vec3 { x: 7_500, y: 15_000, z: 900_000 },
                scale: Vec3 { x: 650, y: 650, z: 650 },
            },
        }
    );
    chatting_icon_spawner(&mut commands, &mut state, &sheet, &mut icons);
    assert_eq!(icons.len(), 2);
    assert_eq!(commands.next_entity, 32);

    chatting_icon_tick(4_000, &mut icons, &mut commands);
    assert_eq!(icons.len(), 2);
    assert_eq!(icons[0].sprite_index, 9);
    chatting_icon_tick(4_999, &mut icons, &mut commands);
    assert_eq!(icons[1].sprite_index, 7);
    assert_eq!(commands.queue.len(), 2);
    chatting_icon_tick(1, &mut icons, &mut commands);
    assert!(icons.is_empty());
    assert_eq!(
        commands.queue[2..].to_vec(),
        vec![Command::Despawn { entity: 30 }, Command::Despawn { entity: 31 }]
    );
}

#[test]
fn validity_is_decided() {
    let mut p = pet(1, 0, 0);
    assert!(p.animation.is_well_formed());
    p.animation.current_frame = 8;
    assert!(!p.animation.is_well_formed());
    p.animation.frame_count = 0;
    p.animation.current_frame = 0;
    assert!(!p.animation.is_well_formed());
    p.animation.frame_count = usize::MAX - 119;
    assert!(!p.animation.is_well_formed());
    p.animation.frame_count = usize::MAX - 120;
    assert!(p.animation.is_well_formed());

    let state = EntityPairConversationState::default();
    assert_eq!(state, EntityPairConversationState::new());

    let mut commands = Commands::new(0);
    let mut state = EntityPairConversationState::new();
    inactive_player_proximity_detection(&mut state, &vec![pet(1, 0, 0), pet(2, 12_000, 0)]);
    let mut icons: Vec<ChattingIcon> = Vec::new();
    chatting_icon_spawner(
        &mut commands,
        &mut state,
        &ChattingIconSheet(Handle { id: 17 }),
        &mut icons,
    );
    assert!(icons[0].is_well_formed());
    icons[0].button.chatting_icon_despawn_timer.duration = 9_001;
    assert!(!icons[0].is_well_formed());
    icons[0].button.chatting_icon_despawn_timer.duration = 9_000;
    icons[0].button.chatting_icon_despawn_timer.elapsed = 9_001;
    assert!(!icons[0].is_well_formed());
}

#[test]
fn heading_of_any_length_carries_the_pet() {
    let mut pets = vec![pet(1, 0, 0)];
    pets[0].movement.direction = Vec2 { x: i64::MAX, y: i64::MIN };
    pets[0].movement.speed = u32::MAX;
    player_movement_system(u64::MAX, &mut pets);
    assert_eq!(
        pets[0].translation,
        Vec3 { x: 1_000_000_000_000, y: -1_000_000_000_000, z: 900_000 }
    );
}

#[test]
fn a_click_finds_the_icons_under_it() {
    let pets = vec![pet(1, 0, 0), pet(2, 12_000, 5_000), pet(3, 100_000, 0), pet(4, 112_000, 0)];
    let mut state = EntityPairConversationState::new();
    inactive_player_proximity_detection(&mut state, &pets);
    let mut commands = Commands::new(30);
    let mut icons: Vec<ChattingIcon> = Vec::new();
    chatting_icon_spawner(
        &mut commands,
        &mut state,
        &ChattingIconSheet(Handle { id: 17 }),
        &mut icons,
    );
    // the icons stand at (7500, 15000) and at the origin
    assert!(chatting_icon_on_hover(None, &icons).is_empty());
    assert_eq!(chatting_icon_on_hover(Some(Vec3 { x: 7_000, y: 7_500, z: 0 }), &icons), vec![30, 31]);
    assert_eq!(chatting_icon_on_hover(Some(Vec3 { x: 0, y: -7_999, z: 0 }), &icons), vec![31]);
    assert_eq!(chatting_icon_on_hover(Some(Vec3 { x: 15_499, y: 22_999, z: 0 }), &icons), vec![30]);
    assert!(chatting_icon_on_hover(Some(Vec3 { x: 15_500, y: 15_000, z: 0 }), &icons).is_empty());
}
