use etherpets::gameplay::components::{DirectionIntent, GenericActions, RoamingPhase};
use etherpets::gameplay::player::components::{BasicEmotions, EtherPet, PlayerData};
use etherpets::gameplay::player::roaming::{
    facing, heading, inactive_player_roaming_system, roam_target, RoamDraw,
};
use etherpets::gameplay::player::spawner::new_pet;
use etherpets::gameplay::tile::systems::basic_wall_collision_check;
use etherpets::math::{isqrt, Vec3};

fn pet(entity: u64, x: i64, y: i64, speed: u32) -> EtherPet {
    let data = PlayerData {
        name: format!("pet {}", entity),
        attack_dmg: 1,
        speed,
        player_id: format!("{}", entity),
        emotion: BasicEmotions::Happiness,
    };
    new_pet(entity, &data, Vec3 { x, y, z: 900_000 })
}

fn east() -> Vec3 {
    Vec3 { x: 1_000, y: 0, z: 0 }
}

const NO_DRAW: RoamDraw = RoamDraw { hold: false, x: 0, y: 0 };

#[test]
fn heading_is_a_unit_vector_on_layer_zero() {
    assert_eq!(heading(3, 4), Vec3 { x: 600, y: 800, z: 0 });
    assert_eq!(heading(-1000, 1000), Vec3 { x: -707, y: 707, z: 0 });
    assert_eq!(heading(0, 0), Vec3 { x: 0, y: 0, z: 0 });
    assert_eq!(heading(0, -1), Vec3 { x: 0, y: -1000, z: 0 });
}

#[test]
fn facing_prefers_the_horizontal() {
    assert_eq!(facing(Vec3 { x: 707, y: 707, z: 0 }), DirectionIntent::Right);
    assert_eq!(facing(Vec3 { x: 707, y: -707, z: 0 }), DirectionIntent::Right);
    assert_eq!(facing(Vec3 { x: -707, y: 707, z: 0 }), DirectionIntent::Left);
    assert_eq!(facing(Vec3 { x: -800, y: -600, z: 0 }), DirectionIntent::Left);
    assert_eq!(facing(Vec3 { x: 600, y: 800, z: 0 }), DirectionIntent::Up);
    assert_eq!(facing(Vec3 { x: -600, y: 800, z: 0 }), DirectionIntent::Up);
    assert_eq!(facing(Vec3 { x: 600, y: -800, z: 0 }), DirectionIntent::Down);
    assert_eq!(facing(Vec3 { x: 0, y: 1000, z: 0 }), DirectionIntent::Up);
    assert_eq!(facing(Vec3 { x: 0, y: -1000, z: 0 }), DirectionIntent::Down);
    assert_eq!(facing(Vec3 { x: 0, y: 0, z: 0 }), DirectionIntent::Down);
    assert_eq!(facing(Vec3 { x: i64::MIN, y: i64::MIN, z: 0 }), DirectionIntent::Left);
}

#[test]
fn roam_target_scales_with_speed_tile_and_time() {
    let origin = Vec3 { x: 0, y: 0, z: 0 };
    assert_eq!(roam_target(origin, east(), 4_000, 16), Vec3 { x: 1_024, y: 0, z: 0 });
    assert_eq!(
        roam_target(origin, Vec3 { x: -707, y: 707, z: 0 }, 3_000, 20),
        Vec3 { x: -678, y: 678, z: 0 }
    );
    assert_eq!(roam_target(origin, east(), 4_000, 0), origin);
    assert_eq!(roam_target(origin, east(), 0, 16), origin);
    assert_eq!(
        roam_target(origin, Vec3 { x: 1_000, y: -1_000, z: 1_000 }, u32::MAX, u64::MAX),
        Vec3 { x: 1_000_000_000_000, y: -1_000_000_000_000, z: 1_000_000_000_000 }
    );
}

#[test]
fn talking_and_steered_pets_do_not_roam() {
    let mut talking = pet(1, 0, 0, 4_000);
    talking.interaction_timers.prox_chat_active = true;
    talking.collider.collided = true;
    let before = talking.clone();
    talking.roam(16, &Vec::new(), RoamDraw { hold: false, x: 500, y: 500 });
    assert_eq!(talking, before);
    let mut steered = pet(2, 0, 0, 4_000);
    steered.active = true;
    let before = steered.clone();
    steered.roam(16, &Vec::new(), NO_DRAW);
    assert_eq!(steered, before);
    assert!(!before.needs_draw(16, &Vec::new()));
}

#[test]
fn holding_phases_wait_out_their_time() {
    let mut p = pet(1, 0, 0, 4_000);
    p.roaming.phase = RoamingPhase::Emoting;
    p.roam(3_000, &Vec::new(), NO_DRAW);
    assert_eq!(p.roaming.phase, RoamingPhase::Emoting);
    assert_eq!(p.roaming.emote_time, 3_000);
    assert_eq!(p.action_state.action, GenericActions::Emote);
    p.roam(1, &Vec::new(), NO_DRAW);
    assert_eq!(p.roaming.phase, RoamingPhase::Roaming);
    assert_eq!(p.roaming.emote_time, 0);
    assert_eq!(p.action_state.action, GenericActions::Emote);
    assert_eq!(p.translation, Vec3 { x: 0, y: 0, z: 900_000 });

    p.roaming.phase = RoamingPhase::Eating;
    p.roam(3_001, &Vec::new(), NO_DRAW);
    assert_eq!(p.roaming.phase, RoamingPhase::Roaming);
    assert_eq!(p.roaming.eating_time, 0);
    assert_eq!(p.action_state.action, GenericActions::Eating);

    p.roaming.phase = RoamingPhase::Idle;
    p.roam(2_000, &Vec::new(), NO_DRAW);
    assert_eq!(p.roaming.phase, RoamingPhase::Idle);
    assert_eq!(p.roaming.idle_time, 2_000);
    assert_eq!(p.action_state.action, GenericActions::Idle);
    p.roam(u64::MAX, &Vec::new(), NO_DRAW);
    assert_eq!(p.roaming.phase, RoamingPhase::Roaming);
    assert_eq!(p.roaming.idle_time, 0);
}

#[test]
fn roaming_pet_walks_along_its_direction() {
    let mut p = pet(1, 0, 0, 4_000);
    p.roaming.roam_direction = east();
    assert!(!p.needs_draw(16, &Vec::new()));
    p.collider.collided = false;
    p.roam(16, &Vec::new(), RoamDraw { hold: true, x: 1, y: 1 });
    assert_eq!(p.translation, Vec3 { x: 1_024, y: 0, z: 900_000 });
    assert_eq!(p.action_state.action, GenericActions::Walk);
    assert_eq!(p.roaming.roam_time, 16);
    assert_eq!(p.roaming.roam_direction, east());
    assert_eq!(p.roaming.phase, RoamingPhase::Roaming);
}

#[test]
fn pet_without_direction_draws_one() {
    let mut p = pet(1, 0, 0, 4_000);
    assert!(p.needs_draw(16, &Vec::new()));
    p.roam(16, &Vec::new(), RoamDraw { hold: false, x: -300, y: 400 });
    assert_eq!(p.roaming.roam_direction, Vec3 { x: -600, y: 800, z: 0 });
    assert_eq!(p.roaming.roam_time, 0);
    assert_eq!(p.animation.last_direction, DirectionIntent::Up);
    assert_eq!(p.action_state.action, GenericActions::Walk);
    // the move is made along the new direction: 600 * 4000 * 16 * 16 / 10^6 = 614
    assert_eq!(p.translation, Vec3 { x: -614, y: 819, z: 900_000 });
}

#[test]
fn a_hold_does_nothing_but_count_time() {
    let mut p = pet(1, 0, 0, 4_000);
    p.collider.collided = true;
    p.roaming.roam_direction = east();
    let before = p.clone();
    p.roam(16, &Vec::new(), RoamDraw { hold: true, x: 700, y: 700 });
    assert_eq!(p.roaming.roam_time, 16);
    assert!(p.collider.collided);
    p.roaming.roam_time = 0;
    assert_eq!(p, before);
}

#[test]
fn roam_time_runs_out() {
    let mut p = pet(1, 0, 0, 4_000);
    p.roaming.roam_direction = east();
    p.roaming.roam_time = 4_990;
    assert!(!p.needs_draw(10, &Vec::new()));
    assert!(p.needs_draw(11, &Vec::new()));
    p.roam(11, &Vec::new(), RoamDraw { hold: false, x: 0, y: -9 });
    assert_eq!(p.roaming.roam_direction, Vec3 { x: 0, y: -1_000, z: 0 });
    assert_eq!(p.animation.last_direction, DirectionIntent::Down);
    assert_eq!(p.roaming.roam_time, 0);
}

#[test]
fn carried_over_timers_force_a_new_direction() {
    let mut p = pet(1, 0, 0, 4_000);
    p.roaming.roam_direction = east();
    p.roaming.eating_time = 3_001;
    assert!(p.needs_draw(1, &Vec::new()));
    p.roaming.eating_time = 3_000;
    assert!(!p.needs_draw(1, &Vec::new()));
    p.roaming.emote_time = 3_001;
    assert!(p.needs_draw(1, &Vec::new()));
}

#[test]
fn blocked_pet_turns_idle_and_stays() {
    let walls = vec![Vec3 { x: 9_000, y: 0, z: 0 }];
    let mut p = pet(1, 0, 0, 4_000);
    p.roaming.roam_direction = east();
    assert!(p.needs_draw(16, &walls));
    // the new direction runs into the wall as well
    p.roam(16, &walls, RoamDraw { hold: false, x: 1_000, y: 0 });
    assert_eq!(p.translation, Vec3 { x: 0, y: 0, z: 900_000 });
    assert_eq!(p.roaming.phase, RoamingPhase::Idle);
    assert_eq!(p.action_state.action, GenericActions::Idle);
    assert!(!p.collider.collided);
}

#[test]
fn blocked_pet_that_turns_away_walks_on() {
    let walls = vec![Vec3 { x: 9_000, y: 0, z: 0 }];
    let mut p = pet(1, 0, 0, 4_000);
    p.roaming.roam_direction = east();
    p.roam(16, &walls, RoamDraw { hold: false, x: -1_000, y: 0 });
    assert_eq!(p.translation, Vec3 { x: -1_024, y: 0, z: 900_000 });
    assert_eq!(p.roaming.phase, RoamingPhase::Roaming);
    assert_eq!(p.action_state.action, GenericActions::Walk);
    assert_eq!(p.animation.last_direction, DirectionIntent::Left);
}

#[test]
fn collision_stops_the_pet_once() {
    let mut p = pet(1, 0, 0, 4_000);
    p.roaming.roam_direction = east();
    p.collider.collided = true;
    assert!(p.needs_draw(16, &Vec::new()));
    p.roam(16, &Vec::new(), RoamDraw { hold: false, x: 0, y: 1_000 });
    assert_eq!(p.translation, Vec3 { x: 0, y: 0, z: 900_000 });
    assert_eq!(p.roaming.phase, RoamingPhase::Idle);
    assert!(!p.collider.collided);
}

#[test]
fn degenerate_draw_leaves_the_pet_without_direction() {
    let mut p = pet(1, 0, 0, 4_000);
    p.roam(16, &Vec::new(), RoamDraw { hold: false, x: 0, y: 0 });
    assert_eq!(p.roaming.roam_direction, Vec3 { x: 0, y: 0, z: 0 });
    assert_eq!(p.animation.last_direction, DirectionIntent::Down);
    assert_eq!(p.translation, Vec3 { x: 0, y: 0, z: 900_000 });
    assert_eq!(p.action_state.action, GenericActions::Walk);
    assert!(p.needs_draw(16, &Vec::new()));
}

#[test]
fn roaming_system_never_enters_a_wall() {
    // a pen of walls around the origin
    let mut walls = Vec::new();
    for k in -4i64..=4 {
        walls.push(Vec3 { x: k * 16_000, y: 64_000, z: 0 });
        walls.push(Vec3 { x: k * 16_000, y: -64_000, z: 0 });
        walls.push(Vec3 { x: 64_000, y: k * 16_000, z: 0 });
        walls.push(Vec3 { x: -64_000, y: k * 16_000, z: 0 });
    }
    let mut pets = vec![pet(1, 0, 0, 5_000), pet(2, 20_000, -20_000, 2_000)];
    pets.push(pet(3, 0, 30_000, 4_000));
    pets[2].active = true;
    let mut moved = vec![false; pets.len()];
    for _ in 0..20_000 {
        let before: Vec<Vec3> = pets.iter().map(|p| p.translation).collect();
        inactive_player_roaming_system(50, &walls, &mut pets);
        for (k, p) in pets.iter().enumerate() {
            if p.translation != before[k] {
                assert!(basic_wall_collision_check(p.translation, &walls));
                moved[k] = true;
            }
            assert!(p.translation.x.abs() < 64_000 && p.translation.y.abs() < 64_000);
            let d = p.roaming.roam_direction;
            assert!(d.x.abs() <= 1_000 && d.y.abs() <= 1_000 && d.z == 0);
            if d != (Vec3 { x: 0, y: 0, z: 0 }) {
                let length = isqrt((d.x * d.x + d.y * d.y) as u128);
                assert!((998..=1_000).contains(&length));
            }
        }
        assert_eq!(pets[2].translation, Vec3 { x: 0, y: 30_000, z: 900_000 });
    }
    // chance has moved the two roaming pets, and only them
    assert_eq!(moved, vec![true, true, false]);
}

#[test]
fn any_direction_and_place_is_taken() {
    let wild = Vec3 { x: i64::MAX, y: i64::MIN, z: 1 };
    assert_eq!(
        roam_target(Vec3 { x: i64::MIN, y: i64::MAX, z: i64::MIN }, wild, u32::MAX, u64::MAX),
        Vec3 { x: 1_000_000_000_000, y: -1_000_000_000_000, z: 1_000_000_000_000 }
    );
    assert_eq!(
        roam_target(Vec3 { x: i64::MAX, y: i64::MIN, z: 5 }, wild, 0, 7),
        Vec3 { x: 1_000_000_000_000, y: -1_000_000_000_000, z: 5 }
    );
    let mut p = pet(1, 0, 0, 4_000);
    p.roaming.roam_direction = Vec3 { x: 5_000, y: 0, z: 0 };
    p.roam(16, &Vec::new(), NO_DRAW);
    assert_eq!(p.translation, Vec3 { x: 5_120, y: 0, z: 900_000 });
}
