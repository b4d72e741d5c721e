use etherpets::gameplay::components::{DirectionIntent, GenericActions};
use etherpets::gameplay::player::components::{
    BasicEmotions, EntityPairConversationState, EtherPet, PlayerData, Quadrants,
};
use etherpets::gameplay::player::convergence::{
    arrived, find_pet, pair_entity_convergence_system, rendezvous, step_toward,
};
use etherpets::gameplay::player::pairing::inactive_player_proximity_detection;
use etherpets::gameplay::player::spawner::new_pet;
use etherpets::math::{Vec3, WORLD_LIMIT};

fn pet(entity: u64, x: i64, y: i64, speed: u32) -> EtherPet {
    let data = PlayerData {
        name: format!("pet {}", entity),
        attack_dmg: 1,
        speed,
        player_id: format!("{}", entity),
        emotion: BasicEmotions::Happiness,
    };
    new_pet(entity, &data, Vec3 { x, y, z: 900_000 })
}

#[test]
fn rendezvous_point_lies_beside_the_anchor() {
    let a = Vec3 { x: 100_000, y: 50_000, z: 900_000 };
    assert_eq!(rendezvous(Quadrants::TopLeft, a), Vec3 { x: 100_000, y: 65_000, z: 900_000 });
    assert_eq!(rendezvous(Quadrants::TopRight, a), Vec3 { x: 107_500, y: 50_000, z: 900_000 });
    assert_eq!(rendezvous(Quadrants::BottomLeft, a), Vec3 { x: 100_000, y: 35_000, z: 900_000 });
    assert_eq!(rendezvous(Quadrants::BottomRight, a), Vec3 { x: 88_000, y: 50_000, z: 900_000 });
    assert_eq!(rendezvous(Quadrants::Aligned, a), a);
}

#[test]
fn rendezvous_point_stays_in_the_world() {
    let edge = Vec3 { x: WORLD_LIMIT, y: WORLD_LIMIT, z: 0 };
    assert_eq!(rendezvous(Quadrants::TopLeft, edge), edge);
    assert_eq!(rendezvous(Quadrants::TopRight, edge), edge);
}

#[test]
fn arrival_is_judged_on_whole_units() {
    let a = Vec3 { x: 100_000, y: 50_000, z: 0 };
    let near = Vec3 { x: 100_499, y: 0, z: 0 };
    let off = Vec3 { x: 100_500, y: 50_000, z: 0 };
    assert!(arrived(Quadrants::TopLeft, a, near));
    assert!(arrived(Quadrants::BottomLeft, a, near));
    assert!(!arrived(Quadrants::TopLeft, a, off));
    assert!(arrived(Quadrants::TopRight, a, off));
    assert!(arrived(Quadrants::BottomRight, a, off));
    assert!(!arrived(Quadrants::TopRight, a, near));
    assert!(arrived(Quadrants::Aligned, a, Vec3 { x: 0, y: 0, z: 0 }));
}

#[test]
fn a_step_has_the_length_of_the_speed() {
    let from = Vec3 { x: 0, y: 0, z: 900_000 };
    assert_eq!(
        step_toward(from, Vec3 { x: 10_000, y: 0, z: 0 }, 4_000),
        Vec3 { x: 4_000, y: 0, z: 900_000 }
    );
    assert_eq!(
        step_toward(from, Vec3 { x: 3_000, y: 4_000, z: 0 }, 5_000),
        Vec3 { x: 3_000, y: 4_000, z: 900_000 }
    );
    assert_eq!(
        step_toward(from, Vec3 { x: -3_000, y: -4_000, z: 0 }, 2_500),
        Vec3 { x: -1_500, y: -2_000, z: 900_000 }
    );
    assert_eq!(
        step_toward(
            Vec3 { x: 12_000, y: 5_000, z: 0 },
            Vec3 { x: 7_500, y: 0, z: 0 },
            3_000
        ),
        Vec3 { x: 9_996, y: 2_771, z: 0 }
    );
}

#[test]
fn a_step_from_the_target_goes_nowhere() {
    let at = Vec3 { x: 5, y: 5, z: 5 };
    assert_eq!(step_toward(at, at, 4_000), at);
    assert_eq!(step_toward(at, Vec3 { x: 500, y: 5, z: 5 }, 0), at);
}

#[test]
fn a_step_may_overshoot_a_target_within_reach() {
    let from = Vec3 { x: 0, y: 0, z: 0 };
    assert_eq!(
        step_toward(from, Vec3 { x: 1_000, y: 0, z: 0 }, 4_000),
        Vec3 { x: 4_000, y: 0, z: 0 }
    );
}

#[test]
fn unobstructed_walk_closes_in_within_the_bound() {
    let target = Vec3 { x: 100_000, y: -50_000, z: 0 };
    let mut at = Vec3 { x: -200_000, y: 150_000, z: 0 };
    let speed: u32 = 4_000;
    let gap = |p: Vec3| (target.x - p.x).abs() + (target.y - p.y).abs();
    let far = |p: Vec3| {
        let dx = (target.x - p.x) as i128;
        let dy = (target.y - p.y) as i128;
        dx * dx + dy * dy >= (speed as i128) * (speed as i128)
    };
    let start = gap(at);
    let mut ticks: i64 = 0;
    while far(at) {
        let next = step_toward(at, target, speed);
        assert!(1000 * gap(next) + 999 * (speed as i64) < 1000 * gap(at) + 2000);
        assert!((target.x - next.x).abs() <= (target.x - at.x).abs());
        assert!((target.y - next.y).abs() <= (target.y - at.y).abs());
        at = next;
        ticks += 1;
        assert!(ticks * (999 * speed as i64 - 2000) <= 1000 * start);
    }
    assert_eq!(ticks, 90);
    assert_eq!(at, Vec3 { x: 99_212, y: -49_476, z: 0 });
}

#[test]
fn lookup_skips_pets_steered_by_hand() {
    let mut pets = vec![pet(1, 0, 0, 3_000), pet(2, 0, 0, 3_000), pet(2, 9, 9, 3_000)];
    pets[1].active = true;
    assert_eq!(find_pet(&pets, 1), 0);
    assert_eq!(find_pet(&pets, 2), 2);
    assert_eq!(find_pet(&pets, 3), 3);
}

#[test]
fn anchor_turns_and_responder_walks() {
    let mut pets = vec![pet(1, 0, 0, 4_000), pet(2, 12_000, 5_000, 3_000)];
    pets[0].action_state.action = GenericActions::Walk;
    let mut state = EntityPairConversationState::new();
    inactive_player_proximity_detection(&mut state, &pets);
    assert_eq!(state.pair_entities_in_conversation[0].quadrant, Quadrants::TopRight);
    pair_entity_convergence_system(&mut state, &mut pets, &Vec::new());
    assert_eq!(pets[0].action_state.action, GenericActions::Idle);
    assert_eq!(pets[0].animation.last_direction, DirectionIntent::Right);
    assert_eq!(pets[0].translation, Vec3 { x: 0, y: 0, z: 900_000 });
    assert_eq!(pets[1].action_state.action, GenericActions::Walk);
    assert_eq!(pets[1].animation.last_direction, DirectionIntent::Left);
    assert_eq!(pets[1].translation, Vec3 { x: 9_996, y: 2_771, z: 900_000 });
    assert_eq!(state.pair_entities_in_conversation.len(), 1);
    pair_entity_convergence_system(&mut state, &mut pets, &Vec::new());
    assert_eq!(pets[1].translation, Vec3 { x: 7_989, y: 542, z: 900_000 });
    pair_entity_convergence_system(&mut state, &mut pets, &Vec::new());
    assert_eq!(pets[1].action_state.action, GenericActions::Walk);
    pair_entity_convergence_system(&mut state, &mut pets, &Vec::new());
    assert!(state.is_in_conversation(1) && state.is_in_conversation(2));
}

#[test]
fn each_quadrant_sets_both_facings() {
    let cases = [
        (-8_000, 9_000, Quadrants::TopLeft, DirectionIntent::Up, DirectionIntent::Down),
        (8_000, 9_000, Quadrants::TopRight, DirectionIntent::Right, DirectionIntent::Left),
        (-8_000, -9_000, Quadrants::BottomLeft, DirectionIntent::Down, DirectionIntent::Up),
        (8_000, -9_000, Quadrants::BottomRight, DirectionIntent::Left, DirectionIntent::Right),
    ];
    for (x, y, quadrant, anchor, responder) in cases {
        let mut pets = vec![pet(1, 0, 0, 4_000), pet(2, x, y, 3_000)];
        let mut state = EntityPairConversationState::new();
        inactive_player_proximity_detection(&mut state, &pets);
        assert_eq!(state.pair_entities_in_conversation[0].quadrant, quadrant);
        pair_entity_convergence_system(&mut state, &mut pets, &Vec::new());
        assert_eq!(pets[0].animation.last_direction, anchor);
        assert_eq!(pets[1].animation.last_direction, responder);
    }
}

#[test]
fn aligned_pair_only_idles_its_anchor() {
    let mut pets = vec![pet(1, 0, 0, 4_000), pet(2, 12_000, 0, 3_000)];
    pets[0].action_state.action = GenericActions::Walk;
    pets[1].action_state.action = GenericActions::Walk;
    let mut state = EntityPairConversationState::new();
    inactive_player_proximity_detection(&mut state, &pets);
    let responder = pets[1].clone();
    pair_entity_convergence_system(&mut state, &mut pets, &Vec::new());
    assert_eq!(pets[0].action_state.action, GenericActions::Idle);
    assert_eq!(pets[0].animation.last_direction, DirectionIntent::Down);
    assert_eq!(pets[1], responder);
    assert_eq!(state.pair_entities_in_conversation.len(), 1);
}

#[test]
fn arrived_responder_stands_idle() {
    let mut pets = vec![pet(1, 0, 0, 4_000), pet(2, 12_000, 400, 3_000)];
    let mut state = EntityPairConversationState::new();
    inactive_player_proximity_detection(&mut state, &pets);
    assert_eq!(state.pair_entities_in_conversation[0].quadrant, Quadrants::TopRight);
    pets[1].action_state.action = GenericActions::Walk;
    pair_entity_convergence_system(&mut state, &mut pets, &Vec::new());
    assert_eq!(pets[1].action_state.action, GenericActions::Idle);
    assert_eq!(pets[1].translation, Vec3 { x: 12_000, y: 400, z: 900_000 });
    assert_eq!(state.pair_entities_in_conversation.len(), 1);
}

#[test]
fn obstructed_pair_is_dissolved_within_the_tick() {
    let mut pets = vec![
        pet(1, 0, 0, 4_000),
        pet(2, 12_000, 5_000, 3_000),
        pet(3, 100_000, 0, 4_000),
        pet(4, 112_000, 5_000, 3_000),
    ];
    let mut state = EntityPairConversationState::new();
    inactive_player_proximity_detection(&mut state, &pets);
    assert_eq!(state.pair_entities_in_conversation.len(), 2);
    // a wall on the rendezvous point of the first pair
    let walls = vec![Vec3 { x: 7_500, y: 0, z: 0 }];
    pets[1].action_state.action = GenericActions::Walk;
    pair_entity_convergence_system(&mut state, &mut pets, &walls);
    assert_eq!(pets[1].translation, Vec3 { x: 12_000, y: 5_000, z: 900_000 });
    assert_eq!(pets[1].action_state.action, GenericActions::Idle);
    assert_eq!(pets[1].animation.last_direction, DirectionIntent::Left);
    assert_eq!(state.pair_entities_in_conversation.len(), 1);
    assert_eq!(state.pair_entities_in_conversation[0].entity_a, 3);
    assert!(!state.is_in_conversation(1));
    assert!(!state.is_in_conversation(2));
    assert_eq!(state.entities_in_conversation.get(&1), None);
    assert_eq!(state.entities_in_conversation.get(&2), None);
    assert!(state.is_in_conversation(3));
    assert!(state.is_in_conversation(4));
    assert_eq!(pets[3].translation, Vec3 { x: 109_996, y: 2_771, z: 900_000 });
}

#[test]
fn wall_beside_the_rendezvous_point_blocks_it_too() {
    let mut pets = vec![pet(1, 0, 0, 4_000), pet(2, 12_000, 5_000, 3_000)];
    let mut state = EntityPairConversationState::new();
    inactive_player_proximity_detection(&mut state, &pets);
    let walls = vec![Vec3 { x: 7_500 + 8_079, y: -8_079, z: 55 }];
    pair_entity_convergence_system(&mut state, &mut pets, &walls);
    assert!(state.pair_entities_in_conversation.is_empty());
    let mut pets = vec![pet(1, 0, 0, 4_000), pet(2, 12_000, 5_000, 3_000)];
    let mut state = EntityPairConversationState::new();
    inactive_player_proximity_detection(&mut state, &pets);
    let walls = vec![Vec3 { x: 7_500 + 8_080, y: 0, z: 0 }];
    pair_entity_convergence_system(&mut state, &mut pets, &walls);
    assert_eq!(state.pair_entities_in_conversation.len(), 1);
}

#[test]
fn missing_pets_are_passed_over() {
    let mut pets = vec![pet(1, 0, 0, 4_000), pet(2, 12_000, 5_000, 3_000)];
    let mut state = EntityPairConversationState::new();
    inactive_player_proximity_detection(&mut state, &pets);
    let mut only_responder = vec![pets.remove(1)];
    let before = only_responder.clone();
    pair_entity_convergence_system(&mut state, &mut only_responder, &Vec::new());
    assert_eq!(only_responder, before);
    assert_eq!(state.pair_entities_in_conversation.len(), 1);
    let before = pets[0].translation;
    pair_entity_convergence_system(&mut state, &mut pets, &Vec::new());
    assert_eq!(pets[0].translation, before);
    assert_eq!(pets[0].animation.last_direction, DirectionIntent::Right);
    assert_eq!(state.pair_entities_in_conversation.len(), 1);
}

#[test]
fn steps_from_outside_start_at_the_edge_of_the_world() {
    let outside = Vec3 { x: i64::MIN, y: i64::MAX, z: i64::MAX };
    let target = Vec3 { x: i64::MAX, y: i64::MAX, z: 0 };
    assert_eq!(
        step_toward(outside, target, 4_000),
        Vec3 { x: -WORLD_LIMIT + 4_000, y: WORLD_LIMIT, z: WORLD_LIMIT }
    );
    let mut pets = vec![pet(1, 0, 0, 4_000), pet(2, 12_000, 5_000, 3_000)];
    let mut state = EntityPairConversationState::new();
    inactive_player_proximity_detection(&mut state, &pets);
    pets[0].translation = Vec3 { x: i64::MAX, y: i64::MIN, z: 0 };
    pets[1].translation = Vec3 { x: i64::MIN, y: i64::MAX, z: 9 };
    pair_entity_convergence_system(&mut state, &mut pets, &Vec::new());
    assert_eq!(pets[0].translation, Vec3 { x: i64::MAX, y: i64::MIN, z: 0 });
    assert_eq!(
        pets[1].translation,
        Vec3 { x: -WORLD_LIMIT + 2_121, y: WORLD_LIMIT - 2_121, z: 9 }
    );
    // a responder that has arrived stays where it is, even outside the world
    pets[1].translation = Vec3 { x: i64::MIN, y: i64::MIN, z: 9 };
    pair_entity_convergence_system(&mut state, &mut pets, &Vec::new());
    assert_eq!(pets[1].translation, Vec3 { x: i64::MIN, y: i64::MIN, z: 9 });
}
