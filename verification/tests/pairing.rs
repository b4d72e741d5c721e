use etherpets::gameplay::events::ConversationActionEvent;
use etherpets::gameplay::player::components::{
    BasicEmotions, EntityPairConversationState, EtherPet, PairEntityConversationData, PlayerData,
    Quadrants,
};
use etherpets::gameplay::player::conversation::remove_entity_from_conversation;
use etherpets::gameplay::player::pairing::{
    find_quadrant, inactive_player_proximity_detection, resolve_candidates, snapshot, Candidate,
};
use etherpets::gameplay::player::spawner::new_pet;
use etherpets::math::Vec3;

fn candidate(entity: u64, x: i64, y: i64, can_prox_chat: bool) -> Candidate {
    Candidate { entity, position: Vec3 { x, y, z: 0 }, can_prox_chat }
}

fn pet(entity: u64, x: i64, y: i64) -> EtherPet {
    let data = PlayerData {
        name: format!("pet {}", entity),
        attack_dmg: 1,
        speed: 3_000,
        player_id: format!("{}", entity),
        emotion: BasicEmotions::Happiness,
    };
    new_pet(entity, &data, Vec3 { x, y, z: 900_000 })
}

/// No pet is in two conversations, nobody talks to itself, and the ledger
/// marks exactly the pets that are in a conversation.
fn is_exclusive(state: &EntityPairConversationState, entities: &[u64]) -> bool {
    let pairs = &state.pair_entities_in_conversation;
    for pair in pairs.iter() {
        if pair.entity_a == pair.entity_b {
            return false;
        }
    }
    for &entity in entities {
        let count = pairs
            .iter()
            .filter(|pair| pair.entity_a == entity || pair.entity_b == entity)
            .count();
        if count > 1 || (count == 1) != state.is_in_conversation(entity) {
            return false;
        }
    }
    true
}

#[test]
fn pair_forms_at_twelve_units() {
    let mut state = EntityPairConversationState::new();
    let mut events: Vec<ConversationActionEvent> = Vec::new();
    resolve_candidates(
        &mut state,
        &mut events,
        candidate(1, 0, 0, true),
        candidate(2, 12_000, 0, true),
    );
    assert_eq!(
        state.pair_entities_in_conversation,
        vec![PairEntityConversationData {
            entity_a: 1,
            entity_b: 2,
            entity_a_pos: Vec3 { x: 0, y: 0, z: 0 },
            entity_b_pos: Vec3 { x: 12_000, y: 0, z: 0 },
            quadrant: Quadrants::Aligned,
            chatting_icon_spawned: false,
            conversation_http_request_sent: false,
        }]
    );
    assert_eq!(events, vec![ConversationActionEvent { entity_a: 1, entity_b: 2 }]);
    assert!(state.is_in_conversation(1));
    assert!(state.is_in_conversation(2));
}

#[test]
fn no_pair_at_nine_units() {
    let mut state = EntityPairConversationState::new();
    let mut events: Vec<ConversationActionEvent> = Vec::new();
    resolve_candidates(
        &mut state,
        &mut events,
        candidate(1, 0, 0, true),
        candidate(2, 9_000, 0, true),
    );
    assert!(state.pair_entities_in_conversation.is_empty());
    assert!(events.is_empty());
    assert!(!state.is_in_conversation(1));
    assert!(!state.is_in_conversation(2));
    assert_eq!(state.entities_in_conversation.get(&1), Some(&false));
    assert_eq!(state.entities_in_conversation.get(&2), Some(&false));
}

#[test]
fn the_thresholds_themselves_are_out_of_range() {
    for (distance, expected) in
        [(10_000, 0), (10_001, 1), (14_999, 1), (15_000, 0), (0, 0), (1_000_000, 0)]
    {
        let mut state = EntityPairConversationState::new();
        let mut events: Vec<ConversationActionEvent> = Vec::new();
        resolve_candidates(
            &mut state,
            &mut events,
            candidate(1, 0, 0, true),
            candidate(2, 0, distance, true),
        );
        assert_eq!(state.pair_entities_in_conversation.len(), expected);
        assert_eq!(events.len(), expected);
    }
}

#[test]
fn both_must_be_able_to_interact() {
    for (can_a, can_b) in [(false, true), (true, false), (false, false)] {
        let mut state = EntityPairConversationState::new();
        let mut events: Vec<ConversationActionEvent> = Vec::new();
        resolve_candidates(
            &mut state,
            &mut events,
            candidate(1, 0, 0, can_a),
            candidate(2, 12_000, 0, can_b),
        );
        assert!(state.pair_entities_in_conversation.is_empty());
        assert!(events.is_empty());
        assert!(!state.is_in_conversation(1));
    }
}

#[test]
fn a_pet_does_not_talk_to_itself() {
    let mut state = EntityPairConversationState::new();
    let mut events: Vec<ConversationActionEvent> = Vec::new();
    resolve_candidates(
        &mut state,
        &mut events,
        candidate(1, 0, 0, true),
        candidate(1, 12_000, 0, true),
    );
    assert_eq!(state, EntityPairConversationState::new());
    assert!(events.is_empty());
}

#[test]
fn a_pet_in_a_conversation_is_skipped() {
    let mut state = EntityPairConversationState::new();
    let mut events: Vec<ConversationActionEvent> = Vec::new();
    let a = candidate(1, 0, 0, true);
    let b = candidate(2, 12_000, 0, true);
    let c = candidate(3, 24_000, 0, true);
    resolve_candidates(&mut state, &mut events, a, b);
    let before = state.clone();
    resolve_candidates(&mut state, &mut events, b, c);
    resolve_candidates(&mut state, &mut events, c, a);
    assert_eq!(state, before);
    assert_eq!(events.len(), 1);
}

#[test]
fn an_existing_pair_is_left_untouched_in_either_order() {
    let mut state = EntityPairConversationState::new();
    state.pair_entities_in_conversation.push(PairEntityConversationData {
        entity_a: 2,
        entity_b: 1,
        entity_a_pos: Vec3 { x: 5, y: 5, z: 5 },
        entity_b_pos: Vec3 { x: 6, y: 6, z: 6 },
        quadrant: Quadrants::TopLeft,
        chatting_icon_spawned: true,
        conversation_http_request_sent: false,
    });
    let before = state.clone();
    let mut events: Vec<ConversationActionEvent> = Vec::new();
    resolve_candidates(
        &mut state,
        &mut events,
        candidate(1, 0, 0, true),
        candidate(2, 12_000, 0, true),
    );
    assert_eq!(state, before);
    assert!(events.is_empty());
}

#[test]
fn a_stale_pair_is_removed_when_the_two_may_not_pair() {
    let mut state = EntityPairConversationState::new();
    state.pair_entities_in_conversation.push(PairEntityConversationData {
        entity_a: 2,
        entity_b: 1,
        entity_a_pos: Vec3 { x: 0, y: 0, z: 0 },
        entity_b_pos: Vec3 { x: 0, y: 0, z: 0 },
        quadrant: Quadrants::Aligned,
        chatting_icon_spawned: false,
        conversation_http_request_sent: false,
    });
    let mut events: Vec<ConversationActionEvent> = Vec::new();
    resolve_candidates(
        &mut state,
        &mut events,
        candidate(1, 0, 0, true),
        candidate(2, 50_000, 0, true),
    );
    assert!(state.pair_entities_in_conversation.is_empty());
    assert!(events.is_empty());
    assert_eq!(state.entities_in_conversation.get(&1), Some(&false));
    assert_eq!(state.entities_in_conversation.get(&2), Some(&false));
}

#[test]
fn quadrant_is_the_bearing_of_the_second_from_the_first() {
    let a = Vec3 { x: 0, y: 0, z: 0 };
    assert_eq!(find_quadrant(a, Vec3 { x: 1, y: -1, z: 0 }), Quadrants::BottomRight);
    assert_eq!(find_quadrant(a, Vec3 { x: -1, y: -1, z: 0 }), Quadrants::BottomLeft);
    assert_eq!(find_quadrant(a, Vec3 { x: 1, y: 1, z: 0 }), Quadrants::TopRight);
    assert_eq!(find_quadrant(a, Vec3 { x: -1, y: 1, z: 0 }), Quadrants::TopLeft);
    assert_eq!(find_quadrant(a, Vec3 { x: 0, y: 1, z: 0 }), Quadrants::Aligned);
    assert_eq!(find_quadrant(a, Vec3 { x: 1, y: 0, z: 0 }), Quadrants::Aligned);
    assert_eq!(find_quadrant(a, a), Quadrants::Aligned);
    assert_eq!(find_quadrant(a, Vec3 { x: 9, y: 9, z: -5 }), Quadrants::TopRight);
}

#[test]
fn snapshot_leaves_out_active_and_talking_pets() {
    let mut pets = vec![pet(1, 0, 0), pet(2, 10, 0), pet(3, 20, 0), pet(4, 30, 0)];
    pets[1].active = true;
    pets[2].interaction_timers.prox_chat_active = true;
    pets[3].interaction_timers.can_prox_chat = false;
    assert_eq!(
        snapshot(&pets),
        vec![
            Candidate {
                entity: 1,
                position: Vec3 { x: 0, y: 0, z: 900_000 },
                can_prox_chat: true
            },
            Candidate {
                entity: 4,
                position: Vec3 { x: 30, y: 0, z: 900_000 },
                can_prox_chat: false
            },
        ]
    );
}

#[test]
fn first_qualifying_pair_wins() {
    let pets = vec![pet(1, 0, 0), pet(2, 12_000, 0), pet(3, 24_000, 0)];
    let mut state = EntityPairConversationState::new();
    let events = inactive_player_proximity_detection(&mut state, &pets);
    assert_eq!(events, vec![ConversationActionEvent { entity_a: 1, entity_b: 2 }]);
    assert_eq!(state.pair_entities_in_conversation.len(), 1);
    assert_eq!(state.pair_entities_in_conversation[0].entity_a, 1);
    assert_eq!(state.pair_entities_in_conversation[0].entity_b, 2);
    assert!(state.is_in_conversation(1));
    assert!(state.is_in_conversation(2));
    assert!(!state.is_in_conversation(3));
    assert!(is_exclusive(&state, &[1, 2, 3]));
}

#[test]
fn scan_records_quadrant_and_positions() {
    let pets = vec![pet(7, 0, 0), pet(9, -8_000, 9_000)];
    let mut state = EntityPairConversationState::new();
    inactive_player_proximity_detection(&mut state, &pets);
    assert_eq!(
        state.pair_entities_in_conversation,
        vec![PairEntityConversationData {
            entity_a: 7,
            entity_b: 9,
            entity_a_pos: Vec3 { x: 0, y: 0, z: 900_000 },
            entity_b_pos: Vec3 { x: -8_000, y: 9_000, z: 900_000 },
            quadrant: Quadrants::TopLeft,
            chatting_icon_spawned: false,
            conversation_http_request_sent: false,
        }]
    );
}

#[test]
fn second_scan_of_the_same_snapshot_changes_nothing() {
    let pets = vec![
        pet(1, 0, 0),
        pet(2, 12_000, 0),
        pet(3, 24_000, 0),
        pet(4, 36_000, 0),
        pet(5, 200_000, 0),
    ];
    let mut state = EntityPairConversationState::new();
    let first = inactive_player_proximity_detection(&mut state, &pets);
    assert_eq!(
        first,
        vec![
            ConversationActionEvent { entity_a: 1, entity_b: 2 },
            ConversationActionEvent { entity_a: 3, entity_b: 4 },
        ]
    );
    let after_first = state.clone();
    let second = inactive_player_proximity_detection(&mut state, &pets);
    assert!(second.is_empty());
    assert_eq!(state, after_first);
    assert_eq!(state.pair_entities_in_conversation.len(), 2);
    assert!(is_exclusive(&state, &[1, 2, 3, 4, 5]));
}

#[test]
fn scan_of_nobody_does_nothing() {
    let mut state = EntityPairConversationState::new();
    assert!(inactive_player_proximity_detection(&mut state, &Vec::new()).is_empty());
    assert!(inactive_player_proximity_detection(&mut state, &vec![pet(1, 0, 0)]).is_empty());
    assert_eq!(state, EntityPairConversationState::new());
}

#[test]
fn many_pets_stay_exclusive() {
    let mut pets = Vec::new();
    for k in 0..30u64 {
        pets.push(pet(k + 1, (k as i64 % 6) * 11_000, (k as i64 / 6) * 11_000));
    }
    let entities: Vec<u64> = (1..=30).collect();
    let mut state = EntityPairConversationState::new();
    let events = inactive_player_proximity_detection(&mut state, &pets);
    assert_eq!(events.len(), state.pair_entities_in_conversation.len());
    assert_eq!(events.len(), 15);
    assert!(is_exclusive(&state, &entities));
    remove_entity_from_conversation(1, &mut state);
    assert!(is_exclusive(&state, &entities));
    assert_eq!(state.pair_entities_in_conversation.len(), 14);
}

#[test]
fn leaving_frees_the_partner_too() {
    let pets = vec![pet(1, 0, 0), pet(2, 12_000, 0), pet(3, 100_000, 0), pet(4, 112_000, 0)];
    let mut state = EntityPairConversationState::new();
    inactive_player_proximity_detection(&mut state, &pets);
    assert_eq!(state.pair_entities_in_conversation.len(), 2);
    remove_entity_from_conversation(2, &mut state);
    assert_eq!(state.pair_entities_in_conversation.len(), 1);
    assert_eq!(state.pair_entities_in_conversation[0].entity_a, 3);
    assert!(!state.is_in_conversation(1));
    assert!(!state.is_in_conversation(2));
    assert!(state.is_in_conversation(3));
    assert!(state.is_in_conversation(4));
    remove_entity_from_conversation(9, &mut state);
    assert_eq!(state.pair_entities_in_conversation.len(), 1);
    assert!(is_exclusive(&state, &[1, 2, 3, 4]));
}

#[test]
fn lookups_find_pairs_in_either_order() {
    let pets = vec![pet(1, 0, 0), pet(2, 12_000, 0), pet(3, 100_000, 0), pet(4, 112_000, 0)];
    let mut state = EntityPairConversationState::new();
    inactive_player_proximity_detection(&mut state, &pets);
    assert_eq!(state.find_pair(1, 2), 0);
    assert_eq!(state.find_pair(2, 1), 0);
    assert_eq!(state.find_pair(4, 3), 1);
    assert_eq!(state.find_pair(1, 3), 2);
    assert_eq!(state.find_involving(4), 1);
    assert_eq!(state.find_involving(5), 2);
}
