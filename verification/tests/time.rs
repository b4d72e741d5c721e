use etherpets::gameplay::components::InteractionTimers;
use etherpets::time::{Timer, TimerMode};

#[test]
fn fresh_timer_has_not_started() {
    let t = Timer::from_millis(1_000, TimerMode::Once);
    assert_eq!(t.elapsed(), 0);
    assert_eq!(t.remaining(), 1_000);
    assert!(!t.finished());
    assert!(!t.just_finished());
}

#[test]
fn one_shot_timer_stops_at_its_duration() {
    let mut t = Timer::from_millis(1_000, TimerMode::Once);
    t.tick(400);
    assert_eq!(t.elapsed(), 400);
    assert_eq!(t.remaining(), 600);
    assert!(!t.finished());
    t.tick(700);
    assert_eq!(t.elapsed(), 1_000);
    assert_eq!(t.remaining(), 0);
    assert!(t.finished());
    assert!(t.just_finished());
    t.tick(100);
    assert_eq!(t.elapsed(), 1_000);
    assert!(t.finished());
    assert!(!t.just_finished());
}

#[test]
fn one_shot_timer_finishes_exactly_at_its_duration() {
    let mut t = Timer::from_millis(1_000, TimerMode::Once);
    t.tick(999);
    assert!(!t.finished());
    t.tick(1);
    assert!(t.finished());
}

#[test]
fn repeating_timer_keeps_the_excess() {
    let mut t = Timer::from_millis(500, TimerMode::Repeating);
    t.tick(1_200);
    assert_eq!(t.elapsed(), 200);
    assert!(t.finished());
    assert!(t.just_finished());
    t.tick(100);
    assert_eq!(t.elapsed(), 300);
    assert!(!t.finished());
    assert!(!t.just_finished());
}

#[test]
fn repeating_timer_of_no_duration_always_finishes() {
    let mut t = Timer::from_millis(0, TimerMode::Repeating);
    t.tick(0);
    assert!(t.finished());
    assert_eq!(t.elapsed(), 0);
}

#[test]
fn reset_winds_back() {
    let mut t = Timer::from_millis(1_000, TimerMode::Once);
    t.tick(2_000);
    t.reset();
    assert_eq!(t, Timer::from_millis(1_000, TimerMode::Once));
}

#[test]
fn huge_ticks_do_not_overflow() {
    let mut once = Timer::from_millis(u64::MAX, TimerMode::Once);
    once.tick(u64::MAX - 1);
    assert!(!once.finished());
    once.tick(u64::MAX);
    assert!(once.finished());
    assert_eq!(once.elapsed(), u64::MAX);
    let mut again = Timer::from_millis(u64::MAX, TimerMode::Repeating);
    again.tick(u64::MAX - 1);
    again.tick(u64::MAX);
    assert_eq!(again.elapsed(), u64::MAX - 1);
    assert!(again.finished());
}

#[test]
fn new_pet_can_interact_and_is_not_active() {
    let t = InteractionTimers::new();
    assert!(t.can_prox_chat);
    assert!(!t.prox_chat_active);
    assert_eq!(t.prox_chat_timer, Timer::from_millis(10_000, TimerMode::Once));
    assert_eq!(t.prox_chat_cooldown_timer, Timer::from_millis(15_000, TimerMode::Once));
}

#[test]
fn idle_timers_do_not_move() {
    let mut t = InteractionTimers::new();
    assert!(!t.tick(60_000));
    assert_eq!(t, InteractionTimers::new());
}

#[test]
fn conversation_and_cooldown_cycle_closes() {
    let mut t = InteractionTimers::new();
    t.activate();
    assert!(t.prox_chat_active);
    assert!(!t.tick(4_000));
    assert!(!t.tick(5_999));
    assert!(t.prox_chat_active && t.can_prox_chat);
    assert_eq!(t.prox_chat_timer.elapsed(), 9_999);
    assert_eq!(t.prox_chat_cooldown_timer.elapsed(), 0);
    assert!(t.tick(1));
    assert!(!t.prox_chat_active);
    assert!(!t.can_prox_chat);
    assert_eq!(t.prox_chat_timer, Timer::from_millis(10_000, TimerMode::Once));
    assert_eq!(t.prox_chat_cooldown_timer, Timer::from_millis(15_000, TimerMode::Once));
    assert!(!t.tick(14_999));
    assert!(!t.can_prox_chat);
    assert!(!t.tick(1));
    assert!(t.can_prox_chat);
    assert!(!t.prox_chat_active);
}

#[test]
fn one_long_tick_ends_a_conversation() {
    let mut t = InteractionTimers::new();
    t.activate();
    assert!(t.tick(1_000_000));
    assert!(!t.can_prox_chat && !t.prox_chat_active);
    assert!(!t.tick(1_000_000));
    assert!(t.can_prox_chat);
}

#[test]
fn cooling_pet_cannot_be_activated() {
    let mut t = InteractionTimers::new();
    t.activate();
    t.tick(10_000);
    t.activate();
    assert!(!t.prox_chat_active);
    t.tick(15_000);
    t.activate();
    assert!(t.prox_chat_active);
}

#[test]
fn second_conversation_runs_its_full_length() {
    let mut t = InteractionTimers::new();
    t.activate();
    assert!(t.tick(10_000));
    t.tick(15_000);
    t.activate();
    assert!(!t.tick(9_999));
    assert!(t.tick(1));
    assert!(!t.tick(14_999));
    assert!(!t.can_prox_chat);
    t.tick(1);
    assert!(t.can_prox_chat);
}
