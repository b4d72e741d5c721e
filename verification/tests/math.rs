use etherpets::math::{
    confine, distance_strictly_between, div_trunc, isqrt, round_units, travelled, unit_vector,
    Vec3, RATE_LIMIT, TRAVEL_LIMIT, WORLD_LIMIT,
};

#[test]
fn isqrt_rounds_down() {
    assert_eq!(isqrt(0), 0);
    assert_eq!(isqrt(1), 1);
    assert_eq!(isqrt(2), 1);
    assert_eq!(isqrt(3), 1);
    assert_eq!(isqrt(4), 2);
    assert_eq!(isqrt(15), 3);
    assert_eq!(isqrt(16), 4);
    assert_eq!(isqrt(2_000_000_000_000), 1_414_213);
    assert_eq!(isqrt(u128::MAX), 18_446_744_073_709_551_615);
}

#[test]
fn division_rounds_toward_zero() {
    assert_eq!(div_trunc(7, 2), 3);
    assert_eq!(div_trunc(-7, 2), -3);
    assert_eq!(div_trunc(-1, 1000), 0);
    assert_eq!(div_trunc(0, 5), 0);
}

#[test]
fn rounding_goes_away_from_zero_at_the_half() {
    assert_eq!(round_units(0), 0);
    assert_eq!(round_units(499), 0);
    assert_eq!(round_units(500), 1);
    assert_eq!(round_units(12_499), 12);
    assert_eq!(round_units(12_500), 13);
    assert_eq!(round_units(-499), 0);
    assert_eq!(round_units(-500), -1);
    assert_eq!(round_units(-12_500), -13);
    assert_eq!(round_units(i64::MAX), 9_223_372_036_854_776);
    assert_eq!(round_units(i64::MIN), -9_223_372_036_854_776);
}

#[test]
fn confine_stops_at_the_world_limit() {
    assert_eq!(confine(0), 0);
    assert_eq!(confine(WORLD_LIMIT as i128), WORLD_LIMIT);
    assert_eq!(confine(WORLD_LIMIT as i128 + 1), WORLD_LIMIT);
    assert_eq!(confine(-(WORLD_LIMIT as i128) - 1), -WORLD_LIMIT);
    assert_eq!(confine(i128::MAX), WORLD_LIMIT);
    assert_eq!(confine(i128::MIN), -WORLD_LIMIT);
}

#[test]
fn displace_adds_and_confines() {
    let p = Vec3::new(1_000, -2_000, 900_000);
    assert_eq!(p.displace(500, 500, 0), Vec3 { x: 1_500, y: -1_500, z: 900_000 });
    let edge = Vec3::new(WORLD_LIMIT, -WORLD_LIMIT, 0);
    assert_eq!(edge.displace(1, -1, 0), Vec3 { x: WORLD_LIMIT, y: -WORLD_LIMIT, z: 0 });
    assert!(Vec3::zero().is_zero());
    assert!(!p.is_zero());
}

#[test]
fn unit_vector_has_length_one_thousand() {
    assert_eq!(unit_vector(3, 4), (600, 800));
    assert_eq!(unit_vector(1, 0), (1000, 0));
    assert_eq!(unit_vector(0, -5), (0, -1000));
    assert_eq!(unit_vector(-1000, 1000), (-707, 707));
    assert_eq!(unit_vector(1, 1), (707, 707));
    assert_eq!(unit_vector(7, -3), (919, -393));
    assert_eq!(unit_vector(-4_500, -5_000), (-668, -743));
}

#[test]
fn unit_vector_of_nothing_is_nothing() {
    assert_eq!(unit_vector(0, 0), (0, 0));
}

#[test]
fn unit_vector_takes_the_widest_displacement() {
    let (x, y) = unit_vector(2 * WORLD_LIMIT, -2 * WORLD_LIMIT);
    assert_eq!((x, y), (707, -707));
}

#[test]
fn distance_is_compared_strictly() {
    let a = Vec3::new(0, 0, 0);
    assert!(distance_strictly_between(a, Vec3::new(12_000, 0, 0), 10_000, 15_000));
    assert!(!distance_strictly_between(a, Vec3::new(10_000, 0, 0), 10_000, 15_000));
    assert!(distance_strictly_between(a, Vec3::new(10_001, 0, 0), 10_000, 15_000));
    assert!(distance_strictly_between(a, Vec3::new(14_999, 0, 0), 10_000, 15_000));
    assert!(!distance_strictly_between(a, Vec3::new(15_000, 0, 0), 10_000, 15_000));
    assert!(!distance_strictly_between(a, Vec3::new(9_000, 0, 0), 10_000, 15_000));
    // 9 and 12 make 15: just out of range
    assert!(!distance_strictly_between(a, Vec3::new(9_000, 12_000, 0), 10_000, 15_000));
    assert!(distance_strictly_between(a, Vec3::new(9_000, 11_999, 0), 10_000, 15_000));
}

#[test]
fn distance_counts_the_layer() {
    let a = Vec3::new(0, 0, 0);
    assert!(distance_strictly_between(a, Vec3::new(0, 0, 12_000), 10_000, 15_000));
    assert!(!distance_strictly_between(a, Vec3::new(12_000, 0, 12_000), 10_000, 15_000));
}

#[test]
fn distance_of_far_points_does_not_overflow() {
    let a = Vec3::new(i64::MIN, i64::MIN, i64::MIN);
    let b = Vec3::new(i64::MAX, i64::MAX, i64::MAX);
    assert!(!distance_strictly_between(a, b, 0, u32::MAX));
    assert!(!distance_strictly_between(a, a, 0, u32::MAX));
    assert!(!distance_strictly_between(a, b, 5, 5));
}

#[test]
fn world_and_unit_bounds_are_inclusive() {
    assert!(Vec3::new(WORLD_LIMIT, -WORLD_LIMIT, 0).within_world());
    assert!(!Vec3::new(WORLD_LIMIT + 1, 0, 0).within_world());
    assert!(!Vec3::new(0, -WORLD_LIMIT - 1, 0).within_world());
    assert!(!Vec3::new(0, 0, i64::MIN).within_world());
    assert!(Vec3::new(1_000, -1_000, 0).within_unit());
    assert!(!Vec3::new(1_001, 0, 0).within_unit());
    assert!(!Vec3::new(0, 0, -1_001).within_unit());
}

#[test]
fn travel_is_rate_times_time() {
    assert_eq!(travelled(64_000_000, 16), 1_024);
    assert_eq!(travelled(-64_000_000, 16), -1_024);
    assert_eq!(travelled(999_999, 1), 0);
    assert_eq!(travelled(-999_999, 1), 0);
    assert_eq!(travelled(0, u64::MAX), 0);
    assert_eq!(travelled(1, 0), 0);
}

#[test]
fn travel_beyond_the_limit_is_cut_down() {
    assert_eq!(travelled(RATE_LIMIT, u64::MAX), TRAVEL_LIMIT);
    assert_eq!(travelled(-RATE_LIMIT, u64::MAX), -TRAVEL_LIMIT);
    assert_eq!(travelled(RATE_LIMIT, 1_000_000), TRAVEL_LIMIT);
    assert_eq!(travelled(RATE_LIMIT, 1), RATE_LIMIT / 1_000_000);
    // the product still fits, the quotient is over the limit
    assert_eq!(travelled(RATE_LIMIT, 60_000_000), TRAVEL_LIMIT);
}
