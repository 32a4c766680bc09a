use geometry_survival::math::{distance_squared, isqrt, normalize_scaled, Position, Velocity};

#[test]
fn distance_squared_matches_the_formula() {
    let origin = Position { x: 0, y: 0 };
    assert_eq!(distance_squared(origin, Position { x: 3, y: 4 }), 25);
    assert_eq!(distance_squared(Position { x: -3, y: 4 }, Position { x: 3, y: -4 }), 100);
    assert_eq!(distance_squared(origin, origin), 0);
}

#[test]
fn distance_squared_survives_the_extreme_corners() {
    let a = Position { x: i32::MIN, y: i32::MIN };
    let b = Position { x: i32::MAX, y: i32::MAX };
    // Each axis differs by 2^32 - 1; twice that difference squared.
    assert_eq!(distance_squared(a, b), 2 * 4294967295u128 * 4294967295u128);
}

#[test]
fn isqrt_rounds_down() {
    assert_eq!(isqrt(0), 0);
    assert_eq!(isqrt(1), 1);
    assert_eq!(isqrt(3), 1);
    assert_eq!(isqrt(4), 2);
    assert_eq!(isqrt(250000), 500);
    assert_eq!(isqrt(250001), 500);
    assert_eq!(isqrt(2000000), 1414);
}

#[test]
fn isqrt_handles_the_largest_input() {
    assert_eq!(isqrt(u128::MAX), u64::MAX);
}

#[test]
fn normalize_scaled_keeps_the_direction() {
    assert_eq!(normalize_scaled(3, 4, 150), Velocity { x: 90, y: 120 });
    assert_eq!(normalize_scaled(-3, -4, 150), Velocity { x: -90, y: -120 });
    assert_eq!(normalize_scaled(0, 9999, 150), Velocity { x: 0, y: 150 });
}

#[test]
fn normalize_scaled_of_zero_is_zero() {
    assert_eq!(normalize_scaled(0, 0, 150), Velocity { x: 0, y: 0 });
}
