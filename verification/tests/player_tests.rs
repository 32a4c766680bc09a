use geometry_survival::math::Velocity;
use geometry_survival::player::{player_movement, PlayerAnimation, PLAYER_SPEED};

#[test]
fn no_keys_means_idle_and_still() {
    let (velocity, clip) = player_movement(false, false, false, false);
    assert_eq!(velocity, Velocity { x: 0, y: 0 });
    assert_eq!(clip, PlayerAnimation::Idle);
}

#[test]
fn one_key_moves_at_full_speed() {
    let (velocity, clip) = player_movement(false, true, false, false);
    assert_eq!(velocity, Velocity { x: PLAYER_SPEED as i64, y: 0 });
    assert_eq!(clip, PlayerAnimation::Walk);
    let (velocity, _) = player_movement(true, false, false, false);
    assert_eq!(velocity, Velocity { x: -(PLAYER_SPEED as i64), y: 0 });
    let (velocity, _) = player_movement(false, false, true, false);
    assert_eq!(velocity, Velocity { x: 0, y: 500 });
    let (velocity, _) = player_movement(false, false, false, true);
    assert_eq!(velocity, Velocity { x: 0, y: -500 });
}

#[test]
fn diagonal_movement_is_normalized() {
    // Right and up together: the unit diagonal scaled to 500 in fixed point,
    // 500000 / 1414 = 353 on each axis — not 500.
    let (velocity, clip) = player_movement(false, true, true, false);
    assert_eq!(velocity, Velocity { x: 353, y: 353 });
    assert_eq!(clip, PlayerAnimation::Walk);
}

#[test]
fn opposing_keys_cancel() {
    let (velocity, clip) = player_movement(true, true, false, false);
    assert_eq!(velocity, Velocity { x: 0, y: 0 });
    assert_eq!(clip, PlayerAnimation::Idle);
    let (velocity, clip) = player_movement(true, true, true, false);
    assert_eq!(velocity, Velocity { x: 0, y: 500 });
    assert_eq!(clip, PlayerAnimation::Walk);
}
