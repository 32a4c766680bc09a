//! The player: keyboard-driven movement and the blink animation of the
//! player's eye sprite.
//!
//! Input polling, the sprite hierarchy and the body's squash-and-stretch
//! clips belong to the host; this module decides what follows from the
//! pressed keys — the velocity and which clip to play — and owns the eye
//! sprite's frame data, which the animation driver advances.

use crate::animation::{Animation, AnimationFrame, Animations, AnimationTimer};
use crate::math::{normalize_scaled, steer_component, Velocity};
use crate::timer::{FrameTimer, TimerMode};
use vstd::prelude::*;

verus! {

/// Units per second at which the player moves while a key is held.
pub const PLAYER_SPEED: u64 = 500;

/// Milliseconds the eye sprite's open frame is shown before a blink.
pub const EYES_OPEN_MS: u64 = 2500;

/// Milliseconds the eye sprite's blink frame is shown.
pub const EYES_BLINK_MS: u64 = 150;

/// Which of the player's clips should be playing.
#[derive(Clone, Copy, PartialEq, Eq, Structural, Debug)]
pub enum PlayerAnimation {
    Idle,
    Walk,
}

/// The direction a pair of opposing keys pushes along one axis:
/// 1 toward the positive key, -1 toward the negative key, 0 for
/// neither or both.
pub open spec fn key_axis(negative: bool, positive: bool) -> int {
    (if positive {
        1int
    } else {
        0int
    }) - (if negative {
        1int
    } else {
        0int
    })
}

/// Turn the held movement keys into a velocity and a clip choice.
///
/// The key directions sum to a vector that is normalized and scaled to
/// `PLAYER_SPEED` — so diagonal movement is no faster than straight — and
/// any movement at all selects the walk clip; standing still selects idle.
pub fn player_movement(left: bool, right: bool, up: bool, down: bool) -> (r: (
    Velocity,
    PlayerAnimation,
))
    ensures
        ({
            let dx = key_axis(left, right);
            let dy = key_axis(down, up);
            &&& r.0.x == steer_component(dx, dx, dy, PLAYER_SPEED as int) as i64
            &&& r.0.y == steer_component(dy, dx, dy, PLAYER_SPEED as int) as i64
            &&& (r.1 == PlayerAnimation::Walk <==> !(dx == 0 && dy == 0))
            &&& (dx == 0 && dy == 0 ==> r.0 == (Velocity { x: 0, y: 0 })
                && r.1 == PlayerAnimation::Idle)
        }),
{
    let dx: i64 = (if right {
        1i64
    } else {
        0i64
    }) - (if left {
        1i64
    } else {
        0i64
    });
    let dy: i64 = (if up {
        1i64
    } else {
        0i64
    }) - (if down {
        1i64
    } else {
        0i64
    });
    let velocity = normalize_scaled(dx, dy, PLAYER_SPEED);
    let clip = if dx != 0 || dy != 0 {
        PlayerAnimation::Walk
    } else {
        PlayerAnimation::Idle
    };
    (velocity, clip)
}

/// The eye sprite's animation state as spawned: one two-frame blink
/// sequence — eyes open for `EYES_OPEN_MS` on sheet cell 0, then a blink of
/// `EYES_BLINK_MS` on cell 1 — paced by a one-shot timer that the driver
/// re-arms on every completion.
pub fn player_eye_animation() -> (r: (AnimationTimer, Animations))
    ensures
        r.0.0 == (FrameTimer {
            duration_ms: EYES_OPEN_MS,
            elapsed_ms: 0,
            mode: TimerMode::Once,
            finished_this_tick: false,
        }),
        r.1.wf(),
        r.1.current_animation == 0,
        r.1.animations@.len() == 1,
        r.1.animations@[0].current_frame == 0,
        r.1.animations@[0].frames@ =~= seq![
            AnimationFrame { time_ms: EYES_OPEN_MS, index: 0 },
            AnimationFrame { time_ms: EYES_BLINK_MS, index: 1 },
        ],
{
    let timer = AnimationTimer(FrameTimer::new(EYES_OPEN_MS, TimerMode::Once));
    let frames = vec![
        AnimationFrame { time_ms: EYES_OPEN_MS, index: 0 },
        AnimationFrame { time_ms: EYES_BLINK_MS, index: 1 },
    ];
    let animations = Animations {
        animations: vec![Animation { frames, current_frame: 0 }],
        current_animation: 0,
    };
    (timer, animations)
}

} // verus!
