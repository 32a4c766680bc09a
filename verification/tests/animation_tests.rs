use geometry_survival::animation::{
    animate_sprite, Animation, AnimationFrame, AnimationTimer, Animations,
};
use geometry_survival::player::player_eye_animation;
use geometry_survival::timer::{FrameTimer, TimerMode};

fn two_frame_setup() -> (AnimationTimer, Animations, usize) {
    // The blink scenario: 100 ms on cell 0, then 200 ms on cell 1.
    let timer = AnimationTimer(FrameTimer::new(100, TimerMode::Once));
    let animations = Animations {
        animations: vec![Animation {
            frames: vec![
                AnimationFrame { time_ms: 100, index: 0 },
                AnimationFrame { time_ms: 200, index: 1 },
            ],
            current_frame: 0,
        }],
        current_animation: 0,
    };
    (timer, animations, 0)
}

#[test]
fn blink_scenario_yields_indices_1_0_1() {
    let (mut timer, mut animations, mut sprite) = two_frame_setup();
    animate_sprite(&mut timer, &mut animations, &mut sprite, 100);
    assert_eq!(sprite, 1);
    animate_sprite(&mut timer, &mut animations, &mut sprite, 200);
    assert_eq!(sprite, 0);
    animate_sprite(&mut timer, &mut animations, &mut sprite, 100);
    assert_eq!(sprite, 1);
}

#[test]
fn timer_rearms_with_the_new_frames_duration() {
    let (mut timer, mut animations, mut sprite) = two_frame_setup();
    animate_sprite(&mut timer, &mut animations, &mut sprite, 100);
    // Now on frame 1, whose duration is 200 ms — not the old 100 ms.
    assert_eq!(timer.0.duration_ms, 200);
    assert_eq!(timer.0.elapsed_ms, 0);
    animate_sprite(&mut timer, &mut animations, &mut sprite, 200);
    assert_eq!(timer.0.duration_ms, 100);
}

#[test]
fn frames_wrap_around_to_zero() {
    // Three frames; after three completions the sequence is back at frame 0
    // and the sheet shows frames[0] again.
    let mut timer = AnimationTimer(FrameTimer::new(10, TimerMode::Once));
    let mut animations = Animations {
        animations: vec![Animation {
            frames: vec![
                AnimationFrame { time_ms: 10, index: 7 },
                AnimationFrame { time_ms: 10, index: 8 },
                AnimationFrame { time_ms: 10, index: 9 },
            ],
            current_frame: 0,
        }],
        current_animation: 0,
    };
    let mut sprite = 7;
    for _ in 0..3 {
        animate_sprite(&mut timer, &mut animations, &mut sprite, 10);
    }
    assert_eq!(animations.animations[0].current_frame, 0);
    assert_eq!(sprite, 7);
}

#[test]
fn no_completion_changes_nothing() {
    let (mut timer, mut animations, mut sprite) = two_frame_setup();
    animate_sprite(&mut timer, &mut animations, &mut sprite, 99);
    assert_eq!(sprite, 0);
    assert_eq!(animations.animations[0].current_frame, 0);
    assert_eq!(timer.0.elapsed_ms, 99);
    assert_eq!(timer.0.duration_ms, 100);
}

#[test]
fn out_of_range_sequence_index_is_skipped() {
    let (mut timer, mut animations, mut sprite) = two_frame_setup();
    animations.current_animation = 5;
    animate_sprite(&mut timer, &mut animations, &mut sprite, 100);
    assert_eq!(sprite, 0);
    assert_eq!(animations.animations[0].current_frame, 0);
    assert_eq!(timer.0.duration_ms, 100);
    assert_eq!(animations.current_animation, 5);
}

#[test]
fn empty_frame_list_animates_nothing() {
    let mut timer = AnimationTimer(FrameTimer::new(100, TimerMode::Once));
    let mut animations = Animations {
        animations: vec![Animation { frames: vec![], current_frame: 0 }],
        current_animation: 0,
    };
    let mut sprite = 3;
    animate_sprite(&mut timer, &mut animations, &mut sprite, 100);
    assert_eq!(sprite, 3);
    assert_eq!(animations.animations[0].current_frame, 0);
    assert_eq!(timer.0.duration_ms, 100);
}

#[test]
fn eye_animation_blinks_after_the_open_span() {
    let (mut timer, mut animations) = player_eye_animation();
    assert_eq!(timer.0.duration_ms, 2500);
    let mut sprite = 0;
    animate_sprite(&mut timer, &mut animations, &mut sprite, 2500);
    assert_eq!(sprite, 1);
    assert_eq!(timer.0.duration_ms, 150);
    animate_sprite(&mut timer, &mut animations, &mut sprite, 150);
    assert_eq!(sprite, 0);
    assert_eq!(timer.0.duration_ms, 2500);
}
