use geometry_survival::timer::{FrameTimer, TimerMode};

#[test]
fn repeating_timer_fires_on_completion() {
    let mut t = FrameTimer::new(100, TimerMode::Repeating);
    t.tick(50);
    assert!(!t.just_finished());
    assert_eq!(t.elapsed_ms, 50);
    t.tick(50);
    assert!(t.just_finished());
    assert_eq!(t.elapsed_ms, 0);
}

#[test]
fn repeating_timer_wraps_overshoot() {
    let mut t = FrameTimer::new(100, TimerMode::Repeating);
    t.tick(250);
    assert!(t.just_finished());
    assert_eq!(t.elapsed_ms, 50);
    t.tick(30);
    assert!(!t.just_finished());
    assert_eq!(t.elapsed_ms, 80);
}

#[test]
fn once_timer_fires_only_once() {
    let mut t = FrameTimer::new(100, TimerMode::Once);
    t.tick(100);
    assert!(t.just_finished());
    assert_eq!(t.elapsed_ms, 100);
    t.tick(100);
    assert!(!t.just_finished());
    assert_eq!(t.elapsed_ms, 100);
}

#[test]
fn once_timer_clamps_at_duration() {
    let mut t = FrameTimer::new(100, TimerMode::Once);
    t.tick(1000);
    assert!(t.just_finished());
    assert_eq!(t.elapsed_ms, 100);
}

#[test]
fn reset_starts_the_countdown_over() {
    let mut t = FrameTimer::new(100, TimerMode::Once);
    t.tick(100);
    t.reset();
    assert!(!t.just_finished());
    assert_eq!(t.elapsed_ms, 0);
    t.tick(100);
    assert!(t.just_finished());
}

#[test]
fn set_duration_keeps_elapsed_time() {
    let mut t = FrameTimer::new(100, TimerMode::Repeating);
    t.tick(60);
    t.set_duration(80);
    assert_eq!(t.duration_ms, 80);
    assert_eq!(t.elapsed_ms, 60);
    t.tick(20);
    assert!(t.just_finished());
}
