//! Core simulation logic of a small top-down survival prototype: a
//! frame-based sprite animation driver, a periodic nearest-target selector,
//! and the mob spawn/steering rules, all driven by explicit per-frame ticks.
//!
//! The host runtime (windowing, rendering, physics, input) lives outside this
//! crate; it hands every update function the elapsed time of the frame in
//! whole milliseconds and plain integer world coordinates, and carries the
//! results back to the screen.

pub mod animation;
pub mod assets;
pub mod math;
pub mod mob;
pub mod player;
pub mod timer;
pub mod ui;
