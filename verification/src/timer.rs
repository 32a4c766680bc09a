//! A countdown timer advanced explicitly once per simulation frame.
//!
//! Every animated entity owns one timer, and the spawner and the target
//! selector each own one; nothing is scheduled ambiently, so a tick of the
//! whole simulation is a plain function call and stays deterministic.

use vstd::prelude::*;

verus! {

/// What happens when a countdown runs out: a `Once` timer stays finished,
/// a `Repeating` timer starts over, carrying the overshoot into the next
/// countdown.
#[derive(Clone, Copy, PartialEq, Eq, Structural, Debug)]
pub enum TimerMode {
    Once,
    Repeating,
}

/// A countdown with a mutable duration, measured in whole milliseconds.
///
/// `tick` adds the frame's elapsed time; `just_finished` reports whether the
/// most recent `tick` completed a countdown, which is the signal the
/// animation driver, the spawner and the target selector all act on.
#[derive(Clone, Copy, PartialEq, Eq, Structural, Debug)]
pub struct FrameTimer {
    /// Length of one countdown, in milliseconds; always at least 1.
    pub duration_ms: u64,
    /// Time accumulated toward the current countdown, in milliseconds.
    pub elapsed_ms: u64,
    /// Whether the countdown repeats after finishing.
    pub mode: TimerMode,
    /// True exactly when the most recent `tick` completed a countdown.
    pub finished_this_tick: bool,
}

impl FrameTimer {
    /// A timer is well formed when its duration is a positive span of time.
    pub open spec fn wf(self) -> bool {
        self.duration_ms >= 1
    }

    /// The timer state after one `tick` of `delta_ms`, as a mathematical
    /// function: a `Repeating` timer wraps its accumulated time modulo the
    /// duration, a `Once` timer clamps at the duration and fires only on the
    /// tick that first reaches it.
    pub open spec fn spec_tick(self, delta_ms: u64) -> FrameTimer {
        let total = self.elapsed_ms + delta_ms;
        match self.mode {
            TimerMode::Repeating => FrameTimer {
                duration_ms: self.duration_ms,
                elapsed_ms: (total % (self.duration_ms as int)) as u64,
                mode: self.mode,
                finished_this_tick: total >= self.duration_ms,
            },
            TimerMode::Once => FrameTimer {
                duration_ms: self.duration_ms,
                elapsed_ms: if total >= self.duration_ms {
                    self.duration_ms
                } else {
                    total as u64
                },
                mode: self.mode,
                finished_this_tick: self.elapsed_ms < self.duration_ms
                    && total >= self.duration_ms,
            },
        }
    }

    /// A fresh timer that has not accumulated any time.
    pub fn new(duration_ms: u64, mode: TimerMode) -> (t: FrameTimer)
        requires
            duration_ms >= 1,
        ensures
            t == (FrameTimer {
                duration_ms,
                elapsed_ms: 0,
                mode,
                finished_this_tick: false,
            }),
            t.wf(),
    {
        FrameTimer { duration_ms, elapsed_ms: 0, mode, finished_this_tick: false }
    }

    /// Advance the timer by one frame's elapsed time.
    pub fn tick(&mut self, delta_ms: u64)
        requires
            old(self).wf(),
        ensures
            *final(self) == old(self).spec_tick(delta_ms),
            final(self).wf(),
    {
        let total: u128 = self.elapsed_ms as u128 + delta_ms as u128;
        let dur: u128 = self.duration_ms as u128;
        match self.mode {
            TimerMode::Repeating => {
                self.finished_this_tick = total >= dur;
                self.elapsed_ms = (total % dur) as u64;
            },
            TimerMode::Once => {
                self.finished_this_tick = self.elapsed_ms < self.duration_ms && total >= dur;
                self.elapsed_ms = if total >= dur {
                    self.duration_ms
                } else {
                    total as u64
                };
            },
        }
    }

    /// Whether the most recent `tick` completed a countdown.
    pub fn just_finished(&self) -> (r: bool)
        ensures
            r == self.finished_this_tick,
    {
        self.finished_this_tick
    }

    /// Start the current countdown over from zero accumulated time.
    pub fn reset(&mut self)
        ensures
            *final(self) == (FrameTimer {
                elapsed_ms: 0,
                finished_this_tick: false,
                ..*old(self)
            }),
    {
        self.elapsed_ms = 0;
        self.finished_this_tick = false;
    }

    /// Change the length of the countdown; accumulated time is kept.
    pub fn set_duration(&mut self, duration_ms: u64)
        requires
            duration_ms >= 1,
        ensures
            *final(self) == (FrameTimer { duration_ms, ..*old(self) }),
            final(self).wf(),
    {
        self.duration_ms = duration_ms;
    }
}

} // verus!
