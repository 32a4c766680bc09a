//! Frame-based sprite animation: named sequences of timed frames, advanced
//! by a per-entity countdown timer.
//!
//! Each completion of the timer steps the active sequence to its next frame
//! (wrapping at the end), re-arms the timer with the *new* frame's duration,
//! and publishes the frame's sprite-sheet index for the renderer. A sequence
//! index that was set out of range, or an empty frame list, makes the tick a
//! no-op for that entity: animation is visual polish and must never panic.

use crate::timer::{FrameTimer, TimerMode};
use vstd::prelude::*;

verus! {

/// The countdown that paces one entity's animation.
#[derive(Clone, Copy, PartialEq, Eq, Structural, Debug)]
pub struct AnimationTimer(pub FrameTimer);

/// One still image of a sprite sheet and how long it stays on screen.
#[derive(Clone, Copy, PartialEq, Eq, Structural, Debug)]
pub struct AnimationFrame {
    /// How long the frame is shown, in milliseconds; always at least 1.
    pub time_ms: u64,
    /// Which cell of the sprite sheet shows this frame.
    pub index: usize,
}

/// One named sequence of frames, owned by the entity it animates.
#[derive(Debug)]
pub struct Animation {
    /// The frames, in playback order.
    pub frames: Vec<AnimationFrame>,
    /// The frame currently shown; wraps to 0 past the end of `frames`.
    pub current_frame: usize,
}

/// All of one entity's sequences and which one is playing.
#[derive(Debug)]
pub struct Animations {
    /// Every sequence the entity can play.
    pub animations: Vec<Animation>,
    /// Index of the sequence being played.
    pub current_animation: usize,
}

impl Animation {
    /// Every frame shows for a positive span of time, so the timer it re-arms
    /// stays well formed.
    pub open spec fn wf(self) -> bool {
        forall|i: int| 0 <= i < self.frames@.len() ==> #[trigger] self.frames@[i].time_ms >= 1
    }
}

impl Animations {
    /// Every sequence is well formed.
    pub open spec fn wf(self) -> bool {
        forall|i: int| 0 <= i < self.animations@.len() ==> #[trigger] self.animations@[i].wf()
    }
}

/// The frame that follows `current_frame` in a sequence of `len` frames:
/// one step forward, wrapping to 0 when the end is reached or passed.
pub open spec fn next_frame_index(current_frame: int, len: int) -> int {
    if current_frame + 1 >= len {
        0
    } else {
        current_frame + 1
    }
}

/// `next_frame_index` applied `n` times, starting from `current_frame`.
pub open spec fn advance_frames(current_frame: int, len: int, n: nat) -> int
    decreases n,
{
    if n == 0 {
        current_frame
    } else {
        next_frame_index(advance_frames(current_frame, len, (n - 1) as nat), len)
    }
}

/// Starting at frame 0, the first `n` completions walk a sequence of `len`
/// frames in order: completion `n` lands on frame `n` while `n` is in range.
proof fn lemma_advance_in_order(len: int, n: nat)
    requires
        n < len,
    ensures
        advance_frames(0, len, n) == n,
    decreases n,
{
    if n > 0 {
        lemma_advance_in_order(len, (n - 1) as nat);
    }
}

/// Frame wraparound: starting at frame 0, a sequence of `len` frames is back
/// at frame 0 after exactly `len` consecutive timer completions. Together
/// with `animate_sprite`'s postcondition, which publishes the sprite-sheet
/// index of each frame it lands on, the completion that wraps shows
/// `frames[0]` again.
pub proof fn lemma_frame_wraparound(len: nat)
    requires
        len >= 1,
    ensures
        advance_frames(0, len as int, len) == 0,
{
    lemma_advance_in_order(len as int, (len - 1) as nat);
}

/// Advance one entity's animation by one frame of wall time.
///
/// Ticks the timer by `delta_ms`; on completion, steps the active sequence
/// to its next frame (wrapping), re-arms the timer with the *new* frame's
/// duration starting from zero, and writes the new frame's sprite-sheet cell
/// to `sprite_index`. An out-of-range `current_animation` or an empty frame
/// list leaves everything except the ticked timer (and, for the empty list,
/// the wrapped `current_frame`) unchanged.
pub fn animate_sprite(
    timer: &mut AnimationTimer,
    animations: &mut Animations,
    sprite_index: &mut usize,
    delta_ms: u64,
)
    requires
        old(timer).0.wf(),
        old(animations).wf(),
    ensures
        final(timer).0.wf(),
        final(animations).wf(),
        final(animations).current_animation == old(animations).current_animation,
        ({
            let t = old(timer).0.spec_tick(delta_ms);
            let ca = old(animations).current_animation;
            let seqs = old(animations).animations@;
            &&& (!t.finished_this_tick ==> {
                &&& final(timer).0 == t
                &&& *final(animations) == *old(animations)
                &&& *final(sprite_index) == *old(sprite_index)
            })
            &&& (t.finished_this_tick && ca >= seqs.len() ==> {
                &&& final(timer).0 == t
                &&& *final(animations) == *old(animations)
                &&& *final(sprite_index) == *old(sprite_index)
            })
            &&& (t.finished_this_tick && ca < seqs.len() ==> {
                let a = seqs[ca as int];
                let nf = next_frame_index(a.current_frame as int, a.frames@.len() as int);
                &&& final(animations).animations@ == seqs.update(
                    ca as int,
                    (Animation { frames: a.frames, current_frame: nf as usize }),
                )
                &&& (a.frames@.len() > 0 ==> {
                    &&& final(timer).0 == (FrameTimer {
                        duration_ms: a.frames@[nf].time_ms,
                        elapsed_ms: 0,
                        mode: t.mode,
                        finished_this_tick: false,
                    })
                    &&& *final(sprite_index) == a.frames@[nf].index
                })
                &&& (a.frames@.len() == 0 ==> {
                    &&& final(timer).0 == t
                    &&& *final(sprite_index) == *old(sprite_index)
                })
            })
        }),
{
    timer.0.tick(delta_ms);
    if timer.0.just_finished() {
        let ca = animations.current_animation;
        if ca < animations.animations.len() {
            let animation = &mut animations.animations[ca];
            let len = animation.frames.len();
            let cf = animation.current_frame;
            let nf: usize = if len == 0 || cf >= len - 1 {
                0
            } else {
                cf + 1
            };
            animation.current_frame = nf;
            if len > 0 {
                proof {
                    assert(old(animations).animations@[ca as int].wf());
                }
                let time_ms = animation.frames[nf].time_ms;
                let index = animation.frames[nf].index;
                timer.0.set_duration(time_ms);
                timer.0.reset();
                *sprite_index = index;
            }
        }
    }
}

} // verus!
