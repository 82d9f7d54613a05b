//! Frame-rate estimation over a sliding window of the last sixty frame
//! times.
//!
//! Frame times are measured in microseconds, so the average and its ceiling
//! reciprocal are exact integer arithmetic.  The window is a ring: slot
//! `i % 60` is overwritten on each new frame, and `size` counts how many
//! slots have been filled so far, saturating at the window length.

use vstd::prelude::*;

verus! {

use vstd::arithmetic::div_mod::{lemma_div_is_ordered, lemma_div_multiples_vanish};

/// Slots in the sliding window.
pub const FRAME_WINDOW: usize = 60;

/// Largest accepted frame time, in microseconds (about thirteen days); keeps
/// the window's sum far inside `u64`.
pub const MAX_FRAMETIME: u64 = 0x100_0000_0000;

/// Microseconds per second.
pub const MICROS_PER_SECOND: u64 = 1_000_000;

/// The sum of a window's frame times.
pub open spec fn sum_frames(s: Seq<u64>) -> int
    decreases s.len(),
{
    if s.len() == 0 {
        0
    } else {
        sum_frames(s.drop_last()) + s.last()
    }
}

/// The estimated rate for a window: the ceiling of
/// `filled_slots / total_seconds`, where an empty window counts as one slot;
/// a zero total (no time measured yet) saturates the estimate.
pub open spec fn fps_estimate(frames: Seq<u64>, size: usize) -> int {
    let total = sum_frames(frames);
    let slots = if size == 0 { 1int } else { size as int };
    if total == 0 {
        u32::MAX as int
    } else {
        (slots * (MICROS_PER_SECOND as int) + total - 1) / total
    }
}

/// Sliding-window frame-rate counter.
pub struct FPSCounter {
    pub last_60_frames: Vec<u64>,
    pub size: usize,
    pub i: usize,
}

impl FPSCounter {
    /// A full window of slots, a fill count inside it, every frame time
    /// within the accepted maximum.
    pub open spec fn wf(self) -> bool {
        &&& self.last_60_frames@.len() == FRAME_WINDOW
        &&& self.size <= FRAME_WINDOW
        &&& forall|j: int|
            0 <= j < self.last_60_frames@.len() ==> self.last_60_frames@[j] <= MAX_FRAMETIME
    }

    /// An empty window: all slots zero, nothing filled.
    pub fn new() -> (c: FPSCounter)
        ensures
            c.wf(),
            c.size == 0,
            c.i == 0,
            forall|j: int| 0 <= j < c.last_60_frames@.len() ==> c.last_60_frames@[j] == 0,
    {
        let mut frames: Vec<u64> = Vec::new();
        let mut j: usize = 0;
        while j < FRAME_WINDOW
            invariant
                j <= FRAME_WINDOW,
                frames@.len() == j,
                forall|k: int| 0 <= k < j ==> frames@[k] == 0,
            decreases FRAME_WINDOW - j,
        {
            frames.push(0);
            j = j + 1;
        }
        FPSCounter { last_60_frames: frames, size: 0, i: 0 }
    }

    /// Record one frame time: overwrite the ring slot, advance the write
    /// index, and grow the fill count until the window is full.
    pub fn add_frametime(&mut self, dt: u64)
        requires
            old(self).wf(),
            dt <= MAX_FRAMETIME,
            old(self).i < usize::MAX,
        ensures
            final(self).wf(),
            final(self).last_60_frames@ == old(self).last_60_frames@.update(
                (old(self).i % FRAME_WINDOW) as int,
                dt,
            ),
            final(self).i == old(self).i + 1,
            final(self).size as int == if old(self).size < FRAME_WINDOW {
                old(self).size + 1
            } else {
                old(self).size as int
            },
    {
        let slot = self.i % FRAME_WINDOW;
        self.last_60_frames.set(slot, dt);
        self.i = self.i + 1;
        if self.size < FRAME_WINDOW {
            self.size = self.size + 1;
        }
    }

    /// The current estimate, exactly `fps_estimate` of the window.
    pub fn get_fps(&self) -> (fps: u32)
        requires
            self.wf(),
        ensures
            fps as int == fps_estimate(self.last_60_frames@, self.size),
    {
        let mut total: u64 = 0;
        let mut j: usize = 0;
        while j < FRAME_WINDOW
            invariant
                self.wf(),
                j <= FRAME_WINDOW,
                total == sum_frames(self.last_60_frames@.take(j as int)),
                total <= j * MAX_FRAMETIME,
            decreases FRAME_WINDOW - j,
        {
            proof {
                assert(self.last_60_frames@.take(j + 1).drop_last() =~= self.last_60_frames@.take(
                    j as int,
                ));
            }
            total = total + self.last_60_frames[j];
            j = j + 1;
        }
        proof {
            assert(self.last_60_frames@.take(FRAME_WINDOW as int) =~= self.last_60_frames@);
        }
        let slots: u64 = if self.size == 0 {
            1
        } else {
            self.size as u64
        };
        if total == 0 {
            u32::MAX
        } else {
            let numerator = slots * MICROS_PER_SECOND;
            let fps = (numerator + total - 1) / total;
            proof {
                assert(numerator + total - 1 <= numerator * total) by (nonlinear_arith)
                    requires
                        numerator >= 1,
                        total >= 1,
                ;
                lemma_div_is_ordered(
                    numerator as int + total as int - 1,
                    numerator as int * total as int,
                    total as int,
                );
                lemma_div_multiples_vanish(numerator as int, total as int);
                assert(total as int * numerator as int == numerator as int * total as int)
                    by (nonlinear_arith);
            }
            fps as u32
        }
    }
}

} // verus!
