//! The FPS counter: a sliding window of frame timestamps.
//!
//! The render loop hands in the current time (in microseconds) once per
//! frame; the counter reports the rate over the last hundred frames.
//! Reading the clock stays outside the library.

use vstd::prelude::*;

verus! {

/// How many frame timestamps the sliding window holds.
pub const FPS_ARRAY_SIZE: usize = 100;

/// The sliding window of recent frame times, oldest first.
pub struct FpsCalculator {
    pub frame_times: Vec<u64>,
}

impl FpsCalculator {
    /// The counter's invariant: the window is never empty and never
    /// outgrows its size.
    pub open spec fn wf(self) -> bool {
        1 <= self.frame_times@.len() <= FPS_ARRAY_SIZE as int
    }

    /// A fresh counter holding the starting timestamp.
    pub fn new(now_micros: u64) -> (c: FpsCalculator)
        ensures
            c.frame_times@ =~= seq![now_micros],
            c.wf(),
    {
        let mut frame_times: Vec<u64> = Vec::new();
        frame_times.push(now_micros);
        FpsCalculator { frame_times }
    }

    /// Records one frame at `now_micros` and reports the rate over the
    /// window, in thousandths of a frame per second: a full window drops
    /// its oldest entry first, and the rate divides the window's length by
    /// the time since its oldest entry.  A clock that has not advanced
    /// past the oldest entry yields no rate.
    pub fn tick(&mut self, now_micros: u64) -> (r: Option<u64>)
        requires
            old(self).wf(),
        ensures
            final(self).wf(),
            final(self).frame_times@ =~= (if old(self).frame_times@.len() == FPS_ARRAY_SIZE
                as int {
                old(self).frame_times@.drop_first()
            } else {
                old(self).frame_times@
            }).push(now_micros),
            ({
                let earliest = old(self).frame_times@[0];
                let len_after = if old(self).frame_times@.len() == FPS_ARRAY_SIZE as int {
                    old(self).frame_times@.len() - 1
                } else {
                    old(self).frame_times@.len() as int
                };
                r == (if now_micros > earliest {
                    Some((1_000_000_000 * len_after / (now_micros - earliest)) as u64)
                } else {
                    None::<u64>
                })
            }),
    {
        let earliest: u64 = if self.frame_times.len() == FPS_ARRAY_SIZE {
            self.frame_times.remove(0)
        } else {
            self.frame_times[0]
        };
        let len: u64 = self.frame_times.len() as u64;
        let r: Option<u64> = if now_micros > earliest {
            let elapsed = now_micros - earliest;
            proof {
                assert(1_000_000_000 * (len as int) <= 1_000_000_000 * 100) by (nonlinear_arith)
                    requires
                        len <= 100,
                ;
            }
            Some(1_000_000_000 * len / elapsed)
        } else {
            None
        };
        self.frame_times.push(now_micros);
        r
    }
}

} // verus!
