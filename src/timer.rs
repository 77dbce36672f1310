//! The frame pacer. Times are nanoseconds on a monotonic clock that the
//! caller reads; the pacer decides how long to sleep.
use vstd::prelude::*;

verus! {

/// Nanoseconds in a second.
pub const NANOS_PER_SEC: u64 = 1_000_000_000;

/// Measures the time between frames and how much of a frame's budget is
/// left once its work is done.
#[derive(Clone, Copy, Debug, PartialEq, Eq, Structural)]
pub struct Timer {
    frame_start: u64,
    frame_time: u64,
}

impl Timer {
    /// When the current frame started.
    pub closed spec fn frame_start(&self) -> u64 {
        self.frame_start
    }

    /// The time budget of one frame.
    pub closed spec fn budget(&self) -> u64 {
        self.frame_time
    }

    /// A pacer for `fps` frames per second (budget `1 / fps` seconds, in
    /// whole nanoseconds), its first frame starting at `now`.
    pub fn new(fps: u32, now: u64) -> (r: Timer)
        requires
            fps > 0,
        ensures
            r.budget() == NANOS_PER_SEC as int / (fps as int),
            r.frame_start() == now,
    {
        Timer { frame_start: now, frame_time: NANOS_PER_SEC / (fps as u64) }
    }

    /// Starts a frame at `now`; returns the time since the previous start
    /// (or since construction), never negative.
    pub fn start_frame(&mut self, now: u64) -> (dt: u64)
        ensures
            dt == if now >= old(self).frame_start() {
                now - old(self).frame_start()
            } else {
                0
            },
            final(self).frame_start() == now,
            final(self).budget() == old(self).budget(),
    {
        let dt = now.saturating_sub(self.frame_start);
        self.frame_start = now;
        dt
    }

    /// How long to sleep at `now` to fill the frame's budget: the budget
    /// minus the time since the frame started, or zero if the work took the
    /// whole budget or more.
    pub fn end_frame(&self, now: u64) -> (sleep: u64)
        ensures
            ({
                let elapsed = if now >= self.frame_start() {
                    now - self.frame_start()
                } else {
                    0
                };
                &&& elapsed >= self.budget() ==> sleep == 0
                &&& elapsed < self.budget() ==> sleep == self.budget() - elapsed
            }),
    {
        let elapsed = now.saturating_sub(self.frame_start);
        self.frame_time.saturating_sub(elapsed)
    }
}

} // verus!
