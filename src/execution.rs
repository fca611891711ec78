use vstd::prelude::*;

use crate::time::TimeDelta;

verus! {

/// The lowest frame rate a loop runs at.
pub const MINIMUM_FPS: u8 = 24;

/// Milliseconds between frames at `target_fps` frames per second, the rate
/// being raised to `MINIMUM_FPS` where it is lower.
pub open spec fn interval_millis(target_fps: u8) -> int {
    if target_fps < MINIMUM_FPS {
        1000int / (MINIMUM_FPS as int)
    } else {
        1000int / (target_fps as int)
    }
}

/// Signal returned by the per-frame callback.
#[derive(Clone, Copy, Debug, PartialEq, Eq, Structural)]
pub enum ExecutionFlow {
    /// The loop goes on to the next frame.
    Continue,
    /// The loop ends after the current frame.
    Quit,
}

/// What the driver does at a given moment.
#[derive(Clone, Copy, Debug, PartialEq, Eq, Structural)]
pub enum FrameAction {
    /// Run a frame over the time elapsed since the previous one.
    Run(TimeDelta),
    /// Wait this long before the next frame is due.
    Skip(TimeDelta),
}

/// The timing state of a loop that runs a callback at a fixed rate.
///
/// Moments are spans of time measured from the loop's creation.
pub struct ExecutionLoop {
    frame_interval: TimeDelta,
    prev: TimeDelta,
}

impl ExecutionLoop {
    /// The time between two frames.
    pub closed spec fn spec_frame_interval(&self) -> TimeDelta {
        self.frame_interval
    }

    /// The moment at which the last frame that continued the loop ran.
    pub closed spec fn spec_prev(&self) -> TimeDelta {
        self.prev
    }

    /// A loop at `target_fps` frames per second, or at `MINIMUM_FPS` where
    /// the target is lower, created at moment zero.
    pub fn new(target_fps: u8) -> (r: ExecutionLoop)
        ensures
            r.spec_frame_interval()@ == interval_millis(target_fps) * 1_000_000,
            r.spec_prev()@ == 0,
    {
        let fps = if target_fps < MINIMUM_FPS {
            MINIMUM_FPS
        } else {
            target_fps
        };
        let millis = 1000u64 / (fps as u64);
        ExecutionLoop { frame_interval: TimeDelta::from_millis(millis), prev: TimeDelta::zero() }
    }

    /// The time between two frames.
    pub fn frame_interval(&self) -> (r: TimeDelta)
        ensures
            r == self.spec_frame_interval(),
    {
        self.frame_interval
    }

    /// The moment at which the last frame that continued the loop ran.
    pub fn prev(&self) -> (r: TimeDelta)
        ensures
            r == self.spec_prev(),
    {
        self.prev
    }

    /// At moment `now`: run a frame over the time since the previous one
    /// once a frame interval has passed, else wait for the rest of it.
    pub fn skip_or_run(&self, now: TimeDelta) -> (r: FrameAction)
        ensures
            ({
                let elapsed = if now@ >= self.spec_prev()@ {
                    now@ - self.spec_prev()@
                } else {
                    0
                };
                if elapsed < self.spec_frame_interval()@ {
                    r matches FrameAction::Skip(wait) && wait@ == self.spec_frame_interval()@ - elapsed
                } else {
                    r matches FrameAction::Run(delta) && delta@ == elapsed
                }
            }),
    {
        let delta = now.saturating_sub(&self.prev);
        if delta.lt(&self.frame_interval) {
            FrameAction::Skip(self.frame_interval.saturating_sub(&delta))
        } else {
            FrameAction::Run(delta)
        }
    }

    /// Records the callback's answer for the frame run at `now`; returns
    /// whether the loop goes on.
    pub fn finish_frame(&mut self, now: TimeDelta, flow: ExecutionFlow) -> (r: bool)
        ensures
            r == (flow == ExecutionFlow::Continue),
            final(self).spec_frame_interval() == old(self).spec_frame_interval(),
            final(self).spec_prev() == if r {
                now
            } else {
                old(self).spec_prev()
            },
    {
        match flow {
            ExecutionFlow::Continue => {
                self.prev = now;
                true
            },
            ExecutionFlow::Quit => false,
        }
    }
}

} // verus!
