use vstd::prelude::*;

verus! {

/// Nanoseconds in one second.
pub const NANOS_PER_SECOND: u64 = 1_000_000_000;

/// The frame-pacing limiter: a target framerate and the monotonic deadline,
/// in nanoseconds, before which the current frame must not end. The run
/// loop asks it each frame how long to sleep and lets it advance the
/// deadline.
pub struct Sdl2FrameLimiter {
    pub enabled: bool,
    pub target_framerate: Option<u32>,
    pub deadline_nanos: u64,
}

/// The length of one frame in nanoseconds, when the limiter limits: it must
/// be enabled and hold a positive target framerate.
pub open spec fn spec_frame_duration(enabled: bool, target_framerate: Option<u32>) -> Option<u64> {
    if enabled {
        match target_framerate {
            Some(f) => if f > 0 {
                Some((NANOS_PER_SECOND / f as u64) as u64)
            } else {
                None
            },
            None => None,
        }
    } else {
        None
    }
}

/// Addition on the monotonic clock, stopped at the largest representable
/// instant.
pub open spec fn spec_saturating_add(a: u64, b: u64) -> u64 {
    if a + b <= u64::MAX {
        (a + b) as u64
    } else {
        u64::MAX
    }
}

impl Sdl2FrameLimiter {
    /// A limiter whose first frame may end at once.
    pub fn new(enabled: bool, target_framerate: Option<u32>) -> (r: Sdl2FrameLimiter)
        ensures
            r.enabled == enabled,
            r.target_framerate == target_framerate,
            r.deadline_nanos == 0,
    {
        Sdl2FrameLimiter { enabled, target_framerate, deadline_nanos: 0 }
    }

    /// The length of one frame in nanoseconds, if the limiter limits.
    pub fn frame_duration_nanos(&self) -> (r: Option<u64>)
        ensures
            r == spec_frame_duration(self.enabled, self.target_framerate),
    {
        if !self.enabled {
            return None;
        }
        match self.target_framerate {
            Some(f) => {
                if f > 0 {
                    Some(NANOS_PER_SECOND / (f as u64))
                } else {
                    None
                }
            },
            None => None,
        }
    }

    /// Ends a frame at instant `now_nanos` and returns how long the run
    /// loop must sleep before the next one.
    ///
    /// A disabled or unbounded limiter never asks for sleep and keeps its
    /// deadline at the current instant. A limiting one asks for the time
    /// left until the deadline and advances the deadline by one frame;
    /// after a frame that overran its deadline, the next deadline counts
    /// from the current instant.
    pub fn tick(&mut self, now_nanos: u64) -> (sleep: u64)
        ensures
            final(self).enabled == old(self).enabled,
            final(self).target_framerate == old(self).target_framerate,
            match spec_frame_duration(old(self).enabled, old(self).target_framerate) {
                None => sleep == 0 && final(self).deadline_nanos == now_nanos,
                Some(d) => {
                    if now_nanos < old(self).deadline_nanos {
                        &&& sleep == old(self).deadline_nanos - now_nanos
                        &&& final(self).deadline_nanos == spec_saturating_add(
                            old(self).deadline_nanos,
                            d,
                        )
                    } else {
                        &&& sleep == 0
                        &&& final(self).deadline_nanos == spec_saturating_add(now_nanos, d)
                    }
                },
            },
    {
        let d = match self.frame_duration_nanos() {
            Some(d) => d,
            None => {
                self.deadline_nanos = now_nanos;
                return 0;
            },
        };
        if now_nanos < self.deadline_nanos {
            let sleep = self.deadline_nanos - now_nanos;
            self.deadline_nanos = match self.deadline_nanos.checked_add(d) {
                Some(next) => next,
                None => u64::MAX,
            };
            sleep
        } else {
            self.deadline_nanos = match now_nanos.checked_add(d) {
                Some(next) => next,
                None => u64::MAX,
            };
            0
        }
    }
}

} // verus!
