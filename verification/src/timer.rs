//! A restartable interval timer on the installation's monotone
//! millisecond clock.

use vstd::prelude::*;

verus! {

/// Fires once each time `duration_ms` elapses since it last fired.
pub struct Timer {
    /// Interval length in milliseconds.
    pub duration_ms: u64,
    /// Time the timer last fired (or was started).
    pub last: u64,
}

impl Timer {
    /// A timer started at `time_ms` that fires every `duration_ms`.
    pub fn start_new(time_ms: u64, duration_ms: u64) -> (t: Timer)
        ensures
            t.duration_ms == duration_ms,
            t.last == time_ms,
    {
        Timer { duration_ms, last: time_ms }
    }

    /// True exactly when more than one interval has passed since the timer
    /// last fired; firing restarts the interval at `t_ms`.
    pub fn check(&mut self, t_ms: u64) -> (fired: bool)
        requires
            old(self).last <= t_ms,
        ensures
            fired == (t_ms - old(self).last > old(self).duration_ms),
            final(self).duration_ms == old(self).duration_ms,
            final(self).last == if fired { t_ms } else { old(self).last },
    {
        if t_ms - self.last > self.duration_ms {
            self.last = t_ms;
            true
        } else {
            false
        }
    }
}

} // verus!
