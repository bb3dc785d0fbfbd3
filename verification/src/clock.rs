//! The fixed-interval tick clock that gates how often the simulation
//! advances, decoupled from the rendering rate.

use vstd::prelude::*;

verus! {

/// Accumulates elapsed wall-clock time (in milliseconds) and reports a
/// "ready" signal once per fixed interval, keeping any overshoot for the
/// next interval.
#[derive(Clone, Copy, Debug, PartialEq, Eq, Structural)]
pub struct TickClock {
    /// Length of one tick in milliseconds. Always positive.
    pub interval_ms: u64,
    /// Time accumulated since the last tick fired. Always below `interval_ms`.
    pub elapsed_ms: u64,
}

impl TickClock {
    /// A well-formed clock has a positive interval and an accumulator that
    /// has not yet reached it.
    pub open spec fn wf(self) -> bool {
        0 < self.interval_ms && self.elapsed_ms < self.interval_ms
    }

    /// Whether adding `delta_ms` to the accumulator reaches the interval.
    pub open spec fn fires(self, delta_ms: u64) -> bool {
        self.elapsed_ms + delta_ms >= self.interval_ms
    }

    pub fn new(interval_ms: u64) -> (c: Self)
        requires
            interval_ms > 0,
        ensures
            c.wf(),
            c.interval_ms == interval_ms,
            c.elapsed_ms == 0,
    {
        TickClock { interval_ms, elapsed_ms: 0 }
    }

    /// Add `delta_ms` of elapsed real time. Returns true exactly when a full
    /// interval has accumulated; the accumulator is then reset, keeping the
    /// remainder beyond the last whole interval.
    pub fn tick(&mut self, delta_ms: u64) -> (ready: bool)
        requires
            old(self).wf(),
            old(self).elapsed_ms + delta_ms <= u64::MAX,
        ensures
            final(self).wf(),
            final(self).interval_ms == old(self).interval_ms,
            ready == old(self).fires(delta_ms),
            ready ==> final(self).elapsed_ms == (old(self).elapsed_ms + delta_ms) % (
            old(self).interval_ms as int),
            !ready ==> final(self).elapsed_ms == old(self).elapsed_ms + delta_ms,
    {
        let total = self.elapsed_ms + delta_ms;
        if total >= self.interval_ms {
            self.elapsed_ms = total % self.interval_ms;
            true
        } else {
            self.elapsed_ms = total;
            false
        }
    }
}

} // verus!
