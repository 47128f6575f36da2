//! A repeating countdown timer, the pacing device of every agent.
//!
//! A timer fires on the tick in which its accumulated time reaches its
//! period; the overshoot is carried into the next cycle, as a repeating
//! timer keeps cadence.

use vstd::prelude::*;

verus! {

/// A repeating timer with a fixed period, in milliseconds.
#[derive(Clone, Copy, PartialEq, Eq, Structural, Debug)]
pub struct Timer {
    /// The fixed period; always at least one millisecond.
    pub period_ms: u32,
    /// Time accumulated since the last firing; always below the period.
    pub elapsed_ms: u32,
}

/// Whether a timer fires when advanced by `dt` milliseconds.
pub open spec fn timer_fires(t: Timer, dt: int) -> bool {
    t.elapsed_ms + dt >= t.period_ms
}

/// The timer state after advancing by `dt` milliseconds.
pub open spec fn timer_after(t: Timer, dt: int) -> Timer {
    if timer_fires(t, dt) {
        Timer { period_ms: t.period_ms, elapsed_ms: ((t.elapsed_ms + dt) % (t.period_ms as int)) as u32 }
    } else {
        Timer { period_ms: t.period_ms, elapsed_ms: (t.elapsed_ms + dt) as u32 }
    }
}

impl Timer {
    pub open spec fn wf(self) -> bool {
        &&& self.period_ms >= 1
        &&& self.elapsed_ms < self.period_ms
    }

    /// A fresh timer that first fires once `period_ms` has accumulated.
    pub fn from_millis(period_ms: u32) -> (t: Timer)
        requires
            period_ms >= 1,
        ensures
            t.period_ms == period_ms,
            t.elapsed_ms == 0,
            t.wf(),
    {
        Timer { period_ms, elapsed_ms: 0 }
    }

    /// Advance by `dt` milliseconds; the result says whether the timer
    /// fired during this advance.
    pub fn tick(&mut self, dt: u32) -> (fired: bool)
        requires
            old(self).wf(),
        ensures
            final(self).wf(),
            fired == timer_fires(*old(self), dt as int),
            *final(self) == timer_after(*old(self), dt as int),
    {
        let total: u64 = self.elapsed_ms as u64 + dt as u64;
        if total >= self.period_ms as u64 {
            let rem: u64 = total % (self.period_ms as u64);
            self.elapsed_ms = rem as u32;
            true
        } else {
            self.elapsed_ms = total as u32;
            false
        }
    }

    /// Start the current cycle over.
    pub fn reset(&mut self)
        ensures
            final(self).period_ms == old(self).period_ms,
            final(self).elapsed_ms == 0,
            old(self).wf() ==> final(self).wf(),
    {
        self.elapsed_ms = 0;
    }
}

} // verus!
