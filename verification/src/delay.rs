//! Busy-wait delays driven by the core timer.
//!
//! A delay of `ms` milliseconds waits for `ms * (ck_sys / 4000)` timer
//! ticks.  The 4000 ticks-per-millisecond-per-system-hertz scaling factor
//! follows the vendor's reference examples for this timer; it is stated
//! here as a fixed assumption of the library.  The wait loop itself polls
//! the free-running hardware counter, so only the tick computation lives
//! here; the caller loops until the counter has advanced by the computed
//! count.

use vstd::prelude::*;
use crate::ctimer::CoreTimer;
use crate::rcu::Clocks;
use crate::unit::Hertz;

verus! {

/// The divisor that converts the system clock frequency to core-timer
/// ticks per millisecond.
pub const DELAY_CK_DIV: u32 = 4000;

/// Core timer as delay provider.
pub struct Delay {
    ctimer: CoreTimer,
    clock_frequency: Hertz,
}

impl Delay {
    /// The system clock frequency the delays are computed from.
    pub closed spec fn freq_spec(self) -> u32 {
        self.clock_frequency.0
    }

    /// The wrapped core timer.
    pub closed spec fn ctimer_spec(self) -> CoreTimer {
        self.ctimer
    }

    /// Configure the core timer as a delay provider, deriving tick counts
    /// from the frozen system clock.
    pub fn new(clocks: Clocks, ctimer: CoreTimer) -> (r: Delay)
        ensures
            r.freq_spec() == clocks.sys_spec(),
            r.ctimer_spec() == ctimer,
    {
        Delay { ctimer, clock_frequency: clocks.ck_sys() }
    }

    /// Release and return the ownership of the core-timer resource.
    pub fn free(self) -> (r: CoreTimer)
        ensures
            r == self.ctimer_spec(),
    {
        self.ctimer
    }

    /// The number of core-timer ticks that cover a delay of `ms`
    /// milliseconds at the configured system clock.
    pub fn delay_ticks(&self, ms: u32) -> (r: u64)
        ensures
            r == (ms as int) * ((self.freq_spec() as int) / (DELAY_CK_DIV as int)),
    {
        let per_ms: u32 = self.clock_frequency.0 / DELAY_CK_DIV;
        proof {
            assert((ms as int) * (per_ms as int) <= 0xFFFF_FFFFu32 * (per_ms as int))
                by (nonlinear_arith)
                requires
                    0 <= ms <= 0xFFFF_FFFFu32,
                    per_ms >= 0,
            ;
        }
        (ms as u64) * (per_ms as u64)
    }

    /// Read the current core-timer counter value.
    pub fn now(&self) -> (r: u64)
        ensures
            r == self.ctimer_spec().ctimer_spec().value_spec(),
    {
        self.ctimer.get_value()
    }
}

} // verus!
