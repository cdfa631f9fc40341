//! Timers.
//!
//! A periodic count-down timer: a prescaler and auto-reload value are
//! programmed, the pending update flag is cleared both before and after a
//! forced software update event so no stale flag causes an immediate
//! spurious expiry, and only then is counting enabled.

use vstd::prelude::*;
use crate::nonblocking::NbResult;
use crate::rcu::{Clocks, APB1};
use crate::unit::Hertz;

verus! {

/// The bit index of the TIMER6 clock enable in `APB1EN` and `APB1RST`.
pub const TIMER6EN_BIT: usize = 5;

/// The raw TIMER6 register block.
pub struct TIMER6 {
    psc: u16,
    car: u16,
    cen: bool,
    upif: bool,
}

impl TIMER6 {
    /// Value of the prescaler register.
    pub closed spec fn psc_spec(self) -> u16 {
        self.psc
    }

    /// Value of the counter auto-reload register.
    pub closed spec fn car_spec(self) -> u16 {
        self.car
    }

    /// Whether the counter is enabled.
    pub closed spec fn cen_spec(self) -> bool {
        self.cen
    }

    /// Whether the update interrupt flag is latched.
    pub closed spec fn upif_spec(self) -> bool {
        self.upif
    }

    /// Take the TIMER6 block at its reset state.
    pub fn new() -> (t: TIMER6)
        ensures
            t.psc_spec() == 0,
            t.car_spec() == 0,
            !t.cen_spec(),
            !t.upif_spec(),
    {
        TIMER6 { psc: 0, car: 0, cen: false, upif: false }
    }
}

/// Timer wrapper object.
pub struct Timer<TIMER> {
    timer: TIMER,
    clock_scaler: u16,
    clock_frequency: Hertz,
}

impl<TIMER> Timer<TIMER> {
    /// The configured prescaler divider is never zero.
    #[verifier::type_invariant]
    pub closed spec fn wf(self) -> bool {
        self.clock_scaler >= 1
    }

    /// The wrapped register block.
    pub closed spec fn timer_spec(self) -> TIMER {
        self.timer
    }

    /// The prescaler the timer counts through.
    pub closed spec fn scaler_spec(self) -> u16 {
        self.clock_scaler
    }

    /// The bus clock frequency the timer counts from.
    pub closed spec fn freq_spec(self) -> u32 {
        self.clock_frequency.0
    }

    /// Release the timer and return its ownership.
    pub fn release(self) -> (r: TIMER)
        ensures
            r == self.timer_spec(),
    {
        self.timer
    }
}

impl Timer<TIMER6> {
    /// Initialize the timer: clock it on APB1, pulse its reset line to
    /// clean its state, and derive its count rate from the frozen APB1
    /// clock.
    pub fn timer6(timer: TIMER6, clock: Clocks, apb1: &mut APB1) -> (r: Timer<TIMER6>)
        ensures
            final(apb1).en_spec() == (old(apb1).en_spec() | (1u32 << (TIMER6EN_BIT as u32))),
            final(apb1).rst_spec() == 0,
            r.timer_spec() == timer,
            r.scaler_spec() == 1000,
            r.freq_spec() == clock.apb1_spec(),
    {
        apb1.set_en(TIMER6EN_BIT, true);
        apb1.pulse_rst_write(TIMER6EN_BIT);
        Timer { timer, clock_scaler: 1000, clock_frequency: clock.ck_apb1() }
    }

    /// Program the prescaler and auto-reload count and start counting.
    /// The update flag is cleared, a software update event generates and
    /// clears it again, so the timer starts with no pending expiry.
    pub fn try_start(&mut self, count: u16)
        ensures
            final(self).timer_spec().psc_spec() == old(self).scaler_spec(),
            final(self).timer_spec().car_spec() == count,
            final(self).timer_spec().cen_spec(),
            !final(self).timer_spec().upif_spec(),
            final(self).scaler_spec() == old(self).scaler_spec(),
            final(self).freq_spec() == old(self).freq_spec(),
    {
        proof {
            use_type_invariant(&*self);
        }
        // Program the prescaler.
        let psc = self.clock_scaler;
        // Clear a stale update flag, raise the software update event (which
        // latches the flag), and clear it again.
        self.timer = TIMER6 { psc, car: self.timer.car, cen: self.timer.cen, upif: false };
        self.timer = TIMER6 { psc, car: self.timer.car, cen: self.timer.cen, upif: true };
        self.timer = TIMER6 { psc, car: self.timer.car, cen: self.timer.cen, upif: false };
        // Commit the reload count and enable counting.
        self.timer = TIMER6 { psc, car: count, cen: true, upif: false };
    }

    /// Poll for expiry: ready exactly when the update flag is latched.
    pub fn try_wait(&mut self) -> (r: NbResult<(), ()>)
        ensures
            *final(self) == *old(self),
            r is Ready <==> old(self).timer_spec().upif_spec(),
            !(r is Fault),
    {
        if self.timer.upif {
            NbResult::Ready(())
        } else {
            NbResult::WouldBlock
        }
    }

    /// Record the hardware-latched update flag, as read from the interrupt
    /// flag register.
    pub fn sample_update_flag(&mut self, upif: bool)
        ensures
            final(self).timer_spec().upif_spec() == upif,
            final(self).timer_spec().psc_spec() == old(self).timer_spec().psc_spec(),
            final(self).timer_spec().car_spec() == old(self).timer_spec().car_spec(),
            final(self).timer_spec().cen_spec() == old(self).timer_spec().cen_spec(),
            final(self).scaler_spec() == old(self).scaler_spec(),
            final(self).freq_spec() == old(self).freq_spec(),
    {
        proof {
            use_type_invariant(&*self);
        }
        let psc = self.timer.psc;
        let car = self.timer.car;
        let cen = self.timer.cen;
        self.timer = TIMER6 { psc, car, cen, upif };
    }

    /// The count that covers a delay of `ms` milliseconds at the timer's
    /// clock and prescaler, or nothing when it does not fit the sixteen-bit
    /// counter; a driver treats such a request as a fatal programming
    /// error.
    pub fn delay_count(&self, ms: u32) -> (r: Option<u16>)
        ensures
            ({
                let c = (ms as int) * (self.freq_spec() as int) / ((self.scaler_spec() as int)
                    * 1000);
                &&& (r is Some <==> c <= 0xFFFF)
                &&& (r matches Some(v) ==> v == c)
            }),
    {
        proof {
            use_type_invariant(self);
            assert((ms as int) * (self.freq_spec() as int) <= 0xFFFF_FFFFu32 * (
            self.freq_spec() as int)) by (nonlinear_arith)
                requires
                    0 <= ms <= 0xFFFF_FFFFu32,
                    self.freq_spec() >= 0,
            ;
            assert((self.scaler_spec() as int) * 1000 >= 1000) by (nonlinear_arith)
                requires
                    self.scaler_spec() >= 1,
            ;
        }
        let num: u64 = (ms as u64) * (self.clock_frequency.0 as u64);
        let den: u64 = (self.clock_scaler as u64) * 1000;
        let count: u64 = num / den;
        if count > 0xFFFF {
            None
        } else {
            Some(count as u16)
        }
    }
}

} // verus!
