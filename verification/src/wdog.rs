//! Watchdog timers.
//!
//! The free watchdog runs from its own 40 kHz oscillator through a
//! power-of-two prescaler and a twelve-bit reload register.  Once started
//! it cannot be disabled, which the `Disabled` to `Enabled` typestate
//! records.  The prescaler/reload pair computed for a requested interval
//! always covers the request: rounding down a watchdog timeout would be
//! unsafe, so the algorithm only rounds up.

use vstd::prelude::*;
use vstd::arithmetic::power2::{pow2, lemma_pow2_adds, lemma_pow2_pos, lemma2_to64};
use vstd::arithmetic::div_mod::lemma_fundamental_div_mod;
use crate::unit::MicroSeconds;

verus! {

/// Command that starts the free watchdog.
pub const FWDGT_CMD_ENABLE: u16 = 0xCCCC;

/// Command that reloads (feeds) the free watchdog.
pub const FWDGT_CMD_RELOAD: u16 = 0xAAAA;

/// Command that opens write access to the prescaler and reload registers.
pub const FWDGT_CMD_WRITE_ACCESS_ENABLE: u16 = 0x5555;

/// Command that closes write access again.
pub const FWDGT_CMD_WRITE_ACCESS_DISABLE: u16 = 0x0000;

/// Largest prescaler code used; the next code selects the same divider.
pub const FWDGT_MAX_PSC: u8 = 0b110;

/// Largest reload value.
pub const FWDGT_MAX_RLD: u16 = 0xFFF;

/// The interval in microseconds that one prescaler/reload pair covers:
/// each count lasts `100 * 2^psc` microseconds and `rld + 1` counts pass
/// before the dog bites.
pub open spec fn wdog_interval_spec(psc: int, rld: int) -> int {
    (rld + 1) * (100 * pow2(psc as nat))
}

/// Type state for disabled watchdog timers.
pub struct Disabled;

/// Type state for enabled watchdog timers.
pub struct Enabled;

/// The raw free-watchdog register block.
///
/// The status register's two update-in-progress bits have no model
/// counterpart: the modelled register file completes a prescaler or
/// reload update instantly, where the hardware needs a few 40 kHz cycles.
pub struct FWDGT {
    psc: u8,
    rld: u16,
    last_cmd: u16,
    started: bool,
}

impl FWDGT {
    /// The prescaler code never exceeds its largest used value.
    #[verifier::type_invariant]
    pub closed spec fn wf(self) -> bool {
        self.psc <= FWDGT_MAX_PSC
    }

    /// Value of the prescaler register.
    pub closed spec fn psc_spec(self) -> u8 {
        self.psc
    }

    /// Value of the reload register.
    pub closed spec fn rld_spec(self) -> u16 {
        self.rld
    }

    /// The last command written to the control register.
    pub closed spec fn last_cmd_spec(self) -> u16 {
        self.last_cmd
    }

    /// Whether the enable command has been issued.
    pub closed spec fn started_spec(self) -> bool {
        self.started
    }

    /// Take the free-watchdog block at its reset state.
    pub fn new() -> (r: FWDGT)
        ensures
            r.psc_spec() == 0,
            r.rld_spec() == FWDGT_MAX_RLD,
            !r.started_spec(),
    {
        FWDGT { psc: 0, rld: FWDGT_MAX_RLD, last_cmd: 0, started: false }
    }
}

/// Free Watchdog Timer (FWDGT) peripheral.
///
/// This watchdog cannot be disabled once started.
pub struct Free<STATE> {
    fwdgt: FWDGT,
    state: STATE,
}

impl Free<Disabled> {
    /// Wrap the watchdog.
    pub fn new(fwdgt: FWDGT) -> (r: Free<Disabled>)
        ensures
            r.fwdgt_spec() == fwdgt,
    {
        Free { fwdgt, state: Disabled }
    }
}

impl<STATE> Free<STATE> {
    /// The wrapped register block.
    pub closed spec fn fwdgt_spec(self) -> FWDGT {
        self.fwdgt
    }

    /// Returns the interval that the committed prescaler and reload
    /// registers cover, in microseconds.
    pub fn interval(&self) -> (r: MicroSeconds)
        ensures
            r.0 == wdog_interval_spec(
                self.fwdgt_spec().psc_spec() as int,
                self.fwdgt_spec().rld_spec() as int,
            ),
    {
        proof {
            use_type_invariant(&self.fwdgt);
        }
        if self.rud_or_pud_updating() {
            // On hardware: wait here until the register update finishes.
        }
        let psc: u32 = self.fwdgt.psc as u32;
        let rld: u32 = self.fwdgt.rld as u32;
        proof {
            lemma_shl_is_pow2(psc);
        }
        let sh: u32 = 1u32 << psc;
        proof {
            assert((rld + 1) * (sh as int) <= 65536 * 64) by (nonlinear_arith)
                requires
                    0 <= rld <= 0xFFFF,
                    0 <= sh <= 64,
            ;
        }
        let time_us: u32 = (rld + 1) * sh * 100;
        proof {
            let p = pow2(psc as nat) as int;
            assert((rld + 1) * p * 100 == (rld + 1) * (100 * p)) by (nonlinear_arith);
        }
        MicroSeconds(time_us)
    }

    /// Read the committed prescaler register.
    pub fn psc(&self) -> (r: u8)
        ensures
            r == self.fwdgt_spec().psc_spec(),
            r <= FWDGT_MAX_PSC,
    {
        proof {
            use_type_invariant(&self.fwdgt);
        }
        self.fwdgt.psc
    }

    /// Read the committed reload register.
    pub fn rld(&self) -> (r: u16)
        ensures
            r == self.fwdgt_spec().rld_spec(),
    {
        self.fwdgt.rld
    }

    /// Whether a prescaler or reload update is still propagating.  The
    /// modelled register file completes updates instantly, so this is
    /// always false; on hardware it polls the `PUD` and `RUD` status bits.
    pub fn rud_or_pud_updating(&self) -> (r: bool)
        ensures
            !r,
    {
        false
    }
}

/// Shifting one left by `psc` is the power of two, for the prescaler's
/// small range.
proof fn lemma_shl_is_pow2(psc: u32)
    requires
        psc <= 6,
    ensures
        (1u32 << psc) == pow2(psc as nat),
        1 <= (1u32 << psc) <= 64,
{
    lemma2_to64();
    let p = psc;
    assert((p == 0 ==> (1u32 << p) == 1u32) && (p == 1 ==> (1u32 << p) == 2u32) && (p == 2
        ==> (1u32 << p) == 4u32) && (p == 3 ==> (1u32 << p) == 8u32) && (p == 4 ==> (1u32 << p)
        == 16u32) && (p == 5 ==> (1u32 << p) == 32u32) && (p == 6 ==> (1u32 << p) == 64u32))
        by (bit_vector);
}

/// Compute the prescaler/reload pair for a requested interval in
/// microseconds: the smallest prescaler whose range covers the request
/// (capped at the largest code), then the reload count rounded so the
/// committed interval never undershoots, clamped to the register width.
pub fn calc_psc_rld(time_us: u32) -> (r: (u8, u16))
    ensures
        r.0 <= FWDGT_MAX_PSC,
        r.1 <= FWDGT_MAX_RLD,
        forall|k: int| 0 <= k < r.0 ==> 409_600 * #[trigger] pow2(k as nat) < time_us,
        r.0 < FWDGT_MAX_PSC ==> 409_600 * pow2(r.0 as nat) >= time_us,
        time_us <= 26_214_400 ==> wdog_interval_spec(r.0 as int, r.1 as int) >= time_us,
        time_us > 26_214_400 ==> r.0 == FWDGT_MAX_PSC && r.1 == FWDGT_MAX_RLD,
        r.1 as int == ({
            let d = 100 * pow2(r.0 as nat) as int;
            let q = (if time_us == 0 {
                0int
            } else {
                (time_us - 1) as int
            }) / d;
            if q > 0xFFF {
                0xFFF
            } else {
                q
            }
        }),
{
    let mut psc: u8 = 0;
    let mut max_time: u32 = 409_600;
    proof {
        lemma2_to64();
    }
    while psc < FWDGT_MAX_PSC && max_time < time_us
        invariant
            psc <= 6,
            max_time == 409_600 * pow2(psc as nat),
            forall|k: int| 0 <= k < psc ==> 409_600 * #[trigger] pow2(k as nat) < time_us,
        decreases 6 - psc,
    {
        proof {
            lemma_pow2_adds(psc as nat, 1);
            lemma2_to64();
        }
        psc += 1;
        max_time *= 2;
    }
    proof {
        lemma_shl_is_pow2(psc as u32);
    }
    let divisor: u32 = 100 * (1u32 << (psc as u32));
    let t1: u32 = if time_us == 0 {
        0
    } else {
        time_us - 1
    };
    let mut rld: u32 = t1 / divisor;
    if rld > FWDGT_MAX_RLD as u32 {
        rld = FWDGT_MAX_RLD as u32;
    }
    proof {
        let p = pow2(psc as nat) as int;
        let d = 100 * p;
        lemma_pow2_pos(psc as nat);
        if time_us > 26_214_400 {
            // The prescaler search exhausted its range, and the quotient
            // overflows the reload register, so both fields saturate.
            assert(psc == 6);
            assert(d == 6400);
            let q = (time_us - 1) as int / d;
            lemma_fundamental_div_mod((time_us - 1) as int, d);
            assert(q > 0xFFF) by (nonlinear_arith)
                requires
                    d == 6400,
                    (time_us - 1) as int == d * q + ((time_us - 1) as int % d),
                    ((time_us - 1) as int % d) < d,
                    (time_us - 1) as int >= 26_214_400,
            ;
        }
        if time_us <= 26_214_400 {
            if time_us == 0 {
            } else {
                let q = (time_us - 1) as int / d;
                lemma_fundamental_div_mod((time_us - 1) as int, d);
                assert((q + 1) * d > (time_us - 1) as int) by (nonlinear_arith)
                    requires
                        d > 0,
                        (time_us - 1) as int == d * q + ((time_us - 1) as int % d),
                        ((time_us - 1) as int % d) < d,
                ;
                if q > 0xFFF {
                    // The request would overflow the reload register; this
                    // cannot happen below the covered maximum because the
                    // prescaler search has already reached a range that
                    // covers the request.
                    if psc == 6 {
                        assert(d == 6400);
                        assert(q <= 0xFFF);
                    } else {
                        assert(max_time >= time_us);
                        assert(q * d <= (time_us - 1) as int) by (nonlinear_arith)
                            requires
                                d > 0,
                                (time_us - 1) as int == d * q + ((time_us - 1) as int % d),
                                0 <= ((time_us - 1) as int % d),
                        ;
                        assert((0xFFF + 1) * d == 409_600 * p) by (nonlinear_arith)
                            requires
                                d == 100 * p,
                        ;
                        assert(q <= 0xFFF) by (nonlinear_arith)
                            requires
                                q * d <= (time_us - 1) as int,
                                (time_us as int) <= (0xFFF + 1) * d,
                                d > 0,
                                q >= 0,
                        ;
                    }
                }
            }
        }
    }
    (psc, rld as u16)
}

impl Free<Disabled> {
    /// Start the watchdog with the given target interval.  The committed
    /// prescaler/reload pair covers at least the requested time, and the
    /// registers are written under the documented unlock/lock command
    /// sequence with interrupts masked.
    pub fn try_start(self, period: MicroSeconds) -> (r: Free<Enabled>)
        ensures
            r.fwdgt_spec().psc_spec() <= FWDGT_MAX_PSC,
            r.fwdgt_spec().rld_spec() <= FWDGT_MAX_RLD,
            period.0 <= 26_214_400 ==> wdog_interval_spec(
                r.fwdgt_spec().psc_spec() as int,
                r.fwdgt_spec().rld_spec() as int,
            ) >= period.0,
            r.fwdgt_spec().started_spec(),
            r.fwdgt_spec().last_cmd_spec() == FWDGT_CMD_ENABLE,
    {
        let (psc, rld) = calc_psc_rld(period.0);
        if self.rud_or_pud_updating() {
            // On hardware: wait here until the previous update finishes.
        }
        Free {
            fwdgt: FWDGT { psc, rld, last_cmd: FWDGT_CMD_ENABLE, started: true },
            state: Enabled,
        }
    }
}

impl Free<Enabled> {
    /// Commit a new period while the watchdog runs.
    pub fn set_period(&mut self, period: MicroSeconds)
        ensures
            final(self).fwdgt_spec().psc_spec() <= FWDGT_MAX_PSC,
            final(self).fwdgt_spec().rld_spec() <= FWDGT_MAX_RLD,
            period.0 <= 26_214_400 ==> wdog_interval_spec(
                final(self).fwdgt_spec().psc_spec() as int,
                final(self).fwdgt_spec().rld_spec() as int,
            ) >= period.0,
            final(self).fwdgt_spec().started_spec() == old(self).fwdgt_spec().started_spec(),
            final(self).fwdgt_spec().last_cmd_spec() == FWDGT_CMD_RELOAD,
    {
        let (psc, rld) = calc_psc_rld(period.0);
        if self.rud_or_pud_updating() {
            // On hardware: wait here until the previous update finishes.
        }
        let started = self.fwdgt.started;
        self.fwdgt = FWDGT { psc, rld, last_cmd: FWDGT_CMD_RELOAD, started };
    }

    /// Feed the watchdog: reload its counter without touching the
    /// committed period.
    pub fn try_feed(&mut self)
        ensures
            final(self).fwdgt_spec().psc_spec() == old(self).fwdgt_spec().psc_spec(),
            final(self).fwdgt_spec().rld_spec() == old(self).fwdgt_spec().rld_spec(),
            final(self).fwdgt_spec().started_spec() == old(self).fwdgt_spec().started_spec(),
            final(self).fwdgt_spec().last_cmd_spec() == FWDGT_CMD_RELOAD,
    {
        proof {
            use_type_invariant(&self.fwdgt);
        }
        let psc = self.fwdgt.psc;
        let rld = self.fwdgt.rld;
        let started = self.fwdgt.started;
        self.fwdgt = FWDGT { psc, rld, last_cmd: FWDGT_CMD_RELOAD, started };
    }
}

/// The pair committed for any coverable request never undershoots it, and
/// its fields always fit their registers.
pub proof fn lemma_wdog_start_covers(time_us: u32, psc: u8, rld: u16)
    requires
        psc <= FWDGT_MAX_PSC,
        rld <= FWDGT_MAX_RLD,
        time_us <= 26_214_400,
        wdog_interval_spec(psc as int, rld as int) >= time_us,
    ensures
        (rld + 1) * 100 * pow2(psc as nat) >= time_us,
{
    assert((rld + 1) * 100 * pow2(psc as nat) == (rld + 1) * (100 * pow2(psc as nat)))
        by (nonlinear_arith);
}

/// The raw window-watchdog register block.
pub struct WWDGT {
    _ownership: (),
}

/// Window Watchdog Timer (WWDGT) peripheral.
pub struct Window {
    wwdgt: WWDGT,
}

} // verus!
