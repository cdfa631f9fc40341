//! Reset and Control Unit.
//!
//! The RCU owns the bus enable, reset and clock-configuration registers.
//! Constraining the raw unit splits it into independent capability handles:
//! whoever holds `&mut APB2` (and so on) is the only code that may gate
//! peripherals on that bus.  The clock tree itself is committed once through
//! the [`Strict`] configurator, which either reaches every requested
//! frequency exactly or reports a configuration error.

use vstd::prelude::*;
use vstd::arithmetic::power2::{pow2, lemma_pow2_adds, lemma_pow2_pos, lemma_pow2_strictly_increases, lemma2_to64};
use vstd::arithmetic::div_mod::lemma_div_by_multiple;
use vstd::arithmetic::mul::lemma_mul_inequality;
use vstd::bits::lemma_u32_shr_is_div;
use vstd::pervasive::unreached;
use crate::atomic::atomic_set_bit;
use crate::unit::Hertz;

verus! {

/// Frequency of the fixed internal RC oscillator (IRC8M), in hertz.
pub const IRC8M_HZ: u32 = 8_000_000;

/// Frequency fed to the PLL when it runs from the internal oscillator:
/// IRC8M divided by two.
pub const PLL_IRC8M_SRC_HZ: u32 = 4_000_000;

/// Raw reset-and-control unit.
///
/// The register file itself is a hardware singleton; this value stands for
/// exclusive ownership of it, and `constrain` splits that ownership into the
/// independent bus and configuration handles.
pub struct RCU {
    _ownership: (),
}

impl RCU {
    /// Take the reset-and-control unit in its chip-reset state.
    pub fn new() -> RCU {
        RCU { _ownership: () }
    }
}

/// Extension trait that constrains the `RCU` peripheral.
pub trait RcuExt {
    /// Constrains the `RCU` peripheral so it plays nicely with the other abstractions.
    fn constrain(self) -> Rcu;
}

impl RcuExt for RCU {
    fn constrain(self) -> (rcu: Rcu)
        ensures
            rcu.ahb.en_spec() == 0,
            rcu.apb1.en_spec() == 0 && rcu.apb1.rst_spec() == 0,
            rcu.apb2.en_spec() == 0 && rcu.apb2.rst_spec() == 0,
            rcu.cfg.at_reset(),
    {
        Rcu {
            apb1: APB1 { en: 0, rst: 0 },
            apb2: APB2 { en: 0, rst: 0 },
            ahb: AHB { en: 0 },
            cfg: CFG {
                irc8men: true,
                irc8mstb: true,
                hxtalen: false,
                hxtalstb: false,
                pllen: false,
                pllstb: false,
                scs: 0,
                ahbpsc: 0,
                apb1psc: 0,
                apb2psc: 0,
                adcpsc: 0,
                pllsel: false,
                pllmf: 0,
                usbfspsc: 0,
                predv0: 0,
            },
            bdctl: BDCTL { _ownership: () },
        }
    }
}

/// Constrained RCU peripheral.
pub struct Rcu {
    /// Advanced Peripheral Bus 1 (APB1) registers.
    pub apb1: APB1,
    /// Advanced Peripheral Bus 2 (APB2) registers.
    pub apb2: APB2,
    /// AHB registers.
    pub ahb: AHB,
    /// Clock configuration registers.
    pub cfg: CFG,
    /// Backup domain control register.
    pub bdctl: BDCTL,
}

/// AMBA High-performance Bus (AHB) registers; constrains `AHBEN`.
pub struct AHB {
    en: u32,
}

impl AHB {
    /// Value of the modelled `AHBEN` enable register.
    pub closed spec fn en_spec(self) -> u32 {
        self.en
    }

    /// Read the modelled `AHBEN` enable register.
    pub fn en_bits(&self) -> (r: u32)
        ensures
            r == self.en_spec(),
    {
        self.en
    }

    pub(crate) fn set_en(&mut self, index: usize, on: bool)
        requires
            index < 32,
        ensures
            on ==> final(self).en_spec() == (old(self).en_spec() | (1u32 << (index as u32))),
            !on ==> final(self).en_spec() == (old(self).en_spec() & !(1u32 << (index as u32))),
    {
        atomic_set_bit(&mut self.en, on, index);
    }
}

/// Advanced Peripheral Bus 1 (APB1) registers; constrains `APB1EN` and `APB1RST`.
pub struct APB1 {
    en: u32,
    rst: u32,
}

impl APB1 {
    /// Value of the modelled `APB1EN` enable register.
    pub closed spec fn en_spec(self) -> u32 {
        self.en
    }

    /// Value of the modelled `APB1RST` reset register.
    pub closed spec fn rst_spec(self) -> u32 {
        self.rst
    }

    /// Read the modelled `APB1EN` enable register.
    pub fn en_bits(&self) -> (r: u32)
        ensures
            r == self.en_spec(),
    {
        self.en
    }

    /// Read the modelled `APB1RST` reset register.
    pub fn rst_bits(&self) -> (r: u32)
        ensures
            r == self.rst_spec(),
    {
        self.rst
    }

    pub(crate) fn set_en(&mut self, index: usize, on: bool)
        requires
            index < 32,
        ensures
            on ==> final(self).en_spec() == (old(self).en_spec() | (1u32 << (index as u32))),
            !on ==> final(self).en_spec() == (old(self).en_spec() & !(1u32 << (index as u32))),
            final(self).rst_spec() == old(self).rst_spec(),
    {
        atomic_set_bit(&mut self.en, on, index);
    }

    /// A reset pulse through whole-register writes: the register holds only
    /// the pulsed bit for one write and is zero afterwards.
    pub(crate) fn pulse_rst_write(&mut self, index: usize)
        requires
            index < 32,
        ensures
            final(self).rst_spec() == 0,
            final(self).en_spec() == old(self).en_spec(),
    {
        self.rst = 1u32 << (index as u32);
        self.rst = 0;
    }
}

/// Advanced Peripheral Bus 2 (APB2) registers; constrains `APB2EN` and `APB2RST`.
pub struct APB2 {
    en: u32,
    rst: u32,
}

impl APB2 {
    /// Value of the modelled `APB2EN` enable register.
    pub closed spec fn en_spec(self) -> u32 {
        self.en
    }

    /// Value of the modelled `APB2RST` reset register.
    pub closed spec fn rst_spec(self) -> u32 {
        self.rst
    }

    /// Read the modelled `APB2EN` enable register.
    pub fn en_bits(&self) -> (r: u32)
        ensures
            r == self.en_spec(),
    {
        self.en
    }

    /// Read the modelled `APB2RST` reset register.
    pub fn rst_bits(&self) -> (r: u32)
        ensures
            r == self.rst_spec(),
    {
        self.rst
    }

    pub(crate) fn set_en(&mut self, index: usize, on: bool)
        requires
            index < 32,
        ensures
            on ==> final(self).en_spec() == (old(self).en_spec() | (1u32 << (index as u32))),
            !on ==> final(self).en_spec() == (old(self).en_spec() & !(1u32 << (index as u32))),
            final(self).rst_spec() == old(self).rst_spec(),
    {
        atomic_set_bit(&mut self.en, on, index);
    }

    /// A reset pulse through whole-register writes: the register holds only
    /// the pulsed bit for one write and is zero afterwards.
    pub(crate) fn pulse_rst_write(&mut self, index: usize)
        requires
            index < 32,
        ensures
            final(self).rst_spec() == 0,
            final(self).en_spec() == old(self).en_spec(),
    {
        self.rst = 1u32 << (index as u32);
        self.rst = 0;
    }

    /// A reset pulse through read-modify-write updates: every other bit of
    /// the register keeps its value and the pulsed bit ends cleared.
    pub(crate) fn pulse_rst_modify(&mut self, index: usize)
        requires
            index < 32,
        ensures
            final(self).rst_spec() == (old(self).rst_spec() & !(1u32 << (index as u32))),
            final(self).en_spec() == old(self).en_spec(),
    {
        atomic_set_bit(&mut self.rst, true, index);
        atomic_set_bit(&mut self.rst, false, index);
        proof {
            let i = index as u32;
            let x = old(self).rst;
            assert((x | (1u32 << i)) & !(1u32 << i) == x & !(1u32 << i)) by (bit_vector);
        }
    }
}

/// Opaque `BDCTL` register.
pub struct BDCTL {
    _ownership: (),
}

/// Clock configuration registers; constrains `CTL`, `CFG0` and `CFG1`.
///
/// The fields mirror the named register fields that the clock engine
/// commits; each is reachable through its own accessor so callers and tests
/// can observe exactly what was written.
pub struct CFG {
    irc8men: bool,
    irc8mstb: bool,
    hxtalen: bool,
    hxtalstb: bool,
    pllen: bool,
    pllstb: bool,
    scs: u8,
    ahbpsc: u8,
    apb1psc: u8,
    apb2psc: u8,
    adcpsc: u8,
    pllsel: bool,
    pllmf: u8,
    usbfspsc: u8,
    predv0: u8,
}

impl CFG {
    /// Internal oscillator enable bit.
    pub closed spec fn irc8men_spec(self) -> bool {
        self.irc8men
    }

    /// External oscillator enable bit.
    pub closed spec fn hxtalen_spec(self) -> bool {
        self.hxtalen
    }

    /// PLL enable bit.
    pub closed spec fn pllen_spec(self) -> bool {
        self.pllen
    }

    /// System clock source selector field.
    pub closed spec fn scs_spec(self) -> u8 {
        self.scs
    }

    /// AHB prescaler field.
    pub closed spec fn ahbpsc_spec(self) -> u8 {
        self.ahbpsc
    }

    /// APB1 prescaler field.
    pub closed spec fn apb1psc_spec(self) -> u8 {
        self.apb1psc
    }

    /// APB2 prescaler field.
    pub closed spec fn apb2psc_spec(self) -> u8 {
        self.apb2psc
    }

    /// ADC prescaler field (three bits).
    pub closed spec fn adcpsc_spec(self) -> u8 {
        self.adcpsc
    }

    /// PLL source selector bit: true selects the external oscillator path.
    pub closed spec fn pllsel_spec(self) -> bool {
        self.pllsel
    }

    /// PLL multiplier field (five bits).
    pub closed spec fn pllmf_spec(self) -> u8 {
        self.pllmf
    }

    /// USB prescaler field.
    pub closed spec fn usbfspsc_spec(self) -> u8 {
        self.usbfspsc
    }

    /// PLL input predivider field.
    pub closed spec fn predv0_spec(self) -> u8 {
        self.predv0
    }

    /// The chip-reset state of the clock configuration registers.
    pub open spec fn at_reset(self) -> bool {
        &&& self.irc8men_spec()
        &&& !self.hxtalen_spec()
        &&& !self.pllen_spec()
        &&& self.scs_spec() == 0
        &&& self.ahbpsc_spec() == 0
        &&& self.apb1psc_spec() == 0
        &&& self.apb2psc_spec() == 0
        &&& self.adcpsc_spec() == 0
        &&& !self.pllsel_spec()
        &&& self.pllmf_spec() == 0
        &&& self.usbfspsc_spec() == 0
        &&& self.predv0_spec() == 0
    }

    /// Read the system clock source selector field.
    pub fn scs(&self) -> (r: u8)
        ensures
            r == self.scs_spec(),
    {
        self.scs
    }

    /// Read the AHB prescaler field.
    pub fn ahbpsc(&self) -> (r: u8)
        ensures
            r == self.ahbpsc_spec(),
    {
        self.ahbpsc
    }

    /// Read the APB1 prescaler field.
    pub fn apb1psc(&self) -> (r: u8)
        ensures
            r == self.apb1psc_spec(),
    {
        self.apb1psc
    }

    /// Read the APB2 prescaler field.
    pub fn apb2psc(&self) -> (r: u8)
        ensures
            r == self.apb2psc_spec(),
    {
        self.apb2psc
    }

    /// Read the ADC prescaler field.
    pub fn adcpsc(&self) -> (r: u8)
        ensures
            r == self.adcpsc_spec(),
    {
        self.adcpsc
    }

    /// Read the PLL multiplier field.
    pub fn pllmf(&self) -> (r: u8)
        ensures
            r == self.pllmf_spec(),
    {
        self.pllmf
    }

    /// Read the PLL input predivider field.
    pub fn predv0(&self) -> (r: u8)
        ensures
            r == self.predv0_spec(),
    {
        self.predv0
    }

    /// Read the PLL enable bit.
    pub fn pllen(&self) -> (r: bool)
        ensures
            r == self.pllen_spec(),
    {
        self.pllen
    }

    /// Read the PLL source selector bit.
    pub fn pllsel(&self) -> (r: bool)
        ensures
            r == self.pllsel_spec(),
    {
        self.pllsel
    }

    /// Read the internal oscillator enable bit.
    pub fn irc8men(&self) -> (r: bool)
        ensures
            r == self.irc8men_spec(),
    {
        self.irc8men
    }

    /// Read the external oscillator enable bit.
    pub fn hxtalen(&self) -> (r: bool)
        ensures
            r == self.hxtalen_spec(),
    {
        self.hxtalen
    }

    /// Read the USB prescaler field.
    pub fn usbfspsc(&self) -> (r: u8)
        ensures
            r == self.usbfspsc_spec(),
    {
        self.usbfspsc
    }
}

/// The multiplier that a PLL multiplier field value stands for.
///
/// Field values 0 through 12 mean x2 through x14; 15 through 31 mean x16
/// through x32.  Value 13 is the special x6.5 slot and 14 is unused.
pub open spec fn pll_mul_of(code: int) -> int {
    if code <= 12 {
        code + 2
    } else {
        code + 1
    }
}

/// The PLL multiplier field values that stand for an integer multiplier.
pub open spec fn pll_code_in_range(code: int) -> bool {
    (0 <= code <= 12) || (15 <= code <= 31)
}

/// One exact predivider/multiplier pair: dividing the oscillator by `d` and
/// multiplying by `m` yields the target exactly.
pub open spec fn pll_match(h: int, t: int, d: int, m: int) -> bool {
    1 <= d <= 16 && 2 <= m <= 32 && m != 15 && m * h == t * d
}

/// The target frequency `t` is exactly reachable by the PLL from the given
/// oscillator: either through the special x6.5 multiplier or through an
/// integer predivider/multiplier pair.  Without an external oscillator the
/// PLL input is fixed at IRC8M / 2 and no predivider applies.
pub open spec fn pll_reachable(hx: Option<u32>, t: int) -> bool {
    match hx {
        Some(h) => 2 * t == 13 * h || (exists|d: int, m: int| pll_match(h as int, t, d, m)),
        None => 2 * t == 13 * (PLL_IRC8M_SRC_HZ as int) || (exists|m: int|
            pll_match(PLL_IRC8M_SRC_HZ as int, t, 1, m)),
    }
}

/// The committed PLL multiplier and predivider fields reproduce the target
/// frequency exactly from the chosen oscillator.
pub open spec fn pll_code_matches(hx: Option<u32>, t: int, code: int, predv: int) -> bool {
    let src: int = match hx {
        Some(h) => h as int,
        None => PLL_IRC8M_SRC_HZ as int,
    };
    ||| (code == 13 && 2 * t == 13 * src && predv == 0)
    ||| (pll_code_in_range(code) && 0 <= predv <= 15 && pll_mul_of(code) * src == t * (predv + 1)
        && (hx is None ==> predv == 0))
}

/// The AHB prescaler shifts that the hardware can encode: powers of two
/// from 1 to 512, with the divide-by-32 slot reserved.
pub open spec fn valid_ahb_shr(k: int) -> bool {
    0 <= k <= 9 && k != 5
}

/// Shift `k` is a valid AHB divider for this system/AHB frequency pair.
pub open spec fn ahb_match(sys: int, ahb: int, k: int) -> bool {
    valid_ahb_shr(k) && ahb * pow2(k as nat) == sys
}

/// Some valid power-of-two AHB divider reaches `ahb` from `sys` exactly.
pub open spec fn ahb_reachable(sys: int, ahb: int) -> bool {
    exists|k: int| ahb_match(sys, ahb, k)
}

/// Shift `k` (a divider of 1, 2, 4, 8 or 16) reaches `apb` from `ahb`.
pub open spec fn apb_match(ahb: int, apb: int, k: int) -> bool {
    0 <= k <= 4 && apb * pow2(k as nat) == ahb
}

/// Some APB divider in 1..=16 reaches `apb` from `ahb` exactly.
pub open spec fn apb_reachable(ahb: int, apb: int) -> bool {
    exists|k: int| apb_match(ahb, apb, k)
}

/// The ADC dividers the hardware offers.
pub open spec fn adc_div_ok(d: int) -> bool {
    d == 2 || d == 4 || d == 6 || d == 8 || d == 12 || d == 16
}

/// Some allowed ADC divider reaches `adc` from `apb2` exactly.
pub open spec fn adc_reachable(apb2: int, adc: int) -> bool {
    exists|d: int| #[trigger] adc_div_ok(d) && d * adc == apb2
}

/// The AHB prescaler field value that encodes shift `k` (the divide-by-32
/// slot is skipped, so codes 0b1100..=0b1111 stand for 64 through 512).
pub open spec fn ahb_code_of(k: int) -> int {
    if k == 0 {
        0b0111
    } else if k <= 4 {
        0b0111 + k
    } else {
        0b0110 + k
    }
}

/// The ADC prescaler field value that encodes divider `d`.
pub open spec fn adc_code_of(d: int) -> int {
    if d == 2 {
        0b000
    } else if d == 4 {
        0b001
    } else if d == 6 {
        0b010
    } else if d == 8 {
        0b011
    } else if d == 12 {
        0b101
    } else {
        0b111
    }
}

/// Configuration error: a requested frequency is not exactly reachable.
#[derive(Clone, Copy, Debug, PartialEq, Eq, Structural)]
pub enum ClockError {
    /// No exact prescaler, multiplier or divider setting reaches one of the
    /// requested frequencies.
    InvalidFrequency,
}

/// Frozen clock frequencies.
///
/// The existence of this value indicates that the core clock configuration
/// can no longer be changed.
#[derive(Clone, Copy, Debug)]
pub struct Clocks {
    ck_sys: Hertz,
    ahb_shr: u8,
    apb1_shr: u8,
    apb2_shr: u8,
    adc_div: u8,
    usb_valid: bool,
}

impl Clocks {
    /// Every frozen configuration carries encodable divider settings.
    #[verifier::type_invariant]
    pub closed spec fn wf(self) -> bool {
        &&& valid_ahb_shr(self.ahb_shr as int)
        &&& self.apb1_shr <= 4
        &&& self.apb2_shr <= 4
        &&& adc_div_ok(self.adc_div as int)
    }

    /// The frozen system clock frequency, in hertz.
    pub closed spec fn sys_spec(self) -> u32 {
        self.ck_sys.0
    }

    /// The committed AHB shift: the AHB clock is the system clock divided by
    /// two to this power.
    pub closed spec fn ahb_shr_spec(self) -> u8 {
        self.ahb_shr
    }

    /// The committed APB1 shift relative to the AHB clock.
    pub closed spec fn apb1_shr_spec(self) -> u8 {
        self.apb1_shr
    }

    /// The committed APB2 shift relative to the AHB clock.
    pub closed spec fn apb2_shr_spec(self) -> u8 {
        self.apb2_shr
    }

    /// The committed ADC divider relative to the APB2 clock.
    pub closed spec fn adc_div_spec(self) -> u8 {
        self.adc_div
    }

    /// Whether the frozen configuration yields a valid USB clock.
    pub closed spec fn usb_valid_spec(self) -> bool {
        self.usb_valid
    }

    /// The AHB clock frequency that the frozen shifts derive.
    pub open spec fn ahb_spec(self) -> u32 {
        self.sys_spec() >> (self.ahb_shr_spec() as u32)
    }

    /// The APB1 clock frequency that the frozen shifts derive.
    pub open spec fn apb1_spec(self) -> u32 {
        self.sys_spec() >> ((self.ahb_shr_spec() + self.apb1_shr_spec()) as u32)
    }

    /// The APB2 clock frequency that the frozen shifts derive.
    pub open spec fn apb2_spec(self) -> u32 {
        self.sys_spec() >> ((self.ahb_shr_spec() + self.apb2_shr_spec()) as u32)
    }

    /// The timer clock frequency: the APB2 clock, doubled whenever the APB2
    /// prescaler is not a divide-by-one.
    pub open spec fn timerx_spec(self) -> u32 {
        self.sys_spec() >> ((self.ahb_shr_spec() + self.apb2_shr_spec() - (
        if self.apb2_shr_spec() == 0 {
            0int
        } else {
            1int
        })) as u32)
    }

    /// The ADC clock frequency that the frozen settings derive.
    pub open spec fn adc_spec(self) -> int {
        (self.apb2_spec() as int) / (self.adc_div_spec() as int)
    }

    /// Returns the frequency of the system clock.
    pub fn ck_sys(&self) -> (r: Hertz)
        ensures
            r.0 == self.sys_spec(),
    {
        self.ck_sys
    }

    /// Returns the frequency of the AHB clock.
    pub fn ck_ahb(&self) -> (r: Hertz)
        ensures
            r.0 == self.ahb_spec(),
    {
        proof {
            use_type_invariant(self);
        }
        Hertz(self.ck_sys.0 >> (self.ahb_shr as u32))
    }

    /// Returns the frequency of the Advanced Peripheral Bus 1 clock.
    pub fn ck_apb1(&self) -> (r: Hertz)
        ensures
            r.0 == self.apb1_spec(),
    {
        proof {
            use_type_invariant(self);
        }
        Hertz(self.ck_sys.0 >> ((self.ahb_shr + self.apb1_shr) as u32))
    }

    /// Returns the frequency of the Advanced Peripheral Bus 2 clock.
    pub fn ck_apb2(&self) -> (r: Hertz)
        ensures
            r.0 == self.apb2_spec(),
    {
        proof {
            use_type_invariant(self);
        }
        Hertz(self.ck_sys.0 >> ((self.ahb_shr + self.apb2_shr) as u32))
    }

    /// Returns the frequency of the CK_TIMERx clock.
    pub fn ck_timerx(&self) -> (r: Hertz)
        ensures
            r.0 == self.timerx_spec(),
    {
        proof {
            use_type_invariant(self);
        }
        let adj: u8 = if self.apb2_shr == 0 {
            0
        } else {
            1
        };
        Hertz(self.ck_sys.0 >> ((self.ahb_shr + self.apb2_shr - adj) as u32))
    }

    /// Returns the frequency of the CK_ADCx clock.
    pub fn ck_adc(&self) -> (r: Hertz)
        ensures
            r.0 == self.adc_spec(),
    {
        proof {
            use_type_invariant(self);
        }
        Hertz((self.ck_sys.0 >> ((self.ahb_shr + self.apb2_shr) as u32)) / (self.adc_div as u32))
    }

    /// Returns whether the CK_USBFS clock frequency is valid for the USB peripheral.
    pub fn ck_usbfs_valid(&self) -> (r: bool)
        ensures
            r == self.usb_valid_spec(),
    {
        self.usb_valid
    }
}

/// Strict clock configurator.
///
/// This configurator only accepts strictly accurate values.  If the
/// available frequency settings cannot reproduce a requested value exactly,
/// `freeze` is not permitted and `try_freeze` reports a configuration
/// error; the engine never silently commits an approximation.
pub struct Strict {
    hxtal: Option<u32>,
    target_ck_sys: Option<u32>,
    target_ck_i2s: Option<u32>,
    target_ck_ahb: Option<u32>,
    target_ck_apb1: Option<u32>,
    target_ck_apb2: Option<u32>,
    target_ck_adc: Option<u32>,
}

impl Strict {
    /// Every stored target respects the hardware's frequency caps, and a
    /// stored value is never zero (a zero request clears the target).
    #[verifier::type_invariant]
    pub closed spec fn wf(self) -> bool {
        &&& (self.hxtal matches Some(h) ==> 4_000_000 <= h <= 32_000_000)
        &&& (self.target_ck_sys matches Some(f) ==> 1 <= f <= 108_000_000)
        &&& (self.target_ck_ahb matches Some(f) ==> 1 <= f <= 108_000_000)
        &&& (self.target_ck_apb1 matches Some(f) ==> 1 <= f <= 54_000_000)
        &&& (self.target_ck_apb2 matches Some(f) ==> 1 <= f <= 108_000_000)
        &&& (self.target_ck_adc matches Some(f) ==> 1 <= f <= 14_000_000)
    }

    /// The configured external oscillator frequency, if any.
    pub closed spec fn hxtal_spec(self) -> Option<u32> {
        self.hxtal
    }

    /// The requested system clock frequency, if any.
    pub closed spec fn target_sys_spec(self) -> Option<u32> {
        self.target_ck_sys
    }

    /// The requested I2S clock frequency, if any.
    pub closed spec fn target_i2s_spec(self) -> Option<u32> {
        self.target_ck_i2s
    }

    /// The requested AHB clock frequency, if any.
    pub closed spec fn target_ahb_spec(self) -> Option<u32> {
        self.target_ck_ahb
    }

    /// The requested APB1 clock frequency, if any.
    pub closed spec fn target_apb1_spec(self) -> Option<u32> {
        self.target_ck_apb1
    }

    /// The requested APB2 clock frequency, if any.
    pub closed spec fn target_apb2_spec(self) -> Option<u32> {
        self.target_ck_apb2
    }

    /// The requested ADC clock frequency, if any.
    pub closed spec fn target_adc_spec(self) -> Option<u32> {
        self.target_ck_adc
    }

    /// The effective system clock target: the request, or the internal
    /// oscillator frequency when nothing was requested.
    pub open spec fn eff_sys(self) -> int {
        match self.target_sys_spec() {
            Some(f) => f as int,
            None => IRC8M_HZ as int,
        }
    }

    /// The effective AHB target: the request, or the system clock.
    pub open spec fn eff_ahb(self) -> int {
        match self.target_ahb_spec() {
            Some(f) => f as int,
            None => self.eff_sys(),
        }
    }

    /// The effective APB1 target: the request, or half the AHB clock.
    pub open spec fn eff_apb1(self) -> int {
        match self.target_apb1_spec() {
            Some(f) => f as int,
            None => self.eff_ahb() / 2,
        }
    }

    /// The effective APB2 target: the request, or the AHB clock.
    pub open spec fn eff_apb2(self) -> int {
        match self.target_apb2_spec() {
            Some(f) => f as int,
            None => self.eff_ahb(),
        }
    }

    /// The effective ADC target: the request, or an eighth of the APB2 clock.
    pub open spec fn eff_adc(self) -> int {
        match self.target_adc_spec() {
            Some(f) => f as int,
            None => self.eff_apb2() / 8,
        }
    }

    /// The PLL is needed unless an oscillator supplies the system clock
    /// target directly.
    pub open spec fn uses_pll(self) -> bool {
        !(match self.hxtal_spec() {
            Some(h) => h == self.eff_sys(),
            None => self.eff_sys() == IRC8M_HZ as int,
        })
    }

    /// Every requested frequency is exactly reachable: this is precisely
    /// the condition under which freezing succeeds.
    pub open spec fn freeze_ok(self) -> bool {
        &&& (self.uses_pll() ==> pll_reachable(self.hxtal_spec(), self.eff_sys()))
        &&& ahb_reachable(self.eff_sys(), self.eff_ahb())
        &&& apb_reachable(self.eff_ahb(), self.eff_apb1())
        &&& apb_reachable(self.eff_ahb(), self.eff_apb2())
        &&& adc_reachable(self.eff_apb2(), self.eff_adc())
    }

    /// Whether the frozen USB clock would be valid: an external oscillator
    /// drives a PLL output of 48, 72 or 96 MHz.
    pub open spec fn usb_ok(self) -> bool {
        self.hxtal_spec() is Some && (self.eff_sys() == 48_000_000 || self.eff_sys()
            == 72_000_000 || self.eff_sys() == 96_000_000)
    }

    /// Create a configurator with no targets set.
    pub fn new() -> (r: Strict)
        ensures
            r.hxtal_spec() is None,
            r.target_sys_spec() is None,
            r.target_i2s_spec() is None,
            r.target_ahb_spec() is None,
            r.target_apb1_spec() is None,
            r.target_apb2_spec() is None,
            r.target_adc_spec() is None,
    {
        Strict {
            hxtal: None,
            target_ck_sys: None,
            target_ck_i2s: None,
            target_ck_ahb: None,
            target_ck_apb1: None,
            target_ck_apb2: None,
            target_ck_adc: None,
        }
    }

    /// Prefer the HXTAL external oscillator as the clock source.  Its
    /// frequency must lie in the supported 4 MHz to 32 MHz window.
    pub fn use_hxtal(self, freq: Hertz) -> (r: Self)
        requires
            4_000_000 <= freq.0 <= 32_000_000,
        ensures
            r.hxtal_spec() == Some(freq.0),
            r.target_sys_spec() == self.target_sys_spec(),
            r.target_i2s_spec() == self.target_i2s_spec(),
            r.target_ahb_spec() == self.target_ahb_spec(),
            r.target_apb1_spec() == self.target_apb1_spec(),
            r.target_apb2_spec() == self.target_apb2_spec(),
            r.target_adc_spec() == self.target_adc_spec(),
    {
        proof {
            use_type_invariant(&self);
        }
        Strict { hxtal: Some(freq.0), ..self }
    }

    /// Sets the desired frequency for the CK_SYS clock (at most 108 MHz);
    /// a zero request clears the target.
    pub fn ck_sys(self, freq: Hertz) -> (r: Self)
        requires
            freq.0 <= 108_000_000,
        ensures
            r.target_sys_spec() == (if freq.0 == 0 {
                Option::<u32>::None
            } else {
                Some(freq.0)
            }),
            r.hxtal_spec() == self.hxtal_spec(),
            r.target_i2s_spec() == self.target_i2s_spec(),
            r.target_ahb_spec() == self.target_ahb_spec(),
            r.target_apb1_spec() == self.target_apb1_spec(),
            r.target_apb2_spec() == self.target_apb2_spec(),
            r.target_adc_spec() == self.target_adc_spec(),
    {
        proof {
            use_type_invariant(&self);
        }
        let t: Option<u32> = if freq.0 == 0 {
            None
        } else {
            Some(freq.0)
        };
        Strict { target_ck_sys: t, ..self }
    }

    /// Sets the desired frequency for the CK_I2S clock; a zero request
    /// clears the target.  The I2S target does not take part in freezing.
    pub fn ck_i2s(self, freq: Hertz) -> (r: Self)
        ensures
            r.target_i2s_spec() == (if freq.0 == 0 {
                Option::<u32>::None
            } else {
                Some(freq.0)
            }),
            r.hxtal_spec() == self.hxtal_spec(),
            r.target_sys_spec() == self.target_sys_spec(),
            r.target_ahb_spec() == self.target_ahb_spec(),
            r.target_apb1_spec() == self.target_apb1_spec(),
            r.target_apb2_spec() == self.target_apb2_spec(),
            r.target_adc_spec() == self.target_adc_spec(),
    {
        proof {
            use_type_invariant(&self);
        }
        let t: Option<u32> = if freq.0 == 0 {
            None
        } else {
            Some(freq.0)
        };
        Strict { target_ck_i2s: t, ..self }
    }

    /// Sets the desired frequency for the CK_AHB clock (at most 108 MHz);
    /// a zero request clears the target.
    pub fn ck_ahb(self, freq: Hertz) -> (r: Self)
        requires
            freq.0 <= 108_000_000,
        ensures
            r.target_ahb_spec() == (if freq.0 == 0 {
                Option::<u32>::None
            } else {
                Some(freq.0)
            }),
            r.hxtal_spec() == self.hxtal_spec(),
            r.target_sys_spec() == self.target_sys_spec(),
            r.target_i2s_spec() == self.target_i2s_spec(),
            r.target_apb1_spec() == self.target_apb1_spec(),
            r.target_apb2_spec() == self.target_apb2_spec(),
            r.target_adc_spec() == self.target_adc_spec(),
    {
        proof {
            use_type_invariant(&self);
        }
        let t: Option<u32> = if freq.0 == 0 {
            None
        } else {
            Some(freq.0)
        };
        Strict { target_ck_ahb: t, ..self }
    }

    /// Sets the desired frequency for the CK_APB1 clock (at most 54 MHz);
    /// a zero request clears the target.
    pub fn ck_apb1(self, freq: Hertz) -> (r: Self)
        requires
            freq.0 <= 54_000_000,
        ensures
            r.target_apb1_spec() == (if freq.0 == 0 {
                Option::<u32>::None
            } else {
                Some(freq.0)
            }),
            r.hxtal_spec() == self.hxtal_spec(),
            r.target_sys_spec() == self.target_sys_spec(),
            r.target_i2s_spec() == self.target_i2s_spec(),
            r.target_ahb_spec() == self.target_ahb_spec(),
            r.target_apb2_spec() == self.target_apb2_spec(),
            r.target_adc_spec() == self.target_adc_spec(),
    {
        proof {
            use_type_invariant(&self);
        }
        let t: Option<u32> = if freq.0 == 0 {
            None
        } else {
            Some(freq.0)
        };
        Strict { target_ck_apb1: t, ..self }
    }

    /// Sets the desired frequency for the CK_APB2 clock (at most 108 MHz);
    /// a zero request clears the target.
    pub fn ck_apb2(self, freq: Hertz) -> (r: Self)
        requires
            freq.0 <= 108_000_000,
        ensures
            r.target_apb2_spec() == (if freq.0 == 0 {
                Option::<u32>::None
            } else {
                Some(freq.0)
            }),
            r.hxtal_spec() == self.hxtal_spec(),
            r.target_sys_spec() == self.target_sys_spec(),
            r.target_i2s_spec() == self.target_i2s_spec(),
            r.target_ahb_spec() == self.target_ahb_spec(),
            r.target_apb1_spec() == self.target_apb1_spec(),
            r.target_adc_spec() == self.target_adc_spec(),
    {
        proof {
            use_type_invariant(&self);
        }
        let t: Option<u32> = if freq.0 == 0 {
            None
        } else {
            Some(freq.0)
        };
        Strict { target_ck_apb2: t, ..self }
    }

    /// Sets the desired frequency for the CK_ADCx clock (at most 14 MHz);
    /// a zero request clears the target.
    pub fn ck_adc(self, freq: Hertz) -> (r: Self)
        requires
            freq.0 <= 14_000_000,
        ensures
            r.target_adc_spec() == (if freq.0 == 0 {
                Option::<u32>::None
            } else {
                Some(freq.0)
            }),
            r.hxtal_spec() == self.hxtal_spec(),
            r.target_sys_spec() == self.target_sys_spec(),
            r.target_i2s_spec() == self.target_i2s_spec(),
            r.target_ahb_spec() == self.target_ahb_spec(),
            r.target_apb1_spec() == self.target_apb1_spec(),
            r.target_apb2_spec() == self.target_apb2_spec(),
    {
        proof {
            use_type_invariant(&self);
        }
        let t: Option<u32> = if freq.0 == 0 {
            None
        } else {
            Some(freq.0)
        };
        Strict { target_ck_adc: t, ..self }
    }
}

impl Default for Strict {
    /// A configurator with no targets set.
    fn default() -> (r: Strict)
        ensures
            r.hxtal_spec() is None,
            r.target_sys_spec() is None,
            r.target_i2s_spec() is None,
            r.target_ahb_spec() is None,
            r.target_apb1_spec() is None,
            r.target_apb2_spec() is None,
            r.target_adc_spec() is None,
    {
        Strict::new()
    }
}

/// (Planned) precise clock configurator, which would commit the nearest
/// reachable frequencies instead of insisting on exact ones.
pub struct Precise {
    _reserved: (),
}

/// Search for an exact PLL predivider/multiplier pair from the external
/// oscillator.  Returns the multiplier field value and predivider field
/// value, or `None` when no exact setting exists.
fn calc_pll_hxtal(h: u32, t: u32) -> (r: Option<(u8, u8)>)
    requires
        4_000_000 <= h <= 32_000_000,
        1 <= t <= 108_000_000,
    ensures
        r is Some <==> pll_reachable(Some(h), t as int),
        r matches Some(cp) ==> pll_code_matches(Some(h), t as int, cp.0 as int, cp.1 as int),
{
    if 2 * t == 13 * h {
        return Some((13, 0));
    }
    let mut d: u32 = 1;
    while d <= 16
        invariant
            1 <= d <= 17,
            4_000_000 <= h <= 32_000_000,
            1 <= t <= 108_000_000,
            2 * (t as int) != 13 * (h as int),
            forall|dd: int, mm: int| 1 <= dd < d ==> !pll_match(h as int, t as int, dd, mm),
        decreases 17 - d,
    {
        let mut m: u32 = 2;
        while m <= 32
            invariant
                2 <= m <= 33,
                1 <= d <= 16,
                4_000_000 <= h <= 32_000_000,
                1 <= t <= 108_000_000,
                forall|mm: int| mm < m ==> !pll_match(h as int, t as int, d as int, mm),
            decreases 33 - m,
        {
            proof {
                assert((m as int) * (h as int) <= 1_024_000_000) by (nonlinear_arith)
                    requires
                        0 <= m <= 32,
                        0 <= h <= 32_000_000,
                ;
                assert((t as int) * (d as int) <= 1_728_000_000) by (nonlinear_arith)
                    requires
                        0 <= t <= 108_000_000,
                        0 <= d <= 16,
                ;
            }
            if m != 15 && m * h == t * d {
                proof {
                    assert(pll_match(h as int, t as int, d as int, m as int));
                }
                let code: u8 = if m <= 14 {
                    (m - 2) as u8
                } else {
                    (m - 1) as u8
                };
                return Some((code, (d - 1) as u8));
            }
            m += 1;
        }
        d += 1;
    }
    proof {
        assert forall|dd: int, mm: int| !pll_match(h as int, t as int, dd, mm) by {
            if 1 <= dd <= 16 {
                assert(!pll_match(h as int, t as int, dd, mm));
            }
        }
    }
    None
}

/// Search for an exact PLL multiplier from the internal oscillator path,
/// whose input is fixed at IRC8M / 2.
fn calc_pll_irc8m(t: u32) -> (r: Option<(u8, u8)>)
    requires
        1 <= t <= 108_000_000,
    ensures
        r is Some <==> pll_reachable(None, t as int),
        r matches Some(cp) ==> pll_code_matches(None, t as int, cp.0 as int, cp.1 as int),
{
    if 2 * t == 13 * PLL_IRC8M_SRC_HZ {
        return Some((13, 0));
    }
    let mut m: u32 = 2;
    while m <= 32
        invariant
            2 <= m <= 33,
            1 <= t <= 108_000_000,
            forall|mm: int| mm < m ==> !pll_match(PLL_IRC8M_SRC_HZ as int, t as int, 1, mm),
        decreases 33 - m,
    {
        if m != 15 && m * PLL_IRC8M_SRC_HZ == t {
            proof {
                assert(pll_match(PLL_IRC8M_SRC_HZ as int, t as int, 1, m as int));
            }
            let code: u8 = if m <= 14 {
                (m - 2) as u8
            } else {
                (m - 1) as u8
            };
            return Some((code, 0));
        }
        m += 1;
    }
    None
}

/// Search for an exact PLL setting for the chosen oscillator.
fn calc_pll(hx: Option<u32>, t: u32) -> (r: Option<(u8, u8)>)
    requires
        hx matches Some(h) ==> 4_000_000 <= h <= 32_000_000,
        1 <= t <= 108_000_000,
    ensures
        r is Some <==> pll_reachable(hx, t as int),
        r matches Some(cp) ==> pll_code_matches(hx, t as int, cp.0 as int, cp.1 as int),
{
    match hx {
        Some(h) => calc_pll_hxtal(h, t),
        None => calc_pll_irc8m(t),
    }
}

/// Search for the power-of-two AHB divider, skipping the reserved
/// divide-by-32 slot.  Returns the prescaler field value and the shift.
fn calc_ahb(sys: u32, ahb: u32) -> (r: Option<(u8, u8)>)
    ensures
        r is Some <==> ahb_reachable(sys as int, ahb as int),
        r matches Some(cs) ==> ahb_match(sys as int, ahb as int, cs.1 as int) && cs.0
            == ahb_code_of(cs.1 as int),
{
    let mut shr: u32 = 0;
    let mut cur: u64 = ahb as u64;
    proof {
        lemma2_to64();
    }
    while shr <= 9
        invariant
            shr <= 10,
            cur == (ahb as int) * pow2(shr as nat),
            cur <= (ahb as int) * 1024,
            forall|k: int| k < shr ==> !ahb_match(sys as int, ahb as int, k),
        decreases 10 - shr,
    {
        if shr != 5 && cur == sys as u64 {
            proof {
                assert(ahb_match(sys as int, ahb as int, shr as int));
            }
            let code: u8 = if shr == 0 {
                0b0111
            } else if shr <= 4 {
                (0b0111 + shr) as u8
            } else {
                (0b0110 + shr) as u8
            };
            return Some((code, shr as u8));
        }
        proof {
            lemma2_to64();
            lemma_pow2_adds(shr as nat, 1);
            assert(pow2((shr + 1) as nat) == pow2(shr as nat) * 2);
            assert(2 * ((ahb as int) * pow2(shr as nat)) == (ahb as int) * (pow2(shr as nat)
                * 2)) by (nonlinear_arith);
            if ((shr + 1) as nat) < 10 {
                lemma_pow2_strictly_increases((shr + 1) as nat, 10);
            }
            lemma_mul_inequality(pow2((shr + 1) as nat) as int, 1024, ahb as int);
            assert((ahb as int) * pow2((shr + 1) as nat) <= (ahb as int) * 1024)
                by (nonlinear_arith)
                requires
                    pow2((shr + 1) as nat) <= 1024,
                    ahb >= 0,
            ;
        }
        cur = cur * 2;
        shr += 1;
    }
    proof {
        assert forall|k: int| !ahb_match(sys as int, ahb as int, k) by {
            if 0 <= k < 10 {
                assert(!ahb_match(sys as int, ahb as int, k));
            }
        }
    }
    None
}

/// Search for the power-of-two APB divider (1, 2, 4, 8 or 16).  Returns
/// the prescaler field value and the shift.
fn calc_apb(ahb: u32, apb: u32) -> (r: Option<(u8, u8)>)
    ensures
        r is Some <==> apb_reachable(ahb as int, apb as int),
        r matches Some(cs) ==> apb_match(ahb as int, apb as int, cs.1 as int) && cs.0 == 0b011
            + cs.1,
{
    let mut shr: u32 = 0;
    let mut cur: u64 = apb as u64;
    proof {
        lemma2_to64();
    }
    while shr <= 4
        invariant
            shr <= 5,
            cur == (apb as int) * pow2(shr as nat),
            cur <= (apb as int) * 32,
            forall|k: int| k < shr ==> !apb_match(ahb as int, apb as int, k),
        decreases 5 - shr,
    {
        if cur == ahb as u64 {
            proof {
                assert(apb_match(ahb as int, apb as int, shr as int));
            }
            return Some(((0b011 + shr) as u8, shr as u8));
        }
        proof {
            lemma2_to64();
            lemma_pow2_adds(shr as nat, 1);
            assert(pow2((shr + 1) as nat) == pow2(shr as nat) * 2);
            assert(2 * ((apb as int) * pow2(shr as nat)) == (apb as int) * (pow2(shr as nat)
                * 2)) by (nonlinear_arith);
            if ((shr + 1) as nat) < 5 {
                lemma_pow2_strictly_increases((shr + 1) as nat, 5);
            }
            lemma_mul_inequality(pow2((shr + 1) as nat) as int, 32, apb as int);
            assert((apb as int) * pow2((shr + 1) as nat) <= (apb as int) * 32)
                by (nonlinear_arith)
                requires
                    pow2((shr + 1) as nat) <= 32,
                    apb >= 0,
            ;
        }
        cur = cur * 2;
        shr += 1;
    }
    proof {
        assert forall|k: int| !apb_match(ahb as int, apb as int, k) by {
            if 0 <= k < 5 {
                assert(!apb_match(ahb as int, apb as int, k));
            }
        }
    }
    None
}

/// Pick the ADC divider from the allowed set.  Returns the prescaler field
/// value and the divider.
fn calc_adc(apb2: u32, adc: u32) -> (r: Option<(u8, u8)>)
    requires
        adc <= 0x0FFF_FFFF,
    ensures
        r is Some <==> adc_reachable(apb2 as int, adc as int),
        r matches Some(cd) ==> adc_div_ok(cd.1 as int) && (cd.1 as int) * (adc as int)
            == apb2 as int && cd.0 == adc_code_of(cd.1 as int),
{
    let r: Option<(u8, u8)> = if 2 * adc == apb2 {
        Some((0b000, 2))
    } else if 4 * adc == apb2 {
        Some((0b001, 4))
    } else if 6 * adc == apb2 {
        Some((0b010, 6))
    } else if 8 * adc == apb2 {
        Some((0b011, 8))
    } else if 12 * adc == apb2 {
        Some((0b101, 12))
    } else if 16 * adc == apb2 {
        Some((0b111, 16))
    } else {
        None
    };
    proof {
        if r is Some {
            let d = r->Some_0.1 as int;
            assert(adc_div_ok(d) && d * (adc as int) == apb2 as int);
        } else {
            assert forall|d: int| !(#[trigger] adc_div_ok(d) && d * (adc as int)
                == apb2 as int) by {
                if adc_div_ok(d) {
                    assert(d * (adc as int) != apb2 as int);
                }
            }
        }
    }
    r
}

/// The register field values that one freeze commits.
struct ClockPlan {
    ck_sys: u32,
    scs: u8,
    use_pll: bool,
    has_hxtal: bool,
    pllmf: u8,
    predv0: u8,
    ahbpsc: u8,
    ahb_shr: u8,
    apb1psc: u8,
    apb1_shr: u8,
    apb2psc: u8,
    apb2_shr: u8,
    adcpsc: u8,
    adc_div: u8,
    usb_valid: bool,
    usbfspsc: u8,
}

/// The plan reproduces every effective target of the configurator exactly.
spec fn plan_matches(s: Strict, p: ClockPlan) -> bool {
    &&& p.ck_sys == s.eff_sys()
    &&& p.has_hxtal == (s.hxtal_spec() is Some)
    &&& p.use_pll == s.uses_pll()
    &&& p.scs == (if s.uses_pll() {
        2int
    } else if s.hxtal_spec() is Some {
        1int
    } else {
        0int
    })
    &&& (s.uses_pll() ==> pll_code_matches(s.hxtal_spec(), s.eff_sys(), p.pllmf as int,
        p.predv0 as int))
    &&& ahb_match(s.eff_sys(), s.eff_ahb(), p.ahb_shr as int)
    &&& p.ahbpsc == ahb_code_of(p.ahb_shr as int)
    &&& apb_match(s.eff_ahb(), s.eff_apb1(), p.apb1_shr as int)
    &&& p.apb1psc == 3 + p.apb1_shr
    &&& apb_match(s.eff_ahb(), s.eff_apb2(), p.apb2_shr as int)
    &&& p.apb2psc == 3 + p.apb2_shr
    &&& adc_div_ok(p.adc_div as int)
    &&& (p.adc_div as int) * s.eff_adc() == s.eff_apb2()
    &&& p.adcpsc == adc_code_of(p.adc_div as int)
    &&& p.usb_valid == s.usb_ok()
    &&& (p.has_hxtal ==> p.usbfspsc == (if s.eff_sys() == 48_000_000 {
        1int
    } else if s.eff_sys() == 96_000_000 {
        3int
    } else {
        0int
    }))
    &&& (!p.has_hxtal ==> p.usbfspsc == 0)
}

impl Strict {
    /// Compute every register field for this configuration, or nothing when
    /// some requested frequency is not exactly reachable.
    fn compute_plan(&self) -> (r: Option<ClockPlan>)
        ensures
            r is Some <==> self.freeze_ok(),
            r matches Some(p) ==> plan_matches(*self, p),
    {
        proof {
            use_type_invariant(self);
        }
        let t_sys: u32 = match self.target_ck_sys {
            Some(f) => f,
            None => IRC8M_HZ,
        };
        let t_ahb: u32 = match self.target_ck_ahb {
            Some(f) => f,
            None => t_sys,
        };
        let t_apb1: u32 = match self.target_ck_apb1 {
            Some(f) => f,
            None => t_ahb / 2,
        };
        let t_apb2: u32 = match self.target_ck_apb2 {
            Some(f) => f,
            None => t_ahb,
        };
        let t_adc: u32 = match self.target_ck_adc {
            Some(f) => f,
            None => t_apb2 / 8,
        };
        let has_hxtal = self.hxtal.is_some();
        let (scs, use_pll): (u8, bool) = match self.hxtal {
            Some(h) => if h == t_sys {
                (0b01, false)
            } else {
                (0b10, true)
            },
            None => if t_sys == IRC8M_HZ {
                (0b00, false)
            } else {
                (0b10, true)
            },
        };
        let (pllmf, predv0): (u8, u8) = if use_pll {
            match calc_pll(self.hxtal, t_sys) {
                Some(cp) => cp,
                None => {
                    return None;
                },
            }
        } else {
            (0, 0)
        };
        let (ahbpsc, ahb_shr): (u8, u8) = match calc_ahb(t_sys, t_ahb) {
            Some(cs) => cs,
            None => {
                return None;
            },
        };
        let (apb1psc, apb1_shr): (u8, u8) = match calc_apb(t_ahb, t_apb1) {
            Some(cs) => cs,
            None => {
                return None;
            },
        };
        let (apb2psc, apb2_shr): (u8, u8) = match calc_apb(t_ahb, t_apb2) {
            Some(cs) => cs,
            None => {
                return None;
            },
        };
        let (adcpsc, adc_div): (u8, u8) = match calc_adc(t_apb2, t_adc) {
            Some(cd) => cd,
            None => {
                return None;
            },
        };
        let (usb_valid, usbfspsc): (bool, u8) = if has_hxtal {
            if t_sys == 48_000_000 {
                (true, 0b01)
            } else if t_sys == 72_000_000 {
                (true, 0b00)
            } else if t_sys == 96_000_000 {
                (true, 0b11)
            } else {
                (false, 0)
            }
        } else {
            (false, 0)
        };
        Some(ClockPlan {
            ck_sys: t_sys,
            scs,
            use_pll,
            has_hxtal,
            pllmf,
            predv0,
            ahbpsc,
            ahb_shr,
            apb1psc,
            apb1_shr,
            apb2psc,
            apb2_shr,
            adcpsc,
            adc_div,
            usb_valid,
            usbfspsc,
        })
    }
}

/// Write the planned field values into the clock configuration registers.
///
/// On the hardware this step also busy-waits on the oscillator and PLL
/// stable flags after each enable; the modelled oscillators are stable as
/// soon as they are enabled, so the waits have no model counterpart and
/// are performed by the code driving the real register file.
fn commit_cfg(cfg: &mut CFG, p: &ClockPlan)
    ensures
        final(cfg).scs_spec() == p.scs,
        final(cfg).ahbpsc_spec() == p.ahbpsc,
        final(cfg).apb1psc_spec() == p.apb1psc,
        final(cfg).apb2psc_spec() == p.apb2psc,
        final(cfg).adcpsc_spec() == p.adcpsc,
        final(cfg).pllen_spec() == p.use_pll,
        p.use_pll ==> final(cfg).pllmf_spec() == p.pllmf && final(cfg).predv0_spec() == p.predv0
            && final(cfg).pllsel_spec() == p.has_hxtal,
        !p.has_hxtal ==> final(cfg).irc8men_spec(),
        p.has_hxtal ==> final(cfg).hxtalen_spec(),
        p.has_hxtal ==> final(cfg).usbfspsc_spec() == p.usbfspsc,
        !p.has_hxtal ==> final(cfg).usbfspsc_spec() == old(cfg).usbfspsc_spec(),
{
    if !p.has_hxtal {
        cfg.irc8men = true;
        cfg.irc8mstb = true;
    } else {
        cfg.hxtalen = true;
        cfg.hxtalstb = true;
    }
    if p.use_pll {
        cfg.pllsel = p.has_hxtal;
        cfg.pllmf = p.pllmf;
        cfg.predv0 = p.predv0;
        cfg.pllen = true;
        cfg.pllstb = true;
    } else {
        cfg.pllen = false;
    }
    cfg.scs = p.scs;
    if p.has_hxtal {
        cfg.usbfspsc = p.usbfspsc;
    }
    cfg.ahbpsc = p.ahbpsc;
    cfg.apb1psc = p.apb1psc;
    cfg.apb2psc = p.apb2psc;
    cfg.adcpsc = p.adcpsc;
}

/// A value assembled from `base` copies of a power of two is shifted back
/// down to `base`.
proof fn lemma_pow2_shift_cancel(base: int, k: nat, val: u32)
    requires
        base * pow2(k) == val,
        base >= 0,
        k < 32,
    ensures
        (val >> (k as u32)) == base,
{
    lemma_u32_shr_is_div(val, k as u32);
    lemma_pow2_pos(k);
    lemma_div_by_multiple(base, pow2(k) as int);
}

/// The committed shifts derive exactly the effective target frequencies.
proof fn lemma_clock_frequencies(s: Strict, p: ClockPlan, c: Clocks)
    requires
        plan_matches(s, p),
        c.sys_spec() == p.ck_sys,
        c.ahb_shr_spec() == p.ahb_shr,
        c.apb1_shr_spec() == p.apb1_shr,
        c.apb2_shr_spec() == p.apb2_shr,
        c.adc_div_spec() == p.adc_div,
    ensures
        c.ahb_spec() == s.eff_ahb(),
        c.apb1_spec() == s.eff_apb1(),
        c.apb2_spec() == s.eff_apb2(),
        c.adc_spec() == s.eff_adc(),
        c.apb2_shr_spec() == 0 ==> c.timerx_spec() == s.eff_apb2(),
        c.apb2_shr_spec() != 0 ==> c.timerx_spec() == 2 * s.eff_apb2(),
{
    let sys = s.eff_sys();
    let ahb = s.eff_ahb();
    let apb1 = s.eff_apb1();
    let apb2 = s.eff_apb2();
    let adc = s.eff_adc();
    let ka = p.ahb_shr as nat;
    let k1 = p.apb1_shr as nat;
    let k2 = p.apb2_shr as nat;
    lemma_pow2_pos(ka);
    lemma_pow2_pos(k1);
    lemma_pow2_pos(k2);
    assert(ahb >= 0 && apb1 >= 0 && apb2 >= 0 && adc >= 0);
    // AHB: ahb * 2^ka == sys.
    lemma_pow2_shift_cancel(ahb, ka, c.sys_spec());
    // APB1: apb1 * 2^(ka+k1) == sys.
    lemma_pow2_adds(k1, ka);
    assert((apb1 * pow2(k1)) * pow2(ka) == apb1 * (pow2(k1) * pow2(ka))) by (nonlinear_arith);
    assert(apb1 * pow2(k1 + ka) == sys);
    lemma_pow2_shift_cancel(apb1, k1 + ka, c.sys_spec());
    assert(c.apb1_spec() == apb1);
    // APB2: apb2 * 2^(ka+k2) == sys.
    lemma_pow2_adds(k2, ka);
    assert((apb2 * pow2(k2)) * pow2(ka) == apb2 * (pow2(k2) * pow2(ka))) by (nonlinear_arith);
    assert(apb2 * pow2(k2 + ka) == sys);
    lemma_pow2_shift_cancel(apb2, k2 + ka, c.sys_spec());
    assert(c.apb2_spec() == apb2);
    // Timer clock: doubled whenever the APB2 prescaler divides.
    if k2 != 0 {
        lemma_pow2_adds((k2 + ka - 1) as nat, 1);
        lemma2_to64();
        assert((2 * apb2) * pow2((k2 + ka - 1) as nat) == apb2 * (pow2((k2 + ka - 1) as nat)
            * 2)) by (nonlinear_arith);
        assert((2 * apb2) * pow2((k2 + ka - 1) as nat) == sys);
        lemma_pow2_shift_cancel(2 * apb2, (k2 + ka - 1) as nat, c.sys_spec());
    }
    // ADC: adc == apb2 / adc_div.
    assert(adc * (p.adc_div as int) == apb2);
    lemma_div_by_multiple(adc, p.adc_div as int);
    assert(c.adc_spec() == adc);
}

impl Strict {
    /// Calculate and commit the clock configuration, or report that some
    /// requested frequency is not exactly reachable.  On success every
    /// derived frequency of the returned snapshot equals its effective
    /// target exactly, and the committed register fields encode the chosen
    /// dividers; on failure the configuration registers are untouched.
    pub fn try_freeze(self, cfg: &mut CFG) -> (r: Result<Clocks, ClockError>)
        ensures
            r is Ok <==> self.freeze_ok(),
            r matches Ok(c) ==> {
                &&& c.wf()
                &&& c.sys_spec() == self.eff_sys()
                &&& c.ahb_spec() == self.eff_ahb()
                &&& c.apb1_spec() == self.eff_apb1()
                &&& c.apb2_spec() == self.eff_apb2()
                &&& c.adc_spec() == self.eff_adc()
                &&& c.usb_valid_spec() == self.usb_ok()
                &&& (c.apb2_shr_spec() == 0 ==> c.timerx_spec() == self.eff_apb2())
                &&& (c.apb2_shr_spec() != 0 ==> c.timerx_spec() == 2 * self.eff_apb2())
                &&& valid_ahb_shr(c.ahb_shr_spec() as int)
                &&& final(cfg).scs_spec() == (if self.uses_pll() {
                    2int
                } else if self.hxtal_spec() is Some {
                    1int
                } else {
                    0int
                })
                &&& final(cfg).ahbpsc_spec() == ahb_code_of(c.ahb_shr_spec() as int)
                &&& final(cfg).apb1psc_spec() == 3 + c.apb1_shr_spec()
                &&& final(cfg).apb2psc_spec() == 3 + c.apb2_shr_spec()
                &&& final(cfg).adcpsc_spec() == adc_code_of(c.adc_div_spec() as int)
                &&& final(cfg).pllen_spec() == self.uses_pll()
                &&& (self.uses_pll() ==> pll_code_matches(self.hxtal_spec(), self.eff_sys(),
                    final(cfg).pllmf_spec() as int, final(cfg).predv0_spec() as int))
                &&& (self.hxtal_spec() is Some ==> final(cfg).hxtalen_spec())
                &&& (self.hxtal_spec() is None ==> final(cfg).irc8men_spec())
            },
            r is Err ==> *final(cfg) == *old(cfg) && !self.freeze_ok() && r == Err::<Clocks,
                ClockError>(ClockError::InvalidFrequency),
    {
        match self.compute_plan() {
            Some(p) => {
                commit_cfg(cfg, &p);
                let c = Clocks {
                    ck_sys: Hertz(p.ck_sys),
                    ahb_shr: p.ahb_shr,
                    apb1_shr: p.apb1_shr,
                    apb2_shr: p.apb2_shr,
                    adc_div: p.adc_div,
                    usb_valid: p.usb_valid,
                };
                proof {
                    lemma_clock_frequencies(self, p, c);
                }
                Ok(c)
            },
            None => Err(ClockError::InvalidFrequency),
        }
    }

    /// Calculate and commit the clock configuration.
    ///
    /// This is the one-shot boot-time step: a configuration whose exact
    /// frequencies are not reachable is a programming error, so the caller
    /// must establish `freeze_ok` (use `try_freeze` to handle the failure
    /// as a value instead).
    pub fn freeze(self, cfg: &mut CFG) -> (c: Clocks)
        requires
            self.freeze_ok(),
        ensures
            c.wf(),
            c.sys_spec() == self.eff_sys(),
            c.ahb_spec() == self.eff_ahb(),
            c.apb1_spec() == self.eff_apb1(),
            c.apb2_spec() == self.eff_apb2(),
            c.adc_spec() == self.eff_adc(),
            c.usb_valid_spec() == self.usb_ok(),
            c.apb2_shr_spec() == 0 ==> c.timerx_spec() == self.eff_apb2(),
            c.apb2_shr_spec() != 0 ==> c.timerx_spec() == 2 * self.eff_apb2(),
            valid_ahb_shr(c.ahb_shr_spec() as int),
            final(cfg).ahbpsc_spec() == ahb_code_of(c.ahb_shr_spec() as int),
            final(cfg).apb1psc_spec() == 3 + c.apb1_shr_spec(),
            final(cfg).apb2psc_spec() == 3 + c.apb2_shr_spec(),
            final(cfg).adcpsc_spec() == adc_code_of(c.adc_div_spec() as int),
            final(cfg).pllen_spec() == self.uses_pll(),
            self.uses_pll() ==> pll_code_matches(self.hxtal_spec(), self.eff_sys(), final(
                cfg).pllmf_spec() as int, final(cfg).predv0_spec() as int),
            self.hxtal_spec() is Some ==> final(cfg).hxtalen_spec(),
            self.hxtal_spec() is None ==> final(cfg).irc8men_spec(),
    {
        match self.try_freeze(cfg) {
            Ok(c) => c,
            Err(_) => unreached(),
        }
    }
}

/// The committed AHB divider is never the reserved divide-by-32: shift
/// value five cannot appear in a frozen clock configuration.
pub proof fn lemma_ahb_divider_never_32(c: Clocks)
    requires
        c.wf(),
    ensures
        c.ahb_shr_spec() != 5,
        pow2(c.ahb_shr_spec() as nat) != 32,
{
    lemma2_to64();
    let k = c.ahb_shr_spec() as nat;
    if k < 5 {
        lemma_pow2_strictly_increases(k, 5);
    } else {
        lemma_pow2_strictly_increases(5, k);
    }
}

} // verus!
