//! Alternate Function I/O.
//!
//! Remap control for peripherals whose signals can move between pin
//! bundles; only the parts the serial interface needs are modelled.

use vstd::prelude::*;
use crate::rcu::APB2;

verus! {

/// The bit index of the AFIO clock enable in `APB2EN` and `APB2RST`.
pub const AFEN_BIT: usize = 0;

/// The raw alternate-function I/O register block.
pub struct AFIO {
    _ownership: (),
}

impl AFIO {
    /// Take the alternate-function I/O block at its reset state.
    pub fn new() -> AFIO {
        AFIO { _ownership: () }
    }
}

/// Extension trait that splits the `AFIO` peripheral.
pub trait AfioExt {
    /// Split the `AFIO` block into its register handles, gating its clock
    /// on through APB2 and pulsing its reset line.
    fn split(self, apb2: &mut APB2) -> Parts;
}

impl AfioExt for AFIO {
    fn split(self, apb2: &mut APB2) -> (parts: Parts)
        ensures
            final(apb2).en_spec() == (old(apb2).en_spec() | (1u32 << (AFEN_BIT as u32))),
            final(apb2).rst_spec() == (old(apb2).rst_spec() & !(1u32 << (AFEN_BIT as u32))),
            !parts.pcf0.usart0_remap_spec(),
    {
        apb2.set_en(AFEN_BIT, true);
        apb2.pulse_rst_modify(AFEN_BIT);
        Parts {
            ec: EC { _ownership: () },
            pcf0: PCF0 { usart0_remap: false },
            pcf1: PCF1 { _ownership: () },
        }
    }
}

/// `AFIO` parts.
pub struct Parts {
    /// Event output control register.
    pub ec: EC,
    /// Port configuration register 0.
    pub pcf0: PCF0,
    /// Port configuration register 1.
    pub pcf1: PCF1,
}

/// Opaque event output control register.
pub struct EC {
    _ownership: (),
}

/// Opaque `PCF0` register: holds the serial remap selection.
pub struct PCF0 {
    usart0_remap: bool,
}

impl PCF0 {
    /// Whether the USART0 pins are remapped.
    pub closed spec fn usart0_remap_spec(self) -> bool {
        self.usart0_remap
    }

    /// Whether the USART0 pins are remapped.
    pub fn usart0_remap(&self) -> (r: bool)
        ensures
            r == self.usart0_remap_spec(),
    {
        self.usart0_remap
    }

    pub(crate) fn set_usart0_remap(&mut self, on: bool)
        ensures
            final(self).usart0_remap_spec() == on,
    {
        self.usart0_remap = on;
    }
}

/// Opaque `PCF1` register.
pub struct PCF1 {
    _ownership: (),
}

} // verus!
