//! Measurement units used throughout the clock, timer and serial interfaces.

use vstd::prelude::*;

verus! {

/// Hertz
#[derive(Clone, Copy, PartialEq, Eq, Structural, Debug)]
pub struct Hertz(pub u32);

/// Kilohertz
#[derive(Clone, Copy, PartialEq, Eq, Structural, Debug)]
pub struct KiloHertz(pub u32);

/// Megahertz
#[derive(Clone, Copy, PartialEq, Eq, Structural, Debug)]
pub struct MegaHertz(pub u32);

/// Milliseconds
#[derive(Clone, Copy, PartialEq, Eq, Structural, Debug)]
pub struct MilliSeconds(pub u32);

/// Microseconds
#[derive(Clone, Copy, PartialEq, Eq, Structural, Debug)]
pub struct MicroSeconds(pub u32);

/// Bits per second
#[derive(Clone, Copy, PartialEq, Eq, Structural, Debug)]
pub struct Bps(pub u32);

/// Extension trait that adds convenient wrapping methods to the `u32` type.
pub trait U32Ext {
    /// Wrap in `Hertz`
    fn hz(self) -> Hertz;

    /// Wrap in `KiloHertz`
    fn khz(self) -> KiloHertz;

    /// Wrap in `MegaHertz`
    fn mhz(self) -> MegaHertz;

    /// Wrap in `MilliSeconds`
    fn ms(self) -> MilliSeconds;

    /// Wrap in `MicroSeconds`
    fn us(self) -> MicroSeconds;

    /// Wrap in `Bps`
    fn bps(self) -> Bps;
}

impl U32Ext for u32 {
    fn hz(self) -> (r: Hertz)
        ensures
            r.0 == self,
    {
        Hertz(self)
    }

    fn khz(self) -> (r: KiloHertz)
        ensures
            r.0 == self,
    {
        KiloHertz(self)
    }

    fn mhz(self) -> (r: MegaHertz)
        ensures
            r.0 == self,
    {
        MegaHertz(self)
    }

    fn ms(self) -> (r: MilliSeconds)
        ensures
            r.0 == self,
    {
        MilliSeconds(self)
    }

    fn us(self) -> (r: MicroSeconds)
        ensures
            r.0 == self,
    {
        MicroSeconds(self)
    }

    fn bps(self) -> (r: Bps)
        ensures
            r.0 == self,
    {
        Bps(self)
    }
}

/// A kilohertz value names the same frequency in hertz; the conversion
/// saturates at `u32::MAX` where the product would overflow.
impl From<KiloHertz> for Hertz {
    fn from(k: KiloHertz) -> (r: Hertz) {
        Hertz(if k.0 <= 0xFFFF_FFFFu32 / 1000 {
            k.0 * 1000
        } else {
            u32::MAX
        })
    }
}

impl vstd::std_specs::convert::FromSpecImpl<KiloHertz> for Hertz {
    open spec fn obeys_from_spec() -> bool {
        true
    }

    open spec fn from_spec(k: KiloHertz) -> Hertz {
        Hertz(if k.0 * 1000 <= u32::MAX { (k.0 * 1000) as u32 } else { u32::MAX })
    }
}

/// A megahertz value names the same frequency in hertz; the conversion
/// saturates at `u32::MAX` where the product would overflow.
impl From<MegaHertz> for Hertz {
    fn from(m: MegaHertz) -> (r: Hertz) {
        Hertz(if m.0 <= 0xFFFF_FFFFu32 / 1_000_000 {
            m.0 * 1_000_000
        } else {
            u32::MAX
        })
    }
}

impl vstd::std_specs::convert::FromSpecImpl<MegaHertz> for Hertz {
    open spec fn obeys_from_spec() -> bool {
        true
    }

    open spec fn from_spec(m: MegaHertz) -> Hertz {
        Hertz(if m.0 * 1_000_000 <= u32::MAX { (m.0 * 1_000_000) as u32 } else { u32::MAX })
    }
}

/// A megahertz value names the same frequency in kilohertz; the conversion
/// saturates at `u32::MAX` where the product would overflow.
impl From<MegaHertz> for KiloHertz {
    fn from(m: MegaHertz) -> (r: KiloHertz) {
        KiloHertz(if m.0 <= 0xFFFF_FFFFu32 / 1000 {
            m.0 * 1000
        } else {
            u32::MAX
        })
    }
}

impl vstd::std_specs::convert::FromSpecImpl<MegaHertz> for KiloHertz {
    open spec fn obeys_from_spec() -> bool {
        true
    }

    open spec fn from_spec(m: MegaHertz) -> KiloHertz {
        KiloHertz(if m.0 * 1000 <= u32::MAX { (m.0 * 1000) as u32 } else { u32::MAX })
    }
}

/// A milliseconds value names the same duration in microseconds; the
/// conversion saturates at `u32::MAX` where the product would overflow.
impl From<MilliSeconds> for MicroSeconds {
    fn from(ms: MilliSeconds) -> (r: MicroSeconds) {
        MicroSeconds(if ms.0 <= 0xFFFF_FFFFu32 / 1000 {
            ms.0 * 1000
        } else {
            u32::MAX
        })
    }
}

impl vstd::std_specs::convert::FromSpecImpl<MilliSeconds> for MicroSeconds {
    open spec fn obeys_from_spec() -> bool {
        true
    }

    open spec fn from_spec(ms: MilliSeconds) -> MicroSeconds {
        MicroSeconds(if ms.0 * 1000 <= u32::MAX { (ms.0 * 1000) as u32 } else { u32::MAX })
    }
}

} // verus!
