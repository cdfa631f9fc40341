//! Serial Peripheral Interface (SPI) bus.
//!
//! Full-duplex master mode: the bus clock is divided down to the closest
//! configured prescaler bracket, the owned pins select the signal roles at
//! the type level, and data moves byte by byte through non-blocking reads
//! and writes.

use vstd::prelude::*;
use crate::gpio::{Alternate, Floating, Input, Output, Pin, PushPull, PA, PB};
use crate::nonblocking::NbResult;
use crate::rcu::{Clocks, APB1, APB2};
use crate::unit::Hertz;

verus! {

/// The bit index of the SPI0 clock enable in `APB2EN`.
pub const SPI0EN_BIT: usize = 12;

/// The bit index of the SPI1 clock enable in `APB1EN`.
pub const SPI1EN_BIT: usize = 14;

/// The bit index of the SPI2 clock enable in `APB1EN`.
pub const SPI2EN_BIT: usize = 15;

/// Clock polarity between frames.
#[derive(Clone, Copy, Debug, PartialEq, Eq, Structural)]
pub enum Polarity {
    /// The clock idles low.
    IdleLow,
    /// The clock idles high.
    IdleHigh,
}

/// Clock phase within a frame.
#[derive(Clone, Copy, Debug, PartialEq, Eq, Structural)]
pub enum Phase {
    /// Data is captured on the first clock transition.
    CaptureOnFirstTransition,
    /// Data is captured on the second clock transition.
    CaptureOnSecondTransition,
}

/// SPI mode: a polarity and phase pair.
#[derive(Clone, Copy, Debug, PartialEq, Eq, Structural)]
pub struct Mode {
    /// Clock polarity.
    pub polarity: Polarity,
    /// Clock phase.
    pub phase: Phase,
}

/// SPI error.
#[derive(Clone, Copy, Debug, PartialEq, Eq, Structural)]
pub enum Error {
    /// Configuration fault error.
    ConfigFault,
    /// Rx overrun error.
    ReceiveOverrun,
    /// TI mode format error.
    Format,
    /// CRC error.
    Crc,
}

/// The prescaler field committed for a bus-clock to target-frequency
/// ratio: each three-bit code selects a power-of-two divider, and a ratio
/// beyond the brackets falls to the largest divider.
pub open spec fn spi_prescaler_spec(ratio: int) -> int {
    if ratio == 2 {
        0b000
    } else if 4 <= ratio <= 5 {
        0b001
    } else if 8 <= ratio <= 11 {
        0b010
    } else if 16 <= ratio <= 23 {
        0b011
    } else if 32 <= ratio <= 39 {
        0b100
    } else if 64 <= ratio <= 95 {
        0b101
    } else if 128 <= ratio <= 191 {
        0b110
    } else {
        0b111
    }
}

/// Compute the prescaler field for a bus-clock to target-frequency ratio;
/// a zero ratio (a target above the bus clock) is a programming error.
pub fn spi_prescaler(ratio: u32) -> (r: u8)
    requires
        ratio >= 1,
    ensures
        r == spi_prescaler_spec(ratio as int),
{
    if ratio == 2 {
        0b000
    } else if 4 <= ratio && ratio <= 5 {
        0b001
    } else if 8 <= ratio && ratio <= 11 {
        0b010
    } else if 16 <= ratio && ratio <= 23 {
        0b011
    } else if 32 <= ratio && ratio <= 39 {
        0b100
    } else if 64 <= ratio && ratio <= 95 {
        0b101
    } else if 128 <= ratio && ratio <= 191 {
        0b110
    } else {
        0b111
    }
}

/// The modelled control and status state of one SPI instance.
pub struct SpiRegs {
    spien: bool,
    mstmod: bool,
    psc: u8,
    ckpl: bool,
    ckph: bool,
    nssdrv: bool,
    tbe: bool,
    rbne: bool,
    rx: u8,
    sent: Vec<u8>,
}

impl SpiRegs {
    /// Whether the interface is enabled.
    pub closed spec fn spien_spec(self) -> bool {
        self.spien
    }

    /// Whether master mode is selected.
    pub closed spec fn mstmod_spec(self) -> bool {
        self.mstmod
    }

    /// The committed prescaler field.
    pub closed spec fn psc_spec(self) -> u8 {
        self.psc
    }

    /// The committed clock polarity bit.
    pub closed spec fn ckpl_spec(self) -> bool {
        self.ckpl
    }

    /// The committed clock phase bit.
    pub closed spec fn ckph_spec(self) -> bool {
        self.ckph
    }

    /// Whether the hardware drives the NSS pin.
    pub closed spec fn nssdrv_spec(self) -> bool {
        self.nssdrv
    }

    /// Whether the transmit buffer is empty.
    pub closed spec fn tbe_spec(self) -> bool {
        self.tbe
    }

    /// Whether the receive buffer holds a byte.
    pub closed spec fn rbne_spec(self) -> bool {
        self.rbne
    }

    /// The byte the receiver latched.
    pub closed spec fn rx_spec(self) -> u8 {
        self.rx
    }

    /// Every byte pushed into the data register so far.
    pub closed spec fn sent_spec(self) -> Seq<u8> {
        self.sent@
    }

    /// A register block at its reset state.
    pub fn new() -> (r: SpiRegs)
        ensures
            !r.spien_spec(),
            r.tbe_spec(),
            !r.rbne_spec(),
            r.sent_spec() === Seq::<u8>::empty(),
    {
        SpiRegs {
            spien: false,
            mstmod: false,
            psc: 0,
            ckpl: false,
            ckph: false,
            nssdrv: false,
            tbe: true,
            rbne: false,
            rx: 0,
            sent: Vec::new(),
        }
    }

    /// The transmitted byte log.
    pub fn sent_bytes(&self) -> (r: &Vec<u8>)
        ensures
            r@ === self.sent_spec(),
    {
        &self.sent
    }

    /// Record the transfer state as sampled from the hardware status and
    /// data registers.
    pub fn set_transfer_status(&mut self, tbe: bool, rbne: bool, rx: u8)
        ensures
            final(self).tbe_spec() == tbe,
            final(self).rbne_spec() == rbne,
            final(self).rx_spec() == rx,
            final(self).spien_spec() == old(self).spien_spec(),
            final(self).mstmod_spec() == old(self).mstmod_spec(),
            final(self).psc_spec() == old(self).psc_spec(),
            final(self).ckpl_spec() == old(self).ckpl_spec(),
            final(self).ckph_spec() == old(self).ckph_spec(),
            final(self).sent_spec() === old(self).sent_spec(),
    {
        self.tbe = tbe;
        self.rbne = rbne;
        self.rx = rx;
    }
}

/// The raw SPI0 register block.
pub struct SPI0 {
    /// The instance's registers.
    pub regs: SpiRegs,
}

impl SPI0 {
    /// Take the SPI0 block at its reset state.
    pub fn new() -> (r: SPI0)
        ensures
            !r.regs.spien_spec(),
            r.regs.tbe_spec(),
            !r.regs.rbne_spec(),
            r.regs.sent_spec() === Seq::<u8>::empty(),
    {
        SPI0 { regs: SpiRegs::new() }
    }
}

/// The raw SPI1 register block.
pub struct SPI1 {
    /// The instance's registers.
    pub regs: SpiRegs,
}

impl SPI1 {
    /// Take the SPI1 block at its reset state.
    pub fn new() -> (r: SPI1)
        ensures
            !r.regs.spien_spec(),
            r.regs.tbe_spec(),
            !r.regs.rbne_spec(),
            r.regs.sent_spec() === Seq::<u8>::empty(),
    {
        SPI1 { regs: SpiRegs::new() }
    }
}

/// The raw SPI2 register block.
pub struct SPI2 {
    /// The instance's registers.
    pub regs: SpiRegs,
}

impl SPI2 {
    /// Take the SPI2 block at its reset state.
    pub fn new() -> (r: SPI2)
        ensures
            !r.regs.spien_spec(),
            r.regs.tbe_spec(),
            !r.regs.rbne_spec(),
            r.regs.sent_spec() === Seq::<u8>::empty(),
    {
        SPI2 { regs: SpiRegs::new() }
    }
}

/// Marker for pins that can carry an instance's clock signal.
pub trait SckPin<SPI> {

}

/// Marker for pins that can carry an instance's master-in signal.
pub trait MisoPin<SPI> {

}

/// Marker for pins that can carry an instance's master-out signal.
pub trait MosiPin<SPI> {

}

/// Marker for pins that can carry an instance's slave-select signal.
pub trait NssPin<SPI> {

}

impl SckPin<SPI0> for Pin<PA, Alternate<PushPull>> {

}

impl MisoPin<SPI0> for Pin<PA, Input<Floating>> {

}

impl MosiPin<SPI0> for Pin<PA, Alternate<PushPull>> {

}

impl NssPin<SPI0> for Pin<PA, Alternate<PushPull>> {

}

impl NssPin<SPI0> for Pin<PA, Output<PushPull>> {

}

impl SckPin<SPI1> for Pin<PB, Alternate<PushPull>> {

}

impl MisoPin<SPI1> for Pin<PB, Input<Floating>> {

}

impl MosiPin<SPI1> for Pin<PB, Alternate<PushPull>> {

}

impl NssPin<SPI1> for Pin<PB, Alternate<PushPull>> {

}

impl NssPin<SPI1> for Pin<PB, Output<PushPull>> {

}

impl SckPin<SPI2> for Pin<PB, Alternate<PushPull>> {

}

impl MisoPin<SPI2> for Pin<PB, Input<Floating>> {

}

impl MosiPin<SPI2> for Pin<PB, Alternate<PushPull>> {

}

impl NssPin<SPI2> for Pin<PA, Alternate<PushPull>> {

}

impl NssPin<SPI2> for Pin<PA, Output<PushPull>> {

}

/// SPI object that drives a full-duplex master-mode bus.
pub struct Spi<SPI, PINS> {
    spi: SPI,
    pins: PINS,
}

/// Configure one instance's registers for full-duplex master mode.
fn configure_master(regs: &mut SpiRegs, psc: u8, mode: Mode)
    ensures
        final(regs).spien_spec(),
        final(regs).mstmod_spec(),
        final(regs).psc_spec() == psc,
        final(regs).ckpl_spec() == (mode.polarity is IdleHigh),
        final(regs).ckph_spec() == (mode.phase is CaptureOnSecondTransition),
        !final(regs).nssdrv_spec(),
        final(regs).sent_spec() === old(regs).sent_spec(),
        final(regs).tbe_spec() == old(regs).tbe_spec(),
        final(regs).rbne_spec() == old(regs).rbne_spec(),
        final(regs).rx_spec() == old(regs).rx_spec(),
{
    // Disable while configuring, let the application drive NSS, then
    // commit the eight-bit master-mode frame settings and re-enable.
    regs.spien = false;
    regs.nssdrv = false;
    regs.psc = psc;
    regs.ckpl = matches!(mode.polarity, Polarity::IdleHigh);
    regs.ckph = matches!(mode.phase, Phase::CaptureOnSecondTransition);
    regs.mstmod = true;
    regs.spien = true;
}

impl<SCK, MISO, MOSI, NSS> Spi<SPI0, (SCK, MISO, MOSI, NSS)> {
    /// The wrapped register block.
    pub closed spec fn spi_spec(self) -> SPI0 {
        self.spi
    }

    /// Configure SPI0 to operate in full-duplex master mode at the closest
    /// prescaler bracket for the requested frequency, which must not
    /// exceed the APB2 clock.
    pub fn spi0(spi: SPI0, pins: (SCK, MISO, MOSI, NSS), mode: Mode, freq: Hertz,
        clocks: Clocks, apb: &mut APB2) -> (r: Spi<SPI0, (SCK, MISO, MOSI, NSS)>) where
        SCK: SckPin<SPI0>,
        MISO: MisoPin<SPI0>,
        MOSI: MosiPin<SPI0>,
        NSS: NssPin<SPI0>,

        requires
            freq.0 >= 1,
            clocks.apb2_spec() >= freq.0,
        ensures
            r.spi_spec().regs.spien_spec(),
            r.spi_spec().regs.mstmod_spec(),
            r.spi_spec().regs.psc_spec() == spi_prescaler_spec(
                clocks.apb2_spec() as int / freq.0 as int,
            ),
            r.spi_spec().regs.ckpl_spec() == (mode.polarity is IdleHigh),
            r.spi_spec().regs.ckph_spec() == (mode.phase is CaptureOnSecondTransition),
            r.spi_spec().regs.sent_spec() === spi.regs.sent_spec(),
            final(apb).en_spec() == (old(apb).en_spec() | (1u32 << (SPI0EN_BIT as u32))),
    {
        let mut spi = spi;
        let ratio: u32 = clocks.ck_apb2().0 / freq.0;
        proof {
            assert((clocks.apb2_spec() as int) / (freq.0 as int) >= 1) by (nonlinear_arith)
                requires
                    clocks.apb2_spec() >= freq.0,
                    freq.0 >= 1,
            ;
        }
        let psc = spi_prescaler(ratio);
        apb.set_en(SPI0EN_BIT, true);
        configure_master(&mut spi.regs, psc, mode);
        Spi { spi, pins }
    }

    /// Release the SPI peripheral and its pins.
    pub fn free(self) -> (r: (SPI0, (SCK, MISO, MOSI, NSS)))
        ensures
            r.0 == self.spi_spec(),
    {
        (self.spi, self.pins)
    }

    /// Record the transfer state as sampled from the hardware status and
    /// data registers.
    pub fn sample_transfer_status(&mut self, tbe: bool, rbne: bool, rx: u8)
        ensures
            final(self).spi_spec().regs.tbe_spec() == tbe,
            final(self).spi_spec().regs.rbne_spec() == rbne,
            final(self).spi_spec().regs.rx_spec() == rx,
            final(self).spi_spec().regs.spien_spec() == old(self).spi_spec().regs.spien_spec(),
            final(self).spi_spec().regs.psc_spec() == old(self).spi_spec().regs.psc_spec(),
            final(self).spi_spec().regs.sent_spec() === old(self).spi_spec().regs.sent_spec(),
    {
        self.spi.regs.set_transfer_status(tbe, rbne, rx);
    }

    /// Attempt to read the latched receive byte: ready exactly when the
    /// receive buffer is full.
    pub fn try_read(&mut self) -> (r: NbResult<u8, Error>)
        ensures
            *final(self) == *old(self),
            old(self).spi_spec().regs.rbne_spec() ==> r == NbResult::<u8, Error>::Ready(
                old(self).spi_spec().regs.rx_spec(),
            ),
            !old(self).spi_spec().regs.rbne_spec() ==> r is WouldBlock,
            !(r is Fault),
    {
        if self.spi.regs.rbne {
            NbResult::Ready(self.spi.regs.rx)
        } else {
            NbResult::WouldBlock
        }
    }

    /// Attempt to transmit one byte: accepted exactly when the transmit
    /// buffer is empty.
    pub fn try_send(&mut self, byte: u8) -> (r: NbResult<(), Error>)
        ensures
            ({
                let o = old(self).spi_spec().regs;
                let n = final(self).spi_spec().regs;
                &&& (o.tbe_spec() ==> r is Ready && n.sent_spec() === o.sent_spec().push(byte))
                &&& (!o.tbe_spec() ==> r is WouldBlock && *final(self) == *old(self))
                &&& !(r is Fault)
                &&& n.spien_spec() == o.spien_spec()
                &&& n.mstmod_spec() == o.mstmod_spec()
                &&& n.psc_spec() == o.psc_spec()
                &&& n.ckpl_spec() == o.ckpl_spec()
                &&& n.ckph_spec() == o.ckph_spec()
                &&& n.tbe_spec() == o.tbe_spec()
                &&& n.rbne_spec() == o.rbne_spec()
                &&& n.rx_spec() == o.rx_spec()
            }),
    {
        if self.spi.regs.tbe {
            self.spi.regs.sent.push(byte);
            NbResult::Ready(())
        } else {
            NbResult::WouldBlock
        }
    }
}

impl<SCK, MISO, MOSI, NSS> Spi<SPI1, (SCK, MISO, MOSI, NSS)> {
    /// The wrapped register block.
    pub closed spec fn spi_spec(self) -> SPI1 {
        self.spi
    }

    /// Configure SPI1 to operate in full-duplex master mode at the closest
    /// prescaler bracket for the requested frequency, which must not
    /// exceed the APB1 clock.
    pub fn spi1(spi: SPI1, pins: (SCK, MISO, MOSI, NSS), mode: Mode, freq: Hertz,
        clocks: Clocks, apb: &mut APB1) -> (r: Spi<SPI1, (SCK, MISO, MOSI, NSS)>) where
        SCK: SckPin<SPI1>,
        MISO: MisoPin<SPI1>,
        MOSI: MosiPin<SPI1>,
        NSS: NssPin<SPI1>,

        requires
            freq.0 >= 1,
            clocks.apb1_spec() >= freq.0,
        ensures
            r.spi_spec().regs.spien_spec(),
            r.spi_spec().regs.mstmod_spec(),
            r.spi_spec().regs.psc_spec() == spi_prescaler_spec(
                clocks.apb1_spec() as int / freq.0 as int,
            ),
            r.spi_spec().regs.ckpl_spec() == (mode.polarity is IdleHigh),
            r.spi_spec().regs.ckph_spec() == (mode.phase is CaptureOnSecondTransition),
            r.spi_spec().regs.sent_spec() === spi.regs.sent_spec(),
            final(apb).en_spec() == (old(apb).en_spec() | (1u32 << (SPI1EN_BIT as u32))),
    {
        let mut spi = spi;
        let ratio: u32 = clocks.ck_apb1().0 / freq.0;
        proof {
            assert((clocks.apb1_spec() as int) / (freq.0 as int) >= 1) by (nonlinear_arith)
                requires
                    clocks.apb1_spec() >= freq.0,
                    freq.0 >= 1,
            ;
        }
        let psc = spi_prescaler(ratio);
        apb.set_en(SPI1EN_BIT, true);
        configure_master(&mut spi.regs, psc, mode);
        Spi { spi, pins }
    }

    /// Release the SPI peripheral and its pins.
    pub fn free(self) -> (r: (SPI1, (SCK, MISO, MOSI, NSS)))
        ensures
            r.0 == self.spi_spec(),
    {
        (self.spi, self.pins)
    }

    /// Attempt to read the latched receive byte: ready exactly when the
    /// receive buffer is full.
    pub fn try_read(&mut self) -> (r: NbResult<u8, Error>)
        ensures
            *final(self) == *old(self),
            old(self).spi_spec().regs.rbne_spec() ==> r == NbResult::<u8, Error>::Ready(
                old(self).spi_spec().regs.rx_spec(),
            ),
            !old(self).spi_spec().regs.rbne_spec() ==> r is WouldBlock,
            !(r is Fault),
    {
        if self.spi.regs.rbne {
            NbResult::Ready(self.spi.regs.rx)
        } else {
            NbResult::WouldBlock
        }
    }

    /// Attempt to transmit one byte: accepted exactly when the transmit
    /// buffer is empty.
    pub fn try_send(&mut self, byte: u8) -> (r: NbResult<(), Error>)
        ensures
            ({
                let o = old(self).spi_spec().regs;
                let n = final(self).spi_spec().regs;
                &&& (o.tbe_spec() ==> r is Ready && n.sent_spec() === o.sent_spec().push(byte))
                &&& (!o.tbe_spec() ==> r is WouldBlock && *final(self) == *old(self))
                &&& !(r is Fault)
                &&& n.psc_spec() == o.psc_spec()
                &&& n.tbe_spec() == o.tbe_spec()
                &&& n.rbne_spec() == o.rbne_spec()
            }),
    {
        if self.spi.regs.tbe {
            self.spi.regs.sent.push(byte);
            NbResult::Ready(())
        } else {
            NbResult::WouldBlock
        }
    }
}

impl<SCK, MISO, MOSI, NSS> Spi<SPI2, (SCK, MISO, MOSI, NSS)> {
    /// The wrapped register block.
    pub closed spec fn spi_spec(self) -> SPI2 {
        self.spi
    }

    /// Configure SPI2 to operate in full-duplex master mode at the closest
    /// prescaler bracket for the requested frequency, which must not
    /// exceed the APB1 clock.
    pub fn spi2(spi: SPI2, pins: (SCK, MISO, MOSI, NSS), mode: Mode, freq: Hertz,
        clocks: Clocks, apb: &mut APB1) -> (r: Spi<SPI2, (SCK, MISO, MOSI, NSS)>) where
        SCK: SckPin<SPI2>,
        MISO: MisoPin<SPI2>,
        MOSI: MosiPin<SPI2>,
        NSS: NssPin<SPI2>,

        requires
            freq.0 >= 1,
            clocks.apb1_spec() >= freq.0,
        ensures
            r.spi_spec().regs.spien_spec(),
            r.spi_spec().regs.mstmod_spec(),
            r.spi_spec().regs.psc_spec() == spi_prescaler_spec(
                clocks.apb1_spec() as int / freq.0 as int,
            ),
            r.spi_spec().regs.ckpl_spec() == (mode.polarity is IdleHigh),
            r.spi_spec().regs.ckph_spec() == (mode.phase is CaptureOnSecondTransition),
            r.spi_spec().regs.sent_spec() === spi.regs.sent_spec(),
            final(apb).en_spec() == (old(apb).en_spec() | (1u32 << (SPI2EN_BIT as u32))),
    {
        let mut spi = spi;
        let ratio: u32 = clocks.ck_apb1().0 / freq.0;
        proof {
            assert((clocks.apb1_spec() as int) / (freq.0 as int) >= 1) by (nonlinear_arith)
                requires
                    clocks.apb1_spec() >= freq.0,
                    freq.0 >= 1,
            ;
        }
        let psc = spi_prescaler(ratio);
        apb.set_en(SPI2EN_BIT, true);
        configure_master(&mut spi.regs, psc, mode);
        Spi { spi, pins }
    }

    /// Release the SPI peripheral and its pins.
    pub fn free(self) -> (r: (SPI2, (SCK, MISO, MOSI, NSS)))
        ensures
            r.0 == self.spi_spec(),
    {
        (self.spi, self.pins)
    }

    /// Attempt to read the latched receive byte: ready exactly when the
    /// receive buffer is full.
    pub fn try_read(&mut self) -> (r: NbResult<u8, Error>)
        ensures
            *final(self) == *old(self),
            old(self).spi_spec().regs.rbne_spec() ==> r == NbResult::<u8, Error>::Ready(
                old(self).spi_spec().regs.rx_spec(),
            ),
            !old(self).spi_spec().regs.rbne_spec() ==> r is WouldBlock,
            !(r is Fault),
    {
        if self.spi.regs.rbne {
            NbResult::Ready(self.spi.regs.rx)
        } else {
            NbResult::WouldBlock
        }
    }

    /// Attempt to transmit one byte: accepted exactly when the transmit
    /// buffer is empty.
    pub fn try_send(&mut self, byte: u8) -> (r: NbResult<(), Error>)
        ensures
            ({
                let o = old(self).spi_spec().regs;
                let n = final(self).spi_spec().regs;
                &&& (o.tbe_spec() ==> r is Ready && n.sent_spec() === o.sent_spec().push(byte))
                &&& (!o.tbe_spec() ==> r is WouldBlock && *final(self) == *old(self))
                &&& !(r is Fault)
                &&& n.psc_spec() == o.psc_spec()
                &&& n.tbe_spec() == o.tbe_spec()
                &&& n.rbne_spec() == o.rbne_spec()
            }),
    {
        if self.spi.regs.tbe {
            self.spi.regs.sent.push(byte);
            NbResult::Ready(())
        } else {
            NbResult::WouldBlock
        }
    }
}

} // verus!
