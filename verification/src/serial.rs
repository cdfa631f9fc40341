//! Serial communication (USART).
//!
//! The baud divisor is the bus clock divided by the baud rate, rounded to
//! the nearest integer, and construction is only possible when it fits the
//! sixteen-bit divisor register's accepted range.  Reads and writes are
//! non-blocking: a not-ready interface reports would-block, and a detected
//! line fault (overrun, noise, framing, parity) is returned as a typed
//! error and cleared so the next read can proceed.

use vstd::prelude::*;
use crate::afio::PCF0;
use crate::gpio::{Alternate, Floating, Input, Pin, PushPull, PA};
use crate::nonblocking::NbResult;
use crate::rcu::{Clocks, APB2};
use crate::unit::Bps;

verus! {

/// The bit index of the USART0 clock enable in `APB2EN` and `APB2RST`.
pub const USART0EN_BIT: usize = 14;

/// Smallest accepted baud divisor.
pub const BAUD_DIV_MIN: u32 = 0x0010;

/// Largest baud divisor the sixteen-bit register holds.
pub const BAUD_DIV_MAX: u32 = 0xFFFF;

/// The divisor committed for a bus clock and baud rate: the quotient
/// rounded to the nearest integer.
pub open spec fn baud_div_spec(ck: int, baud: int) -> int {
    (ck + baud / 2) / baud
}

/// Whether the pair yields a divisor the hardware register accepts.
pub open spec fn baud_div_ok(ck: int, baud: int) -> bool {
    baud > 0 && BAUD_DIV_MIN <= baud_div_spec(ck, baud) <= BAUD_DIV_MAX
}

/// Compute the baud divisor, or nothing when it falls outside the
/// register's accepted range (construction must fail then).
pub fn baud_divisor(ck: u32, baud: Bps) -> (r: Option<u32>)
    ensures
        r is Some <==> baud_div_ok(ck as int, baud.0 as int),
        r matches Some(d) ==> d == baud_div_spec(ck as int, baud.0 as int),
{
    if baud.0 == 0 {
        return None;
    }
    let num: u64 = (ck as u64) + ((baud.0 / 2) as u64);
    let div: u64 = num / (baud.0 as u64);
    if div >= BAUD_DIV_MIN as u64 && div <= BAUD_DIV_MAX as u64 {
        Some(div as u32)
    } else {
        None
    }
}

/// Serial configuration.
pub struct Config {
    /// Baud rate.
    pub baudrate: Bps,
    /// Parity check mode.
    pub parity: Parity,
    /// Number of stop bits.
    pub stop_bits: StopBits,
}

impl Default for Config {
    /// 115200 baud, no parity, one stop bit.
    fn default() -> (r: Config)
        ensures
            r.baudrate.0 == 115200,
            r.parity is ParityNone,
            r.stop_bits is STOP1,
    {
        Config { baudrate: Bps(115200), parity: Parity::ParityNone, stop_bits: StopBits::STOP1 }
    }
}

impl Config {
    /// Replace the baud rate.
    pub fn baudrate(self, baudrate: Bps) -> (r: Config)
        ensures
            r.baudrate == baudrate,
            r.parity == self.parity,
            r.stop_bits == self.stop_bits,
    {
        Config { baudrate, ..self }
    }

    /// Replace the parity mode.
    pub fn parity(self, parity: Parity) -> (r: Config)
        ensures
            r.parity == parity,
            r.baudrate == self.baudrate,
            r.stop_bits == self.stop_bits,
    {
        Config { parity, ..self }
    }

    /// Replace the stop-bit selection.
    pub fn stop_bits(self, stop_bits: StopBits) -> (r: Config)
        ensures
            r.stop_bits == stop_bits,
            r.baudrate == self.baudrate,
            r.parity == self.parity,
    {
        Config { stop_bits, ..self }
    }
}

/// Serial parity.
#[derive(Clone, Copy, Debug, PartialEq, Eq, Structural)]
pub enum Parity {
    /// Disable parity check.
    ParityNone,
    /// Enable even parity check.
    ParityEven,
    /// Enable odd parity check.
    ParityOdd,
}

impl Parity {
    /// The (word length, parity enable, parity mode) register bits this
    /// selection is written as: nine-bit words carry the parity bit, and
    /// the mode bit set means odd.
    pub fn config(&self) -> (r: (bool, bool, bool))
        ensures
            self is ParityNone ==> r == (false, false, false),
            self is ParityEven ==> r == (true, true, false),
            self is ParityOdd ==> r == (true, true, true),
    {
        match *self {
            Parity::ParityNone => (false, false, false),
            Parity::ParityEven => (true, true, false),
            Parity::ParityOdd => (true, true, true),
        }
    }
}

/// Serial stop bits.
#[derive(Clone, Copy, Debug, PartialEq, Eq, Structural)]
pub enum StopBits {
    /// 1 stop bit.
    STOP1,
    /// 0.5 stop bits.
    STOP0P5,
    /// 2 stop bits.
    STOP2,
    /// 1.5 stop bits.
    STOP1P5,
}

impl StopBits {
    /// The two-bit `STB` register field this selection is written as.
    pub fn config(&self) -> (r: u8)
        ensures
            self is STOP1 ==> r == 0b00,
            self is STOP0P5 ==> r == 0b01,
            self is STOP2 ==> r == 0b10,
            self is STOP1P5 ==> r == 0b11,
    {
        match *self {
            StopBits::STOP1 => 0b00,
            StopBits::STOP0P5 => 0b01,
            StopBits::STOP2 => 0b10,
            StopBits::STOP1P5 => 0b11,
        }
    }
}

/// Serial error.
#[derive(Clone, Copy, Debug, PartialEq, Eq, Structural)]
pub enum Error {
    /// A new frame arrived while the read buffer was still full (ORERR).
    Overrun,
    /// Noise was detected on the RX line (NERR).
    Noise,
    /// The RX line was low during the stop bits (FERR).
    Framing,
    /// The received parity bit did not match (PERR).
    Parity,
}

/// The raw USART0 register block: configuration fields, the externally
/// driven status flags and receive buffer, and the transmitted byte log.
pub struct USART0 {
    baud: u32,
    stb: u8,
    wl: bool,
    pcen: bool,
    pm: bool,
    uen: bool,
    ren: bool,
    ten: bool,
    orerr: bool,
    nerr: bool,
    ferr: bool,
    perr: bool,
    rbne: bool,
    tbe: bool,
    tc: bool,
    rx: u8,
    sent: Vec<u8>,
}

impl USART0 {
    /// Value of the baud divisor register.
    pub closed spec fn baud_spec(self) -> u32 {
        self.baud
    }

    /// Value of the stop-bit field.
    pub closed spec fn stb_spec(self) -> u8 {
        self.stb
    }

    /// The (word length, parity enable, parity mode) control bits.
    pub closed spec fn parity_bits_spec(self) -> (bool, bool, bool) {
        (self.wl, self.pcen, self.pm)
    }

    /// Whether the interface is enabled.
    pub closed spec fn uen_spec(self) -> bool {
        self.uen
    }

    /// Whether the receiver is enabled.
    pub closed spec fn ren_spec(self) -> bool {
        self.ren
    }

    /// Whether the transmitter is enabled.
    pub closed spec fn ten_spec(self) -> bool {
        self.ten
    }

    /// The latched (overrun, noise, framing, parity) error flags.
    pub closed spec fn err_flags_spec(self) -> (bool, bool, bool, bool) {
        (self.orerr, self.nerr, self.ferr, self.perr)
    }

    /// Whether the read buffer holds a byte.
    pub closed spec fn rbne_spec(self) -> bool {
        self.rbne
    }

    /// Whether the transmit buffer is empty.
    pub closed spec fn tbe_spec(self) -> bool {
        self.tbe
    }

    /// Whether transmission is complete.
    pub closed spec fn tc_spec(self) -> bool {
        self.tc
    }

    /// The byte the receiver latched.
    pub closed spec fn rx_spec(self) -> u8 {
        self.rx
    }

    /// Every byte pushed into the transmit register so far.
    pub closed spec fn sent_spec(self) -> Seq<u8> {
        self.sent@
    }

    /// Take the USART0 block at its reset state: transmit buffer empty,
    /// transmission complete, nothing received.
    pub fn new() -> (u: USART0)
        ensures
            u.baud_spec() == 0,
            !u.uen_spec(),
            !u.ren_spec(),
            !u.ten_spec(),
            u.err_flags_spec() == (false, false, false, false),
            !u.rbne_spec(),
            u.tbe_spec(),
            u.tc_spec(),
            u.sent_spec() === Seq::<u8>::empty(),
    {
        USART0 {
            baud: 0,
            stb: 0,
            wl: false,
            pcen: false,
            pm: false,
            uen: false,
            ren: false,
            ten: false,
            orerr: false,
            nerr: false,
            ferr: false,
            perr: false,
            rbne: false,
            tbe: true,
            tc: true,
            rx: 0,
            sent: Vec::new(),
        }
    }

    /// Record the receiver state as sampled from the hardware status and
    /// data registers: the four latched error flags, whether the read
    /// buffer is full, and the byte it holds.
    pub fn set_line_status(&mut self, orerr: bool, nerr: bool, ferr: bool, perr: bool,
        rbne: bool, rx: u8)
        ensures
            final(self).err_flags_spec() == (orerr, nerr, ferr, perr),
            final(self).rbne_spec() == rbne,
            final(self).rx_spec() == rx,
            final(self).baud_spec() == old(self).baud_spec(),
            final(self).stb_spec() == old(self).stb_spec(),
            final(self).parity_bits_spec() == old(self).parity_bits_spec(),
            final(self).uen_spec() == old(self).uen_spec(),
            final(self).ren_spec() == old(self).ren_spec(),
            final(self).ten_spec() == old(self).ten_spec(),
            final(self).tbe_spec() == old(self).tbe_spec(),
            final(self).tc_spec() == old(self).tc_spec(),
            final(self).sent_spec() === old(self).sent_spec(),
    {
        self.orerr = orerr;
        self.nerr = nerr;
        self.ferr = ferr;
        self.perr = perr;
        self.rbne = rbne;
        self.rx = rx;
    }

    /// Record the transmitter state as sampled from the hardware status
    /// register: whether the transmit buffer is empty and whether
    /// transmission has completed.
    pub fn set_tx_status(&mut self, tbe: bool, tc: bool)
        ensures
            final(self).tbe_spec() == tbe,
            final(self).tc_spec() == tc,
            final(self).err_flags_spec() == old(self).err_flags_spec(),
            final(self).rbne_spec() == old(self).rbne_spec(),
            final(self).rx_spec() == old(self).rx_spec(),
            final(self).baud_spec() == old(self).baud_spec(),
            final(self).stb_spec() == old(self).stb_spec(),
            final(self).parity_bits_spec() == old(self).parity_bits_spec(),
            final(self).uen_spec() == old(self).uen_spec(),
            final(self).ren_spec() == old(self).ren_spec(),
            final(self).ten_spec() == old(self).ten_spec(),
            final(self).sent_spec() === old(self).sent_spec(),
    {
        self.tbe = tbe;
        self.tc = tc;
    }

    /// The transmitted byte log.
    pub fn sent_bytes(&self) -> (r: &Vec<u8>)
        ensures
            r@ === self.sent_spec(),
    {
        &self.sent
    }

    /// Read the committed baud divisor register.
    pub fn baud(&self) -> (r: u32)
        ensures
            r == self.baud_spec(),
    {
        self.baud
    }

    /// Read the committed stop-bit field.
    pub fn stb(&self) -> (r: u8)
        ensures
            r == self.stb_spec(),
    {
        self.stb
    }

    /// Read the committed word-length bit.
    pub fn wl(&self) -> (r: bool)
        ensures
            r == self.parity_bits_spec().0,
    {
        self.wl
    }

    /// Read the committed parity-enable bit.
    pub fn pcen(&self) -> (r: bool)
        ensures
            r == self.parity_bits_spec().1,
    {
        self.pcen
    }

    /// Read the committed parity-mode bit.
    pub fn pm(&self) -> (r: bool)
        ensures
            r == self.parity_bits_spec().2,
    {
        self.pm
    }
}

/// Pin selection for a USART instance.
pub trait Pins {
    /// The transmit pin.
    type TX;

    /// The receive pin.
    type RX;

    /// The request-to-send pin.
    type RTS;

    /// The clear-to-send pin.
    type CTS;

    /// The clock pin.
    type CK;

    /// The remap selection these pins need.
    spec fn remap_spec() -> bool;

    /// Return the remap selection these pins need.
    fn remap() -> (r: bool)
        ensures
            r == Self::remap_spec(),
    ;
}

impl Pins for USART0 {
    type TX = Pin<PA, Alternate<PushPull>>;

    type RX = Pin<PA, Input<Floating>>;

    type RTS = Pin<PA, Alternate<PushPull>>;

    type CTS = Pin<PA, Alternate<PushPull>>;

    type CK = Pin<PA, Alternate<PushPull>>;

    open spec fn remap_spec() -> bool {
        false
    }

    fn remap() -> (r: bool) {
        false
    }
}

/// A pin bundle that can drive a USART instance.
pub trait Bundle<USART: Pins> {
    /// The remap selection this bundle needs.
    spec fn bundle_remap_spec() -> bool;

    /// Return the remap selection this bundle needs.
    fn bundle_remap() -> (r: bool)
        ensures
            r == Self::bundle_remap_spec(),
    ;
}

impl Bundle<USART0> for (Pin<PA, Alternate<PushPull>>, Pin<PA, Input<Floating>>) {
    open spec fn bundle_remap_spec() -> bool {
        false
    }

    fn bundle_remap() -> (r: bool) {
        false
    }
}

/// Serial abstraction over an owned USART and its pins.
pub struct Serial<USART, PINS> {
    usart: USART,
    pins: PINS,
}

impl<PINS> Serial<USART0, PINS> {
    /// The wrapped register block.
    pub closed spec fn usart_spec(self) -> USART0 {
        self.usart
    }

    /// The owned pins.
    pub closed spec fn pins_spec(self) -> PINS {
        self.pins
    }
}

impl Serial<USART0, (Pin<PA, Alternate<PushPull>>, Pin<PA, Input<Floating>>)> {
    /// Power on and create the serial instance over the default (TX, RX)
    /// bundle: pin 9 as alternate push-pull, pin 10 as floating input.
    ///
    /// The baud divisor must fall in the register's accepted range, which
    /// `baud_divisor` decides; requesting an impossible rate is a
    /// programming error.  On the hardware the enable, reset, remap and
    /// configure sequence runs with interrupts masked.
    pub fn usart0(
        usart0: USART0,
        pins: (Pin<PA, Alternate<PushPull>>, Pin<PA, Input<Floating>>),
        pcf0: &mut PCF0,
        config: Config,
        clocks: Clocks,
        apb2: &mut APB2,
    ) -> (s: Serial<USART0, (Pin<PA, Alternate<PushPull>>, Pin<PA, Input<Floating>>)>)
        requires
            pins.0.idx_spec() == 9,
            pins.1.idx_spec() == 10,
            baud_div_ok(clocks.apb2_spec() as int, config.baudrate.0 as int),
        ensures
            s.usart_spec().baud_spec() == baud_div_spec(
                clocks.apb2_spec() as int,
                config.baudrate.0 as int,
            ),
            s.usart_spec().uen_spec() && s.usart_spec().ren_spec() && s.usart_spec().ten_spec(),
            config.parity is ParityNone ==> s.usart_spec().parity_bits_spec() == (false, false,
            false),
            config.parity is ParityEven ==> s.usart_spec().parity_bits_spec() == (true, true,
            false),
            config.parity is ParityOdd ==> s.usart_spec().parity_bits_spec() == (true, true,
            true),
            config.stop_bits is STOP1 ==> s.usart_spec().stb_spec() == 0b00,
            config.stop_bits is STOP0P5 ==> s.usart_spec().stb_spec() == 0b01,
            config.stop_bits is STOP2 ==> s.usart_spec().stb_spec() == 0b10,
            config.stop_bits is STOP1P5 ==> s.usart_spec().stb_spec() == 0b11,
            s.usart_spec().sent_spec() === usart0.sent_spec(),
            s.pins_spec() == pins,
            final(apb2).en_spec() == (old(apb2).en_spec() | (1u32 << (USART0EN_BIT as u32))),
            final(apb2).rst_spec() == (old(apb2).rst_spec() & !(1u32 << (USART0EN_BIT as u32))),
            final(pcf0).usart0_remap_spec() == false,
    {
        let mut usart0 = usart0;
        let ck = clocks.ck_apb2();
        let baud_div: u32 = match baud_divisor(ck.0, config.baudrate) {
            Some(d) => d,
            None => unreached(),
        };
        let (wl, pcen, pm) = config.parity.config();
        let stb = config.stop_bits.config();
        // Enable and reset the interface, then select the pin bundle's
        // remap before configuring it.
        apb2.set_en(USART0EN_BIT, true);
        apb2.pulse_rst_modify(USART0EN_BIT);
        let remap = <(Pin<PA, Alternate<PushPull>>, Pin<PA, Input<Floating>>) as Bundle<
            USART0,
        >>::bundle_remap();
        pcf0.set_usart0_remap(remap);
        // Commit the baud divisor, frame format and enables.
        usart0.baud = baud_div;
        usart0.stb = stb;
        usart0.wl = wl;
        usart0.pcen = pcen;
        usart0.pm = pm;
        usart0.uen = true;
        usart0.ren = true;
        usart0.ten = true;
        Serial { usart: usart0, pins }
    }

    /// Power down and return ownership of the owned registers and pins.
    pub fn release(self, apb2: &mut APB2) -> (r: (
        USART0,
        (Pin<PA, Alternate<PushPull>>, Pin<PA, Input<Floating>>),
    ))
        ensures
            !r.0.uen_spec() && !r.0.ren_spec() && !r.0.ten_spec(),
            r.0.sent_spec() === self.usart_spec().sent_spec(),
            r.1 == self.pins_spec(),
            final(apb2).en_spec() == (old(apb2).en_spec() & !(1u32 << (USART0EN_BIT as u32))),
            final(apb2).rst_spec() == old(apb2).rst_spec(),
    {
        let Serial { mut usart, pins } = self;
        usart.uen = false;
        usart.ren = false;
        usart.ten = false;
        apb2.set_en(USART0EN_BIT, false);
        (usart, pins)
    }
}

impl<PINS> Serial<USART0, PINS> {
    /// Attempt to read one received byte.
    ///
    /// A latched line fault is reported as the matching error, in the
    /// documented priority order (overrun before noise before framing
    /// before parity), and detecting it clears the fault and the receive
    /// buffer so the next read starts clean.  With no fault, a waiting
    /// byte is returned and the buffer-full flag cleared; otherwise the
    /// caller must retry.
    pub fn try_read(&mut self) -> (r: NbResult<u8, Error>)
        ensures
            ({
                let o = old(self).usart_spec();
                let n = final(self).usart_spec();
                let (orerr, nerr, ferr, perr) = o.err_flags_spec();
                &&& (orerr ==> r == NbResult::<u8, Error>::Fault(Error::Overrun))
                &&& (!orerr && nerr ==> r == NbResult::<u8, Error>::Fault(Error::Noise))
                &&& (!orerr && !nerr && ferr ==> r == NbResult::<u8, Error>::Fault(
                    Error::Framing,
                ))
                &&& (!orerr && !nerr && !ferr && perr ==> r == NbResult::<u8, Error>::Fault(
                    Error::Parity,
                ))
                &&& ((orerr || nerr || ferr || perr) ==> n.err_flags_spec() == (false, false,
                    false, false) && !n.rbne_spec())
                &&& (!(orerr || nerr || ferr || perr) && o.rbne_spec() ==> r == NbResult::<
                    u8,
                    Error,
                >::Ready(o.rx_spec()) && !n.rbne_spec())
                &&& (!(orerr || nerr || ferr || perr) && !o.rbne_spec() ==> r is WouldBlock
                    && *final(self) == *old(self))
                &&& n.sent_spec() === o.sent_spec()
                &&& n.baud_spec() == o.baud_spec()
                &&& n.stb_spec() == o.stb_spec()
                &&& n.parity_bits_spec() == o.parity_bits_spec()
                &&& n.uen_spec() == o.uen_spec()
                &&& n.ren_spec() == o.ren_spec()
                &&& n.ten_spec() == o.ten_spec()
                &&& n.tbe_spec() == o.tbe_spec()
                &&& n.tc_spec() == o.tc_spec()
                &&& final(self).pins_spec() == old(self).pins_spec()
            }),
    {
        let err: Option<Error> = if self.usart.orerr {
            Some(Error::Overrun)
        } else if self.usart.nerr {
            Some(Error::Noise)
        } else if self.usart.ferr {
            Some(Error::Framing)
        } else if self.usart.perr {
            Some(Error::Parity)
        } else {
            None
        };
        match err {
            Some(e) => {
                // Reading the status then the data register clears the
                // fault condition and drops the buffered byte.
                self.usart.orerr = false;
                self.usart.nerr = false;
                self.usart.ferr = false;
                self.usart.perr = false;
                self.usart.rbne = false;
                NbResult::Fault(e)
            },
            None => {
                if self.usart.rbne {
                    self.usart.rbne = false;
                    NbResult::Ready(self.usart.rx)
                } else {
                    NbResult::WouldBlock
                }
            },
        }
    }

    /// Attempt to transmit one byte: it is accepted exactly when the
    /// transmit buffer is empty, and never reported as a fault.
    pub fn try_write(&mut self, byte: u8) -> (r: NbResult<(), Error>)
        ensures
            ({
                let o = old(self).usart_spec();
                let n = final(self).usart_spec();
                &&& (o.tbe_spec() ==> r is Ready && n.sent_spec() === o.sent_spec().push(byte))
                &&& (!o.tbe_spec() ==> r is WouldBlock && *final(self) == *old(self))
                &&& !(r is Fault)
                &&& n.err_flags_spec() == o.err_flags_spec()
                &&& n.rbne_spec() == o.rbne_spec()
                &&& n.rx_spec() == o.rx_spec()
                &&& n.baud_spec() == o.baud_spec()
                &&& n.uen_spec() == o.uen_spec()
                &&& n.ren_spec() == o.ren_spec()
                &&& n.ten_spec() == o.ten_spec()
                &&& n.tbe_spec() == o.tbe_spec()
                &&& n.tc_spec() == o.tc_spec()
                &&& n.stb_spec() == o.stb_spec()
                &&& n.parity_bits_spec() == o.parity_bits_spec()
                &&& final(self).pins_spec() == old(self).pins_spec()
            }),
    {
        if self.usart.tbe {
            self.usart.sent.push(byte);
            NbResult::Ready(())
        } else {
            NbResult::WouldBlock
        }
    }

    /// Borrow the wrapped register block, for observing the modelled
    /// state.
    pub fn usart(&self) -> (r: &USART0)
        ensures
            *r == self.usart_spec(),
    {
        &self.usart
    }

    /// Record the receiver state as sampled from the hardware status and
    /// data registers.
    pub fn sample_line_status(&mut self, orerr: bool, nerr: bool, ferr: bool, perr: bool,
        rbne: bool, rx: u8)
        ensures
            final(self).usart_spec().err_flags_spec() == (orerr, nerr, ferr, perr),
            final(self).usart_spec().rbne_spec() == rbne,
            final(self).usart_spec().rx_spec() == rx,
            final(self).usart_spec().baud_spec() == old(self).usart_spec().baud_spec(),
            final(self).usart_spec().stb_spec() == old(self).usart_spec().stb_spec(),
            final(self).usart_spec().parity_bits_spec() == old(
                self,
            ).usart_spec().parity_bits_spec(),
            final(self).usart_spec().uen_spec() == old(self).usart_spec().uen_spec(),
            final(self).usart_spec().ren_spec() == old(self).usart_spec().ren_spec(),
            final(self).usart_spec().ten_spec() == old(self).usart_spec().ten_spec(),
            final(self).usart_spec().tbe_spec() == old(self).usart_spec().tbe_spec(),
            final(self).usart_spec().tc_spec() == old(self).usart_spec().tc_spec(),
            final(self).usart_spec().sent_spec() === old(self).usart_spec().sent_spec(),
            final(self).pins_spec() == old(self).pins_spec(),
    {
        self.usart.set_line_status(orerr, nerr, ferr, perr, rbne, rx);
    }

    /// Record the transmitter state as sampled from the hardware status
    /// register.
    pub fn sample_tx_status(&mut self, tbe: bool, tc: bool)
        ensures
            final(self).usart_spec().tbe_spec() == tbe,
            final(self).usart_spec().tc_spec() == tc,
            final(self).usart_spec().err_flags_spec() == old(
                self,
            ).usart_spec().err_flags_spec(),
            final(self).usart_spec().rbne_spec() == old(self).usart_spec().rbne_spec(),
            final(self).usart_spec().rx_spec() == old(self).usart_spec().rx_spec(),
            final(self).usart_spec().baud_spec() == old(self).usart_spec().baud_spec(),
            final(self).usart_spec().sent_spec() === old(self).usart_spec().sent_spec(),
            final(self).pins_spec() == old(self).pins_spec(),
    {
        self.usart.set_tx_status(tbe, tc);
    }

    /// Whether the transmitter has finished shifting everything out: ready
    /// exactly when the transmission-complete flag is set.
    pub fn try_flush(&mut self) -> (r: NbResult<(), Error>)
        ensures
            *final(self) == *old(self),
            r is Ready <==> old(self).usart_spec().tc_spec(),
            !(r is Fault),
    {
        if self.usart.tc {
            NbResult::Ready(())
        } else {
            NbResult::WouldBlock
        }
    }
}

/// A minimal console-style writer over an owned USART0 block, pushing raw
/// bytes through the transmit register.
pub struct SerialWrapper {
    usart: USART0,
}

impl SerialWrapper {
    /// The wrapped register block.
    pub closed spec fn usart_spec(self) -> USART0 {
        self.usart
    }

    /// Wrap an owned USART0 block.
    pub fn new(usart: USART0) -> (r: SerialWrapper)
        ensures
            r.usart_spec() == usart,
    {
        SerialWrapper { usart }
    }

    /// Release the wrapped block.
    pub fn free(self) -> (r: USART0)
        ensures
            r == self.usart_spec(),
    {
        self.usart
    }

    /// Push every byte of the slice through the transmit register, in
    /// order.  On the hardware each byte waits for the transmit buffer to
    /// drain before the next is written.
    pub fn write_bytes(&mut self, bytes: &[u8])
        ensures
            final(self).usart_spec().sent_spec() === old(self).usart_spec().sent_spec()
                + bytes@,
    {
        let ghost sent0 = self.usart.sent@;
        let mut i: usize = 0;
        while i < bytes.len()
            invariant
                i <= bytes@.len(),
                self.usart.sent@ === sent0 + bytes@.subrange(0, i as int),
            decreases bytes@.len() - i,
        {
            self.usart.sent.push(bytes[i]);
            proof {
                assert(bytes@.subrange(0, (i + 1) as int) =~= bytes@.subrange(0, i as int).push(
                    bytes@[i as int]));
                assert(sent0 + bytes@.subrange(0, (i + 1) as int) =~= (sent0 + bytes@.subrange(
                    0, i as int)).push(bytes@[i as int]));
            }
            i += 1;
        }
        proof {
            assert(bytes@.subrange(0, bytes@.len() as int) =~= bytes@);
        }
    }
}

} // verus!
