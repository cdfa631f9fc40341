use gd32vf103_hal::afio::{AfioExt, AFIO};
use gd32vf103_hal::gpio::{Gpio, GpioExt, PA};
use gd32vf103_hal::nonblocking::NbResult;
use gd32vf103_hal::rcu::{Rcu, RcuExt, Strict, RCU};
use gd32vf103_hal::serial::{baud_divisor, Config, Error, Parity, Serial, SerialWrapper,
    StopBits, USART0};
use gd32vf103_hal::unit::Bps;

fn fresh_rcu() -> Rcu {
    RCU::new().constrain()
}

#[test]
fn baud_divisor_rounds_to_nearest() {
    // 8 MHz bus, 9600 baud: round(8_000_000 / 9600) == 833.
    assert_eq!(baud_divisor(8_000_000, Bps(9600)), Some(833));
    // 8 MHz bus, 115200 baud: round(69.4) == 69.
    assert_eq!(baud_divisor(8_000_000, Bps(115_200)), Some(69));
}

#[test]
fn baud_divisor_out_of_range_fails() {
    // Divisor below 0x0010.
    assert_eq!(baud_divisor(8_000_000, Bps(600_000)), None);
    // Divisor above 0xFFFF.
    assert_eq!(baud_divisor(8_000_000, Bps(1)), None);
    // A zero baud rate can never be configured.
    assert_eq!(baud_divisor(8_000_000, Bps(0)), None);
}

#[test]
fn parity_and_stop_bit_encodings() {
    assert_eq!(Parity::ParityNone.config(), (false, false, false));
    assert_eq!(Parity::ParityEven.config(), (true, true, false));
    assert_eq!(Parity::ParityOdd.config(), (true, true, true));
    assert_eq!(StopBits::STOP1.config(), 0b00);
    assert_eq!(StopBits::STOP0P5.config(), 0b01);
    assert_eq!(StopBits::STOP2.config(), 0b10);
    assert_eq!(StopBits::STOP1P5.config(), 0b11);
}

fn build_serial() -> (
    Rcu,
    Serial<
        USART0,
        (
            gd32vf103_hal::gpio::Pin<PA, gd32vf103_hal::gpio::Alternate<gd32vf103_hal::gpio::PushPull>>,
            gd32vf103_hal::gpio::Pin<PA, gd32vf103_hal::gpio::Input<gd32vf103_hal::gpio::Floating>>,
        ),
    >,
) {
    let mut rcu = fresh_rcu();
    let clocks = Strict::new().try_freeze(&mut rcu.cfg).unwrap();
    let mut gpioa = Gpio::<PA>::at_reset().split(&mut rcu.apb2);
    let mut afio = AFIO::new().split(&mut rcu.apb2);
    let tx = gpioa.p9.into_alternate_push_pull(&mut gpioa.ctl);
    let rx = gpioa.p10.into_floating_input(&mut gpioa.ctl);
    let config = Config::default().baudrate(Bps(9600));
    let serial = Serial::usart0(USART0::new(), (tx, rx), &mut afio.pcf0, config, clocks,
        &mut rcu.apb2);
    (rcu, serial)
}

#[test]
fn usart0_commits_rounded_divisor() {
    // 8 MHz APB2 clock at 9600 baud: the committed sixteen-bit divisor is
    // the rounded quotient.
    let (_rcu, serial) = build_serial();
    assert_eq!(serial.usart().baud(), 833);
}

#[test]
fn usart0_powers_on_and_writes() {
    let (mut rcu, mut serial) = build_serial();
    assert_ne!(rcu.apb2.en_bits() & (1 << 14), 0);
    assert!(matches!(serial.try_write(0x55), NbResult::Ready(())));
    assert!(matches!(serial.try_write(0xAA), NbResult::Ready(())));
    assert!(matches!(serial.try_flush(), NbResult::Ready(())));
    assert_eq!(serial.usart().sent_bytes().as_slice(), &[0x55, 0xAA]);
    let (usart, _pins) = serial.release(&mut rcu.apb2);
    assert_eq!(usart.sent_bytes().as_slice(), &[0x55, 0xAA]);
    assert_eq!(rcu.apb2.en_bits() & (1 << 14), 0);
}

#[test]
fn usart0_read_states() {
    let (_rcu, mut serial) = build_serial();
    // Nothing received yet: would block.
    assert!(matches!(serial.try_read(), NbResult::WouldBlock));
}

#[test]
fn usart0_read_returns_byte_once() {
    let (_rcu, mut serial) = build_serial();
    serial_set_rx(&mut serial, 0x7E);
    match serial.try_read() {
        NbResult::Ready(b) => assert_eq!(b, 0x7E),
        _ => panic!("expected a byte"),
    }
    // The buffer-full flag was cleared by the read.
    assert!(matches!(serial.try_read(), NbResult::WouldBlock));
}

#[test]
fn usart0_read_faults_in_priority_order() {
    let (_rcu, mut serial) = build_serial();
    // Overrun outranks every other latched fault.
    serial_set_err(&mut serial, true, true, true, true);
    assert!(matches!(serial.try_read(), NbResult::Fault(Error::Overrun)));
    // Detecting the fault cleared it: the next read is clean.
    assert!(matches!(serial.try_read(), NbResult::WouldBlock));

    serial_set_err(&mut serial, false, true, true, true);
    assert!(matches!(serial.try_read(), NbResult::Fault(Error::Noise)));
    serial_set_err(&mut serial, false, false, true, true);
    assert!(matches!(serial.try_read(), NbResult::Fault(Error::Framing)));
    serial_set_err(&mut serial, false, false, false, true);
    assert!(matches!(serial.try_read(), NbResult::Fault(Error::Parity)));
    assert!(matches!(serial.try_read(), NbResult::WouldBlock));
}

#[test]
fn serial_wrapper_logs_written_bytes() {
    let mut w = SerialWrapper::new(USART0::new());
    w.write_bytes(b"hi");
    w.write_bytes(b"!");
    let usart = w.free();
    assert_eq!(usart.sent_bytes().as_slice(), b"hi!");
}

// Helpers that poke the modelled receiver state through the public
// sampling interface.

fn serial_set_rx<P>(serial: &mut Serial<USART0, P>, byte: u8) {
    serial_sample(serial, false, false, false, false, true, byte);
}

fn serial_set_err<P>(serial: &mut Serial<USART0, P>, orerr: bool, nerr: bool, ferr: bool,
    perr: bool) {
    serial_sample(serial, orerr, nerr, ferr, perr, false, 0);
}

fn serial_sample<P>(serial: &mut Serial<USART0, P>, orerr: bool, nerr: bool, ferr: bool,
    perr: bool, rbne: bool, rx: u8) {
    serial.sample_line_status(orerr, nerr, ferr, perr, rbne, rx);
}
