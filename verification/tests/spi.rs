use gd32vf103_hal::gpio::{Gpio, GpioExt, PA, PB};
use gd32vf103_hal::nonblocking::NbResult;
use gd32vf103_hal::rcu::{Rcu, RcuExt, Strict, RCU};
use gd32vf103_hal::spi::{spi_prescaler, Mode, Phase, Polarity, Spi, SPI0, SPI1};
use gd32vf103_hal::unit::Hertz;

fn fresh_rcu() -> Rcu {
    RCU::new().constrain()
}

#[test]
fn prescaler_brackets() {
    assert_eq!(spi_prescaler(2), 0b000);
    assert_eq!(spi_prescaler(4), 0b001);
    assert_eq!(spi_prescaler(5), 0b001);
    assert_eq!(spi_prescaler(8), 0b010);
    assert_eq!(spi_prescaler(11), 0b010);
    assert_eq!(spi_prescaler(16), 0b011);
    assert_eq!(spi_prescaler(32), 0b100);
    assert_eq!(spi_prescaler(64), 0b101);
    assert_eq!(spi_prescaler(128), 0b110);
    assert_eq!(spi_prescaler(191), 0b110);
    // Everything outside the brackets falls to the largest divider.
    assert_eq!(spi_prescaler(1), 0b111);
    assert_eq!(spi_prescaler(3), 0b111);
    assert_eq!(spi_prescaler(192), 0b111);
    assert_eq!(spi_prescaler(100_000), 0b111);
}

#[test]
fn spi0_master_transfers() {
    let mut rcu = fresh_rcu();
    let clocks = Strict::new().try_freeze(&mut rcu.cfg).unwrap();
    let mut gpioa = Gpio::<PA>::at_reset().split(&mut rcu.apb2);
    let sck = gpioa.p5.into_alternate_push_pull(&mut gpioa.ctl);
    let miso = gpioa.p6.into_floating_input(&mut gpioa.ctl);
    let mosi = gpioa.p7.into_alternate_push_pull(&mut gpioa.ctl);
    let nss = gpioa.p4.into_alternate_push_pull(&mut gpioa.ctl);
    let mode = Mode { polarity: Polarity::IdleLow, phase: Phase::CaptureOnFirstTransition };
    // 8 MHz bus, 2 MHz target: ratio 4, prescaler code 0b001.
    let mut spi = Spi::spi0(SPI0::new(), (sck, miso, mosi, nss), mode, Hertz(2_000_000),
        clocks, &mut rcu.apb2);
    assert_ne!(rcu.apb2.en_bits() & (1 << 12), 0);
    // Nothing received yet.
    assert!(matches!(spi.try_read(), NbResult::WouldBlock));
    // The transmit buffer is empty at reset: a byte is accepted.
    assert!(matches!(spi.try_send(0x9F), NbResult::Ready(())));
    let (raw, _pins) = spi.free();
    assert_eq!(raw.regs.sent_bytes().as_slice(), &[0x9F]);
}

#[test]
fn spi1_runs_from_apb1() {
    let mut rcu = fresh_rcu();
    let clocks = Strict::new().try_freeze(&mut rcu.cfg).unwrap();
    let mut gpiob = Gpio::<PB>::at_reset().split(&mut rcu.apb2);
    let sck = gpiob.p13.into_alternate_push_pull(&mut gpiob.ctl);
    let miso = gpiob.p14.into_floating_input(&mut gpiob.ctl);
    let mosi = gpiob.p15.into_alternate_push_pull(&mut gpiob.ctl);
    let nss = gpiob.p12.into_alternate_push_pull(&mut gpiob.ctl);
    let mode = Mode { polarity: Polarity::IdleLow, phase: Phase::CaptureOnFirstTransition };
    // APB1 defaults to 4 MHz; a 1 MHz target gives ratio 4.
    let mut spi = Spi::spi1(SPI1::new(), (sck, miso, mosi, nss), mode, Hertz(1_000_000),
        clocks, &mut rcu.apb1);
    assert_ne!(rcu.apb1.en_bits() & (1 << 14), 0);
    assert!(matches!(spi.try_send(0xAB), NbResult::Ready(())));
    let (raw, _pins) = spi.free();
    assert_eq!(raw.regs.sent_bytes().as_slice(), &[0xAB]);
}

#[test]
fn spi0_read_returns_latched_byte() {
    let mut rcu = fresh_rcu();
    let clocks = Strict::new().try_freeze(&mut rcu.cfg).unwrap();
    let mut gpioa = Gpio::<PA>::at_reset().split(&mut rcu.apb2);
    let sck = gpioa.p5.into_alternate_push_pull(&mut gpioa.ctl);
    let miso = gpioa.p6.into_floating_input(&mut gpioa.ctl);
    let mosi = gpioa.p7.into_alternate_push_pull(&mut gpioa.ctl);
    let nss = gpioa.p4.into_push_pull_output(&mut gpioa.ctl);
    let mode = Mode { polarity: Polarity::IdleHigh, phase: Phase::CaptureOnSecondTransition };
    let mut spi = Spi::spi0(SPI0::new(), (sck, miso, mosi, nss), mode, Hertz(1_000_000),
        clocks, &mut rcu.apb2);
    spi.sample_transfer_status(true, true, 0x42);
    match spi.try_read() {
        NbResult::Ready(b) => assert_eq!(b, 0x42),
        _ => panic!("expected a byte"),
    }
}
