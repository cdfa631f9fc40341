use gd32vf103_hal::rcu::{ClockError, Rcu, RcuExt, Strict, RCU};
use gd32vf103_hal::unit::Hertz;

fn fresh_rcu() -> Rcu {
    RCU::new().constrain()
}

#[test]
fn freeze_defaults_to_internal_oscillator() {
    let mut rcu = fresh_rcu();
    let clocks = Strict::new().try_freeze(&mut rcu.cfg).unwrap();
    assert_eq!(clocks.ck_sys().0, 8_000_000);
    assert_eq!(clocks.ck_ahb().0, 8_000_000);
    assert_eq!(clocks.ck_apb1().0, 4_000_000);
    assert_eq!(clocks.ck_apb2().0, 8_000_000);
    assert_eq!(clocks.ck_adc().0, 1_000_000);
    assert!(!clocks.ck_usbfs_valid());
    // Internal oscillator drives the system clock directly.
    assert_eq!(rcu.cfg.scs(), 0b00);
    assert!(!rcu.cfg.pllen());
    assert!(rcu.cfg.irc8men());
}

#[test]
fn freeze_hxtal_direct() {
    let mut rcu = fresh_rcu();
    let clocks = Strict::new()
        .use_hxtal(Hertz(8_000_000))
        .ck_sys(Hertz(8_000_000))
        .try_freeze(&mut rcu.cfg)
        .unwrap();
    assert_eq!(clocks.ck_sys().0, 8_000_000);
    assert_eq!(rcu.cfg.scs(), 0b01);
    assert!(!rcu.cfg.pllen());
    assert!(rcu.cfg.hxtalen());
}

#[test]
fn freeze_hxtal_pll_72mhz() {
    let mut rcu = fresh_rcu();
    let clocks = Strict::new()
        .use_hxtal(Hertz(8_000_000))
        .ck_sys(Hertz(72_000_000))
        .try_freeze(&mut rcu.cfg)
        .unwrap();
    assert_eq!(clocks.ck_sys().0, 72_000_000);
    assert_eq!(clocks.ck_ahb().0, 72_000_000);
    assert_eq!(clocks.ck_apb1().0, 36_000_000);
    assert_eq!(clocks.ck_apb2().0, 72_000_000);
    assert_eq!(clocks.ck_adc().0, 9_000_000);
    assert_eq!(clocks.ck_timerx().0, 72_000_000);
    assert!(clocks.ck_usbfs_valid());
    assert_eq!(rcu.cfg.scs(), 0b10);
    assert!(rcu.cfg.pllen());
    assert!(rcu.cfg.pllsel());
    // Multiplier nine from an 8 MHz crystal: field code seven.
    assert_eq!(rcu.cfg.pllmf(), 7);
    assert_eq!(rcu.cfg.predv0(), 0);
    // USB prescaler for a 72 MHz PLL output.
    assert_eq!(rcu.cfg.usbfspsc(), 0b00);
    // AHB divide-by-one, APB1 divide-by-two, APB2 divide-by-one.
    assert_eq!(rcu.cfg.ahbpsc(), 0b0111);
    assert_eq!(rcu.cfg.apb1psc(), 0b100);
    assert_eq!(rcu.cfg.apb2psc(), 0b011);
    // ADC divide-by-eight.
    assert_eq!(rcu.cfg.adcpsc(), 0b011);
}

#[test]
fn freeze_irc8m_pll_48mhz() {
    let mut rcu = fresh_rcu();
    let clocks = Strict::new().ck_sys(Hertz(48_000_000)).try_freeze(&mut rcu.cfg).unwrap();
    assert_eq!(clocks.ck_sys().0, 48_000_000);
    // Without a crystal the USB clock is never valid.
    assert!(!clocks.ck_usbfs_valid());
    assert!(rcu.cfg.pllen());
    // PLL fed from IRC8M / 2: source selector stays on the internal path.
    assert!(!rcu.cfg.pllsel());
    // Multiplier twelve: field code ten.
    assert_eq!(rcu.cfg.pllmf(), 10);
}

#[test]
fn freeze_special_multiplier_26mhz() {
    let mut rcu = fresh_rcu();
    let clocks = Strict::new().ck_sys(Hertz(26_000_000)).try_freeze(&mut rcu.cfg).unwrap();
    assert_eq!(clocks.ck_sys().0, 26_000_000);
    // The x6.5 slot.
    assert_eq!(rcu.cfg.pllmf(), 0b01101);
}

#[test]
fn freeze_rejects_unreachable_frequency() {
    let mut rcu = fresh_rcu();
    let r = Strict::new()
        .use_hxtal(Hertz(8_000_000))
        .ck_sys(Hertz(8_000_001))
        .try_freeze(&mut rcu.cfg);
    assert_eq!(r.unwrap_err(), ClockError::InvalidFrequency);
    // A failed freeze commits nothing.
    assert_eq!(rcu.cfg.scs(), 0);
    assert!(!rcu.cfg.pllen());
}

#[test]
fn freeze_rejects_multiplier_fifteen() {
    // Sixty megahertz from the internal path would need the excluded
    // multiplier fifteen.
    let mut rcu = fresh_rcu();
    let r = Strict::new().ck_sys(Hertz(60_000_000)).try_freeze(&mut rcu.cfg);
    assert!(r.is_err());
}

#[test]
fn ahb_divider_skips_thirty_two() {
    // 72 MHz / 32 would need the reserved shift five: rejected.
    let mut rcu = fresh_rcu();
    let r = Strict::new()
        .use_hxtal(Hertz(8_000_000))
        .ck_sys(Hertz(72_000_000))
        .ck_ahb(Hertz(2_250_000))
        .try_freeze(&mut rcu.cfg);
    assert!(r.is_err());

    // 72 MHz / 64 is fine and encodes as the code after the skipped slot.
    let mut rcu = fresh_rcu();
    let clocks = Strict::new()
        .use_hxtal(Hertz(8_000_000))
        .ck_sys(Hertz(72_000_000))
        .ck_ahb(Hertz(1_125_000))
        .ck_apb1(Hertz(1_125_000))
        .ck_apb2(Hertz(1_125_000))
        .ck_adc(Hertz(140_625))
        .try_freeze(&mut rcu.cfg)
        .unwrap();
    assert_eq!(clocks.ck_ahb().0, 1_125_000);
    assert_eq!(rcu.cfg.ahbpsc(), 0b1100);
}

#[test]
fn ahb_divider_two() {
    let mut rcu = fresh_rcu();
    let clocks = Strict::new()
        .use_hxtal(Hertz(8_000_000))
        .ck_sys(Hertz(72_000_000))
        .ck_ahb(Hertz(36_000_000))
        .try_freeze(&mut rcu.cfg)
        .unwrap();
    assert_eq!(clocks.ck_ahb().0, 36_000_000);
    assert_eq!(rcu.cfg.ahbpsc(), 0b1000);
    // Timer clock doubles when APB2 divides: APB2 defaults to AHB here,
    // so it does not divide and the timer runs at APB2.
    assert_eq!(clocks.ck_timerx().0, 36_000_000);
}

#[test]
fn timer_clock_doubles_when_apb2_divides() {
    let mut rcu = fresh_rcu();
    let clocks = Strict::new()
        .use_hxtal(Hertz(8_000_000))
        .ck_sys(Hertz(72_000_000))
        .ck_apb2(Hertz(36_000_000))
        .ck_adc(Hertz(4_500_000))
        .try_freeze(&mut rcu.cfg)
        .unwrap();
    assert_eq!(clocks.ck_apb2().0, 36_000_000);
    assert_eq!(clocks.ck_timerx().0, 72_000_000);
}

#[test]
fn apb_divider_out_of_range_fails() {
    let mut rcu = fresh_rcu();
    let r = Strict::new()
        .use_hxtal(Hertz(8_000_000))
        .ck_sys(Hertz(72_000_000))
        .ck_apb1(Hertz(2_250_000))
        .try_freeze(&mut rcu.cfg);
    assert!(r.is_err());
}

#[test]
fn adc_divider_must_be_allowed() {
    // Divider ten is not in the allowed set.
    let mut rcu = fresh_rcu();
    let r = Strict::new()
        .use_hxtal(Hertz(8_000_000))
        .ck_sys(Hertz(72_000_000))
        .ck_adc(Hertz(7_200_000))
        .try_freeze(&mut rcu.cfg);
    assert!(r.is_err());

    // Divider twelve is allowed.
    let mut rcu = fresh_rcu();
    let clocks = Strict::new()
        .use_hxtal(Hertz(8_000_000))
        .ck_sys(Hertz(72_000_000))
        .ck_adc(Hertz(6_000_000))
        .try_freeze(&mut rcu.cfg)
        .unwrap();
    assert_eq!(clocks.ck_adc().0, 6_000_000);
    assert_eq!(rcu.cfg.adcpsc(), 0b101);
}

#[test]
fn freeze_commits_like_try_freeze() {
    // The panicking entry point takes the same path as `try_freeze` when
    // the configuration is reachable.
    let mut rcu = fresh_rcu();
    let clocks = Strict::new()
        .use_hxtal(Hertz(8_000_000))
        .ck_sys(Hertz(96_000_000))
        .freeze(&mut rcu.cfg);
    assert_eq!(clocks.ck_sys().0, 96_000_000);
    assert!(clocks.ck_usbfs_valid());
    assert_eq!(rcu.cfg.usbfspsc(), 0b11);
}

#[test]
fn freeze_table_of_reachable_pairs_is_exact() {
    // Each pair (crystal, target) is exactly reachable and must freeze to
    // exactly the requested system clock.
    let table: Vec<(u32, u32)> = vec![
        (8_000_000, 8_000_000),
        (8_000_000, 16_000_000),
        (8_000_000, 48_000_000),
        (8_000_000, 72_000_000),
        (8_000_000, 96_000_000),
        (8_000_000, 108_000_000),
        (8_000_000, 52_000_000),
        (25_000_000, 100_000_000),
        (12_000_000, 96_000_000),
    ];
    for (hx, target) in table {
        let mut rcu = fresh_rcu();
        let clocks = Strict::new()
            .use_hxtal(Hertz(hx))
            .ck_sys(Hertz(target))
            .try_freeze(&mut rcu.cfg)
            .unwrap();
        assert_eq!(clocks.ck_sys().0, target);
    }
}
