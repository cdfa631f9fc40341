use gd32vf103_hal::ctimer::{CoreTimer, CTIMER};
use gd32vf103_hal::delay::Delay;
use gd32vf103_hal::rcu::{RcuExt, Strict, RCU};
use gd32vf103_hal::systick::SysTick;
use gd32vf103_hal::unit::{Bps, Hertz, KiloHertz, MegaHertz, MicroSeconds, MilliSeconds,
    U32Ext};

#[test]
fn u32_ext_wraps_values() {
    assert_eq!(8u32.hz(), Hertz(8));
    assert_eq!(8u32.khz(), KiloHertz(8));
    assert_eq!(8u32.mhz(), MegaHertz(8));
    assert_eq!(8u32.ms(), MilliSeconds(8));
    assert_eq!(8u32.us(), MicroSeconds(8));
    assert_eq!(8u32.bps(), Bps(8));
}

#[test]
fn unit_conversions_scale() {
    assert_eq!(Hertz::from(KiloHertz(8)), Hertz(8_000));
    assert_eq!(Hertz::from(MegaHertz(8)), Hertz(8_000_000));
    assert_eq!(KiloHertz::from(MegaHertz(8)), KiloHertz(8_000));
    let us: MicroSeconds = MilliSeconds(3).into();
    assert_eq!(us, MicroSeconds(3_000));
    // Conversions saturate instead of wrapping.
    assert_eq!(Hertz::from(MegaHertz(5_000)), Hertz(u32::MAX));
}

#[test]
fn core_timer_assembles_counter_halves() {
    let ctimer = CTIMER::new(0xDEAD_BEEF, 0x0000_0012);
    assert_eq!(SysTick::get_systick(&ctimer), 0x12_DEAD_BEEF);
    let timer = CoreTimer::new(ctimer);
    assert_eq!(timer.get_value(), 0x12_DEAD_BEEF);
    assert_eq!(timer.mtime_hi(), 0x12);
    assert_eq!(timer.mtime_lo(), 0xDEAD_BEEF);
    let _raw = timer.free();
}

#[test]
fn delay_tick_count_uses_documented_factor() {
    let mut rcu = RCU::new().constrain();
    let clocks = Strict::new().try_freeze(&mut rcu.cfg).unwrap();
    let delay = Delay::new(clocks, CoreTimer::new(CTIMER::new(0, 0)));
    // 8 MHz system clock: 2000 ticks per millisecond.
    assert_eq!(delay.delay_ticks(1), 2_000);
    assert_eq!(delay.delay_ticks(1000), 2_000_000);
    assert_eq!(delay.now(), 0);
    let _timer = delay.free();
}
