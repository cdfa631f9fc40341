use gd32vf103_hal::nonblocking::NbResult;
use gd32vf103_hal::rcu::{Rcu, RcuExt, Strict, RCU};
use gd32vf103_hal::timer::{Timer, TIMER6};
use gd32vf103_hal::unit::MicroSeconds;
use gd32vf103_hal::wdog::{calc_psc_rld, Free, FWDGT};

fn fresh_rcu() -> Rcu {
    RCU::new().constrain()
}

#[test]
fn wdog_pair_fits_registers_and_covers_request() {
    // The exact boundary of the smallest prescaler.
    assert_eq!(calc_psc_rld(409_600), (0, 0xFFF));
    // One microsecond past it moves to the next prescaler, rounded up.
    let (psc, rld) = calc_psc_rld(409_601);
    assert_eq!(psc, 1);
    assert_eq!(rld, 2048);
    assert!((rld as u64 + 1) * 100 * (1u64 << psc) >= 409_601);
    // A selection of targets: the committed interval never undershoots.
    for t in [1u32, 100, 1_000, 99_999, 1_000_000, 5_000_000, 26_214_400] {
        let (psc, rld) = calc_psc_rld(t);
        assert!(psc <= 0b110);
        assert!(rld <= 0xFFF);
        assert!((rld as u64 + 1) * 100 * (1u64 << psc) >= t as u64);
    }
    // The maximum coverable request uses the full registers.
    assert_eq!(calc_psc_rld(26_214_400), (6, 0xFFF));
}

#[test]
fn wdog_start_commits_covering_interval() {
    let dog = Free::new(FWDGT::new());
    let mut dog = dog.try_start(MicroSeconds(1_000_000));
    let committed = dog.interval();
    assert!(committed.0 >= 1_000_000);
    // Feeding keeps the committed period.
    dog.try_feed();
    assert_eq!(dog.interval().0, committed.0);
    // A new period replaces it, still covering the request.
    dog.set_period(MicroSeconds(50_000));
    assert!(dog.interval().0 >= 50_000);
    assert!(dog.interval().0 < committed.0);
}

#[test]
fn wdog_interval_formula() {
    // 1 s: psc stays 0 (409.6 ms < 1 s, so psc rises to 2), reload
    // rounds up; spot-check the committed interval arithmetic.
    let (psc, rld) = calc_psc_rld(1_000_000);
    assert_eq!(psc, 2);
    assert_eq!(rld, 2499);
    // (2499 + 1) * 100 * 4 == 1_000_000 exactly.
    let dog = Free::new(FWDGT::new()).try_start(MicroSeconds(1_000_000));
    assert_eq!(dog.interval().0, 1_000_000);
}

#[test]
fn timer6_start_and_poll() {
    let mut rcu = fresh_rcu();
    let clocks = Strict::new().try_freeze(&mut rcu.cfg).unwrap();
    let mut timer = Timer::timer6(TIMER6::new(), clocks, &mut rcu.apb1);
    assert_ne!(rcu.apb1.en_bits() & (1 << 5), 0);
    timer.try_start(4000);
    // Not expired yet.
    assert!(matches!(timer.try_wait(), NbResult::WouldBlock));
    // The hardware latches the update flag on expiry.
    timer.sample_update_flag(true);
    assert!(matches!(timer.try_wait(), NbResult::Ready(())));
    let _raw = timer.release();
}

#[test]
fn timer6_delay_count() {
    let mut rcu = fresh_rcu();
    let clocks = Strict::new().try_freeze(&mut rcu.cfg).unwrap();
    let timer = Timer::timer6(TIMER6::new(), clocks, &mut rcu.apb1);
    // APB1 defaults to 4 MHz: 1000 ms need 1000 * 4_000_000 / 1_000_000
    // counts.
    assert_eq!(timer.delay_count(1000), Some(4000));
    // A day of milliseconds does not fit the sixteen-bit counter.
    assert_eq!(timer.delay_count(86_400_000), None);
}
