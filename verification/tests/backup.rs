use gd32vf103_hal::backup::{data_offset, BkpExt, Event, BKP, PMU};
use gd32vf103_hal::rcu::{Rcu, RcuExt, RCU};

fn fresh_rcu() -> Rcu {
    RCU::new().constrain()
}

#[test]
fn split_enables_backup_domain_access() {
    let mut rcu = fresh_rcu();
    let mut pmu = PMU::new();
    let _parts = BKP::new().split(&mut rcu.apb1, &mut pmu);
    assert_ne!(rcu.apb1.en_bits() & (1 << 27), 0);
    assert_ne!(rcu.apb1.en_bits() & (1 << 28), 0);
    assert!(pmu.bkpwen());
}

#[test]
fn data_write_read_round_trip_all_slots() {
    let mut rcu = fresh_rcu();
    let mut pmu = PMU::new();
    let mut parts = BKP::new().split(&mut rcu.apb1, &mut pmu);
    for idx in 0..42usize {
        let v = (0x1234 ^ (idx as u16) << 3) as u16;
        parts.data.write(idx, v);
        assert_eq!(parts.data.read(idx), v);
    }
    // Earlier slots kept their values: slots are independent.
    assert_eq!(parts.data.read(0), 0x1234);
    assert_eq!(parts.data.read(41), 0x1234u16 ^ (41u16 << 3));
}

#[test]
fn data_offsets_match_the_two_ranges() {
    assert_eq!(data_offset(0), 0x04);
    assert_eq!(data_offset(9), 0x28);
    assert_eq!(data_offset(10), 0x40);
    assert_eq!(data_offset(41), 0xBC);
    // All forty-two offsets are distinct: no two slots alias.
    let mut offsets: Vec<usize> = (0..42).map(data_offset).collect();
    offsets.sort();
    offsets.dedup();
    assert_eq!(offsets.len(), 42);
}

#[test]
fn tamper_control_bits() {
    let mut rcu = fresh_rcu();
    let mut pmu = PMU::new();
    let mut parts = BKP::new().split(&mut rcu.apb1, &mut pmu);
    let t = &mut parts.tamper;
    t.enable();
    t.set_pin_active_low();
    t.listen(Event::Tamper);
    assert!(!t.check_event());
    assert!(!t.check_interrupt());
    // The hardware latches an event; reading sees it, clearing drops it.
    t.sample_flags(true, true);
    assert!(t.check_event());
    assert!(t.check_interrupt());
    t.clear_event_bit();
    assert!(!t.check_event());
    t.clear_interrupt_bit();
    assert!(!t.check_interrupt());
    t.unlisten(Event::Tamper);
    t.set_pin_active_high();
    t.disable();
}
