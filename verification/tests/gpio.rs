use gd32vf103_hal::gpio::{Gpio, GpioExt, Unlock, UpTo10MHz, UpTo2MHz, PA, PB};
use gd32vf103_hal::rcu::{Rcu, RcuExt, RCU};

fn fresh_rcu() -> Rcu {
    RCU::new().constrain()
}

#[test]
fn split_enables_port_clock() {
    let mut rcu = fresh_rcu();
    let _parts = Gpio::<PA>::at_reset().split(&mut rcu.apb2);
    assert_ne!(rcu.apb2.en_bits() & (1 << 2), 0);
    let _parts_b = Gpio::<PB>::at_reset().split(&mut rcu.apb2);
    assert_ne!(rcu.apb2.en_bits() & (1 << 3), 0);
    assert_eq!(rcu.apb2.rst_bits(), 0);
}

#[test]
fn mode_transition_writes_exact_nibble() {
    let mut rcu = fresh_rcu();
    let mut parts = Gpio::<PA>::at_reset().split(&mut rcu.apb2);
    assert_eq!(parts.ctl.ctl0_bits(), 0x4444_4444);
    assert_eq!(parts.ctl.ctl1_bits(), 0x4444_4444);

    // Analog on pin 3: its nibble becomes 0b0000, no other changes.
    let _pa3 = parts.p3.into_analog(&mut parts.ctl);
    assert_eq!(parts.ctl.ctl0_bits(), 0x4444_0444);
    assert_eq!(parts.ctl.ctl1_bits(), 0x4444_4444);

    // Push-pull output (default 50 MHz) on pin 5: nibble 0b0011.
    let _pa5 = parts.p5.into_push_pull_output(&mut parts.ctl);
    assert_eq!(parts.ctl.ctl0_bits(), 0x4434_0444);

    // Open-drain output on pin 0: nibble 0b0111.
    let _pa0 = parts.p0.into_open_drain_output(&mut parts.ctl);
    assert_eq!(parts.ctl.ctl0_bits(), 0x4434_0447);

    // Alternate push-pull on pin 9 lands in the high control register:
    // nibble 0b1011.
    let _pa9 = parts.p9.into_alternate_push_pull(&mut parts.ctl);
    assert_eq!(parts.ctl.ctl1_bits(), 0x4444_44B4);
    assert_eq!(parts.ctl.ctl0_bits(), 0x4434_0447);

    // Alternate open-drain on pin 15: nibble 0b1111.
    let _pa15 = parts.p15.into_alternate_open_drain(&mut parts.ctl);
    assert_eq!(parts.ctl.ctl1_bits(), 0xF444_44B4);
}

#[test]
fn speed_variants_write_md_bits() {
    let mut rcu = fresh_rcu();
    let mut parts = Gpio::<PA>::at_reset().split(&mut rcu.apb2);
    // 2 MHz push-pull output on pin 1: nibble 0b0010.
    let _p1 = parts.p1.into_push_pull_output_speed::<UpTo2MHz>(&mut parts.ctl);
    assert_eq!(parts.ctl.ctl0_bits(), 0x4444_4424);
    // 10 MHz open-drain output on pin 2: nibble 0b0101.
    let _p2 = parts.p2.into_open_drain_output_speed::<UpTo10MHz>(&mut parts.ctl);
    assert_eq!(parts.ctl.ctl0_bits(), 0x4444_4524);
}

#[test]
fn drive_change_flips_one_bit() {
    let mut rcu = fresh_rcu();
    let mut parts = Gpio::<PA>::at_reset().split(&mut rcu.apb2);
    // Push-pull output on pin 0 (nibble 0b0011), then to open drain while
    // staying an output: only the drive bit changes (nibble 0b0111).
    let p0 = parts.p0.into_push_pull_output(&mut parts.ctl);
    assert_eq!(parts.ctl.ctl0_bits() & 0xF, 0b0011);
    let p0 = p0.to_open_drain(&mut parts.ctl);
    assert_eq!(parts.ctl.ctl0_bits() & 0xF, 0b0111);
    let _p0 = p0.to_push_pull(&mut parts.ctl);
    assert_eq!(parts.ctl.ctl0_bits() & 0xF, 0b0011);
    // The other pins' fields never moved.
    assert_eq!(parts.ctl.ctl0_bits(), 0x4444_4443);
}

#[test]
fn pull_inputs_configure_direction_bit() {
    let mut rcu = fresh_rcu();
    let mut parts = Gpio::<PA>::at_reset().split(&mut rcu.apb2);
    let _p4 = parts.p4.into_pull_up_input(&mut parts.ctl, &mut parts.octl);
    assert_ne!(parts.octl.bits() & (1 << 4), 0);
    assert_eq!(parts.ctl.ctl0_bits(), 0x4448_4444);
    let _p6 = parts.p6.into_pull_down_input(&mut parts.ctl, &mut parts.octl);
    assert_eq!(parts.octl.bits() & (1 << 6), 0);
    assert_eq!(parts.ctl.ctl0_bits(), 0x4848_4444);
}

#[test]
fn output_levels_and_toggle() {
    let mut rcu = fresh_rcu();
    let mut parts = Gpio::<PA>::at_reset().split(&mut rcu.apb2);
    let mut p7 = parts.p7.into_push_pull_output(&mut parts.ctl);
    assert!(p7.is_set_low(&parts.octl));
    p7.set_high(&mut parts.octl);
    assert!(p7.is_set_high(&parts.octl));
    assert_ne!(parts.octl.bits() & (1 << 7), 0);
    p7.toggle(&mut parts.octl);
    assert!(p7.is_set_low(&parts.octl));
    p7.set_low(&mut parts.octl);
    assert_eq!(parts.octl.bits() & (1 << 7), 0);
}

#[test]
fn input_reads_sampled_level() {
    let mut rcu = fresh_rcu();
    let mut parts = Gpio::<PA>::at_reset().split(&mut rcu.apb2);
    let p2 = parts.p2.into_floating_input(&mut parts.ctl);
    assert!(p2.is_low(&parts.istat));
    parts.istat.sample(1 << 2);
    assert!(p2.is_high(&parts.istat));
}

#[test]
fn lock_marks_and_unlock_clears_shadow() {
    let mut rcu = fresh_rcu();
    let mut parts = Gpio::<PA>::at_reset().split(&mut rcu.apb2);
    let p0 = parts.p0.into_push_pull_output(&mut parts.ctl);
    let locked = p0.lock(&mut parts.lock);
    assert_eq!(parts.lock.shadow_bits(), 1);
    let p0 = locked.unlock(&mut parts.lock);
    assert_eq!(parts.lock.shadow_bits(), 0);
    let _locked_again = p0.lock(&mut parts.lock);
    assert_eq!(parts.lock.shadow_bits(), 1);
}

#[test]
fn locked_pin_still_drives_output() {
    let mut rcu = fresh_rcu();
    let mut parts = Gpio::<PA>::at_reset().split(&mut rcu.apb2);
    let p3 = parts.p3.into_push_pull_output(&mut parts.ctl);
    let mut locked = p3.lock(&mut parts.lock);
    locked.set_high(&mut parts.octl);
    assert!(locked.is_set_high(&parts.octl));
    locked.toggle(&mut parts.octl);
    assert!(locked.is_set_low(&parts.octl));
}

#[test]
fn locked_input_still_reads_level() {
    let mut rcu = fresh_rcu();
    let mut parts = Gpio::<PA>::at_reset().split(&mut rcu.apb2);
    let p11 = parts.p11.into_pull_up_input(&mut parts.ctl, &mut parts.octl);
    let locked = p11.lock(&mut parts.lock);
    assert!(locked.is_low(&parts.istat));
    parts.istat.sample(1 << 11);
    assert!(locked.is_high(&parts.istat));
}

#[test]
fn freeze_commits_marked_pins_and_latches_key() {
    let mut rcu = fresh_rcu();
    let mut parts = Gpio::<PA>::at_reset().split(&mut rcu.apb2);
    let p0 = parts.p0.into_push_pull_output(&mut parts.ctl);
    let p7 = parts.p7.into_open_drain_output(&mut parts.ctl);
    let _l0 = p0.lock(&mut parts.lock);
    let _l7 = p7.lock(&mut parts.lock);
    let frozen = parts.lock.freeze();
    // Every marked pin is committed and the key bit ends latched; after
    // this point no lock handle exists, so no unlock call compiles.
    assert!(frozen.key_latched());
    assert!(frozen.pin_locked(0));
    assert!(frozen.pin_locked(7));
    assert!(!frozen.pin_locked(3));
    assert_eq!(frozen.bits(), 0x0001_0081);
}
