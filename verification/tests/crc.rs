use gd32vf103_hal::crc::{Crc, CRC};
use gd32vf103_hal::rcu::{Rcu, RcuExt, RCU};

fn fresh_rcu() -> Rcu {
    RCU::new().constrain()
}

#[test]
fn crc_enables_and_releases_clock() {
    let mut rcu = fresh_rcu();
    let crc = Crc::crc(CRC::new(), &mut rcu.ahb);
    assert_ne!(rcu.ahb.en_bits() & (1 << 6), 0);
    let _raw = crc.release(&mut rcu.ahb);
    assert_eq!(rcu.ahb.en_bits() & (1 << 6), 0);
}

#[test]
fn crc_golden_fixture() {
    // The documented fixture for the hardware's fixed polynomial.
    let mut rcu = fresh_rcu();
    let crc = Crc::crc(CRC::new(), &mut rcu.ahb);
    let mut digest = crc.new_digest();
    digest.write_u32(0xABCD_1234);
    assert_eq!(digest.finish(), 0xF701_8A40);
}

#[test]
fn crc_digest_is_deterministic() {
    let mut rcu = fresh_rcu();
    let crc = Crc::crc(CRC::new(), &mut rcu.ahb);
    let mut digest = crc.new_digest();
    digest.write_u32(0xABCD_1234);
    let first = digest.finish();
    // A fresh reset and the same word stream must reproduce the result.
    let mut digest = digest.free().new_digest();
    digest.write_u32(0xABCD_1234);
    assert_eq!(digest.finish(), first);
}

#[test]
fn crc_accumulates_across_words() {
    let mut rcu = fresh_rcu();
    let crc = Crc::crc(CRC::new(), &mut rcu.ahb);
    let mut digest = crc.new_digest();
    digest.write_u32(0x1234_5678);
    assert_eq!(digest.finish(), 0xDF8A_8A2B);
    // Reading is non-destructive: more words extend the digest.
    digest.write_u32(0x1234_5678);
    assert_ne!(digest.finish(), 0xDF8A_8A2B);
    let mut digest = digest.free().new_digest();
    digest.write_u32(0xABCD_1234);
    digest.write_u32(0x1234_5678);
    assert_eq!(digest.finish(), 0xF36C_B614);
}

#[test]
fn fdata_scratch_register_round_trips() {
    let mut rcu = fresh_rcu();
    let mut crc = Crc::crc(CRC::new(), &mut rcu.ahb);
    assert_eq!(crc.fdata_read(), 0);
    crc.fdata_write(0xA5);
    assert_eq!(crc.fdata_read(), 0xA5);
}
