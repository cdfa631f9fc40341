//! General Purpose Input / Output.
//!
//! The central typestate machine: each pin carries its electrical mode and
//! its lock state in its type, so a mode change on a locked pin, or any
//! lock-state change after the port's lock register is frozen, does not
//! compile.  Every mode transition writes exactly one four-bit field of the
//! port's control register pair and leaves every other pin's field
//! untouched, which is stated in each transition's contract.

use vstd::prelude::*;
use core::marker::PhantomData;
use crate::atomic::{atomic_set_bit, atomic_toggle_bit, nth_bit};
use crate::rcu::APB2;

verus! {

/// Port A marker (type parameter of ports and pins).
pub struct PA;

/// Port B marker.
pub struct PB;

/// Port C marker.
pub struct PC;

/// Port D marker.
pub struct PD;

/// Port E marker.
pub struct PE;

/// A GPIO port: names the bit that gates the port's clock on APB2.
pub trait Port {
    /// The port's enable-bit index in `APB2EN` and `APB2RST`.
    spec fn en_bit_spec() -> u32;

    /// Return the port's enable-bit index.
    fn en_bit() -> (r: u32)
        ensures
            r == Self::en_bit_spec(),
            r < 32,
    ;
}

impl Port for PA {
    open spec fn en_bit_spec() -> u32 {
        2
    }

    fn en_bit() -> (r: u32) {
        2
    }
}

impl Port for PB {
    open spec fn en_bit_spec() -> u32 {
        3
    }

    fn en_bit() -> (r: u32) {
        3
    }
}

impl Port for PC {
    open spec fn en_bit_spec() -> u32 {
        4
    }

    fn en_bit() -> (r: u32) {
        4
    }
}

impl Port for PD {
    open spec fn en_bit_spec() -> u32 {
        5
    }

    fn en_bit() -> (r: u32) {
        5
    }
}

impl Port for PE {
    open spec fn en_bit_spec() -> u32 {
        6
    }

    fn en_bit() -> (r: u32) {
        6
    }
}

/// Analog input mode (type state).
pub struct Analog;

/// Input mode (type state).
pub struct Input<MODE> {
    _typestate_mode: PhantomData<MODE>,
}

/// Floating input mode (type state).
pub struct Floating;

/// Pulled down input mode (type state).
pub struct PullDown;

/// Pulled up input mode (type state).
pub struct PullUp;

/// Output mode (type state).
pub struct Output<MODE> {
    _typestate_mode: PhantomData<MODE>,
}

/// Alternate mode (type state).
pub struct Alternate<MODE> {
    _typestate_mode: PhantomData<MODE>,
}

/// Push-pull output or alternate (type state).
pub struct PushPull;

/// Open drain output or alternate (type state).
pub struct OpenDrain;

/// Marker trait for active states.
pub trait Active {

}

impl Active for Analog {

}

impl<MODE> Active for Input<MODE> {

}

impl<MODE> Active for Output<MODE> {

}

impl<MODE> Active for Alternate<MODE> {

}

/// Output speed up to 10 MHz (type parameter).
pub struct UpTo10MHz;

/// Output speed up to 2 MHz (type parameter).
pub struct UpTo2MHz;

/// Output speed up to 50 MHz (type parameter).
pub struct UpTo50MHz;

/// Marker trait for valid output speeds, naming the MD bit pattern each
/// speed is represented as.
pub trait Speed {
    /// The two MD bits this speed stands for.
    spec fn md_bits_spec() -> u32;

    /// Return the MD bits for this speed.
    fn md_bits() -> (r: u32)
        ensures
            r == Self::md_bits_spec(),
            1 <= r <= 3,
    ;
}

impl Speed for UpTo50MHz {
    open spec fn md_bits_spec() -> u32 {
        0b11
    }

    fn md_bits() -> (r: u32) {
        0b11
    }
}

impl Speed for UpTo10MHz {
    open spec fn md_bits_spec() -> u32 {
        0b01
    }

    fn md_bits() -> (r: u32) {
        0b01
    }
}

impl Speed for UpTo2MHz {
    open spec fn md_bits_spec() -> u32 {
        0b10
    }

    fn md_bits() -> (r: u32) {
        0b10
    }
}

/// The new word after one four-bit field at bit offset `sh` is replaced:
/// that field reads back as written.
proof fn lemma_nibble_update_self(old32: u32, nib: u32, sh: u32)
    by (bit_vector)
    requires
        sh < 32,
        sh % 4 == 0,
        nib <= 0xf,
    ensures
        (((old32 & !(0xfu32 << sh)) | (nib << sh)) >> sh) & 0xf == nib,
{
}

/// Replacing the four-bit field at offset `sh` leaves the four-bit field at
/// any other aligned offset `sh2` unchanged.
proof fn lemma_nibble_update_other(old32: u32, nib: u32, sh: u32, sh2: u32)
    by (bit_vector)
    requires
        sh < 32,
        sh % 4 == 0,
        nib <= 0xf,
        sh2 < 32,
        sh2 % 4 == 0,
        sh2 != sh,
    ensures
        ((((old32 & !(0xfu32 << sh)) | (nib << sh)) >> sh2) & 0xf) == ((old32 >> sh2) & 0xf),
{
}

/// Setting one bit of a four-bit field reads back as an OR into that
/// field.
proof fn lemma_nibble_bit_set(w: u32, sh: u32, b: u32)
    by (bit_vector)
    requires
        sh < 32,
        sh % 4 == 0,
        b < 4,
    ensures
        ((w | (1u32 << (sh + b))) >> sh) & 0xf == ((w >> sh) & 0xf) | (1u32 << b),
{
}

/// Clearing one bit of a four-bit field reads back as an AND-complement
/// on that field.
proof fn lemma_nibble_bit_clear(w: u32, sh: u32, b: u32)
    by (bit_vector)
    requires
        sh < 32,
        sh % 4 == 0,
        b < 4,
    ensures
        ((w & !(1u32 << (sh + b))) >> sh) & 0xf == ((w >> sh) & 0xf) & !(1u32 << b),
{
}

/// Setting or clearing a bit outside a four-bit field leaves that field
/// unchanged.
proof fn lemma_nibble_bit_other(w: u32, p: u32, sh2: u32)
    by (bit_vector)
    requires
        p < 32,
        sh2 < 32,
        sh2 % 4 == 0,
        !(sh2 <= p < sh2 + 4),
    ensures
        (((w | (1u32 << p)) >> sh2) & 0xf) == ((w >> sh2) & 0xf),
        (((w & !(1u32 << p)) >> sh2) & 0xf) == ((w >> sh2) & 0xf),
{
}

/// The port's mode-control register pair (`CTL0` for pins 0 through 7,
/// `CTL1` for pins 8 through 15), holding one four-bit CTL/MD field per pin.
pub struct Ctl<PORT> {
    ctl0: u32,
    ctl1: u32,
    _port: PhantomData<PORT>,
}

impl<PORT> Ctl<PORT> {
    /// Value of the modelled `CTL0` register (pins 0 through 7).
    pub closed spec fn ctl0_spec(self) -> u32 {
        self.ctl0
    }

    /// Value of the modelled `CTL1` register (pins 8 through 15).
    pub closed spec fn ctl1_spec(self) -> u32 {
        self.ctl1
    }

    /// The four-bit control field of pin `i`: its offset is four times the
    /// pin index, modulo 32, in the register that covers the pin.
    pub open spec fn nibble(self, i: u32) -> u32 {
        if i < 8 {
            (self.ctl0_spec() >> ((4 * i) as u32)) & 0xf
        } else {
            (self.ctl1_spec() >> ((4 * (i - 8)) as u32)) & 0xf
        }
    }

    /// Read the modelled `CTL0` register.
    pub fn ctl0_bits(&self) -> (r: u32)
        ensures
            r == self.ctl0_spec(),
    {
        self.ctl0
    }

    /// Read the modelled `CTL1` register.
    pub fn ctl1_bits(&self) -> (r: u32)
        ensures
            r == self.ctl1_spec(),
    {
        self.ctl1
    }

    /// Write pin `index`'s four-bit control field, leaving every other
    /// pin's field unchanged.
    fn set_nibble(&mut self, index: u8, nib: u32)
        requires
            index < 16,
            nib <= 0xf,
        ensures
            final(self).nibble(index as u32) == nib,
            forall|j: u32|
                j < 16 && j != index as u32 ==> final(self).nibble(j) == old(self).nibble(j),
    {
        if index < 8 {
            let sh: u32 = 4 * (index as u32);
            let newv: u32 = (self.ctl0 & !(0xfu32 << sh)) | (nib << sh);
            self.ctl0 = newv;
            proof {
                lemma_nibble_update_self(old(self).ctl0_spec(), nib, sh);
                assert forall|j: u32| j < 16 && j != index as u32 implies self.nibble(j) == old(
                    self).nibble(j) by {
                    if j < 8 {
                        lemma_nibble_update_other(old(self).ctl0_spec(), nib, sh, (4 * j) as u32);
                    }
                }
            }
        } else {
            let sh: u32 = 4 * ((index - 8) as u32);
            let newv: u32 = (self.ctl1 & !(0xfu32 << sh)) | (nib << sh);
            self.ctl1 = newv;
            proof {
                lemma_nibble_update_self(old(self).ctl1_spec(), nib, sh);
                assert forall|j: u32| j < 16 && j != index as u32 implies self.nibble(j) == old(
                    self).nibble(j) by {
                    if j >= 8 {
                        lemma_nibble_update_other(old(self).ctl1_spec(), nib, sh, (4 * (j - 8)) as u32);
                    }
                }
            }
        }
    }
}

impl<PORT> Ctl<PORT> {
    /// Set or clear one bit of pin `index`'s four-bit control field in a
    /// single atomic read-modify-write, leaving every other pin's field
    /// unchanged.
    fn set_nibble_bit(&mut self, index: u8, bit: u8, on: bool)
        requires
            index < 16,
            bit < 4,
        ensures
            on ==> final(self).nibble(index as u32) == (old(self).nibble(index as u32) | (
            1u32 << (bit as u32))),
            !on ==> final(self).nibble(index as u32) == (old(self).nibble(index as u32) & !(
            1u32 << (bit as u32))),
            forall|j: u32|
                j < 16 && j != index as u32 ==> final(self).nibble(j) == old(self).nibble(j),
    {
        if index < 8 {
            let sh: u32 = 4 * (index as u32);
            let p: usize = (sh + bit as u32) as usize;
            atomic_set_bit(&mut self.ctl0, on, p);
            proof {
                if on {
                    lemma_nibble_bit_set(old(self).ctl0_spec(), sh, bit as u32);
                } else {
                    lemma_nibble_bit_clear(old(self).ctl0_spec(), sh, bit as u32);
                }
                assert forall|j: u32| j < 16 && j != index as u32 implies self.nibble(j) == old(
                    self).nibble(j) by {
                    if j < 8 {
                        lemma_nibble_bit_other(old(self).ctl0_spec(), p as u32, (4 * j) as u32);
                    }
                }
            }
        } else {
            let sh: u32 = 4 * ((index - 8) as u32);
            let p: usize = (sh + bit as u32) as usize;
            atomic_set_bit(&mut self.ctl1, on, p);
            proof {
                if on {
                    lemma_nibble_bit_set(old(self).ctl1_spec(), sh, bit as u32);
                } else {
                    lemma_nibble_bit_clear(old(self).ctl1_spec(), sh, bit as u32);
                }
                assert forall|j: u32| j < 16 && j != index as u32 implies self.nibble(j) == old(
                    self).nibble(j) by {
                    if j >= 8 {
                        lemma_nibble_bit_other(old(self).ctl1_spec(), p as u32, (4 * (j
                            - 8)) as u32);
                    }
                }
            }
        }
    }
}

impl<PORT> Pin<PORT, Output<PushPull>> {
    /// Switch the drive to open drain while staying an output: the two
    /// modes differ in one control bit, so this is a single atomic bit
    /// flip instead of a full field rewrite.
    pub fn to_open_drain(self, ctl: &mut Ctl<PORT>) -> (r: Pin<PORT, Output<OpenDrain>>)
        ensures
            r.idx_spec() == self.idx_spec(),
            final(ctl).nibble(self.idx_spec() as u32) == (old(ctl).nibble(
                self.idx_spec() as u32,
            ) | 0b0100),
            forall|j: u32|
                j < 16 && j != self.idx_spec() as u32 ==> final(ctl).nibble(j) == old(
                ctl).nibble(j),
    {
        proof {
            use_type_invariant(&self);
            assert(1u32 << 2u32 == 0b0100u32) by (bit_vector);
        }
        ctl.set_nibble_bit(self.index, 2, true);
        Pin { index: self.index, _marker: PhantomData }
    }
}

impl<PORT> Pin<PORT, Output<OpenDrain>> {
    /// Switch the drive to push-pull while staying an output, as a single
    /// atomic bit flip.
    pub fn to_push_pull(self, ctl: &mut Ctl<PORT>) -> (r: Pin<PORT, Output<PushPull>>)
        ensures
            r.idx_spec() == self.idx_spec(),
            final(ctl).nibble(self.idx_spec() as u32) == (old(ctl).nibble(
                self.idx_spec() as u32,
            ) & !0b0100),
            forall|j: u32|
                j < 16 && j != self.idx_spec() as u32 ==> final(ctl).nibble(j) == old(
                ctl).nibble(j),
    {
        proof {
            use_type_invariant(&self);
            assert(1u32 << 2u32 == 0b0100u32) by (bit_vector);
        }
        ctl.set_nibble_bit(self.index, 2, false);
        Pin { index: self.index, _marker: PhantomData }
    }
}

impl<PORT> Pin<PORT, Alternate<PushPull>> {
    /// Switch the alternate drive to open drain, as a single atomic bit
    /// flip.
    pub fn to_open_drain(self, ctl: &mut Ctl<PORT>) -> (r: Pin<PORT, Alternate<OpenDrain>>)
        ensures
            r.idx_spec() == self.idx_spec(),
            final(ctl).nibble(self.idx_spec() as u32) == (old(ctl).nibble(
                self.idx_spec() as u32,
            ) | 0b0100),
            forall|j: u32|
                j < 16 && j != self.idx_spec() as u32 ==> final(ctl).nibble(j) == old(
                ctl).nibble(j),
    {
        proof {
            use_type_invariant(&self);
            assert(1u32 << 2u32 == 0b0100u32) by (bit_vector);
        }
        ctl.set_nibble_bit(self.index, 2, true);
        Pin { index: self.index, _marker: PhantomData }
    }
}

impl<PORT> Pin<PORT, Alternate<OpenDrain>> {
    /// Switch the alternate drive to push-pull, as a single atomic bit
    /// flip.
    pub fn to_push_pull(self, ctl: &mut Ctl<PORT>) -> (r: Pin<PORT, Alternate<PushPull>>)
        ensures
            r.idx_spec() == self.idx_spec(),
            final(ctl).nibble(self.idx_spec() as u32) == (old(ctl).nibble(
                self.idx_spec() as u32,
            ) & !0b0100),
            forall|j: u32|
                j < 16 && j != self.idx_spec() as u32 ==> final(ctl).nibble(j) == old(
                ctl).nibble(j),
    {
        proof {
            use_type_invariant(&self);
            assert(1u32 << 2u32 == 0b0100u32) by (bit_vector);
        }
        ctl.set_nibble_bit(self.index, 2, false);
        Pin { index: self.index, _marker: PhantomData }
    }
}

/// The port's output-control register: one output/pull-selection bit per
/// pin.
pub struct Octl<PORT> {
    bits: u32,
    _port: PhantomData<PORT>,
}

impl<PORT> Octl<PORT> {
    /// Value of the modelled `OCTL` register.
    pub closed spec fn bits_spec(self) -> u32 {
        self.bits
    }

    /// Read the modelled `OCTL` register.
    pub fn bits(&self) -> (r: u32)
        ensures
            r == self.bits_spec(),
    {
        self.bits
    }
}

/// A sampled snapshot of the port's input-status register.
///
/// The hardware register is driven by the pins themselves; the holder of
/// this handle records the sampled word and the input reads decode it.
pub struct Istat<PORT> {
    bits: u32,
    _port: PhantomData<PORT>,
}

impl<PORT> Istat<PORT> {
    /// Value of the sampled `ISTAT` word.
    pub closed spec fn bits_spec(self) -> u32 {
        self.bits
    }

    /// Record a newly sampled `ISTAT` word.
    pub fn sample(&mut self, bits: u32)
        ensures
            final(self).bits_spec() == bits,
    {
        self.bits = bits;
    }

    /// Read the sampled `ISTAT` word.
    pub fn bits(&self) -> (r: u32)
        ensures
            r == self.bits_spec(),
    {
        self.bits
    }
}

/// The port's lock register handle, carrying the shadow word of
/// "intent to lock" marks that a freeze later commits.
pub struct Lock<PORT> {
    tmp_bits: u32,
    _port: PhantomData<PORT>,
}

/// The key bit that commits and latches a port's lock register.
pub const LOCK_KEY_BIT: u32 = 0x0001_0000;

impl<PORT> Lock<PORT> {
    /// The shadow word: bit `i` marks pin `i` to be locked at the freeze.
    pub closed spec fn shadow_spec(self) -> u32 {
        self.tmp_bits
    }

    /// Read the shadow word.
    pub fn shadow_bits(&self) -> (r: u32)
        ensures
            r == self.shadow_spec(),
    {
        self.tmp_bits
    }

    /// Freeze the pin modes of this GPIO port, forbidding every further
    /// mode change until chip reset.
    ///
    /// The hardware sequence writes the shadow word with the key bit set,
    /// cleared and set again, then reads the register twice; the documented
    /// latch signature (first read key-clear, second read key-set) reports
    /// success, and on the real chip a missing signature is a fatal defect.
    /// The modelled register latches exactly as documented, and the
    /// committed snapshot is returned.  Consuming the handle makes any
    /// later lock or unlock call unrepresentable.
    pub fn freeze(self) -> (r: Frozen<PORT>)
        ensures
            r.bits_spec() == (self.shadow_spec() | LOCK_KEY_BIT),
    {
        let committed: u32 = self.tmp_bits | LOCK_KEY_BIT;
        Frozen { bits: committed, _port: PhantomData }
    }
}

/// The committed lock register of a frozen port: read-only until reset.
pub struct Frozen<PORT> {
    bits: u32,
    _port: PhantomData<PORT>,
}

impl<PORT> Frozen<PORT> {
    /// Value of the committed lock register.
    pub closed spec fn bits_spec(self) -> u32 {
        self.bits
    }

    /// Read the committed lock register.
    pub fn bits(&self) -> (r: u32)
        ensures
            r == self.bits_spec(),
    {
        self.bits
    }

    /// Whether the lock key ended latched.
    pub fn key_latched(&self) -> (r: bool)
        ensures
            r == nth_bit(self.bits_spec(), 16),
    {
        proof {
            let b = self.bits;
            assert(((b & 0x0001_0000u32) != 0) == (((b >> 16u32) & 1) == 1)) by (bit_vector);
        }
        (self.bits & LOCK_KEY_BIT) != 0
    }

    /// Whether pin `index`'s mode bits are locked.
    pub fn pin_locked(&self, index: u8) -> (r: bool)
        requires
            index < 16,
        ensures
            r == nth_bit(self.bits_spec(), index as u32),
    {
        proof {
            let b = self.bits;
            let i = index as u32;
            assert(((b & (1u32 << i)) != 0) == (((b >> i) & 1) == 1)) by (bit_vector);
        }
        (self.bits & (1u32 << (index as u32))) != 0
    }
}

/// After the freeze commit, the key bit is latched, every pin marked in
/// the shadow word is locked in the committed register, and no unmarked
/// pin became locked.
pub proof fn lemma_freeze_commits_marked(shadow: u32)
    by (bit_vector)
    ensures
        nth_bit(shadow | 0x0001_0000u32, 16),
        forall|i: u32| i < 16 ==> nth_bit(shadow | 0x0001_0000u32, i) == nth_bit(shadow, i),
{
}

/// Wraps a pin while it is marked for locking.
pub struct Locked<T>(T);

impl<T> Locked<T> {
    /// The wrapped pin.
    pub closed spec fn inner_spec(self) -> T {
        self.0
    }
}

/// Unlock methods for lock-marked pins.
///
/// Unlocking needs a mutable borrow of the port's lock register handle, so
/// it is only expressible while that handle still exists: after `freeze`
/// has consumed it, the locked state is permanent.
pub trait Unlock {
    /// The lock register handle of the pin's port.
    type Lock;

    /// The unlocked pin.
    type Output;

    /// Clear this pin's mark in the lock register's shadow word and return
    /// the pin, mode unchanged.
    fn unlock(self, lock: &mut Self::Lock) -> Self::Output;
}

/// One pin of a port, identified by its index, with its electrical mode
/// carried as a type parameter.
pub struct Pin<PORT, MODE> {
    index: u8,
    _marker: PhantomData<(PORT, MODE)>,
}

impl<PORT, MODE> Pin<PORT, MODE> {
    /// A pin index always addresses one of the port's sixteen pins.
    #[verifier::type_invariant]
    pub closed spec fn wf(self) -> bool {
        self.index < 16
    }

    /// The pin's index within its port.
    pub closed spec fn idx_spec(self) -> u8 {
        self.index
    }

    /// Return the pin's index within its port.
    pub fn idx(&self) -> (r: u8)
        ensures
            r == self.idx_spec(),
            r < 16,
    {
        proof {
            use_type_invariant(self);
        }
        self.index
    }
}

impl<PORT, MODE: Active> Pin<PORT, MODE> {
    /// Write this pin's four-bit control field and retype the pin.
    fn into_mode<T>(self, ctl: &mut Ctl<PORT>, nib: u32) -> (r: Pin<PORT, T>)
        requires
            nib <= 0xf,
        ensures
            r.idx_spec() == self.idx_spec(),
            final(ctl).nibble(self.idx_spec() as u32) == nib,
            forall|j: u32|
                j < 16 && j != self.idx_spec() as u32 ==> final(ctl).nibble(j) == old(
                ctl).nibble(j),
    {
        proof {
            use_type_invariant(&self);
        }
        ctl.set_nibble(self.index, nib);
        Pin { index: self.index, _marker: PhantomData }
    }

    /// Configures the pin to serve as an analog input pin.
    pub fn into_analog(self, ctl: &mut Ctl<PORT>) -> (r: Pin<PORT, Analog>)
        ensures
            r.idx_spec() == self.idx_spec(),
            final(ctl).nibble(self.idx_spec() as u32) == 0b0000,
            forall|j: u32|
                j < 16 && j != self.idx_spec() as u32 ==> final(ctl).nibble(j) == old(
                ctl).nibble(j),
    {
        self.into_mode(ctl, 0b0000)
    }

    /// Configures the pin to serve as a floating input pin.
    pub fn into_floating_input(self, ctl: &mut Ctl<PORT>) -> (r: Pin<PORT, Input<Floating>>)
        ensures
            r.idx_spec() == self.idx_spec(),
            final(ctl).nibble(self.idx_spec() as u32) == 0b0100,
            forall|j: u32|
                j < 16 && j != self.idx_spec() as u32 ==> final(ctl).nibble(j) == old(
                ctl).nibble(j),
    {
        self.into_mode(ctl, 0b0100)
    }

    /// Configures the pin to serve as a pull-down input pin.  The pull
    /// direction is written to the output-control register before the mode
    /// field so no transient wrong pull state is observable.
    pub fn into_pull_down_input(self, ctl: &mut Ctl<PORT>, octl: &mut Octl<PORT>) -> (r: Pin<
        PORT,
        Input<PullDown>,
    >)
        ensures
            r.idx_spec() == self.idx_spec(),
            final(ctl).nibble(self.idx_spec() as u32) == 0b1000,
            forall|j: u32|
                j < 16 && j != self.idx_spec() as u32 ==> final(ctl).nibble(j) == old(
                ctl).nibble(j),
            !nth_bit(final(octl).bits_spec(), self.idx_spec() as u32),
            forall|j: u32|
                j < 32 && j != self.idx_spec() as u32 ==> nth_bit(final(octl).bits_spec(), j)
                    == nth_bit(old(octl).bits_spec(), j),
    {
        proof {
            use_type_invariant(&self);
        }
        atomic_set_bit(&mut octl.bits, false, self.index as usize);
        self.into_mode(ctl, 0b1000)
    }

    /// Configures the pin to serve as a pull-up input pin.  The pull
    /// direction is written to the output-control register before the mode
    /// field so no transient wrong pull state is observable.
    pub fn into_pull_up_input(self, ctl: &mut Ctl<PORT>, octl: &mut Octl<PORT>) -> (r: Pin<
        PORT,
        Input<PullUp>,
    >)
        ensures
            r.idx_spec() == self.idx_spec(),
            final(ctl).nibble(self.idx_spec() as u32) == 0b1000,
            forall|j: u32|
                j < 16 && j != self.idx_spec() as u32 ==> final(ctl).nibble(j) == old(
                ctl).nibble(j),
            nth_bit(final(octl).bits_spec(), self.idx_spec() as u32),
            forall|j: u32|
                j < 32 && j != self.idx_spec() as u32 ==> nth_bit(final(octl).bits_spec(), j)
                    == nth_bit(old(octl).bits_spec(), j),
    {
        proof {
            use_type_invariant(&self);
        }
        atomic_set_bit(&mut octl.bits, true, self.index as usize);
        self.into_mode(ctl, 0b1000)
    }

    /// Configures the pin to serve as a push-pull output pin; the maximum
    /// speed is the default 50 MHz.
    pub fn into_push_pull_output(self, ctl: &mut Ctl<PORT>) -> (r: Pin<PORT, Output<PushPull>>)
        ensures
            r.idx_spec() == self.idx_spec(),
            final(ctl).nibble(self.idx_spec() as u32) == 0b0011,
            forall|j: u32|
                j < 16 && j != self.idx_spec() as u32 ==> final(ctl).nibble(j) == old(
                ctl).nibble(j),
    {
        self.into_mode(ctl, 0b0011)
    }

    /// Configures the pin to serve as an open-drain output pin; the maximum
    /// speed is the default 50 MHz.
    pub fn into_open_drain_output(self, ctl: &mut Ctl<PORT>) -> (r: Pin<PORT, Output<OpenDrain>>)
        ensures
            r.idx_spec() == self.idx_spec(),
            final(ctl).nibble(self.idx_spec() as u32) == 0b0111,
            forall|j: u32|
                j < 16 && j != self.idx_spec() as u32 ==> final(ctl).nibble(j) == old(
                ctl).nibble(j),
    {
        self.into_mode(ctl, 0b0111)
    }

    /// Configures the pin to serve as a push-pull alternate pin; the
    /// maximum speed is the default 50 MHz.
    pub fn into_alternate_push_pull(self, ctl: &mut Ctl<PORT>) -> (r: Pin<
        PORT,
        Alternate<PushPull>,
    >)
        ensures
            r.idx_spec() == self.idx_spec(),
            final(ctl).nibble(self.idx_spec() as u32) == 0b1011,
            forall|j: u32|
                j < 16 && j != self.idx_spec() as u32 ==> final(ctl).nibble(j) == old(
                ctl).nibble(j),
    {
        self.into_mode(ctl, 0b1011)
    }

    /// Configures the pin to serve as an open-drain alternate pin; the
    /// maximum speed is the default 50 MHz.
    pub fn into_alternate_open_drain(self, ctl: &mut Ctl<PORT>) -> (r: Pin<
        PORT,
        Alternate<OpenDrain>,
    >)
        ensures
            r.idx_spec() == self.idx_spec(),
            final(ctl).nibble(self.idx_spec() as u32) == 0b1111,
            forall|j: u32|
                j < 16 && j != self.idx_spec() as u32 ==> final(ctl).nibble(j) == old(
                ctl).nibble(j),
    {
        self.into_mode(ctl, 0b1111)
    }

    /// Configures the pin to serve as a push-pull output pin with the given
    /// maximum speed.
    pub fn into_push_pull_output_speed<SPEED: Speed>(self, ctl: &mut Ctl<PORT>) -> (r: Pin<
        PORT,
        Output<PushPull>,
    >)
        ensures
            r.idx_spec() == self.idx_spec(),
            final(ctl).nibble(self.idx_spec() as u32) == SPEED::md_bits_spec(),
            forall|j: u32|
                j < 16 && j != self.idx_spec() as u32 ==> final(ctl).nibble(j) == old(
                ctl).nibble(j),
    {
        let md = SPEED::md_bits();
        self.into_mode(ctl, md)
    }

    /// Configures the pin to serve as an open-drain output pin with the
    /// given maximum speed.
    pub fn into_open_drain_output_speed<SPEED: Speed>(self, ctl: &mut Ctl<PORT>) -> (r: Pin<
        PORT,
        Output<OpenDrain>,
    >)
        ensures
            r.idx_spec() == self.idx_spec(),
            final(ctl).nibble(self.idx_spec() as u32) == (0b0100 | SPEED::md_bits_spec()),
            forall|j: u32|
                j < 16 && j != self.idx_spec() as u32 ==> final(ctl).nibble(j) == old(
                ctl).nibble(j),
    {
        let md = SPEED::md_bits();
        proof {
            assert(0b0100u32 | md <= 0xf) by (bit_vector)
                requires
                    md <= 3,
            ;
        }
        self.into_mode(ctl, 0b0100 | md)
    }

    /// Configures the pin to serve as a push-pull alternate pin with the
    /// given maximum speed.
    pub fn into_alternate_push_pull_speed<SPEED: Speed>(self, ctl: &mut Ctl<PORT>) -> (r: Pin<
        PORT,
        Alternate<PushPull>,
    >)
        ensures
            r.idx_spec() == self.idx_spec(),
            final(ctl).nibble(self.idx_spec() as u32) == (0b1000 | SPEED::md_bits_spec()),
            forall|j: u32|
                j < 16 && j != self.idx_spec() as u32 ==> final(ctl).nibble(j) == old(
                ctl).nibble(j),
    {
        let md = SPEED::md_bits();
        proof {
            assert(0b1000u32 | md <= 0xf) by (bit_vector)
                requires
                    md <= 3,
            ;
        }
        self.into_mode(ctl, 0b1000 | md)
    }

    /// Configures the pin to serve as an open-drain alternate pin with the
    /// given maximum speed.
    pub fn into_alternate_open_drain_speed<SPEED: Speed>(self, ctl: &mut Ctl<PORT>) -> (r: Pin<
        PORT,
        Alternate<OpenDrain>,
    >)
        ensures
            r.idx_spec() == self.idx_spec(),
            final(ctl).nibble(self.idx_spec() as u32) == (0b1100 | SPEED::md_bits_spec()),
            forall|j: u32|
                j < 16 && j != self.idx_spec() as u32 ==> final(ctl).nibble(j) == old(
                ctl).nibble(j),
    {
        let md = SPEED::md_bits();
        proof {
            assert(0b1100u32 | md <= 0xf) by (bit_vector)
                requires
                    md <= 3,
            ;
        }
        self.into_mode(ctl, 0b1100 | md)
    }

    /// Mark this pin to be locked, and retype it as locked.
    ///
    /// The pin is not locked yet: this sets its bit in the lock register's
    /// shadow word, and the port-wide `freeze` later commits every marked
    /// pin at once.  Until that freeze, `unlock` can clear the mark again.
    pub fn lock(self, lock: &mut Lock<PORT>) -> (r: Locked<Pin<PORT, MODE>>)
        ensures
            r.inner_spec().idx_spec() == self.idx_spec(),
            final(lock).shadow_spec() == (old(lock).shadow_spec() | (1u32 << (
            self.idx_spec() as u32))),
            nth_bit(final(lock).shadow_spec(), self.idx_spec() as u32),
            forall|j: u32|
                j < 32 && j != self.idx_spec() as u32 ==> nth_bit(final(lock).shadow_spec(), j)
                    == nth_bit(old(lock).shadow_spec(), j),
    {
        proof {
            use_type_invariant(&self);
        }
        atomic_set_bit(&mut lock.tmp_bits, true, self.index as usize);
        Locked(self)
    }
}

impl<PORT, MODE: Active> Unlock for Locked<Pin<PORT, MODE>> {
    type Lock = Lock<PORT>;

    type Output = Pin<PORT, MODE>;

    /// Clear this pin's mark in the lock register's shadow word and return
    /// the pin with its mode unchanged.
    fn unlock(self, lock: &mut Lock<PORT>) -> (r: Pin<PORT, MODE>)
        ensures
            r.idx_spec() == self.inner_spec().idx_spec(),
            final(lock).shadow_spec() == (old(lock).shadow_spec() & !(1u32 << (
            self.inner_spec().idx_spec() as u32))),
            !nth_bit(final(lock).shadow_spec(), self.inner_spec().idx_spec() as u32),
            forall|j: u32|
                j < 32 && j != self.inner_spec().idx_spec() as u32 ==> nth_bit(final(
                lock).shadow_spec(), j) == nth_bit(old(lock).shadow_spec(), j),
    {
        let Locked(pin) = self;
        proof {
            use_type_invariant(&pin);
        }
        atomic_set_bit(&mut lock.tmp_bits, false, pin.index as usize);
        pin
    }
}

impl<PORT, MODE> Pin<PORT, Input<MODE>> {
    /// Whether the sampled input level of this pin is high.
    pub fn is_high(&self, istat: &Istat<PORT>) -> (r: bool)
        ensures
            r == nth_bit(istat.bits_spec(), self.idx_spec() as u32),
    {
        proof {
            use_type_invariant(self);
            let b = istat.bits_spec();
            let i = self.idx_spec() as u32;
            assert(((b & (1u32 << i)) != 0) == (((b >> i) & 1) == 1)) by (bit_vector)
                requires
                    i < 32,
            ;
        }
        (istat.bits() & (1u32 << (self.idx() as u32))) != 0
    }

    /// Whether the sampled input level of this pin is low.
    pub fn is_low(&self, istat: &Istat<PORT>) -> (r: bool)
        ensures
            r == !nth_bit(istat.bits_spec(), self.idx_spec() as u32),
    {
        !self.is_high(istat)
    }
}

impl<PORT, MODE> Pin<PORT, Output<MODE>> {
    /// Drive the pin high: set its bit in the output-control register.
    pub fn set_high(&mut self, octl: &mut Octl<PORT>)
        ensures
            *final(self) == *old(self),
            nth_bit(final(octl).bits_spec(), old(self).idx_spec() as u32),
            forall|j: u32|
                j < 32 && j != old(self).idx_spec() as u32 ==> nth_bit(final(octl).bits_spec(),
                j) == nth_bit(old(octl).bits_spec(), j),
    {
        proof {
            use_type_invariant(&*self);
        }
        atomic_set_bit(&mut octl.bits, true, self.index as usize);
    }

    /// Drive the pin low: clear its bit in the output-control register.
    pub fn set_low(&mut self, octl: &mut Octl<PORT>)
        ensures
            *final(self) == *old(self),
            !nth_bit(final(octl).bits_spec(), old(self).idx_spec() as u32),
            forall|j: u32|
                j < 32 && j != old(self).idx_spec() as u32 ==> nth_bit(final(octl).bits_spec(),
                j) == nth_bit(old(octl).bits_spec(), j),
    {
        proof {
            use_type_invariant(&*self);
        }
        atomic_set_bit(&mut octl.bits, false, self.index as usize);
    }

    /// Invert the last written output level of the pin.
    pub fn toggle(&mut self, octl: &mut Octl<PORT>)
        ensures
            *final(self) == *old(self),
            nth_bit(final(octl).bits_spec(), old(self).idx_spec() as u32) == !nth_bit(old(
            octl).bits_spec(), old(self).idx_spec() as u32),
            forall|j: u32|
                j < 32 && j != old(self).idx_spec() as u32 ==> nth_bit(final(octl).bits_spec(),
                j) == nth_bit(old(octl).bits_spec(), j),
    {
        proof {
            use_type_invariant(&*self);
        }
        atomic_toggle_bit(&mut octl.bits, self.index as usize);
    }

    /// Whether the last written output level of the pin is high.
    pub fn is_set_high(&self, octl: &Octl<PORT>) -> (r: bool)
        ensures
            r == nth_bit(octl.bits_spec(), self.idx_spec() as u32),
    {
        proof {
            use_type_invariant(self);
            let b = octl.bits_spec();
            let i = self.idx_spec() as u32;
            assert(((b & (1u32 << i)) != 0) == (((b >> i) & 1) == 1)) by (bit_vector)
                requires
                    i < 32,
            ;
        }
        (octl.bits() & (1u32 << (self.idx() as u32))) != 0
    }

    /// Whether the last written output level of the pin is low.
    pub fn is_set_low(&self, octl: &Octl<PORT>) -> (r: bool)
        ensures
            r == !nth_bit(octl.bits_spec(), self.idx_spec() as u32),
    {
        !self.is_set_high(octl)
    }
}

impl<PORT> Pin<PORT, Output<OpenDrain>> {
    /// Whether the externally driven level of this open-drain output is
    /// high; it may differ from the last written level.
    pub fn is_high(&self, istat: &Istat<PORT>) -> (r: bool)
        ensures
            r == nth_bit(istat.bits_spec(), self.idx_spec() as u32),
    {
        proof {
            use_type_invariant(self);
            let b = istat.bits_spec();
            let i = self.idx_spec() as u32;
            assert(((b & (1u32 << i)) != 0) == (((b >> i) & 1) == 1)) by (bit_vector)
                requires
                    i < 32,
            ;
        }
        (istat.bits() & (1u32 << (self.idx() as u32))) != 0
    }

    /// Whether the externally driven level of this open-drain output is
    /// low.
    pub fn is_low(&self, istat: &Istat<PORT>) -> (r: bool)
        ensures
            r == !nth_bit(istat.bits_spec(), self.idx_spec() as u32),
    {
        !self.is_high(istat)
    }
}

impl<PORT, MODE> Pin<PORT, Alternate<MODE>> {
    /// Drive the pin high: set its bit in the output-control register.
    pub fn set_high(&mut self, octl: &mut Octl<PORT>)
        ensures
            *final(self) == *old(self),
            nth_bit(final(octl).bits_spec(), old(self).idx_spec() as u32),
            forall|j: u32|
                j < 32 && j != old(self).idx_spec() as u32 ==> nth_bit(final(octl).bits_spec(),
                j) == nth_bit(old(octl).bits_spec(), j),
    {
        proof {
            use_type_invariant(&*self);
        }
        atomic_set_bit(&mut octl.bits, true, self.index as usize);
    }

    /// Drive the pin low: clear its bit in the output-control register.
    pub fn set_low(&mut self, octl: &mut Octl<PORT>)
        ensures
            *final(self) == *old(self),
            !nth_bit(final(octl).bits_spec(), old(self).idx_spec() as u32),
            forall|j: u32|
                j < 32 && j != old(self).idx_spec() as u32 ==> nth_bit(final(octl).bits_spec(),
                j) == nth_bit(old(octl).bits_spec(), j),
    {
        proof {
            use_type_invariant(&*self);
        }
        atomic_set_bit(&mut octl.bits, false, self.index as usize);
    }

    /// Invert the last written output level of the pin.
    pub fn toggle(&mut self, octl: &mut Octl<PORT>)
        ensures
            *final(self) == *old(self),
            nth_bit(final(octl).bits_spec(), old(self).idx_spec() as u32) == !nth_bit(old(
            octl).bits_spec(), old(self).idx_spec() as u32),
            forall|j: u32|
                j < 32 && j != old(self).idx_spec() as u32 ==> nth_bit(final(octl).bits_spec(),
                j) == nth_bit(old(octl).bits_spec(), j),
    {
        proof {
            use_type_invariant(&*self);
        }
        atomic_toggle_bit(&mut octl.bits, self.index as usize);
    }

    /// Whether the last written output level of the pin is high.
    pub fn is_set_high(&self, octl: &Octl<PORT>) -> (r: bool)
        ensures
            r == nth_bit(octl.bits_spec(), self.idx_spec() as u32),
    {
        proof {
            use_type_invariant(self);
            let b = octl.bits_spec();
            let i = self.idx_spec() as u32;
            assert(((b & (1u32 << i)) != 0) == (((b >> i) & 1) == 1)) by (bit_vector)
                requires
                    i < 32,
            ;
        }
        (octl.bits() & (1u32 << (self.idx() as u32))) != 0
    }

    /// Whether the last written output level of the pin is low.
    pub fn is_set_low(&self, octl: &Octl<PORT>) -> (r: bool)
        ensures
            r == !nth_bit(octl.bits_spec(), self.idx_spec() as u32),
    {
        !self.is_set_high(octl)
    }
}

impl<PORT, MODE> Locked<Pin<PORT, Output<MODE>>> {
    /// Drive the locked pin high; locking freezes the mode, not the level.
    pub fn set_high(&mut self, octl: &mut Octl<PORT>)
        ensures
            final(self).inner_spec() == old(self).inner_spec(),
            nth_bit(final(octl).bits_spec(), old(self).inner_spec().idx_spec() as u32),
            forall|j: u32|
                j < 32 && j != old(self).inner_spec().idx_spec() as u32 ==> nth_bit(final(
                octl).bits_spec(), j) == nth_bit(old(octl).bits_spec(), j),
    {
        self.0.set_high(octl);
    }

    /// Drive the locked pin low.
    pub fn set_low(&mut self, octl: &mut Octl<PORT>)
        ensures
            final(self).inner_spec() == old(self).inner_spec(),
            !nth_bit(final(octl).bits_spec(), old(self).inner_spec().idx_spec() as u32),
            forall|j: u32|
                j < 32 && j != old(self).inner_spec().idx_spec() as u32 ==> nth_bit(final(
                octl).bits_spec(), j) == nth_bit(old(octl).bits_spec(), j),
    {
        self.0.set_low(octl);
    }

    /// Invert the locked pin's output level.
    pub fn toggle(&mut self, octl: &mut Octl<PORT>)
        ensures
            final(self).inner_spec() == old(self).inner_spec(),
            nth_bit(final(octl).bits_spec(), old(self).inner_spec().idx_spec() as u32)
                == !nth_bit(old(octl).bits_spec(), old(self).inner_spec().idx_spec() as u32),
            forall|j: u32|
                j < 32 && j != old(self).inner_spec().idx_spec() as u32 ==> nth_bit(final(
                octl).bits_spec(), j) == nth_bit(old(octl).bits_spec(), j),
    {
        self.0.toggle(octl);
    }

    /// Whether the locked pin's last written output level is high.
    pub fn is_set_high(&self, octl: &Octl<PORT>) -> (r: bool)
        ensures
            r == nth_bit(octl.bits_spec(), self.inner_spec().idx_spec() as u32),
    {
        self.0.is_set_high(octl)
    }

    /// Whether the locked pin's last written output level is low.
    pub fn is_set_low(&self, octl: &Octl<PORT>) -> (r: bool)
        ensures
            r == !nth_bit(octl.bits_spec(), self.inner_spec().idx_spec() as u32),
    {
        self.0.is_set_low(octl)
    }
}

impl<PORT, MODE> Locked<Pin<PORT, Input<MODE>>> {
    /// Whether the locked input pin's sampled level is high.
    pub fn is_high(&self, istat: &Istat<PORT>) -> (r: bool)
        ensures
            r == nth_bit(istat.bits_spec(), self.inner_spec().idx_spec() as u32),
    {
        self.0.is_high(istat)
    }

    /// Whether the locked input pin's sampled level is low.
    pub fn is_low(&self, istat: &Istat<PORT>) -> (r: bool)
        ensures
            r == !nth_bit(istat.bits_spec(), self.inner_spec().idx_spec() as u32),
    {
        self.0.is_low(istat)
    }
}

/// A raw GPIO port register block.
///
/// The register file is a hardware singleton per port; this value stands
/// for exclusive ownership of one port's registers, and `split` divides it
/// into the control, output, lock and input handles plus sixteen pins.
pub struct Gpio<PORT> {
    ctl0: u32,
    ctl1: u32,
    octl: u32,
    lock: u32,
    istat: u32,
    _port: PhantomData<PORT>,
}

impl<PORT> Gpio<PORT> {
    /// Value of the port's `CTL0` register.
    pub closed spec fn ctl0_spec(self) -> u32 {
        self.ctl0
    }

    /// Value of the port's `CTL1` register.
    pub closed spec fn ctl1_spec(self) -> u32 {
        self.ctl1
    }

    /// Value of the port's `OCTL` register.
    pub closed spec fn octl_spec(self) -> u32 {
        self.octl
    }

    /// Value of the port's `LOCK` register.
    pub closed spec fn lock_spec(self) -> u32 {
        self.lock
    }

    /// Value of the port's `ISTAT` register.
    pub closed spec fn istat_spec(self) -> u32 {
        self.istat
    }

    /// The port at its chip-reset state: every pin a floating input.
    pub fn at_reset() -> (g: Gpio<PORT>)
        ensures
            g.ctl0_spec() == 0x4444_4444u32,
            g.ctl1_spec() == 0x4444_4444u32,
            g.octl_spec() == 0,
            g.lock_spec() == 0,
            g.istat_spec() == 0,
    {
        Gpio {
            ctl0: 0x4444_4444,
            ctl1: 0x4444_4444,
            octl: 0,
            lock: 0,
            istat: 0,
            _port: PhantomData,
        }
    }

    /// The port with the given register values, as read from the hardware.
    pub fn with_state(ctl0: u32, ctl1: u32, octl: u32, lock: u32, istat: u32) -> (g: Gpio<PORT>)
        ensures
            g.ctl0_spec() == ctl0,
            g.ctl1_spec() == ctl1,
            g.octl_spec() == octl,
            g.lock_spec() == lock,
            g.istat_spec() == istat,
    {
        Gpio { ctl0, ctl1, octl, lock, istat, _port: PhantomData }
    }
}

/// GPIO parts: the port's register handles and its sixteen pins.
pub struct Parts<PORT> {
    /// Opaque mode-control register pair.
    pub ctl: Ctl<PORT>,
    /// Opaque output-control register.
    pub octl: Octl<PORT>,
    /// Opaque lock register handle.
    pub lock: Lock<PORT>,
    /// Sampled input-status register.
    pub istat: Istat<PORT>,
    /// Pin 0.
    pub p0: Pin<PORT, Input<Floating>>,
    /// Pin 1.
    pub p1: Pin<PORT, Input<Floating>>,
    /// Pin 2.
    pub p2: Pin<PORT, Input<Floating>>,
    /// Pin 3.
    pub p3: Pin<PORT, Input<Floating>>,
    /// Pin 4.
    pub p4: Pin<PORT, Input<Floating>>,
    /// Pin 5.
    pub p5: Pin<PORT, Input<Floating>>,
    /// Pin 6.
    pub p6: Pin<PORT, Input<Floating>>,
    /// Pin 7.
    pub p7: Pin<PORT, Input<Floating>>,
    /// Pin 8.
    pub p8: Pin<PORT, Input<Floating>>,
    /// Pin 9.
    pub p9: Pin<PORT, Input<Floating>>,
    /// Pin 10.
    pub p10: Pin<PORT, Input<Floating>>,
    /// Pin 11.
    pub p11: Pin<PORT, Input<Floating>>,
    /// Pin 12.
    pub p12: Pin<PORT, Input<Floating>>,
    /// Pin 13.
    pub p13: Pin<PORT, Input<Floating>>,
    /// Pin 14.
    pub p14: Pin<PORT, Input<Floating>>,
    /// Pin 15.
    pub p15: Pin<PORT, Input<Floating>>,
}

/// Extension trait to split a GPIO peripheral into independent pins and
/// registers.
pub trait GpioExt {
    /// The type the GPIO splits into.
    type Parts;

    /// Split the GPIO block into independent pins and registers, gating the
    /// port's clock on through APB2 and pulsing its reset line.
    fn split(self, apb2: &mut APB2) -> Self::Parts;
}

impl<PORT: Port> GpioExt for Gpio<PORT> {
    type Parts = Parts<PORT>;

    fn split(self, apb2: &mut APB2) -> (parts: Parts<PORT>)
        ensures
            final(apb2).en_spec() == (old(apb2).en_spec() | (1u32 << PORT::en_bit_spec())),
            final(apb2).rst_spec() == 0,
            parts.ctl.ctl0_spec() == self.ctl0_spec(),
            parts.ctl.ctl1_spec() == self.ctl1_spec(),
            parts.octl.bits_spec() == self.octl_spec(),
            parts.lock.shadow_spec() == self.lock_spec(),
            parts.istat.bits_spec() == self.istat_spec(),
            parts.p0.idx_spec() == 0,
            parts.p1.idx_spec() == 1,
            parts.p2.idx_spec() == 2,
            parts.p3.idx_spec() == 3,
            parts.p4.idx_spec() == 4,
            parts.p5.idx_spec() == 5,
            parts.p6.idx_spec() == 6,
            parts.p7.idx_spec() == 7,
            parts.p8.idx_spec() == 8,
            parts.p9.idx_spec() == 9,
            parts.p10.idx_spec() == 10,
            parts.p11.idx_spec() == 11,
            parts.p12.idx_spec() == 12,
            parts.p13.idx_spec() == 13,
            parts.p14.idx_spec() == 14,
            parts.p15.idx_spec() == 15,
    {
        let bit = PORT::en_bit();
        apb2.set_en(bit as usize, true);
        apb2.pulse_rst_write(bit as usize);
        Parts {
            ctl: Ctl { ctl0: self.ctl0, ctl1: self.ctl1, _port: PhantomData },
            octl: Octl { bits: self.octl, _port: PhantomData },
            lock: Lock { tmp_bits: self.lock, _port: PhantomData },
            istat: Istat { bits: self.istat, _port: PhantomData },
            p0: Pin { index: 0, _marker: PhantomData },
            p1: Pin { index: 1, _marker: PhantomData },
            p2: Pin { index: 2, _marker: PhantomData },
            p3: Pin { index: 3, _marker: PhantomData },
            p4: Pin { index: 4, _marker: PhantomData },
            p5: Pin { index: 5, _marker: PhantomData },
            p6: Pin { index: 6, _marker: PhantomData },
            p7: Pin { index: 7, _marker: PhantomData },
            p8: Pin { index: 8, _marker: PhantomData },
            p9: Pin { index: 9, _marker: PhantomData },
            p10: Pin { index: 10, _marker: PhantomData },
            p11: Pin { index: 11, _marker: PhantomData },
            p12: Pin { index: 12, _marker: PhantomData },
            p13: Pin { index: 13, _marker: PhantomData },
            p14: Pin { index: 14, _marker: PhantomData },
            p15: Pin { index: 15, _marker: PhantomData },
        }
    }
}

} // verus!
