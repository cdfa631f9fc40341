//! CRC calculation unit.
//!
//! The hardware cyclic redundancy check unit has a 32-bit data input and a
//! 32-bit data output and uses the fixed polynomial 0x04C11DB7 over an
//! accumulator that resets to all ones.  The unit's arithmetic is modelled
//! bit for bit, so the digest a program reads back is pinned to the exact
//! word sequence it wrote since the last reset.

use vstd::prelude::*;
use crate::rcu::AHB;

verus! {

/// The fixed CRC polynomial of the hardware unit.
pub const CRC_POLY: u32 = 0x04C1_1DB7;

/// The accumulator value after a reset.
pub const CRC_INIT: u32 = 0xFFFF_FFFF;

/// The bit index of the CRC clock enable in `AHBEN`.
pub const CRCEN_BIT: usize = 6;

/// One polynomial-division round: shift left, folding the polynomial in
/// when the top bit falls out.
pub open spec fn crc32_round(s: u32) -> u32 {
    if s & 0x8000_0000u32 != 0 {
        (s << 1u32) ^ CRC_POLY
    } else {
        s << 1u32
    }
}

/// `n` polynomial-division rounds.
pub open spec fn crc32_rounds(s: u32, n: nat) -> u32
    decreases n,
{
    if n == 0 {
        s
    } else {
        crc32_round(crc32_rounds(s, (n - 1) as nat))
    }
}

/// The accumulator after one 32-bit word is fed into state `s`.
pub open spec fn crc32_feed(s: u32, word: u32) -> u32 {
    crc32_rounds(s ^ word, 32)
}

/// The accumulator after the word sequence `words` is fed into a freshly
/// reset unit.
pub open spec fn crc32_of(words: Seq<u32>) -> u32
    decreases words.len(),
{
    if words.len() == 0 {
        CRC_INIT
    } else {
        crc32_feed(crc32_of(words.drop_last()), words.last())
    }
}

/// Run the 32 division rounds for one input word.
fn crc32_word(state: u32, word: u32) -> (r: u32)
    ensures
        r == crc32_feed(state, word),
{
    let mut s: u32 = state ^ word;
    let mut n: u32 = 0;
    while n < 32
        invariant
            n <= 32,
            s == crc32_rounds(state ^ word, n as nat),
        decreases 32 - n,
    {
        if s & 0x8000_0000u32 != 0 {
            s = (s << 1u32) ^ CRC_POLY;
        } else {
            s = s << 1u32;
        }
        n += 1;
    }
    s
}

/// The raw CRC register block: the data accumulator, the eight-bit free
/// data register, and the word history the accumulator digests.
pub struct CRC {
    state: u32,
    fdata: u8,
    words: Ghost<Seq<u32>>,
}

impl CRC {
    /// The accumulator always holds the digest of the words fed so far.
    #[verifier::type_invariant]
    pub closed spec fn wf(self) -> bool {
        self.state == crc32_of(self.words@)
    }

    /// Value of the data accumulator.
    pub closed spec fn state_spec(self) -> u32 {
        self.state
    }

    /// Value of the free data register.
    pub closed spec fn fdata_spec(self) -> u8 {
        self.fdata
    }

    /// The words fed since the last reset.
    pub closed spec fn words_spec(self) -> Seq<u32> {
        self.words@
    }

    /// Take the CRC register block in its reset state.
    pub fn new() -> (c: CRC)
        ensures
            c.state_spec() == CRC_INIT,
            c.fdata_spec() == 0,
            c.words_spec() === Seq::<u32>::empty(),
    {
        CRC { state: CRC_INIT, fdata: 0, words: Ghost(Seq::empty()) }
    }
}

/// CRC module abstraction; owns `CRC_DATA` and `CRC_CTL`.
pub struct Crc {
    crc: CRC,
}

impl Crc {
    /// The wrapped register block.
    pub closed spec fn crc_spec(self) -> CRC {
        self.crc
    }

    /// Take ownership of CRC and enable the CRC clock.
    pub fn crc(crc: CRC, ahb: &mut AHB) -> (r: Crc)
        ensures
            r.crc_spec() == crc,
            final(ahb).en_spec() == (old(ahb).en_spec() | (1u32 << (CRCEN_BIT as u32))),
    {
        ahb.set_en(CRCEN_BIT, true);
        Crc { crc }
    }

    /// Create a new [`Digest`] for CRC calculation.
    ///
    /// The underlying accumulator is reset to all ones; on the hardware
    /// this sets the reset bit and busy-waits until the unit clears it,
    /// a wait that has no counterpart in the model because the modelled
    /// reset completes at once.
    pub fn new_digest(self) -> (d: Digest)
        ensures
            d.words_spec() === Seq::<u32>::empty(),
    {
        let mut crc = self.crc;
        crc = CRC { state: CRC_INIT, fdata: crc.fdata, words: Ghost(Seq::empty()) };
        Digest { crc }
    }

    /// Disable the CRC clock and release the peripheral.
    pub fn release(self, ahb: &mut AHB) -> (r: CRC)
        ensures
            r == self.crc_spec(),
            final(ahb).en_spec() == (old(ahb).en_spec() & !(1u32 << (CRCEN_BIT as u32))),
    {
        ahb.set_en(CRCEN_BIT, false);
        self.crc
    }

    /// Read the free data register, an eight-bit scratch storage.
    pub fn fdata_read(&self) -> (r: u8)
        ensures
            r == self.crc_spec().fdata_spec(),
    {
        self.crc.fdata
    }

    /// Write the free data register.
    pub fn fdata_write(&mut self, byte: u8)
        ensures
            final(self).crc_spec().fdata_spec() == byte,
            final(self).crc_spec().state_spec() == old(self).crc_spec().state_spec(),
            final(self).crc_spec().words_spec() === old(self).crc_spec().words_spec(),
    {
        proof {
            use_type_invariant(&self.crc);
        }
        let state = self.crc.state;
        let ghost words = self.crc.words@;
        self.crc = CRC { state, fdata: byte, words: Ghost(words) };
    }
}

/// Digest struct for CRC calculation: write words with `write_u32`, read
/// the accumulated result with `finish`, and recover the [`Crc`] wrapper
/// with `free`.
pub struct Digest {
    crc: CRC,
}

impl Digest {
    /// The words written since this digest was created.
    pub closed spec fn words_spec(self) -> Seq<u32> {
        self.crc.words@
    }

    /// Feed a single 32-bit word into the accumulator.
    pub fn write_u32(&mut self, i: u32)
        ensures
            final(self).words_spec() === old(self).words_spec().push(i),
    {
        proof {
            use_type_invariant(&self.crc);
        }
        let state = crc32_word(self.crc.state, i);
        let fdata = self.crc.fdata;
        let ghost words = self.crc.words@.push(i);
        proof {
            assert(words.drop_last() =~= self.crc.words@);
            assert(words.last() == i);
        }
        self.crc = CRC { state, fdata, words: Ghost(words) };
    }

    /// The digest of every word written so far.  Reading is not
    /// destructive: more words may be written afterwards.
    pub fn finish(&self) -> (r: u32)
        ensures
            r == crc32_of(self.words_spec()),
    {
        proof {
            use_type_invariant(&self.crc);
        }
        self.crc.state
    }

    /// Free the digest and return the underlying [`Crc`] wrapper.
    pub fn free(self) -> (r: Crc)
        ensures
            r.crc_spec().words_spec() === self.words_spec(),
    {
        Crc { crc: self.crc }
    }
}

} // verus!
