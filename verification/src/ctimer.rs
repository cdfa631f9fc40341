//! Core timer.
//!
//! The free-running 64-bit machine timer, exposed as two 32-bit register
//! halves.  Assembling a 64-bit reading re-reads the high half and retries
//! the combination when a carry ripples between the two reads.

use vstd::prelude::*;

verus! {

/// The raw core-timer register block, holding a sampled counter value.
pub struct CTIMER {
    mtime_lo: u32,
    mtime_hi: u32,
}

impl CTIMER {
    /// The low half of the sampled counter.
    pub closed spec fn lo_spec(self) -> u32 {
        self.mtime_lo
    }

    /// The high half of the sampled counter.
    pub closed spec fn hi_spec(self) -> u32 {
        self.mtime_hi
    }

    /// The full sampled 64-bit counter value.
    pub open spec fn value_spec(self) -> u64 {
        ((self.hi_spec() as u64) << 32u64) | (self.lo_spec() as u64)
    }

    /// Read the low half of the sampled counter.
    pub fn lo(&self) -> (r: u32)
        ensures
            r == self.lo_spec(),
    {
        self.mtime_lo
    }

    /// Read the high half of the sampled counter.
    pub fn hi(&self) -> (r: u32)
        ensures
            r == self.hi_spec(),
    {
        self.mtime_hi
    }

    /// Take the core-timer block with the given sampled counter halves.
    pub fn new(lo: u32, hi: u32) -> (c: CTIMER)
        ensures
            c.lo_spec() == lo,
            c.hi_spec() == hi,
    {
        CTIMER { mtime_lo: lo, mtime_hi: hi }
    }
}

/// Exclusive wrapper around the core timer.
pub struct CoreTimer {
    ctimer: CTIMER,
}

impl CoreTimer {
    /// The wrapped register block.
    pub closed spec fn ctimer_spec(self) -> CTIMER {
        self.ctimer
    }

    /// Wrap the core timer.
    pub fn new(ctimer: CTIMER) -> (r: CoreTimer)
        ensures
            r.ctimer_spec() == ctimer,
    {
        CoreTimer { ctimer }
    }

    /// Release the core-timer resource.
    pub fn free(self) -> (r: CTIMER)
        ensures
            r == self.ctimer_spec(),
    {
        self.ctimer
    }

    /// Read the full 64-bit counter.
    ///
    /// The two halves cannot be read in one access, so the high half is
    /// read again after the low half; if it moved, a carry rippled between
    /// the reads and both halves are re-read once more.
    pub fn get_value(&self) -> (r: u64)
        ensures
            r == self.ctimer_spec().value_spec(),
    {
        let hi: u32 = self.ctimer.mtime_hi;
        let lo: u32 = self.ctimer.mtime_lo;
        if hi == self.ctimer.mtime_hi {
            ((hi as u64) << 32u64) | (lo as u64)
        } else {
            ((self.ctimer.mtime_hi as u64) << 32u64) | (self.ctimer.mtime_lo as u64)
        }
    }

    /// Read the high half of the counter.
    pub fn mtime_hi(&self) -> (r: u32)
        ensures
            r == self.ctimer_spec().hi_spec(),
    {
        self.ctimer.mtime_hi
    }

    /// Read the low half of the counter.
    pub fn mtime_lo(&self) -> (r: u32)
        ensures
            r == self.ctimer_spec().lo_spec(),
    {
        self.ctimer.mtime_lo
    }
}

} // verus!
