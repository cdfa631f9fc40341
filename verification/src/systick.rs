//! System tick access.
//!
//! A free-function style reading of the machine timer, for callers that
//! borrow the raw block instead of owning a [`crate::ctimer::CoreTimer`].

use vstd::prelude::*;
use crate::ctimer::CTIMER;

verus! {

/// System timer accessor.
pub struct SysTick;

impl SysTick {
    /// Read the full 64-bit counter from a borrowed core-timer block,
    /// re-reading the high half to detect a carry between the accesses.
    pub fn get_systick(ctimer: &CTIMER) -> (r: u64)
        ensures
            r == ctimer.value_spec(),
    {
        let hi: u32 = ctimer.hi();
        let lo: u32 = ctimer.lo();
        if hi == ctimer.hi() {
            ((hi as u64) << 32u64) | (lo as u64)
        } else {
            ((ctimer.hi() as u64) << 32u64) | (ctimer.lo() as u64)
        }
    }
}

} // verus!
