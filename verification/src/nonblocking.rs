//! Non-blocking operation results.
//!
//! Hardware-not-ready is never an error here: an operation that cannot
//! complete yet reports `WouldBlock` and the caller retries, while a
//! detected fault is returned as a typed, recoverable value.

use vstd::prelude::*;

verus! {

/// The outcome of one non-blocking attempt.
pub enum NbResult<T, E> {
    /// The operation completed.
    Ready(T),
    /// The hardware is not ready; retry later.
    WouldBlock,
    /// A fault was detected.
    Fault(E),
}

impl<T, E> NbResult<T, E> {
    /// Whether the operation completed.
    pub fn is_ready(&self) -> (r: bool)
        ensures
            r == (self is Ready),
    {
        match self {
            NbResult::Ready(_) => true,
            _ => false,
        }
    }

    /// Whether the hardware was not ready.
    pub fn is_would_block(&self) -> (r: bool)
        ensures
            r == (self is WouldBlock),
    {
        match self {
            NbResult::WouldBlock => true,
            _ => false,
        }
    }

    /// Whether a fault was detected.
    pub fn is_fault(&self) -> (r: bool)
        ensures
            r == (self is Fault),
    {
        match self {
            NbResult::Fault(_) => true,
            _ => false,
        }
    }
}

} // verus!
