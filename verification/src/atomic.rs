//! Single-bit update primitives.
//!
//! On the hardware these operations compile to one atomic fetch-and-modify
//! instruction (`amoor.w`, `amoand.w`, `amoxor.w`), so a register update of a
//! single flag cannot be torn by an interrupt handler running on the same
//! core.  Here they are specified as indivisible read-modify-write steps on
//! the 32-bit register value, which is exactly the effect the atomic
//! instruction has.

use vstd::prelude::*;

verus! {

/// True when bit `i` of `x` is set.
pub open spec fn nth_bit(x: u32, i: u32) -> bool {
    ((x >> i) & 1) == 1
}

/// Setting bit `i` leaves every other bit of the word unchanged.
pub proof fn lemma_or_bit(x: u32, i: u32)
    by (bit_vector)
    requires
        i < 32,
    ensures
        nth_bit(x | (1u32 << i), i),
        forall|j: u32| j < 32 && j != i ==> nth_bit(x | (1u32 << i), j) == nth_bit(x, j),
{
}

/// Clearing bit `i` leaves every other bit of the word unchanged.
pub proof fn lemma_and_not_bit(x: u32, i: u32)
    by (bit_vector)
    requires
        i < 32,
    ensures
        !nth_bit(x & !(1u32 << i), i),
        forall|j: u32| j < 32 && j != i ==> nth_bit(x & !(1u32 << i), j) == nth_bit(x, j),
{
}

/// Toggling bit `i` inverts it and leaves every other bit unchanged.
pub proof fn lemma_xor_bit(x: u32, i: u32)
    by (bit_vector)
    requires
        i < 32,
    ensures
        nth_bit(x ^ (1u32 << i), i) == !nth_bit(x, i),
        forall|j: u32| j < 32 && j != i ==> nth_bit(x ^ (1u32 << i), j) == nth_bit(x, j),
{
}

/// Set (`is_one == true`) or clear (`is_one == false`) bit `index` of the
/// register value in a single read-modify-write step.
pub fn atomic_set_bit(r: &mut u32, is_one: bool, index: usize)
    requires
        index < 32,
    ensures
        is_one ==> *(final(r)) == (*(old(r)) | (1u32 << (index as u32))),
        !is_one ==> *(final(r)) == (*(old(r)) & !(1u32 << (index as u32))),
        nth_bit(*(final(r)), index as u32) == is_one,
        forall|j: u32|
            j < 32 && j != index as u32 ==> nth_bit(*(final(r)), j) == nth_bit(*(old(r)), j),
{
    let mask: u32 = 1u32 << (index as u32);
    if is_one {
        *r = *r | mask;
        proof {
            lemma_or_bit(*old(r), index as u32);
        }
    } else {
        *r = *r & !mask;
        proof {
            lemma_and_not_bit(*old(r), index as u32);
        }
    }
}

/// Toggle bit `index` of the register value in a single read-modify-write
/// step.
pub fn atomic_toggle_bit(r: &mut u32, index: usize)
    requires
        index < 32,
    ensures
        *(final(r)) == (*(old(r)) ^ (1u32 << (index as u32))),
        nth_bit(*(final(r)), index as u32) == !nth_bit(*(old(r)), index as u32),
        forall|j: u32|
            j < 32 && j != index as u32 ==> nth_bit(*(final(r)), j) == nth_bit(*(old(r)), j),
{
    let mask: u32 = 1u32 << (index as u32);
    *r = *r ^ mask;
    proof {
        lemma_xor_bit(*old(r), index as u32);
    }
}

} // verus!
