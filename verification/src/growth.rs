//! How much storage a buffer reserves when an append does not fit.

use vstd::prelude::*;

verus! {

/// What an empty buffer reserves when it is made: the byte that the
/// terminator takes.
pub const MINIMAL_CAPACITY: usize = 1;

/// The capacity of a buffer after it was asked to hold `needed` bytes:
/// unchanged while `needed` fits, doubled when twice the old capacity is
/// enough and still a `usize`, and exactly `needed` otherwise.
pub open spec fn grown_capacity(capacity: nat, needed: nat) -> nat {
    if needed <= capacity {
        capacity
    } else if needed <= 2 * capacity <= usize::MAX {
        2 * capacity
    } else {
        needed
    }
}

/// Growing never shrinks, always suffices, and reserves either exactly
/// what is needed or at most twice what was reserved.
pub proof fn lemma_grown_capacity_bounds(capacity: nat, needed: nat)
    ensures
        grown_capacity(capacity, needed) >= capacity,
        grown_capacity(capacity, needed) >= needed,
        grown_capacity(capacity, needed) <= 2 * capacity || grown_capacity(capacity, needed)
            == needed,
{
}

/// Computes [`grown_capacity`] on machine integers.
pub fn next_capacity(capacity: usize, needed: usize) -> (grown: usize)
    ensures
        grown == grown_capacity(capacity as nat, needed as nat),
{
    if needed <= capacity {
        capacity
    } else if capacity <= usize::MAX / 2 && needed <= 2 * capacity {
        2 * capacity
    } else {
        needed
    }
}

} // verus!
