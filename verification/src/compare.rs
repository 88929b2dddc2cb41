//! Equality and hashing, both by content alone.

use vstd::prelude::*;
use core::hash::{Hash, Hasher};
use crate::buffer::Rhstring;

verus! {

impl PartialEq for Rhstring {
    /// Whether the two buffers hold the same content. What they have
    /// reserved plays no part.
    fn eq(&self, other: &Self) -> (same: bool) {
        let ours = self.as_bytes();
        let theirs = other.as_bytes();
        if ours.len() != theirs.len() {
            return false;
        }
        let mut i: usize = 0;
        while i < ours.len()
            invariant
                ours@ == self@,
                theirs@ == other@,
                i <= ours@.len(),
                ours@.len() == theirs@.len(),
                forall|j: int| 0 <= j < i ==> ours@[j] == theirs@[j],
            decreases ours@.len() - i,
        {
            if ours[i] != theirs[i] {
                return false;
            }
            i = i + 1;
        }
        assert(ours@ =~= theirs@);
        true
    }
}

impl vstd::std_specs::cmp::PartialEqSpecImpl for Rhstring {
    open spec fn obeys_eq_spec() -> bool {
        true
    }

    open spec fn eq_spec(&self, other: &Self) -> bool {
        self@ == other@
    }
}

impl Eq for Rhstring {

}

/// `<[u8] as Hash>::hash`, which feeds a byte slice to a hasher. Nothing
/// is stated of the hasher afterwards.
#[verifier::external_body]
fn feed<H: Hasher>(bytes: &[u8], state: &mut H) {
    bytes.hash(state);
}

impl Hash for Rhstring {
    /// Feeds the content to the hasher, and nothing else of the buffer, so
    /// that buffers with equal content feed it equal bytes.
    fn hash<H: Hasher>(&self, state: &mut H) {
        feed(self.as_bytes(), state);
    }
}

} // verus!
