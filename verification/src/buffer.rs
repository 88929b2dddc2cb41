//! The buffer type and the operations that read and change its content.

use vstd::prelude::*;
use vstd::slice::slice_subrange;
use vstd::string::StringSliceAdditionalSpecFns;
use crate::growth::{grown_capacity, next_capacity, MINIMAL_CAPACITY};
use crate::model::{appended, capacity_after_append, terminated};

verus! {

/// An owned byte buffer that keeps a zero byte behind its content.
///
/// `contents` is the reserved storage, so its length is the capacity;
/// the first `length` bytes of it are the content.
#[derive(Debug)]
pub struct Rhstring {
    contents: Vec<u8>,
    length: usize,
}

impl View for Rhstring {
    type V = Seq<u8>;

    /// The content: the bytes that were appended since the buffer was made
    /// or last cleared.
    closed spec fn view(&self) -> Seq<u8> {
        self.contents@.subrange(0, self.length as int)
    }
}

impl Rhstring {
    /// The content fits the storage with one byte to spare, and that byte
    /// is the terminator.
    #[verifier::type_invariant]
    spec fn is_terminated(self) -> bool {
        &&& self.length < self.contents.len()
        &&& self.contents[self.length as int] == 0
    }

    /// The number of bytes reserved, the terminator's included.
    pub closed spec fn spec_capacity(&self) -> nat {
        self.contents.len() as nat
    }

    /// An empty buffer. It reserves the one byte that the terminator
    /// takes.
    pub fn new() -> (fresh: Rhstring)
        ensures
            fresh@ == Seq::<u8>::empty(),
            fresh.spec_capacity() == MINIMAL_CAPACITY,
    {
        let mut contents: Vec<u8> = Vec::with_capacity(MINIMAL_CAPACITY);
        contents.push(0);
        Rhstring { contents, length: 0 }
    }

    /// The number of bytes of content.
    pub fn len(&self) -> (len: usize)
        ensures
            len == self@.len(),
    {
        proof {
            use_type_invariant(self);
        }
        self.length
    }

    /// The number of bytes reserved. It always exceeds the length, by the
    /// terminator at least.
    pub fn capacity(&self) -> (capacity: usize)
        ensures
            capacity == self.spec_capacity(),
            capacity > self@.len(),
    {
        proof {
            use_type_invariant(self);
        }
        self.contents.len()
    }

    /// A window onto the content.
    pub fn as_bytes(&self) -> (bytes: &[u8])
        ensures
            bytes@ == self@,
    {
        proof {
            use_type_invariant(self);
        }
        slice_subrange(self.contents.as_slice(), 0, self.length)
    }

    /// A window onto the content and the zero byte behind it. Code that
    /// reads up to the first zero byte sees all of the content unless the
    /// content itself holds one.
    pub fn as_cstr(&self) -> (bytes: &[u8])
        ensures
            bytes@ == terminated(self@),
    {
        proof {
            use_type_invariant(self);
        }
        slice_subrange(self.contents.as_slice(), 0, self.length + 1)
    }

    /// Empties the buffer and keeps what it has reserved.
    pub fn clear(&mut self)
        ensures
            final(self)@ == Seq::<u8>::empty(),
            final(self).spec_capacity() == old(self).spec_capacity(),
    {
        proof {
            use_type_invariant(&*self);
        }
        if self.length > 0 {
            self.contents[0] = 0;
            self.length = 0;
        }
    }

    /// Makes the storage hold `needed` bytes at least, keeping every byte
    /// it held.
    fn reserve(&mut self, needed: usize)
        ensures
            final(self).length == old(self).length,
            final(self).contents@.len() == grown_capacity(
                old(self).contents@.len(),
                needed as nat,
            ),
            final(self).contents@.subrange(0, old(self).contents@.len() as int) == old(
                self,
            ).contents@,
    {
        proof {
            use_type_invariant(&*self);
        }
        let held: usize = self.contents.len();
        let capacity: usize = next_capacity(held, needed);
        if capacity > held {
            let mut grown: Vec<u8> = Vec::with_capacity(capacity);
            grown.extend_from_slice(self.contents.as_slice());
            assert(grown@ =~= self.contents@);
            grown.resize(capacity, 0);
            self.contents = grown;
        }
    }

    /// Appends `bytes` to the content, reserving more storage where they do
    /// not fit. The sum of the lengths must leave room for the terminator.
    ///
    /// The content is terminated at every step: the new terminator is
    /// written first, and the byte that replaces the old one last, once
    /// the length has moved on.
    pub fn push_bytes(&mut self, bytes: &[u8])
        requires
            old(self)@.len() + bytes@.len() < usize::MAX,
        ensures
            final(self)@ == appended(old(self)@, bytes@),
            final(self).spec_capacity() == capacity_after_append(
                old(self).spec_capacity(),
                old(self)@.len(),
                bytes@.len(),
            ),
    {
        proof {
            use_type_invariant(&*self);
        }
        let count: usize = bytes.len();
        if count == 0 {
            return ;
        }
        let start: usize = self.length;
        let end: usize = start + count;
        self.reserve(end + 1);
        proof {
            use_type_invariant(&*self);
        }
        self.contents[end] = 0;
        let mut i: usize = 1;
        while i < count
            invariant
                1 <= i <= count,
                count == bytes@.len(),
                end == start + count,
                self.length == start,
                end < self.contents@.len(),
                self.contents@.len() == capacity_after_append(
                    old(self).spec_capacity(),
                    old(self)@.len(),
                    bytes@.len(),
                ),
                self.contents@[start as int] == 0,
                self.contents@[end as int] == 0,
                self.contents@.subrange(0, start as int) == old(self)@,
                forall|j: int| 1 <= j < i ==> self.contents@[start + j] == bytes@[j],
            decreases count - i,
        {
            self.contents[start + i] = bytes[i];
            i = i + 1;
        }
        self.length = end;
        self.contents[start] = bytes[0];
    }

    /// Appends the UTF-8 bytes of `value` to the content.
    pub fn push_str(&mut self, value: &str)
        requires
            old(self)@.len() + value.spec_bytes().len() < usize::MAX,
        ensures
            final(self)@ == appended(old(self)@, value.spec_bytes()),
            final(self).spec_capacity() == capacity_after_append(
                old(self).spec_capacity(),
                old(self)@.len(),
                value.spec_bytes().len(),
            ),
    {
        self.push_bytes(value.as_bytes());
    }

    /// A buffer whose content is the UTF-8 bytes of `st`.
    pub fn from_str(st: &str) -> (made: Rhstring)
        requires
            st.spec_bytes().len() < usize::MAX,
        ensures
            made@ == st.spec_bytes(),
            made.spec_capacity() == capacity_after_append(
                MINIMAL_CAPACITY as nat,
                0,
                st.spec_bytes().len(),
            ),
    {
        let mut made = Rhstring::new();
        made.push_str(st);
        made
    }
}

impl Clone for Rhstring {
    /// A buffer with storage of its own that holds the same content. It
    /// reserves what a fresh buffer does after the content was appended
    /// to it, whatever the source had reserved.
    fn clone(&self) -> (copy: Self)
        ensures
            copy@ == self@,
            copy.spec_capacity() == capacity_after_append(MINIMAL_CAPACITY as nat, 0, self@.len()),
    {
        proof {
            use_type_invariant(self);
        }
        let mut copy = Rhstring::new();
        copy.push_bytes(self.as_bytes());
        copy
    }
}

impl Default for Rhstring {
    /// The empty buffer of [`Rhstring::new`].
    fn default() -> (fresh: Self)
        ensures
            fresh@ == Seq::<u8>::empty(),
            fresh.spec_capacity() == MINIMAL_CAPACITY,
    {
        Rhstring::new()
    }
}

} // verus!
