//! What the operations of a buffer mean for its content, stated on plain
//! sequences of bytes.

use vstd::prelude::*;
use vstd::utf8::{decode_utf8, valid_utf8};
use crate::growth::grown_capacity;

verus! {

/// The content after `bytes` were appended to `content`.
pub open spec fn appended(content: Seq<u8>, bytes: Seq<u8>) -> Seq<u8> {
    content + bytes
}

/// The content followed by its terminating zero byte.
pub open spec fn terminated(content: Seq<u8>) -> Seq<u8> {
    content.push(0u8)
}

/// The text that `content` encodes in UTF-8, if it encodes any.
pub open spec fn text_of(content: Seq<u8>) -> Option<Seq<char>> {
    if valid_utf8(content) {
        Some(decode_utf8(content))
    } else {
        None
    }
}

/// The capacity of a buffer that held `len` bytes in `capacity` reserved
/// ones after `count` more bytes were appended: room for the new content
/// and its terminator.
pub open spec fn capacity_after_append(capacity: nat, len: nat, count: nat) -> nat {
    grown_capacity(capacity, len + count + 1)
}

} // verus!
