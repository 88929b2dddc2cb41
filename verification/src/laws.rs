//! What holds of the buffer's operations taken together.

use vstd::prelude::*;
use vstd::utf8::{encode_utf8, encode_utf8_decode_utf8, encode_utf8_valid_utf8};
use vstd::std_specs::cmp::PartialEqSpec;
use crate::buffer::Rhstring;
use crate::growth::lemma_grown_capacity_bounds;
use crate::model::{appended, capacity_after_append, terminated, text_of};

verus! {

/// Appending to an empty buffer leaves exactly the appended bytes as its
/// content, whatever the bytes are.
pub proof fn lemma_append_to_empty(bytes: Seq<u8>)
    ensures
        appended(Seq::<u8>::empty(), bytes) == bytes,
{
}

/// Appending `first` and then `second` gives the content that appending
/// the two joined gives.
pub proof fn lemma_append_in_parts(content: Seq<u8>, first: Seq<u8>, second: Seq<u8>)
    ensures
        appended(appended(content, first), second) == appended(content, first + second),
{
}

/// Appending adds the number of bytes given to the length and changes no
/// byte that was there.
pub proof fn lemma_append_extends(content: Seq<u8>, bytes: Seq<u8>)
    ensures
        appended(content, bytes).len() == content.len() + bytes.len(),
        appended(content, bytes).subrange(0, content.len() as int) == content,
        appended(content, bytes).subrange(
            content.len() as int,
            (content.len() + bytes.len()) as int,
        ) == bytes,
{
}

/// An append never gives up reserved storage, and leaves room for the new
/// content and the terminator behind it.
pub proof fn lemma_append_capacity(capacity: nat, len: nat, count: nat)
    ensures
        capacity_after_append(capacity, len, count) >= capacity,
        capacity_after_append(capacity, len, count) > len + count,
        len + count < capacity ==> capacity_after_append(capacity, len, count) == capacity,
{
    lemma_grown_capacity_bounds(capacity, len + count + 1);
}

/// The terminated view is one byte longer than the content, starts with
/// the content and ends in zero.
pub proof fn lemma_terminated_shape(content: Seq<u8>)
    ensures
        terminated(content).len() == content.len() + 1,
        terminated(content).subrange(0, content.len() as int) == content,
        terminated(content)[content.len() as int] == 0,
{
}

/// A buffer equals itself.
pub proof fn lemma_eq_reflexive(a: Rhstring)
    ensures
        a.eq_spec(&a),
{
}

/// Equality does not depend on the side a buffer stands on.
pub proof fn lemma_eq_symmetric(a: Rhstring, b: Rhstring)
    ensures
        a.eq_spec(&b) == b.eq_spec(&a),
{
}

/// Two buffers that equal a third equal each other.
pub proof fn lemma_eq_transitive(a: Rhstring, b: Rhstring, c: Rhstring)
    requires
        a.eq_spec(&b),
        b.eq_spec(&c),
    ensures
        a.eq_spec(&c),
{
}

/// Two buffers are equal exactly when their contents are, whatever each
/// has reserved and however each was built.
pub proof fn lemma_eq_is_by_content(a: Rhstring, b: Rhstring)
    ensures
        a.eq_spec(&b) <==> a@ == b@,
{
}

/// A copy equals its source. Once bytes were appended to one of the two,
/// it holds the content of the other followed by them, and the two are
/// equal only if no byte was appended.
pub proof fn lemma_copy_diverges(kept: Rhstring, copy: Rhstring, changed: Rhstring, extra: Seq<u8>)
    requires
        copy@ == kept@,
        changed@ == appended(copy@, extra),
    ensures
        kept.eq_spec(&copy),
        changed@ == appended(kept@, extra),
        kept.eq_spec(&changed) <==> extra.len() == 0,
        changed.eq_spec(&kept) <==> extra.len() == 0,
{
}

/// The bytes of a text are read back as that text.
pub proof fn lemma_text_round_trip(text: Seq<char>)
    ensures
        text_of(appended(Seq::<u8>::empty(), encode_utf8(text))) == Some(text),
{
    encode_utf8_valid_utf8(text);
    encode_utf8_decode_utf8(text);
}

} // verus!
