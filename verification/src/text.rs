//! Reading a buffer's content as text.

use vstd::prelude::*;
use vstd::string::StringSliceAdditionalSpecFns;
use vstd::utf8::{encode_utf8_decode_utf8, valid_utf8};
use crate::buffer::Rhstring;
use crate::model::text_of;

verus! {

/// The content of a buffer is not well-formed UTF-8.
#[derive(Debug, Clone, Copy, PartialEq, Eq, Structural)]
pub struct InvalidEncoding;

/// `core::str::Utf8Error`, which says where a byte sequence stops being
/// UTF-8. Nothing is stated of what it holds.
#[verifier::external_type_specification]
#[verifier::external_body]
pub struct ExUtf8Error(core::str::Utf8Error);

/// `core::str::from_utf8` accepts exactly the well-formed UTF-8 byte
/// sequences, and the string slice that it then returns is made of the
/// bytes it was given. This is taken from the standard library's
/// documentation and is not proved here.
pub assume_specification[ core::str::from_utf8 ](v: &[u8]) -> (checked: Result<
    &str,
    core::str::Utf8Error,
>)
    ensures
        checked is Ok <==> valid_utf8(v@),
        checked matches Ok(text) ==> text.spec_bytes() == v@,
;

impl Rhstring {
    /// The content as text, if it is well-formed UTF-8. The buffer is left
    /// as it was either way.
    pub fn as_str(&self) -> (text: Result<&str, InvalidEncoding>)
        ensures
            match text {
                Ok(read) => text_of(self@) == Some(read@),
                Err(invalid) => text_of(self@) is None && invalid == InvalidEncoding,
            },
    {
        match core::str::from_utf8(self.as_bytes()) {
            Ok(text) => {
                proof {
                    encode_utf8_decode_utf8(text@);
                }
                Ok(text)
            },
            Err(_) => Err(InvalidEncoding),
        }
    }

    /// The content as an owned text, if it is well-formed UTF-8. The
    /// buffer is used up and its storage released either way.
    pub fn to_rust_string(self) -> (text: Result<String, InvalidEncoding>)
        ensures
            match text {
                Ok(read) => text_of(self@) == Some(read@),
                Err(invalid) => text_of(self@) is None && invalid == InvalidEncoding,
            },
    {
        match self.as_str() {
            Ok(text) => Ok(text.to_owned()),
            Err(invalid) => Err(invalid),
        }
    }
}

} // verus!
