//! Conversion between byte payloads and strings at the library's edge.

use vstd::prelude::*;

verus! {

/// Relies on String::from_utf8: accepts exactly the valid UTF-8 byte
/// sequences, keeps the bytes as they are, and the string's characters
/// are their decoding.
#[verifier::external_body]
pub fn utf8_to_string(b: Vec<u8>) -> (r: Option<String>)
    ensures
        r is Some <==> vstd::utf8::valid_utf8(b@),
        r matches Some(s) ==> s@ == vstd::utf8::decode_utf8(b@),
        r matches Some(s) ==> vstd::utf8::encode_utf8(s@) == b@,
{
    String::from_utf8(b).ok()
}

} // verus!
