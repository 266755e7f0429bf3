//! What a fetched property value reads as.

use vstd::prelude::*;
use vstd::utf8::*;
use crate::render::{byte_list, byte_list_text};

verus! {

/// The text of a non-empty property value: its characters where the bytes
/// are valid UTF-8, else the bracketed list of the byte values.
pub open spec fn value_text(b: Seq<u8>) -> Seq<char> {
    if valid_utf8(b) {
        decode_utf8(b)
    } else {
        byte_list_text(b)
    }
}

/// What a property fetch yields: nothing where the fetch failed (`None`) or
/// the value is empty, else the text of the value.
pub open spec fn property_text(value: Option<Seq<u8>>) -> Option<Seq<char>> {
    match value {
        Some(b) => if b.len() == 0 {
            None
        } else {
            Some(value_text(b))
        },
        None => None,
    }
}

/// The bytes of a fetched value, where there is one.
pub open spec fn bytes_view(value: Option<Vec<u8>>) -> Option<Seq<u8>> {
    match value {
        Some(v) => Some(v@),
        None => None,
    }
}

/// Relies on std::str::from_utf8: it accepts exactly the valid UTF-8
/// sequences, and the accepted string holds the characters they encode.
#[verifier::external_body]
fn utf8_string(b: &[u8]) -> (r: Option<String>)
    ensures
        r is Some <==> valid_utf8(b@),
        r matches Some(s) ==> s@ == decode_utf8(b@),
{
    std::str::from_utf8(b).ok().map(|s| s.to_string())
}

/// The text of a non-empty property value.
pub fn decode_value(b: &[u8]) -> (r: String)
    ensures
        r@ == value_text(b@),
{
    match utf8_string(b) {
        Some(s) => s,
        None => byte_list(b),
    }
}

/// The text of a property reply: `value` is the fetched bytes, or `None`
/// where the server answered with an error.
pub fn read_property_text(value: Option<Vec<u8>>) -> (r: Option<String>)
    ensures
        r matches Some(s) ==> property_text(bytes_view(value)) == Some(s@),
        r is None <==> property_text(bytes_view(value)) is None,
{
    match value {
        Some(v) => if v.len() == 0 {
            None
        } else {
            Some(decode_value(v.as_slice()))
        },
        None => None,
    }
}

} // verus!
