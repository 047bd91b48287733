//! Texts of the engine.
//!
//! The engine hands out its texts, the name of a model as well as the text of
//! a token, as runs of bytes that end in a zero. They are meant to be UTF-8.

use vstd::prelude::*;
use vstd::string::StringSliceAdditionalSpecFns;
use vstd::utf8::{decode_utf8, encode_utf8_decode_utf8, valid_utf8};

verus! {

/// Reads a text from its bytes, the terminating zero left out.
///
/// There is a text exactly where the bytes are UTF-8, and then it is made of
/// the characters that they encode.
pub fn decode_text(bytes: &[u8]) -> (text: Option<String>)
    ensures
        text is Some <==> valid_utf8(bytes@),
        text matches Some(s) ==> s@ == decode_utf8(bytes@),
{
    match str_from_utf8(bytes) {
        Some(s) => {
            proof {
                encode_utf8_decode_utf8(s@);
            }
            Some(s.to_owned())
        },
        None => None,
    }
}

/// Tells whether the bytes are UTF-8.
pub fn is_text(bytes: &[u8]) -> (ok: bool)
    ensures
        ok == valid_utf8(bytes@),
{
    str_from_utf8(bytes).is_some()
}

/// `core::str::from_utf8`, with its error dropped.
///
/// The standard library accepts exactly the byte runs that are UTF-8, and
/// the string slice it returns is made of the very bytes it was given.
#[verifier::external_body]
fn str_from_utf8(bytes: &[u8]) -> (text: Option<&str>)
    ensures
        text is Some <==> valid_utf8(bytes@),
        text matches Some(s) ==> s.spec_bytes() == bytes@,
{
    match core::str::from_utf8(bytes) {
        Ok(text) => Some(text),
        Err(_) => None,
    }
}

} // verus!
