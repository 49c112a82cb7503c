//! Strings on the wire: UTF-8, checked on the way in.

use crate::wire::DecodeError;
use vstd::prelude::*;
use vstd::utf8::{decode_utf8, encode_utf8, encode_utf8_decode_utf8, valid_utf8};

verus! {

/// `String::from_utf8` of std. The bytes become a string exactly when they
/// are UTF-8, and the string then has those bytes.
#[verifier::external_body]
pub(crate) fn string_from_utf8(bytes: Vec<u8>) -> (r: Option<String>)
    ensures
        r is Some <==> valid_utf8(bytes@),
        r matches Some(s) ==> encode_utf8(s@) == bytes@,
{
    match String::from_utf8(bytes) {
        Ok(s) => Some(s),
        Err(_) => None,
    }
}

/// The text of a string field, or the reason it has none.
pub open spec fn parse_string(bytes: Seq<u8>) -> Result<Seq<char>, DecodeError> {
    if valid_utf8(bytes) {
        Ok(decode_utf8(bytes))
    } else {
        Err(DecodeError::InvalidUtf8)
    }
}

/// Reads the payload of a string field.
pub fn decode_string(bytes: Vec<u8>) -> (r: Result<String, DecodeError>)
    ensures
        match parse_string(bytes@) {
            Ok(text) => r is Ok && r.unwrap()@ == text,
            Err(e) => r == Err::<String, DecodeError>(e),
        },
{
    match string_from_utf8(bytes) {
        Some(s) => {
            proof {
                encode_utf8_decode_utf8(s@);
            }
            Ok(s)
        },
        None => Err(DecodeError::InvalidUtf8),
    }
}

/// A string written to the wire reads back as itself.
pub proof fn lemma_string_round_trip(text: Seq<char>)
    ensures
        parse_string(encode_utf8(text)) == Ok::<Seq<char>, DecodeError>(text),
{
    vstd::utf8::encode_utf8_valid_utf8(text);
    encode_utf8_decode_utf8(text);
}

} // verus!
