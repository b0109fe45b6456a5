//! Response bodies, read as text.

use crate::error::outcome_view;
use crate::error::FetchError;
use crate::error::FetchErrorView;
use vstd::prelude::*;
use vstd::utf8::*;

verus! {

/// The text that a body stands for: its characters where the bytes are
/// well-formed UTF-8, and a decoding failure where they are not.
pub open spec fn text_of(bytes: Seq<u8>) -> Result<Seq<char>, FetchErrorView> {
    if valid_utf8(bytes) {
        Ok(decode_utf8(bytes))
    } else {
        Err(FetchErrorView::Decode)
    }
}

/// Hands the bytes to `String::from_utf8` of the standard library.
///
/// Trusted, going by its documentation: the bytes are accepted exactly if
/// they are well-formed UTF-8, and the string then holds the characters that
/// they encode.
#[verifier::external_body]
fn string_from_utf8(bytes: Vec<u8>) -> (text: Option<String>)
    ensures
        text is Some <==> valid_utf8(bytes@),
        text matches Some(s) ==> s@ == decode_utf8(bytes@),
{
    match String::from_utf8(bytes) {
        Ok(s) => Some(s),
        Err(_) => None,
    }
}

/// Reads a response body as UTF-8 text. Nothing is replaced or skipped:
/// bytes that are not well-formed UTF-8 fail with [`FetchError::Decode`].
pub fn decode(bytes: Vec<u8>) -> (r: Result<String, FetchError>)
    ensures
        outcome_view(r) == text_of(bytes@),
{
    match string_from_utf8(bytes) {
        Some(text) => Ok(text),
        None => Err(FetchError::Decode),
    }
}

/// A text that is encoded as UTF-8 and read back is the same text.
pub proof fn lemma_text_of_encoded(text: Seq<char>)
    ensures
        text_of(encode_utf8(text)) == Ok::<Seq<char>, FetchErrorView>(text),
{
    encode_utf8_valid_utf8(text);
    encode_utf8_decode_utf8(text);
}

} // verus!
