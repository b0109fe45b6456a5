//! The `Authorization` header that carries the token.

use crate::error::FetchError;
use crate::error::FetchErrorView;
use reqwest::header::HeaderValue;
use reqwest::header::InvalidHeaderValue;
use vstd::prelude::*;
use vstd::utf8::*;

verus! {

/// A byte that may stand in a header value: a tab, or anything from the space
/// upwards but the delete character.
pub open spec fn is_value_byte(b: u8) -> bool {
    (b >= 32 && b != 127) || b == 9
}

/// Every byte may stand in a header value.
pub open spec fn is_value_bytes(bytes: Seq<u8>) -> bool {
    forall|i: int| 0 <= i < bytes.len() ==> is_value_byte(#[trigger] bytes[i])
}

/// A character that may stand in a header value: any but the ASCII control
/// characters, of which only the tab is let through.
pub open spec fn is_value_char(c: char) -> bool {
    (c as u32 >= 32 && c as u32 != 127) || c as u32 == 9
}

/// Every character may stand in a header value.
pub open spec fn is_value_text(text: Seq<char>) -> bool {
    forall|i: int| 0 <= i < text.len() ==> is_value_char(#[trigger] text[i])
}

/// The text of the header value for a token: the word `token`, a space, and
/// the token itself.
pub open spec fn authorization_text(token: Seq<char>) -> Seq<char> {
    "token "@ + token
}

/// The UTF-8 encoding of a character holds only bytes that may stand in a
/// header value exactly if the character itself may.
pub proof fn lemma_scalar_value_bytes(c: char)
    ensures
        is_value_bytes(encode_scalar(c as u32)) <==> is_value_char(c),
{
    let v = c as u32;
    let bytes = encode_scalar(v);
    char_is_scalar(c);
    if has_width_1_encoding(v) {
        assert(leading_byte_width_1(v) == v as u8) by (bit_vector)
            requires
                has_width_1_encoding(v),
        ;
        assert(bytes[0] == v as u8);
        if is_value_char(c) {
            assert(is_value_bytes(bytes));
        } else {
            assert(!is_value_byte(bytes[0]));
        }
    } else if has_width_2_encoding(v) {
        assert(leading_byte_width_2(v) >= 0x80 && last_continuation_byte(v) >= 0x80)
            by (bit_vector);
        assert(is_value_bytes(bytes));
    } else if has_width_3_encoding(v) {
        assert(leading_byte_width_3(v) >= 0x80 && second_last_continuation_byte(v) >= 0x80
            && last_continuation_byte(v) >= 0x80) by (bit_vector);
        assert(is_value_bytes(bytes));
    } else {
        assert(leading_byte_width_4(v) >= 0x80 && third_last_continuation_byte(v) >= 0x80
            && second_last_continuation_byte(v) >= 0x80 && last_continuation_byte(v) >= 0x80)
            by (bit_vector);
        assert(is_value_bytes(bytes));
    }
}

/// The UTF-8 encoding of a text holds only bytes that may stand in a header
/// value exactly if every character of the text may.
pub proof fn lemma_text_value_bytes(text: Seq<char>)
    ensures
        is_value_bytes(encode_utf8(text)) <==> is_value_text(text),
    decreases text.len(),
{
    if text.len() > 0 {
        let head = encode_scalar(text[0] as u32);
        let rest = text.drop_first();
        let tail = encode_utf8(rest);
        lemma_scalar_value_bytes(text[0]);
        lemma_text_value_bytes(rest);
        assert(encode_utf8(text) == head + tail);
        if is_value_text(text) {
            assert forall|i: int| 0 <= i < rest.len() implies is_value_char(#[trigger] rest[i]) by {
                assert(rest[i] == text[i + 1]);
            }
            assert(is_value_bytes(head + tail));
        }
        if is_value_bytes(head + tail) {
            assert forall|i: int| 0 <= i < head.len() implies is_value_byte(#[trigger] head[i]) by {
                assert(head[i] == (head + tail)[i]);
            }
            assert forall|i: int| 0 <= i < tail.len() implies is_value_byte(#[trigger] tail[i]) by {
                assert(tail[i] == (head + tail)[head.len() + i]);
            }
            assert forall|i: int| 0 <= i < text.len() implies is_value_char(#[trigger] text[i]) by {
                if i > 0 {
                    assert(text[i] == rest[i - 1]);
                }
            }
        }
    }
}

/// The header value of a token may be sent exactly if every character of the
/// token may stand in a header value: the prefix never stands in the way.
pub proof fn lemma_authorization_text(token: Seq<char>)
    ensures
        is_value_text(authorization_text(token)) <==> is_value_text(token),
{
    reveal_strlit("token ");
    let prefix = "token "@;
    let text = authorization_text(token);
    if is_value_text(token) {
        assert forall|i: int| 0 <= i < text.len() implies is_value_char(#[trigger] text[i]) by {
            if i >= prefix.len() {
                assert(text[i] == token[i - prefix.len()]);
            }
        }
    }
    if is_value_text(text) {
        assert forall|i: int| 0 <= i < token.len() implies is_value_char(#[trigger] token[i]) by {
            assert(token[i] == text[prefix.len() + i]);
        }
    }
}

/// `reqwest::header::HeaderValue`: the value of one header field. What it
/// holds is spoken of through [`value_bytes`].
#[verifier::external_type_specification]
#[verifier::external_body]
pub struct ExHeaderValue(HeaderValue);

/// `reqwest::header::InvalidHeaderValue`: the error of
/// `HeaderValue::from_str`. It carries nothing.
#[verifier::external_type_specification]
#[verifier::external_body]
pub struct ExInvalidHeaderValue(InvalidHeaderValue);

/// The bytes that a header value holds, as they go on the wire.
pub uninterp spec fn value_bytes(value: HeaderValue) -> Seq<u8>;

/// `HeaderValue::from_str`: makes a header value of a text.
///
/// Trusted, going by the source of the `http` crate: the text is accepted
/// exactly if each byte of its UTF-8 form is a tab, or at least 32 and not
/// 127; the value then holds those bytes unchanged.
pub assume_specification[ HeaderValue::from_str ](src: &str) -> (r: Result<
    HeaderValue,
    InvalidHeaderValue,
>)
    ensures
        r is Ok <==> is_value_bytes(encode_utf8(src@)),
        r matches Ok(value) ==> value_bytes(value) == encode_utf8(src@),
;

/// `HeaderValue::as_bytes`: shows the bytes that a header value holds.
pub assume_specification[ HeaderValue::as_bytes ](value: &HeaderValue) -> (bytes: &[u8])
    ensures
        bytes@ == value_bytes(*value),
;

/// The name of the header field that carries the token.
pub open spec fn field_name() -> Seq<char> {
    "Authorization"@
}

/// The `Authorization` header of a fetch. Its view is the bytes of the
/// header value. Every value of this type may be sent: it holds no control
/// character but the tab.
#[derive(Debug, PartialEq, Eq)]
pub struct Authorization {
    value: HeaderValue,
}

impl View for Authorization {
    type V = Seq<u8>;

    closed spec fn view(&self) -> Seq<u8> {
        value_bytes(self.value)
    }
}

impl Authorization {
    #[verifier::type_invariant]
    spec fn sendable(self) -> bool {
        is_value_bytes(value_bytes(self.value))
    }

    /// The name of the header field.
    pub fn name(&self) -> (name: &'static str)
        ensures
            name@ == field_name(),
    {
        "Authorization"
    }

    /// The bytes of the header value.
    pub fn as_bytes(&self) -> (bytes: &[u8])
        ensures
            bytes@ == self@,
            is_value_bytes(bytes@),
    {
        proof {
            use_type_invariant(self);
        }
        self.value.as_bytes()
    }

    /// Gives up the header value, for a client to send.
    pub fn into_value(self) -> (value: HeaderValue)
        ensures
            value_bytes(value) == self@,
            is_value_bytes(value_bytes(value)),
    {
        proof {
            use_type_invariant(&self);
        }
        self.value
    }
}

/// Turns a token into the `Authorization` header, with the value
/// `token <token>`.
///
/// Fails with [`FetchError::Header`] exactly if the token holds a character
/// that no header value may hold: an ASCII control character other than the
/// tab.
pub fn authorization(token: &str) -> (r: Result<Authorization, FetchError>)
    ensures
        r is Ok <==> is_value_text(token@),
        r matches Ok(header) ==> header@ == encode_utf8(authorization_text(token@)),
        r matches Err(e) ==> e@ == FetchErrorView::Header,
{
    let mut text = String::from_str("token ");
    text.append(token);
    proof {
        lemma_authorization_text(token@);
        lemma_text_value_bytes(authorization_text(token@));
    }
    match HeaderValue::from_str(text.as_str()) {
        Ok(value) => Ok(Authorization { value }),
        Err(_) => Err(FetchError::Header),
    }
}

} // verus!
