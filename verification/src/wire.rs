//! What the HTTP, URL and data-URL libraries decide for the fetch subsystem.
//!
//! Each function here hands one question to a library and states, as its
//! contract, the answer that the library's source gives. None of these
//! contracts is proved.

use crate::text::{all_token_bytes, lower_byte};
use vstd::prelude::*;

verus! {

/// The longest header name that the HTTP library accepts, in bytes.
pub const MAX_HEADER_NAME_LEN: usize = 65535;

/// Whether `src` is an HTTP method: a token of at least one byte.
pub open spec fn is_method(src: Seq<u8>) -> bool {
    src.len() > 0 && all_token_bytes(src)
}

/// Whether `src` is a header name: a token of 1 to 65535 bytes.
pub open spec fn is_header_name(src: Seq<u8>) -> bool {
    1 <= src.len() <= MAX_HEADER_NAME_LEN && all_token_bytes(src)
}

/// The text of the header name `src`: its bytes as characters, capital
/// letters turned into small ones.
pub open spec fn header_name_text(src: Seq<u8>) -> Seq<char> {
    Seq::new(src.len(), |i: int| lower_byte(src[i]) as char)
}

/// The normal form of the header name `src`, if it is one.
pub open spec fn canonical_header_name(src: Seq<u8>) -> Option<Seq<char>> {
    if is_header_name(src) {
        Some(header_name_text(src))
    } else {
        None
    }
}

/// Whether `b` may stand in a header value: a tab, or any byte from the
/// space on but the delete character.
pub open spec fn is_header_value_byte(b: u8) -> bool {
    (b >= 32 && b != 127) || b == 9
}

/// Whether `src` is a header value.
pub open spec fn is_header_value(src: Seq<u8>) -> bool {
    forall|i: int| 0 <= i < src.len() ==> is_header_value_byte(#[trigger] src[i])
}

/// Tells whether `b` may stand in a header value.
pub fn header_value_byte(b: u8) -> (out: bool)
    ensures
        out == is_header_value_byte(b),
{
    (b >= 32 && b != 127) || b == 9
}

/// The reason phrase that the HTTP library lists for `status`; none for a
/// number outside 100 to 999 or one without a listed phrase.
pub uninterp spec fn canonical_reason(status: u16) -> Option<Seq<char>>;

/// What the URL library makes of `text`: none where it is no absolute URL,
/// else the scheme and the whole URL in normal form.
pub uninterp spec fn parsed_url(text: Seq<char>) -> Option<(Seq<char>, Seq<char>)>;

/// What the data-URL library makes of `url`: none where it is no `data:`
/// URL with a comma, else its MIME type as text and, where the payload can
/// be decoded, the decoded bytes.
pub uninterp spec fn decoded_data_url(url: Seq<char>) -> Option<(Seq<char>, Option<Seq<u8>>)>;

/// `http::Method::from_bytes`: accepts exactly the non-empty byte strings
/// made of token bytes.
#[verifier::external_body]
pub(crate) fn method_is_valid(src: &[u8]) -> (out: bool)
    ensures
        out == is_method(src@),
{
    http::Method::from_bytes(src).is_ok()
}

/// `http::HeaderName::from_bytes`: accepts exactly the token byte strings of
/// 1 to 65535 bytes, and holds them with capital letters turned into small
/// ones.
#[verifier::external_body]
pub(crate) fn header_name_from_bytes(src: &[u8]) -> (out: Option<String>)
    ensures
        out.deep_view() == canonical_header_name(src@),
{
    match http::HeaderName::from_bytes(src) {
        Ok(name) => Some(name.as_str().to_string()),
        Err(_) => None,
    }
}

/// `http::HeaderValue::from_bytes`: accepts exactly the byte strings in
/// which every byte is a tab or at least a space and not the delete
/// character.
#[verifier::external_body]
pub(crate) fn header_value_is_valid(src: &[u8]) -> (out: bool)
    ensures
        out == is_header_value(src@),
{
    http::HeaderValue::from_bytes(src).is_ok()
}

/// `http::StatusCode::from_u16` followed by `canonical_reason`: the phrase
/// depends on the number alone.
#[verifier::external_body]
pub(crate) fn reason_phrase(status: u16) -> (out: Option<String>)
    ensures
        out.deep_view() == canonical_reason(status),
{
    match http::StatusCode::from_u16(status) {
        Ok(code) => match code.canonical_reason() {
            Some(phrase) => Some(phrase.to_string()),
            None => None,
        },
        Err(_) => None,
    }
}

/// `url::Url::parse`, with `scheme` and `as_str` of what it returns: both
/// depend on the text alone.
#[verifier::external_body]
pub(crate) fn parse_url(text: &str) -> (out: Option<(String, String)>)
    ensures
        out.deep_view() == parsed_url(text@),
{
    match url::Url::parse(text) {
        Ok(url) => Some((url.scheme().to_string(), url.as_str().to_string())),
        Err(_) => None,
    }
}

/// `data_url::DataUrl::process`, with `mime_type` and `decode_to_vec` of
/// what it returns: all depend on the text alone.
#[verifier::external_body]
pub(crate) fn decode_data_url(url: &str) -> (out: Option<(String, Option<Vec<u8>>)>)
    ensures
        out.deep_view() == decoded_data_url(url@),
{
    match data_url::DataUrl::process(url) {
        Ok(parsed) => {
            let mime = parsed.mime_type().to_string();
            match parsed.decode_to_vec() {
                Ok((body, _)) => Some((mime, Some(body))),
                Err(_) => Some((mime, None)),
            }
        },
        Err(_) => None,
    }
}

} // verus!
