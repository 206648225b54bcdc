//! Bytes and characters: the classes that HTTP tokens are made of, and
//! comparison without regard to ASCII case.

use vstd::prelude::*;

verus! {

/// Whether `b` is an ASCII letter or digit.
pub open spec fn is_alphanumeric_byte(b: u8) -> bool {
    (0x30 <= b <= 0x39) || (0x41 <= b <= 0x5a) || (0x61 <= b <= 0x7a)
}

/// Whether `b` may stand in an HTTP token: a letter, a digit, or one of
/// ``! # $ % & ' * + - . ^ _ ` | ~``.
pub open spec fn is_token_byte(b: u8) -> bool {
    is_alphanumeric_byte(b) || b == 0x21 || b == 0x23 || b == 0x24 || b == 0x25 || b == 0x26
        || b == 0x27 || b == 0x2a || b == 0x2b || b == 0x2d || b == 0x2e || b == 0x5e || b == 0x5f
        || b == 0x60 || b == 0x7c || b == 0x7e
}

/// Whether every byte of `bytes` may stand in an HTTP token.
pub open spec fn all_token_bytes(bytes: Seq<u8>) -> bool {
    forall|i: int| 0 <= i < bytes.len() ==> is_token_byte(#[trigger] bytes[i])
}

/// `b` with an ASCII capital letter turned into the small one.
pub open spec fn lower_byte(b: u8) -> u8 {
    if 0x41 <= b <= 0x5a {
        (b + 0x20) as u8
    } else {
        b
    }
}

/// `bytes` with every ASCII capital letter turned into the small one.
pub open spec fn lower_bytes(bytes: Seq<u8>) -> Seq<u8> {
    Seq::new(bytes.len(), |i: int| lower_byte(bytes[i]))
}

/// Whether two byte strings are the same but for the case of ASCII letters.
pub open spec fn same_ignoring_case(a: Seq<u8>, b: Seq<u8>) -> bool {
    lower_bytes(a) == lower_bytes(b)
}

/// Whether two texts are the same but for the case of ASCII letters.
pub open spec fn same_text_ignoring_case(a: Seq<char>, b: Seq<char>) -> bool {
    same_ignoring_case(vstd::utf8::encode_utf8(a), vstd::utf8::encode_utf8(b))
}

/// `c` with an ASCII capital letter turned into the small one.
pub open spec fn lower_char(c: char) -> char {
    if 'A' <= c <= 'Z' {
        ((c as u8) + 0x20) as char
    } else {
        c
    }
}

/// `text` with every ASCII capital letter turned into the small one.
pub open spec fn lower_text(text: Seq<char>) -> Seq<char> {
    Seq::new(text.len(), |i: int| lower_char(text[i]))
}

/// The text that `bytes` encode, or none where they are not UTF-8.
pub open spec fn text_of(bytes: Seq<u8>) -> Option<Seq<char>> {
    if vstd::utf8::valid_utf8(bytes) {
        Some(vstd::utf8::decode_utf8(bytes))
    } else {
        None
    }
}

/// `String::from_utf8`: succeeds exactly on UTF-8, with the text that the
/// bytes encode.
#[verifier::external_body]
pub(crate) fn string_from_utf8(bytes: &[u8]) -> (out: Option<String>)
    ensures
        out.deep_view() == text_of(bytes@),
{
    match String::from_utf8(bytes.to_vec()) {
        Ok(text) => Some(text),
        Err(_) => None,
    }
}

/// Whether `needle` stands in `text` from place `i` on.
pub open spec fn occurs_at(text: Seq<char>, needle: Seq<char>, i: int) -> bool {
    0 <= i && i + needle.len() <= text.len() && text.subrange(i, i + needle.len()) == needle
}

/// Whether `needle` stands somewhere in `text`.
pub open spec fn occurs(text: Seq<char>, needle: Seq<char>) -> bool {
    exists|i: int| occurs_at(text, needle, i)
}

/// Whether `text` ends with `suffix`.
pub open spec fn ends_with(text: Seq<char>, suffix: Seq<char>) -> bool {
    occurs_at(text, suffix, text.len() - suffix.len())
}

/// Whether `text` begins with `prefix`.
pub open spec fn starts_with(text: Seq<char>, prefix: Seq<char>) -> bool {
    occurs_at(text, prefix, 0)
}

/// A text begins with itself.
pub proof fn lemma_starts_with_itself(text: Seq<char>)
    ensures
        starts_with(text, text),
{
    assert(text.subrange(0, text.len() as int) =~= text);
}

/// A text begins with its own first part.
pub proof fn lemma_starts_with_first_part(first: Seq<char>, rest: Seq<char>)
    ensures
        starts_with(first + rest, first),
{
    assert((first + rest).subrange(0, first.len() as int) =~= first);
}

/// What splitting `text` at its first `delimiter` gives: the part before
/// it and the part after it, or none where there is no `delimiter`.
pub open spec fn split_at_first(text: Seq<char>, delimiter: char) -> Option<(Seq<char>, Seq<char>)> {
    if text.contains(delimiter) {
        let first = choose|k: int|
            0 <= k < text.len() && text[k] == delimiter && !text.subrange(0, k).contains(delimiter);
        Some((text.subrange(0, first), text.subrange(first + 1, text.len() as int)))
    } else {
        None
    }
}

/// The character of the decimal digit `d`.
pub open spec fn digit_char(d: int) -> char {
    (0x30 + d) as u8 as char
}

/// The decimal digits of `n`, without leading zeros.
pub open spec fn decimal_digits(n: nat) -> Seq<char>
    decreases n,
{
    if n < 10 {
        seq![digit_char(n as int)]
    } else {
        decimal_digits(n / 10).push(digit_char((n % 10) as int))
    }
}

/// `n` written in decimal, with a minus sign where it is negative.
pub open spec fn decimal(n: int) -> Seq<char> {
    if n < 0 {
        seq!['-'] + decimal_digits((-n) as nat)
    } else {
        decimal_digits(n as nat)
    }
}

/// `str::ends_with` with a text as the pattern: whether the text ends with it.
#[verifier::external_body]
pub(crate) fn str_ends_with(text: &str, suffix: &str) -> (out: bool)
    ensures
        out == ends_with(text@, suffix@),
{
    text.ends_with(suffix)
}

/// `str::contains` with a text as the pattern: whether the pattern stands
/// somewhere in the text.
#[verifier::external_body]
pub(crate) fn str_contains(text: &str, needle: &str) -> (out: bool)
    ensures
        out == occurs(text@, needle@),
{
    text.contains(needle)
}

/// `str::split_once` with a character as the delimiter: the parts before
/// and after the first occurrence of the delimiter.
#[verifier::external_body]
pub(crate) fn str_split_once(text: &str, delimiter: char) -> (out: Option<(&str, &str)>)
    ensures
        out.deep_view() == split_at_first(text@, delimiter),
{
    text.split_once(delimiter)
}

/// `i32::to_string`: the number in decimal, with a minus sign where it is
/// negative.
#[verifier::external_body]
pub(crate) fn i32_to_string(n: i32) -> (out: String)
    ensures
        out@ == decimal(n as int),
{
    n.to_string()
}

/// Tells whether `b` may stand in an HTTP token.
pub fn token_byte(b: u8) -> (out: bool)
    ensures
        out == is_token_byte(b),
{
    (0x30 <= b && b <= 0x39) || (0x41 <= b && b <= 0x5a) || (0x61 <= b && b <= 0x7a) || b == 0x21
        || b == 0x23 || b == 0x24 || b == 0x25 || b == 0x26 || b == 0x27 || b == 0x2a || b == 0x2b
        || b == 0x2d || b == 0x2e || b == 0x5e || b == 0x5f || b == 0x60 || b == 0x7c || b == 0x7e
}

fn to_lower_byte(b: u8) -> (out: u8)
    ensures
        out == lower_byte(b),
{
    if 0x41 <= b && b <= 0x5a {
        b + 0x20
    } else {
        b
    }
}

/// Compares two byte strings without regard to the case of ASCII letters.
pub fn eq_ignoring_case(a: &[u8], b: &[u8]) -> (out: bool)
    ensures
        out == same_ignoring_case(a@, b@),
{
    if a.len() != b.len() {
        assert(lower_bytes(a@).len() != lower_bytes(b@).len());
        return false;
    }
    let mut i: usize = 0;
    while i < a.len()
        invariant
            i <= a.len(),
            a.len() == b.len(),
            forall|k: int| 0 <= k < i ==> lower_byte(a@[k]) == lower_byte(b@[k]),
        decreases a.len() - i,
    {
        if to_lower_byte(a[i]) != to_lower_byte(b[i]) {
            assert(lower_bytes(a@)[i as int] != lower_bytes(b@)[i as int]);
            return false;
        }
        i += 1;
    }
    assert(lower_bytes(a@) =~= lower_bytes(b@));
    true
}

/// Compares two texts without regard to the case of ASCII letters.
pub fn text_eq_ignoring_case(a: &str, b: &str) -> (out: bool)
    ensures
        out == same_text_ignoring_case(a@, b@),
{
    eq_ignoring_case(a.as_bytes(), b.as_bytes())
}

} // verus!
