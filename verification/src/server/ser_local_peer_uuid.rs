//! How the identifier of a device travels: as the base64 text of its
//! hyphenated form.

use vstd::prelude::*;
use vstd::string::StringSliceAdditionalSpecFns;
use vstd::utf8::{decode_utf8, valid_utf8};

verus! {

/// The text that `base64::encode` gives for these bytes.
pub uninterp spec fn base64_encoded(bytes: Seq<u8>) -> Seq<char>;

/// The bytes that `base64::decode` reads from this text, if it accepts it.
pub uninterp spec fn base64_decoded(text: Seq<char>) -> Option<Seq<u8>>;

/// The identifier that `Uuid::parse_str` reads from this text, if it accepts it.
pub uninterp spec fn uuid_parsed(text: Seq<char>) -> Option<u128>;

/// `base64::encode` on the bytes of a string. Trusted: the result is the
/// standard-alphabet, padded base64 text of those bytes, and depends on them
/// alone.
#[verifier::external_body]
fn base64_encode(input: &str) -> (r: String)
    ensures
        r@ == base64_encoded(input.spec_bytes()),
{
    base64::encode(input)
}

/// `base64::decode` on a string. Trusted: whether the text is accepted and the
/// bytes it stands for depend on the text alone.
#[verifier::external_body]
fn base64_decode(input: &str) -> (r: Option<Vec<u8>>)
    ensures
        match r {
            Some(bytes) => base64_decoded(input@) == Some(bytes@),
            None => base64_decoded(input@) is None,
        },
{
    base64::decode(input).ok()
}

/// `String::from_utf8`. Trusted: it succeeds exactly on well-formed UTF-8 and
/// then gives the characters that the bytes encode.
#[verifier::external_body]
fn utf8_string(bytes: Vec<u8>) -> (r: Option<String>)
    ensures
        match r {
            Some(s) => valid_utf8(bytes@) && s@ == decode_utf8(bytes@),
            None => !valid_utf8(bytes@),
        },
{
    String::from_utf8(bytes).ok()
}

/// `Uuid::parse_str`, with the identifier taken as a number by `Uuid::as_u128`.
/// Trusted: whether the text is accepted and the identifier it stands for
/// depend on the text alone.
#[verifier::external_body]
fn uuid_parse(text: &str) -> (r: Option<u128>)
    ensures
        r == uuid_parsed(text@),
{
    match uuid::Uuid::parse_str(text) {
        Ok(id) => Some(id.as_u128()),
        Err(_) => None,
    }
}

/// The hexadecimal digit for a number below sixteen, in small letters.
pub open spec fn hex_digit(n: u128) -> char {
    if n == 0 {
        '0'
    } else if n == 1 {
        '1'
    } else if n == 2 {
        '2'
    } else if n == 3 {
        '3'
    } else if n == 4 {
        '4'
    } else if n == 5 {
        '5'
    } else if n == 6 {
        '6'
    } else if n == 7 {
        '7'
    } else if n == 8 {
        '8'
    } else if n == 9 {
        '9'
    } else if n == 10 {
        'a'
    } else if n == 11 {
        'b'
    } else if n == 12 {
        'c'
    } else if n == 13 {
        'd'
    } else if n == 14 {
        'e'
    } else {
        'f'
    }
}

/// The hexadecimal digit of an identifier at place `k` of its thirty-two,
/// counted from the left.
pub open spec fn nibble(value: u128, k: int) -> u128 {
    (value >> ((4 * (31 - k)) as u128)) & 0xf
}

/// The character at place `i` of the hyphenated form.
pub open spec fn uuid_char(value: u128, i: int) -> char {
    if i == 8 || i == 13 || i == 18 || i == 23 {
        '-'
    } else if i < 8 {
        hex_digit(nibble(value, i))
    } else if i < 13 {
        hex_digit(nibble(value, i - 1))
    } else if i < 18 {
        hex_digit(nibble(value, i - 2))
    } else if i < 23 {
        hex_digit(nibble(value, i - 3))
    } else {
        hex_digit(nibble(value, i - 4))
    }
}

/// The hyphenated form of an identifier: its thirty-two hexadecimal digits in
/// small letters, the highest first, in groups of eight, four, four, four and
/// twelve that hyphens join.
pub open spec fn uuid_text(value: u128) -> Seq<char> {
    Seq::new(36, |i: int| uuid_char(value, i))
}

/// `Uuid::from_u128` and the text that `Uuid` prints. Trusted: the text is the
/// hyphenated form, thirty-two hexadecimal digits in small letters, the
/// highest first, with hyphens after the eighth, twelfth, sixteenth and
/// twentieth.
#[verifier::external_body]
fn uuid_format(value: u128) -> (r: String)
    ensures
        r@ == uuid_text(value),
{
    uuid::Uuid::from_u128(value).to_string()
}

/// The text under which an identifier travels.
pub open spec fn wire_text(value: u128) -> Seq<char> {
    base64_encoded(vstd::utf8::encode_utf8(uuid_text(value)))
}

/// The identifier that a text stands for: the text is base64, the bytes are
/// UTF-8 and the characters are an identifier; `None` where any of the three
/// fails.
pub open spec fn wire_uuid(text: Seq<char>) -> Option<u128> {
    match base64_decoded(text) {
        Some(bytes) => if valid_utf8(bytes) {
            uuid_parsed(decode_utf8(bytes))
        } else {
            None
        },
        None => None,
    }
}

/// The identifier that a text stands for. Text that is no base64, bytes that
/// are no UTF-8 and characters that are no identifier are refused alike.
pub fn deserialize(text: &str) -> (r: Option<u128>)
    ensures
        r == wire_uuid(text@),
{
    match base64_decode(text) {
        None => None,
        Some(bytes) => match utf8_string(bytes) {
            None => None,
            Some(id) => uuid_parse(id.as_str()),
        },
    }
}

/// The text under which an identifier travels.
pub fn serialize(uuid: u128) -> (r: String)
    ensures
        r@ == wire_text(uuid),
{
    let id = uuid_format(uuid);
    base64_encode(id.as_str())
}

} // verus!
