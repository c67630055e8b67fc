//! The sender's signing key as the configuration writes it: hexadecimal text
//! behind a two-character prefix.

use vstd::prelude::*;
use vstd::slice::slice_subrange;
use vstd::string::StringSliceAdditionalSpecFns;

verus! {

/// The value of one hexadecimal digit in ASCII, of either case.
pub open spec fn hex_digit_value(digit: u8) -> Option<u8> {
    if 0x30 <= digit <= 0x39 {
        Some((digit - 0x30) as u8)
    } else if 0x41 <= digit <= 0x46 {
        Some((digit - 0x41 + 10) as u8)
    } else if 0x61 <= digit <= 0x66 {
        Some((digit - 0x61 + 10) as u8)
    } else {
        None
    }
}

/// Whether `text` writes whole bytes in hexadecimal: an even number of
/// characters, each a hexadecimal digit.
pub open spec fn is_hex_text(text: Seq<u8>) -> bool {
    &&& text.len() % 2 == 0
    &&& forall|i: int| 0 <= i < text.len() ==> hex_digit_value(#[trigger] text[i]) is Some
}

/// The bytes that `text` writes in hexadecimal, two digits to a byte, the
/// high digit first.
pub open spec fn hex_bytes(text: Seq<u8>) -> Seq<u8> {
    Seq::new(
        text.len() / 2,
        |i: int|
            (16 * hex_digit_value(text[2 * i]).unwrap() + hex_digit_value(
                text[2 * i + 1],
            ).unwrap()) as u8,
    )
}

/// Whether `key` is a prefix of two bytes followed by hexadecimal text.
pub open spec fn is_prefixed_hex(key: Seq<u8>) -> bool {
    key.len() >= 2 && is_hex_text(key.skip(2))
}

/// `hex::decode`: the bytes that `text` writes in hexadecimal, or nothing
/// where `text` has an odd length or holds a character that is no hexadecimal
/// digit.
#[verifier::external_body]
fn decode_hex(text: &[u8]) -> (bytes: Option<Vec<u8>>)
    ensures
        bytes is Some <==> is_hex_text(text@),
        bytes is Some ==> bytes.unwrap()@ == hex_bytes(text@),
{
    hex::decode(text).ok()
}

/// Reads a signing key written as hexadecimal text behind a prefix of two
/// characters, such as `0x`. The prefix itself is not looked at.
pub fn decode_private_key(key: &str) -> (bytes: Option<Vec<u8>>)
    ensures
        bytes is Some <==> is_prefixed_hex(key.spec_bytes()),
        bytes is Some ==> bytes.unwrap()@ == hex_bytes(key.spec_bytes().skip(2)),
{
    let text = key.as_bytes();
    if text.len() < 2 {
        return None;
    }
    let digits = slice_subrange(text, 2, text.len());
    assert(digits@ =~= key.spec_bytes().skip(2));
    decode_hex(digits)
}

} // verus!
