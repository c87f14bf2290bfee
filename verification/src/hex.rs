//! Lower-case hexadecimal text of byte strings.

use bitcoin::hex::{DisplayHex, FromHex};
use vstd::prelude::*;

use crate::bytes::array32;
use crate::error::SwapError;

verus! {

/// The lower-case digit of a value below sixteen.
pub open spec fn hex_digit(value: int) -> char {
    if value < 10 {
        (48 + value) as char
    } else {
        (87 + value) as char
    }
}

/// The value of a hexadecimal digit of either case.
pub open spec fn digit_value(digit: char) -> Option<int> {
    if '0' <= digit <= '9' {
        Some(digit as int - 48)
    } else if 'a' <= digit <= 'f' {
        Some(digit as int - 87)
    } else if 'A' <= digit <= 'F' {
        Some(digit as int - 55)
    } else {
        None
    }
}

/// The text that writes each byte as two lower-case digits, high digit first.
pub open spec fn hex_text(bytes: Seq<u8>) -> Seq<char> {
    Seq::new(
        2 * bytes.len(),
        |i: int| hex_digit(if i % 2 == 0 { bytes[i / 2] as int / 16 } else { bytes[i / 2] as int % 16 }),
    )
}

/// Whether a text is an even number of hexadecimal digits.
pub open spec fn is_hex(text: Seq<char>) -> bool {
    &&& text.len() % 2 == 0
    &&& forall|i: int| 0 <= i < text.len() ==> (#[trigger] digit_value(text[i])) is Some
}

/// The bytes that a text of hexadecimal digits writes, or nothing.
pub open spec fn hex_value(text: Seq<char>) -> Option<Seq<u8>> {
    if is_hex(text) {
        Some(
            Seq::new(
                text.len() / 2,
                |i: int| (16 * digit_value(text[2 * i])->0 + digit_value(text[2 * i + 1])->0) as u8,
            ),
        )
    } else {
        None
    }
}

/// `DisplayHex::as_hex` of bitcoin's hex module, printed: two lower-case digits for each byte.
#[verifier::external_body]
fn encode_hex(bytes: &[u8]) -> (text: String)
    ensures
        text@ == hex_text(bytes@),
{
    bytes.as_hex().to_string()
}

/// `FromHex::from_hex` of bitcoin's hex module: the bytes that an even number of digits of
/// either case writes, and an error for every other text.
#[verifier::external_body]
fn decode_hex(text: &str) -> (bytes: Option<Vec<u8>>)
    ensures
        (bytes matches Some(found) ==> hex_value(text@) == Some(found@)),
        bytes is None ==> hex_value(text@) is None,
{
    Vec::<u8>::from_hex(text).ok()
}

/// The lower-case hexadecimal text of `bytes`.
pub fn bytes_hex(bytes: &[u8]) -> (text: String)
    ensures
        text@ == hex_text(bytes@),
{
    encode_hex(bytes)
}

/// The bytes that `hex` writes.
pub fn bytes_from_hex(hex: &str) -> (bytes: Result<Vec<u8>, SwapError>)
    ensures
        match bytes {
            Ok(found) => hex_value(hex@) == Some(found@),
            Err(error) => hex_value(hex@) is None && error == SwapError::InvalidHex,
        },
{
    match decode_hex(hex) {
        Some(bytes) => Ok(bytes),
        None => Err(SwapError::InvalidHex),
    }
}

/// The 32 bytes that `hex` writes.
pub fn bytes32_from_hex(hex: &str) -> (bytes: Result<[u8; 32], SwapError>)
    ensures
        match bytes {
            Ok(found) => hex_value(hex@) == Some(found@),
            Err(error) => match hex_value(hex@) {
                Some(other) => other.len() != 32 && error == SwapError::ExpectedThirtyTwoBytes,
                None => error == SwapError::InvalidHex,
            },
        },
{
    match bytes_from_hex(hex) {
        Ok(bytes) => if bytes.len() == 32 {
            Ok(array32(bytes.as_slice()))
        } else {
            Err(SwapError::ExpectedThirtyTwoBytes)
        },
        Err(error) => Err(error),
    }
}

/// The script that `hex` writes, as bytes.
pub fn script_from_hex(hex: &str) -> (script: Result<Vec<u8>, SwapError>)
    ensures
        match script {
            Ok(found) => hex_value(hex@) == Some(found@),
            Err(error) => hex_value(hex@) is None && error == SwapError::InvalidHex,
        },
{
    bytes_from_hex(hex)
}

/// Reading back what was written gives the same bytes.
pub proof fn law_hex_round_trip(bytes: Seq<u8>)
    ensures
        hex_value(hex_text(bytes)) == Some(bytes),
{
    let text = hex_text(bytes);
    assert forall|i: int| 0 <= i < text.len() implies (#[trigger] digit_value(text[i])) is Some by {
        assert(0 <= i / 2 < bytes.len());
    }
    let read = hex_value(text)->0;
    assert forall|i: int| 0 <= i < bytes.len() implies read[i] == bytes[i] by {
        assert((2 * i) % 2 == 0 && (2 * i) / 2 == i);
        assert((2 * i + 1) % 2 == 1 && (2 * i + 1) / 2 == i);
        assert(digit_value(text[2 * i]) == Some(bytes[i] as int / 16));
        assert(digit_value(text[2 * i + 1]) == Some(bytes[i] as int % 16));
        assert(16 * (bytes[i] as int / 16) + bytes[i] as int % 16 == bytes[i] as int);
    }
    assert(read =~= bytes);
}

/// Different byte strings have different texts.
pub proof fn law_hex_text_is_injective(a: Seq<u8>, b: Seq<u8>)
    requires
        hex_text(a) == hex_text(b),
    ensures
        a == b,
{
    law_hex_round_trip(a);
    law_hex_round_trip(b);
}

} // verus!
