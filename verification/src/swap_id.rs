//! The identity of a swap.

use vstd::prelude::*;

use crate::bytes::bytes_eq;
use crate::hex::{bytes_hex, digit_value, hex_text, hex_value, is_hex, law_hex_round_trip};

verus! {

/// Thirty-two bytes that identify one swap.
#[derive(Clone, Copy, Debug, PartialEq, Eq, Hash)]
pub struct SwapId {
    bytes: [u8; 32],
}

/// A text is not the identity of a swap.
#[derive(Clone, Copy, Debug, PartialEq, Eq, Structural, Hash)]
pub struct SwapIdParseError;

impl SwapIdParseError {
    /// The message for users.
    pub fn to_string(&self) -> (text: String)
        ensures
            text@ == "invalid swap id"@,
    {
        "invalid swap id".to_owned()
    }
}

impl View for SwapId {
    type V = Seq<u8>;

    closed spec fn view(&self) -> Seq<u8> {
        self.bytes@
    }
}

/// `rand::random` for 32 bytes: nothing is known of them.
#[verifier::external_body]
fn random_bytes() -> (bytes: [u8; 32]) {
    rand::random()
}

/// The identity that a text of 64 hexadecimal digits of either case writes, or nothing.
pub open spec fn swap_id_value(text: Seq<char>) -> Option<Seq<u8>> {
    if text.len() == 64 {
        hex_value(text)
    } else {
        None
    }
}

/// The value of an ASCII hexadecimal digit of either case.
fn decode_hex_nibble(byte: u8) -> (value: Option<u8>)
    ensures
        match value {
            Some(found) => digit_value(byte as char) == Some(found as int) && found < 16,
            None => digit_value(byte as char) is None,
        },
{
    if byte >= 48 && byte <= 57 {
        Some(byte - 48)
    } else if byte >= 97 && byte <= 102 {
        Some(byte - 87)
    } else if byte >= 65 && byte <= 70 {
        Some(byte - 55)
    } else {
        None
    }
}

impl SwapId {
    /// The identity made of `bytes`.
    pub fn from_bytes(bytes: [u8; 32]) -> (id: SwapId)
        ensures
            id@ == bytes@,
    {
        SwapId { bytes }
    }

    /// A fresh random identity.
    pub fn random() -> (id: SwapId)
        ensures
            id@.len() == 32,
    {
        SwapId { bytes: random_bytes() }
    }

    /// The bytes of this identity.
    pub fn as_bytes(&self) -> (bytes: &[u8; 32])
        ensures
            bytes@ == self@,
    {
        &self.bytes
    }

    /// Whether two identities are the same.
    pub fn same(&self, other: &SwapId) -> (same: bool)
        ensures
            same == (self@ == other@),
    {
        bytes_eq(self.bytes.as_slice(), other.bytes.as_slice())
    }

    /// The 64 lower-case hexadecimal digits of this identity.
    pub fn to_string(&self) -> (text: String)
        ensures
            text@ == hex_text(self@),
            text@.len() == 64,
    {
        bytes_hex(self.bytes.as_slice())
    }

    /// The identity that `s` writes.
    pub fn from_str(s: &str) -> (id: Result<SwapId, SwapIdParseError>)
        ensures
            match id {
                Ok(found) => swap_id_value(s@) == Some(found@),
                Err(_) => swap_id_value(s@) is None,
            },
    {
        broadcast use vstd::string::group_string_axioms;

        if !s.is_ascii() {
            proof {
                let i = choose|i: int| 0 <= i < s@.len() && !('\0' <= #[trigger] s@[i] <= '\u{7f}');
                assert(digit_value(s@[i]) is None);
                assert(!is_hex(s@));
            }
            return Err(SwapIdParseError);
        }
        let text = s.as_bytes();
        assert(text@.len() == s@.len());
        if text.len() != 64 {
            return Err(SwapIdParseError);
        }
        let mut bytes = [0u8; 32];
        let mut idx: usize = 0;
        while idx < 32
            invariant
                idx <= 32,
                text@.len() == 64,
                s@.len() == 64,
                forall|i: int| 0 <= i < 64 ==> '\0' <= #[trigger] s@[i] <= '\u{7f}',
                forall|i: int| 0 <= i < 64 ==> #[trigger] text@[i] == s@[i] as u8,
                forall|i: int| 0 <= i < 2 * idx ==> (#[trigger] digit_value(s@[i])) is Some,
                forall|i: int|
                    0 <= i < idx ==> #[trigger] bytes@[i] == (16 * digit_value(s@[2 * i])->0
                        + digit_value(s@[2 * i + 1])->0) as u8,
            decreases 32 - idx,
        {
            let hi = decode_hex_nibble(text[2 * idx]);
            let lo = decode_hex_nibble(text[2 * idx + 1]);
            assert(text@[2 * idx as int] as char == s@[2 * idx as int]) by {
                assert('\0' <= s@[2 * idx as int] <= '\u{7f}');
            }
            assert(text@[2 * idx + 1] as char == s@[2 * idx + 1]) by {
                assert('\0' <= s@[2 * idx + 1] <= '\u{7f}');
            }
            match (hi, lo) {
                (Some(high), Some(low)) => {
                    bytes[idx] = high * 16 + low;
                },
                _ => {
                    assert(!is_hex(s@));
                    return Err(SwapIdParseError);
                },
            }
            idx += 1;
        }
        assert(hex_value(s@)->0 =~= bytes@);
        Ok(SwapId { bytes })
    }
}

/// Reading the text of an identity gives the identity back.
pub proof fn law_swap_id_round_trip(id: SwapId)
    ensures
        swap_id_value(hex_text(id@)) == Some(id@),
{
    law_hex_round_trip(id@);
}

/// A text is an identifier exactly where it writes 32 bytes in hexadecimal digits, and then tells them.
pub proof fn law_swap_id_has_32_bytes(text: Seq<char>)
    ensures
        swap_id_value(text) is Some <==> (hex_value(text) matches Some(bytes) && bytes.len() == 32),
        swap_id_value(text) matches Some(id) ==> hex_value(text) == Some(id),
{
}

} // verus!
