//! Hexadecimal text: the byte-level grammar of hex strings and the decoder
//! the key and address logic is specified against.

use vstd::prelude::*;
use vstd::string::StringSliceAdditionalSpecFns;

verus! {

/// Whether an ASCII byte is a decimal digit.
pub open spec fn is_dec_digit(b: u8) -> bool {
    0x30 <= b <= 0x39
}

/// Whether an ASCII byte is a hexadecimal digit, either case.
pub open spec fn is_hex_digit(b: u8) -> bool {
    ||| is_dec_digit(b)
    ||| 0x41 <= b <= 0x46
    ||| 0x61 <= b <= 0x66
}

/// The value of a hexadecimal digit byte.
pub open spec fn hex_val(b: u8) -> u8
    recommends
        is_hex_digit(b),
{
    if is_dec_digit(b) {
        (b - 0x30) as u8
    } else if 0x41 <= b <= 0x46 {
        (b - 0x41 + 10) as u8
    } else {
        (b - 0x61 + 10) as u8
    }
}

/// Whether a byte string is well-formed hexadecimal: even length, hex digits
/// only.
pub open spec fn valid_hex(s: Seq<u8>) -> bool {
    &&& s.len() % 2 == 0
    &&& forall|i: int| 0 <= i < s.len() ==> is_hex_digit(#[trigger] s[i])
}

/// The bytes a well-formed hexadecimal string denotes, one per digit pair.
pub open spec fn hex_bytes(s: Seq<u8>) -> Seq<u8> {
    Seq::new((s.len() / 2) as nat, |i: int| (hex_val(s[2 * i]) * 16 + hex_val(s[2 * i + 1])) as u8)
}

/// Relies on hex::decode: it succeeds exactly on even-length strings of hex
/// digits (either case) and returns one byte per digit pair, high digit
/// first.
#[verifier::external_body]
pub(crate) fn decode_hex(s: &str) -> (r: Option<Vec<u8>>)
    ensures
        r is Some <==> valid_hex(s.spec_bytes()),
        r matches Some(v) ==> v@ == hex_bytes(s.spec_bytes()),
{
    hex::decode(s).ok()
}

/// The value of a hexadecimal digit byte, executably.
pub fn hex_digit_value(b: u8) -> (r: u8)
    requires
        is_hex_digit(b),
    ensures
        r == hex_val(b),
        r < 16,
{
    if b <= 0x39 {
        b - 0x30
    } else if b <= 0x46 {
        b - 0x41 + 10
    } else {
        b - 0x61 + 10
    }
}

/// Whether a byte is a hexadecimal digit, executably.
pub fn is_hex_digit_byte(b: u8) -> (r: bool)
    ensures
        r == is_hex_digit(b),
{
    (0x30 <= b && b <= 0x39) || (0x41 <= b && b <= 0x46) || (0x61 <= b && b <= 0x66)
}

/// Whether a byte is a decimal digit, executably.
pub fn is_dec_digit_byte(b: u8) -> (r: bool)
    ensures
        r == is_dec_digit(b),
{
    0x30 <= b && b <= 0x39
}

} // verus!
