//! Reading the hex-encoded key material the operator supplies.
//!
//! Secret keys and recipient public keys arrive as ASCII text of the form
//! `0x` followed by an even number of hex digits; this module turns such a
//! field into the raw bytes it denotes.
use vstd::prelude::*;

verus! {

/// Whether `c` is the ASCII code of a hex digit.
pub open spec fn is_hex_digit(c: u8) -> bool {
    (0x30 <= c <= 0x39) || (0x61 <= c <= 0x66) || (0x41 <= c <= 0x46)
}

/// The value of the hex digit with ASCII code `c`.
pub open spec fn hex_digit_val(c: u8) -> int {
    if 0x30 <= c <= 0x39 {
        c - 0x30
    } else if 0x61 <= c <= 0x66 {
        c - 0x61 + 10
    } else {
        c - 0x41 + 10
    }
}

/// Whether `s` is a well-formed hex string: even length, hex digits only.
pub open spec fn valid_hex(s: Seq<u8>) -> bool {
    s.len() % 2 == 0 && (forall|i: int| 0 <= i < s.len() ==> is_hex_digit(#[trigger] s[i]))
}

/// The bytes a well-formed hex string denotes, two digits per byte, the
/// first digit of each pair being the high nibble.
pub open spec fn hex_bytes(s: Seq<u8>) -> Seq<u8> {
    Seq::new((s.len() / 2) as nat, |i: int| (hex_digit_val(s[2 * i]) * 16 + hex_digit_val(s[2 * i + 1])) as u8)
}

/// Whether `s` is a `0x`-prefixed well-formed hex field.
pub open spec fn hex_field_ok(s: Seq<u8>) -> bool {
    s.len() >= 2 && s[0] == 0x30u8 && s[1] == 0x78u8 && valid_hex(s.subrange(2, s.len() as int))
}

/// The bytes a `0x`-prefixed hex field denotes.
pub open spec fn hex_field_bytes(s: Seq<u8>) -> Seq<u8> {
    hex_bytes(s.subrange(2, s.len() as int))
}

/// Relies on hex::decode: it succeeds exactly on an even-length string of
/// hex digits (upper or lower case) and returns the denoted bytes, the first
/// digit of each pair being the high nibble.
#[verifier::external_body]
fn hex_decode(s: &[u8]) -> (r: Option<Vec<u8>>)
    ensures
        match r {
            Some(b) => valid_hex(s@) && b@ == hex_bytes(s@),
            None => !valid_hex(s@),
        },
{
    match hex::decode(s) {
        Ok(b) => Some(b),
        Err(_) => None,
    }
}

/// Decode a `0x`-prefixed hex field into the bytes it denotes.
///
/// Returns `None` exactly when the prefix is absent or the rest is not a
/// well-formed hex string.
pub fn decode_hex_field(s: &[u8]) -> (r: Option<Vec<u8>>)
    ensures
        match r {
            Some(b) => hex_field_ok(s@) && b@ == hex_field_bytes(s@),
            None => !hex_field_ok(s@),
        },
{
    if s.len() < 2 {
        return None;
    }
    let c0 = *vstd::slice::slice_index_get(s, 0);
    let c1 = *vstd::slice::slice_index_get(s, 1);
    if c0 != 0x30 || c1 != 0x78 {
        return None;
    }
    let rest = vstd::slice::slice_subrange(s, 2, s.len());
    hex_decode(rest)
}

} // verus!
