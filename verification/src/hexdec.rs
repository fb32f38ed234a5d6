//! Hexadecimal decoding of signature strings, specified over character
//! sequences and carried out by the `alloy` hex decoder.

use vstd::prelude::*;

verus! {

/// Whether `c` is an ASCII hexadecimal digit, upper or lower case.
pub open spec fn is_hex_digit(c: char) -> bool {
    ('0' as u32) <= (c as u32) && (c as u32) <= ('9' as u32)
    || ('a' as u32) <= (c as u32) && (c as u32) <= ('f' as u32)
    || ('A' as u32) <= (c as u32) && (c as u32) <= ('F' as u32)
}

/// The numeric value of a hex digit (0 for characters that are none).
pub open spec fn hex_digit_value(c: char) -> u8 {
    if ('0' as u32) <= (c as u32) && (c as u32) <= ('9' as u32) {
        ((c as u32) - ('0' as u32)) as u8
    } else if ('a' as u32) <= (c as u32) && (c as u32) <= ('f' as u32) {
        ((c as u32) - ('a' as u32) + 10) as u8
    } else if ('A' as u32) <= (c as u32) && (c as u32) <= ('F' as u32) {
        ((c as u32) - ('A' as u32) + 10) as u8
    } else {
        0
    }
}

/// Whether `s` begins with a `0x` or `0X` prefix.
pub open spec fn has_hex_prefix(s: Seq<char>) -> bool {
    s.len() >= 2 && s[0] == '0' && (s[1] == 'x' || s[1] == 'X')
}

/// `s` with one leading `0x`/`0X` prefix removed, if it carries one.
pub open spec fn strip_hex_prefix(s: Seq<char>) -> Seq<char> {
    if has_hex_prefix(s) {
        s.subrange(2, s.len() as int)
    } else {
        s
    }
}

/// Whether `s` is a well-formed hex payload: an even number of characters,
/// every one a hex digit.
pub open spec fn is_hex_seq(s: Seq<char>) -> bool {
    s.len() % 2 == 0 && (forall|i: int| 0 <= i < s.len() ==> is_hex_digit(s[i]))
}

/// The bytes spelled by a hex payload: each pair of digits yields one byte,
/// high digit first.
pub open spec fn hex_decode_seq(s: Seq<char>) -> Seq<u8> {
    Seq::new(
        s.len() / 2,
        |i: int| (16 * hex_digit_value(s[2 * i]) + hex_digit_value(s[2 * i + 1])) as u8,
    )
}

/// Whether the whole input string decodes: after the optional prefix comes an
/// even number of hex digits.
pub open spec fn hex_accepted(s: Seq<char>) -> bool {
    is_hex_seq(strip_hex_prefix(s))
}

/// The bytes a decodable input string spells, prefix excluded.
pub open spec fn hex_payload(s: Seq<char>) -> Seq<u8> {
    hex_decode_seq(strip_hex_prefix(s))
}

/// Relies on alloy's hex decoder (`alloy::hex::FromHex` for `Vec<u8>`): it
/// strips one optional `0x`/`0X` prefix, then requires an even number of hex
/// digits, upper or lower case, and turns each pair into one byte, high digit
/// first; any other input is rejected with a diagnostic.
#[verifier::external_body]
pub(crate) fn decode_hex_str(s: &str) -> (r: Result<Vec<u8>, String>)
    ensures
        match r {
            Ok(bytes) => hex_accepted(s@) && bytes@ == hex_payload(s@),
            Err(_) => !hex_accepted(s@),
        },
{
    match <Vec<u8> as alloy::hex::FromHex>::from_hex(s) {
        Ok(bytes) => Ok(bytes),
        Err(e) => Err(format!("{}", e)),
    }
}

/// Prefix tolerance: prepending a `0x` or `0X` prefix to an input that does
/// not already carry one changes neither whether it is accepted nor the bytes
/// it decodes to.
pub proof fn lemma_hex_prefix_tolerance(t: Seq<char>)
    requires
        !has_hex_prefix(t),
    ensures
        hex_accepted(seq!['0', 'x'] + t) == hex_accepted(t),
        hex_accepted(seq!['0', 'X'] + t) == hex_accepted(t),
        hex_payload(seq!['0', 'x'] + t) == hex_payload(t),
        hex_payload(seq!['0', 'X'] + t) == hex_payload(t),
{
    assert(strip_hex_prefix(seq!['0', 'x'] + t) =~= t);
    assert(strip_hex_prefix(seq!['0', 'X'] + t) =~= t);
    assert(strip_hex_prefix(t) == t);
}

} // verus!
