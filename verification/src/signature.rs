//! Signature layouts and recovery-parameter normalization.

use vstd::prelude::*;

verus! {

use crate::hexdec::{decode_hex_str, hex_accepted, hex_payload};

broadcast use vstd::array::group_array_axioms;

/// A 256-bit value held as 32 big-endian bytes, used for the `r` and `s`
/// halves of a signature. The bytes are opaque to this crate: they are copied
/// out of the input buffer and never interpreted as a number.
#[derive(Debug, Clone, Copy, PartialEq, Eq)]
pub struct B256(pub [u8; 32]);

impl View for B256 {
    type V = Seq<u8>;

    open spec fn view(&self) -> Seq<u8> {
        self.0@
    }
}

/// Why a signature input was rejected.
#[derive(Debug, Clone, PartialEq, Eq)]
pub enum SignatureError {
    /// The hex string could not be decoded; carries the decoder's diagnostic.
    HexDecodeError(String),
    /// The byte buffer is neither 64 nor 65 bytes long; carries the length seen.
    InvalidLength(usize),
}

/// The recovery-parameter encodings this crate accepts: the bare recovery id
/// (0 or 1), the canonical pair (27 or 28), and the EIP-155 chain-folded form
/// (35 or more).
pub open spec fn accepted_raw_v(v: u8) -> bool {
    v == 0 || v == 1 || v == 27 || v == 28 || v >= 35
}

/// Canonical form of a raw recovery parameter: 0/1 are shifted to 27/28, 27/28
/// stay, an EIP-155 value of 35 or more keeps only its parity, and any other
/// value is passed through unchanged.
pub open spec fn spec_normalize_v(v: u8) -> u8 {
    if v == 0 || v == 1 {
        (v + 27) as u8
    } else if v == 27 || v == 28 {
        v
    } else if v >= 35 {
        (27 + (v - 35) % 2) as u8
    } else {
        v
    }
}

/// Maps every accepted historical encoding of the recovery parameter to the
/// canonical pair {27, 28}; a value outside the accepted encodings is returned
/// unchanged rather than rejected, and callers that need strictness must check
/// the result themselves.
pub fn normalize_v(v: u8) -> (res: u8)
    ensures
        res == spec_normalize_v(v),
        accepted_raw_v(v) ==> res == 27 || res == 28,
        v >= 35 ==> res == 27 + (v - 35) % 2,
        v >= 35 && (v - 35) % 2 == 0 ==> res == 27,
        v >= 35 && (v - 35) % 2 == 1 ==> res == 28,
{
    if v == 0 || v == 1 {
        return v + 27;
    }
    if v == 27 || v == 28 {
        return v;
    }
    if v >= 35 {
        let parity = (v - 35) % 2;
        return 27 + parity;
    }
    v
}

/// What parsing a raw buffer must yield: a 65-byte buffer splits into
/// `r || s || v` with `v` normalized; a 64-byte buffer splits into `r || vs`
/// with the top bit of `vs` giving the parity and cleared out of `s`; any
/// other length is rejected with that length.
pub open spec fn parse_bytes_result_spec(
    b: Seq<u8>,
    r: Result<(B256, B256, u8), SignatureError>,
) -> bool {
    if b.len() == 65 {
        &&& r matches Ok(t)
        &&& t.0@ == b.subrange(0, 32)
        &&& t.1@ == b.subrange(32, 64)
        &&& t.2 == spec_normalize_v(b[64])
    } else if b.len() == 64 {
        &&& r matches Ok(t)
        &&& t.0@ == b.subrange(0, 32)
        &&& t.1@ == b.subrange(32, 64).update(0, b[32] & 0x7f)
        &&& t.2 == (if b[32] & 0x80 != 0 { 28u8 } else { 27u8 })
    } else {
        &&& r matches Err(e)
        &&& e matches SignatureError::InvalidLength(n) && n == b.len()
    }
}

/// Copies the 32 bytes of `bytes` that start at `start` into a fresh `B256`.
fn b256_from_range(bytes: &[u8], start: usize) -> (out: B256)
    requires
        start + 32 <= bytes@.len(),
    ensures
        out@ == bytes@.subrange(start as int, start as int + 32),
{
    let n = bytes.len();
    let mut buf = [0u8; 32];
    let mut i: usize = 0;
    while i < 32
        invariant
            start + 32 <= n,
            n == bytes@.len(),
            i <= 32,
            forall|j: int| 0 <= j < i ==> buf@[j] == bytes@[start + j],
        decreases 32 - i,
    {
        buf[i] = bytes[start + i];
        i = i + 1;
    }
    assert(buf@ =~= bytes@.subrange(start as int, start as int + 32));
    B256(buf)
}

/// Parses a raw signature buffer of 64 bytes (EIP-2098 compact `r || vs`) or
/// 65 bytes (`r || s || v`) into `(r, s, v)` with `v` drawn from the final
/// byte (65-byte form) or from the top bit of `vs` (64-byte form); any other
/// length is rejected with `InvalidLength` carrying the length seen.
pub fn parse_signature_bytes(bytes: &[u8]) -> (res: Result<(B256, B256, u8), SignatureError>)
    ensures
        parse_bytes_result_spec(bytes@, res),
        bytes@.len() == 65 && accepted_raw_v(bytes@[64]) ==> (res matches Ok(t) && (t.2 == 27
            || t.2 == 28)),
        bytes@.len() == 64 ==> (res matches Ok(t) && t.1@[0] & 0x80 == 0),
{
    let n = bytes.len();
    if n == 65 {
        let r_half = b256_from_range(bytes, 0);
        let s_half = b256_from_range(bytes, 32);
        let v_norm = normalize_v(bytes[64]);
        Ok((r_half, s_half, v_norm))
    } else if n == 64 {
        let r_half = b256_from_range(bytes, 0);
        let mut vs = b256_from_range(bytes, 32);
        let vs0 = vs.0[0];
        let v_bit = (vs0 & 0x80) != 0;
        vs.0[0] = vs0 & 0x7f;
        let v_norm: u8 = if v_bit {
            28
        } else {
            27
        };
        proof {
            assert((vs0 & 0x7f) & 0x80 == 0) by (bit_vector);
        }
        Ok((r_half, vs, v_norm))
    } else {
        Err(SignatureError::InvalidLength(n))
    }
}

/// Parses a hex signature string, with one optional `0x`/`0X` prefix, by
/// decoding it to bytes and handing those to `parse_signature_bytes`; a string
/// that is not well-formed hex is rejected with `HexDecodeError` carrying the
/// decoder's diagnostic.
pub fn parse_signature_hex(sig_hex: &str) -> (res: Result<(B256, B256, u8), SignatureError>)
    ensures
        hex_accepted(sig_hex@) ==> parse_bytes_result_spec(hex_payload(sig_hex@), res),
        !hex_accepted(sig_hex@) ==> (res matches Err(e) && e matches
            SignatureError::HexDecodeError(_)),
{
    match decode_hex_str(sig_hex) {
        Ok(bytes) => parse_signature_bytes(bytes.as_slice()),
        Err(msg) => Err(SignatureError::HexDecodeError(msg)),
    }
}

} // verus!
