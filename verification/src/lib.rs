//! Parsing of Ethereum-style ECDSA signatures.
//!
//! A signature arrives either as a hex string (optionally `0x`-prefixed) or as
//! a raw byte buffer of 64 bytes (EIP-2098 compact form) or 65 bytes
//! (`r || s || v`). Parsing extracts the `r` and `s` halves as 32-byte values
//! and normalizes the recovery parameter `v` to the canonical pair 27/28.

pub mod hexdec;
pub mod signature;

pub use signature::{normalize_v, parse_signature_bytes, parse_signature_hex, B256, SignatureError};
