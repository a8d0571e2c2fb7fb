//! Validated Ed25519 signing core.
//!
//! The crate decodes textually encoded key material (base58 combined
//! secrets, base58 public keys, base64 signatures), enforces the length
//! and content rules on every input before any cryptographic primitive
//! runs, and produces or checks Ed25519 signatures over validated
//! messages. Every failure is reported as a typed error, never as a
//! panic.

pub mod codec;
pub mod crypto;
pub mod ed25519;
pub mod errors;
pub mod keypair;
pub mod laws;
pub mod message;
pub mod text;

use vstd::prelude::*;

verus! {

/// Longest message, in bytes, that may be signed or verified.
pub const MAX_MESSAGE_LENGTH: usize = 10000;

/// Shortest message, in bytes, that may be signed or verified.
pub const MIN_MESSAGE_LENGTH: usize = 1;

/// Longest accepted textual combined secret, in characters.
pub const MAX_SECRET_TEXT_LENGTH: usize = 200;

/// Longest accepted textual signature, in characters.
pub const MAX_SIGNATURE_TEXT_LENGTH: usize = 200;

/// Longest accepted textual public key, in characters.
pub const MAX_PUBKEY_TEXT_LENGTH: usize = 100;

/// Byte length of a decoded combined secret: private scalar + public key.
pub const COMBINED_SECRET_LENGTH: usize = 64;

/// Byte length of an Ed25519 private scalar.
pub const SECRET_KEY_LENGTH: usize = 32;

/// Byte length of an Ed25519 public key.
pub const PUBLIC_KEY_LENGTH: usize = 32;

/// Byte length of an Ed25519 signature.
pub const SIGNATURE_LENGTH: usize = 64;

} // verus!
