//! Laws relating the signing and the verification path, stated and
//! proved over the same contracts the paths themselves carry.

use vstd::prelude::*;
use vstd::slice::slice_to_vec;

use crate::codec::b64_encoding;
use crate::crypto::sign_message;
use crate::crypto::verify_signature;
use crate::ed25519::derive_public_key;
use crate::ed25519::ed25519_public_of;
use crate::ed25519::ed25519_signature;
use crate::errors::SigError;
use crate::keypair::KeyPair;
use crate::message::valid_message;
use crate::SECRET_KEY_LENGTH;

verus! {

/// Law: signing a valid message with a key pair whose public half is the
/// one derived from its private half, then verifying the produced
/// signature text under the derived public key text, always yields
/// `Ok(true)` — never an error and never `false`.
pub fn signed_message_verifies(secret: &[u8], message: &[u8]) -> (r: Result<bool, SigError>)
    requires
        secret@.len() == SECRET_KEY_LENGTH,
        valid_message(message@),
    ensures
        r == Ok::<bool, SigError>(true),
{
    let public = derive_public_key(secret);
    let keypair = KeyPair { secret: slice_to_vec(secret), public };
    let sig_text = match sign_message(message, &keypair) {
        Ok(s) => s,
        Err(e) => return Err(e),
    };
    let pk_text = keypair.pubkey_text();
    let outcome = verify_signature(message, sig_text.as_str(), pk_text.as_str());
    outcome
}

/// Law: signing is deterministic. Two signing runs over the same valid
/// message with the same key pair produce byte-identical signature
/// texts: the encoding of the scheme's one signature for these inputs.
pub fn repeated_signature_matches(secret: &[u8], message: &[u8]) -> (r: (String, String))
    requires
        secret@.len() == SECRET_KEY_LENGTH,
        valid_message(message@),
    ensures
        r.0@ == r.1@,
        r.0@ == b64_encoding(
            ed25519_signature(secret@, ed25519_public_of(secret@), message@),
        ),
{
    let public = derive_public_key(secret);
    let keypair = KeyPair { secret: slice_to_vec(secret), public };
    let first = match sign_message(message, &keypair) {
        Ok(s) => s,
        Err(_) => return (String::new(), String::new()),
    };
    let second = match sign_message(message, &keypair) {
        Ok(s) => s,
        Err(_) => return (String::new(), String::new()),
    };
    (first, second)
}

} // verus!
