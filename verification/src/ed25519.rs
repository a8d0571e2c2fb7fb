//! The signature scheme, supplied by an outside crate. The scheme's
//! results are named here; each wrapper states over those names what the
//! crate's source shows of the one call it makes.

use vstd::prelude::*;

use ed25519_dalek::Keypair;
use ed25519_dalek::PublicKey;
use ed25519_dalek::SecretKey;
use ed25519_dalek::Signature;
use ed25519_dalek::Signer;
use ed25519_dalek::Verifier;

verus! {

/// The 64 signature bytes that `ed25519_dalek::Keypair::sign` produces:
/// a deterministic function of the private scalar, the public key half
/// carried beside it, and the message.
pub uninterp spec fn ed25519_signature(secret: Seq<u8>, public: Seq<u8>, message: Seq<u8>) -> Seq<
    u8,
>;

/// The public key bytes that `ed25519_dalek::PublicKey::from` derives
/// from a private scalar: a deterministic function of the scalar alone.
pub uninterp spec fn ed25519_public_of(secret: Seq<u8>) -> Seq<u8>;

/// Whether `ed25519_dalek::PublicKey::from_bytes` accepts 32 bytes as a
/// public key, that is, whether they decompress to a curve point.
pub uninterp spec fn ed25519_pubkey_decodable(b: Seq<u8>) -> bool;

/// The boolean outcome of `ed25519_dalek::PublicKey::verify`: whether
/// the signature authenticates the message under the public key. A
/// deterministic function of the three byte sequences.
pub uninterp spec fn ed25519_accepts(public: Seq<u8>, message: Seq<u8>, signature: Seq<u8>) -> bool;

/// Whether 64 bytes pass the scheme's structural signature check:
/// `ed25519_dalek::Signature::from_bytes` accepts exactly the 64-byte
/// strings whose scalar half has its three highest bits clear.
pub open spec fn sig_structurally_valid(b: Seq<u8>) -> bool {
    b.len() == 64 && b[63] & 0xe0 == 0
}

/// Relies on `ed25519_dalek::SecretKey::from_bytes`: it accepts every
/// 32-byte string as a private scalar, so with the length already
/// checked this structural validation cannot fail.
#[verifier::external_body]
pub(crate) fn check_secret_key_bytes(b: &[u8]) -> (r: Result<(), String>)
    requires
        b@.len() == 32,
    ensures
        r is Ok,
{
    match SecretKey::from_bytes(b) {
        Ok(_) => Ok(()),
        Err(e) => Err(format!("{}", e)),
    }
}

/// Relies on `ed25519_dalek::PublicKey::from_bytes`: on a 32-byte input
/// it succeeds exactly when the bytes decompress to a curve point.
#[verifier::external_body]
pub(crate) fn check_public_key_bytes(b: &[u8]) -> (r: Result<(), String>)
    requires
        b@.len() == 32,
    ensures
        r is Ok <==> ed25519_pubkey_decodable(b@),
{
    match PublicKey::from_bytes(b) {
        Ok(_) => Ok(()),
        Err(e) => Err(format!("{}", e)),
    }
}

/// Relies on `ed25519_dalek::Signature::from_bytes`: it accepts exactly
/// the 64-byte strings whose last byte has its three highest bits clear.
#[verifier::external_body]
pub(crate) fn check_signature_bytes(b: &[u8]) -> (r: Result<(), String>)
    ensures
        r is Ok <==> sig_structurally_valid(b@),
{
    match Signature::from_bytes(b) {
        Ok(_) => Ok(()),
        Err(e) => Err(format!("{}", e)),
    }
}

/// Relies on `ed25519_dalek::PublicKey::from<&SecretKey>`: a
/// deterministic derivation of the paired public key; its output is the
/// compression of a real curve point, so it decompresses again.
#[verifier::external_body]
pub(crate) fn derive_public_key(secret: &[u8]) -> (r: Vec<u8>)
    requires
        secret@.len() == 32,
    ensures
        r@ == ed25519_public_of(secret@),
        r@.len() == 32,
        ed25519_pubkey_decodable(r@),
{
    let sk = SecretKey::from_bytes(secret).expect("a 32-byte scalar is always accepted");
    PublicKey::from(&sk).to_bytes().to_vec()
}

/// Relies on `ed25519_dalek::Keypair::sign`: deterministic signing whose
/// 64-byte output carries a reduced scalar (three highest bits of the
/// last byte clear), and which the scheme's own `verify` accepts when
/// the public half is the one derived from the private half.
#[verifier::external_body]
pub(crate) fn sign_bytes(secret: &[u8], public: &[u8], message: &[u8]) -> (r: Result<
    Vec<u8>,
    String,
>)
    requires
        secret@.len() == 32,
        public@.len() == 32,
    ensures
        r is Ok <==> ed25519_pubkey_decodable(public@),
        r matches Ok(v) ==> v@ == ed25519_signature(secret@, public@, message@) && v@.len() == 64
            && sig_structurally_valid(v@) && (public@ == ed25519_public_of(secret@)
            ==> ed25519_accepts(public@, message@, v@)),
{
    let sk = SecretKey::from_bytes(secret).expect("a 32-byte scalar is always accepted");
    let pk = match PublicKey::from_bytes(public) {
        Ok(p) => p,
        Err(e) => return Err(format!("{}", e)),
    };
    let keypair = Keypair { secret: sk, public: pk };
    Ok(keypair.sign(message).to_bytes().to_vec())
}

/// Relies on `ed25519_dalek::PublicKey::verify`: a deterministic check
/// of the signature against the message under the public key.
#[verifier::external_body]
pub(crate) fn verify_bytes(public: &[u8], message: &[u8], signature: &[u8]) -> (r: bool)
    requires
        public@.len() == 32,
        ed25519_pubkey_decodable(public@),
        sig_structurally_valid(signature@),
    ensures
        r == ed25519_accepts(public@, message@, signature@),
{
    let pk = PublicKey::from_bytes(public).expect("checked: the bytes decompress");
    let sig = Signature::from_bytes(signature).expect("checked: structurally valid");
    pk.verify(message, &sig).is_ok()
}

} // verus!
