//! A validated key pair: 32 bytes of private scalar material and the 32
//! public key bytes handled together with it.

use vstd::prelude::*;

use crate::codec::b58_decoding;
use crate::codec::b58_encoding;
use crate::codec::base58_encode;
use crate::ed25519::check_public_key_bytes;
use crate::ed25519::ed25519_pubkey_decodable;
use crate::errors::SigError;
use crate::PUBLIC_KEY_LENGTH;
use crate::SECRET_KEY_LENGTH;

verus! {

/// A key pair as the parser hands it out: exactly 32 private scalar
/// bytes and exactly 32 public key bytes. The parser verifies the byte
/// layout and the structural validity of each half, not that the halves
/// are mathematically paired.
#[derive(Debug, Clone, PartialEq, Eq)]
pub struct KeyPair {
    /// The private scalar bytes.
    pub secret: Vec<u8>,
    /// The public key bytes carried beside the scalar.
    pub public: Vec<u8>,
}

impl KeyPair {
    /// Both halves have their exact scheme-mandated length.
    pub open spec fn wf(self) -> bool {
        self.secret@.len() == SECRET_KEY_LENGTH && self.public@.len() == PUBLIC_KEY_LENGTH
    }

    /// Assembles a key pair from raw halves, enforcing the exact lengths
    /// and the structural validity of the public key bytes.
    pub fn from_parts(secret: Vec<u8>, public: Vec<u8>) -> (r: Result<KeyPair, SigError>)
        ensures
            r is Ok <==> secret@.len() == SECRET_KEY_LENGTH && public@.len() == PUBLIC_KEY_LENGTH
                && ed25519_pubkey_decodable(public@),
            r matches Ok(kp) ==> kp.secret@ == secret@ && kp.public@ == public@ && kp.wf(),
            secret@.len() != SECRET_KEY_LENGTH ==> r is Err && r->Err_0 == (
            SigError::LengthMismatch { expected: SECRET_KEY_LENGTH, actual: secret@.len() as usize }),
            secret@.len() == SECRET_KEY_LENGTH && public@.len() != PUBLIC_KEY_LENGTH ==> r is Err
                && r->Err_0 == (
            SigError::LengthMismatch { expected: PUBLIC_KEY_LENGTH, actual: public@.len() as usize }),
            secret@.len() == SECRET_KEY_LENGTH && public@.len() == PUBLIC_KEY_LENGTH
                && !ed25519_pubkey_decodable(public@) ==> r is Err && r->Err_0 is
                MalformedKeyOrSignature,
    {
        if secret.len() != SECRET_KEY_LENGTH {
            return Err(SigError::LengthMismatch { expected: SECRET_KEY_LENGTH, actual: secret.len() });
        }
        if public.len() != PUBLIC_KEY_LENGTH {
            return Err(SigError::LengthMismatch { expected: PUBLIC_KEY_LENGTH, actual: public.len() });
        }
        match check_public_key_bytes(public.as_slice()) {
            Ok(()) => Ok(KeyPair { secret, public }),
            Err(reason) => Err(SigError::MalformedKeyOrSignature { reason }),
        }
    }

    /// Derives the textual form of the public half: its base58 encoding.
    pub fn pubkey_text(&self) -> (r: String)
        requires
            self.wf(),
        ensures
            r@ == b58_encoding(self.public@),
            b58_decoding(r@) == Some(self.public@),
            1 <= r@.len() <= 2 * PUBLIC_KEY_LENGTH,
    {
        base58_encode(self.public.as_slice())
    }
}

} // verus!
