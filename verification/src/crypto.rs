//! The signing core: parsing textual key material, signing validated
//! messages, and independently verifying signatures. Every rule is
//! applied in a fixed order before a cryptographic primitive runs, and
//! the first violation wins.

use vstd::prelude::*;
use vstd::slice::slice_subrange;
use vstd::slice::slice_to_vec;
use vstd::string::StrSliceExecFns;
use vstd::string::StringExecFns;

use crate::codec::b58_decoding;
use crate::codec::b64_decoding;
use crate::codec::b64_encoding;
use crate::codec::base58_decode;
use crate::codec::base64_decode;
use crate::codec::base64_encode;
use crate::codec::MAX_B58_DECODE_LENGTH;
use crate::ed25519::check_public_key_bytes;
use crate::ed25519::check_secret_key_bytes;
use crate::ed25519::check_signature_bytes;
use crate::ed25519::ed25519_accepts;
use crate::ed25519::ed25519_public_of;
use crate::ed25519::ed25519_pubkey_decodable;
use crate::ed25519::ed25519_signature;
use crate::ed25519::sig_structurally_valid;
use crate::ed25519::sign_bytes;
use crate::ed25519::verify_bytes;
use crate::errors::SigError;
use crate::keypair::KeyPair;
use crate::message::message_error;
use crate::message::valid_message;
use crate::message::validate_message;
use crate::text::text_error;
use crate::text::valid_text;
use crate::text::validate_pubkey_string;
use crate::text::validate_signature_string;
use crate::COMBINED_SECRET_LENGTH;
use crate::MAX_PUBKEY_TEXT_LENGTH;
use crate::MAX_SECRET_TEXT_LENGTH;
use crate::MAX_SIGNATURE_TEXT_LENGTH;
use crate::PUBLIC_KEY_LENGTH;
use crate::SECRET_KEY_LENGTH;
use crate::SIGNATURE_LENGTH;

verus! {

/// A combined secret parses exactly when its text passes the pre-decode
/// guard and the decoder's own input bound, decodes under base58 to
/// exactly 64 bytes, and the public half passes the scheme's structural
/// check. (The private half never fails it: the scheme accepts every
/// 32-byte scalar. Any text actually encoding 64 bytes is at most 128
/// characters, so the decoder bound rejects no well-formed secret.)
pub open spec fn parses_as_secret(s: Seq<char>) -> bool {
    &&& 1 <= s.len() <= MAX_SECRET_TEXT_LENGTH
    &&& s.len() <= MAX_B58_DECODE_LENGTH
    &&& b58_decoding(s) matches Some(b) && b.len() == COMBINED_SECRET_LENGTH
        && ed25519_pubkey_decodable(b.subrange(SECRET_KEY_LENGTH as int, COMBINED_SECRET_LENGTH as int))
}

/// The signature the scheme produces for a key pair and a message.
pub open spec fn signature_for(kp: KeyPair, m: Seq<u8>) -> Seq<u8> {
    ed25519_signature(kp.secret@, kp.public@, m)
}

/// Decodes a textual combined secret into a validated key pair. The
/// rules run in order and the first violation wins: non-empty text, at
/// most 200 characters, within the decoder's own input bound, valid
/// base58, exactly 64 decoded bytes, then the structural checks on the
/// two halves. Bytes 0 to 32 become the private scalar, bytes 32 to 64
/// the public key. No pairing check between the halves is performed.
pub fn parse_secret_key(secret_str: &str) -> (r: Result<KeyPair, SigError>)
    ensures
        r is Ok <==> parses_as_secret(secret_str@),
        r matches Ok(kp) ==> b58_decoding(secret_str@) matches Some(b) && kp.secret@ == b.subrange(
            0,
            SECRET_KEY_LENGTH as int,
        ) && kp.public@ == b.subrange(SECRET_KEY_LENGTH as int, COMBINED_SECRET_LENGTH as int)
            && kp.wf(),
        secret_str@.len() == 0 ==> r is Err && r->Err_0 == SigError::EmptyInput,
        secret_str@.len() > MAX_SECRET_TEXT_LENGTH ==> r is Err && r->Err_0 == (
        SigError::InputTooLong { max: MAX_SECRET_TEXT_LENGTH }),
        valid_text(secret_str@, MAX_SECRET_TEXT_LENGTH) && secret_str@.len()
            > MAX_B58_DECODE_LENGTH ==> r is Err && r->Err_0 is EncodingError,
        valid_text(secret_str@, MAX_SECRET_TEXT_LENGTH) && secret_str@.len()
            <= MAX_B58_DECODE_LENGTH && b58_decoding(secret_str@) is None ==> r is Err && r->Err_0
            is EncodingError,
        b58_decoding(secret_str@) is Some && valid_text(secret_str@, MAX_SECRET_TEXT_LENGTH)
            && secret_str@.len() <= MAX_B58_DECODE_LENGTH && b58_decoding(secret_str@)->0.len()
            != COMBINED_SECRET_LENGTH ==> r is Err && r->Err_0 == (
        SigError::LengthMismatch {
            expected: COMBINED_SECRET_LENGTH,
            actual: b58_decoding(secret_str@)->0.len() as usize,
        }),
        b58_decoding(secret_str@) matches Some(b) && valid_text(
            secret_str@,
            MAX_SECRET_TEXT_LENGTH,
        ) && secret_str@.len() <= MAX_B58_DECODE_LENGTH && b.len() == COMBINED_SECRET_LENGTH
            && !ed25519_pubkey_decodable(
            b.subrange(SECRET_KEY_LENGTH as int, COMBINED_SECRET_LENGTH as int),
        ) ==> r is Err && r->Err_0 is MalformedKeyOrSignature,
{
    let n = secret_str.unicode_len();
    if n == 0 {
        return Err(SigError::EmptyInput);
    }
    if n > MAX_SECRET_TEXT_LENGTH {
        return Err(SigError::InputTooLong { max: MAX_SECRET_TEXT_LENGTH });
    }
    if n > MAX_B58_DECODE_LENGTH {
        return Err(
            SigError::EncodingError {
                reason: String::from_str("input exceeds the base58 decoder's 132-character bound"),
            },
        );
    }
    let bytes = match base58_decode(secret_str) {
        Ok(v) => v,
        Err(reason) => return Err(SigError::EncodingError { reason }),
    };
    if bytes.len() != COMBINED_SECRET_LENGTH {
        return Err(
            SigError::LengthMismatch { expected: COMBINED_SECRET_LENGTH, actual: bytes.len() },
        );
    }
    let secret = slice_to_vec(slice_subrange(bytes.as_slice(), 0, SECRET_KEY_LENGTH));
    let public = slice_to_vec(
        slice_subrange(bytes.as_slice(), SECRET_KEY_LENGTH, COMBINED_SECRET_LENGTH),
    );
    match check_secret_key_bytes(secret.as_slice()) {
        Ok(()) => {},
        Err(reason) => return Err(SigError::MalformedKeyOrSignature { reason }),
    }
    match check_public_key_bytes(public.as_slice()) {
        Ok(()) => {},
        Err(reason) => return Err(SigError::MalformedKeyOrSignature { reason }),
    }
    Ok(KeyPair { secret, public })
}

/// Signs a validated message with a parsed key pair: the shared message
/// rules run first, then the scheme signs deterministically and the 64
/// signature bytes are encoded as padded standard base64. Succeeds on
/// every valid message (the structural error is reachable only for a
/// key pair assembled outside the parser).
pub fn sign_message(message: &[u8], keypair: &KeyPair) -> (r: Result<String, SigError>)
    requires
        keypair.wf(),
    ensures
        r is Ok <==> valid_message(message@) && ed25519_pubkey_decodable(keypair.public@),
        !valid_message(message@) ==> r is Err && r->Err_0 == message_error(message@),
        valid_message(message@) && !ed25519_pubkey_decodable(keypair.public@) ==> r is Err
            && r->Err_0 is MalformedKeyOrSignature,
        r matches Ok(s) ==> s@ == b64_encoding(signature_for(*keypair, message@)),
        r matches Ok(s) ==> b64_decoding(s@) == Some(signature_for(*keypair, message@)),
        r matches Ok(s) ==> s@.len() == 88,
        r is Ok ==> signature_for(*keypair, message@).len() == SIGNATURE_LENGTH
            && sig_structurally_valid(signature_for(*keypair, message@)),
        r is Ok && keypair.public@ == ed25519_public_of(keypair.secret@) ==> ed25519_accepts(
            keypair.public@,
            message@,
            signature_for(*keypair, message@),
        ),
{
    match validate_message(message) {
        Ok(()) => {},
        Err(e) => return Err(e),
    }
    let sig_bytes = match sign_bytes(
        keypair.secret.as_slice(),
        keypair.public.as_slice(),
        message,
    ) {
        Ok(v) => v,
        Err(reason) => return Err(SigError::MalformedKeyOrSignature { reason }),
    };
    Ok(base64_encode(sig_bytes.as_slice()))
}

/// The textual signature input passes its structural pipeline: the
/// pre-decode guard, base64 decoding, the exact 64-byte length, and the
/// scheme's structural signature check.
pub open spec fn sig_text_ok(st: Seq<char>) -> bool {
    &&& valid_text(st, MAX_SIGNATURE_TEXT_LENGTH)
    &&& b64_decoding(st) matches Some(sb) && sb.len() == SIGNATURE_LENGTH
        && sig_structurally_valid(sb)
}

/// The textual public key input passes its structural pipeline: the
/// pre-decode guard, base58 decoding, the exact 32-byte length, and the
/// scheme's structural public key check.
pub open spec fn pubkey_text_ok(pt: Seq<char>) -> bool {
    &&& valid_text(pt, MAX_PUBKEY_TEXT_LENGTH)
    &&& b58_decoding(pt) matches Some(pb) && pb.len() == PUBLIC_KEY_LENGTH
        && ed25519_pubkey_decodable(pb)
}

/// All three verification inputs are structurally sound, so the scheme's
/// boolean check decides the outcome.
pub open spec fn verify_inputs_ok(m: Seq<u8>, st: Seq<char>, pt: Seq<char>) -> bool {
    valid_message(m) && sig_text_ok(st) && pubkey_text_ok(pt)
}

/// The boolean the verifier returns on structurally sound inputs.
pub open spec fn verify_outcome(m: Seq<u8>, st: Seq<char>, pt: Seq<char>) -> bool
    recommends
        verify_inputs_ok(m, st, pt),
{
    ed25519_accepts(b58_decoding(pt)->0, m, b64_decoding(st)->0)
}

/// Checks a textual signature against a message under a textual public
/// key. A structurally malformed input is an error — verification is not
/// even attempted — while well-formed inputs yield the scheme's boolean:
/// `false` is a well-formed signature that does not authenticate the
/// message, never an error. The message is validated first, then the
/// full signature pipeline, then the full public key pipeline.
pub fn verify_signature(message: &[u8], signature_str: &str, pubkey_str: &str) -> (r: Result<
    bool,
    SigError,
>)
    ensures
        r is Ok <==> verify_inputs_ok(message@, signature_str@, pubkey_str@),
        r matches Ok(b) ==> b == verify_outcome(message@, signature_str@, pubkey_str@),
        !valid_message(message@) ==> r is Err && r->Err_0 == message_error(message@),
        valid_message(message@) && !valid_text(signature_str@, MAX_SIGNATURE_TEXT_LENGTH) ==> r
            is Err && r->Err_0 == text_error(signature_str@, MAX_SIGNATURE_TEXT_LENGTH),
        valid_message(message@) && valid_text(signature_str@, MAX_SIGNATURE_TEXT_LENGTH)
            && b64_decoding(signature_str@) is None ==> r is Err && r->Err_0 is EncodingError,
        b64_decoding(signature_str@) is Some && valid_message(message@) && valid_text(
            signature_str@,
            MAX_SIGNATURE_TEXT_LENGTH,
        ) && b64_decoding(signature_str@)->0.len() != SIGNATURE_LENGTH ==> r is Err && r->Err_0
            == (
        SigError::LengthMismatch {
            expected: SIGNATURE_LENGTH,
            actual: b64_decoding(signature_str@)->0.len() as usize,
        }),
        b64_decoding(signature_str@) matches Some(sb) && valid_message(message@) && valid_text(
            signature_str@,
            MAX_SIGNATURE_TEXT_LENGTH,
        ) && sb.len() == SIGNATURE_LENGTH && !sig_structurally_valid(sb) ==> r is Err && r->Err_0
            is MalformedKeyOrSignature,
        valid_message(message@) && sig_text_ok(signature_str@) && !valid_text(
            pubkey_str@,
            MAX_PUBKEY_TEXT_LENGTH,
        ) ==> r is Err && r->Err_0 == text_error(pubkey_str@, MAX_PUBKEY_TEXT_LENGTH),
        valid_message(message@) && sig_text_ok(signature_str@) && valid_text(
            pubkey_str@,
            MAX_PUBKEY_TEXT_LENGTH,
        ) && b58_decoding(pubkey_str@) is None ==> r is Err && r->Err_0 is EncodingError,
        b58_decoding(pubkey_str@) is Some && valid_message(message@) && sig_text_ok(signature_str@)
            && valid_text(pubkey_str@, MAX_PUBKEY_TEXT_LENGTH) && b58_decoding(
            pubkey_str@,
        )->0.len() != PUBLIC_KEY_LENGTH ==> r is Err && r->Err_0 == (
        SigError::LengthMismatch {
            expected: PUBLIC_KEY_LENGTH,
            actual: b58_decoding(pubkey_str@)->0.len() as usize,
        }),
        b58_decoding(pubkey_str@) matches Some(pb) && valid_message(message@) && sig_text_ok(
            signature_str@,
        ) && valid_text(pubkey_str@, MAX_PUBKEY_TEXT_LENGTH) && pb.len() == PUBLIC_KEY_LENGTH
            && !ed25519_pubkey_decodable(pb) ==> r is Err && r->Err_0 is MalformedKeyOrSignature,
{
    match validate_message(message) {
        Ok(()) => {},
        Err(e) => return Err(e),
    }
    match validate_signature_string(signature_str) {
        Ok(()) => {},
        Err(e) => return Err(e),
    }
    let sig_bytes = match base64_decode(signature_str) {
        Ok(v) => v,
        Err(reason) => return Err(SigError::EncodingError { reason }),
    };
    if sig_bytes.len() != SIGNATURE_LENGTH {
        return Err(SigError::LengthMismatch { expected: SIGNATURE_LENGTH, actual: sig_bytes.len() });
    }
    match check_signature_bytes(sig_bytes.as_slice()) {
        Ok(()) => {},
        Err(reason) => return Err(SigError::MalformedKeyOrSignature { reason }),
    }
    match validate_pubkey_string(pubkey_str) {
        Ok(()) => {},
        Err(e) => return Err(e),
    }
    let pk_bytes = match base58_decode(pubkey_str) {
        Ok(v) => v,
        Err(reason) => return Err(SigError::EncodingError { reason }),
    };
    if pk_bytes.len() != PUBLIC_KEY_LENGTH {
        return Err(SigError::LengthMismatch { expected: PUBLIC_KEY_LENGTH, actual: pk_bytes.len() });
    }
    match check_public_key_bytes(pk_bytes.as_slice()) {
        Ok(()) => {},
        Err(reason) => return Err(SigError::MalformedKeyOrSignature { reason }),
    }
    Ok(verify_bytes(pk_bytes.as_slice(), message, sig_bytes.as_slice()))
}

} // verus!
