//! Pre-decode guards on textual inputs: a required field must be
//! non-empty and within its character bound before any decoding work is
//! spent on it.

use vstd::prelude::*;
use vstd::string::StrSliceExecFns;

use crate::errors::SigError;
use crate::MAX_PUBKEY_TEXT_LENGTH;
use crate::MAX_SIGNATURE_TEXT_LENGTH;

verus! {

/// A text field passes its pre-decode guard when it is non-empty and at
/// most `max` characters long.
pub open spec fn valid_text(s: Seq<char>, max: usize) -> bool {
    1 <= s.len() <= max
}

/// The error a text field failing its guard is rejected with: emptiness
/// is reported before excessive length.
pub open spec fn text_error(s: Seq<char>, max: usize) -> SigError {
    if s.len() == 0 {
        SigError::EmptyInput
    } else {
        SigError::InputTooLong { max }
    }
}

/// Checks the pre-decode guard for a textual signature: non-empty and at
/// most the signature text bound.
pub fn validate_signature_string(signature_str: &str) -> (r: Result<(), SigError>)
    ensures
        r is Ok <==> valid_text(signature_str@, MAX_SIGNATURE_TEXT_LENGTH),
        r is Err ==> r->Err_0 == text_error(signature_str@, MAX_SIGNATURE_TEXT_LENGTH),
{
    let n = signature_str.unicode_len();
    if n == 0 {
        Err(SigError::EmptyInput)
    } else if n > MAX_SIGNATURE_TEXT_LENGTH {
        Err(SigError::InputTooLong { max: MAX_SIGNATURE_TEXT_LENGTH })
    } else {
        Ok(())
    }
}

/// Checks the pre-decode guard for a textual public key: non-empty and
/// at most the public key text bound.
pub fn validate_pubkey_string(pubkey_str: &str) -> (r: Result<(), SigError>)
    ensures
        r is Ok <==> valid_text(pubkey_str@, MAX_PUBKEY_TEXT_LENGTH),
        r is Err ==> r->Err_0 == text_error(pubkey_str@, MAX_PUBKEY_TEXT_LENGTH),
{
    let n = pubkey_str.unicode_len();
    if n == 0 {
        Err(SigError::EmptyInput)
    } else if n > MAX_PUBKEY_TEXT_LENGTH {
        Err(SigError::InputTooLong { max: MAX_PUBKEY_TEXT_LENGTH })
    } else {
        Ok(())
    }
}

} // verus!
