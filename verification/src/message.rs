//! The shared message validator: the byte-identical rules applied on
//! both the signing and the verification path.

use vstd::prelude::*;

use crate::errors::SigError;
use crate::MAX_MESSAGE_LENGTH;
use crate::MIN_MESSAGE_LENGTH;

verus! {

/// A message may be signed or verified exactly when its length lies in
/// the allowed range and it contains no null byte.
pub open spec fn valid_message(m: Seq<u8>) -> bool {
    &&& m.len() >= MIN_MESSAGE_LENGTH
    &&& m.len() <= MAX_MESSAGE_LENGTH
    &&& forall|i: int| 0 <= i < m.len() ==> m[i] != 0
}

/// The error an invalid message is rejected with: the rules are checked
/// in a fixed order and the first violation wins.
pub open spec fn message_error(m: Seq<u8>) -> SigError {
    if m.len() == 0 {
        SigError::EmptyInput
    } else if m.len() > MAX_MESSAGE_LENGTH {
        SigError::MessageTooLong
    } else {
        SigError::MessageContainsNullByte
    }
}

/// Law: a message with a null byte at any position is invalid, so the
/// signing and the verification path both reject it — and, since both
/// report `message_error`, with the identical error.
pub proof fn null_byte_rejected_identically(m: Seq<u8>, i: int)
    requires
        0 <= i < m.len(),
        m[i] == 0,
    ensures
        !valid_message(m),
        m.len() <= MAX_MESSAGE_LENGTH ==> message_error(m) == SigError::MessageContainsNullByte,
{
    if valid_message(m) {
        assert(m[i] != 0);
    }
}

/// Checks the shared message rules: non-empty, within the length
/// bounds, no null byte. Signing and verification both call this, so a
/// message accepted by one is accepted by the other.
pub fn validate_message(message: &[u8]) -> (r: Result<(), SigError>)
    ensures
        r is Ok <==> valid_message(message@),
        r is Err ==> r->Err_0 == message_error(message@),
{
    if message.len() == 0 {
        return Err(SigError::EmptyInput);
    }
    if message.len() < MIN_MESSAGE_LENGTH {
        return Err(SigError::MessageTooShort);
    }
    if message.len() > MAX_MESSAGE_LENGTH {
        return Err(SigError::MessageTooLong);
    }
    let mut i: usize = 0;
    while i < message.len()
        invariant
            0 <= i <= message@.len(),
            MIN_MESSAGE_LENGTH <= message@.len() <= MAX_MESSAGE_LENGTH,
            forall|j: int| 0 <= j < i ==> message@[j] != 0,
        decreases message@.len() - i,
    {
        if message[i] == 0 {
            return Err(SigError::MessageContainsNullByte);
        }
        i = i + 1;
    }
    Ok(())
}

} // verus!
