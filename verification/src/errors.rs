//! Typed failure reasons for every validation and decoding step.

use vstd::prelude::*;

verus! {

/// Why an input was rejected. Each validation or decoding step reports
/// its own kind, so a caller can always tell which rule was violated.
#[derive(Debug, Clone, PartialEq, Eq)]
pub enum SigError {
    /// A required text field was empty.
    EmptyInput,
    /// A text field exceeded its pre-decode character bound.
    InputTooLong { max: usize },
    /// Text failed to decode under its expected radix; carries the
    /// decoder's own reason.
    EncodingError { reason: String },
    /// Decoded byte count differs from the scheme-mandated exact length.
    LengthMismatch { expected: usize, actual: usize },
    /// Bytes had the right length but failed the scheme's structural
    /// validation; carries the validator's own reason.
    MalformedKeyOrSignature { reason: String },
    /// The message was shorter than the minimum length.
    MessageTooShort,
    /// The message was longer than the maximum length.
    MessageTooLong,
    /// The message contained a null byte.
    MessageContainsNullByte,
}

} // verus!
