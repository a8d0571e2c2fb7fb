//! Textual encodings crossing the boundary: base58 for key material,
//! padded standard base64 for signatures. Both are supplied by outside
//! crates; their results are named here and the few facts the callers
//! need are stated on the wrappers.

use vstd::prelude::*;

use base58::FromBase58;
use base58::ToBase58;
use base64::Engine;

verus! {

/// Longest text the base58 decoder accepts: it decodes into a 132-byte
/// buffer, and an input beyond that many characters can overrun it.
/// Callers reject longer texts before decoding.
pub const MAX_B58_DECODE_LENGTH: usize = 132;

/// The base58 text that `base58::ToBase58::to_base58` produces for a
/// byte sequence.
pub uninterp spec fn b58_encoding(b: Seq<u8>) -> Seq<char>;

/// What `base58::FromBase58::from_base58` yields for a string within
/// the decoder's input bound: the decoded bytes, or `None` when the
/// text is not valid base58.
pub uninterp spec fn b58_decoding(s: Seq<char>) -> Option<Seq<u8>>;

/// The padded standard-alphabet base64 text that
/// `base64::engine::general_purpose::STANDARD.encode` produces.
pub uninterp spec fn b64_encoding(b: Seq<u8>) -> Seq<char>;

/// What `base64::engine::general_purpose::STANDARD.decode` yields for a
/// string: the decoded bytes, or `None` when the text is not valid
/// padded base64.
pub uninterp spec fn b64_decoding(s: Seq<char>) -> Option<Seq<u8>>;

/// Relies on `base58::ToBase58::to_base58` for `[u8]`: a deterministic
/// encoding, one `'1'` per leading zero byte followed by at most
/// `138/100 * n + 1` digits, hence never longer than twice the input and
/// never empty for non-empty input. For inputs of at most 64 bytes the
/// text stays within the decoder's input bound and the decoder inverts
/// it.
#[verifier::external_body]
pub(crate) fn base58_encode(b: &[u8]) -> (r: String)
    requires
        b@.len() <= 64,
    ensures
        r@ == b58_encoding(b@),
        b58_decoding(r@) == Some(b@),
        b@.len() > 0 ==> 1 <= r@.len() <= 2 * b@.len(),
        b@.len() == 0 ==> r@.len() == 0,
{
    b.to_base58()
}

/// Relies on `base58::FromBase58::from_base58` for `str`: a
/// deterministic decoder; the error reports the offending character or
/// an over-long value. The decoder writes into a 132-byte buffer and
/// can panic past it, so inputs are bounded to 132 characters: within
/// that bound the leading-`'1'` count plus the value's byte count never
/// exceeds the buffer. (A non-ASCII character always errors out before
/// the buffer is touched.)
#[verifier::external_body]
pub(crate) fn base58_decode(s: &str) -> (r: Result<Vec<u8>, String>)
    requires
        s@.len() <= MAX_B58_DECODE_LENGTH,
    ensures
        r is Ok <==> b58_decoding(s@) is Some,
        r matches Ok(v) ==> Some(v@) == b58_decoding(s@),
{
    match s.from_base58() {
        Ok(v) => Ok(v),
        Err(e) => Err(format!("{:?}", e)),
    }
}

/// Relies on `base64::engine::general_purpose::STANDARD.encode`: padded
/// standard-alphabet base64, four output characters for every three
/// input bytes begun, inverted exactly by the paired decoder.
#[verifier::external_body]
pub(crate) fn base64_encode(b: &[u8]) -> (r: String)
    ensures
        r@ == b64_encoding(b@),
        b64_decoding(r@) == Some(b@),
        r@.len() == 4 * ((b@.len() + 2) / 3),
{
    base64::engine::general_purpose::STANDARD.encode(b)
}

/// Relies on `base64::engine::general_purpose::STANDARD.decode`: a
/// deterministic decoder; the error reports why the text is not valid
/// padded base64.
#[verifier::external_body]
pub(crate) fn base64_decode(s: &str) -> (r: Result<Vec<u8>, String>)
    ensures
        r is Ok <==> b64_decoding(s@) is Some,
        r matches Ok(v) ==> Some(v@) == b64_decoding(s@),
{
    match base64::engine::general_purpose::STANDARD.decode(s) {
        Ok(v) => Ok(v),
        Err(e) => Err(format!("{}", e)),
    }
}

} // verus!
