//! Trusted wrappers around the `base64` crate, and the shared text-parsing
//! step of the byte-buffer key types.
use crate::algebra::{base64_decoding, base64_encoding};
use crate::error::BlsError;
use vstd::prelude::*;

verus! {

/// Relies on `base64::Engine::encode` with the standard alphabet: the padded
/// text is determined by the bytes alone, has length `4 * ceil(n / 3)`, and
/// decodes back to exactly the input.
#[verifier::external_body]
pub(crate) fn base64_encode(b: &[u8]) -> (r: String)
    ensures
        r@ == base64_encoding(b@),
        base64_decoding(r@) == Some(b@),
        r@.len() == 4 * ((b@.len() + 2) / 3),
{
    base64::Engine::encode(&base64::prelude::BASE64_STANDARD, b)
}

/// Relies on `base64::Engine::decode` with the standard alphabet: succeeds
/// exactly on canonical padded base64, returning the encoded bytes.
#[verifier::external_body]
pub(crate) fn base64_decode(s: &str) -> (r: Option<Vec<u8>>)
    ensures
        r is Some <==> base64_decoding(s@) is Some,
        r is Some ==> Some(r.unwrap()@) == base64_decoding(s@),
{
    match base64::Engine::decode(&base64::prelude::BASE64_STANDARD, s) {
        Ok(v) => Some(v),
        Err(_) => None,
    }
}

/// What `from_text` of a fixed-size byte type returns on text `s`: the
/// decoded bytes when `s` is base64 of exactly `n` bytes and not longer than
/// `cap` characters; the exact error otherwise. Length is the sole validation
/// at this layer — point validity is deferred to the conversion layer.
pub open spec fn spec_from_text(s: Seq<char>, n: nat, cap: nat) -> Result<Seq<u8>, BlsError> {
    if s.len() > cap {
        Err(BlsError::TextDecode)
    } else {
        match base64_decoding(s) {
            Option::None => Err(BlsError::TextDecode),
            Option::Some(b) => if b.len() == n {
                Ok(b)
            } else {
                Err(BlsError::LengthMismatch)
            },
        }
    }
}

/// Decode base64 text to exactly `n` bytes, as `spec_from_text` says.
pub(crate) fn from_text_bytes(s: &str, n: usize, cap: usize) -> (r: Result<Vec<u8>, BlsError>)
    ensures
        match (r, spec_from_text(s@, n as nat, cap as nat)) {
            (Ok(v), Ok(b)) => v@ == b,
            (Err(e), Err(e2)) => e == e2,
            _ => false,
        },
{
    if s.unicode_len() > cap {
        return Err(BlsError::TextDecode);
    }
    match base64_decode(s) {
        Option::None => Err(BlsError::TextDecode),
        Option::Some(v) => {
            if v.len() == n {
                Ok(v)
            } else {
                Err(BlsError::LengthMismatch)
            }
        },
    }
}

} // verus!
