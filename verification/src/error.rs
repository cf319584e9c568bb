//! Failures surfaced by conversion, parsing and aggregation. Verification
//! itself never fails on already-converted values: it returns a boolean.
use vstd::prelude::*;

verus! {

/// The error type shared by all fallible operations of this crate.
#[derive(Clone, Copy, Debug, PartialEq, Eq, Structural)]
pub enum BlsError {
    /// A byte buffer had the wrong length for the target representation.
    LengthMismatch,
    /// Bytes do not encode a valid curve point of the prime-order subgroup.
    PointDecode,
    /// Aggregation was requested over an empty list of keys.
    EmptyAggregation,
    /// A text string was too long or was not valid base64.
    TextDecode,
}

impl BlsError {
    /// A short human-readable description, in place of `Display`.
    pub fn describe(&self) -> (r: &'static str)
        ensures
            r@.len() > 0,
    {
        let s: &'static str = match self {
            BlsError::LengthMismatch => "byte buffer has the wrong length",
            BlsError::PointDecode => "bytes do not encode a valid curve point",
            BlsError::EmptyAggregation => "cannot aggregate an empty list of keys",
            BlsError::TextDecode => "string is not valid base64 of the expected size",
        };
        proof {
            reveal_strlit("byte buffer has the wrong length");
            reveal_strlit("bytes do not encode a valid curve point");
            reveal_strlit("cannot aggregate an empty list of keys");
            reveal_strlit("string is not valid base64 of the expected size");
        }
        s
    }
}

} // verus!
