//! BLS signatures: elements of G2, mirroring the public key's three
//! representations. Only what verification needs is provided here.
use crate::algebra::{
    g2_parse_compressed, g2_parse_uncompressed, g2_uncompressed, g2_value,
};
use crate::curve::{g2_eq, g2_from_compressed, g2_from_uncompressed, g2_to_compressed,
    g2_to_uncompressed};
use crate::error::BlsError;
use crate::{BLS_SIGNATURE_AFFINE_SIZE, BLS_SIGNATURE_COMPRESSED_SIZE};
use vstd::prelude::*;

verus! {

/// Any representation of a signature that can be normalized to projective form.
pub trait AsSignatureProjective: Sized {
    /// The logarithm of the represented point, when the representation is valid.
    spec fn signature_value(&self) -> Option<nat>;

    /// Normalize to projective form; fails exactly on an invalid encoding.
    fn try_to_projective(&self) -> (r: Result<SignatureProjective, BlsError>)
        ensures
            match r {
                Ok(s) => self.signature_value() == Some(s.value()),
                Err(e) => self.signature_value() is None && e == BlsError::PointDecode,
            },
    ;
}

/// A BLS signature as an element of G2 in projective coordinates.
#[derive(Clone, Copy, Debug)]
pub struct SignatureProjective(pub blstrs::G2Projective);

impl SignatureProjective {
    /// The discrete logarithm of this signature with respect to the G2 generator.
    pub open spec fn value(&self) -> nat {
        g2_value(self.0)
    }

    /// Normalize and serialize to the canonical uncompressed form. Infallible
    /// and lossless.
    pub fn to_affine(&self) -> (r: Signature)
        ensures
            r.0@ == g2_uncompressed(self.value()),
            r.signature_value() == Some(self.value()),
    {
        Signature(g2_to_uncompressed(&self.0))
    }
}

impl AsSignatureProjective for SignatureProjective {
    open spec fn signature_value(&self) -> Option<nat> {
        Some(self.value())
    }

    fn try_to_projective(&self) -> (r: Result<SignatureProjective, BlsError>) {
        Ok(*self)
    }
}

impl PartialEq for SignatureProjective {
    /// Exact algebraic equality of the underlying points.
    fn eq(&self, other: &Self) -> (r: bool) {
        g2_eq(&self.0, &other.0)
    }
}

impl Eq for SignatureProjective {

}

impl vstd::std_specs::cmp::PartialEqSpecImpl for SignatureProjective {
    open spec fn obeys_eq_spec() -> bool {
        true
    }

    open spec fn eq_spec(&self, other: &Self) -> bool {
        self.value() == other.value()
    }
}

/// A BLS signature as its canonical 192-byte uncompressed encoding.
#[derive(Clone, Copy, Debug)]
pub struct Signature(pub [u8; BLS_SIGNATURE_AFFINE_SIZE]);

impl Signature {
    /// Decode then recompress; fails on bytes that are not a valid point.
    pub fn try_to_compressed(&self) -> (r: Result<SignatureCompressed, BlsError>)
        ensures
            match (r, self.signature_value()) {
                (Ok(c), Some(v)) => c.signature_value() == Some(v),
                (Err(e), None) => e == BlsError::PointDecode,
                _ => false,
            },
    {
        match g2_from_uncompressed(self.0.as_slice()) {
            Option::Some(p) => Ok(SignatureCompressed(g2_to_compressed(&p))),
            Option::None => Err(BlsError::PointDecode),
        }
    }
}

impl AsSignatureProjective for Signature {
    open spec fn signature_value(&self) -> Option<nat> {
        g2_parse_uncompressed(self.0@)
    }

    fn try_to_projective(&self) -> (r: Result<SignatureProjective, BlsError>) {
        match g2_from_uncompressed(self.0.as_slice()) {
            Option::Some(p) => Ok(SignatureProjective(p)),
            Option::None => Err(BlsError::PointDecode),
        }
    }
}

/// A BLS signature as its canonical 96-byte compressed encoding.
#[derive(Clone, Copy, Debug)]
pub struct SignatureCompressed(pub [u8; BLS_SIGNATURE_COMPRESSED_SIZE]);

impl AsSignatureProjective for SignatureCompressed {
    open spec fn signature_value(&self) -> Option<nat> {
        g2_parse_compressed(self.0@)
    }

    fn try_to_projective(&self) -> (r: Result<SignatureProjective, BlsError>) {
        match g2_from_compressed(self.0.as_slice()) {
            Option::Some(p) => Ok(SignatureProjective(p)),
            Option::None => Err(BlsError::PointDecode),
        }
    }
}

} // verus!
