//! Proofs of possession: signatures over a public key's own encoding,
//! mirroring the signature's three representations.
use crate::algebra::{g2_parse_compressed, g2_parse_uncompressed, g2_uncompressed, g2_value};
use crate::curve::{g2_from_compressed, g2_from_uncompressed, g2_to_compressed,
    g2_to_uncompressed};
use crate::error::BlsError;
use crate::{BLS_PROOF_OF_POSSESSION_AFFINE_SIZE, BLS_PROOF_OF_POSSESSION_COMPRESSED_SIZE};
use vstd::prelude::*;

verus! {

/// Any representation of a proof of possession that can be normalized to
/// projective form.
pub trait AsProofOfPossessionProjective: Sized {
    /// The logarithm of the represented point, when the representation is valid.
    spec fn proof_value(&self) -> Option<nat>;

    /// Normalize to projective form; fails exactly on an invalid encoding.
    fn try_to_projective(&self) -> (r: Result<ProofOfPossessionProjective, BlsError>)
        ensures
            match r {
                Ok(p) => self.proof_value() == Some(p.value()),
                Err(e) => self.proof_value() is None && e == BlsError::PointDecode,
            },
    ;
}

/// A proof of possession as an element of G2 in projective coordinates.
#[derive(Clone, Copy, Debug)]
pub struct ProofOfPossessionProjective(pub blstrs::G2Projective);

impl ProofOfPossessionProjective {
    /// The discrete logarithm of this proof with respect to the G2 generator.
    pub open spec fn value(&self) -> nat {
        g2_value(self.0)
    }

    /// Normalize and serialize to the canonical uncompressed form. Infallible
    /// and lossless.
    pub fn to_affine(&self) -> (r: ProofOfPossession)
        ensures
            r.0@ == g2_uncompressed(self.value()),
            r.proof_value() == Some(self.value()),
    {
        ProofOfPossession(g2_to_uncompressed(&self.0))
    }
}

impl AsProofOfPossessionProjective for ProofOfPossessionProjective {
    open spec fn proof_value(&self) -> Option<nat> {
        Some(self.value())
    }

    fn try_to_projective(&self) -> (r: Result<ProofOfPossessionProjective, BlsError>) {
        Ok(*self)
    }
}

/// A proof of possession as its canonical 192-byte uncompressed encoding.
#[derive(Clone, Copy, Debug)]
pub struct ProofOfPossession(pub [u8; BLS_PROOF_OF_POSSESSION_AFFINE_SIZE]);

impl ProofOfPossession {
    /// Decode then recompress; fails on bytes that are not a valid point.
    pub fn try_to_compressed(&self) -> (r: Result<ProofOfPossessionCompressed, BlsError>)
        ensures
            match (r, self.proof_value()) {
                (Ok(c), Some(v)) => c.proof_value() == Some(v),
                (Err(e), None) => e == BlsError::PointDecode,
                _ => false,
            },
    {
        match g2_from_uncompressed(self.0.as_slice()) {
            Option::Some(p) => Ok(ProofOfPossessionCompressed(g2_to_compressed(&p))),
            Option::None => Err(BlsError::PointDecode),
        }
    }
}

impl AsProofOfPossessionProjective for ProofOfPossession {
    open spec fn proof_value(&self) -> Option<nat> {
        g2_parse_uncompressed(self.0@)
    }

    fn try_to_projective(&self) -> (r: Result<ProofOfPossessionProjective, BlsError>) {
        match g2_from_uncompressed(self.0.as_slice()) {
            Option::Some(p) => Ok(ProofOfPossessionProjective(p)),
            Option::None => Err(BlsError::PointDecode),
        }
    }
}

/// A proof of possession as its canonical 96-byte compressed encoding.
#[derive(Clone, Copy, Debug)]
pub struct ProofOfPossessionCompressed(pub [u8; BLS_PROOF_OF_POSSESSION_COMPRESSED_SIZE]);

impl AsProofOfPossessionProjective for ProofOfPossessionCompressed {
    open spec fn proof_value(&self) -> Option<nat> {
        g2_parse_compressed(self.0@)
    }

    fn try_to_projective(&self) -> (r: Result<ProofOfPossessionProjective, BlsError>) {
        match g2_from_compressed(self.0.as_slice()) {
            Option::Some(p) => Ok(ProofOfPossessionProjective(p)),
            Option::None => Err(BlsError::PointDecode),
        }
    }
}

} // verus!
