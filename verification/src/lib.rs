//! BLS public keys on the BLS12-381 pairing-friendly curve: three
//! interchangeable representations of a key (a projective G1 group element,
//! 96 uncompressed affine bytes, 48 compressed bytes), lossless conversions
//! between them, multi-key aggregation by group addition, and pairing-based
//! verification of message signatures and proofs of possession.
//!
//! Group arithmetic, pairing evaluation, point (de)compression and
//! hash-to-curve come from the `blstrs` crate behind a small set of trusted
//! wrappers; everything built on top of them is verified against a model
//! that tracks each group element's discrete logarithm.
use vstd::prelude::*;

pub mod algebra;
mod buffer;
mod curve;
pub mod error;
pub mod laws;
pub mod proof_of_possession;
pub mod pubkey;
pub mod secret_key;
pub mod signature;
mod text;

pub use error::BlsError;
pub use proof_of_possession::{
    AsProofOfPossessionProjective, ProofOfPossession, ProofOfPossessionCompressed,
    ProofOfPossessionProjective,
};
pub use pubkey::{
    verify_proof_of_possession, verify_signature, AsPubkeyProjective, Pubkey, PubkeyCompressed,
    PubkeyProjective,
};
pub use secret_key::SecretKey;
pub use signature::{AsSignatureProjective, Signature, SignatureCompressed, SignatureProjective};

verus! {

/// Size of a BLS public key in a compressed point representation
pub const BLS_PUBLIC_KEY_COMPRESSED_SIZE: usize = 48;

/// Largest accepted base64 text length for a compressed public key
pub const BLS_PUBLIC_KEY_COMPRESSED_BASE64_SIZE: usize = 128;

/// Size of a BLS public key in an affine point representation
pub const BLS_PUBLIC_KEY_AFFINE_SIZE: usize = 96;

/// Largest accepted base64 text length for an affine public key
pub const BLS_PUBLIC_KEY_AFFINE_BASE64_SIZE: usize = 256;

/// Size of a BLS signature in a compressed point representation
pub const BLS_SIGNATURE_COMPRESSED_SIZE: usize = 96;

/// Size of a BLS signature in an affine point representation
pub const BLS_SIGNATURE_AFFINE_SIZE: usize = 192;

/// Size of a BLS proof of possession in a compressed point representation
pub const BLS_PROOF_OF_POSSESSION_COMPRESSED_SIZE: usize = 96;

/// Size of a BLS proof of possession in an affine point representation
pub const BLS_PROOF_OF_POSSESSION_AFFINE_SIZE: usize = 192;

} // verus!
