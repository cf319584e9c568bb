//! Secret scalars and the two signing operations the tests of this crate
//! need: signing a message and generating a proof of possession. Key
//! generation from randomness is a caller concern.
use crate::algebra::{g1_uncompressed, group_order, message_hash, pubkey_hash, scalar_value};
use crate::curve::{g2_mul, hash_message_to_point, hash_pubkey_bytes_to_point, scalar_from_u64};
use crate::proof_of_possession::ProofOfPossessionProjective;
use crate::pubkey::PubkeyProjective;
use crate::signature::SignatureProjective;
use vstd::prelude::*;

verus! {

/// A BLS secret key: a scalar of the field underlying G1 and G2.
#[derive(Clone, Copy, Debug)]
pub struct SecretKey(pub blstrs::Scalar);

impl SecretKey {
    /// The integer this secret scalar stands for, reduced mod the group order.
    pub open spec fn value(&self) -> nat {
        scalar_value(self.0)
    }

    /// Build a secret key from an integer; exact, since every `u64` is below
    /// the group order.
    pub fn from_u64(v: u64) -> (r: Self)
        ensures
            r.value() == v as nat,
    {
        SecretKey(scalar_from_u64(v))
    }

    /// Sign a message: the message's G2 hash point, scaled by the secret.
    pub fn sign(&self, message: &[u8]) -> (r: SignatureProjective)
        ensures
            r.value() == (self.value() * message_hash(message@)) % group_order(),
    {
        let hashed_message = hash_message_to_point(message);
        SignatureProjective(g2_mul(&hashed_message, &self.0))
    }

    /// Generate the proof of possession for this secret's public key: a
    /// signature over the key's own uncompressed encoding.
    pub fn proof_of_possession(&self) -> (r: ProofOfPossessionProjective)
        ensures
            r.value() == (self.value() * pubkey_hash(g1_uncompressed(self.value())))
                % group_order(),
    {
        let pubkey = PubkeyProjective::from_secret(self);
        let encoded = pubkey.to_affine();
        let hashed_pubkey = hash_pubkey_bytes_to_point(encoded.0.as_slice());
        ProofOfPossessionProjective(g2_mul(&hashed_pubkey, &self.0))
    }
}

} // verus!
