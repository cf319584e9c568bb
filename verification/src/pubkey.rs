//! BLS public keys: the projective group element and the two byte-buffer
//! representations, conversions between them, aggregation, and the two
//! pairing-equality verification protocols.
use crate::algebra::{
    g1_compressed, g1_dlog, g1_parse_compressed, g1_parse_uncompressed, g1_uncompressed, g1_value,
    group_order, lemma_value_reduced, message_hash, pairing_check, pubkey_hash,
};
use crate::buffer::{bytes_eq, copy_to_array};
use crate::curve::{
    g1_add, g1_eq, g1_from_compressed, g1_from_uncompressed, g1_generator, g1_identity, g1_mul,
    g1_to_compressed, g1_to_uncompressed, gt_eq, hash_pubkey_bytes_to_point,
    hash_message_to_point, pairing,
};
use crate::error::BlsError;
use crate::proof_of_possession::{AsProofOfPossessionProjective, ProofOfPossessionProjective};
use crate::secret_key::SecretKey;
use crate::signature::{AsSignatureProjective, SignatureProjective};
use crate::text::{base64_encode, from_text_bytes, spec_from_text};
use crate::{
    BLS_PUBLIC_KEY_AFFINE_BASE64_SIZE, BLS_PUBLIC_KEY_AFFINE_SIZE,
    BLS_PUBLIC_KEY_COMPRESSED_BASE64_SIZE, BLS_PUBLIC_KEY_COMPRESSED_SIZE,
};
use vstd::arithmetic::div_mod::lemma_add_mod_noop;
use vstd::prelude::*;

verus! {

/// Any representation of a public key that can be normalized to projective
/// form. `pubkey_value` is the logarithm of the point the representation
/// stands for, or `None` where the bytes are not a valid encoding.
pub trait AsPubkeyProjective: Sized {
    /// The logarithm of the represented point, when the representation is valid.
    spec fn pubkey_value(&self) -> Option<nat>;

    /// Normalize to projective form; fails exactly on an invalid encoding.
    fn try_to_projective(&self) -> (r: Result<PubkeyProjective, BlsError>)
        ensures
            match r {
                Ok(k) => self.pubkey_value() == Some(k.value()),
                Err(e) => self.pubkey_value() is None && e == BlsError::PointDecode,
            },
    ;
}

/// Verify a proof of possession against a public key, each given in any
/// representation; a failed conversion propagates without a pairing check.
pub fn verify_proof_of_possession<PK: AsPubkeyProjective, P: AsProofOfPossessionProjective>(
    public_key: &PK,
    pop: &P,
) -> (r: Result<bool, BlsError>)
    ensures
        match (public_key.pubkey_value(), pop.proof_value()) {
            (Some(k), Some(p)) => r == Ok::<bool, BlsError>(
                pairing_check(k, p, pubkey_hash(g1_uncompressed(k))),
            ),
            _ => r == Err::<bool, BlsError>(BlsError::PointDecode),
        },
{
    let pop_projective: ProofOfPossessionProjective = match pop.try_to_projective() {
        Ok(p) => p,
        Err(e) => {
            return Err(e);
        },
    };
    let pubkey_projective: PubkeyProjective = match public_key.try_to_projective() {
        Ok(k) => k,
        Err(e) => {
            return Err(e);
        },
    };
    Ok(pubkey_projective.check_proof_of_possession(&pop_projective))
}

/// Verify a signature over a message against a public key, each given in any
/// representation; a failed conversion propagates without a pairing check.
pub fn verify_signature<PK: AsPubkeyProjective, S: AsSignatureProjective>(
    public_key: &PK,
    signature: &S,
    message: &[u8],
) -> (r: Result<bool, BlsError>)
    ensures
        match (public_key.pubkey_value(), signature.signature_value()) {
            (Some(k), Some(s)) => r == Ok::<bool, BlsError>(
                pairing_check(k, s, message_hash(message@)),
            ),
            _ => r == Err::<bool, BlsError>(BlsError::PointDecode),
        },
{
    let signature_projective: SignatureProjective = match signature.try_to_projective() {
        Ok(s) => s,
        Err(e) => {
            return Err(e);
        },
    };
    let pubkey_projective: PubkeyProjective = match public_key.try_to_projective() {
        Ok(k) => k,
        Err(e) => {
            return Err(e);
        },
    };
    Ok(pubkey_projective.check_signature(&signature_projective, message))
}

/// A BLS public key as an element of G1 in projective coordinates. Copied by
/// value; equality is exact algebraic equality of the points, not equality of
/// internal coordinates.
#[derive(Clone, Copy, Debug)]
pub struct PubkeyProjective(pub blstrs::G1Projective);

/// The value of each key in a sequence, summed (without reduction).
pub open spec fn keys_value_sum(s: Seq<PubkeyProjective>) -> nat
    decreases s.len(),
{
    if s.len() == 0 {
        0
    } else {
        keys_value_sum(s.drop_last()) + s.last().value()
    }
}

impl PubkeyProjective {
    /// The discrete logarithm of this key with respect to the G1 generator.
    pub open spec fn value(&self) -> nat {
        g1_value(self.0)
    }

    /// Check the pairing equality `e(self, H(message)) == e(generator, signature)`.
    pub fn check_signature(&self, signature: &SignatureProjective, message: &[u8]) -> (r: bool)
        ensures
            r == pairing_check(self.value(), signature.value(), message_hash(message@)),
    {
        let hashed_message = hash_message_to_point(message);
        let lhs = pairing(&self.0, &hashed_message);
        let generator = g1_generator();
        let rhs = pairing(&generator, &signature.0);
        gt_eq(&lhs, &rhs)
    }

    /// Check the pairing equality `e(self, H(self's encoding)) == e(generator, proof)`,
    /// binding the proof to this key's own uncompressed encoding.
    pub fn check_proof_of_possession(&self, pop: &ProofOfPossessionProjective) -> (r: bool)
        ensures
            r == pairing_check(self.value(), pop.value(), pubkey_hash(g1_uncompressed(self.value()))),
    {
        let encoded: [u8; 96] = g1_to_uncompressed(&self.0);
        let hashed_pubkey = hash_pubkey_bytes_to_point(encoded.as_slice());
        let lhs = pairing(&self.0, &hashed_pubkey);
        let generator = g1_generator();
        let rhs = pairing(&generator, &pop.0);
        gt_eq(&lhs, &rhs)
    }

    /// Derive the public key of a secret: the G1 generator times the scalar.
    /// One-way: the scalar cannot be recovered from the result.
    pub fn from_secret(secret: &SecretKey) -> (r: Self)
        ensures
            r.value() == secret.value(),
    {
        let generator = g1_generator();
        let point = g1_mul(&generator, &secret.0);
        proof {
            lemma_value_reduced(crate::algebra::scalar_dlog(secret.0));
            lemma_value_reduced(secret.value());
        }
        PubkeyProjective(point)
    }

    /// Fold additional keys into this aggregate in place, by group addition.
    /// An empty list leaves the value unchanged.
    pub fn aggregate_with(&mut self, pubkeys: &[PubkeyProjective])
        ensures
            final(self).value() == (old(self).value() + keys_value_sum(pubkeys@)) % group_order(),
    {
        let ghost base: nat = self.value();
        let mut acc: blstrs::G1Projective = self.0;
        let mut i: usize = 0;
        proof {
            assert(pubkeys@.take(0) =~= Seq::<PubkeyProjective>::empty());
            lemma_value_reduced(g1_dlog(acc));
            lemma_value_reduced(base);
        }
        while i < pubkeys.len()
            invariant
                i <= pubkeys@.len(),
                g1_value(acc) == (base + keys_value_sum(pubkeys@.take(i as int))) % group_order(),
            decreases pubkeys@.len() - i,
        {
            let ghost prefix = pubkeys@.take(i as int);
            let ghost v: nat = pubkeys@[i as int].value();
            acc = g1_add(&acc, &pubkeys[i].0);
            proof {
                assert(pubkeys@.take(i + 1).drop_last() =~= prefix);
                lemma_value_reduced(g1_dlog(pubkeys@[i as int].0));
                lemma_value_reduced(v);
                lemma_add_mod_noop(
                    (base + keys_value_sum(prefix)) as int,
                    v as int,
                    group_order() as int,
                );
            }
            i += 1;
        }
        proof {
            assert(pubkeys@.take(pubkeys@.len() as int) =~= pubkeys@);
        }
        self.0 = acc;
    }

    /// Aggregate a non-empty list of keys by group addition. An empty list is
    /// rejected: the identity must not stand in as an aggregate public key.
    pub fn aggregate(pubkeys: &[PubkeyProjective]) -> (r: Result<PubkeyProjective, BlsError>)
        ensures
            match r {
                Ok(k) => pubkeys@.len() > 0 && k.value() == keys_value_sum(pubkeys@)
                    % group_order(),
                Err(e) => pubkeys@.len() == 0 && e == BlsError::EmptyAggregation,
            },
    {
        if pubkeys.len() == 0 {
            return Err(BlsError::EmptyAggregation);
        }
        let mut acc: blstrs::G1Projective = pubkeys[0].0;
        let mut i: usize = 1;
        proof {
            assert(pubkeys@.take(1).drop_last() =~= Seq::<PubkeyProjective>::empty());
            assert(keys_value_sum(Seq::<PubkeyProjective>::empty()) == 0);
            assert(pubkeys@.take(1).last() == pubkeys@[0]);
            lemma_value_reduced(g1_dlog(acc));
            lemma_value_reduced(g1_value(acc));
        }
        while i < pubkeys.len()
            invariant
                1 <= i <= pubkeys@.len(),
                g1_value(acc) == keys_value_sum(pubkeys@.take(i as int)) % group_order(),
            decreases pubkeys@.len() - i,
        {
            let ghost prefix = pubkeys@.take(i as int);
            let ghost v: nat = pubkeys@[i as int].value();
            acc = g1_add(&acc, &pubkeys[i].0);
            proof {
                assert(pubkeys@.take(i + 1).drop_last() =~= prefix);
                lemma_value_reduced(g1_dlog(pubkeys@[i as int].0));
                lemma_value_reduced(v);
                lemma_add_mod_noop(
                    keys_value_sum(prefix) as int,
                    v as int,
                    group_order() as int,
                );
            }
            i += 1;
        }
        proof {
            assert(pubkeys@.take(pubkeys@.len() as int) =~= pubkeys@);
        }
        Ok(PubkeyProjective(acc))
    }

    /// Normalize and serialize to the canonical uncompressed form. Infallible,
    /// and lossless: the bytes parse back to this key's value.
    pub fn to_affine(&self) -> (r: Pubkey)
        ensures
            r.0@ == g1_uncompressed(self.value()),
            r.pubkey_value() == Some(self.value()),
    {
        Pubkey(g1_to_uncompressed(&self.0))
    }

    /// Parse a 96-byte uncompressed encoding from a slice; a slice of any
    /// other length is rejected before decoding.
    pub fn try_from_bytes(bytes: &[u8]) -> (r: Result<PubkeyProjective, BlsError>)
        ensures
            match r {
                Ok(k) => bytes@.len() == BLS_PUBLIC_KEY_AFFINE_SIZE as int
                    && g1_parse_uncompressed(bytes@) == Some(k.value()),
                Err(BlsError::LengthMismatch) => bytes@.len() != BLS_PUBLIC_KEY_AFFINE_SIZE as int,
                Err(BlsError::PointDecode) => bytes@.len() == BLS_PUBLIC_KEY_AFFINE_SIZE as int
                    && g1_parse_uncompressed(bytes@) is None,
                Err(_) => false,
            },
    {
        if bytes.len() != BLS_PUBLIC_KEY_AFFINE_SIZE {
            return Err(BlsError::LengthMismatch);
        }
        match g1_from_uncompressed(bytes) {
            Option::Some(p) => Ok(PubkeyProjective(p)),
            Option::None => Err(BlsError::PointDecode),
        }
    }
}

impl Default for PubkeyProjective {
    /// The identity element: the base case for aggregation, never a valid
    /// key for verification.
    fn default() -> (r: Self)
        ensures
            r.value() == 0,
    {
        PubkeyProjective(g1_identity())
    }
}

impl AsPubkeyProjective for PubkeyProjective {
    open spec fn pubkey_value(&self) -> Option<nat> {
        Some(self.value())
    }

    fn try_to_projective(&self) -> (r: Result<PubkeyProjective, BlsError>) {
        Ok(*self)
    }
}

impl PartialEq for PubkeyProjective {
    /// Exact algebraic equality of the underlying points.
    fn eq(&self, other: &Self) -> (r: bool) {
        g1_eq(&self.0, &other.0)
    }
}

impl Eq for PubkeyProjective {

}

impl vstd::std_specs::cmp::PartialEqSpecImpl for PubkeyProjective {
    open spec fn obeys_eq_spec() -> bool {
        true
    }

    open spec fn eq_spec(&self, other: &Self) -> bool {
        self.value() == other.value()
    }
}

/// A BLS public key as its canonical 96-byte uncompressed encoding. Equality,
/// ordering and hashing are byte-wise over the raw buffer — a structural
/// order, not an algebraic one.
#[derive(Clone, Copy, Debug, Hash, PartialOrd, Ord)]
pub struct Pubkey(pub [u8; BLS_PUBLIC_KEY_AFFINE_SIZE]);

impl Pubkey {
    /// Encode the raw bytes as standard padded base64 text.
    pub fn to_text(&self) -> (r: String)
        ensures
            r@ == crate::algebra::base64_encoding(self.0@),
            crate::algebra::base64_decoding(r@) == Some(self.0@),
            r@.len() == 128,
    {
        base64_encode(self.0.as_slice())
    }

    /// Parse standard base64 text; the only validation here is the byte
    /// length — point validity is deferred to the conversion layer.
    pub fn from_text(s: &str) -> (r: Result<Self, BlsError>)
        ensures
            match (
                r,
                spec_from_text(
                    s@,
                    BLS_PUBLIC_KEY_AFFINE_SIZE as nat,
                    BLS_PUBLIC_KEY_AFFINE_BASE64_SIZE as nat,
                ),
            ) {
                (Ok(k), Ok(b)) => k.0@ == b,
                (Err(e), Err(e2)) => e == e2,
                _ => false,
            },
    {
        match from_text_bytes(s, BLS_PUBLIC_KEY_AFFINE_SIZE, BLS_PUBLIC_KEY_AFFINE_BASE64_SIZE) {
            Ok(v) => Ok(Pubkey(copy_to_array::<96>(v.as_slice()))),
            Err(e) => Err(e),
        }
    }

    /// Take a copy of a 96-byte buffer from a slice; a slice of any other
    /// length is rejected. The bytes are not otherwise validated here.
    pub fn try_from_bytes(bytes: &[u8]) -> (r: Result<Pubkey, BlsError>)
        ensures
            match r {
                Ok(k) => bytes@.len() == BLS_PUBLIC_KEY_AFFINE_SIZE as int && k.0@ == bytes@,
                Err(e) => bytes@.len() != BLS_PUBLIC_KEY_AFFINE_SIZE as int && e
                    == BlsError::LengthMismatch,
            },
    {
        if bytes.len() != BLS_PUBLIC_KEY_AFFINE_SIZE {
            return Err(BlsError::LengthMismatch);
        }
        Ok(Pubkey(copy_to_array::<96>(bytes)))
    }

    /// Decode then recompress; fails on bytes that are not a valid point.
    pub fn try_to_compressed(&self) -> (r: Result<PubkeyCompressed, BlsError>)
        ensures
            match (r, self.pubkey_value()) {
                (Ok(c), Some(v)) => c.0@ == g1_compressed(v) && c.pubkey_value() == Some(v),
                (Err(e), None) => e == BlsError::PointDecode,
                _ => false,
            },
    {
        match g1_from_uncompressed(self.0.as_slice()) {
            Option::Some(p) => Ok(PubkeyCompressed(g1_to_compressed(&p))),
            Option::None => Err(BlsError::PointDecode),
        }
    }
}

impl Default for Pubkey {
    /// The all-zero buffer: a placeholder, not a valid curve point.
    fn default() -> (r: Self)
        ensures
            r.0@.len() == BLS_PUBLIC_KEY_AFFINE_SIZE as int,
            forall|i: int| 0 <= i < BLS_PUBLIC_KEY_AFFINE_SIZE as int ==> r.0@[i] == 0u8,
    {
        Pubkey([0u8; BLS_PUBLIC_KEY_AFFINE_SIZE])
    }
}

impl AsPubkeyProjective for Pubkey {
    open spec fn pubkey_value(&self) -> Option<nat> {
        g1_parse_uncompressed(self.0@)
    }

    fn try_to_projective(&self) -> (r: Result<PubkeyProjective, BlsError>) {
        match g1_from_uncompressed(self.0.as_slice()) {
            Option::Some(p) => Ok(PubkeyProjective(p)),
            Option::None => Err(BlsError::PointDecode),
        }
    }
}

impl PartialEq for Pubkey {
    /// Byte-wise equality of the raw buffers.
    fn eq(&self, other: &Self) -> (r: bool) {
        bytes_eq(self.0.as_slice(), other.0.as_slice())
    }
}

impl Eq for Pubkey {

}

impl vstd::std_specs::cmp::PartialEqSpecImpl for Pubkey {
    open spec fn obeys_eq_spec() -> bool {
        true
    }

    open spec fn eq_spec(&self, other: &Self) -> bool {
        self.0@ == other.0@
    }
}

/// A BLS public key as its canonical 48-byte compressed encoding. Equality,
/// ordering and hashing are byte-wise over the raw buffer — a structural
/// order, not an algebraic one.
#[derive(Clone, Copy, Debug, Hash, PartialOrd, Ord)]
pub struct PubkeyCompressed(pub [u8; BLS_PUBLIC_KEY_COMPRESSED_SIZE]);

impl PubkeyCompressed {
    /// Encode the raw bytes as standard padded base64 text.
    pub fn to_text(&self) -> (r: String)
        ensures
            r@ == crate::algebra::base64_encoding(self.0@),
            crate::algebra::base64_decoding(r@) == Some(self.0@),
            r@.len() == 64,
    {
        base64_encode(self.0.as_slice())
    }

    /// Parse standard base64 text; the only validation here is the byte
    /// length — point validity is deferred to the conversion layer.
    pub fn from_text(s: &str) -> (r: Result<Self, BlsError>)
        ensures
            match (
                r,
                spec_from_text(
                    s@,
                    BLS_PUBLIC_KEY_COMPRESSED_SIZE as nat,
                    BLS_PUBLIC_KEY_COMPRESSED_BASE64_SIZE as nat,
                ),
            ) {
                (Ok(k), Ok(b)) => k.0@ == b,
                (Err(e), Err(e2)) => e == e2,
                _ => false,
            },
    {
        match from_text_bytes(
            s,
            BLS_PUBLIC_KEY_COMPRESSED_SIZE,
            BLS_PUBLIC_KEY_COMPRESSED_BASE64_SIZE,
        ) {
            Ok(v) => Ok(PubkeyCompressed(copy_to_array::<48>(v.as_slice()))),
            Err(e) => Err(e),
        }
    }

    /// Take a copy of a 48-byte buffer from a slice; a slice of any other
    /// length is rejected. The bytes are not otherwise validated here.
    pub fn try_from_bytes(bytes: &[u8]) -> (r: Result<PubkeyCompressed, BlsError>)
        ensures
            match r {
                Ok(k) => bytes@.len() == BLS_PUBLIC_KEY_COMPRESSED_SIZE as int && k.0@ == bytes@,
                Err(e) => bytes@.len() != BLS_PUBLIC_KEY_COMPRESSED_SIZE as int && e
                    == BlsError::LengthMismatch,
            },
    {
        if bytes.len() != BLS_PUBLIC_KEY_COMPRESSED_SIZE {
            return Err(BlsError::LengthMismatch);
        }
        Ok(PubkeyCompressed(copy_to_array::<48>(bytes)))
    }

    /// Decode the compressed bytes and serialize the point uncompressed;
    /// fails on bytes that are not a valid point.
    pub fn try_to_affine(&self) -> (r: Result<Pubkey, BlsError>)
        ensures
            match (r, self.pubkey_value()) {
                (Ok(a), Some(v)) => a.0@ == g1_uncompressed(v) && a.pubkey_value() == Some(v),
                (Err(e), None) => e == BlsError::PointDecode,
                _ => false,
            },
    {
        match g1_from_compressed(self.0.as_slice()) {
            Option::Some(p) => Ok(Pubkey(g1_to_uncompressed(&p))),
            Option::None => Err(BlsError::PointDecode),
        }
    }
}

impl Default for PubkeyCompressed {
    /// The all-zero buffer: a placeholder, not a valid curve point.
    fn default() -> (r: Self)
        ensures
            r.0@.len() == BLS_PUBLIC_KEY_COMPRESSED_SIZE as int,
            forall|i: int| 0 <= i < BLS_PUBLIC_KEY_COMPRESSED_SIZE as int ==> r.0@[i] == 0u8,
    {
        PubkeyCompressed([0u8; BLS_PUBLIC_KEY_COMPRESSED_SIZE])
    }
}

impl AsPubkeyProjective for PubkeyCompressed {
    open spec fn pubkey_value(&self) -> Option<nat> {
        g1_parse_compressed(self.0@)
    }

    fn try_to_projective(&self) -> (r: Result<PubkeyProjective, BlsError>) {
        match g1_from_compressed(self.0.as_slice()) {
            Option::Some(p) => Ok(PubkeyProjective(p)),
            Option::None => Err(BlsError::PointDecode),
        }
    }
}

impl PartialEq for PubkeyCompressed {
    /// Byte-wise equality of the raw buffers.
    fn eq(&self, other: &Self) -> (r: bool) {
        bytes_eq(self.0.as_slice(), other.0.as_slice())
    }
}

impl Eq for PubkeyCompressed {

}

impl vstd::std_specs::cmp::PartialEqSpecImpl for PubkeyCompressed {
    open spec fn obeys_eq_spec() -> bool {
        true
    }

    open spec fn eq_spec(&self, other: &Self) -> bool {
        self.0@ == other.0@
    }
}

} // verus!
