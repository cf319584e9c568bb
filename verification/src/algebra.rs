//! The mathematical model of the curve library.
//!
//! G1, G2 and the pairing target group of BLS12-381 are cyclic of the same
//! prime order, so an element of any of them is determined by its discrete
//! logarithm with respect to that group's standard generator (for the target
//! group, with respect to `e(g1, g2)`). Contracts speak of group elements
//! through these logarithms: addition becomes addition mod the order, scalar
//! multiplication becomes multiplication mod the order, and by bilinearity a
//! pairing's logarithm is the product of its arguments' logarithms.
//!
//! The `*_dlog` functions below give opaque `blstrs` values their logarithms;
//! the remaining uninterpreted functions name byte encodings and hash-to-curve
//! results that no short formula can state. Both kinds are given meaning only
//! by the contracts of the trusted wrappers in this crate.
use vstd::prelude::*;

verus! {

/// The order of G1, G2 and the pairing target group of BLS12-381: a 255-bit
/// prime, usually written `r`.
pub open spec fn group_order() -> nat {
    0x73eda753299d7d483339d80809a1d80553bda402fffe5bfeffffffff00000001nat
}

/// The discrete logarithm of the G1 point a `blstrs::G1Projective` carries.
pub uninterp spec fn g1_dlog(p: blstrs::G1Projective) -> nat;

/// The discrete logarithm of the G2 point a `blstrs::G2Projective` carries.
pub uninterp spec fn g2_dlog(p: blstrs::G2Projective) -> nat;

/// The discrete logarithm, base `e(g1, g2)`, of a target-group element.
pub uninterp spec fn gt_dlog(t: blstrs::Gt) -> nat;

/// The integer a `blstrs::Scalar` field element stands for.
pub uninterp spec fn scalar_dlog(s: blstrs::Scalar) -> nat;

/// A G1 value's logarithm, reduced mod the group order.
pub open spec fn g1_value(p: blstrs::G1Projective) -> nat {
    g1_dlog(p) % group_order()
}

/// A G2 value's logarithm, reduced mod the group order.
pub open spec fn g2_value(p: blstrs::G2Projective) -> nat {
    g2_dlog(p) % group_order()
}

/// A target-group value's logarithm, reduced mod the group order.
pub open spec fn gt_value(t: blstrs::Gt) -> nat {
    gt_dlog(t) % group_order()
}

/// A scalar's integer value, reduced mod the group order.
pub open spec fn scalar_value(s: blstrs::Scalar) -> nat {
    scalar_dlog(s) % group_order()
}

/// The canonical 96-byte uncompressed encoding of the G1 point with
/// logarithm `k`: names the result of `blstrs::G1Projective::to_uncompressed`.
pub uninterp spec fn g1_uncompressed(k: nat) -> Seq<u8>;

/// The canonical 48-byte compressed encoding of the G1 point with
/// logarithm `k`: names the result of `blstrs::G1Projective::to_compressed`.
pub uninterp spec fn g1_compressed(k: nat) -> Seq<u8>;

/// The canonical 192-byte uncompressed encoding of the G2 point with
/// logarithm `k`: names the result of `blstrs::G2Projective::to_uncompressed`.
pub uninterp spec fn g2_uncompressed(k: nat) -> Seq<u8>;

/// The canonical 96-byte compressed encoding of the G2 point with
/// logarithm `k`: names the result of `blstrs::G2Projective::to_compressed`.
pub uninterp spec fn g2_compressed(k: nat) -> Seq<u8>;

/// What `blstrs::G1Projective::from_uncompressed` makes of 96 bytes: the
/// decoded point's logarithm, or `None` for an invalid encoding.
pub uninterp spec fn g1_parse_uncompressed(b: Seq<u8>) -> Option<nat>;

/// What `blstrs::G1Projective::from_compressed` makes of 48 bytes.
pub uninterp spec fn g1_parse_compressed(b: Seq<u8>) -> Option<nat>;

/// What `blstrs::G2Projective::from_uncompressed` makes of 192 bytes.
pub uninterp spec fn g2_parse_uncompressed(b: Seq<u8>) -> Option<nat>;

/// What `blstrs::G2Projective::from_compressed` makes of 96 bytes.
pub uninterp spec fn g2_parse_compressed(b: Seq<u8>) -> Option<nat>;

/// The logarithm of the G2 point a message hashes to in the signature
/// domain: names `blstrs::G2Projective::hash_to_curve` under the signature
/// domain-separation tag.
pub uninterp spec fn message_hash(m: Seq<u8>) -> nat;

/// The logarithm of the G2 point a public key's uncompressed encoding hashes
/// to in the proof-of-possession domain: names
/// `blstrs::G2Projective::hash_to_curve` under the possession tag.
pub uninterp spec fn pubkey_hash(b: Seq<u8>) -> nat;

/// The standard-alphabet padded base64 text of a byte sequence: names the
/// result of `base64::Engine::encode`.
pub uninterp spec fn base64_encoding(b: Seq<u8>) -> Seq<char>;

/// What `base64::Engine::decode` makes of a text: the encoded bytes, or
/// `None` where the text is not canonical padded base64.
pub uninterp spec fn base64_decoding(s: Seq<char>) -> Option<Seq<u8>>;

/// The pairing equation `e(pk, h) == e(generator, sig)` over logarithms:
/// bilinearity reduces it to `pk * h == sig` mod the group order.
pub open spec fn pairing_check(pk: nat, sig: nat, h: nat) -> bool {
    (pk * h) % group_order() == sig % group_order()
}

/// Reduced values are below the group order.
pub proof fn lemma_value_reduced(x: nat)
    ensures
        x % group_order() < group_order(),
        x < group_order() ==> x % group_order() == x,
{
    vstd::arithmetic::div_mod::lemma_mod_bound(x as int, group_order() as int);
    if x < group_order() {
        vstd::arithmetic::div_mod::lemma_small_mod(x, group_order());
    }
}

} // verus!
