//! Trusted wrappers around the `blstrs` pairing-curve library.
//!
//! Each wrapper makes exactly one curve-library call; its contract states
//! what that call returns in terms of the discrete-logarithm model of
//! `crate::algebra`. `from_uncompressed` and `from_compressed` in `blstrs`
//! decode strictly: they accept only canonical encodings of points that lie
//! on the curve and in the prime-order subgroup (`is_torsion_free`), so a
//! successful decode always re-encodes to the same bytes.
use crate::algebra::{
    g1_compressed, g1_dlog, g1_parse_compressed, g1_parse_uncompressed, g1_uncompressed, g1_value,
    g2_compressed, g2_dlog, g2_parse_compressed, g2_parse_uncompressed, g2_uncompressed, g2_value,
    group_order, gt_dlog, gt_value, message_hash, pubkey_hash, scalar_dlog, scalar_value,
};
use vstd::prelude::*;

verus! {

#[verifier::external_type_specification]
#[verifier::external_body]
pub struct ExG1Projective(blstrs::G1Projective);

#[verifier::external_type_specification]
#[verifier::external_body]
pub struct ExG2Projective(blstrs::G2Projective);

#[verifier::external_type_specification]
#[verifier::external_body]
pub struct ExGt(blstrs::Gt);

#[verifier::external_type_specification]
#[verifier::external_body]
pub struct ExScalar(blstrs::Scalar);

/// Relies on `group::Group::identity` for `blstrs::G1Projective`: the
/// additive identity of G1, whose logarithm is 0.
#[verifier::external_body]
pub(crate) fn g1_identity() -> (r: blstrs::G1Projective)
    ensures
        g1_value(r) == 0,
{
    <blstrs::G1Projective as group::Group>::identity()
}

/// Relies on `group::Group::generator` for `blstrs::G1Projective`: the
/// standard base point of G1, whose logarithm is 1.
#[verifier::external_body]
pub(crate) fn g1_generator() -> (r: blstrs::G1Projective)
    ensures
        g1_value(r) == 1,
{
    <blstrs::G1Projective as group::Group>::generator()
}

/// Relies on `core::ops::Add` for `blstrs::G1Projective`: the group addition
/// law of G1; logarithms add mod the group order.
#[verifier::external_body]
pub(crate) fn g1_add(a: &blstrs::G1Projective, b: &blstrs::G1Projective) -> (r:
    blstrs::G1Projective)
    ensures
        g1_value(r) == (g1_value(*a) + g1_value(*b)) % group_order(),
{
    a + b
}

/// Relies on `core::ops::Mul<blstrs::Scalar>` for `blstrs::G1Projective`:
/// scalar multiplication; the logarithm is multiplied mod the group order.
#[verifier::external_body]
pub(crate) fn g1_mul(p: &blstrs::G1Projective, s: &blstrs::Scalar) -> (r: blstrs::G1Projective)
    ensures
        g1_value(r) == (scalar_value(*s) * g1_value(*p)) % group_order(),
{
    *p * *s
}

/// Relies on `PartialEq` for `blstrs::G1Projective`: exact algebraic point
/// equality, which holds just when the logarithms agree.
#[verifier::external_body]
pub(crate) fn g1_eq(a: &blstrs::G1Projective, b: &blstrs::G1Projective) -> (r: bool)
    ensures
        r == (g1_dlog(*a) % group_order() == g1_dlog(*b) % group_order()),
{
    a == b
}

/// Relies on `blstrs::G1Projective::to_uncompressed`: the canonical 96-byte
/// encoding, which `from_uncompressed` parses back to the same point.
#[verifier::external_body]
pub(crate) fn g1_to_uncompressed(p: &blstrs::G1Projective) -> (r: [u8; 96])
    ensures
        r@ == g1_uncompressed(g1_value(*p)),
        g1_parse_uncompressed(r@) == Some(g1_value(*p)),
{
    p.to_uncompressed()
}

/// Relies on `blstrs::G1Projective::to_compressed`: the canonical 48-byte
/// encoding, which `from_compressed` parses back to the same point.
#[verifier::external_body]
pub(crate) fn g1_to_compressed(p: &blstrs::G1Projective) -> (r: [u8; 48])
    ensures
        r@ == g1_compressed(g1_value(*p)),
        g1_parse_compressed(r@) == Some(g1_value(*p)),
{
    p.to_compressed()
}

/// Relies on `blstrs::G1Projective::from_uncompressed`: strict decoding of
/// the 96-byte uncompressed form, accepting only canonical encodings of
/// prime-order-subgroup points.
#[verifier::external_body]
pub(crate) fn g1_from_uncompressed(bytes: &[u8]) -> (r: Option<blstrs::G1Projective>)
    requires
        bytes@.len() == 96,
    ensures
        r is Some <==> g1_parse_uncompressed(bytes@) is Some,
        r is Some ==> Some(g1_value(r.unwrap())) == g1_parse_uncompressed(bytes@),
{
    let arr: &[u8; 96] = bytes.try_into().unwrap();
    blstrs::G1Projective::from_uncompressed(arr).into()
}

/// Relies on `blstrs::G1Projective::from_compressed`: strict decoding of the
/// 48-byte compressed form, accepting only canonical encodings of
/// prime-order-subgroup points.
#[verifier::external_body]
pub(crate) fn g1_from_compressed(bytes: &[u8]) -> (r: Option<blstrs::G1Projective>)
    requires
        bytes@.len() == 48,
    ensures
        r is Some <==> g1_parse_compressed(bytes@) is Some,
        r is Some ==> Some(g1_value(r.unwrap())) == g1_parse_compressed(bytes@),
{
    let arr: &[u8; 48] = bytes.try_into().unwrap();
    blstrs::G1Projective::from_compressed(arr).into()
}

/// Relies on `PartialEq` for `blstrs::G2Projective`: exact algebraic point
/// equality, which holds just when the logarithms agree.
#[verifier::external_body]
pub(crate) fn g2_eq(a: &blstrs::G2Projective, b: &blstrs::G2Projective) -> (r: bool)
    ensures
        r == (g2_dlog(*a) % group_order() == g2_dlog(*b) % group_order()),
{
    a == b
}

/// Relies on `core::ops::Mul<blstrs::Scalar>` for `blstrs::G2Projective`:
/// scalar multiplication; the logarithm is multiplied mod the group order.
#[verifier::external_body]
pub(crate) fn g2_mul(p: &blstrs::G2Projective, s: &blstrs::Scalar) -> (r: blstrs::G2Projective)
    ensures
        g2_value(r) == (scalar_value(*s) * g2_value(*p)) % group_order(),
{
    *p * *s
}

/// Relies on `blstrs::G2Projective::to_uncompressed`: the canonical 192-byte
/// encoding, which `from_uncompressed` parses back to the same point.
#[verifier::external_body]
pub(crate) fn g2_to_uncompressed(p: &blstrs::G2Projective) -> (r: [u8; 192])
    ensures
        r@ == g2_uncompressed(g2_value(*p)),
        g2_parse_uncompressed(r@) == Some(g2_value(*p)),
{
    p.to_uncompressed()
}

/// Relies on `blstrs::G2Projective::to_compressed`: the canonical 96-byte
/// encoding, which `from_compressed` parses back to the same point.
#[verifier::external_body]
pub(crate) fn g2_to_compressed(p: &blstrs::G2Projective) -> (r: [u8; 96])
    ensures
        r@ == g2_compressed(g2_value(*p)),
        g2_parse_compressed(r@) == Some(g2_value(*p)),
{
    p.to_compressed()
}

/// Relies on `blstrs::G2Projective::from_uncompressed`: strict decoding of
/// the 192-byte uncompressed form, subgroup check included.
#[verifier::external_body]
pub(crate) fn g2_from_uncompressed(bytes: &[u8]) -> (r: Option<blstrs::G2Projective>)
    requires
        bytes@.len() == 192,
    ensures
        r is Some <==> g2_parse_uncompressed(bytes@) is Some,
        r is Some ==> Some(g2_value(r.unwrap())) == g2_parse_uncompressed(bytes@),
{
    let arr: &[u8; 192] = bytes.try_into().unwrap();
    blstrs::G2Projective::from_uncompressed(arr).into()
}

/// Relies on `blstrs::G2Projective::from_compressed`: strict decoding of the
/// 96-byte compressed form, subgroup check included.
#[verifier::external_body]
pub(crate) fn g2_from_compressed(bytes: &[u8]) -> (r: Option<blstrs::G2Projective>)
    requires
        bytes@.len() == 96,
    ensures
        r is Some <==> g2_parse_compressed(bytes@) is Some,
        r is Some ==> Some(g2_value(r.unwrap())) == g2_parse_compressed(bytes@),
{
    let arr: &[u8; 96] = bytes.try_into().unwrap();
    blstrs::G2Projective::from_compressed(arr).into()
}

/// Relies on `blstrs::pairing`: the bilinear map G1 x G2 -> Gt. The output's
/// logarithm base `e(g1, g2)` is the product of the inputs' logarithms mod
/// the group order.
#[verifier::external_body]
pub(crate) fn pairing(p: &blstrs::G1Projective, q: &blstrs::G2Projective) -> (r: blstrs::Gt)
    ensures
        gt_value(r) == (g1_value(*p) * g2_value(*q)) % group_order(),
{
    blstrs::pairing(&(*p).into(), &(*q).into())
}

/// Relies on `PartialEq` for `blstrs::Gt`: equality in the target group,
/// which holds just when the logarithms agree.
#[verifier::external_body]
pub(crate) fn gt_eq(a: &blstrs::Gt, b: &blstrs::Gt) -> (r: bool)
    ensures
        r == (gt_dlog(*a) % group_order() == gt_dlog(*b) % group_order()),
{
    a == b
}

/// Relies on `From<u64>` for `blstrs::Scalar`: embeds the integer into the
/// scalar field, exactly, since every `u64` is below the group order.
#[verifier::external_body]
pub(crate) fn scalar_from_u64(v: u64) -> (r: blstrs::Scalar)
    ensures
        scalar_dlog(r) % group_order() == v as nat,
{
    blstrs::Scalar::from(v)
}

/// Relies on `blstrs::G2Projective::hash_to_curve` under the fixed
/// signature-domain separation tag: deterministic in the message alone.
#[verifier::external_body]
pub(crate) fn hash_message_to_point(message: &[u8]) -> (r: blstrs::G2Projective)
    ensures
        g2_value(r) == message_hash(message@),
{
    blstrs::G2Projective::hash_to_curve(message, b"BLS_SIG_BLS12381G2_XMD:SHA-256_SSWU_RO_NUL_", &[])
}

/// Relies on `blstrs::G2Projective::hash_to_curve` under the fixed
/// proof-of-possession domain separation tag: deterministic in the public
/// key's encoding alone.
#[verifier::external_body]
pub(crate) fn hash_pubkey_bytes_to_point(pubkey_bytes: &[u8]) -> (r: blstrs::G2Projective)
    ensures
        g2_value(r) == pubkey_hash(pubkey_bytes@),
{
    blstrs::G2Projective::hash_to_curve(
        pubkey_bytes,
        b"BLS_SIG_BLS12381G2_XMD:SHA-256_SSWU_RO_POP_",
        &[],
    )
}

} // verus!
