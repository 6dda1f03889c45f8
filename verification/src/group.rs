//! The pairing groups of BLS12-381, seen through their canonical encodings.
//!
//! Every group element crosses this module as the byte string that the
//! pairing library assigns to it: a point of the first group as 48
//! compressed bytes, a point of the second group as 96 compressed bytes, and
//! a pairing value as the bytes of its printed form. Scalars come as 32
//! big-endian bytes.
//! The arithmetic itself is done by the `paired` crate. Nothing in this module
//! is proved: each function states what the crate computes, and the rest of
//! the library is verified against these statements.

use crate::field::{scalar_sum, valid_scalar};
use fff::{PrimeField, PrimeFieldRepr};
use groupy::{CurveAffine, CurveProjective, EncodedPoint};
use paired::bls12_381::{Bls12, Fr, FrRepr, G1Compressed, G2Affine, G2Compressed, G1};
use paired::Engine;
use vstd::prelude::*;

verus! {

/// Length in bytes of an encoded point of the first group.
pub const G1_LEN: usize = 48;

/// Length in bytes of an encoded point of the second group.
pub const G2_LEN: usize = 96;

/// Whether 48 bytes are the compressed encoding of a point of the first group.
pub uninterp spec fn is_g1_encoding(bytes: Seq<u8>) -> bool;

/// Whether 96 bytes are the compressed encoding of a point of the second group.
pub uninterp spec fn is_g2_encoding(bytes: Seq<u8>) -> bool;

/// The point of the first group that a message hashes to.
pub uninterp spec fn hash_g1_of(message: Seq<u8>) -> Seq<u8>;

/// The multiple of a point of the first group by a scalar.
pub uninterp spec fn g1_mul_of(point: Seq<u8>, scalar: Seq<u8>) -> Seq<u8>;

/// The multiple of a point of the second group by a scalar.
pub uninterp spec fn g2_mul_of(point: Seq<u8>, scalar: Seq<u8>) -> Seq<u8>;

/// The multiple of the fixed generator of the second group by a scalar.
pub uninterp spec fn g2_generator_mul_of(scalar: Seq<u8>) -> Seq<u8>;

/// The difference of two points of the second group.
pub uninterp spec fn g2_difference_of(p: Seq<u8>, q: Seq<u8>) -> Seq<u8>;

/// The pairing of a point of the first group with one of the second.
pub uninterp spec fn pairing_of(p: Seq<u8>, q: Seq<u8>) -> Seq<u8>;

/// A well-formed point of the first group.
pub open spec fn valid_g1(bytes: Seq<u8>) -> bool {
    bytes.len() == G1_LEN && is_g1_encoding(bytes)
}

/// A well-formed point of the second group.
pub open spec fn valid_g2(bytes: Seq<u8>) -> bool {
    bytes.len() == G2_LEN && is_g2_encoding(bytes)
}

/// Calls `EncodedPoint::into_affine` on a `G1Compressed`. The contract gives
/// the outcome of that decoding a name: it succeeds exactly on the encodings
/// of points of the first group.
#[verifier::external_body]
pub(crate) fn g1_check(bytes: &Vec<u8>) -> (ok: bool)
    requires
        bytes@.len() == G1_LEN,
    ensures
        ok == is_g1_encoding(bytes@),
{
    let mut encoded = G1Compressed::empty();
    encoded.as_mut().copy_from_slice(&bytes[..]);
    encoded.into_affine().is_ok()
}

/// Calls `EncodedPoint::into_affine` on a `G2Compressed`. The contract gives
/// the outcome of that decoding a name: it succeeds exactly on the encodings
/// of points of the second group.
#[verifier::external_body]
pub(crate) fn g2_check(bytes: &Vec<u8>) -> (ok: bool)
    requires
        bytes@.len() == G2_LEN,
    ensures
        ok == is_g2_encoding(bytes@),
{
    let mut encoded = G2Compressed::empty();
    encoded.as_mut().copy_from_slice(&bytes[..]);
    encoded.into_affine().is_ok()
}

/// Calls `CurveProjective::hash` on `G1`. The contract names the encoding of
/// the point that comes out and claims its length.
#[verifier::external_body]
pub(crate) fn hash_to_g1(message: &Vec<u8>) -> (out: Vec<u8>)
    ensures
        out@ == hash_g1_of(message@),
        out@.len() == G1_LEN,
{
    G1::hash(&message[..]).into_affine().into_compressed().as_ref().to_vec()
}

/// Calls `CurveAffine::mul` on the generator `G2Affine::one()`. The contract
/// names the multiple and claims that it is a well-formed point.
#[verifier::external_body]
pub(crate) fn g2_generator_mul(scalar: &Vec<u8>) -> (out: Vec<u8>)
    requires
        valid_scalar(scalar@),
    ensures
        out@ == g2_generator_mul_of(scalar@),
        valid_g2(out@),
{
    let mut repr = FrRepr::default();
    repr.read_be(&scalar[..]).unwrap();
    let product = G2Affine::one().mul(Fr::from_repr(repr).unwrap());
    product.into_affine().into_compressed().as_ref().to_vec()
}

/// Calls `CurveAffine::mul` on a `G1Affine`. The contract names the multiple
/// and claims that it is a well-formed point.
#[verifier::external_body]
pub(crate) fn g1_mul(point: &Vec<u8>, scalar: &Vec<u8>) -> (out: Vec<u8>)
    requires
        valid_g1(point@),
        valid_scalar(scalar@),
    ensures
        out@ == g1_mul_of(point@, scalar@),
        valid_g1(out@),
{
    let mut encoded = G1Compressed::empty();
    encoded.as_mut().copy_from_slice(&point[..]);
    let mut repr = FrRepr::default();
    repr.read_be(&scalar[..]).unwrap();
    let product = encoded.into_affine().unwrap().mul(Fr::from_repr(repr).unwrap());
    product.into_affine().into_compressed().as_ref().to_vec()
}

/// Calls `CurveAffine::mul` on a `G2Affine`. The contract names the multiple
/// and claims that it is a well-formed point.
#[verifier::external_body]
pub(crate) fn g2_mul(point: &Vec<u8>, scalar: &Vec<u8>) -> (out: Vec<u8>)
    requires
        valid_g2(point@),
        valid_scalar(scalar@),
    ensures
        out@ == g2_mul_of(point@, scalar@),
        valid_g2(out@),
{
    let mut encoded = G2Compressed::empty();
    encoded.as_mut().copy_from_slice(&point[..]);
    let mut repr = FrRepr::default();
    repr.read_be(&scalar[..]).unwrap();
    let product = encoded.into_affine().unwrap().mul(Fr::from_repr(repr).unwrap());
    product.into_affine().into_compressed().as_ref().to_vec()
}

/// Calls `CurveProjective::sub_assign` on a `G2`. The contract names the
/// difference, claims that it is a well-formed point, and states the one law
/// of the group that blinding rests on: taking `b` times the generator away
/// from `a + b` times the generator leaves `a` times the generator.
#[verifier::external_body]
pub(crate) fn g2_sub(p: &Vec<u8>, q: &Vec<u8>) -> (out: Vec<u8>)
    requires
        valid_g2(p@),
        valid_g2(q@),
    ensures
        out@ == g2_difference_of(p@, q@),
        valid_g2(out@),
        forall|a: Seq<u8>, b: Seq<u8>|
            valid_scalar(a) && valid_scalar(b)
                && p@ == g2_generator_mul_of(#[trigger] scalar_sum(a, b))
                && q@ == g2_generator_mul_of(b)
                ==> out@ == g2_generator_mul_of(a),
{
    let mut encoded = G2Compressed::empty();
    encoded.as_mut().copy_from_slice(&p[..]);
    let mut difference = encoded.into_affine().unwrap().into_projective();
    encoded.as_mut().copy_from_slice(&q[..]);
    difference.sub_assign(&encoded.into_affine().unwrap().into_projective());
    difference.into_affine().into_compressed().as_ref().to_vec()
}

/// Calls `Engine::pairing` of `Bls12`. The contract names the pairing value,
/// given by the bytes of its printed form, and states that the pairing is
/// bilinear: pairing `s` times a point with `t` times the generator gives
/// what pairing the point itself with `t` times (`s` times the generator)
/// gives.
#[verifier::external_body]
pub(crate) fn pairing(p: &Vec<u8>, q: &Vec<u8>) -> (out: Vec<u8>)
    requires
        valid_g1(p@),
        valid_g2(q@),
    ensures
        out@ == pairing_of(p@, q@),
        forall|base: Seq<u8>, s: Seq<u8>, t: Seq<u8>|
            valid_g1(base) && valid_scalar(s) && valid_scalar(t)
                && p@ == #[trigger] g1_mul_of(base, s)
                && q@ == #[trigger] g2_generator_mul_of(t)
                ==> out@ == pairing_of(base, g2_mul_of(g2_generator_mul_of(s), t)),
{
    let mut first = G1Compressed::empty();
    first.as_mut().copy_from_slice(&p[..]);
    let mut second = G2Compressed::empty();
    second.as_mut().copy_from_slice(&q[..]);
    let value = Bls12::pairing(first.into_affine().unwrap(), second.into_affine().unwrap());
    format!("{}", value).into_bytes()
}

} // verus!
