//! The trusted boundary to the arkworks curve arithmetic.
//!
//! Verified code holds points as canonical compressed encodings
//! ([`G1Point`], [`G2Point`]).  The carriers [`AffineG1`] and [`AffineG2`]
//! hold ark's affine representation of a point, opaque to the verifier; the
//! functions here move between the two and perform the group operations the
//! library needs: scalar multiplication, multi-scalar multiplication and
//! the pairing.  Each operation's result is pinned by an uninterpreted
//! name, so that the verified layers above can state exactly which
//! operation produced which value.

use vstd::prelude::*;
use ark_bls12_381::{Bls12_381, Fq, Fq2, Fr, G1Affine, G2Affine};
use ark_ec::AffineCurve;
use ark_ec::PairingEngine;
use ark_ec::ProjectiveCurve;
use ark_ff::{BigInteger, BigInteger256, BigInteger384};
use ark_ff::FromBytes;
use ark_ff::PrimeField;
use ark_ff::ToBytes;
use ark_ff::Zero;

use crate::interop_point_encoding::{
    G1Point,
    G2Point,
    g1_wf,
    g2_wf,
    g1_identity_bytes,
    g2_identity_bytes,
};
use crate::interop_point_encoding::bytes_eq;
use crate::scalar::{Scalar, fr_wf, fr_zero_bytes, fr_one_bytes};

verus! {

/// An ark G1 affine point, opaque to the verifier.
#[verifier::external_body]
pub struct AffineG1 {
    pub(crate) inner: ark_bls12_381::G1Affine,
}

/// An ark G2 affine point, opaque to the verifier.
#[verifier::external_body]
pub struct AffineG2 {
    pub(crate) inner: ark_bls12_381::G2Affine,
}

/// The affine point encoded by a canonical G1 encoding.
pub uninterp spec fn g1_point_of(b: Seq<u8>) -> AffineG1;

/// The canonical compressed encoding of a G1 curve point.
pub uninterp spec fn g1_bytes_of(p: AffineG1) -> Seq<u8>;

/// Whether an affine value lies on the G1 curve (the identity counts).
pub uninterp spec fn g1_on_curve(p: AffineG1) -> bool;

/// The affine point encoded by a canonical G2 encoding.
pub uninterp spec fn g2_point_of(b: Seq<u8>) -> AffineG2;

/// The canonical compressed encoding of a G2 curve point.
pub uninterp spec fn g2_bytes_of(p: AffineG2) -> Seq<u8>;

/// Whether an affine value lies on the G2 curve (the identity counts).
pub uninterp spec fn g2_on_curve(p: AffineG2) -> bool;

/// What ark's windowed-NAF scalar multiplication returns in G1 for a point
/// and the scalar with the given canonical encoding.
pub uninterp spec fn g1_mul_point(p: AffineG1, s: Seq<u8>) -> AffineG1;

/// As [`g1_mul_point`], in G2.
pub uninterp spec fn g2_mul_point(p: AffineG2, s: Seq<u8>) -> AffineG2;

/// What ark's variable-base multi-scalar multiplication returns in G1.
pub uninterp spec fn g1_msm_point(bases: Seq<AffineG1>, scalars: Seq<Seq<u8>>) -> AffineG1;

/// As [`g1_msm_point`], in G2.
pub uninterp spec fn g2_msm_point(bases: Seq<AffineG2>, scalars: Seq<Seq<u8>>) -> AffineG2;

/// What ark's Bls12_381 pairing returns for a pair of affine points, as the
/// unique byte rendering of the target-group element.
pub uninterp spec fn pairing_point(p: AffineG1, q: AffineG2) -> Seq<u8>;

/// Scalar multiplication in G1, on canonical encodings.
pub open spec fn g1_mul_of(pb: Seq<u8>, s: Seq<u8>) -> Seq<u8> {
    g1_bytes_of(g1_mul_point(g1_point_of(pb), s))
}

/// Scalar multiplication in G2, on canonical encodings.
pub open spec fn g2_mul_of(pb: Seq<u8>, s: Seq<u8>) -> Seq<u8> {
    g2_bytes_of(g2_mul_point(g2_point_of(pb), s))
}

/// Multi-scalar multiplication in G1, on canonical encodings.
pub open spec fn g1_msm_of(pbs: Seq<Seq<u8>>, ss: Seq<Seq<u8>>) -> Seq<u8> {
    g1_bytes_of(g1_msm_point(pbs.map_values(|b: Seq<u8>| g1_point_of(b)), ss))
}

/// Multi-scalar multiplication in G2, on canonical encodings.
pub open spec fn g2_msm_of(pbs: Seq<Seq<u8>>, ss: Seq<Seq<u8>>) -> Seq<u8> {
    g2_bytes_of(g2_msm_point(pbs.map_values(|b: Seq<u8>| g2_point_of(b)), ss))
}

/// The pairing on canonical encodings.
pub open spec fn pairing_of(a: Seq<u8>, b: Seq<u8>) -> Seq<u8> {
    pairing_point(g1_point_of(a), g2_point_of(b))
}

/// Relies on ark's `Fq::from_repr` and `G1Affine::get_point_from_x`: a
/// canonical encoding decodes deterministically to a point on the curve,
/// and re-encoding that point gives back the same bytes.
#[verifier::external_body]
pub(crate) fn g1_read(p: &G1Point) -> (a: AffineG1)
    requires
        g1_wf(p@),
    ensures
        a == g1_point_of(p@),
        g1_on_curve(a),
        g1_bytes_of(a) == p@,
{
    let mut le = p.bytes.clone();
    let (inf, sorted) = ((le[0] >> 6) & 1 == 1, (le[0] >> 5) & 1 == 1);
    le[0] &= 0x1f;
    le.reverse();
    if inf {
        return AffineG1 { inner: G1Affine::zero() };
    }
    let x = Fq::from_repr(BigInteger384::read(le.as_slice()).unwrap()).unwrap();
    AffineG1 { inner: G1Affine::get_point_from_x(x, sorted).unwrap() }
}

/// Relies on ark's `into_repr().to_bytes_be()` for the x-coordinate and the
/// field order on y for the sign flag: writes the canonical compressed
/// encoding of a point on the curve.
#[verifier::external_body]
pub(crate) fn g1_write(p: &AffineG1) -> (r: G1Point)
    requires
        g1_on_curve(*p),
    ensures
        r@ == g1_bytes_of(*p),
        g1_wf(r@),
        p == g1_point_of(r@),
{
    if p.inner.infinity {
        let mut out = vec![0u8; 48];
        out[0] = 0xc0;
        return G1Point { bytes: out };
    }
    let mut out = p.inner.x.into_repr().to_bytes_be();
    out[0] |= 0x80;
    if p.inner.y > -p.inner.y {
        out[0] |= 0x20;
    }
    G1Point { bytes: out }
}

/// As [`g1_read`], in G2 (coordinate c1 first, then c0).
#[verifier::external_body]
pub(crate) fn g2_read(p: &G2Point) -> (a: AffineG2)
    requires
        g2_wf(p@),
    ensures
        a == g2_point_of(p@),
        g2_on_curve(a),
        g2_bytes_of(a) == p@,
{
    let (inf, sorted) = ((p.bytes[0] >> 6) & 1 == 1, (p.bytes[0] >> 5) & 1 == 1);
    let (mut le1, mut le0) = (p.bytes[0..48].to_vec(), p.bytes[48..96].to_vec());
    le1[0] &= 0x1f;
    le1.reverse();
    le0.reverse();
    if inf {
        return AffineG2 { inner: G2Affine::zero() };
    }
    let c1 = Fq::from_repr(BigInteger384::read(le1.as_slice()).unwrap()).unwrap();
    let c0 = Fq::from_repr(BigInteger384::read(le0.as_slice()).unwrap()).unwrap();
    AffineG2 { inner: G2Affine::get_point_from_x(Fq2::new(c0, c1), sorted).unwrap() }
}

/// As [`g1_write`], in G2.
#[verifier::external_body]
pub(crate) fn g2_write(p: &AffineG2) -> (r: G2Point)
    requires
        g2_on_curve(*p),
    ensures
        r@ == g2_bytes_of(*p),
        g2_wf(r@),
        p == g2_point_of(r@),
{
    if p.inner.infinity {
        let mut out = vec![0u8; 96];
        out[0] = 0xc0;
        return G2Point { bytes: out };
    }
    let mut out = p.inner.x.c1.into_repr().to_bytes_be();
    out.append(&mut p.inner.x.c0.into_repr().to_bytes_be());
    out[0] |= 0x80;
    if p.inner.y > -p.inner.y {
        out[0] |= 0x20;
    }
    G2Point { bytes: out }
}

/// Relies on ark's `WnafContext::mul` (window size 3): scalar multiplication
/// in G1.  Multiplying by 0 gives the identity; multiplying by 1 gives the
/// point back.
#[verifier::external_body]
pub(crate) fn g1_wnaf_mul(p: &AffineG1, s: &Scalar) -> (q: AffineG1)
    requires
        g1_on_curve(*p),
        fr_wf(s@),
    ensures
        q == g1_mul_point(*p, s@),
        g1_on_curve(q),
        s@ == fr_zero_bytes() ==> g1_bytes_of(q) == g1_identity_bytes(),
        s@ == fr_one_bytes() ==> q == *p,
{
    let w = ark_ec::wnaf::WnafContext::new(3);
    let fr = Fr::from_be_bytes_mod_order(s.bytes.as_slice());
    AffineG1 { inner: w.mul(p.inner.into_projective(), &fr).into_affine() }
}

/// As [`g1_wnaf_mul`], in G2.
#[verifier::external_body]
pub(crate) fn g2_wnaf_mul(p: &AffineG2, s: &Scalar) -> (q: AffineG2)
    requires
        g2_on_curve(*p),
        fr_wf(s@),
    ensures
        q == g2_mul_point(*p, s@),
        g2_on_curve(q),
        s@ == fr_zero_bytes() ==> g2_bytes_of(q) == g2_identity_bytes(),
        s@ == fr_one_bytes() ==> q == *p,
{
    let w = ark_ec::wnaf::WnafContext::new(3);
    let fr = Fr::from_be_bytes_mod_order(s.bytes.as_slice());
    AffineG2 { inner: w.mul(p.inner.into_projective(), &fr).into_affine() }
}

/// Relies on ark's `VariableBaseMSM::multi_scalar_mul` over equal-length
/// base and scalar lists.
#[verifier::external_body]
pub(crate) fn g1_msm_raw(bases: &Vec<AffineG1>, scalars: &Vec<Scalar>) -> (q: AffineG1)
    requires
        bases@.len() == scalars@.len(),
        forall|i: int| 0 <= i < bases@.len() ==> g1_on_curve(#[trigger] bases@[i]),
        forall|i: int| 0 <= i < scalars@.len() ==> fr_wf(#[trigger] scalars@[i]@),
    ensures
        q == g1_msm_point(bases@, scalars@.map_values(|s: Scalar| s@)),
        g1_on_curve(q),
{
    let bs: Vec<G1Affine> = bases.iter().map(|b| b.inner).collect();
    let ss: Vec<BigInteger256> = scalars
        .iter()
        .map(|s| Fr::from_be_bytes_mod_order(s.bytes.as_slice()).into_repr())
        .collect();
    let q = ark_ec::msm::VariableBaseMSM::multi_scalar_mul(bs.as_slice(), ss.as_slice());
    AffineG1 { inner: q.into_affine() }
}

/// As [`g1_msm_raw`], in G2.
#[verifier::external_body]
pub(crate) fn g2_msm_raw(bases: &Vec<AffineG2>, scalars: &Vec<Scalar>) -> (q: AffineG2)
    requires
        bases@.len() == scalars@.len(),
        forall|i: int| 0 <= i < bases@.len() ==> g2_on_curve(#[trigger] bases@[i]),
        forall|i: int| 0 <= i < scalars@.len() ==> fr_wf(#[trigger] scalars@[i]@),
    ensures
        q == g2_msm_point(bases@, scalars@.map_values(|s: Scalar| s@)),
        g2_on_curve(q),
{
    let bs: Vec<G2Affine> = bases.iter().map(|b| b.inner).collect();
    let ss: Vec<BigInteger256> = scalars
        .iter()
        .map(|s| Fr::from_be_bytes_mod_order(s.bytes.as_slice()).into_repr())
        .collect();
    let q = ark_ec::msm::VariableBaseMSM::multi_scalar_mul(bs.as_slice(), ss.as_slice());
    AffineG2 { inner: q.into_affine() }
}

/// Relies on ark's `Bls12_381::pairing`, a deterministic function of the two
/// affine points, and on `ToBytes` for the target-group element, whose
/// internal representation is unique: equal pairing values give equal bytes
/// and unequal ones give unequal bytes.
#[verifier::external_body]
pub(crate) fn pairing(a: &AffineG1, b: &AffineG2) -> (r: Vec<u8>)
    ensures
        r@ == pairing_point(*a, *b),
{
    let e = Bls12_381::pairing(a.inner, b.inner);
    let mut out: Vec<u8> = Vec::new();
    e.write(&mut out).unwrap();
    out
}

/// Scalar multiplication in G1 on canonical encodings.
pub(crate) fn g1_mul(p: &G1Point, s: &Scalar) -> (r: G1Point)
    requires
        g1_wf(p@),
        fr_wf(s@),
    ensures
        r@ == g1_mul_of(p@, s@),
        g1_wf(r@),
        s@ == fr_zero_bytes() ==> r@ == g1_identity_bytes(),
        s@ == fr_one_bytes() ==> r@ == p@,
{
    let a = g1_read(p);
    let q = g1_wnaf_mul(&a, s);
    g1_write(&q)
}

/// Scalar multiplication in G2 on canonical encodings.
pub(crate) fn g2_mul(p: &G2Point, s: &Scalar) -> (r: G2Point)
    requires
        g2_wf(p@),
        fr_wf(s@),
    ensures
        r@ == g2_mul_of(p@, s@),
        g2_wf(r@),
        s@ == fr_zero_bytes() ==> r@ == g2_identity_bytes(),
        s@ == fr_one_bytes() ==> r@ == p@,
{
    let a = g2_read(p);
    let q = g2_wnaf_mul(&a, s);
    g2_write(&q)
}

/// Whether the pairings of the two point pairs agree, on canonical
/// encodings.
pub(crate) fn pairings_equal(a1: &G1Point, b1: &G2Point, a2: &G1Point, b2: &G2Point) -> (r: bool)
    requires
        g1_wf(a1@),
        g2_wf(b1@),
        g1_wf(a2@),
        g2_wf(b2@),
    ensures
        r == (pairing_of(a1@, b1@) == pairing_of(a2@, b2@)),
{
    let p1 = pairing(&g1_read(a1), &g2_read(b1));
    let p2 = pairing(&g1_read(a2), &g2_read(b2));
    bytes_eq(&p1, &p2)
}

/// Multi-scalar multiplication in G1 on canonical encodings.
pub(crate) fn g1_msm(points: &Vec<G1Point>, scalars: &Vec<Scalar>) -> (r: G1Point)
    requires
        points@.len() == scalars@.len(),
        forall|i: int| 0 <= i < points@.len() ==> g1_wf(#[trigger] points@[i]@),
        forall|i: int| 0 <= i < scalars@.len() ==> fr_wf(#[trigger] scalars@[i]@),
    ensures
        r@ == g1_msm_of(points@.map_values(|p: G1Point| p@), scalars@.map_values(|s: Scalar| s@)),
        g1_wf(r@),
{
    let mut bases: Vec<AffineG1> = Vec::new();
    let mut i: usize = 0;
    while i < points.len()
        invariant
            i <= points@.len(),
            points@.len() == scalars@.len(),
            forall|k: int| 0 <= k < points@.len() ==> g1_wf(#[trigger] points@[k]@),
            forall|k: int| 0 <= k < scalars@.len() ==> fr_wf(#[trigger] scalars@[k]@),
            bases@.len() == i,
            forall|k: int| 0 <= k < i ==> #[trigger] bases@[k] == g1_point_of(points@[k]@)
                && g1_on_curve(bases@[k]),
        decreases points@.len() - i,
    {
        bases.push(g1_read(&points[i]));
        i += 1;
    }
    let q = g1_msm_raw(&bases, scalars);
    proof {
        assert(bases@ =~= points@.map_values(|p: G1Point| p@).map_values(
            |b: Seq<u8>| g1_point_of(b),
        ));
    }
    g1_write(&q)
}

/// Multi-scalar multiplication in G2 on canonical encodings.
pub(crate) fn g2_msm(points: &Vec<G2Point>, scalars: &Vec<Scalar>) -> (r: G2Point)
    requires
        points@.len() == scalars@.len(),
        forall|i: int| 0 <= i < points@.len() ==> g2_wf(#[trigger] points@[i]@),
        forall|i: int| 0 <= i < scalars@.len() ==> fr_wf(#[trigger] scalars@[i]@),
    ensures
        r@ == g2_msm_of(points@.map_values(|p: G2Point| p@), scalars@.map_values(|s: Scalar| s@)),
        g2_wf(r@),
{
    let mut bases: Vec<AffineG2> = Vec::new();
    let mut i: usize = 0;
    while i < points.len()
        invariant
            i <= points@.len(),
            points@.len() == scalars@.len(),
            forall|k: int| 0 <= k < points@.len() ==> g2_wf(#[trigger] points@[k]@),
            forall|k: int| 0 <= k < scalars@.len() ==> fr_wf(#[trigger] scalars@[k]@),
            bases@.len() == i,
            forall|k: int| 0 <= k < i ==> #[trigger] bases@[k] == g2_point_of(points@[k]@)
                && g2_on_curve(bases@[k]),
        decreases points@.len() - i,
    {
        bases.push(g2_read(&points[i]));
        i += 1;
    }
    let q = g2_msm_raw(&bases, scalars);
    proof {
        assert(bases@ =~= points@.map_values(|p: G2Point| p@).map_values(
            |b: Seq<u8>| g2_point_of(b),
        ));
    }
    g2_write(&q)
}

} // verus!
