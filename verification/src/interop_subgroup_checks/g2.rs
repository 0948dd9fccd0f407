//! Subgroup membership in G2 by the psi-endomorphism check of eprint
//! 2021/1130, section 4: psi is the Frobenius composed with the quadratic
//! twist and its inverse, precomputed as psi(x, y) = (x^p * psi_x, y^p *
//! psi_y) with the documented Fp2 constants psi_x = 1/(u+1)^((p-1)/3) and
//! psi_y = 1/(u+1)^((p-1)/2).  The check passes exactly when [u]P = psi(P);
//! since the BLS12-381 parameter u is negative, the multiple is negated.

use vstd::prelude::*;
use core::str::FromStr;
use ark_bls12_381::{Fq, Fq2};
use ark_ec::AffineCurve;
use ark_ec::ProjectiveCurve;
use ark_ec::bls12::Bls12Parameters;
use ark_ff::Field;
use ark_ff::Zero;

use crate::curve_ops::{AffineG2, g2_on_curve, g2_point_of, g2_read};
use crate::interop_point_encoding::{G2Point, g2_wf};

verus! {

/// The psi endomorphism of a G2 point.
pub uninterp spec fn psi_of(p: AffineG2) -> AffineG2;

/// What multiplying a G2 point by the curve parameter u yields.
pub uninterp spec fn mul_by_x_of(p: AffineG2) -> AffineG2;

/// The negation of a G2 point.
pub uninterp spec fn neg_of(p: AffineG2) -> AffineG2;

/// The psi check on a canonical encoding: -[u]P = psi(P), with the
/// negation accounting for the sign of the BLS12-381 parameter.
pub open spec fn g2_in_subgroup_spec(b: Seq<u8>) -> bool {
    let p = g2_point_of(b);
    neg_of(mul_by_x_of(p)) == psi_of(p)
}

/// Relies on ark's Fq2 Frobenius map and multiplication: applies the
/// p-power endomorphism with the two documented constants (psi_x has a
/// nonzero coefficient only in its second component).  The endomorphism
/// fixes the identity, which comes back in ark's normalized zero form.
#[verifier::external_body]
fn p_power_endomorphism(p: &AffineG2) -> (q: AffineG2)
    requires
        g2_on_curve(*p),
    ensures
        q == psi_of(*p),
        g2_on_curve(q),
{
    if p.inner.infinity {
        return AffineG2 { inner: ark_bls12_381::G2Affine::zero() };
    }
    let px = Fq::from_str("4002409555221667392624310435006688643935503118305586438271171395842971157480381377015405980053539358417135540939437").unwrap();
    let py0 = Fq::from_str("2973677408986561043442465346520108879172042883009249989176415018091420807192182638567116318576472649347015917690530").unwrap();
    let py1 = Fq::from_str("1028732146235106349975324479215795277384839936929757896155643118032610843298655225875571310552543014690878354869257").unwrap();
    let mut res = p.inner;
    res.x.frobenius_map(1);
    res.y.frobenius_map(1);
    let tmp_x = res.x.clone();
    res.x.c0 = -(px * tmp_x.c1);
    res.x.c1 = px * tmp_x.c0;
    res.y = res.y * Fq2::new(py0, py1);
    AffineG2 { inner: res }
}

/// Relies on ark's scalar multiplication by the BLS12-381 parameter
/// u = Bls12Parameters::X.
#[verifier::external_body]
fn mul_by_x(p: &AffineG2) -> (q: AffineG2)
    requires
        g2_on_curve(*p),
    ensures
        q == mul_by_x_of(*p),
        g2_on_curve(q),
{
    let x = ark_ff::BigInteger256::new([<ark_bls12_381::Parameters as Bls12Parameters>::X[0], 0, 0, 0]);
    AffineG2 { inner: p.inner.mul(x).into_affine() }
}

/// Relies on ark's point negation in G2.
#[verifier::external_body]
fn neg(p: &AffineG2) -> (q: AffineG2)
    requires
        g2_on_curve(*p),
    ensures
        q == neg_of(*p),
        g2_on_curve(q),
{
    AffineG2 { inner: -p.inner }
}

/// Relies on ark's structural equality for affine G2 points, which have a
/// unique representation, so it decides point equality.
#[verifier::external_body]
fn point_eq(a: &AffineG2, b: &AffineG2) -> (r: bool)
    ensures
        r == (a == b),
{
    a.inner == b.inner
}

/// The psi-based subgroup check for a point known to be on the curve
/// (which its canonical encoding guarantees).
pub fn is_in_correct_subgroup_assuming_on_curve(point: &G2Point) -> (r: bool)
    requires
        g2_wf(point@),
    ensures
        r == g2_in_subgroup_spec(point@),
{
    let a = g2_read(point);
    let x_times_point = neg(&mul_by_x(&a));
    let p_times_point = p_power_endomorphism(&a);
    point_eq(&x_times_point, &p_times_point)
}

} // verus!
