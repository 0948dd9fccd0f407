//! Subgroup membership in G1 by the endomorphism check of eprint 2021/1130,
//! section 6: with the curve endomorphism sigma(x, y) = (beta * x, y) for a
//! nontrivial cube root of unity beta in Fq, and u the BLS12-381 parameter,
//! an on-curve point P lies in the prime-order subgroup exactly when
//! sigma(P) = -[u^2]P.  An early exit rejects a non-identity P with
//! [u]P = P.

use vstd::prelude::*;
use core::str::FromStr;
use ark_ec::AffineCurve;
use ark_ec::ProjectiveCurve;
use ark_ec::bls12::Bls12Parameters;

use crate::curve_ops::{AffineG1, g1_on_curve, g1_point_of, g1_read};
use crate::interop_point_encoding::{G1Point, g1_identity_bytes, g1_wf};

verus! {

/// What multiplying a G1 point by beta on its x-coordinate yields: the
/// sigma endomorphism.
pub uninterp spec fn endo_of(p: AffineG1) -> AffineG1;

/// What multiplying a G1 point by the curve parameter u yields.
pub uninterp spec fn mul_by_x_of(p: AffineG1) -> AffineG1;

/// The negation of a G1 point.
pub uninterp spec fn neg_of(p: AffineG1) -> AffineG1;

/// The endomorphism check on a canonical encoding: false early for a
/// non-identity point fixed by u, else sigma(P) = -[u^2]P.
pub open spec fn g1_in_subgroup_spec(b: Seq<u8>) -> bool {
    let p = g1_point_of(b);
    let xp = mul_by_x_of(p);
    if xp == p && b != g1_identity_bytes() {
        false
    } else {
        neg_of(mul_by_x_of(xp)) == endo_of(p)
    }
}

/// Relies on ark's Fq multiplication: multiplies the x-coordinate by BETA,
/// the nontrivial cube root of unity in Fq documented with the check.
#[verifier::external_body]
fn endomorphism(p: &AffineG1) -> (q: AffineG1)
    requires
        g1_on_curve(*p),
    ensures
        q == endo_of(*p),
        g1_on_curve(q),
{
    let beta = ark_bls12_381::Fq::from_str("793479390729215512621379701633421447060886740281060493010456487427281649075476305620758731620350").unwrap();
    let mut res = p.inner;
    res.x = res.x * beta;
    AffineG1 { inner: res }
}

/// Relies on ark's scalar multiplication by the BLS12-381 parameter
/// u = Bls12Parameters::X.
#[verifier::external_body]
fn mul_by_x(p: &AffineG1) -> (q: AffineG1)
    requires
        g1_on_curve(*p),
    ensures
        q == mul_by_x_of(*p),
        g1_on_curve(q),
{
    let x = ark_ff::BigInteger256::new([<ark_bls12_381::Parameters as Bls12Parameters>::X[0], 0, 0, 0]);
    AffineG1 { inner: p.inner.mul(x).into_affine() }
}

/// Relies on ark's point negation in G1.
#[verifier::external_body]
fn neg(p: &AffineG1) -> (q: AffineG1)
    requires
        g1_on_curve(*p),
    ensures
        q == neg_of(*p),
        g1_on_curve(q),
{
    AffineG1 { inner: -p.inner }
}

/// Relies on ark's structural equality for affine G1 points, which have a
/// unique representation, so it decides point equality.
#[verifier::external_body]
fn point_eq(a: &AffineG1, b: &AffineG1) -> (r: bool)
    ensures
        r == (a == b),
{
    a.inner == b.inner
}

/// The endomorphism-based subgroup check for a point known to be on the
/// curve (which its canonical encoding guarantees).
pub fn is_in_correct_subgroup_assuming_on_curve(p: &G1Point) -> (r: bool)
    requires
        g1_wf(p@),
    ensures
        r == g1_in_subgroup_spec(p@),
{
    let a = g1_read(p);
    let x_times_p = mul_by_x(&a);
    if point_eq(&x_times_p, &a) && !p.is_identity() {
        return false;
    }
    let minus_x_squared_times_p = neg(&mul_by_x(&x_times_p));
    let endomorphism_p = endomorphism(&a);
    point_eq(&minus_x_squared_times_p, &endomorphism_p)
}

} // verus!
