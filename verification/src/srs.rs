//! The structured reference string: the powers of tau in G1 and G2, its
//! update by a contributor's secret, and its verification.

use vstd::prelude::*;
use crate::curve_ops::{
    g1_msm,
    g1_msm_of,
    g1_mul,
    g1_mul_of,
    g2_msm,
    g2_msm_of,
    g2_mul,
    g2_mul_of,
    pairing_of,
    pairings_equal,
};
use crate::hexstr::{encode_hex, hex_of};
use crate::interop_point_encoding::{
    G1Point,
    G2Point,
    g1_generator_bytes,
    g1_identity_bytes,
    g1_wf,
    g2_generator_bytes,
    g2_identity_bytes,
    g2_wf,
    serialize_g1,
};
use crate::interop_subgroup_checks::g1::g1_in_subgroup_spec;
use crate::interop_subgroup_checks::g2::g2_in_subgroup_spec;
use crate::keypair::PrivateKey;
use crate::scalar::{Scalar, fr_mul, fr_one_bytes, fr_pow, fr_wf, fr_zero_bytes};
use crate::shared_secret::chain_ok;
use crate::update_proof::{UpdateProof, chain_points, chain_witnesses};

verus! {

/// How many powers the SRS holds in each group.
#[derive(Debug, Clone, Copy, PartialEq, Eq, Structural)]
pub struct Parameters {
    pub num_g1_elements_needed: usize,
    pub num_g2_elements_needed: usize,
}

impl Parameters {
    pub fn new(num_g1: usize, num_g2: usize) -> (r: Self)
        ensures
            r.num_g1_elements_needed == num_g1,
            r.num_g2_elements_needed == num_g2,
    {
        Parameters { num_g1_elements_needed: num_g1, num_g2_elements_needed: num_g2 }
    }
}

/// The structured reference string: the sequences tau^i * g1 and
/// tau^j * g2.
#[derive(Debug, Clone)]
pub struct SRS {
    pub tau_g1: Vec<G1Point>,
    pub tau_g2: Vec<G2Point>,
}

/// Element-wise comparison of two G1 power vectors.
fn g1_vec_eq(a: &Vec<G1Point>, b: &Vec<G1Point>) -> (r: bool)
    ensures
        r == (a@.map_values(|p: G1Point| p@) == b@.map_values(|p: G1Point| p@)),
{
    let ghost am = a@.map_values(|p: G1Point| p@);
    let ghost bm = b@.map_values(|p: G1Point| p@);
    if a.len() != b.len() {
        proof {
            assert(am.len() != bm.len());
        }
        return false;
    }
    let mut i: usize = 0;
    while i < a.len()
        invariant
            i <= a@.len(),
            a@.len() == b@.len(),
            am == a@.map_values(|p: G1Point| p@),
            bm == b@.map_values(|p: G1Point| p@),
            forall|k: int| 0 <= k < i ==> am[k] == bm[k],
        decreases a@.len() - i,
    {
        if !(a[i] == b[i]) {
            proof {
                assert(am[i as int] != bm[i as int]);
            }
            return false;
        }
        i += 1;
    }
    proof {
        assert(am =~= bm);
    }
    true
}

/// Element-wise comparison of two G2 power vectors.
fn g2_vec_eq(a: &Vec<G2Point>, b: &Vec<G2Point>) -> (r: bool)
    ensures
        r == (a@.map_values(|p: G2Point| p@) == b@.map_values(|p: G2Point| p@)),
{
    let ghost am = a@.map_values(|p: G2Point| p@);
    let ghost bm = b@.map_values(|p: G2Point| p@);
    if a.len() != b.len() {
        proof {
            assert(am.len() != bm.len());
        }
        return false;
    }
    let mut i: usize = 0;
    while i < a.len()
        invariant
            i <= a@.len(),
            a@.len() == b@.len(),
            am == a@.map_values(|p: G2Point| p@),
            bm == b@.map_values(|p: G2Point| p@),
            forall|k: int| 0 <= k < i ==> am[k] == bm[k],
        decreases a@.len() - i,
    {
        if !(a[i] == b[i]) {
            proof {
                assert(am[i as int] != bm[i as int]);
            }
            return false;
        }
        i += 1;
    }
    proof {
        assert(am =~= bm);
    }
    true
}

impl PartialEq for SRS {
    /// Two SRSs are equal when they hold the same points, power by power.
    fn eq(&self, other: &SRS) -> (r: bool) {
        let a = g1_vec_eq(&self.tau_g1, &other.tau_g1);
        let b = g2_vec_eq(&self.tau_g2, &other.tau_g2);
        a && b
    }
}

impl vstd::std_specs::cmp::PartialEqSpecImpl for SRS {
    open spec fn obeys_eq_spec() -> bool {
        true
    }

    open spec fn eq_spec(&self, other: &SRS) -> bool {
        &&& self.g1s() == other.g1s()
        &&& self.g2s() == other.g2s()
    }
}

impl Eq for SRS {
}

/// The element-wise effect of an update with secret `tau` on the G1 powers:
/// index 0 is untouched, index i is multiplied by tau^i.
pub open spec fn updated_powers_g1(old: Seq<Seq<u8>>, tau: Seq<u8>) -> Seq<Seq<u8>> {
    Seq::new(
        old.len(),
        |i: int|
            if i == 0 {
                old[i]
            } else {
                g1_mul_of(old[i], fr_pow(tau, i as nat))
            },
    )
}

/// As [`updated_powers_g1`], in G2.
pub open spec fn updated_powers_g2(old: Seq<Seq<u8>>, tau: Seq<u8>) -> Seq<Seq<u8>> {
    Seq::new(
        old.len(),
        |i: int|
            if i == 0 {
                old[i]
            } else {
                g2_mul_of(old[i], fr_pow(tau, i as nat))
            },
    )
}

/// The batched structure check with challenge `r`: with rho_k = r^(k+1),
/// compare one pairing of the rho-combination of all powers but the last
/// against one of all powers but the first, in each group.  A zero
/// challenge is refused.
pub open spec fn structure_check_batched_spec(
    g1s: Seq<Seq<u8>>,
    g2s: Seq<Seq<u8>>,
    r: Seq<u8>,
) -> bool {
    let n = g1s.len() as int;
    let m = g2s.len() as int;
    let count = if n > m {
        n
    } else {
        m
    };
    let rho = Seq::new((count - 1) as nat, |k: int| fr_pow(r, (k + 1) as nat));
    &&& r != fr_zero_bytes()
    &&& pairing_of(g1_msm_of(g1s.take(n - 1), rho.take(n - 1)), g2s[1]) == pairing_of(
        g1_msm_of(g1s.skip(1), rho.take(n - 1)),
        g2s[0],
    )
    &&& pairing_of(g1s[1], g2_msm_of(g2s.take(m - 1), rho.take(m - 1))) == pairing_of(
        g1s[0],
        g2_msm_of(g2s.skip(1), rho.take(m - 1)),
    )
}

/// The pairwise structure check: every consecutive pair of powers is
/// related by tau, witnessed by one pairing equation per pair in each
/// group.
pub open spec fn structure_check_pairwise_spec(g1s: Seq<Seq<u8>>, g2s: Seq<Seq<u8>>) -> bool {
    &&& forall|i: int|
        0 <= i < g1s.len() - 1 ==> pairing_of(#[trigger] g1s[i + 1], g2s[0]) == pairing_of(
            g1s[i],
            g2s[1],
        )
    &&& forall|j: int|
        0 <= j < g2s.len() - 1 ==> pairing_of(g1s[0], #[trigger] g2s[j + 1]) == pairing_of(
            g1s[1],
            g2s[j],
        )
}

/// Every power lies in the prime-order subgroup, by the endomorphism
/// checks.
pub open spec fn subgroup_check_spec(g1s: Seq<Seq<u8>>, g2s: Seq<Seq<u8>>) -> bool {
    &&& forall|i: int| 0 <= i < g1s.len() ==> g1_in_subgroup_spec(#[trigger] g1s[i])
    &&& forall|j: int| 0 <= j < g2s.len() ==> g2_in_subgroup_spec(#[trigger] g2s[j])
}

/// What `verify_updates` accepts: a nonempty proof list ending at the new
/// degree-1 element, a valid chain from the old degree-1 element, no
/// identity at degree 1, and the batched structure check.
pub open spec fn verify_updates_spec(
    before_g1s: Seq<Seq<u8>>,
    after_g1s: Seq<Seq<u8>>,
    after_g2s: Seq<Seq<u8>>,
    proofs: Seq<UpdateProof>,
    r: Seq<u8>,
) -> bool {
    &&& proofs.len() >= 1
    &&& after_g1s[1] == proofs.last().new_accumulated_point@
    &&& chain_ok(chain_points(before_g1s[1], proofs), chain_witnesses(proofs))
    &&& after_g1s[1] != g1_identity_bytes()
    &&& after_g2s[1] != g2_identity_bytes()
    &&& structure_check_batched_spec(after_g1s, after_g2s, r)
}

/// The consecutive powers x, x^2, ..., x^n of a scalar.
pub(crate) fn vandemonde_challenge(x: &Scalar, n: usize) -> (r: Vec<Scalar>)
    requires
        fr_wf(x@),
        n >= 1,
    ensures
        r@.len() == n,
        forall|k: int| 0 <= k < n ==> (#[trigger] r@[k])@ == fr_pow(x@, (k + 1) as nat),
        forall|k: int| 0 <= k < n ==> fr_wf((#[trigger] r@[k])@),
        x@ == fr_one_bytes() ==> forall|k: int| 0 <= k < n ==> (#[trigger] r@[k])@ == fr_one_bytes(),
        x@ == fr_zero_bytes() ==> forall|k: int|
            0 <= k < n ==> (#[trigger] r@[k])@ == fr_zero_bytes(),
{
    let mut challenges: Vec<Scalar> = Vec::new();
    challenges.push(x.clone());
    let mut i: usize = 0;
    while i < n - 1
        invariant
            fr_wf(x@),
            n >= 1,
            i <= n - 1,
            challenges@.len() == i + 1,
            forall|k: int| 0 <= k < i + 1 ==> (#[trigger] challenges@[k])@ == fr_pow(x@, (k + 1) as nat),
            forall|k: int| 0 <= k < i + 1 ==> fr_wf((#[trigger] challenges@[k])@),
            x@ == fr_one_bytes() ==> forall|k: int|
                0 <= k < i + 1 ==> (#[trigger] challenges@[k])@ == fr_one_bytes(),
            x@ == fr_zero_bytes() ==> forall|k: int|
                0 <= k < i + 1 ==> (#[trigger] challenges@[k])@ == fr_zero_bytes(),
        decreases n - 1 - i,
    {
        let next = fr_mul(&challenges[i], x);
        challenges.push(next);
        i += 1;
    }
    challenges
}

/// Byte-for-byte copies of the points of `v` at indices `start..end`.
fn clone_g1_range(v: &Vec<G1Point>, start: usize, end: usize) -> (r: Vec<G1Point>)
    requires
        start <= end <= v@.len(),
    ensures
        r@.len() == end - start,
        forall|k: int| 0 <= k < end - start ==> (#[trigger] r@[k])@ == v@[start + k]@,
{
    let mut r: Vec<G1Point> = Vec::new();
    let mut i: usize = start;
    while i < end
        invariant
            start <= i <= end <= v@.len(),
            r@.len() == i - start,
            forall|k: int| 0 <= k < i - start ==> (#[trigger] r@[k])@ == v@[start + k]@,
        decreases end - i,
    {
        r.push(v[i].clone());
        i += 1;
    }
    r
}

/// As [`clone_g1_range`], for G2 points.
fn clone_g2_range(v: &Vec<G2Point>, start: usize, end: usize) -> (r: Vec<G2Point>)
    requires
        start <= end <= v@.len(),
    ensures
        r@.len() == end - start,
        forall|k: int| 0 <= k < end - start ==> (#[trigger] r@[k])@ == v@[start + k]@,
{
    let mut r: Vec<G2Point> = Vec::new();
    let mut i: usize = start;
    while i < end
        invariant
            start <= i <= end <= v@.len(),
            r@.len() == i - start,
            forall|k: int| 0 <= k < i - start ==> (#[trigger] r@[k])@ == v@[start + k]@,
        decreases end - i,
    {
        r.push(v[i].clone());
        i += 1;
    }
    r
}

/// As [`clone_g1_range`], for scalars.
fn clone_scalar_range(v: &Vec<Scalar>, start: usize, end: usize) -> (r: Vec<Scalar>)
    requires
        start <= end <= v@.len(),
    ensures
        r@.len() == end - start,
        forall|k: int| 0 <= k < end - start ==> (#[trigger] r@[k])@ == v@[start + k]@,
{
    let mut r: Vec<Scalar> = Vec::new();
    let mut i: usize = start;
    while i < end
        invariant
            start <= i <= end <= v@.len(),
            r@.len() == i - start,
            forall|k: int| 0 <= k < i - start ==> (#[trigger] r@[k])@ == v@[start + k]@,
        decreases end - i,
    {
        r.push(v[i].clone());
        i += 1;
    }
    r
}

impl SRS {
    /// The encodings of the G1 powers.
    pub open spec fn g1s(&self) -> Seq<Seq<u8>> {
        self.tau_g1@.map_values(|p: G1Point| p@)
    }

    /// The encodings of the G2 powers.
    pub open spec fn g2s(&self) -> Seq<Seq<u8>> {
        self.tau_g2@.map_values(|p: G2Point| p@)
    }

    /// At least two powers in each group, all canonically encoded.
    pub open spec fn wf(&self) -> bool {
        &&& self.tau_g1@.len() > 1
        &&& self.tau_g2@.len() > 1
        &&& forall|i: int| 0 <= i < self.tau_g1@.len() ==> g1_wf(#[trigger] self.tau_g1@[i]@)
        &&& forall|j: int| 0 <= j < self.tau_g2@.len() ==> g2_wf(#[trigger] self.tau_g2@[j]@)
    }

    /// A fresh SRS: every power is the group's generator.  Fails exactly
    /// when either group is asked for fewer than two powers.
    pub fn new(parameters: Parameters) -> (r: Option<SRS>)
        ensures
            r is Some <==> (parameters.num_g1_elements_needed > 1
                && parameters.num_g2_elements_needed > 1),
            r matches Some(s) ==> s.wf() && s.g1s() == Seq::new(
                parameters.num_g1_elements_needed as nat,
                |i: int| g1_generator_bytes(),
            ) && s.g2s() == Seq::new(
                parameters.num_g2_elements_needed as nat,
                |i: int| g2_generator_bytes(),
            ),
    {
        let mut g1s: Vec<G1Point> = Vec::new();
        let mut i: usize = 0;
        while i < parameters.num_g1_elements_needed
            invariant
                i <= parameters.num_g1_elements_needed,
                g1s@.len() == i,
                forall|k: int|
                    0 <= k < i ==> (#[trigger] g1s@[k])@ == g1_generator_bytes() && g1_wf(g1s@[k]@),
            decreases parameters.num_g1_elements_needed - i,
        {
            g1s.push(G1Point::generator());
            i += 1;
        }
        let mut g2s: Vec<G2Point> = Vec::new();
        let mut j: usize = 0;
        while j < parameters.num_g2_elements_needed
            invariant
                j <= parameters.num_g2_elements_needed,
                g2s@.len() == j,
                forall|k: int|
                    0 <= k < j ==> (#[trigger] g2s@[k])@ == g2_generator_bytes() && g2_wf(g2s@[k]@),
            decreases parameters.num_g2_elements_needed - j,
        {
            g2s.push(G2Point::generator());
            j += 1;
        }
        let ghost gv1 = g1s@;
        let ghost gv2 = g2s@;
        let r = SRS::from_vectors(g1s, g2s);
        proof {
            if gv1.len() > 1 && gv2.len() > 1 {
                let s = r.unwrap();
                assert(s.g1s() =~= Seq::new(
                    parameters.num_g1_elements_needed as nat,
                    |i: int| g1_generator_bytes(),
                ));
                assert(s.g2s() =~= Seq::new(
                    parameters.num_g2_elements_needed as nat,
                    |i: int| g2_generator_bytes(),
                ));
            }
        }
        r
    }

    /// An SRS over the given power vectors.  Fails exactly when either
    /// vector has fewer than two entries.
    pub fn from_vectors(g1s: Vec<G1Point>, g2s: Vec<G2Point>) -> (r: Option<SRS>)
        requires
            forall|i: int| 0 <= i < g1s@.len() ==> g1_wf(#[trigger] g1s@[i]@),
            forall|j: int| 0 <= j < g2s@.len() ==> g2_wf(#[trigger] g2s@[j]@),
        ensures
            r is Some <==> (g1s@.len() > 1 && g2s@.len() > 1),
            r matches Some(s) ==> s.wf() && s.tau_g1@ == g1s@ && s.tau_g2@ == g2s@,
    {
        let cond = g1s.len() > 1 && g2s.len() > 1;
        if !cond {
            None
        } else {
            Some(SRS { tau_g1: g1s, tau_g2: g2s })
        }
    }

    /// A ceremony sized for a KZG commitment scheme over polynomials with
    /// the given number of coefficients; two G2 powers suffice there.
    pub fn new_for_kzg(num_coefficients: usize) -> (r: SRS)
        requires
            num_coefficients > 1,
        ensures
            r.wf(),
            r.g1s() == Seq::new(num_coefficients as nat, |i: int| g1_generator_bytes()),
            r.g2s() == Seq::new(2, |i: int| g2_generator_bytes()),
    {
        let params = Parameters { num_g1_elements_needed: num_coefficients, num_g2_elements_needed: 2 };
        SRS::new(params).unwrap()
    }

    pub fn g1_elements(&self) -> (r: &Vec<G1Point>)
        ensures
            r@ == self.tau_g1@,
    {
        &self.tau_g1
    }

    pub fn g2_elements(&self) -> (r: &Vec<G2Point>)
        ensures
            r@ == self.tau_g2@,
    {
        &self.tau_g2
    }

    /// The degree-1 G1 element as a 0x-prefixed hex string: a summary of
    /// the SRS.
    pub fn summary(&self) -> (s: String)
        requires
            self.wf(),
        ensures
            s@ == seq!['0', 'x'] + hex_of(self.g1s()[1]),
    {
        let bytes = serialize_g1(&self.tau_g1[1]);
        let hex = encode_hex(&bytes);
        proof {
            reveal_strlit("0x");
            assert("0x"@ =~= seq!['0', 'x']);
        }
        let mut s = String::from_str("0x");
        s.append(hex.as_str());
        s
    }

    /// Applies a contributor's secret: index i of each power vector is
    /// multiplied by tau^i (index 0 stays the generator), and the proof
    /// pairs the commitment tau * g2 with the new degree-1 G1 element.
    pub fn update(&mut self, private_key: PrivateKey) -> (proof: UpdateProof)
        requires
            old(self).wf(),
            private_key.wf(),
        ensures
            final(self).wf(),
            final(self).g1s() == updated_powers_g1(old(self).g1s(), private_key.secret()),
            final(self).g2s() == updated_powers_g2(old(self).g2s(), private_key.secret()),
            final(self).g1s().len() == old(self).g1s().len(),
            final(self).g2s().len() == old(self).g2s().len(),
            final(self).g1s()[0] == old(self).g1s()[0],
            final(self).g2s()[0] == old(self).g2s()[0],
            proof.wf(),
            proof.commitment_to_secret@ == g2_mul_of(g2_generator_bytes(), private_key.secret()),
            proof.new_accumulated_point@ == final(self).g1s()[1],
            private_key.secret() == fr_zero_bytes() ==> (forall|i: int|
                1 <= i < final(self).g1s().len() ==> #[trigger] final(self).g1s()[i]
                    == g1_identity_bytes()) && (forall|j: int|
                1 <= j < final(self).g2s().len() ==> #[trigger] final(self).g2s()[j]
                    == g2_identity_bytes()),
            private_key.secret() == fr_one_bytes() ==> final(self).g1s() == old(self).g1s()
                && final(self).g2s() == old(self).g2s(),
    {
        let mut tau = private_key.tau;
        self.update_srs(&tau);
        let updated_tau = self.tau_g1[1].clone();
        let gen = G2Point::generator();
        let commitment_to_secret = g2_mul(&gen, &tau);
        tau.wipe();
        UpdateProof { commitment_to_secret, new_accumulated_point: updated_tau }
    }

    /// The in-place power-by-power multiplication of both vectors.
    fn update_srs(&mut self, private_key: &Scalar)
        requires
            old(self).wf(),
            fr_wf(private_key@),
        ensures
            final(self).wf(),
            final(self).tau_g1@.len() == old(self).tau_g1@.len(),
            final(self).tau_g2@.len() == old(self).tau_g2@.len(),
            final(self).g1s() == updated_powers_g1(old(self).g1s(), private_key@),
            final(self).g2s() == updated_powers_g2(old(self).g2s(), private_key@),
            private_key@ == fr_zero_bytes() ==> (forall|i: int|
                1 <= i < final(self).g1s().len() ==> #[trigger] final(self).g1s()[i]
                    == g1_identity_bytes()) && (forall|j: int|
                1 <= j < final(self).g2s().len() ==> #[trigger] final(self).g2s()[j]
                    == g2_identity_bytes()),
            private_key@ == fr_one_bytes() ==> final(self).g1s() == old(self).g1s()
                && final(self).g2s() == old(self).g2s(),
    {
        let len1 = self.tau_g1.len();
        let len2 = self.tau_g2.len();
        let max_number_elements = if len1 > len2 {
            len1
        } else {
            len2
        };
        let powers_of_priv_key = vandemonde_challenge(private_key, max_number_elements - 1);
        let mut i: usize = 1;
        while i < len1
            invariant
                old(self).wf(),
                fr_wf(private_key@),
                len1 == self.tau_g1@.len(),
                self.tau_g1@.len() == old(self).tau_g1@.len(),
                self.tau_g2@ == old(self).tau_g2@,
                1 <= i <= len1,
                powers_of_priv_key@.len() >= len1 - 1,
                forall|k: int|
                    0 <= k < powers_of_priv_key@.len() ==> (#[trigger] powers_of_priv_key@[k])@
                        == fr_pow(private_key@, (k + 1) as nat),
                forall|k: int|
                    0 <= k < powers_of_priv_key@.len() ==> fr_wf(
                        (#[trigger] powers_of_priv_key@[k])@,
                    ),
                private_key@ == fr_one_bytes() ==> forall|k: int|
                    0 <= k < powers_of_priv_key@.len() ==> (#[trigger] powers_of_priv_key@[k])@
                        == fr_one_bytes(),
                private_key@ == fr_zero_bytes() ==> forall|k: int|
                    0 <= k < powers_of_priv_key@.len() ==> (#[trigger] powers_of_priv_key@[k])@
                        == fr_zero_bytes(),
                self.tau_g1@[0] == old(self).tau_g1@[0],
                forall|k: int|
                    1 <= k < i ==> (#[trigger] self.tau_g1@[k])@ == g1_mul_of(
                        old(self).tau_g1@[k]@,
                        fr_pow(private_key@, k as nat),
                    ) && g1_wf(self.tau_g1@[k]@),
                forall|k: int| i <= k < len1 ==> self.tau_g1@[k] == old(self).tau_g1@[k],
                private_key@ == fr_zero_bytes() ==> forall|k: int|
                    1 <= k < i ==> (#[trigger] self.tau_g1@[k])@ == g1_identity_bytes(),
                private_key@ == fr_one_bytes() ==> forall|k: int|
                    1 <= k < i ==> (#[trigger] self.tau_g1@[k])@ == old(self).tau_g1@[k]@,
            decreases len1 - i,
        {
            let next = g1_mul(&self.tau_g1[i], &powers_of_priv_key[i - 1]);
            self.tau_g1[i] = next;
            i += 1;
        }
        let mut j: usize = 1;
        while j < len2
            invariant
                old(self).wf(),
                fr_wf(private_key@),
                len2 == self.tau_g2@.len(),
                self.tau_g2@.len() == old(self).tau_g2@.len(),
                self.tau_g1@.len() == old(self).tau_g1@.len(),
                forall|k: int| 0 <= k < self.tau_g1@.len() ==> g1_wf(#[trigger] self.tau_g1@[k]@),
                self.g1s() == updated_powers_g1(old(self).g1s(), private_key@),
                private_key@ == fr_zero_bytes() ==> forall|k: int|
                    1 <= k < self.tau_g1@.len() ==> (#[trigger] self.tau_g1@[k])@
                        == g1_identity_bytes(),
                private_key@ == fr_one_bytes() ==> self.g1s() == old(self).g1s(),
                1 <= j <= len2,
                powers_of_priv_key@.len() >= len2 - 1,
                forall|k: int|
                    0 <= k < powers_of_priv_key@.len() ==> (#[trigger] powers_of_priv_key@[k])@
                        == fr_pow(private_key@, (k + 1) as nat),
                forall|k: int|
                    0 <= k < powers_of_priv_key@.len() ==> fr_wf(
                        (#[trigger] powers_of_priv_key@[k])@,
                    ),
                private_key@ == fr_one_bytes() ==> forall|k: int|
                    0 <= k < powers_of_priv_key@.len() ==> (#[trigger] powers_of_priv_key@[k])@
                        == fr_one_bytes(),
                private_key@ == fr_zero_bytes() ==> forall|k: int|
                    0 <= k < powers_of_priv_key@.len() ==> (#[trigger] powers_of_priv_key@[k])@
                        == fr_zero_bytes(),
                self.tau_g2@[0] == old(self).tau_g2@[0],
                forall|k: int|
                    1 <= k < j ==> (#[trigger] self.tau_g2@[k])@ == g2_mul_of(
                        old(self).tau_g2@[k]@,
                        fr_pow(private_key@, k as nat),
                    ) && g2_wf(self.tau_g2@[k]@),
                forall|k: int| j <= k < len2 ==> self.tau_g2@[k] == old(self).tau_g2@[k],
                private_key@ == fr_zero_bytes() ==> forall|k: int|
                    1 <= k < j ==> (#[trigger] self.tau_g2@[k])@ == g2_identity_bytes(),
                private_key@ == fr_one_bytes() ==> forall|k: int|
                    1 <= k < j ==> (#[trigger] self.tau_g2@[k])@ == old(self).tau_g2@[k]@,
            decreases len2 - j,
        {
            let next = g2_mul(&self.tau_g2[j], &powers_of_priv_key[j - 1]);
            self.tau_g2[j] = next;
            j += 1;
        }
        proof {
            assert(self.g1s() =~= updated_powers_g1(old(self).g1s(), private_key@));
            assert(self.g2s() =~= updated_powers_g2(old(self).g2s(), private_key@));
            if private_key@ == fr_one_bytes() {
                assert(self.g1s() =~= old(self).g1s());
                assert(self.g2s() =~= old(self).g2s());
            }
        }
    }

    /// Verifies that the update proofs carry `before` to `after`: the list
    /// is nonempty and ends at `after`'s degree-1 element, the chain of
    /// pairing equations holds from `before`'s degree-1 element, neither
    /// degree-1 element of `after` is the identity, and `after` passes the
    /// batched structure check under the verifier's random challenge.
    ///
    /// An update with secret zero leaves the identity at degree 1 and is
    /// therefore always rejected.
    pub fn verify_updates(
        before: &SRS,
        after: &SRS,
        update_proofs: &Vec<UpdateProof>,
        random_element: &Scalar,
    ) -> (r: bool)
        requires
            before.wf(),
            after.wf(),
            fr_wf(random_element@),
            forall|i: int| 0 <= i < update_proofs@.len() ==> (#[trigger] update_proofs@[i]).wf(),
        ensures
            r == verify_updates_spec(
                before.g1s(),
                after.g1s(),
                after.g2s(),
                update_proofs@,
                random_element@,
            ),
            after.g1s()[1] == g1_identity_bytes() ==> r == false,
    {
        if update_proofs.len() == 0 {
            return false;
        }
        let last_update = &update_proofs[update_proofs.len() - 1];

        // 1. The updates must finish at the ending SRS.
        if !(after.tau_g1[1] == last_update.new_accumulated_point) {
            return false;
        }
        // 2. The update proofs must form a chain of updates.
        if !UpdateProof::verify_chain(&before.tau_g1[1], update_proofs) {
            return false;
        }
        // 3. The degree-1 components must not be the identity.  The other
        //    elements need no such check: the structure check fails if any
        //    of them is the identity while these are not.
        if after.tau_g1[1].is_identity() {
            return false;
        }
        if after.tau_g2[1].is_identity() {
            return false;
        }
        // 4. The new SRS must go up in incremental powers.
        if !after.structure_check_opt(random_element) {
            return false;
        }
        true
    }

    /// Verifies that a single update proof carries `before` to `after`.
    pub fn verify_update(
        before: &SRS,
        after: &SRS,
        update_proof: &UpdateProof,
        random_element: &Scalar,
    ) -> (r: bool)
        requires
            before.wf(),
            after.wf(),
            fr_wf(random_element@),
            update_proof.wf(),
        ensures
            r == verify_updates_spec(
                before.g1s(),
                after.g1s(),
                after.g2s(),
                seq![*update_proof],
                random_element@,
            ),
    {
        let mut proofs: Vec<UpdateProof> = Vec::new();
        proofs.push(update_proof.clone());
        let r = SRS::verify_updates(before, after, &proofs, random_element);
        proof {
            assert(chain_points(before.g1s()[1], proofs@) =~= chain_points(
                before.g1s()[1],
                seq![*update_proof],
            ));
            assert(chain_witnesses(proofs@) =~= chain_witnesses(seq![*update_proof]));
        }
        r
    }

    /// The batched structure check under a random challenge, one pairing
    /// comparison per group.
    pub fn structure_check_opt(&self, random_element: &Scalar) -> (r: bool)
        requires
            self.wf(),
            fr_wf(random_element@),
        ensures
            r == structure_check_batched_spec(self.g1s(), self.g2s(), random_element@),
    {
        // The check would pass for any SRS if the challenge were zero.
        if random_element.is_zero() {
            return false;
        }
        let len_g1 = self.tau_g1.len();
        let len_g2 = self.tau_g2.len();
        let max_number_elements = if len_g1 > len_g2 {
            len_g1
        } else {
            len_g2
        };
        let rand_pow = vandemonde_challenge(random_element, max_number_elements - 1);
        let ghost rho = Seq::new(
            (max_number_elements - 1) as nat,
            |k: int| fr_pow(random_element@, (k + 1) as nat),
        );
        proof {
            assert(rand_pow@.map_values(|s: Scalar| s@) =~= rho);
        }

        // G1: all elements but the last against all elements but the first.
        let l_points = clone_g1_range(&self.tau_g1, 0, len_g1 - 1);
        let r_points = clone_g1_range(&self.tau_g1, 1, len_g1);
        let scalars = clone_scalar_range(&rand_pow, 0, len_g1 - 1);
        proof {
            assert(l_points@.map_values(|p: G1Point| p@) =~= self.g1s().take(len_g1 - 1));
            assert(r_points@.map_values(|p: G1Point| p@) =~= self.g1s().skip(1));
            assert(scalars@.map_values(|s: Scalar| s@) =~= rho.take(len_g1 - 1));
        }
        let l_comm = g1_msm(&l_points, &scalars);
        let r_comm = g1_msm(&r_points, &scalars);
        if !pairings_equal(&l_comm, &self.tau_g2[1], &r_comm, &self.tau_g2[0]) {
            return false;
        }

        // G2: symmetrically.
        let l_points2 = clone_g2_range(&self.tau_g2, 0, len_g2 - 1);
        let r_points2 = clone_g2_range(&self.tau_g2, 1, len_g2);
        let scalars2 = clone_scalar_range(&rand_pow, 0, len_g2 - 1);
        proof {
            assert(l_points2@.map_values(|p: G2Point| p@) =~= self.g2s().take(len_g2 - 1));
            assert(r_points2@.map_values(|p: G2Point| p@) =~= self.g2s().skip(1));
            assert(scalars2@.map_values(|s: Scalar| s@) =~= rho.take(len_g2 - 1));
        }
        let l_comm2 = g2_msm(&l_points2, &scalars2);
        let r_comm2 = g2_msm(&r_points2, &scalars2);
        if !pairings_equal(&self.tau_g1[1], &l_comm2, &self.tau_g1[0], &r_comm2) {
            return false;
        }
        true
    }

    /// The pairwise structure check: one pairing equation per consecutive
    /// pair of powers.
    pub fn structure_check(&self) -> (r: bool)
        requires
            self.wf(),
        ensures
            r == structure_check_pairwise_spec(self.g1s(), self.g2s()),
    {
        let len_g1 = self.tau_g1.len();
        let len_g2 = self.tau_g2.len();
        let mut i: usize = 0;
        while i < len_g1 - 1
            invariant
                self.wf(),
                len_g1 == self.tau_g1@.len(),
                len_g2 == self.tau_g2@.len(),
                i <= len_g1 - 1,
                forall|k: int|
                    0 <= k < i ==> pairing_of(#[trigger] self.g1s()[k + 1], self.g2s()[0])
                        == pairing_of(self.g1s()[k], self.g2s()[1]),
            decreases len_g1 - 1 - i,
        {
            let ok = pairings_equal(
                &self.tau_g1[i + 1],
                &self.tau_g2[0],
                &self.tau_g1[i],
                &self.tau_g2[1],
            );
            if !ok {
                proof {
                    assert(pairing_of(self.g1s()[i as int + 1], self.g2s()[0]) != pairing_of(
                        self.g1s()[i as int],
                        self.g2s()[1],
                    ));
                }
                return false;
            }
            i += 1;
        }
        let mut j: usize = 0;
        while j < len_g2 - 1
            invariant
                self.wf(),
                len_g1 == self.tau_g1@.len(),
                len_g2 == self.tau_g2@.len(),
                j <= len_g2 - 1,
                forall|k: int|
                    0 <= k < len_g1 - 1 ==> pairing_of(#[trigger] self.g1s()[k + 1], self.g2s()[0])
                        == pairing_of(self.g1s()[k], self.g2s()[1]),
                forall|k: int|
                    0 <= k < j ==> pairing_of(self.g1s()[0], #[trigger] self.g2s()[k + 1])
                        == pairing_of(self.g1s()[1], self.g2s()[k]),
            decreases len_g2 - 1 - j,
        {
            let ok = pairings_equal(
                &self.tau_g1[0],
                &self.tau_g2[j + 1],
                &self.tau_g1[1],
                &self.tau_g2[j],
            );
            if !ok {
                proof {
                    assert(pairing_of(self.g1s()[0], self.g2s()[j as int + 1]) != pairing_of(
                        self.g1s()[1],
                        self.g2s()[j as int],
                    ));
                }
                return false;
            }
            j += 1;
        }
        true
    }

    /// Checks that every power lies in the prime-order subgroup, by the
    /// endomorphism checks; the points are on the curve by construction of
    /// their encodings.
    pub fn subgroup_check(&self) -> (r: bool)
        requires
            self.wf(),
        ensures
            r == subgroup_check_spec(self.g1s(), self.g2s()),
    {
        let len_g1 = self.tau_g1.len();
        let mut i: usize = 0;
        while i < len_g1
            invariant
                self.wf(),
                len_g1 == self.tau_g1@.len(),
                i <= len_g1,
                forall|k: int| 0 <= k < i ==> g1_in_subgroup_spec(#[trigger] self.g1s()[k]),
            decreases len_g1 - i,
        {
            if !crate::interop_subgroup_checks::g1::is_in_correct_subgroup_assuming_on_curve(
                &self.tau_g1[i],
            ) {
                proof {
                    assert(!g1_in_subgroup_spec(self.g1s()[i as int]));
                }
                return false;
            }
            i += 1;
        }
        let len_g2 = self.tau_g2.len();
        let mut j: usize = 0;
        while j < len_g2
            invariant
                self.wf(),
                len_g2 == self.tau_g2@.len(),
                j <= len_g2,
                forall|k: int| 0 <= k < self.g1s().len() ==> g1_in_subgroup_spec(
                    #[trigger] self.g1s()[k],
                ),
                forall|k: int| 0 <= k < j ==> g2_in_subgroup_spec(#[trigger] self.g2s()[k]),
            decreases len_g2 - j,
        {
            if !crate::interop_subgroup_checks::g2::is_in_correct_subgroup_assuming_on_curve(
                &self.tau_g2[j],
            ) {
                proof {
                    assert(!g2_in_subgroup_spec(self.g2s()[j as int]));
                }
                return false;
            }
            j += 1;
        }
        true
    }
}

/// The generator is never touched: an update carries the degree-0 element
/// of each group over unchanged, so it stays the generator through any
/// number of updates that started from a fresh SRS.
pub proof fn lemma_generator_unchanged(
    old_g1s: Seq<Seq<u8>>,
    old_g2s: Seq<Seq<u8>>,
    new_g1s: Seq<Seq<u8>>,
    new_g2s: Seq<Seq<u8>>,
    tau: Seq<u8>,
)
    requires
        old_g1s.len() > 0,
        old_g2s.len() > 0,
        old_g1s[0] == g1_generator_bytes(),
        old_g2s[0] == g2_generator_bytes(),
        new_g1s == updated_powers_g1(old_g1s, tau),
        new_g2s == updated_powers_g2(old_g2s, tau),
    ensures
        new_g1s[0] == g1_generator_bytes(),
        new_g2s[0] == g2_generator_bytes(),
{
}

/// Power structure: one update with secret tau on a fresh SRS leaves
/// tau^i times the generator at index i, in each group.
pub proof fn lemma_power_structure(
    old_g1s: Seq<Seq<u8>>,
    old_g2s: Seq<Seq<u8>>,
    new_g1s: Seq<Seq<u8>>,
    new_g2s: Seq<Seq<u8>>,
    tau: Seq<u8>,
)
    requires
        forall|k: int| 0 <= k < old_g1s.len() ==> #[trigger] old_g1s[k] == g1_generator_bytes(),
        forall|k: int| 0 <= k < old_g2s.len() ==> #[trigger] old_g2s[k] == g2_generator_bytes(),
        new_g1s == updated_powers_g1(old_g1s, tau),
        new_g2s == updated_powers_g2(old_g2s, tau),
    ensures
        forall|i: int|
            1 <= i < new_g1s.len() ==> #[trigger] new_g1s[i] == g1_mul_of(
                g1_generator_bytes(),
                fr_pow(tau, i as nat),
            ),
        forall|j: int|
            1 <= j < new_g2s.len() ==> #[trigger] new_g2s[j] == g2_mul_of(
                g2_generator_bytes(),
                fr_pow(tau, j as nat),
            ),
        new_g1s.len() > 0 ==> new_g1s[0] == g1_generator_bytes(),
        new_g2s.len() > 0 ==> new_g2s[0] == g2_generator_bytes(),
{
}

} // verus!
