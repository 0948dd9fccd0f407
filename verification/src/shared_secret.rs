//! A chain of accumulated G1 points with G2 witnesses: each step claims
//! that the next point is the previous one multiplied by the discrete log
//! of its witness, and the claim is checked by a pairing equation.
//!
//! Given the point P = (a * b * c) * g1, such a chain shows that P was
//! built in steps g1 -> a*g1 -> (a*b)*g1 -> (a*b*c)*g1, with a commitment
//! s*g2 exposed for each step's secret s.

use vstd::prelude::*;
use crate::curve_ops::{pairing_of, pairings_equal};
use crate::interop_point_encoding::{G1Point, G2Point, g1_wf, g2_wf, g2_generator_bytes};

verus! {

/// Every consecutive pair of accumulated points is linked by its witness:
/// pairing(next, g2) equals pairing(previous, witness).
pub open spec fn chain_ok(ps: Seq<Seq<u8>>, ws: Seq<Seq<u8>>) -> bool {
    forall|k: int|
        0 <= k < ws.len() ==> pairing_of(#[trigger] ps[k + 1], g2_generator_bytes())
            == pairing_of(ps[k], ws[k])
}

pub struct SharedSecretChain {
    pub accumulated_points: Vec<G1Point>,
    pub witnesses: Vec<G2Point>,
}

impl SharedSecretChain {
    /// The encodings of the accumulated points.
    pub open spec fn points(&self) -> Seq<Seq<u8>> {
        self.accumulated_points@.map_values(|p: G1Point| p@)
    }

    /// The encodings of the witnesses.
    pub open spec fn wits(&self) -> Seq<Seq<u8>> {
        self.witnesses@.map_values(|p: G2Point| p@)
    }

    pub open spec fn wf(&self) -> bool {
        &&& self.accumulated_points@.len() == self.witnesses@.len() + 1
        &&& forall|i: int|
            0 <= i < self.accumulated_points@.len() ==> g1_wf(
                #[trigger] self.accumulated_points@[i]@,
            )
        &&& forall|i: int| 0 <= i < self.witnesses@.len() ==> g2_wf(#[trigger] self.witnesses@[i]@)
    }

    /// A chain of one point and no witnesses.
    pub fn starting_from(starting_point: G1Point) -> (r: Self)
        requires
            g1_wf(starting_point@),
        ensures
            r.wf(),
            r.points() == seq![starting_point@],
            r.wits() == Seq::<Seq<u8>>::empty(),
    {
        let mut accumulated_points: Vec<G1Point> = Vec::new();
        let ghost sp = starting_point@;
        accumulated_points.push(starting_point);
        let r = SharedSecretChain { accumulated_points, witnesses: Vec::new() };
        proof {
            assert(r.points() =~= seq![sp]);
            assert(r.wits() =~= Seq::<Seq<u8>>::empty());
        }
        r
    }

    /// Extends the chain with a new accumulated point and the witness for
    /// the transition to it.
    pub fn extend(&mut self, new_accumulated_point: G1Point, witness: G2Point)
        requires
            old(self).wf(),
            g1_wf(new_accumulated_point@),
            g2_wf(witness@),
        ensures
            final(self).wf(),
            final(self).points() == old(self).points().push(new_accumulated_point@),
            final(self).wits() == old(self).wits().push(witness@),
    {
        let ghost np = new_accumulated_point@;
        let ghost wp = witness@;
        self.accumulated_points.push(new_accumulated_point);
        self.witnesses.push(witness);
        proof {
            assert(self.points() =~= old(self).points().push(np));
            assert(self.wits() =~= old(self).wits().push(wp));
        }
    }

    /// Drops the last accumulated point and witness.
    pub fn remove_last(&mut self)
        requires
            old(self).wf(),
            old(self).wits().len() >= 1,
        ensures
            final(self).wf(),
            final(self).points() == old(self).points().drop_last(),
            final(self).wits() == old(self).wits().drop_last(),
    {
        self.accumulated_points.pop();
        self.witnesses.pop();
        proof {
            assert(self.points() =~= old(self).points().drop_last());
            assert(self.wits() =~= old(self).wits().drop_last());
        }
    }

    /// Checks every link of the chain by its pairing equation.
    pub fn verify(&self) -> (r: bool)
        requires
            self.wf(),
        ensures
            r == chain_ok(self.points(), self.wits()),
    {
        let gen = G2Point::generator();
        let mut k: usize = 0;
        while k < self.witnesses.len()
            invariant
                self.wf(),
                k <= self.witnesses@.len(),
                gen@ == g2_generator_bytes(),
                g2_wf(gen@),
                forall|j: int|
                    0 <= j < k ==> pairing_of(#[trigger] self.points()[j + 1], g2_generator_bytes())
                        == pairing_of(self.points()[j], self.wits()[j]),
            decreases self.witnesses@.len() - k,
        {
            let ok = pairings_equal(
                &self.accumulated_points[k + 1],
                &gen,
                &self.accumulated_points[k],
                &self.witnesses[k],
            );
            if !ok {
                proof {
                    assert(pairing_of(self.points()[k as int + 1], g2_generator_bytes())
                        != pairing_of(self.points()[k as int], self.wits()[k as int]));
                }
                return false;
            }
            k += 1;
        }
        true
    }
}

} // verus!
