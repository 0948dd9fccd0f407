//! An update proof shows two things: that the contributor knows the
//! discrete log of its public commitment, and that this discrete log was
//! used to carry an existing accumulated point to a new one.

use vstd::prelude::*;
use crate::interop_point_encoding::{G1Point, G2Point, g1_wf, g2_wf};
use crate::shared_secret::{SharedSecretChain, chain_ok};

verus! {

/// A contribution's effect: the commitment tau * g2 to the secret, and the
/// degree-1 element of the SRS after the update.
#[derive(Debug)]
pub struct UpdateProof {
    pub commitment_to_secret: G2Point,
    pub new_accumulated_point: G1Point,
}

impl Clone for UpdateProof {
    fn clone(&self) -> (r: Self)
        ensures
            r.commitment_to_secret@ == self.commitment_to_secret@,
            r.new_accumulated_point@ == self.new_accumulated_point@,
    {
        UpdateProof {
            commitment_to_secret: self.commitment_to_secret.clone(),
            new_accumulated_point: self.new_accumulated_point.clone(),
        }
    }
}

impl PartialEq for UpdateProof {
    fn eq(&self, other: &UpdateProof) -> (r: bool) {
        let c = self.commitment_to_secret == other.commitment_to_secret;
        let n = self.new_accumulated_point == other.new_accumulated_point;
        c && n
    }
}

impl vstd::std_specs::cmp::PartialEqSpecImpl for UpdateProof {
    open spec fn obeys_eq_spec() -> bool {
        true
    }

    open spec fn eq_spec(&self, other: &UpdateProof) -> bool {
        &&& self.commitment_to_secret@ == other.commitment_to_secret@
        &&& self.new_accumulated_point@ == other.new_accumulated_point@
    }
}

/// The accumulated points that a list of proofs claims, starting from a
/// given point.
pub open spec fn chain_points(start: Seq<u8>, proofs: Seq<UpdateProof>) -> Seq<Seq<u8>> {
    seq![start] + proofs.map_values(|p: UpdateProof| p.new_accumulated_point@)
}

/// The witnesses that a list of proofs exposes.
pub open spec fn chain_witnesses(proofs: Seq<UpdateProof>) -> Seq<Seq<u8>> {
    proofs.map_values(|p: UpdateProof| p.commitment_to_secret@)
}

impl UpdateProof {
    pub open spec fn wf(&self) -> bool {
        &&& g2_wf(self.commitment_to_secret@)
        &&& g1_wf(self.new_accumulated_point@)
    }

    /// Checks this single proof against a starting point: one pairing
    /// equation.
    pub fn verify(&self, starting_point: &G1Point) -> (r: bool)
        requires
            self.wf(),
            g1_wf(starting_point@),
        ensures
            r == chain_ok(
                seq![starting_point@, self.new_accumulated_point@],
                seq![self.commitment_to_secret@],
            ),
    {
        let mut chain = SharedSecretChain::starting_from(starting_point.clone());
        chain.extend(self.new_accumulated_point.clone(), self.commitment_to_secret.clone());
        let r = chain.verify();
        proof {
            assert(chain.points() =~= seq![starting_point@, self.new_accumulated_point@]);
            assert(chain.wits() =~= seq![self.commitment_to_secret@]);
        }
        r
    }

    /// Checks that the proofs form a chain of updates from `starting_point`:
    /// for each proof in order, the pairing equation links the previous
    /// accumulated point to the next under the proof's commitment.
    ///
    /// The list must not be empty.
    pub fn verify_chain(starting_point: &G1Point, update_proofs: &Vec<UpdateProof>) -> (r: bool)
        requires
            g1_wf(starting_point@),
            update_proofs@.len() >= 1,
            forall|i: int| 0 <= i < update_proofs@.len() ==> (#[trigger] update_proofs@[i]).wf(),
        ensures
            r == chain_ok(
                chain_points(starting_point@, update_proofs@),
                chain_witnesses(update_proofs@),
            ),
    {
        let mut chain = SharedSecretChain::starting_from(starting_point.clone());
        let mut i: usize = 0;
        while i < update_proofs.len()
            invariant
                g1_wf(starting_point@),
                i <= update_proofs@.len(),
                forall|k: int| 0 <= k < update_proofs@.len() ==> (#[trigger] update_proofs@[k]).wf(),
                chain.wf(),
                chain.points() == chain_points(starting_point@, update_proofs@.take(i as int)),
                chain.wits() == chain_witnesses(update_proofs@.take(i as int)),
            decreases update_proofs@.len() - i,
        {
            let p = &update_proofs[i];
            chain.extend(p.new_accumulated_point.clone(), p.commitment_to_secret.clone());
            proof {
                assert(chain.points() =~= chain_points(
                    starting_point@,
                    update_proofs@.take(i + 1 as int),
                ));
                assert(chain.wits() =~= chain_witnesses(update_proofs@.take(i + 1 as int)));
            }
            i += 1;
        }
        proof {
            assert(update_proofs@.take(update_proofs@.len() as int) =~= update_proofs@);
        }
        chain.verify()
    }
}

} // verus!
