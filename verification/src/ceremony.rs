//! Checks run once a ceremony is over: the whole proof chain against the
//! starting and final SRS, and the position at which a given public key
//! contributed.

use vstd::prelude::*;
use crate::interop_point_encoding::{G2Point, g2_wf};
use crate::scalar::{Scalar, fr_wf};
use crate::srs::{SRS, verify_updates_spec};
use crate::update_proof::UpdateProof;

verus! {

pub struct Ceremony;

impl Ceremony {
    /// Verifies that the final SRS was reached from the starting one
    /// through exactly the given update proofs, under the verifier's
    /// random challenge.
    pub fn verify(
        starting_srs: &SRS,
        final_srs: &SRS,
        update_proofs: &Vec<UpdateProof>,
        random_element: &Scalar,
    ) -> (r: bool)
        requires
            starting_srs.wf(),
            final_srs.wf(),
            fr_wf(random_element@),
            forall|i: int| 0 <= i < update_proofs@.len() ==> (#[trigger] update_proofs@[i]).wf(),
        ensures
            r == verify_updates_spec(
                starting_srs.g1s(),
                final_srs.g1s(),
                final_srs.g2s(),
                update_proofs@,
                random_element@,
            ),
    {
        SRS::verify_updates(starting_srs, final_srs, update_proofs, random_element)
    }

    /// The position of the first proof whose commitment is `public_key`,
    /// if any proof carries it.
    fn find_contribution(update_proofs: &Vec<UpdateProof>, public_key: &G2Point) -> (r: Option<
        u64,
    >)
        requires
            update_proofs@.len() <= u64::MAX,
        ensures
            r matches Some(pos) ==> pos < update_proofs@.len()
                && update_proofs@[pos as int].commitment_to_secret@ == public_key@ && forall|j: int|
                0 <= j < pos ==> (#[trigger] update_proofs@[j]).commitment_to_secret@
                    != public_key@,
            r is None ==> forall|j: int|
                0 <= j < update_proofs@.len() ==> (#[trigger] update_proofs@[j]).commitment_to_secret@
                    != public_key@,
    {
        let mut i: usize = 0;
        while i < update_proofs.len()
            invariant
                update_proofs@.len() <= u64::MAX,
                i <= update_proofs@.len(),
                forall|j: int|
                    0 <= j < i ==> (#[trigger] update_proofs@[j]).commitment_to_secret@
                        != public_key@,
            decreases update_proofs@.len() - i,
        {
            if update_proofs[i].commitment_to_secret == *public_key {
                return Some(i as u64);
            }
            i += 1;
        }
        None
    }

    /// Verifies the ceremony and reports where the given public key
    /// contributed: the index of the first proof committing to it, or
    /// nothing if no proof does.
    pub fn verify_and_find_contribution(
        starting_srs: &SRS,
        final_srs: &SRS,
        update_proofs: &Vec<UpdateProof>,
        public_key: &G2Point,
        random_element: &Scalar,
    ) -> (r: (bool, Option<u64>))
        requires
            starting_srs.wf(),
            final_srs.wf(),
            fr_wf(random_element@),
            g2_wf(public_key@),
            forall|i: int| 0 <= i < update_proofs@.len() ==> (#[trigger] update_proofs@[i]).wf(),
            update_proofs@.len() <= u64::MAX,
        ensures
            r.0 == verify_updates_spec(
                starting_srs.g1s(),
                final_srs.g1s(),
                final_srs.g2s(),
                update_proofs@,
                random_element@,
            ),
            r.1 matches Some(pos) ==> pos < update_proofs@.len()
                && update_proofs@[pos as int].commitment_to_secret@ == public_key@ && forall|j: int|
                0 <= j < pos ==> (#[trigger] update_proofs@[j]).commitment_to_secret@
                    != public_key@,
            r.1 is None ==> forall|j: int|
                0 <= j < update_proofs@.len() ==> (#[trigger] update_proofs@[j]).commitment_to_secret@
                    != public_key@,
    {
        let ok = Ceremony::verify(starting_srs, final_srs, update_proofs, random_element);
        let position = Ceremony::find_contribution(update_proofs, public_key);
        (ok, position)
    }
}

} // verus!
