//! A contributor's view of the four-slot ceremony: the same bundle of four
//! SRSs as the transcript, updated and verified with the contributor-facing
//! names.

use vstd::prelude::*;
use crate::hexstr::decode_hex;
use crate::curve_ops::g2_mul_of;
use crate::interop_point_encoding::{g1_generator_bytes, g2_generator_bytes};
use crate::keypair::PrivateKey;
use crate::scalar::{Scalar, fr_reduce, fr_wf};
use crate::sdk::{NUM_CEREMONIES, ceremonies, ceremony_params, secret_of_hex};
use crate::sdk::transcript::{dims_ok, fresh_srs, slot_updated, slot_verified};
use crate::serialisation::{SRSJson, envelope_slot_parses, srs_from_json_spec, srs_json_matches, string_views, strip_hex_prefix};
use crate::srs::{
    Parameters,
    SRS,
    subgroup_check_spec,
    updated_powers_g1,
    updated_powers_g2,
    verify_updates_spec,
};
use crate::update_proof::UpdateProof;

verus! {

pub struct Contribution {
    pub contributions: Vec<SRS>,
}

impl Contribution {
    pub open spec fn wf(&self) -> bool {
        &&& self.contributions@.len() == NUM_CEREMONIES
        &&& forall|i: int| 0 <= i < NUM_CEREMONIES ==> (#[trigger] self.contributions@[i]).wf()
    }
}

impl Default for Contribution {
    /// The starting contribution bundle: four fresh, generator-filled SRSs with the
    /// Ethereum dimensions.
    fn default() -> (d: Self)
        ensures
            d.wf(),
            dims_ok(d.contributions@),
            forall|i: int|
                0 <= i < NUM_CEREMONIES ==> fresh_srs(
                    #[trigger] d.contributions@[i],
                    ceremony_params(i),
                ),
    {
        let params = ceremonies();
        let mut sub_ceremonies: Vec<SRS> = Vec::new();
        sub_ceremonies.push(SRS::new(params[0]).unwrap());
        sub_ceremonies.push(SRS::new(params[1]).unwrap());
        sub_ceremonies.push(SRS::new(params[2]).unwrap());
        sub_ceremonies.push(SRS::new(params[3]).unwrap());
        Contribution { contributions: sub_ceremonies }
    }
}

/// Decodes one "0x"-prefixed hex secret into a scalar.
fn decode_secret(secret_hex: &str) -> (r: Option<Scalar>)
    ensures
        r matches Some(s) ==> secret_of_hex(secret_hex@) == Some(s@) && fr_wf(s@),
        r is None ==> secret_of_hex(secret_hex@) is None,
{
    let stripped = match strip_hex_prefix(secret_hex) {
        Some(t) => t,
        None => {
            return None;
        },
    };
    let bytes = match decode_hex(stripped) {
        Some(b) => b,
        None => {
            return None;
        },
    };
    Some(fr_reduce(&bytes))
}

/// Applies four hex-encoded secrets, one to each slot.  Fails exactly when
/// there are not four secrets, a slot's dimensions are wrong, or a secret
/// is not "0x"-prefixed hex; otherwise each slot is updated with its
/// decoded secret and the four update proofs come back alongside.
pub fn update_contribution(contribution: Contribution, secrets: Vec<String>) -> (r: Option<
    (Contribution, Vec<UpdateProof>),
>)
    requires
        contribution.wf(),
    ensures
        r is Some <==> (secrets@.len() == NUM_CEREMONIES && dims_ok(contribution.contributions@)
            && forall|i: int|
            0 <= i < NUM_CEREMONIES ==> secret_of_hex((#[trigger] secrets@[i])@) is Some),
        r matches Some(tp) ==> {
            &&& tp.0.wf()
            &&& tp.1@.len() == NUM_CEREMONIES
            &&& forall|i: int| 0 <= i < NUM_CEREMONIES ==> (#[trigger] tp.1@[i]).wf()
            &&& forall|i: int|
                0 <= i < NUM_CEREMONIES ==> (secret_of_hex((#[trigger] secrets@[i])@)
                    matches Some(tau) && slot_updated(
                    contribution.contributions@[i],
                    tp.0.contributions@[i],
                    tp.1@[i],
                    tau,
                ))
        },
{
    let ghost orig = contribution.contributions@;
    if secrets.len() != NUM_CEREMONIES {
        return None;
    }
    let params = ceremonies();
    let mut i: usize = 0;
    while i < NUM_CEREMONIES
        invariant
            contribution.wf(),
            secrets@.len() == NUM_CEREMONIES,
            params@.len() == NUM_CEREMONIES,
            forall|k: int| 0 <= k < NUM_CEREMONIES ==> #[trigger] params@[k] == ceremony_params(k),
            i <= NUM_CEREMONIES,
            forall|k: int|
                0 <= k < i ==> (#[trigger] contribution.contributions@[k]).g1s().len()
                    == ceremony_params(k).num_g1_elements_needed
                    && contribution.contributions@[k].g2s().len() == ceremony_params(
                    k,
                ).num_g2_elements_needed,
        decreases NUM_CEREMONIES - i,
    {
        if contribution.contributions[i].g1_elements().len() != params[i].num_g1_elements_needed {
            return None;
        }
        if contribution.contributions[i].g2_elements().len() != params[i].num_g2_elements_needed {
            return None;
        }
        i += 1;
    }

    let mut srss = contribution.contributions;
    let mut out_srs: Vec<SRS> = Vec::new();
    let mut update_proofs: Vec<UpdateProof> = Vec::new();
    let mut i: usize = 0;
    while i < NUM_CEREMONIES
        invariant
            secrets@.len() == NUM_CEREMONIES,
            orig.len() == NUM_CEREMONIES,
            forall|k: int| 0 <= k < NUM_CEREMONIES ==> (#[trigger] orig[k]).wf(),
            i <= NUM_CEREMONIES,
            srss@ == orig.skip(i as int),
            out_srs@.len() == i,
            update_proofs@.len() == i,
            forall|k: int| 0 <= k < i ==> (#[trigger] out_srs@[k]).wf(),
            forall|k: int| 0 <= k < i ==> (#[trigger] update_proofs@[k]).wf(),
            forall|k: int|
                0 <= k < i ==> (secret_of_hex((#[trigger] secrets@[k])@) matches Some(tau)
                    && slot_updated(orig[k], out_srs@[k], update_proofs@[k], tau)),
        decreases NUM_CEREMONIES - i,
    {
        let priv_key = match decode_secret(secrets[i].as_str()) {
            Some(s) => PrivateKey { tau: s },
            None => {
                return None;
            },
        };
        let mut srs = srss.remove(0);
        proof {
            assert(srs == orig[i as int]);
            assert(srss@ =~= orig.skip(i + 1 as int));
        }
        let update_proof = srs.update(priv_key);
        out_srs.push(srs);
        update_proofs.push(update_proof);
        i += 1;
    }
    proof {
        assert(dims_ok(orig));
    }
    Some((Contribution { contributions: out_srs }, update_proofs))
}

/// The conjunction of the four slots' subgroup checks.
pub fn contribution_subgroup_check(contribution: Contribution) -> (r: bool)
    requires
        contribution.wf(),
    ensures
        r == forall|i: int|
            0 <= i < NUM_CEREMONIES ==> subgroup_check_spec(
                (#[trigger] contribution.contributions@[i]).g1s(),
                contribution.contributions@[i].g2s(),
            ),
{
    let mut i: usize = 0;
    while i < NUM_CEREMONIES
        invariant
            contribution.wf(),
            i <= NUM_CEREMONIES,
            forall|k: int|
                0 <= k < i ==> subgroup_check_spec(
                    (#[trigger] contribution.contributions@[k]).g1s(),
                    contribution.contributions@[k].g2s(),
                ),
        decreases NUM_CEREMONIES - i,
    {
        if !contribution.contributions[i].subgroup_check() {
            return false;
        }
        i += 1;
    }
    true
}

/// Verifies, slot by slot, that the proofs carry the old bundle to the
/// new one, each under its own decoded random challenge.
pub fn contribution_verify_update(
    old_contribution: &Contribution,
    new_contribution: &Contribution,
    update_proofs: &Vec<UpdateProof>,
    random_hex_elements: Vec<String>,
) -> (r: bool)
    requires
        old_contribution.wf(),
        new_contribution.wf(),
        update_proofs@.len() == NUM_CEREMONIES,
        random_hex_elements@.len() == NUM_CEREMONIES,
        forall|i: int| 0 <= i < NUM_CEREMONIES ==> (#[trigger] update_proofs@[i]).wf(),
    ensures
        r == forall|i: int|
            0 <= i < NUM_CEREMONIES ==> slot_verified(
                old_contribution.contributions@[i],
                new_contribution.contributions@[i],
                #[trigger] update_proofs@[i],
                random_hex_elements@[i]@,
            ),
{
    let mut i: usize = 0;
    while i < NUM_CEREMONIES
        invariant
            old_contribution.wf(),
            new_contribution.wf(),
            update_proofs@.len() == NUM_CEREMONIES,
            random_hex_elements@.len() == NUM_CEREMONIES,
            forall|k: int| 0 <= k < NUM_CEREMONIES ==> (#[trigger] update_proofs@[k]).wf(),
            i <= NUM_CEREMONIES,
            forall|k: int|
                0 <= k < i ==> slot_verified(
                    old_contribution.contributions@[k],
                    new_contribution.contributions@[k],
                    #[trigger] update_proofs@[k],
                    random_hex_elements@[k]@,
                ),
        decreases NUM_CEREMONIES - i,
    {
        let element = match decode_secret(random_hex_elements[i].as_str()) {
            Some(s) => s,
            None => {
                proof {
                    assert(!slot_verified(
                        old_contribution.contributions@[i as int],
                        new_contribution.contributions@[i as int],
                        update_proofs@[i as int],
                        random_hex_elements@[i as int]@,
                    ));
                }
                return false;
            },
        };
        let ok = SRS::verify_update(
            &old_contribution.contributions[i],
            &new_contribution.contributions[i],
            &update_proofs[i],
            &element,
        );
        if !ok {
            proof {
                assert(!slot_verified(
                    old_contribution.contributions@[i as int],
                    new_contribution.contributions@[i as int],
                    update_proofs@[i as int],
                    random_hex_elements@[i as int]@,
                ));
            }
            return false;
        }
        i += 1;
    }
    true
}

/// The envelope form of a contribution bundle: one SRS envelope per slot.
#[derive(Debug, Clone)]
pub struct ContributionJSON {
    pub contributions: Vec<SRSJson>,
}

impl ContributionJSON {
    /// The envelope form of a contribution bundle.
    pub fn from_contribution(contribution: &Contribution) -> (r: ContributionJSON)
        requires
            contribution.wf(),
        ensures
            r.contributions@.len() == NUM_CEREMONIES,
            forall|i: int|
                0 <= i < NUM_CEREMONIES ==> srs_json_matches(
                    #[trigger] r.contributions@[i],
                    contribution.contributions@[i].g1s(),
                    contribution.contributions@[i].g2s(),
                ),
    {
        let mut sub_ceremonies: Vec<SRSJson> = Vec::new();
        let mut i: usize = 0;
        while i < NUM_CEREMONIES
            invariant
                contribution.wf(),
                i <= NUM_CEREMONIES,
                sub_ceremonies@.len() == i,
                forall|k: int|
                    0 <= k < i ==> srs_json_matches(
                        #[trigger] sub_ceremonies@[k],
                        contribution.contributions@[k].g1s(),
                        contribution.contributions@[k].g2s(),
                    ),
            decreases NUM_CEREMONIES - i,
        {
            sub_ceremonies.push(SRSJson::from_srs(&contribution.contributions[i]));
            i += 1;
        }
        ContributionJSON { contributions: sub_ceremonies }
    }

    /// The contribution bundle of an envelope; fails if any slot fails to
    /// parse under its own counts, or if there are not four slots.
    pub fn to_contribution(&self) -> (r: Option<Contribution>)
        ensures
            r matches Some(t) ==> t.wf() && self.contributions@.len() == NUM_CEREMONIES
                && forall|i: int|
                0 <= i < NUM_CEREMONIES ==> srs_from_json_spec(
                    string_views((#[trigger] self.contributions@[i]).powers_of_tau.g1_powers@),
                    string_views(self.contributions@[i].powers_of_tau.g2_powers@),
                    Parameters {
                        num_g1_elements_needed: self.contributions@[i].num_g1_powers,
                        num_g2_elements_needed: self.contributions@[i].num_g2_powers,
                    },
                ) == Some((t.contributions@[i].g1s(), t.contributions@[i].g2s())),
            r is None ==> !(self.contributions@.len() == NUM_CEREMONIES && forall|i: int|
                0 <= i < NUM_CEREMONIES ==> envelope_slot_parses(#[trigger] self.contributions@[i])),
    {
        if self.contributions.len() != NUM_CEREMONIES {
            return None;
        }
        let mut sub_ceremonies: Vec<SRS> = Vec::new();
        let mut i: usize = 0;
        while i < NUM_CEREMONIES
            invariant
                self.contributions@.len() == NUM_CEREMONIES,
                i <= NUM_CEREMONIES,
                sub_ceremonies@.len() == i,
                forall|k: int| 0 <= k < i ==> (#[trigger] sub_ceremonies@[k]).wf(),
                forall|k: int|
                    0 <= k < i ==> srs_from_json_spec(
                        string_views((#[trigger] self.contributions@[k]).powers_of_tau.g1_powers@),
                        string_views(self.contributions@[k].powers_of_tau.g2_powers@),
                        Parameters {
                            num_g1_elements_needed: self.contributions@[k].num_g1_powers,
                            num_g2_elements_needed: self.contributions@[k].num_g2_powers,
                        },
                    ) == Some((sub_ceremonies@[k].g1s(), sub_ceremonies@[k].g2s())),
            decreases NUM_CEREMONIES - i,
        {
            let srs = match self.contributions[i].to_srs() {
                Some(s) => s,
                None => {
                    proof {
                        assert(!envelope_slot_parses(self.contributions@[i as int]));
                    }
                    return None;
                },
            };
            sub_ceremonies.push(srs);
            i += 1;
        }
        Some(Contribution { contributions: sub_ceremonies })
    }
}

} // verus!
