//! The transcript of the four-slot ceremony: one SRS per sub-ceremony,
//! updated in lockstep from four hex-encoded secrets and verified slot by
//! slot under four hex-encoded random challenges.

use vstd::prelude::*;
use crate::hexstr::decode_hex;
use crate::curve_ops::g2_mul_of;
use crate::interop_point_encoding::{g1_generator_bytes, g2_generator_bytes};
use crate::keypair::PrivateKey;
use crate::scalar::{Scalar, fr_reduce, fr_wf};
use crate::sdk::{NUM_CEREMONIES, ceremonies, ceremony_params, secret_of_hex};
use crate::serialisation::{SRSJson, envelope_slot_parses, srs_from_json_spec, srs_json_matches, string_views, strip_hex_prefix};
use crate::srs::{
    Parameters,
    SRS,
    subgroup_check_spec,
    updated_powers_g1,
    updated_powers_g2,
    verify_updates_spec,
};
use crate::update_proof::UpdateProof;

verus! {

/// Every power of a fresh SRS is its group's generator.
pub open spec fn fresh_srs(s: SRS, p: Parameters) -> bool {
    &&& s.g1s() == Seq::new(p.num_g1_elements_needed as nat, |i: int| g1_generator_bytes())
    &&& s.g2s() == Seq::new(p.num_g2_elements_needed as nat, |i: int| g2_generator_bytes())
}

/// Each slot has the dimensions of its sub-ceremony.
pub open spec fn dims_ok(ts: Seq<SRS>) -> bool {
    forall|i: int|
        0 <= i < NUM_CEREMONIES ==> (#[trigger] ts[i]).g1s().len() == ceremony_params(
            i,
        ).num_g1_elements_needed && ts[i].g2s().len() == ceremony_params(i).num_g2_elements_needed
}

/// One slot's update: the new SRS is the old one raised power-by-power to
/// `tau`, and the proof carries the commitment to `tau` and the new
/// degree-1 element.
pub open spec fn slot_updated(old_srs: SRS, new_srs: SRS, proof: UpdateProof, tau: Seq<u8>) -> bool {
    &&& new_srs.g1s() == updated_powers_g1(old_srs.g1s(), tau)
    &&& new_srs.g2s() == updated_powers_g2(old_srs.g2s(), tau)
    &&& proof.commitment_to_secret@ == g2_mul_of(g2_generator_bytes(), tau)
    &&& proof.new_accumulated_point@ == new_srs.g1s()[1]
}

/// One slot's verification: the challenge decodes and the single-proof
/// update check passes.
pub open spec fn slot_verified(
    before: SRS,
    after: SRS,
    proof: UpdateProof,
    rand_hex: Seq<char>,
) -> bool {
    &&& secret_of_hex(rand_hex) matches Some(rand) && verify_updates_spec(
        before.g1s(),
        after.g1s(),
        after.g2s(),
        seq![proof],
        rand,
    )
}

pub struct Transcript {
    pub sub_ceremonies: Vec<SRS>,
}

impl Transcript {
    pub open spec fn wf(&self) -> bool {
        &&& self.sub_ceremonies@.len() == NUM_CEREMONIES
        &&& forall|i: int| 0 <= i < NUM_CEREMONIES ==> (#[trigger] self.sub_ceremonies@[i]).wf()
    }
}

impl Default for Transcript {
    /// The starting transcript: four fresh, generator-filled SRSs with the
    /// Ethereum dimensions.
    fn default() -> (d: Self)
        ensures
            d.wf(),
            dims_ok(d.sub_ceremonies@),
            forall|i: int|
                0 <= i < NUM_CEREMONIES ==> fresh_srs(
                    #[trigger] d.sub_ceremonies@[i],
                    ceremony_params(i),
                ),
    {
        let params = ceremonies();
        let mut sub_ceremonies: Vec<SRS> = Vec::new();
        sub_ceremonies.push(SRS::new(params[0]).unwrap());
        sub_ceremonies.push(SRS::new(params[1]).unwrap());
        sub_ceremonies.push(SRS::new(params[2]).unwrap());
        sub_ceremonies.push(SRS::new(params[3]).unwrap());
        Transcript { sub_ceremonies }
    }
}

/// Decodes one "0x"-prefixed hex secret into a scalar.
fn decode_secret(secret_hex: &str) -> (r: Option<Scalar>)
    ensures
        r matches Some(s) ==> secret_of_hex(secret_hex@) == Some(s@) && fr_wf(s@),
        r is None ==> secret_of_hex(secret_hex@) is None,
{
    let stripped = match strip_hex_prefix(secret_hex) {
        Some(t) => t,
        None => {
            return None;
        },
    };
    let bytes = match decode_hex(stripped) {
        Some(b) => b,
        None => {
            return None;
        },
    };
    Some(fr_reduce(&bytes))
}

/// Applies four hex-encoded secrets, one to each slot.  Fails exactly when
/// there are not four secrets, a slot's dimensions are wrong, or a secret
/// is not "0x"-prefixed hex; otherwise each slot is updated with its
/// decoded secret and the four update proofs come back alongside.
pub fn update_transcript(transcript: Transcript, secrets: Vec<String>) -> (r: Option<
    (Transcript, Vec<UpdateProof>),
>)
    requires
        transcript.wf(),
    ensures
        r is Some <==> (secrets@.len() == NUM_CEREMONIES && dims_ok(transcript.sub_ceremonies@)
            && forall|i: int|
            0 <= i < NUM_CEREMONIES ==> secret_of_hex((#[trigger] secrets@[i])@) is Some),
        r matches Some(tp) ==> {
            &&& tp.0.wf()
            &&& tp.1@.len() == NUM_CEREMONIES
            &&& forall|i: int| 0 <= i < NUM_CEREMONIES ==> (#[trigger] tp.1@[i]).wf()
            &&& forall|i: int|
                0 <= i < NUM_CEREMONIES ==> (secret_of_hex((#[trigger] secrets@[i])@)
                    matches Some(tau) && slot_updated(
                    transcript.sub_ceremonies@[i],
                    tp.0.sub_ceremonies@[i],
                    tp.1@[i],
                    tau,
                ))
        },
{
    let ghost orig = transcript.sub_ceremonies@;
    if secrets.len() != NUM_CEREMONIES {
        return None;
    }
    let params = ceremonies();
    let mut i: usize = 0;
    while i < NUM_CEREMONIES
        invariant
            transcript.wf(),
            secrets@.len() == NUM_CEREMONIES,
            params@.len() == NUM_CEREMONIES,
            forall|k: int| 0 <= k < NUM_CEREMONIES ==> #[trigger] params@[k] == ceremony_params(k),
            i <= NUM_CEREMONIES,
            forall|k: int|
                0 <= k < i ==> (#[trigger] transcript.sub_ceremonies@[k]).g1s().len()
                    == ceremony_params(k).num_g1_elements_needed
                    && transcript.sub_ceremonies@[k].g2s().len() == ceremony_params(
                    k,
                ).num_g2_elements_needed,
        decreases NUM_CEREMONIES - i,
    {
        if transcript.sub_ceremonies[i].g1_elements().len() != params[i].num_g1_elements_needed {
            return None;
        }
        if transcript.sub_ceremonies[i].g2_elements().len() != params[i].num_g2_elements_needed {
            return None;
        }
        i += 1;
    }

    let mut srss = transcript.sub_ceremonies;
    let mut out_srs: Vec<SRS> = Vec::new();
    let mut update_proofs: Vec<UpdateProof> = Vec::new();
    let mut i: usize = 0;
    while i < NUM_CEREMONIES
        invariant
            secrets@.len() == NUM_CEREMONIES,
            orig.len() == NUM_CEREMONIES,
            forall|k: int| 0 <= k < NUM_CEREMONIES ==> (#[trigger] orig[k]).wf(),
            i <= NUM_CEREMONIES,
            srss@ == orig.skip(i as int),
            out_srs@.len() == i,
            update_proofs@.len() == i,
            forall|k: int| 0 <= k < i ==> (#[trigger] out_srs@[k]).wf(),
            forall|k: int| 0 <= k < i ==> (#[trigger] update_proofs@[k]).wf(),
            forall|k: int|
                0 <= k < i ==> (secret_of_hex((#[trigger] secrets@[k])@) matches Some(tau)
                    && slot_updated(orig[k], out_srs@[k], update_proofs@[k], tau)),
        decreases NUM_CEREMONIES - i,
    {
        let priv_key = match decode_secret(secrets[i].as_str()) {
            Some(s) => PrivateKey { tau: s },
            None => {
                return None;
            },
        };
        let mut srs = srss.remove(0);
        proof {
            assert(srs == orig[i as int]);
            assert(srss@ =~= orig.skip(i + 1 as int));
        }
        let update_proof = srs.update(priv_key);
        out_srs.push(srs);
        update_proofs.push(update_proof);
        i += 1;
    }
    proof {
        assert(dims_ok(orig));
    }
    Some((Transcript { sub_ceremonies: out_srs }, update_proofs))
}

/// The conjunction of the four slots' subgroup checks.
pub fn transcript_subgroup_check(transcript: Transcript) -> (r: bool)
    requires
        transcript.wf(),
    ensures
        r == forall|i: int|
            0 <= i < NUM_CEREMONIES ==> subgroup_check_spec(
                (#[trigger] transcript.sub_ceremonies@[i]).g1s(),
                transcript.sub_ceremonies@[i].g2s(),
            ),
{
    let mut i: usize = 0;
    while i < NUM_CEREMONIES
        invariant
            transcript.wf(),
            i <= NUM_CEREMONIES,
            forall|k: int|
                0 <= k < i ==> subgroup_check_spec(
                    (#[trigger] transcript.sub_ceremonies@[k]).g1s(),
                    transcript.sub_ceremonies@[k].g2s(),
                ),
        decreases NUM_CEREMONIES - i,
    {
        if !transcript.sub_ceremonies[i].subgroup_check() {
            return false;
        }
        i += 1;
    }
    true
}

/// Verifies, slot by slot, that the proofs carry the old transcript to the
/// new one, each under its own decoded random challenge.
pub fn transcript_verify_update(
    old_transcript: &Transcript,
    new_transcript: &Transcript,
    update_proofs: &Vec<UpdateProof>,
    random_hex_elements: Vec<String>,
) -> (r: bool)
    requires
        old_transcript.wf(),
        new_transcript.wf(),
        update_proofs@.len() == NUM_CEREMONIES,
        random_hex_elements@.len() == NUM_CEREMONIES,
        forall|i: int| 0 <= i < NUM_CEREMONIES ==> (#[trigger] update_proofs@[i]).wf(),
    ensures
        r == forall|i: int|
            0 <= i < NUM_CEREMONIES ==> slot_verified(
                old_transcript.sub_ceremonies@[i],
                new_transcript.sub_ceremonies@[i],
                #[trigger] update_proofs@[i],
                random_hex_elements@[i]@,
            ),
{
    let mut i: usize = 0;
    while i < NUM_CEREMONIES
        invariant
            old_transcript.wf(),
            new_transcript.wf(),
            update_proofs@.len() == NUM_CEREMONIES,
            random_hex_elements@.len() == NUM_CEREMONIES,
            forall|k: int| 0 <= k < NUM_CEREMONIES ==> (#[trigger] update_proofs@[k]).wf(),
            i <= NUM_CEREMONIES,
            forall|k: int|
                0 <= k < i ==> slot_verified(
                    old_transcript.sub_ceremonies@[k],
                    new_transcript.sub_ceremonies@[k],
                    #[trigger] update_proofs@[k],
                    random_hex_elements@[k]@,
                ),
        decreases NUM_CEREMONIES - i,
    {
        let element = match decode_secret(random_hex_elements[i].as_str()) {
            Some(s) => s,
            None => {
                proof {
                    assert(!slot_verified(
                        old_transcript.sub_ceremonies@[i as int],
                        new_transcript.sub_ceremonies@[i as int],
                        update_proofs@[i as int],
                        random_hex_elements@[i as int]@,
                    ));
                }
                return false;
            },
        };
        let ok = SRS::verify_update(
            &old_transcript.sub_ceremonies[i],
            &new_transcript.sub_ceremonies[i],
            &update_proofs[i],
            &element,
        );
        if !ok {
            proof {
                assert(!slot_verified(
                    old_transcript.sub_ceremonies@[i as int],
                    new_transcript.sub_ceremonies@[i as int],
                    update_proofs@[i as int],
                    random_hex_elements@[i as int]@,
                ));
            }
            return false;
        }
        i += 1;
    }
    true
}

/// The envelope form of a transcript: one SRS envelope per slot.
#[derive(Debug, Clone)]
pub struct TranscriptJSON {
    pub sub_ceremonies: Vec<SRSJson>,
}

impl TranscriptJSON {
    /// The envelope form of a transcript.
    pub fn from_transcript(transcript: &Transcript) -> (r: TranscriptJSON)
        requires
            transcript.wf(),
        ensures
            r.sub_ceremonies@.len() == NUM_CEREMONIES,
            forall|i: int|
                0 <= i < NUM_CEREMONIES ==> srs_json_matches(
                    #[trigger] r.sub_ceremonies@[i],
                    transcript.sub_ceremonies@[i].g1s(),
                    transcript.sub_ceremonies@[i].g2s(),
                ),
    {
        let mut sub_ceremonies: Vec<SRSJson> = Vec::new();
        let mut i: usize = 0;
        while i < NUM_CEREMONIES
            invariant
                transcript.wf(),
                i <= NUM_CEREMONIES,
                sub_ceremonies@.len() == i,
                forall|k: int|
                    0 <= k < i ==> srs_json_matches(
                        #[trigger] sub_ceremonies@[k],
                        transcript.sub_ceremonies@[k].g1s(),
                        transcript.sub_ceremonies@[k].g2s(),
                    ),
            decreases NUM_CEREMONIES - i,
        {
            sub_ceremonies.push(SRSJson::from_srs(&transcript.sub_ceremonies[i]));
            i += 1;
        }
        TranscriptJSON { sub_ceremonies }
    }

    /// The transcript of an envelope; fails if any slot fails to parse
    /// under its own counts, or if there are not four slots.
    pub fn to_transcript(&self) -> (r: Option<Transcript>)
        ensures
            r matches Some(t) ==> t.wf() && self.sub_ceremonies@.len() == NUM_CEREMONIES
                && forall|i: int|
                0 <= i < NUM_CEREMONIES ==> srs_from_json_spec(
                    string_views((#[trigger] self.sub_ceremonies@[i]).powers_of_tau.g1_powers@),
                    string_views(self.sub_ceremonies@[i].powers_of_tau.g2_powers@),
                    Parameters {
                        num_g1_elements_needed: self.sub_ceremonies@[i].num_g1_powers,
                        num_g2_elements_needed: self.sub_ceremonies@[i].num_g2_powers,
                    },
                ) == Some((t.sub_ceremonies@[i].g1s(), t.sub_ceremonies@[i].g2s())),
            r is None ==> !(self.sub_ceremonies@.len() == NUM_CEREMONIES && forall|i: int|
                0 <= i < NUM_CEREMONIES ==> envelope_slot_parses(#[trigger] self.sub_ceremonies@[i])),
    {
        if self.sub_ceremonies.len() != NUM_CEREMONIES {
            return None;
        }
        let mut sub_ceremonies: Vec<SRS> = Vec::new();
        let mut i: usize = 0;
        while i < NUM_CEREMONIES
            invariant
                self.sub_ceremonies@.len() == NUM_CEREMONIES,
                i <= NUM_CEREMONIES,
                sub_ceremonies@.len() == i,
                forall|k: int| 0 <= k < i ==> (#[trigger] sub_ceremonies@[k]).wf(),
                forall|k: int|
                    0 <= k < i ==> srs_from_json_spec(
                        string_views((#[trigger] self.sub_ceremonies@[k]).powers_of_tau.g1_powers@),
                        string_views(self.sub_ceremonies@[k].powers_of_tau.g2_powers@),
                        Parameters {
                            num_g1_elements_needed: self.sub_ceremonies@[k].num_g1_powers,
                            num_g2_elements_needed: self.sub_ceremonies@[k].num_g2_powers,
                        },
                    ) == Some((sub_ceremonies@[k].g1s(), sub_ceremonies@[k].g2s())),
            decreases NUM_CEREMONIES - i,
        {
            let srs = match self.sub_ceremonies[i].to_srs() {
                Some(s) => s,
                None => {
                    proof {
                        assert(!envelope_slot_parses(self.sub_ceremonies@[i as int]));
                    }
                    return None;
                },
            };
            sub_ceremonies.push(srs);
            i += 1;
        }
        Some(Transcript { sub_ceremonies })
    }
}

} // verus!
