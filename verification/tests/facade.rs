//! The four-slot ceremony facade: dimensions, secret decoding and the
//! slot-by-slot verification entry points.

use powers_of_tau::interop_point_encoding::G1Point;
use powers_of_tau::keypair::PrivateKey;
use powers_of_tau::sdk::contribution::{
    contribution_subgroup_check, update_contribution, Contribution, ContributionJSON,
};
use powers_of_tau::sdk::transcript::{
    transcript_subgroup_check, transcript_verify_update, update_transcript, Transcript,
    TranscriptJSON,
};
use powers_of_tau::sdk::{ceremonies, NUM_CEREMONIES};
use powers_of_tau::srs::SRS;

#[test]
fn ceremonies_have_ethereum_parameters() {
    let params = ceremonies();
    assert_eq!(params.len(), NUM_CEREMONIES);
    let expected = [4096usize, 8192, 16384, 32768];
    for i in 0..NUM_CEREMONIES {
        assert_eq!(params[i].num_g1_elements_needed, expected[i]);
        assert_eq!(params[i].num_g2_elements_needed, 65);
    }
}

#[test]
fn default_transcript_is_fresh() {
    let t = Transcript::default();
    assert_eq!(t.sub_ceremonies.len(), NUM_CEREMONIES);
    for (i, srs) in t.sub_ceremonies.iter().enumerate() {
        let params = ceremonies();
        assert_eq!(srs.g1_elements().len(), params[i].num_g1_elements_needed);
        assert_eq!(srs.g2_elements().len(), 65);
        assert_eq!(srs.g1_elements()[0], G1Point::generator());
    }
}

#[test]
fn update_transcript_rejects_wrong_dimensions() {
    let small = SRS::new_for_kzg(4);
    let t = Transcript {
        sub_ceremonies: vec![small.clone(), small.clone(), small.clone(), small],
    };
    let secrets = vec![
        "0x0102".to_string(),
        "0x0102".to_string(),
        "0x0102".to_string(),
        "0x0102".to_string(),
    ];
    assert!(update_transcript(t, secrets).is_none());
}

#[test]
fn update_transcript_rejects_wrong_secret_count() {
    let t = Transcript::default();
    let secrets = vec!["0x0102".to_string(), "0x0102".to_string()];
    assert!(update_transcript(t, secrets).is_none());
}

#[test]
fn update_transcript_rejects_malformed_secret() {
    let t = Transcript::default();
    // The first secret is missing its "0x" prefix.
    let secrets = vec![
        "0102".to_string(),
        "0x0102".to_string(),
        "0x0102".to_string(),
        "0x0102".to_string(),
    ];
    assert!(update_transcript(t, secrets).is_none());

    let t = Transcript::default();
    // A secret with a non-hex character.
    let secrets = vec![
        "0x01g2".to_string(),
        "0x0102".to_string(),
        "0x0102".to_string(),
        "0x0102".to_string(),
    ];
    assert!(update_transcript(t, secrets).is_none());
}

#[test]
fn update_contribution_rejects_malformed_secret() {
    let c = Contribution::default();
    let secrets = vec![
        "102".to_string(),
        "0x0102".to_string(),
        "0x0102".to_string(),
        "0x0102".to_string(),
    ];
    assert!(update_contribution(c, secrets).is_none());
}

#[test]
fn transcript_verify_update_rejects_bad_random() {
    let old = Transcript::default();
    let new = Transcript::default();
    let mut srs = SRS::new_for_kzg(2);
    let p = srs.update(PrivateKey::from_u64(7));
    let proofs = vec![p.clone(), p.clone(), p.clone(), p];
    // The first challenge is malformed hex.
    let randoms = vec![
        "123".to_string(),
        "0x7b".to_string(),
        "0x7b".to_string(),
        "0x7b".to_string(),
    ];
    assert!(!transcript_verify_update(&old, &new, &proofs, randoms));
}

#[test]
fn transcript_verify_update_rejects_mismatched_proofs() {
    let old = Transcript::default();
    let new = Transcript::default();
    let mut srs = SRS::new_for_kzg(2);
    let p = srs.update(PrivateKey::from_u64(7));
    // The proofs do not end at the new transcript's degree-1 elements.
    let proofs = vec![p.clone(), p.clone(), p.clone(), p];
    let randoms = vec![
        "0x7b".to_string(),
        "0x7b".to_string(),
        "0x7b".to_string(),
        "0x7b".to_string(),
    ];
    assert!(!transcript_verify_update(&old, &new, &proofs, randoms));
}

#[test]
fn small_bundle_subgroup_checks_pass() {
    let small = SRS::new_for_kzg(3);
    let t = Transcript {
        sub_ceremonies: vec![small.clone(), small.clone(), small.clone(), small.clone()],
    };
    assert!(transcript_subgroup_check(t));
    let c = Contribution {
        contributions: vec![small.clone(), small.clone(), small.clone(), small],
    };
    assert!(contribution_subgroup_check(c));
}

#[test]
fn transcript_json_roundtrip_small() {
    let mut small = SRS::new_for_kzg(3);
    small.update(PrivateKey::from_u64(11));
    let t = Transcript {
        sub_ceremonies: vec![small.clone(), small.clone(), small.clone(), small],
    };
    let json = TranscriptJSON::from_transcript(&t);
    assert_eq!(json.sub_ceremonies.len(), NUM_CEREMONIES);
    let back = json.to_transcript().unwrap();
    for i in 0..NUM_CEREMONIES {
        assert_eq!(back.sub_ceremonies[i], t.sub_ceremonies[i]);
    }
}

#[test]
fn contribution_json_roundtrip_small() {
    let mut small = SRS::new_for_kzg(3);
    small.update(PrivateKey::from_u64(13));
    let c = Contribution {
        contributions: vec![small.clone(), small.clone(), small.clone(), small],
    };
    let json = ContributionJSON::from_contribution(&c);
    let back = json.to_contribution().unwrap();
    for i in 0..NUM_CEREMONIES {
        assert_eq!(back.contributions[i], c.contributions[i]);
    }
}
