//! The SRS core: updates, proof chains, structure checks, and the
//! rejection of degenerate secrets.

use ark_ec::{AffineCurve, ProjectiveCurve};
use ark_ff::{BigInteger, Field, PrimeField};
use powers_of_tau::interop_point_encoding::{deserialize_g1, deserialize_g2, serialize_g1, G1Point, G2Point};
use powers_of_tau::ceremony::Ceremony;
use powers_of_tau::keypair::PrivateKey;
use powers_of_tau::scalar::Scalar;
use powers_of_tau::shared_secret::SharedSecretChain;
use powers_of_tau::srs::SRS;
use powers_of_tau::update_proof::UpdateProof;

fn encode_ark_g1(p: &ark_bls12_381::G1Affine) -> Vec<u8> {
    let mut out = if p.infinity {
        vec![0u8; 48]
    } else {
        p.x.into_repr().to_bytes_be()
    };
    out[0] |= 0x80;
    if p.infinity {
        out[0] |= 0x40;
    } else if p.y > -p.y {
        out[0] |= 0x20;
    }
    out
}

fn encode_ark_g2(p: &ark_bls12_381::G2Affine) -> Vec<u8> {
    let mut out = if p.infinity {
        vec![0u8; 96]
    } else {
        let mut v = p.x.c1.into_repr().to_bytes_be();
        v.append(&mut p.x.c0.into_repr().to_bytes_be());
        v
    };
    out[0] |= 0x80;
    if p.infinity {
        out[0] |= 0x40;
    } else if p.y > -p.y {
        out[0] |= 0x20;
    }
    out
}

fn g1_times(n: u64) -> G1Point {
    let p = ark_bls12_381::G1Affine::prime_subgroup_generator()
        .mul(ark_bls12_381::Fr::from(n).into_repr())
        .into_affine();
    deserialize_g1(&encode_ark_g1(&p)).expect("a curve point must decode")
}

fn g2_times(n: u64) -> G2Point {
    let p = ark_bls12_381::G2Affine::prime_subgroup_generator()
        .mul(ark_bls12_381::Fr::from(n).into_repr())
        .into_affine();
    deserialize_g2(&encode_ark_g2(&p)).expect("a curve point must decode")
}

#[test]
fn srs_reject_private_key_zero() {
    // One cannot update the SRS using 0.
    let before = SRS::new_for_kzg(100);
    let mut after = before.clone();

    let secret = PrivateKey::from_u64(0);
    let update_proof = after.update(secret);

    assert_eq!(after.g1_elements()[1], G1Point::identity());
    assert!(!SRS::verify_update(
        &before,
        &after,
        &update_proof,
        &Scalar::from_u64(123456789)
    ));
}

#[test]
fn update_works() {
    // Updating the SRS multiplies index i by tau^i in both groups.
    let mut got_srs = SRS::new_for_kzg(100);
    let secret_fr = ark_bls12_381::Fr::from(123456789u64);

    let secret = PrivateKey::from_u64(123456789);
    got_srs.update(secret);

    let g1 = ark_bls12_381::G1Affine::prime_subgroup_generator();
    let g2 = ark_bls12_381::G2Affine::prime_subgroup_generator();
    for (index, tg1) in got_srs.g1_elements().iter().enumerate() {
        let secret_pow_i = secret_fr.pow(&[index as u64]);
        let expected = g1.mul(secret_pow_i.into_repr()).into_affine();
        assert_eq!(*tg1, deserialize_g1(&encode_ark_g1(&expected)).unwrap());
    }
    for (index, tg2) in got_srs.g2_elements().iter().enumerate() {
        let secret_pow_i = secret_fr.pow(&[index as u64]);
        let expected = g2.mul(secret_pow_i.into_repr()).into_affine();
        assert_eq!(*tg2, deserialize_g2(&encode_ark_g2(&expected)).unwrap());
    }
}

#[test]
fn acc_smoke() {
    let secret_a = PrivateKey::from_u64(252);
    let secret_b = PrivateKey::from_u64(512);
    let secret_c = PrivateKey::from_u64(789);

    let mut acc = SRS::new_for_kzg(100);

    // Simulate 3 participants updating the srs, one after the other.
    let before_update_1_degree_1 = acc.g1_elements()[1].clone();
    let update_proof_1 = acc.update(secret_a);
    let update_proof_2 = acc.update(secret_b);
    let update_proof_3 = acc.update(secret_c);

    // If elements in the vector are out of place, the proof fails too.
    assert!(UpdateProof::verify_chain(
        &before_update_1_degree_1,
        &vec![update_proof_1, update_proof_2, update_proof_3]
    ));

    // 252 * 512 * 789 = 101_799_936.
    assert_eq!(acc.g1_elements()[1], g1_times(101_799_936));
}

#[test]
fn structure_checks_probabilistic() {
    let secret_a = PrivateKey::from_u64(252);

    let mut acc = SRS::new_for_kzg(100);
    acc.update(secret_a);
    assert!(acc.structure_check_opt(&Scalar::from_u64(100)));
}

#[test]
fn chain_of_updates_verifies() {
    // A real chain of nonzero, non-one contributions verifies for any
    // nonzero challenge; permuting the proofs breaks it.
    let before = SRS::new_for_kzg(10);
    let mut after = before.clone();
    let p1 = after.update(PrivateKey::from_u64(252));
    let p2 = after.update(PrivateKey::from_u64(512));
    let p3 = after.update(PrivateKey::from_u64(789));

    let r = Scalar::from_u64(987654321);
    assert!(SRS::verify_updates(
        &before,
        &after,
        &vec![p1.clone(), p2.clone(), p3.clone()],
        &r
    ));
    // Any non-identity permutation of the proofs fails.
    assert!(!SRS::verify_updates(
        &before,
        &after,
        &vec![p2.clone(), p1.clone(), p3.clone()],
        &r
    ));
    assert!(!SRS::verify_updates(&before, &after, &vec![p3, p2, p1], &r));
}

#[test]
fn verify_updates_rejects_empty_proofs() {
    let before = SRS::new_for_kzg(10);
    let after = before.clone();
    assert!(!SRS::verify_updates(
        &before,
        &after,
        &vec![],
        &Scalar::from_u64(5)
    ));
}

#[test]
fn verify_updates_rejects_stale_proof() {
    // A proof that does not end at the new SRS is rejected.
    let before = SRS::new_for_kzg(10);
    let mut after = before.clone();
    let p1 = after.update(PrivateKey::from_u64(252));
    // A further update leaves p1 pointing at an intermediate state.
    after.update(PrivateKey::from_u64(512));
    assert!(!SRS::verify_update(
        &before,
        &after,
        &p1,
        &Scalar::from_u64(17)
    ));
}

#[test]
fn verify_updates_rejects_zero_challenge() {
    let before = SRS::new_for_kzg(10);
    let mut after = before.clone();
    let p1 = after.update(PrivateKey::from_u64(252));
    assert!(!SRS::verify_update(&before, &after, &p1, &Scalar::from_u64(0)));
}

#[test]
fn composed_updates_equal_single_update() {
    // update(a) then update(b) equals update(a * b) from fresh.
    let mut s1 = SRS::new_for_kzg(10);
    s1.update(PrivateKey::from_u64(3));
    s1.update(PrivateKey::from_u64(5));

    let mut s2 = SRS::new_for_kzg(10);
    s2.update(PrivateKey::from_u64(15));

    assert_eq!(s1, s2);
}

#[test]
fn identity_update_detectable() {
    // tau = 1 leaves the SRS unchanged; the chain still verifies, but the
    // proof visibly carries the generators, signalling no contribution.
    let before = SRS::new_for_kzg(10);
    let mut after = before.clone();
    let proof = after.update(PrivateKey::from_u64(1));

    assert_eq!(after, before);
    let start = before.g1_elements()[1].clone();
    assert!(UpdateProof::verify_chain(&start, &vec![proof.clone()]));
    assert_eq!(proof.new_accumulated_point, G1Point::generator());
    assert_eq!(proof.commitment_to_secret, G2Point::generator());
}

#[test]
fn batched_matches_pairwise() {
    // On a valid SRS both structure checks pass; on a corrupted one both
    // fail.
    let mut s = SRS::new_for_kzg(8);
    s.update(PrivateKey::from_u64(252));
    let r = Scalar::from_u64(100);
    assert!(s.structure_check());
    assert_eq!(s.structure_check_opt(&r), s.structure_check());

    let mut g1s = s.g1_elements().clone();
    g1s.swap(1, 2);
    let t = SRS::from_vectors(g1s, s.g2_elements().clone()).unwrap();
    assert!(!t.structure_check());
    assert_eq!(t.structure_check_opt(&r), t.structure_check());
}

#[test]
fn shared_secret_smoke() {
    let g1_generator = G1Point::generator();

    let a_witness = g2_times(20);
    let b_witness = g2_times(21);
    let c_witness = g2_times(23);
    let d_witness = g2_times(24);

    let mut chain = SharedSecretChain::starting_from(g1_generator);

    // Add `a` into the product so we have `a * G1` as the accumulated point.
    let a_g1 = g1_times(20);
    chain.extend(a_g1, a_witness);
    assert!(chain.verify());

    // Add `b` into the product so we have `a * b * G1`.
    let ab_g1 = g1_times(20 * 21);
    chain.extend(ab_g1, b_witness);
    assert!(chain.verify());

    // Add `c` into the product so we have `a * b * c * G1`.
    let abc_g1 = g1_times(20 * 21 * 23);
    chain.extend(abc_g1, c_witness.clone());
    assert!(chain.verify());

    // Add `d` into the product so we have `a * b * c * d * G1`.
    let abcd_g1 = g1_times(20 * 21 * 23 * 24);

    // -- With `c` instead of `d` as the witness, this must not verify.
    chain.extend(abcd_g1.clone(), c_witness);
    assert!(chain.verify() == false);
    chain.remove_last();
    // -- With the correct witness but the wrong accumulated point.
    chain.extend(g1_times(20 * 21 * 23), d_witness.clone());
    assert!(chain.verify() == false);
    chain.remove_last();
    // -- With the correct accumulated point and witness.
    chain.extend(abcd_g1, d_witness);
    assert!(chain.verify())
}

#[test]
fn single_proof_verify() {
    let before = SRS::new_for_kzg(10);
    let mut after = before.clone();
    let proof = after.update(PrivateKey::from_u64(42));
    let start = before.g1_elements()[1].clone();
    assert!(proof.verify(&start));
    let wrong_start = after.g1_elements()[1].clone();
    assert!(!proof.verify(&wrong_start));
}

#[test]
fn summary_is_degree_one_hex() {
    let s = SRS::new_for_kzg(2);
    let expected = format!("0x{}", hex::encode(serialize_g1(&G1Point::generator())));
    assert_eq!(s.summary(), expected);
}

#[test]
fn random_key_has_valid_public_part() {
    let key = PrivateKey::rand();
    let public = key.to_public();
    let bytes = powers_of_tau::interop_point_encoding::serialize_g2(&public);
    assert_eq!(bytes.len(), 96);
    assert_eq!(deserialize_g2(&bytes).unwrap(), public);
}

#[test]
fn from_bytes_matches_from_u64() {
    // A short big-endian byte string encodes its value directly.
    let bytes: Vec<u8> = vec![0x07, 0x5b, 0xcd, 0x15];
    let mut s1 = SRS::new_for_kzg(4);
    s1.update(PrivateKey::from_bytes(&bytes));
    let mut s2 = SRS::new_for_kzg(4);
    s2.update(PrivateKey::from_u64(0x075bcd15));
    assert_eq!(s1, s2);
}

#[test]
fn from_bytes_long_input_matches_ark() {
    // A 33-byte secret goes through the same reduction as ark's
    // `from_be_bytes_mod_order`, whatever value that assigns to it.
    let bytes: Vec<u8> = (0u8..33).collect();
    let mut s1 = SRS::new_for_kzg(4);
    s1.update(PrivateKey::from_bytes(&bytes));

    let tau = ark_bls12_381::Fr::from_be_bytes_mod_order(&bytes);
    let g1 = ark_bls12_381::G1Affine::prime_subgroup_generator();
    let expected = g1.mul(tau.into_repr()).into_affine();
    assert_eq!(
        s1.g1_elements()[1],
        deserialize_g1(&encode_ark_g1(&expected)).unwrap()
    );
}

#[test]
fn subgroup_check_accepts_identity_points() {
    // A zero update leaves the identity at every index above zero in both
    // groups; identities are subgroup members and must pass the check.
    let mut srs = SRS::new_for_kzg(4);
    srs.update(PrivateKey::from_u64(0));
    for i in 1..4 {
        assert_eq!(srs.g1_elements()[i], G1Point::identity());
    }
    assert_eq!(srs.g2_elements()[1], G2Point::identity());
    assert!(srs.subgroup_check());
}

#[test]
fn ceremony_verify_and_find_contribution() {
    let before = SRS::new_for_kzg(10);
    let mut after = before.clone();
    let p1 = after.update(PrivateKey::from_u64(252));
    let p2 = after.update(PrivateKey::from_u64(512));
    let p3 = after.update(PrivateKey::from_u64(789));
    let proofs = vec![p1, p2, p3];
    let r = Scalar::from_u64(424242);

    let key = g2_times(512);
    let (ok, pos) = Ceremony::verify_and_find_contribution(&before, &after, &proofs, &key, &r);
    assert!(ok);
    assert_eq!(pos, Some(1));

    let absent = g2_times(999);
    let (ok, pos) = Ceremony::verify_and_find_contribution(&before, &after, &proofs, &absent, &r);
    assert!(ok);
    assert_eq!(pos, None);

    // A final SRS the proofs do not reach: verification fails, the
    // position search is unaffected.
    let (ok, pos) = Ceremony::verify_and_find_contribution(&before, &before, &proofs, &key, &r);
    assert!(!ok);
    assert_eq!(pos, Some(1));
}
