//! Hex-string serialisation of SRSs and update proofs: round trips and
//! rejection of malformed input.

use ark_ec::{AffineCurve, ProjectiveCurve};
use ark_ff::{BigInteger, PrimeField};
use powers_of_tau::interop_point_encoding::{deserialize_g1, deserialize_g2, serialize_g1, G1Point, G2Point};
use powers_of_tau::keypair::PrivateKey;
use powers_of_tau::serialisation::SRSJson;
use powers_of_tau::srs::{Parameters, SRS};
use powers_of_tau::update_proof::UpdateProof;

fn encode_ark_g1(p: &ark_bls12_381::G1Affine) -> Vec<u8> {
    let mut out = if p.infinity {
        vec![0u8; 48]
    } else {
        p.x.into_repr().to_bytes_be()
    };
    out[0] |= 0x80;
    if p.infinity {
        out[0] |= 0x40;
    } else if p.y > -p.y {
        out[0] |= 0x20;
    }
    out
}

fn encode_ark_g2(p: &ark_bls12_381::G2Affine) -> Vec<u8> {
    let mut out = if p.infinity {
        vec![0u8; 96]
    } else {
        let mut v = p.x.c1.into_repr().to_bytes_be();
        v.append(&mut p.x.c0.into_repr().to_bytes_be());
        v
    };
    out[0] |= 0x80;
    if p.infinity {
        out[0] |= 0x40;
    } else if p.y > -p.y {
        out[0] |= 0x20;
    }
    out
}

fn g1_times(n: u64) -> G1Point {
    let p = ark_bls12_381::G1Affine::prime_subgroup_generator()
        .mul(ark_bls12_381::Fr::from(n).into_repr())
        .into_affine();
    deserialize_g1(&encode_ark_g1(&p)).expect("a curve point must decode")
}

fn g2_times(n: u64) -> G2Point {
    let p = ark_bls12_381::G2Affine::prime_subgroup_generator()
        .mul(ark_bls12_381::Fr::from(n).into_repr())
        .into_affine();
    deserialize_g2(&encode_ark_g2(&p)).expect("a curve point must decode")
}

#[test]
fn update_proof_serialise_roundtrip() {
    let proof = UpdateProof {
        commitment_to_secret: g2_times(200),
        new_accumulated_point: g1_times(789),
    };

    let bytes = proof.serialise();
    let deserialised_proof = UpdateProof::deserialise(bytes).unwrap();

    assert_eq!(proof, deserialised_proof)
}

#[test]
fn srs_serialise_roundtrip() {
    let params = Parameters::new(100, 25);

    let secret = PrivateKey::from_u64(5687);
    let mut acc = SRS::new(params).unwrap();
    acc.update(secret);

    let bytes = acc.serialise();
    let deserialised_srs = SRS::deserialise((&bytes.0, &bytes.1), params).unwrap();

    assert_eq!(acc, deserialised_srs);
}

#[test]
fn deserialise_rejects_wrong_counts() {
    let params = Parameters::new(4, 3);
    let srs = SRS::new(params).unwrap();
    let bytes = srs.serialise();
    assert!(SRS::deserialise((&bytes.0, &bytes.1), Parameters::new(5, 3)).is_none());
    assert!(SRS::deserialise((&bytes.0, &bytes.1), Parameters::new(4, 2)).is_none());
}

#[test]
fn deserialise_rejects_malformed_strings() {
    let params = Parameters::new(3, 2);
    let srs = SRS::new(params).unwrap();

    // Without the "0x" prefix.
    let mut bytes = srs.serialise();
    bytes.0[1] = bytes.0[1].trim_start_matches("0x").to_string();
    assert!(SRS::deserialise((&bytes.0, &bytes.1), params).is_none());

    // With a non-hex character.
    let mut bytes = srs.serialise();
    bytes.1[0] = format!("0xzz{}", &bytes.1[0][4..]);
    assert!(SRS::deserialise((&bytes.0, &bytes.1), params).is_none());

    // With a truncated point.
    let mut bytes = srs.serialise();
    let shortened = bytes.0[0][..bytes.0[0].len() - 2].to_string();
    bytes.0[0] = shortened;
    assert!(SRS::deserialise((&bytes.0, &bytes.1), params).is_none());
}

#[test]
fn update_proof_deserialise_rejects_malformed() {
    let proof = UpdateProof {
        commitment_to_secret: g2_times(7),
        new_accumulated_point: g1_times(9),
    };
    let good = proof.serialise();

    // Wrong number of entries.
    assert!(UpdateProof::deserialise(vec![good[0].clone()]).is_none());
    // The two points swapped: a G1 hex where a G2 hex is expected.
    assert!(UpdateProof::deserialise(vec![good[1].clone(), good[0].clone()]).is_none());
}

#[test]
fn srs_json_envelope_roundtrip() {
    let params = Parameters::new(6, 3);
    let mut srs = SRS::new(params).unwrap();
    srs.update(PrivateKey::from_u64(77));

    let envelope = SRSJson::from_srs(&srs);
    assert_eq!(envelope.num_g1_powers, 6);
    assert_eq!(envelope.num_g2_powers, 3);
    assert_eq!(envelope.pot_pubkey, envelope.powers_of_tau.g2_powers[1]);

    let back = envelope.to_srs().unwrap();
    assert_eq!(back, srs);
}

#[test]
fn identity_secret_keeps_generator_encoding() {
    // An SRS updated with tau = 1 still serialises the generator at
    // degree 1, byte for byte.
    let mut srs = SRS::new_for_kzg(10);
    srs.update(PrivateKey::from_u64(1));
    let strings = srs.serialise();
    let expected = format!("0x{}", hex::encode(serialize_g1(&G1Point::generator())));
    assert_eq!(strings.0[1], expected);
}

#[test]
fn identity_point_serialises_in_srs() {
    // A zero secret puts the identity at every index above zero; the
    // serialised form round-trips through the identity encoding.
    let params = Parameters::new(3, 2);
    let mut srs = SRS::new(params).unwrap();
    srs.update(PrivateKey::from_u64(0));
    let bytes = srs.serialise();
    assert_eq!(
        bytes.0[1],
        format!("0x{}", hex::encode(serialize_g1(&G1Point::identity())))
    );
    let back = SRS::deserialise((&bytes.0, &bytes.1), params).unwrap();
    assert_eq!(back, srs);
}
