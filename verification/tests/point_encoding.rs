//! Bit-exact codec checks against the known IETF constants and against an
//! independent rendering of arkworks points, and subgroup detection.

use ark_ec::{AffineCurve, ProjectiveCurve};
use ark_ff::{BigInteger, PrimeField, Zero};
use powers_of_tau::interop_point_encoding::{
    deserialize_g1, deserialize_g2, serialize_g1, serialize_g2, EncodingFlags, G1Point, G2Point,
};
use powers_of_tau::interop_subgroup_checks::g1;
use powers_of_tau::interop_subgroup_checks::g2;

const G1_GEN_HEX: &str = "97f1d3a73197d7942695638c4fa9ac0fc3688c4f9774b905a14e3a3f171bac586c55e83ff97a1aeffb3af00adb22c6bb";
const G2_GEN_HEX: &str = "93e02b6052719f607dacd3a088274f65596bd0d09920b61ab5da61bbdc7f5049334cf11213945d57e5ac7d055d042b7e024aa2b2f08f0a91260805272dc51051c6e47ad4fa403b02b4510b647ae3d1770bac0326a805bbefd48056c8c121bdb8";

/// An independent rendering of an ark G1 point in the zkcrypto layout.
fn encode_ark_g1(p: &ark_bls12_381::G1Affine) -> Vec<u8> {
    let mut out = if p.infinity {
        vec![0u8; 48]
    } else {
        p.x.into_repr().to_bytes_be()
    };
    out[0] |= 0x80;
    if p.infinity {
        out[0] |= 0x40;
    } else if p.y > -p.y {
        out[0] |= 0x20;
    }
    out
}

/// An independent rendering of an ark G2 point in the zkcrypto layout.
fn encode_ark_g2(p: &ark_bls12_381::G2Affine) -> Vec<u8> {
    let mut out = if p.infinity {
        vec![0u8; 96]
    } else {
        let mut v = p.x.c1.into_repr().to_bytes_be();
        v.append(&mut p.x.c0.into_repr().to_bytes_be());
        v
    };
    out[0] |= 0x80;
    if p.infinity {
        out[0] |= 0x40;
    } else if p.y > -p.y {
        out[0] |= 0x20;
    }
    out
}

fn g1_times(n: u64) -> G1Point {
    let p = ark_bls12_381::G1Affine::prime_subgroup_generator()
        .mul(ark_bls12_381::Fr::from(n).into_repr())
        .into_affine();
    deserialize_g1(&encode_ark_g1(&p)).expect("a curve point must decode")
}

#[test]
fn test_correct_g1() {
    let p = G1Point::generator();
    let enc = serialize_g1(&p);
    assert_eq!(hex::encode(enc), G1_GEN_HEX);
    assert_eq!(
        hex::encode(serialize_g1(&G1Point::identity())),
        "c00000000000000000000000000000000000000000000000000000000000000000000000000000000000000000000000"
    );
}

#[test]
fn test_correct_g2() {
    let p = G2Point::generator();
    assert_eq!(hex::encode(serialize_g2(&p)), G2_GEN_HEX);
    assert_eq!(
        hex::encode(serialize_g2(&G2Point::identity())),
        "c00000000000000000000000000000000000000000000000000000000000000000000000000000000000000000000000000000000000000000000000000000000000000000000000000000000000000000000000000000000000000000000000"
    );
}

#[test]
fn test_serialize_deserialize() {
    let p = G1Point::generator();
    let got = deserialize_g1(&serialize_g1(&p)).unwrap();
    assert_eq!(got, p);
    let p2 = G2Point::generator();
    let got = deserialize_g2(&serialize_g2(&p2)).unwrap();
    assert_eq!(got, p2);
}

#[test]
fn generator_encoding_matches_ark() {
    let g1 = ark_bls12_381::G1Affine::prime_subgroup_generator();
    assert_eq!(encode_ark_g1(&g1), serialize_g1(&G1Point::generator()));
    let g2 = ark_bls12_381::G2Affine::prime_subgroup_generator();
    assert_eq!(encode_ark_g2(&g2), serialize_g2(&G2Point::generator()));
}

#[test]
fn nongenerator_roundtrip() {
    for n in [2u64, 3, 65537, 123456789] {
        let p = g1_times(n);
        let bytes = serialize_g1(&p);
        let q = deserialize_g1(&bytes).unwrap();
        assert_eq!(p, q);
        assert_eq!(serialize_g1(&q), bytes);
    }
}

#[test]
fn deserialize_rejects_uncompressed_flag() {
    let bytes = vec![0u8; 48];
    assert!(deserialize_g1(&bytes).is_none());
    let bytes = vec![0u8; 96];
    assert!(deserialize_g2(&bytes).is_none());
}

#[test]
fn deserialize_rejects_wrong_length() {
    assert!(deserialize_g1(&vec![0xc0u8; 47]).is_none());
    assert!(deserialize_g1(&vec![0xc0u8; 96]).is_none());
    assert!(deserialize_g2(&vec![0xc0u8; 48]).is_none());
}

#[test]
fn deserialize_rejects_nonzero_infinity() {
    let mut bytes = vec![0u8; 48];
    bytes[0] = 0xc0;
    bytes[47] = 1;
    assert!(deserialize_g1(&bytes).is_none());
    let mut bytes = vec![0u8; 48];
    bytes[0] = 0xe0;
    assert!(deserialize_g1(&bytes).is_none());
    let mut bytes = vec![0u8; 96];
    bytes[0] = 0xc0;
    bytes[95] = 1;
    assert!(deserialize_g2(&bytes).is_none());
}

#[test]
fn deserialize_rejects_x_above_modulus() {
    let mut bytes = vec![0xffu8; 48];
    bytes[0] = 0x9f;
    assert!(deserialize_g1(&bytes).is_none());
    let mut bytes = vec![0xffu8; 96];
    bytes[0] = 0x9f;
    assert!(deserialize_g2(&bytes).is_none());
}

#[test]
fn deserialize_rejects_x_without_y() {
    // Find a small x for which the curve equation has no solution, and
    // check that its encoding is rejected.
    let mut found = false;
    for k in 0u64..64 {
        let x = ark_bls12_381::Fq::from(k);
        if ark_bls12_381::G1Affine::get_point_from_x(x, true).is_none() {
            let mut bytes = x.into_repr().to_bytes_be();
            bytes[0] |= 0x80;
            assert!(deserialize_g1(&bytes).is_none());
            found = true;
            break;
        }
    }
    assert!(found);
}

#[test]
fn subgroup_detection() {
    // The generator passes.
    assert!(g1::is_in_correct_subgroup_assuming_on_curve(&G1Point::generator()));
    assert!(g2::is_in_correct_subgroup_assuming_on_curve(&G2Point::generator()));
    // An on-curve point outside the prime-order subgroup fails.
    let mut found = false;
    for k in 0u64..256 {
        let x = ark_bls12_381::Fq::from(k);
        if let Some(p) = ark_bls12_381::G1Affine::get_point_from_x(x, true) {
            if !p.is_in_correct_subgroup_assuming_on_curve() {
                let q = deserialize_g1(&encode_ark_g1(&p)).unwrap();
                assert!(!g1::is_in_correct_subgroup_assuming_on_curve(&q));
                found = true;
                break;
            }
        }
    }
    assert!(found);
}

#[test]
fn subgroup_detection_g2() {
    let mut found = false;
    for k in 0u64..256 {
        let x = ark_bls12_381::Fq2::new(ark_bls12_381::Fq::from(k), ark_bls12_381::Fq::zero());
        if let Some(p) = ark_bls12_381::G2Affine::get_point_from_x(x, true) {
            if !p.is_in_correct_subgroup_assuming_on_curve() {
                let q = deserialize_g2(&encode_ark_g2(&p)).unwrap();
                assert!(!g2::is_in_correct_subgroup_assuming_on_curve(&q));
                found = true;
                break;
            }
        }
    }
    assert!(found);
}

#[test]
fn encoding_flags_roundtrip() {
    let bytes = serialize_g1(&G1Point::generator());
    let flags = EncodingFlags::get_flags(&bytes);
    assert!(flags.is_compressed);
    assert!(!flags.is_infinity);
    assert_eq!(flags.is_lexographically_largest, bytes[0] & 0x20 == 0x20);

    let mut restored = bytes.clone();
    restored[0] &= 0x1f;
    flags.encode_flags(&mut restored);
    assert_eq!(restored, bytes);

    let id = serialize_g1(&G1Point::identity());
    let id_flags = EncodingFlags::get_flags(&id);
    assert!(id_flags.is_compressed && id_flags.is_infinity);
    assert!(!id_flags.is_lexographically_largest);
}

#[test]
fn subgroup_accepts_identity() {
    // The identity is a member of the prime-order subgroup in each group.
    assert!(g1::is_in_correct_subgroup_assuming_on_curve(&G1Point::identity()));
    assert!(g2::is_in_correct_subgroup_assuming_on_curve(&G2Point::identity()));
}
