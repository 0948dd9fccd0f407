//! Core of a "powers of tau" trusted-setup ceremony for the KZG polynomial
//! commitment scheme over BLS12-381.
//!
//! Curve points are carried as their canonical compressed encodings
//! (48 bytes in G1, 96 bytes in G2) and scalars as canonical 32-byte
//! big-endian encodings.  The group and pairing operations of the
//! underlying arithmetic library sit behind a small set of trusted
//! wrappers; everything layered on top of them — the point and hex
//! codecs, the SRS update and verification logic, the update-proof
//! chain and the ceremony facade — is verified.

pub mod ceremony;
pub mod curve_ops;
pub mod hexstr;
pub mod interop_point_encoding;
pub mod interop_subgroup_checks;
pub mod keypair;
pub mod scalar;
pub mod sdk;
pub mod serialisation;
pub mod shared_secret;
pub mod srs;
pub mod update_proof;
