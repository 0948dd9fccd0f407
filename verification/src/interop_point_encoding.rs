//! Compressed BLS12-381 point encoding in the zkcrypto/IETF convention.
//!
//! A G1 point is 48 bytes, a G2 point 96; the top three bits of the first
//! byte are flags: bit 7 "compressed" (always set here), bit 6 "infinity",
//! bit 5 "lexicographically largest y".  The rest is the x-coordinate in
//! big-endian (for G2 the coordinate c1 comes first, then c0).
//!
//! The library carries points as such canonical encodings.  Recovering a
//! point from its x-coordinate is the underlying arithmetic library's work
//! and sits behind trusted wrappers; the flag handling, the masking, the
//! identity encoding and the round-trip argument are verified.

use vstd::prelude::*;
use ark_bls12_381::{Fq, Fq2, G1Affine, G2Affine};
use ark_ec::AffineCurve;
use ark_ff::BigInteger;
use ark_ff::{BigInteger384, FromBytes};
use ark_ff::PrimeField;

verus! {

pub const G1_SERIALISED_SIZE: usize = 48;

pub const G2_SERIALISED_SIZE: usize = 96;

pub open spec fn flag_compressed(b: Seq<u8>) -> bool {
    (b[0] >> 7) & 1 == 1
}

pub open spec fn flag_infinity(b: Seq<u8>) -> bool {
    (b[0] >> 6) & 1 == 1
}

pub open spec fn flag_sort(b: Seq<u8>) -> bool {
    (b[0] >> 5) & 1 == 1
}

/// The encoding with its three flag bits cleared: the bare x-coordinate.
pub open spec fn mask_flags(b: Seq<u8>) -> Seq<u8> {
    b.update(0, b[0] & 0x1f)
}

/// The canonical encoding of the G1 identity: flag byte 0xc0, zeros after.
pub open spec fn g1_identity_bytes() -> Seq<u8> {
    Seq::new(48, |i: int| if i == 0 { 0xc0u8 } else { 0u8 })
}

/// The canonical encoding of the G2 identity.
pub open spec fn g2_identity_bytes() -> Seq<u8> {
    Seq::new(96, |i: int| if i == 0 { 0xc0u8 } else { 0u8 })
}

/// The canonical encoding of the IETF G1 generator.
pub open spec fn g1_generator_bytes() -> Seq<u8> {
    seq![
        0x97u8, 0xf1u8, 0xd3u8, 0xa7u8, 0x31u8, 0x97u8, 0xd7u8, 0x94u8,
        0x26u8, 0x95u8, 0x63u8, 0x8cu8, 0x4fu8, 0xa9u8, 0xacu8, 0x0fu8,
        0xc3u8, 0x68u8, 0x8cu8, 0x4fu8, 0x97u8, 0x74u8, 0xb9u8, 0x05u8,
        0xa1u8, 0x4eu8, 0x3au8, 0x3fu8, 0x17u8, 0x1bu8, 0xacu8, 0x58u8,
        0x6cu8, 0x55u8, 0xe8u8, 0x3fu8, 0xf9u8, 0x7au8, 0x1au8, 0xefu8,
        0xfbu8, 0x3au8, 0xf0u8, 0x0au8, 0xdbu8, 0x22u8, 0xc6u8, 0xbbu8,
    ]
}

/// The canonical encoding of the IETF G2 generator.
pub open spec fn g2_generator_bytes() -> Seq<u8> {
    seq![
        0x93u8, 0xe0u8, 0x2bu8, 0x60u8, 0x52u8, 0x71u8, 0x9fu8, 0x60u8,
        0x7du8, 0xacu8, 0xd3u8, 0xa0u8, 0x88u8, 0x27u8, 0x4fu8, 0x65u8,
        0x59u8, 0x6bu8, 0xd0u8, 0xd0u8, 0x99u8, 0x20u8, 0xb6u8, 0x1au8,
        0xb5u8, 0xdau8, 0x61u8, 0xbbu8, 0xdcu8, 0x7fu8, 0x50u8, 0x49u8,
        0x33u8, 0x4cu8, 0xf1u8, 0x12u8, 0x13u8, 0x94u8, 0x5du8, 0x57u8,
        0xe5u8, 0xacu8, 0x7du8, 0x05u8, 0x5du8, 0x04u8, 0x2bu8, 0x7eu8,
        0x02u8, 0x4au8, 0xa2u8, 0xb2u8, 0xf0u8, 0x8fu8, 0x0au8, 0x91u8,
        0x26u8, 0x08u8, 0x05u8, 0x27u8, 0x2du8, 0xc5u8, 0x10u8, 0x51u8,
        0xc6u8, 0xe4u8, 0x7au8, 0xd4u8, 0xfau8, 0x40u8, 0x3bu8, 0x02u8,
        0xb4u8, 0x51u8, 0x0bu8, 0x64u8, 0x7au8, 0xe3u8, 0xd1u8, 0x77u8,
        0x0bu8, 0xacu8, 0x03u8, 0x26u8, 0xa8u8, 0x05u8, 0xbbu8, 0xefu8,
        0xd4u8, 0x80u8, 0x56u8, 0xc8u8, 0xc1u8, 0x21u8, 0xbdu8, 0xb8u8,
    ]
}

/// Whether 48 flag-free bytes are a valid G1 x-coordinate: the big-endian
/// value is below the base-field modulus and the curve equation has a
/// solution y for it.  Decided by ark's `Fq::from_repr` and
/// `G1Affine::get_point_from_x`.
pub uninterp spec fn g1_x_ok(xb: Seq<u8>) -> bool;

/// The canonical encoding of the G1 point recovered from the x-coordinate
/// `xb` and the sign choice `greatest`, per ark's `get_point_from_x`.
pub uninterp spec fn g1_from_x_of(xb: Seq<u8>, greatest: bool) -> Seq<u8>;

/// As [`g1_x_ok`], for a G2 x-coordinate of 96 flag-free bytes (c1 then c0).
pub uninterp spec fn g2_x_ok(xb: Seq<u8>) -> bool;

/// As [`g1_from_x_of`], in G2.
pub uninterp spec fn g2_from_x_of(xb: Seq<u8>, greatest: bool) -> Seq<u8>;

/// What decoding 48 bytes as a compressed G1 point yields: the canonical
/// encoding of the decoded point, or nothing if the bytes are rejected.
pub open spec fn g1_decode_spec(b: Seq<u8>) -> Option<Seq<u8>> {
    if b.len() != 48 {
        None
    } else if !flag_compressed(b) {
        None
    } else if flag_infinity(b) {
        if b == g1_identity_bytes() {
            Some(b)
        } else {
            None
        }
    } else if g1_x_ok(mask_flags(b)) {
        Some(g1_from_x_of(mask_flags(b), flag_sort(b)))
    } else {
        None
    }
}

/// As [`g1_decode_spec`], for 96 bytes in G2.
pub open spec fn g2_decode_spec(b: Seq<u8>) -> Option<Seq<u8>> {
    if b.len() != 96 {
        None
    } else if !flag_compressed(b) {
        None
    } else if flag_infinity(b) {
        if b == g2_identity_bytes() {
            Some(b)
        } else {
            None
        }
    } else if g2_x_ok(mask_flags(b)) {
        Some(g2_from_x_of(mask_flags(b), flag_sort(b)))
    } else {
        None
    }
}

/// A canonical G1 encoding: decoding it succeeds and returns it unchanged.
pub open spec fn g1_wf(b: Seq<u8>) -> bool {
    &&& b.len() == 48
    &&& g1_decode_spec(b) == Some(b)
}

/// A canonical G2 encoding.
pub open spec fn g2_wf(b: Seq<u8>) -> bool {
    &&& b.len() == 96
    &&& g2_decode_spec(b) == Some(b)
}

/// Byte-for-byte copy of a vector.
pub(crate) fn copy_bytes(a: &Vec<u8>) -> (r: Vec<u8>)
    ensures
        r@ == a@,
{
    let mut r: Vec<u8> = Vec::new();
    let mut i: usize = 0;
    while i < a.len()
        invariant
            i <= a@.len(),
            r@ == a@.take(i as int),
        decreases a@.len() - i,
    {
        r.push(a[i]);
        i += 1;
    }
    proof {
        assert(a@.take(a@.len() as int) =~= a@);
    }
    r
}

/// Byte-for-byte comparison of two vectors.
pub(crate) fn bytes_eq(a: &Vec<u8>, b: &Vec<u8>) -> (r: bool)
    ensures
        r == (a@ == b@),
{
    if a.len() != b.len() {
        return false;
    }
    let mut i: usize = 0;
    while i < a.len()
        invariant
            i <= a@.len(),
            a@.len() == b@.len(),
            forall|k: int| 0 <= k < i ==> a@[k] == b@[k],
        decreases a@.len() - i,
    {
        if a[i] != b[i] {
            return false;
        }
        i += 1;
    }
    proof {
        assert(a@ =~= b@);
    }
    true
}

/// The three flag bits carried in the top byte of a compressed encoding.
pub struct EncodingFlags {
    pub is_compressed: bool,
    pub is_infinity: bool,
    pub is_lexographically_largest: bool,
}

/// The first byte of an encoding after [`EncodingFlags::encode_flags`].
pub open spec fn encode_flags_byte(f: EncodingFlags, b: u8) -> u8 {
    let b1 = if f.is_compressed {
        b | 0x80
    } else {
        b
    };
    let b2 = if f.is_infinity {
        b1 | 0x40
    } else {
        b1
    };
    if f.is_compressed && !f.is_infinity && f.is_lexographically_largest {
        b2 | 0x20
    } else {
        b2
    }
}

impl EncodingFlags {
    /// Reads the three flag bits from the first byte of an encoding.
    pub fn get_flags(bytes: &Vec<u8>) -> (f: EncodingFlags)
        requires
            bytes@.len() >= 1,
        ensures
            f.is_compressed == flag_compressed(bytes@),
            f.is_infinity == flag_infinity(bytes@),
            f.is_lexographically_largest == flag_sort(bytes@),
    {
        let b0 = bytes[0];
        EncodingFlags {
            is_compressed: (b0 >> 7) & 1 == 1,
            is_infinity: (b0 >> 6) & 1 == 1,
            is_lexographically_largest: (b0 >> 5) & 1 == 1,
        }
    }

    /// Sets the flag bits in the first byte of an encoding.
    pub fn encode_flags(&self, bytes: &mut Vec<u8>)
        requires
            old(bytes)@.len() >= 1,
        ensures
            final(bytes)@ == old(bytes)@.update(0, encode_flags_byte(*self, old(bytes)@[0])),
    {
        let mut b0 = bytes[0];
        if self.is_compressed {
            b0 = b0 | 0x80;
        }
        if self.is_infinity {
            b0 = b0 | 0x40;
        }
        if self.is_compressed && !self.is_infinity && self.is_lexographically_largest {
            b0 = b0 | 0x20;
        }
        bytes[0] = b0;
    }
}

/// A G1 point, held as its canonical compressed encoding.
#[derive(Debug)]
pub struct G1Point {
    pub(crate) bytes: Vec<u8>,
}

impl View for G1Point {
    type V = Seq<u8>;

    closed spec fn view(&self) -> Seq<u8> {
        self.bytes@
    }
}

impl Clone for G1Point {
    fn clone(&self) -> (r: Self)
        ensures
            r@ == self@,
    {
        G1Point { bytes: copy_bytes(&self.bytes) }
    }
}

impl PartialEq for G1Point {
    fn eq(&self, other: &G1Point) -> (r: bool) {
        bytes_eq(&self.bytes, &other.bytes)
    }
}

impl vstd::std_specs::cmp::PartialEqSpecImpl for G1Point {
    open spec fn obeys_eq_spec() -> bool {
        true
    }

    open spec fn eq_spec(&self, other: &G1Point) -> bool {
        self@ == other@
    }
}

impl Eq for G1Point {
}

/// A G2 point, held as its canonical compressed encoding.
#[derive(Debug)]
pub struct G2Point {
    pub(crate) bytes: Vec<u8>,
}

impl View for G2Point {
    type V = Seq<u8>;

    closed spec fn view(&self) -> Seq<u8> {
        self.bytes@
    }
}

impl Clone for G2Point {
    fn clone(&self) -> (r: Self)
        ensures
            r@ == self@,
    {
        G2Point { bytes: copy_bytes(&self.bytes) }
    }
}

impl PartialEq for G2Point {
    fn eq(&self, other: &G2Point) -> (r: bool) {
        bytes_eq(&self.bytes, &other.bytes)
    }
}

impl vstd::std_specs::cmp::PartialEqSpecImpl for G2Point {
    open spec fn obeys_eq_spec() -> bool {
        true
    }

    open spec fn eq_spec(&self, other: &G2Point) -> bool {
        self@ == other@
    }
}

impl Eq for G2Point {
}

/// The G1 identity encoding is canonical.
pub proof fn lemma_g1_identity_wf()
    ensures
        g1_wf(g1_identity_bytes()),
{
    let b = g1_identity_bytes();
    assert(b[0] == 0xc0);
    assert((0xc0u8 >> 7) & 1 == 1 && (0xc0u8 >> 6) & 1 == 1) by (bit_vector);
}

/// The G2 identity encoding is canonical.
pub proof fn lemma_g2_identity_wf()
    ensures
        g2_wf(g2_identity_bytes()),
{
    let b = g2_identity_bytes();
    assert(b[0] == 0xc0);
    assert((0xc0u8 >> 7) & 1 == 1 && (0xc0u8 >> 6) & 1 == 1) by (bit_vector);
}

impl G1Point {
    /// The identity element of G1.
    pub fn identity() -> (p: G1Point)
        ensures
            p@ == g1_identity_bytes(),
            g1_wf(p@),
    {
        let mut bytes: Vec<u8> = Vec::new();
        bytes.push(0xc0u8);
        let mut i: usize = 1;
        while i < 48
            invariant
                1 <= i <= 48,
                bytes@.len() == i,
                bytes@ == g1_identity_bytes().take(i as int),
            decreases 48 - i,
        {
            bytes.push(0u8);
            proof {
                assert(bytes@ =~= g1_identity_bytes().take(i + 1 as int));
            }
            i += 1;
        }
        proof {
            assert(bytes@ =~= g1_identity_bytes());
            lemma_g1_identity_wf();
        }
        G1Point { bytes }
    }

    /// The canonical IETF generator of G1.
    pub fn generator() -> (p: G1Point)
        ensures
            p@ == g1_generator_bytes(),
            g1_wf(p@),
    {
        g1_generator_point()
    }

    /// True exactly of the identity element.
    pub fn is_identity(&self) -> (r: bool)
        ensures
            r == (self@ == g1_identity_bytes()),
    {
        let id = G1Point::identity();
        bytes_eq(&self.bytes, &id.bytes)
    }
}

impl G2Point {
    /// The identity element of G2.
    pub fn identity() -> (p: G2Point)
        ensures
            p@ == g2_identity_bytes(),
            g2_wf(p@),
    {
        let mut bytes: Vec<u8> = Vec::new();
        bytes.push(0xc0u8);
        let mut i: usize = 1;
        while i < 96
            invariant
                1 <= i <= 96,
                bytes@.len() == i,
                bytes@ == g2_identity_bytes().take(i as int),
            decreases 96 - i,
        {
            bytes.push(0u8);
            proof {
                assert(bytes@ =~= g2_identity_bytes().take(i + 1 as int));
            }
            i += 1;
        }
        proof {
            assert(bytes@ =~= g2_identity_bytes());
            lemma_g2_identity_wf();
        }
        G2Point { bytes }
    }

    /// The canonical IETF generator of G2.
    pub fn generator() -> (p: G2Point)
        ensures
            p@ == g2_generator_bytes(),
            g2_wf(p@),
    {
        g2_generator_point()
    }

    /// True exactly of the identity element.
    pub fn is_identity(&self) -> (r: bool)
        ensures
            r == (self@ == g2_identity_bytes()),
    {
        let id = G2Point::identity();
        bytes_eq(&self.bytes, &id.bytes)
    }
}

/// Relies on ark's `Fq::from_repr` (which rejects values at or above the
/// base-field modulus) and `G1Affine::get_point_from_x` (which rejects an x
/// for which the curve equation has no solution, and otherwise picks the
/// lexicographically largest y exactly when `greatest` is set).  The result
/// is written back in canonical compressed form.
#[verifier::external_body]
fn g1_from_x(xbytes: &Vec<u8>, greatest: bool) -> (r: Option<G1Point>)
    requires
        xbytes@.len() == 48,
        xbytes@[0] < 0x20,
    ensures
        r.is_some() == g1_x_ok(xbytes@),
        r matches Some(p) ==> p@ == g1_from_x_of(xbytes@, greatest) && g1_wf(p@),
{
    let mut le = xbytes.clone();
    le.reverse();
    let big = BigInteger384::read(le.as_slice()).ok()?;
    let x = Fq::from_repr(big)?;
    let p = G1Affine::get_point_from_x(x, greatest)?;
    let mut out = p.x.into_repr().to_bytes_be();
    out[0] |= 0x80;
    if p.y > -p.y {
        out[0] |= 0x20;
    }
    Some(G1Point { bytes: out })
}

/// Relies on ark's `Fq::from_repr` for both coordinates of the Fp2 element
/// (c1 in the first 48 bytes, c0 in the second) and on
/// `G2Affine::get_point_from_x`, as in [`g1_from_x`].
#[verifier::external_body]
fn g2_from_x(xbytes: &Vec<u8>, greatest: bool) -> (r: Option<G2Point>)
    requires
        xbytes@.len() == 96,
        xbytes@[0] < 0x20,
    ensures
        r.is_some() == g2_x_ok(xbytes@),
        r matches Some(p) ==> p@ == g2_from_x_of(xbytes@, greatest) && g2_wf(p@),
{
    let (mut le1, mut le0) = (xbytes[0..48].to_vec(), xbytes[48..96].to_vec());
    le1.reverse();
    le0.reverse();
    let c1 = Fq::from_repr(BigInteger384::read(le1.as_slice()).ok()?)?;
    let c0 = Fq::from_repr(BigInteger384::read(le0.as_slice()).ok()?)?;
    let p = G2Affine::get_point_from_x(Fq2::new(c0, c1), greatest)?;
    let mut out = p.x.c1.into_repr().to_bytes_be();
    out.append(&mut p.x.c0.into_repr().to_bytes_be());
    out[0] |= 0x80;
    if p.y > -p.y {
        out[0] |= 0x20;
    }
    Some(G2Point { bytes: out })
}

/// Relies on ark's `G1Affine::prime_subgroup_generator`; its canonical
/// encoding is the IETF generator constant.
#[verifier::external_body]
fn g1_generator_point() -> (p: G1Point)
    ensures
        p@ == g1_generator_bytes(),
        g1_wf(p@),
{
    let g = G1Affine::prime_subgroup_generator();
    let mut out = g.x.into_repr().to_bytes_be();
    out[0] |= 0x80;
    if g.y > -g.y {
        out[0] |= 0x20;
    }
    G1Point { bytes: out }
}

/// Relies on ark's `G2Affine::prime_subgroup_generator`, as in
/// [`g1_generator_point`].
#[verifier::external_body]
fn g2_generator_point() -> (p: G2Point)
    ensures
        p@ == g2_generator_bytes(),
        g2_wf(p@),
{
    let g = G2Affine::prime_subgroup_generator();
    let mut out = g.x.c1.into_repr().to_bytes_be();
    out.append(&mut g.x.c0.into_repr().to_bytes_be());
    out[0] |= 0x80;
    if g.y > -g.y {
        out[0] |= 0x20;
    }
    G2Point { bytes: out }
}

/// The canonical compressed encoding of a G1 point.  Never fails.
pub fn serialize_g1(p: &G1Point) -> (r: Vec<u8>)
    ensures
        r@ == p@,
{
    copy_bytes(&p.bytes)
}

/// The canonical compressed encoding of a G2 point.  Never fails.
pub fn serialize_g2(p: &G2Point) -> (r: Vec<u8>)
    ensures
        r@ == p@,
{
    copy_bytes(&p.bytes)
}

/// Decodes 48 bytes as a compressed G1 point.  Fails exactly when the bytes
/// are not 48, the compressed flag is clear, the infinity flag is set on
/// anything but the canonical identity encoding, the x-coordinate is at or
/// above the field modulus, or no y satisfies the curve equation.
pub fn deserialize_g1(bytes: &Vec<u8>) -> (r: Option<G1Point>)
    ensures
        r matches Some(p) ==> g1_decode_spec(bytes@) == Some(p@) && g1_wf(p@),
        r is None ==> g1_decode_spec(bytes@) is None,
{
    if bytes.len() != G1_SERIALISED_SIZE {
        return None;
    }
    let flags = EncodingFlags::get_flags(bytes);
    if !flags.is_compressed {
        return None;
    }
    if flags.is_infinity {
        let id = G1Point::identity();
        if bytes_eq(bytes, &id.bytes) {
            return Some(id);
        } else {
            return None;
        }
    }
    let mut xb = copy_bytes(bytes);
    let b0 = xb[0];
    xb[0] = b0 & 0x1f;
    proof {
        assert(xb@ == mask_flags(bytes@));
        assert(b0 & 0x1f < 0x20) by (bit_vector);
    }
    g1_from_x(&xb, flags.is_lexographically_largest)
}

/// Decodes 96 bytes as a compressed G2 point; failure cases as in
/// [`deserialize_g1`], with both Fp2 coordinates checked against the
/// field modulus.
pub fn deserialize_g2(bytes: &Vec<u8>) -> (r: Option<G2Point>)
    ensures
        r matches Some(p) ==> g2_decode_spec(bytes@) == Some(p@) && g2_wf(p@),
        r is None ==> g2_decode_spec(bytes@) is None,
{
    if bytes.len() != G2_SERIALISED_SIZE {
        return None;
    }
    let flags = EncodingFlags::get_flags(bytes);
    if !flags.is_compressed {
        return None;
    }
    if flags.is_infinity {
        let id = G2Point::identity();
        if bytes_eq(bytes, &id.bytes) {
            return Some(id);
        } else {
            return None;
        }
    }
    let mut xb = copy_bytes(bytes);
    let b0 = xb[0];
    xb[0] = b0 & 0x1f;
    proof {
        assert(xb@ == mask_flags(bytes@));
        assert(b0 & 0x1f < 0x20) by (bit_vector);
    }
    g2_from_x(&xb, flags.is_lexographically_largest)
}

/// Decoding a canonical G1 encoding gives back exactly that encoding: the
/// serialisation round trip is the identity on valid points.
pub proof fn lemma_g1_roundtrip(b: Seq<u8>)
    requires
        g1_wf(b),
    ensures
        g1_decode_spec(b) == Some(b),
{
}

/// As [`lemma_g1_roundtrip`], in G2.
pub proof fn lemma_g2_roundtrip(b: Seq<u8>)
    requires
        g2_wf(b),
    ensures
        g2_decode_spec(b) == Some(b),
{
}

} // verus!
