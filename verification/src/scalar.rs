//! Scalars of the BLS12-381 scalar field Fr, carried as their canonical
//! 32-byte big-endian encodings.

use vstd::prelude::*;
use ark_ff::BigInteger;
use ark_ff::PrimeField;

verus! {

/// Big-endian numeric comparison of two byte strings of equal length.
pub open spec fn be_lt(a: Seq<u8>, b: Seq<u8>) -> bool
    decreases a.len(),
{
    if a.len() == 0 || b.len() == 0 {
        false
    } else if a[0] < b[0] {
        true
    } else if a[0] == b[0] {
        be_lt(a.subrange(1, a.len() as int), b.subrange(1, b.len() as int))
    } else {
        false
    }
}

/// The order r of the BLS12-381 scalar field, big-endian.
pub open spec fn fr_modulus_bytes() -> Seq<u8> {
    seq![
        0x73u8, 0xedu8, 0xa7u8, 0x53u8, 0x29u8, 0x9du8, 0x7du8, 0x48u8,
        0x33u8, 0x39u8, 0xd8u8, 0x08u8, 0x09u8, 0xa1u8, 0xd8u8, 0x05u8,
        0x53u8, 0xbdu8, 0xe4u8, 0x02u8, 0xffu8, 0xfeu8, 0x5bu8, 0xfeu8,
        0xffu8, 0xffu8, 0xffu8, 0xffu8, 0x00u8, 0x00u8, 0x00u8, 0x01u8,
    ]
}

/// A canonical scalar encoding: 32 bytes, value below r.
pub open spec fn fr_wf(s: Seq<u8>) -> bool {
    &&& s.len() == 32
    &&& be_lt(s, fr_modulus_bytes())
}

/// The canonical encoding of the scalar 0.
pub open spec fn fr_zero_bytes() -> Seq<u8> {
    Seq::new(32, |i: int| 0u8)
}

/// The canonical encoding of the scalar 1.
pub open spec fn fr_one_bytes() -> Seq<u8> {
    Seq::new(32, |i: int| if i == 31 { 1u8 } else { 0u8 })
}

/// The canonical encoding of a scalar given as a machine integer.
pub open spec fn fr_u64_bytes(n: u64) -> Seq<u8> {
    seq![
        0u8, 0u8, 0u8, 0u8, 0u8, 0u8, 0u8, 0u8,
        0u8, 0u8, 0u8, 0u8, 0u8, 0u8, 0u8, 0u8,
        0u8, 0u8, 0u8, 0u8, 0u8, 0u8, 0u8, 0u8,
        (n >> 56) as u8, (n >> 48) as u8, (n >> 40) as u8, (n >> 32) as u8,
        (n >> 24) as u8, (n >> 16) as u8, (n >> 8) as u8, n as u8,
    ]
}

/// The product in Fr of the scalars with the given canonical encodings,
/// as computed by ark_ff's field multiplication.
pub uninterp spec fn fr_mul_of(a: Seq<u8>, b: Seq<u8>) -> Seq<u8>;

/// The scalar that ark_ff's `Fr::from_be_bytes_mod_order` assigns to a byte
/// string: a deterministic reduction of the big-endian bytes into the
/// field.
pub uninterp spec fn fr_mod_of(bytes: Seq<u8>) -> Seq<u8>;

/// The i-th power (i >= 1) of the scalar encoded by `t`, built by repeated
/// field multiplication.
pub open spec fn fr_pow(t: Seq<u8>, i: nat) -> Seq<u8>
    decreases i,
{
    if i <= 1 {
        t
    } else {
        fr_mul_of(fr_pow(t, (i - 1) as nat), t)
    }
}

/// An element of the scalar field Fr, held as its canonical 32-byte
/// big-endian encoding.
pub struct Scalar {
    pub(crate) bytes: Vec<u8>,
}

impl View for Scalar {
    type V = Seq<u8>;

    closed spec fn view(&self) -> Seq<u8> {
        self.bytes@
    }
}

impl Clone for Scalar {
    fn clone(&self) -> (r: Self)
        ensures
            r@ == self@,
    {
        let mut bytes: Vec<u8> = Vec::new();
        let mut i: usize = 0;
        while i < self.bytes.len()
            invariant
                i <= self.bytes@.len(),
                bytes@ == self.bytes@.take(i as int),
            decreases self.bytes@.len() - i,
        {
            bytes.push(self.bytes[i]);
            i += 1;
        }
        proof {
            assert(self.bytes@.take(self.bytes@.len() as int) =~= self.bytes@);
        }
        Scalar { bytes }
    }
}

impl Scalar {
    /// The scalar with the value of a machine integer.
    pub fn from_u64(n: u64) -> (r: Scalar)
        ensures
            r@ == fr_u64_bytes(n),
            fr_wf(r@),
    {
        let mut bytes: Vec<u8> = Vec::new();
        let mut i: usize = 0;
        while i < 24
            invariant
                i <= 24,
                bytes@ == Seq::new(i as nat, |k: int| 0u8),
            decreases 24 - i,
        {
            bytes.push(0u8);
            proof {
                assert(bytes@ =~= Seq::new((i + 1) as nat, |k: int| 0u8));
            }
            i += 1;
        }
        bytes.push((n >> 56) as u8);
        bytes.push((n >> 48) as u8);
        bytes.push((n >> 40) as u8);
        bytes.push((n >> 32) as u8);
        bytes.push((n >> 24) as u8);
        bytes.push((n >> 16) as u8);
        bytes.push((n >> 8) as u8);
        bytes.push(n as u8);
        proof {
            assert(bytes@ =~= fr_u64_bytes(n));
        }
        Scalar { bytes }
    }

    /// True exactly of the scalar 0.
    pub fn is_zero(&self) -> (r: bool)
        requires
            self@.len() == 32,
        ensures
            r == (self@ == fr_zero_bytes()),
    {
        let mut i: usize = 0;
        while i < self.bytes.len()
            invariant
                i <= self.bytes@.len(),
                self.bytes@.len() == 32,
                forall|k: int| 0 <= k < i ==> self.bytes@[k] == 0u8,
            decreases self.bytes@.len() - i,
        {
            if self.bytes[i] != 0 {
                proof {
                    assert(self@[i as int] != fr_zero_bytes()[i as int]);
                }
                return false;
            }
            i += 1;
        }
        proof {
            assert(self@ =~= fr_zero_bytes());
        }
        true
    }
}

/// The scalar 0 is canonically encoded.
pub proof fn lemma_fr_zero_wf()
    ensures
        fr_wf(fr_zero_bytes()),
        fr_u64_bytes(0) == fr_zero_bytes(),
{
    assert(fr_u64_bytes(0) =~= fr_zero_bytes()) by {
        assert(0u64 >> 56 == 0 && 0u64 >> 48 == 0 && 0u64 >> 40 == 0 && 0u64 >> 32 == 0
            && 0u64 >> 24 == 0 && 0u64 >> 16 == 0 && 0u64 >> 8 == 0) by (bit_vector);
    }
}

/// The scalar 1 is canonically encoded.
pub proof fn lemma_fr_one_wf()
    ensures
        fr_wf(fr_one_bytes()),
        fr_u64_bytes(1) == fr_one_bytes(),
{
    assert(fr_u64_bytes(1) =~= fr_one_bytes()) by {
        assert(1u64 >> 56 == 0 && 1u64 >> 48 == 0 && 1u64 >> 40 == 0 && 1u64 >> 32 == 0
            && 1u64 >> 24 == 0 && 1u64 >> 16 == 0 && 1u64 >> 8 == 0) by (bit_vector);
    }
}

/// Relies on ark_ff's field multiplication for Fr, reached through
/// `Fr::from_be_bytes_mod_order` on canonical encodings and written back in
/// canonical form with `into_repr().to_bytes_be()`.  The result is a function
/// of the two encodings alone; multiplication by 1 returns the other factor,
/// and multiplication by 0 returns 0.
#[verifier::external_body]
pub(crate) fn fr_mul(a: &Scalar, b: &Scalar) -> (r: Scalar)
    requires
        fr_wf(a@),
        fr_wf(b@),
    ensures
        r@ == fr_mul_of(a@, b@),
        fr_wf(r@),
        a@ == fr_one_bytes() ==> r@ == b@,
        b@ == fr_one_bytes() ==> r@ == a@,
        a@ == fr_zero_bytes() ==> r@ == fr_zero_bytes(),
        b@ == fr_zero_bytes() ==> r@ == fr_zero_bytes(),
{
    let x = ark_bls12_381::Fr::from_be_bytes_mod_order(a.bytes.as_slice());
    let y = ark_bls12_381::Fr::from_be_bytes_mod_order(b.bytes.as_slice());
    let z = x * y;
    Scalar { bytes: z.into_repr().to_bytes_be() }
}

/// Relies on ark_ff's `Fr::from_be_bytes_mod_order`: a deterministic
/// reduction of the big-endian bytes into the field, written back in
/// canonical form.
#[verifier::external_body]
pub(crate) fn fr_reduce(bytes: &Vec<u8>) -> (r: Scalar)
    ensures
        r@ == fr_mod_of(bytes@),
        fr_wf(r@),
{
    let x = ark_bls12_381::Fr::from_be_bytes_mod_order(bytes.as_slice());
    Scalar { bytes: x.into_repr().to_bytes_be() }
}

/// Relies on ark_ff's `UniformRand` for Fr, seeded from the rand crate's
/// thread-local generator.  Nothing is promised of the value beyond
/// canonical form.
#[verifier::external_body]
pub(crate) fn fr_rand() -> (r: Scalar)
    ensures
        fr_wf(r@),
{
    let x = <ark_bls12_381::Fr as ark_ff::UniformRand>::rand(&mut rand::thread_rng());
    Scalar { bytes: x.into_repr().to_bytes_be() }
}

/// Relies on the zeroize crate for `Vec<u8>`: the buffer's contents and spare
/// capacity are overwritten with zeros before the vector is cleared.
#[verifier::external_body]
pub(crate) fn wipe_bytes(v: &mut Vec<u8>)
    ensures
        final(v)@.len() == 0,
{
    zeroize::Zeroize::zeroize(v);
}

impl Scalar {
    /// Overwrites the scalar's bytes with zeros and empties them.
    pub fn wipe(&mut self)
        ensures
            final(self)@.len() == 0,
    {
        wipe_bytes(&mut self.bytes);
    }
}

} // verus!
