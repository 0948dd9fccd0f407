//! A contributor's secret: a scalar of Fr, wiped when it has served.

use vstd::prelude::*;
use crate::curve_ops::{g2_mul, g2_mul_of};
use crate::interop_point_encoding::{G2Point, g2_generator_bytes, g2_wf};
use crate::scalar::{Scalar, fr_wf, fr_mod_of, fr_u64_bytes, fr_rand, fr_reduce};

verus! {

/// A secret scalar tau.  It is consumed by an SRS update or by deriving its
/// public commitment, and its bytes are overwritten with zeros on the way
/// out.
pub struct PrivateKey {
    pub tau: Scalar,
}

impl PrivateKey {
    pub open spec fn wf(&self) -> bool {
        fr_wf(self.tau@)
    }

    /// The secret encoded by this key.
    pub open spec fn secret(&self) -> Seq<u8> {
        self.tau@
    }

    /// The secret with the value of a machine integer.
    pub fn from_u64(n: u64) -> (r: PrivateKey)
        ensures
            r.secret() == fr_u64_bytes(n),
            r.wf(),
    {
        PrivateKey { tau: Scalar::from_u64(n) }
    }

    /// A secret drawn from the system's entropy.
    pub fn rand() -> (r: PrivateKey)
        ensures
            r.wf(),
    {
        PrivateKey { tau: fr_rand() }
    }

    /// The secret obtained by reducing a byte string modulo r.
    pub fn from_bytes(bytes: &Vec<u8>) -> (r: PrivateKey)
        ensures
            r.secret() == fr_mod_of(bytes@),
            r.wf(),
    {
        PrivateKey { tau: fr_reduce(bytes) }
    }

    /// The public commitment tau * g2 to the secret.  The key is consumed
    /// and its bytes are wiped.
    pub fn to_public(self) -> (r: G2Point)
        requires
            self.wf(),
        ensures
            r@ == g2_mul_of(g2_generator_bytes(), self.secret()),
            g2_wf(r@),
    {
        let gen = G2Point::generator();
        let mut key = self;
        let p = g2_mul(&gen, &key.tau);
        key.tau.wipe();
        p
    }
}

} // verus!
