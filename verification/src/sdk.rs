//! The ceremony facade: a fixed bundle of four sub-ceremonies with the
//! Ethereum parameters, updated and verified slot by slot from hex-encoded
//! secrets and challenges.

pub mod contribution;
pub mod transcript;

use vstd::prelude::*;
use crate::hexstr::{bytes_of_hex, hex_seq_ok};
use crate::scalar::fr_mod_of;
use crate::serialisation::strip_0x;
use crate::srs::Parameters;

verus! {

pub const NUM_CEREMONIES: usize = 4;

/// The parameters of the four Ethereum sub-ceremonies.
pub open spec fn ceremony_params(i: int) -> Parameters {
    if i == 0 {
        Parameters { num_g1_elements_needed: 4096, num_g2_elements_needed: 65 }
    } else if i == 1 {
        Parameters { num_g1_elements_needed: 8192, num_g2_elements_needed: 65 }
    } else if i == 2 {
        Parameters { num_g1_elements_needed: 16384, num_g2_elements_needed: 65 }
    } else {
        Parameters { num_g1_elements_needed: 32768, num_g2_elements_needed: 65 }
    }
}

/// The parameters of the four sub-ceremonies, in order.
pub fn ceremonies() -> (r: Vec<Parameters>)
    ensures
        r@.len() == NUM_CEREMONIES,
        forall|i: int| 0 <= i < NUM_CEREMONIES ==> #[trigger] r@[i] == ceremony_params(i),
{
    let mut r: Vec<Parameters> = Vec::new();
    r.push(Parameters::new(4096, 65));
    r.push(Parameters::new(8192, 65));
    r.push(Parameters::new(16384, 65));
    r.push(Parameters::new(32768, 65));
    r
}

/// What decoding a "0x"-prefixed hex string into a scalar yields: the
/// bytes, reduced modulo r.
pub open spec fn secret_of_hex(s: Seq<char>) -> Option<Seq<u8>> {
    match strip_0x(s) {
        Option::None => None,
        Option::Some(h) => if hex_seq_ok(h) {
            Some(fr_mod_of(bytes_of_hex(h)))
        } else {
            None
        },
    }
}

} // verus!
