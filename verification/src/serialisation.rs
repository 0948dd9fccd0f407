//! The hex-string array form of an SRS and of an update proof: each point
//! is "0x" followed by the lowercase hex of its compressed encoding.

use vstd::prelude::*;
use crate::hexstr::{
    bytes_of_hex,
    decode_hex,
    encode_hex,
    hex_of,
    hex_seq_ok,
    lemma_hex_of_ok,
    lemma_hex_roundtrip,
};
use crate::interop_point_encoding::{
    G1_SERIALISED_SIZE,
    G2_SERIALISED_SIZE,
    G1Point,
    G2Point,
    deserialize_g1,
    deserialize_g2,
    g1_decode_spec,
    g2_decode_spec,
    g1_wf,
    g2_wf,
    serialize_g1,
    serialize_g2,
};
use crate::srs::{Parameters, SRS};
use crate::update_proof::UpdateProof;

verus! {

/// "0x" followed by the lowercase hex of the bytes.
pub open spec fn point_hex_string(b: Seq<u8>) -> Seq<char> {
    seq!['0', 'x'] + hex_of(b)
}

/// The characters after a "0x" prefix, if there is one.
pub open spec fn strip_0x(s: Seq<char>) -> Option<Seq<char>> {
    if s.len() >= 2 && s[0] == '0' && s[1] == 'x' {
        Some(s.skip(2))
    } else {
        None
    }
}

/// What parsing a "0x"-prefixed hex string as a G1 point yields.
pub open spec fn hex_str_to_g1_spec(s: Seq<char>) -> Option<Seq<u8>> {
    match strip_0x(s) {
        Option::None => None,
        Option::Some(h) => if !hex_seq_ok(h) {
            None
        } else if bytes_of_hex(h).len() != 48 {
            None
        } else {
            g1_decode_spec(bytes_of_hex(h))
        },
    }
}

/// What parsing a "0x"-prefixed hex string as a G2 point yields.
pub open spec fn hex_str_to_g2_spec(s: Seq<char>) -> Option<Seq<u8>> {
    match strip_0x(s) {
        Option::None => None,
        Option::Some(h) => if !hex_seq_ok(h) {
            None
        } else if bytes_of_hex(h).len() != 96 {
            None
        } else {
            g2_decode_spec(bytes_of_hex(h))
        },
    }
}

/// The views of a list of strings.
pub open spec fn string_views(ss: Seq<String>) -> Seq<Seq<char>> {
    ss.map_values(|s: String| s@)
}

/// What parsing a list of G1 point strings yields: all of them, or nothing
/// if any is rejected.
pub open spec fn g1s_from_json_spec(ss: Seq<Seq<char>>) -> Option<Seq<Seq<u8>>>
    decreases ss.len(),
{
    if ss.len() == 0 {
        Some(Seq::empty())
    } else {
        match g1s_from_json_spec(ss.drop_last()) {
            Option::None => None,
            Option::Some(pre) => match hex_str_to_g1_spec(ss.last()) {
                Option::None => None,
                Option::Some(b) => Some(pre.push(b)),
            },
        }
    }
}

/// As [`g1s_from_json_spec`], in G2.
pub open spec fn g2s_from_json_spec(ss: Seq<Seq<char>>) -> Option<Seq<Seq<u8>>>
    decreases ss.len(),
{
    if ss.len() == 0 {
        Some(Seq::empty())
    } else {
        match g2s_from_json_spec(ss.drop_last()) {
            Option::None => None,
            Option::Some(pre) => match hex_str_to_g2_spec(ss.last()) {
                Option::None => None,
                Option::Some(b) => Some(pre.push(b)),
            },
        }
    }
}

/// What deserialising an SRS from its two string arrays yields: the two
/// point lists, decoded, with the expected counts and at least two entries
/// each.
pub open spec fn srs_from_json_spec(
    g1ss: Seq<Seq<char>>,
    g2ss: Seq<Seq<char>>,
    params: Parameters,
) -> Option<(Seq<Seq<u8>>, Seq<Seq<u8>>)> {
    match (g1s_from_json_spec(g1ss), g2s_from_json_spec(g2ss)) {
        (Option::Some(g1), Option::Some(g2)) => if g1.len() == params.num_g1_elements_needed
            && g2.len() == params.num_g2_elements_needed && g1.len() > 1 && g2.len() > 1 {
            Some((g1, g2))
        } else {
            None
        },
        _ => None,
    }
}

/// What deserialising an update proof from its string pair yields.
pub open spec fn proof_from_json_spec(ss: Seq<Seq<char>>) -> Option<(Seq<u8>, Seq<u8>)> {
    if ss.len() != 2 {
        None
    } else {
        match hex_str_to_g2_spec(ss[0]) {
            Option::None => None,
            Option::Some(c) => match hex_str_to_g1_spec(ss[1]) {
                Option::None => None,
                Option::Some(q) => Some((c, q)),
            },
        }
    }
}

/// The string after the "0x" prefix, if the prefix is there.
pub(crate) fn strip_hex_prefix<'a>(s: &'a str) -> (r: Option<&'a str>)
    ensures
        r matches Some(t) ==> strip_0x(s@) == Some(t@),
        r is None ==> strip_0x(s@) is None,
{
    let n = s.unicode_len();
    if n < 2 {
        return None;
    }
    if s.get_char(0) != '0' {
        return None;
    }
    if s.get_char(1) != 'x' {
        return None;
    }
    let t = s.substring_char(2, n);
    proof {
        assert(t@ =~= s@.skip(2));
    }
    Some(t)
}

/// Parses a "0x"-prefixed hex string as a G1 point.
fn hex_string_to_g1(hex_str: &str) -> (r: Option<G1Point>)
    ensures
        r matches Some(p) ==> hex_str_to_g1_spec(hex_str@) == Some(p@) && g1_wf(p@),
        r is None ==> hex_str_to_g1_spec(hex_str@) is None,
{
    let stripped = match strip_hex_prefix(hex_str) {
        Some(t) => t,
        None => {
            return None;
        },
    };
    let bytes = match decode_hex(stripped) {
        Some(b) => b,
        None => {
            return None;
        },
    };
    if bytes.len() != G1_SERIALISED_SIZE {
        return None;
    }
    deserialize_g1(&bytes)
}

/// Parses a "0x"-prefixed hex string as a G2 point.
fn hex_string_to_g2(hex_str: &str) -> (r: Option<G2Point>)
    ensures
        r matches Some(p) ==> hex_str_to_g2_spec(hex_str@) == Some(p@) && g2_wf(p@),
        r is None ==> hex_str_to_g2_spec(hex_str@) is None,
{
    let stripped = match strip_hex_prefix(hex_str) {
        Some(t) => t,
        None => {
            return None;
        },
    };
    let bytes = match decode_hex(stripped) {
        Some(b) => b,
        None => {
            return None;
        },
    };
    if bytes.len() != G2_SERIALISED_SIZE {
        return None;
    }
    deserialize_g2(&bytes)
}

/// Renders one G1 point as its "0x" hex string.
fn g1_to_json_string(p: &G1Point) -> (s: String)
    ensures
        s@ == point_hex_string(p@),
{
    let bytes = serialize_g1(p);
    let hex = encode_hex(&bytes);
    proof {
        reveal_strlit("0x");
        assert("0x"@ =~= seq!['0', 'x']);
    }
    let mut s = String::from_str("0x");
    s.append(hex.as_str());
    s
}

/// Renders one G2 point as its "0x" hex string.
fn g2_to_json_string(p: &G2Point) -> (s: String)
    ensures
        s@ == point_hex_string(p@),
{
    let bytes = serialize_g2(p);
    let hex = encode_hex(&bytes);
    proof {
        reveal_strlit("0x");
        assert("0x"@ =~= seq!['0', 'x']);
    }
    let mut s = String::from_str("0x");
    s.append(hex.as_str());
    s
}

/// Renders a list of G1 points as hex strings.
fn g1s_to_json_array(g1s: &Vec<G1Point>) -> (r: Vec<String>)
    ensures
        r@.len() == g1s@.len(),
        forall|i: int| 0 <= i < r@.len() ==> (#[trigger] r@[i])@ == point_hex_string(g1s@[i]@),
{
    let mut r: Vec<String> = Vec::new();
    let mut i: usize = 0;
    while i < g1s.len()
        invariant
            i <= g1s@.len(),
            r@.len() == i,
            forall|k: int| 0 <= k < i ==> (#[trigger] r@[k])@ == point_hex_string(g1s@[k]@),
        decreases g1s@.len() - i,
    {
        r.push(g1_to_json_string(&g1s[i]));
        i += 1;
    }
    r
}

/// Renders a list of G2 points as hex strings.
fn g2s_to_json_array(g2s: &Vec<G2Point>) -> (r: Vec<String>)
    ensures
        r@.len() == g2s@.len(),
        forall|i: int| 0 <= i < r@.len() ==> (#[trigger] r@[i])@ == point_hex_string(g2s@[i]@),
{
    let mut r: Vec<String> = Vec::new();
    let mut i: usize = 0;
    while i < g2s.len()
        invariant
            i <= g2s@.len(),
            r@.len() == i,
            forall|k: int| 0 <= k < i ==> (#[trigger] r@[k])@ == point_hex_string(g2s@[k]@),
        decreases g2s@.len() - i,
    {
        r.push(g2_to_json_string(&g2s[i]));
        i += 1;
    }
    r
}

/// A failed parse of a prefix stays failed for the whole list.
proof fn lemma_g1s_json_prefix_none(ss: Seq<Seq<char>>, i: int)
    requires
        0 <= i <= ss.len(),
        g1s_from_json_spec(ss.take(i)) is None,
    ensures
        g1s_from_json_spec(ss) is None,
    decreases ss.len() - i,
{
    if i < ss.len() {
        assert(ss.take(i + 1).drop_last() =~= ss.take(i));
        lemma_g1s_json_prefix_none(ss, i + 1);
    } else {
        assert(ss.take(i) =~= ss);
    }
}

/// As [`lemma_g1s_json_prefix_none`], in G2.
proof fn lemma_g2s_json_prefix_none(ss: Seq<Seq<char>>, i: int)
    requires
        0 <= i <= ss.len(),
        g2s_from_json_spec(ss.take(i)) is None,
    ensures
        g2s_from_json_spec(ss) is None,
    decreases ss.len() - i,
{
    if i < ss.len() {
        assert(ss.take(i + 1).drop_last() =~= ss.take(i));
        lemma_g2s_json_prefix_none(ss, i + 1);
    } else {
        assert(ss.take(i) =~= ss);
    }
}

/// Parses a list of G1 point strings; fails if any entry does.
fn g1s_from_json_array(ss: &Vec<String>) -> (r: Option<Vec<G1Point>>)
    ensures
        r matches Some(ps) ==> g1s_from_json_spec(string_views(ss@)) == Some(
            ps@.map_values(|p: G1Point| p@),
        ) && forall|i: int| 0 <= i < ps@.len() ==> g1_wf(#[trigger] ps@[i]@),
        r is None ==> g1s_from_json_spec(string_views(ss@)) is None,
{
    let mut ps: Vec<G1Point> = Vec::new();
    let mut i: usize = 0;
    while i < ss.len()
        invariant
            i <= ss@.len(),
            ps@.len() == i,
            g1s_from_json_spec(string_views(ss@).take(i as int)) == Some(
                ps@.map_values(|p: G1Point| p@),
            ),
            forall|k: int| 0 <= k < i ==> g1_wf(#[trigger] ps@[k]@),
        decreases ss@.len() - i,
    {
        let p = match hex_string_to_g1(ss[i].as_str()) {
            Some(p) => p,
            None => {
                proof {
                    assert(string_views(ss@).take(i + 1 as int).drop_last() =~= string_views(
                        ss@,
                    ).take(i as int));
                    assert(string_views(ss@).take(i + 1 as int).last() == ss@[i as int]@);
                    lemma_g1s_json_prefix_none(string_views(ss@), i + 1);
                }
                return None;
            },
        };
        let ghost prev = ps@.map_values(|p: G1Point| p@);
        ps.push(p);
        proof {
            assert(string_views(ss@).take(i + 1 as int).drop_last() =~= string_views(ss@).take(
                i as int,
            ));
            assert(string_views(ss@).take(i + 1 as int).last() == ss@[i as int]@);
            assert(ps@.map_values(|p: G1Point| p@) =~= prev.push(ps@[i as int]@));
        }
        i += 1;
    }
    proof {
        assert(string_views(ss@).take(ss@.len() as int) =~= string_views(ss@));
    }
    Some(ps)
}

/// Parses a list of G2 point strings; fails if any entry does.
fn g2s_from_json_array(ss: &Vec<String>) -> (r: Option<Vec<G2Point>>)
    ensures
        r matches Some(ps) ==> g2s_from_json_spec(string_views(ss@)) == Some(
            ps@.map_values(|p: G2Point| p@),
        ) && forall|i: int| 0 <= i < ps@.len() ==> g2_wf(#[trigger] ps@[i]@),
        r is None ==> g2s_from_json_spec(string_views(ss@)) is None,
{
    let mut ps: Vec<G2Point> = Vec::new();
    let mut i: usize = 0;
    while i < ss.len()
        invariant
            i <= ss@.len(),
            ps@.len() == i,
            g2s_from_json_spec(string_views(ss@).take(i as int)) == Some(
                ps@.map_values(|p: G2Point| p@),
            ),
            forall|k: int| 0 <= k < i ==> g2_wf(#[trigger] ps@[k]@),
        decreases ss@.len() - i,
    {
        let p = match hex_string_to_g2(ss[i].as_str()) {
            Some(p) => p,
            None => {
                proof {
                    assert(string_views(ss@).take(i + 1 as int).drop_last() =~= string_views(
                        ss@,
                    ).take(i as int));
                    assert(string_views(ss@).take(i + 1 as int).last() == ss@[i as int]@);
                    lemma_g2s_json_prefix_none(string_views(ss@), i + 1);
                }
                return None;
            },
        };
        let ghost prev = ps@.map_values(|p: G2Point| p@);
        ps.push(p);
        proof {
            assert(string_views(ss@).take(i + 1 as int).drop_last() =~= string_views(ss@).take(
                i as int,
            ));
            assert(string_views(ss@).take(i + 1 as int).last() == ss@[i as int]@);
            assert(ps@.map_values(|p: G2Point| p@) =~= prev.push(ps@[i as int]@));
        }
        i += 1;
    }
    proof {
        assert(string_views(ss@).take(ss@.len() as int) =~= string_views(ss@));
    }
    Some(ps)
}

impl SRS {
    /// The two hex-string arrays of the SRS.
    pub fn serialise(&self) -> (r: (Vec<String>, Vec<String>))
        requires
            self.wf(),
        ensures
            r.0@.len() == self.g1s().len(),
            r.1@.len() == self.g2s().len(),
            forall|i: int|
                0 <= i < r.0@.len() ==> (#[trigger] r.0@[i])@ == point_hex_string(self.g1s()[i]),
            forall|j: int|
                0 <= j < r.1@.len() ==> (#[trigger] r.1@[j])@ == point_hex_string(self.g2s()[j]),
    {
        (g1s_to_json_array(&self.tau_g1), g2s_to_json_array(&self.tau_g2))
    }

    /// Parses an SRS from its two hex-string arrays.  Every point must
    /// decode (it is checked to be on the curve, though not to be in the
    /// subgroup, and may be the identity), and the counts must match the
    /// parameters.
    pub fn deserialise(json_arr: (&Vec<String>, &Vec<String>), parameters: Parameters) -> (r:
        Option<SRS>)
        ensures
            r matches Some(s) ==> srs_from_json_spec(
                string_views(json_arr.0@),
                string_views(json_arr.1@),
                parameters,
            ) == Some((s.g1s(), s.g2s())) && s.wf(),
            r is None ==> srs_from_json_spec(
                string_views(json_arr.0@),
                string_views(json_arr.1@),
                parameters,
            ) is None,
    {
        let g1 = match g1s_from_json_array(json_arr.0) {
            Some(v) => v,
            None => {
                return None;
            },
        };
        let g2 = match g2s_from_json_array(json_arr.1) {
            Some(v) => v,
            None => {
                return None;
            },
        };
        if g1.len() != parameters.num_g1_elements_needed {
            return None;
        }
        if g2.len() != parameters.num_g2_elements_needed {
            return None;
        }
        SRS::from_vectors(g1, g2)
    }
}

impl UpdateProof {
    /// The two hex strings of the proof: the G2 commitment, then the new
    /// accumulated G1 point.
    pub fn serialise(&self) -> (r: Vec<String>)
        requires
            self.wf(),
        ensures
            r@.len() == 2,
            r@[0]@ == point_hex_string(self.commitment_to_secret@),
            r@[1]@ == point_hex_string(self.new_accumulated_point@),
    {
        let mut r: Vec<String> = Vec::new();
        r.push(g2_to_json_string(&self.commitment_to_secret));
        r.push(g1_to_json_string(&self.new_accumulated_point));
        r
    }

    /// Parses an update proof from its two hex strings.
    pub fn deserialise(json_array: Vec<String>) -> (r: Option<UpdateProof>)
        ensures
            r matches Some(p) ==> proof_from_json_spec(string_views(json_array@)) == Some(
                (p.commitment_to_secret@, p.new_accumulated_point@),
            ) && p.wf(),
            r is None ==> proof_from_json_spec(string_views(json_array@)) is None,
    {
        if json_array.len() != 2 {
            return None;
        }
        let commitment_to_secret = match hex_string_to_g2(json_array[0].as_str()) {
            Some(p) => p,
            None => {
                return None;
            },
        };
        let new_accumulated_point = match hex_string_to_g1(json_array[1].as_str()) {
            Some(p) => p,
            None => {
                return None;
            },
        };
        Some(UpdateProof { commitment_to_secret, new_accumulated_point })
    }
}

/// Parsing the rendered form of one G1 point gives the point back.
proof fn lemma_g1_string_roundtrip(b: Seq<u8>)
    requires
        g1_wf(b),
    ensures
        hex_str_to_g1_spec(point_hex_string(b)) == Some(b),
{
    let s = point_hex_string(b);
    assert(s[0] == '0' && s[1] == 'x');
    assert(s.skip(2) =~= hex_of(b));
    lemma_hex_of_ok(b);
    lemma_hex_roundtrip(b);
}

/// Parsing the rendered form of one G2 point gives the point back.
proof fn lemma_g2_string_roundtrip(b: Seq<u8>)
    requires
        g2_wf(b),
    ensures
        hex_str_to_g2_spec(point_hex_string(b)) == Some(b),
{
    let s = point_hex_string(b);
    assert(s[0] == '0' && s[1] == 'x');
    assert(s.skip(2) =~= hex_of(b));
    lemma_hex_of_ok(b);
    lemma_hex_roundtrip(b);
}

/// Parsing the rendered forms of a list of canonical G1 encodings gives
/// the list back.
proof fn lemma_g1s_json_roundtrip(bs: Seq<Seq<u8>>)
    requires
        forall|i: int| 0 <= i < bs.len() ==> g1_wf(#[trigger] bs[i]),
    ensures
        g1s_from_json_spec(bs.map_values(|b: Seq<u8>| point_hex_string(b))) == Some(bs),
    decreases bs.len(),
{
    let ss = bs.map_values(|b: Seq<u8>| point_hex_string(b));
    if bs.len() == 0 {
        assert(bs =~= Seq::<Seq<u8>>::empty());
    } else {
        assert(ss.drop_last() =~= bs.drop_last().map_values(|b: Seq<u8>| point_hex_string(b)));
        lemma_g1s_json_roundtrip(bs.drop_last());
        lemma_g1_string_roundtrip(bs.last());
        assert(bs.drop_last().push(bs.last()) =~= bs);
    }
}

/// As [`lemma_g1s_json_roundtrip`], in G2.
proof fn lemma_g2s_json_roundtrip(bs: Seq<Seq<u8>>)
    requires
        forall|i: int| 0 <= i < bs.len() ==> g2_wf(#[trigger] bs[i]),
    ensures
        g2s_from_json_spec(bs.map_values(|b: Seq<u8>| point_hex_string(b))) == Some(bs),
    decreases bs.len(),
{
    let ss = bs.map_values(|b: Seq<u8>| point_hex_string(b));
    if bs.len() == 0 {
        assert(bs =~= Seq::<Seq<u8>>::empty());
    } else {
        assert(ss.drop_last() =~= bs.drop_last().map_values(|b: Seq<u8>| point_hex_string(b)));
        lemma_g2s_json_roundtrip(bs.drop_last());
        lemma_g2_string_roundtrip(bs.last());
        assert(bs.drop_last().push(bs.last()) =~= bs);
    }
}

/// The serialisation round trip is the identity on a well-formed SRS:
/// deserialising the rendered hex-string arrays under the SRS's own
/// dimensions yields exactly the SRS's powers.
pub proof fn lemma_srs_roundtrip(s: SRS, params: Parameters)
    requires
        s.wf(),
        params.num_g1_elements_needed == s.g1s().len(),
        params.num_g2_elements_needed == s.g2s().len(),
    ensures
        srs_from_json_spec(
            s.g1s().map_values(|b: Seq<u8>| point_hex_string(b)),
            s.g2s().map_values(|b: Seq<u8>| point_hex_string(b)),
            params,
        ) == Some((s.g1s(), s.g2s())),
{
    lemma_g1s_json_roundtrip(s.g1s());
    lemma_g2s_json_roundtrip(s.g2s());
}

/// The serialisation round trip is the identity on an update proof.
pub proof fn lemma_update_proof_roundtrip(c: Seq<u8>, q: Seq<u8>)
    requires
        g2_wf(c),
        g1_wf(q),
    ensures
        proof_from_json_spec(seq![point_hex_string(c), point_hex_string(q)]) == Some((c, q)),
{
    lemma_g2_string_roundtrip(c);
    lemma_g1_string_roundtrip(q);
}

/// The hex-array form of an SRS together with the counts and the public
/// key (the degree-1 G2 element's hex), as carried in the ceremony's
/// JSON envelope.
#[derive(Debug, Clone)]
pub struct SRSJson {
    pub num_g1_powers: usize,
    pub num_g2_powers: usize,
    pub powers_of_tau: PowerOfTau,
    pub pot_pubkey: String,
}

/// The two point arrays of the envelope.
#[derive(Debug, Clone)]
pub struct PowerOfTau {
    pub g1_powers: Vec<String>,
    pub g2_powers: Vec<String>,
}

/// The envelope parses under its own counts.
pub open spec fn envelope_slot_parses(j: SRSJson) -> bool {
    srs_from_json_spec(
        string_views(j.powers_of_tau.g1_powers@),
        string_views(j.powers_of_tau.g2_powers@),
        Parameters {
            num_g1_elements_needed: j.num_g1_powers,
            num_g2_elements_needed: j.num_g2_powers,
        },
    ) is Some
}

/// The envelope fields that describe the given powers.
pub open spec fn srs_json_matches(j: SRSJson, g1s: Seq<Seq<u8>>, g2s: Seq<Seq<u8>>) -> bool {
    &&& j.num_g1_powers == g1s.len()
    &&& j.num_g2_powers == g2s.len()
    &&& j.powers_of_tau.g1_powers@.len() == g1s.len()
    &&& j.powers_of_tau.g2_powers@.len() == g2s.len()
    &&& forall|i: int|
        0 <= i < g1s.len() ==> (#[trigger] j.powers_of_tau.g1_powers@[i])@ == point_hex_string(
            g1s[i],
        )
    &&& forall|k: int|
        0 <= k < g2s.len() ==> (#[trigger] j.powers_of_tau.g2_powers@[k])@ == point_hex_string(
            g2s[k],
        )
    &&& g2s.len() > 1 ==> j.pot_pubkey@ == point_hex_string(g2s[1])
}

impl SRSJson {
    /// The envelope form of an SRS.
    pub fn from_srs(srs: &SRS) -> (r: SRSJson)
        requires
            srs.wf(),
        ensures
            srs_json_matches(r, srs.g1s(), srs.g2s()),
    {
        let (g1_powers, g2_powers) = srs.serialise();
        let pot_pubkey = g2_to_json_string(&srs.tau_g2[1]);
        SRSJson {
            num_g1_powers: g1_powers.len(),
            num_g2_powers: g2_powers.len(),
            powers_of_tau: PowerOfTau { g1_powers, g2_powers },
            pot_pubkey,
        }
    }

    /// The SRS of an envelope, under the envelope's own counts.
    pub fn to_srs(&self) -> (r: Option<SRS>)
        ensures
            r matches Some(s) ==> srs_from_json_spec(
                string_views(self.powers_of_tau.g1_powers@),
                string_views(self.powers_of_tau.g2_powers@),
                Parameters {
                    num_g1_elements_needed: self.num_g1_powers,
                    num_g2_elements_needed: self.num_g2_powers,
                },
            ) == Some((s.g1s(), s.g2s())) && s.wf(),
            r is None ==> srs_from_json_spec(
                string_views(self.powers_of_tau.g1_powers@),
                string_views(self.powers_of_tau.g2_powers@),
                Parameters {
                    num_g1_elements_needed: self.num_g1_powers,
                    num_g2_elements_needed: self.num_g2_powers,
                },
            ) is None,
    {
        let parameters = Parameters::new(self.num_g1_powers, self.num_g2_powers);
        SRS::deserialise((&self.powers_of_tau.g1_powers, &self.powers_of_tau.g2_powers), parameters)
    }
}

} // verus!
