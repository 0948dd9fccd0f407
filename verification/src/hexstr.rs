//! Lowercase hexadecimal encoding and decoding of byte strings, with an
//! exact character-level specification and a proved round trip.

use vstd::prelude::*;

verus! {

/// The lowercase hexadecimal digit for a nibble.
pub open spec fn hex_digit_char(n: u8) -> char {
    if n == 0 {
        '0'
    } else if n == 1 {
        '1'
    } else if n == 2 {
        '2'
    } else if n == 3 {
        '3'
    } else if n == 4 {
        '4'
    } else if n == 5 {
        '5'
    } else if n == 6 {
        '6'
    } else if n == 7 {
        '7'
    } else if n == 8 {
        '8'
    } else if n == 9 {
        '9'
    } else if n == 10 {
        'a'
    } else if n == 11 {
        'b'
    } else if n == 12 {
        'c'
    } else if n == 13 {
        'd'
    } else if n == 14 {
        'e'
    } else {
        'f'
    }
}

/// The value of a hexadecimal digit; 255 for a character that is none.
/// Both lowercase and uppercase digits are accepted.
pub open spec fn hex_val(c: char) -> u8 {
    if c == '0' {
        0
    } else if c == '1' {
        1
    } else if c == '2' {
        2
    } else if c == '3' {
        3
    } else if c == '4' {
        4
    } else if c == '5' {
        5
    } else if c == '6' {
        6
    } else if c == '7' {
        7
    } else if c == '8' {
        8
    } else if c == '9' {
        9
    } else if c == 'a' || c == 'A' {
        10
    } else if c == 'b' || c == 'B' {
        11
    } else if c == 'c' || c == 'C' {
        12
    } else if c == 'd' || c == 'D' {
        13
    } else if c == 'e' || c == 'E' {
        14
    } else if c == 'f' || c == 'F' {
        15
    } else {
        255
    }
}

pub open spec fn is_hex_digit(c: char) -> bool {
    hex_val(c) != 255
}

/// The lowercase hexadecimal rendering of a byte string: two digits per byte,
/// most significant nibble first.
pub open spec fn hex_of(bs: Seq<u8>) -> Seq<char> {
    Seq::new(
        bs.len() * 2,
        |i: int|
            if i % 2 == 0 {
                hex_digit_char(bs[i / 2] >> 4)
            } else {
                hex_digit_char(bs[i / 2] & 0x0f)
            },
    )
}

/// A character sequence is well-formed hexadecimal: even length, digits only.
pub open spec fn hex_seq_ok(s: Seq<char>) -> bool {
    &&& s.len() % 2 == 0
    &&& forall|i: int| 0 <= i < s.len() ==> is_hex_digit(#[trigger] s[i])
}

/// The bytes denoted by a well-formed hexadecimal character sequence.
pub open spec fn bytes_of_hex(s: Seq<char>) -> Seq<u8> {
    Seq::new(
        s.len() / 2,
        |i: int| ((hex_val(s[2 * i]) as int) * 16 + (hex_val(s[2 * i + 1]) as int)) as u8,
    )
}

/// Appends the single lowercase digit for the nibble `n` to `s`.
fn append_nibble(s: &mut String, n: u8)
    requires
        n < 16,
    ensures
        final(s)@ == old(s)@ + seq![hex_digit_char(n)],
{
    proof {
        reveal_strlit("0");
        reveal_strlit("1");
        reveal_strlit("2");
        reveal_strlit("3");
        reveal_strlit("4");
        reveal_strlit("5");
        reveal_strlit("6");
        reveal_strlit("7");
        reveal_strlit("8");
        reveal_strlit("9");
        reveal_strlit("a");
        reveal_strlit("b");
        reveal_strlit("c");
        reveal_strlit("d");
        reveal_strlit("e");
        reveal_strlit("f");
    }
    let d: &str = if n == 0 {
        "0"
    } else if n == 1 {
        "1"
    } else if n == 2 {
        "2"
    } else if n == 3 {
        "3"
    } else if n == 4 {
        "4"
    } else if n == 5 {
        "5"
    } else if n == 6 {
        "6"
    } else if n == 7 {
        "7"
    } else if n == 8 {
        "8"
    } else if n == 9 {
        "9"
    } else if n == 10 {
        "a"
    } else if n == 11 {
        "b"
    } else if n == 12 {
        "c"
    } else if n == 13 {
        "d"
    } else if n == 14 {
        "e"
    } else {
        "f"
    };
    proof {
        assert(d@ =~= seq![hex_digit_char(n)]);
    }
    s.append(d);
}

/// Renders a byte string as lowercase hexadecimal.
pub fn encode_hex(bytes: &Vec<u8>) -> (s: String)
    ensures
        s@ == hex_of(bytes@),
{
    let mut s = String::new();
    let mut i: usize = 0;
    while i < bytes.len()
        invariant
            i <= bytes@.len(),
            s@ == hex_of(bytes@.take(i as int)),
        decreases bytes@.len() - i,
    {
        let b = bytes[i];
        proof {
            assert(b >> 4 < 16 && b & 0x0f < 16) by (bit_vector);
        }
        append_nibble(&mut s, b >> 4);
        append_nibble(&mut s, b & 0x0f);
        proof {
            assert(s@ =~= hex_of(bytes@.take(i + 1 as int)));
        }
        i += 1;
    }
    proof {
        assert(bytes@.take(bytes@.len() as int) =~= bytes@);
    }
    s
}

/// The exec mirror of [`hex_val`].
fn hex_val_exec(c: char) -> (v: u8)
    ensures
        v == hex_val(c),
{
    if c == '0' {
        0
    } else if c == '1' {
        1
    } else if c == '2' {
        2
    } else if c == '3' {
        3
    } else if c == '4' {
        4
    } else if c == '5' {
        5
    } else if c == '6' {
        6
    } else if c == '7' {
        7
    } else if c == '8' {
        8
    } else if c == '9' {
        9
    } else if c == 'a' || c == 'A' {
        10
    } else if c == 'b' || c == 'B' {
        11
    } else if c == 'c' || c == 'C' {
        12
    } else if c == 'd' || c == 'D' {
        13
    } else if c == 'e' || c == 'E' {
        14
    } else if c == 'f' || c == 'F' {
        15
    } else {
        255
    }
}

/// Parses a hexadecimal string into bytes.  Fails exactly on strings of odd
/// length or with a character that is no hexadecimal digit.
pub fn decode_hex(s: &str) -> (r: Option<Vec<u8>>)
    ensures
        match r {
            Some(v) => hex_seq_ok(s@) && v@ == bytes_of_hex(s@),
            None => !hex_seq_ok(s@),
        },
{
    let n = s.unicode_len();
    if n % 2 != 0 {
        return None;
    }
    let mut out: Vec<u8> = Vec::new();
    let mut i: usize = 0;
    while i < n
        invariant
            n == s@.len(),
            n % 2 == 0,
            i % 2 == 0,
            i <= n,
            forall|k: int| 0 <= k < i ==> is_hex_digit(#[trigger] s@[k]),
            out@ == bytes_of_hex(s@.take(i as int)),
        decreases n - i,
    {
        let hi = hex_val_exec(s.get_char(i));
        if hi == 255 {
            return None;
        }
        let lo = hex_val_exec(s.get_char(i + 1));
        if lo == 255 {
            return None;
        }
        out.push(hi * 16 + lo);
        proof {
            assert(out@ =~= bytes_of_hex(s@.take(i + 2 as int)));
        }
        i += 2;
    }
    proof {
        assert(s@.take(n as int) =~= s@);
    }
    Some(out)
}

/// Every character that [`hex_of`] emits is a hexadecimal digit.
pub proof fn lemma_hex_of_ok(bs: Seq<u8>)
    ensures
        hex_seq_ok(hex_of(bs)),
{
    assert forall|i: int| 0 <= i < hex_of(bs).len() implies is_hex_digit(#[trigger] hex_of(bs)[i]) by {
        let b = bs[i / 2];
        assert(b >> 4 < 16 && b & 0x0f < 16) by (bit_vector);
    }
}

/// Decoding inverts encoding: the round trip through lowercase hexadecimal
/// returns the bytes it was given.
pub proof fn lemma_hex_roundtrip(bs: Seq<u8>)
    ensures
        bytes_of_hex(hex_of(bs)) == bs,
{
    assert forall|i: int| 0 <= i < bs.len() implies bytes_of_hex(hex_of(bs))[i] == bs[i] by {
        let b = bs[i];
        assert(b >> 4 < 16 && b & 0x0f < 16 && ((b >> 4) as int) * 16 + ((b & 0x0f) as int)
            == b as int) by (bit_vector);
    }
    assert(bytes_of_hex(hex_of(bs)) =~= bs);
}

} // verus!
