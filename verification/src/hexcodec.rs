//! Lowercase hex text encoding of byte strings, with an exact
//! character-level specification.

use vstd::prelude::*;

verus! {

/// The ASCII code of the lowercase hex digit for a value below 16.
pub open spec fn hex_digit(n: nat) -> u8 {
    if n < 10 {
        (48 + n) as u8
    } else {
        (87 + n) as u8
    }
}

/// The ASCII codes of the hex encoding: two digits per byte, high
/// nibble first.
pub open spec fn hex_bytes(s: Seq<u8>) -> Seq<u8>
    decreases s.len(),
{
    if s.len() == 0 {
        Seq::empty()
    } else {
        seq![hex_digit((s[0] / 16) as nat), hex_digit((s[0] % 16) as nat)] + hex_bytes(s.skip(1))
    }
}

/// The hex encoding as characters.
pub open spec fn hex_chars(s: Seq<u8>) -> Seq<char> {
    hex_bytes(s).map_values(|b: u8| b as char)
}

/// Appending a byte appends its two digits.
pub proof fn lemma_hex_bytes_push(s: Seq<u8>, b: u8)
    ensures
        hex_bytes(s.push(b)) == hex_bytes(s) + seq![
            hex_digit((b / 16) as nat),
            hex_digit((b % 16) as nat),
        ],
    decreases s.len(),
{
    let t = s.push(b);
    assert(hex_bytes(t) == seq![hex_digit((t[0] / 16) as nat), hex_digit((t[0] % 16) as nat)]
        + hex_bytes(t.skip(1)));
    if s.len() == 0 {
        assert(t.skip(1) =~= Seq::<u8>::empty());
        assert(t[0] == b);
        assert(hex_bytes(s.push(b)) =~= hex_bytes(s) + seq![
            hex_digit((b / 16) as nat),
            hex_digit((b % 16) as nat),
        ]);
    } else {
        assert(t.skip(1) =~= s.skip(1).push(b));
        assert(t[0] == s[0]);
        lemma_hex_bytes_push(s.skip(1), b);
        assert(hex_bytes(s) == seq![hex_digit((s[0] / 16) as nat), hex_digit((s[0] % 16) as nat)]
            + hex_bytes(s.skip(1)));
        assert(hex_bytes(s.push(b)) =~= hex_bytes(s) + seq![
            hex_digit((b / 16) as nat),
            hex_digit((b % 16) as nat),
        ]);
    }
}

/// The hex encoding of a byte vector, as ASCII codes.
pub fn hex_encode_bytes(data: &Vec<u8>) -> (r: Vec<u8>)
    ensures
        r@ == hex_bytes(data@),
        forall|i: int| 0 <= i < r@.len() ==> r@[i] < 128,
{
    let mut out: Vec<u8> = Vec::new();
    let mut i: usize = 0;
    proof {
        assert(data@.take(0) =~= Seq::<u8>::empty());
    }
    while i < data.len()
        invariant
            i <= data@.len(),
            out@ == hex_bytes(data@.take(i as int)),
            forall|j: int| 0 <= j < out@.len() ==> out@[j] < 128,
        decreases data@.len() - i,
    {
        let b = data[i];
        let hi = b / 16;
        let lo = b % 16;
        let hi_d: u8 = if hi < 10 {
            48 + hi
        } else {
            87 + hi
        };
        let lo_d: u8 = if lo < 10 {
            48 + lo
        } else {
            87 + lo
        };
        out.push(hi_d);
        out.push(lo_d);
        proof {
            lemma_hex_bytes_push(data@.take(i as int), data@[i as int]);
            assert(data@.take(i + 1) =~= data@.take(i as int).push(data@[i as int]));
        }
        i = i + 1;
    }
    proof {
        assert(data@.take(data@.len() as int) =~= data@);
    }
    out
}

/// Relies on `String::from_utf8`: a vector of ASCII codes decodes
/// without error to the string of the characters with those code
/// points.
#[verifier::external_body]
fn ascii_to_string(v: Vec<u8>) -> (r: String)
    requires
        forall|i: int| 0 <= i < v@.len() ==> v@[i] < 128,
    ensures
        r@ == v@.map_values(|b: u8| b as char),
{
    String::from_utf8(v).unwrap()
}

/// The lowercase hex encoding of a byte vector: two digits per byte,
/// high nibble first.
pub fn hex_encode(data: &Vec<u8>) -> (r: String)
    ensures
        r@ == hex_chars(data@),
{
    let codes = hex_encode_bytes(data);
    ascii_to_string(codes)
}

} // verus!
