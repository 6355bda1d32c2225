//! Arbitrary-precision natural numbers as little-endian byte vectors.
//!
//! Field arithmetic in this crate is stated over the mathematical value
//! of a byte vector, [`le_val`]. The executable arithmetic is delegated
//! to `num_bigint`, each operation behind one trusted wrapper whose
//! contract relates the bytes of the result to the values of the inputs.

use vstd::prelude::*;

verus! {

/// The natural number denoted by a little-endian byte sequence:
/// `s[0] + 256*s[1] + 256^2*s[2] + ...`. Trailing zero bytes do not
/// change the value.
pub open spec fn le_val(s: Seq<u8>) -> nat
    decreases s.len(),
{
    if s.len() == 0 {
        0
    } else {
        (s[0] as nat) + 256 * le_val(s.skip(1))
    }
}

/// Two byte vectors of the same length denoting the same value are
/// equal: the fixed-length little-endian representation is canonical.
pub proof fn lemma_le_val_injective(a: Seq<u8>, b: Seq<u8>)
    requires
        a.len() == b.len(),
        le_val(a) == le_val(b),
    ensures
        a =~= b,
    decreases a.len(),
{
    if a.len() > 0 {
        assert(le_val(a) == (a[0] as nat) + 256 * le_val(a.skip(1)));
        assert(le_val(b) == (b[0] as nat) + 256 * le_val(b.skip(1)));
        lemma_mod_of_digit(a[0] as nat, le_val(a.skip(1)));
        lemma_mod_of_digit(b[0] as nat, le_val(b.skip(1)));
        assert(a[0] == b[0]);
        assert(le_val(a.skip(1)) == le_val(b.skip(1)));
        lemma_le_val_injective(a.skip(1), b.skip(1));
        assert(forall|i: int| 0 <= i < a.len() ==> a[i] == b[i]) by {
            assert(forall|i: int| 1 <= i < a.len() ==> a[i] == a.skip(1)[i - 1]
                && b[i] == b.skip(1)[i - 1]);
        }
    }
}

/// The first digit of `d + 256*rest` is recovered by reduction modulo 256.
proof fn lemma_mod_of_digit(d: nat, rest: nat)
    requires
        d < 256,
    ensures
        (d + 256 * rest) % 256 == d,
{
    vstd::arithmetic::div_mod::lemma_mod_multiples_vanish(rest as int, d as int, 256);
    vstd::arithmetic::div_mod::lemma_small_mod(d, 256);
}

/// Relies on `num_bigint::BigUint`: `from_bytes_le`, `Mul`, `to_bytes_le`.
/// The product of the two input values, little-endian.
#[verifier::external_body]
pub fn big_mul(a: &Vec<u8>, b: &Vec<u8>) -> (r: Vec<u8>)
    ensures
        le_val(r@) == le_val(a@) * le_val(b@),
{
    let x = num_bigint::BigUint::from_bytes_le(a);
    let y = num_bigint::BigUint::from_bytes_le(b);
    (x * y).to_bytes_le()
}

/// Relies on `num_bigint::BigUint`: `from_bytes_le`, `Add`, `to_bytes_le`.
/// The sum of the two input values, little-endian.
#[verifier::external_body]
pub fn big_add(a: &Vec<u8>, b: &Vec<u8>) -> (r: Vec<u8>)
    ensures
        le_val(r@) == le_val(a@) + le_val(b@),
{
    let x = num_bigint::BigUint::from_bytes_le(a);
    let y = num_bigint::BigUint::from_bytes_le(b);
    (x + y).to_bytes_le()
}

/// Relies on `num_bigint::BigUint`: `from_bytes_le`, `Rem`, `to_bytes_le`.
/// The remainder of the first value modulo the second.
#[verifier::external_body]
pub fn big_rem(a: &Vec<u8>, m: &Vec<u8>) -> (r: Vec<u8>)
    requires
        le_val(m@) > 0,
    ensures
        le_val(r@) == le_val(a@) % le_val(m@),
{
    let x = num_bigint::BigUint::from_bytes_le(a);
    let y = num_bigint::BigUint::from_bytes_le(m);
    (x % y).to_bytes_le()
}

/// Relies on `num_bigint::BigUint`: `from_bytes_le`, `Rem`, `to_bytes_le`,
/// and `Vec::resize`. As [`big_rem`], with the result padded with zero
/// bytes to a fixed width of 32; the remainder is below the modulus,
/// whose 32 bytes bound its value below `256^32`, so no byte is dropped.
#[verifier::external_body]
pub fn big_rem32(a: &Vec<u8>, m: &Vec<u8>) -> (r: Vec<u8>)
    requires
        le_val(m@) > 0,
        m@.len() == 32,
    ensures
        r@.len() == 32,
        le_val(r@) == le_val(a@) % le_val(m@),
{
    let x = num_bigint::BigUint::from_bytes_le(a);
    let y = num_bigint::BigUint::from_bytes_le(m);
    let mut v = (x % y).to_bytes_le();
    v.resize(32, 0);
    v
}

/// Relies on `num_bigint::BigUint`: `from_bytes_le` and `PartialEq`.
/// Whether the two byte vectors denote the same number.
#[verifier::external_body]
pub fn big_eq(a: &Vec<u8>, b: &Vec<u8>) -> (r: bool)
    ensures
        r == (le_val(a@) == le_val(b@)),
{
    let x = num_bigint::BigUint::from_bytes_le(a);
    let y = num_bigint::BigUint::from_bytes_le(b);
    x == y
}

/// Relies on `num_bigint::BigUint`: `from_bytes_le` and `Ord`.
/// Whether the first value is strictly below the second.
#[verifier::external_body]
pub fn big_lt(a: &Vec<u8>, b: &Vec<u8>) -> (r: bool)
    ensures
        r == (le_val(a@) < le_val(b@)),
{
    let x = num_bigint::BigUint::from_bytes_le(a);
    let y = num_bigint::BigUint::from_bytes_le(b);
    x < y
}

/// Relies on `num_bigint::BigUint`: `from_bytes_le`, `Mul<u64>`, `to_bytes_le`.
/// The input value scaled by a machine-word factor.
#[verifier::external_body]
pub fn big_mul_u64(a: &Vec<u8>, k: u64) -> (r: Vec<u8>)
    ensures
        le_val(r@) == le_val(a@) * k,
{
    let x = num_bigint::BigUint::from_bytes_le(a);
    (x * k).to_bytes_le()
}

/// Relies on `num_bigint::BigUint`: `from_bytes_le`, `Add<u64>`, `to_bytes_le`.
/// The input value plus a machine-word addend.
#[verifier::external_body]
pub fn big_add_u64(a: &Vec<u8>, k: u64) -> (r: Vec<u8>)
    ensures
        le_val(r@) == le_val(a@) + k,
{
    let x = num_bigint::BigUint::from_bytes_le(a);
    (x + k).to_bytes_le()
}

/// `k` inverts `a` modulo `m`.
pub open spec fn is_mod_inverse(k: nat, a: nat, m: nat) -> bool {
    (k * a) % m == 1nat % m
}

/// Relies on `num_bigint::BigUint::modinv`: the result is the modular
/// multiplicative inverse when one exists and nothing otherwise; the
/// inverse lies in `[0, m)` and its product with the input is one
/// modulo the modulus.
#[verifier::external_body]
pub fn big_mod_inv(a: &Vec<u8>, m: &Vec<u8>) -> (r: Option<Vec<u8>>)
    requires
        le_val(m@) > 0,
    ensures
        r is Some <==> exists|k: nat| #[trigger] is_mod_inverse(k, le_val(a@), le_val(m@)),
        r matches Some(v) ==> le_val(v@) < le_val(m@) && is_mod_inverse(
            le_val(v@),
            le_val(a@),
            le_val(m@),
        ),
{
    let x = num_bigint::BigUint::from_bytes_le(a);
    let y = num_bigint::BigUint::from_bytes_le(m);
    x.modinv(&y).map(|v| v.to_bytes_le())
}

} // verus!
