//! The named witness inputs of the reference confidential-transaction
//! circuit: a fixed topology of 10 input records (asset id, amount,
//! blinding factor, secret key) and 5 output records (asset id, amount,
//! blinding factor), each group bound by name to the circuit's wires by
//! the external circuit adapter.

use vstd::prelude::*;

verus! {

/// One named wire group: the circuit binds `values`, in order, to the
/// wires named `name`.
pub struct WitnessInput {
    pub name: String,
    pub values: Vec<u64>,
}

/// Asset ids of the 10 input records: all the same asset.
pub open spec fn demo_in_assets() -> Seq<u64> {
    Seq::new(10, |i: int| 1u64)
}

/// Amounts of the 10 input records; their total matches the outputs.
pub open spec fn demo_in_amounts() -> Seq<u64> {
    Seq::new(10, |i: int| 10000u64)
}

/// Secret keys of the 10 input records.
pub open spec fn demo_in_secret_keys() -> Seq<u64> {
    Seq::new(10, |i: int| (1212531253 + i) as u64)
}

/// Blinding factors of the 10 input records.
pub open spec fn demo_in_blinding() -> Seq<u64> {
    Seq::new(10, |i: int| (2131231253 + i) as u64)
}

/// Asset ids of the 5 output records.
pub open spec fn demo_out_asset() -> Seq<u64> {
    Seq::new(5, |i: int| 1u64)
}

/// Amounts of the 5 output records.
pub open spec fn demo_out_amount() -> Seq<u64> {
    Seq::new(5, |i: int| 20000u64)
}

/// Blinding factors of the 5 output records.
pub open spec fn demo_out_blinding() -> Seq<u64> {
    Seq::new(5, |i: int| (215531253 + i) as u64)
}

/// A vector of `n` copies of `v`.
fn constant_values(n: usize, v: u64) -> (r: Vec<u64>)
    ensures
        r@ == Seq::new(n as nat, |i: int| v),
{
    let mut out: Vec<u64> = Vec::new();
    let mut i: usize = 0;
    while i < n
        invariant
            i <= n,
            out@ == Seq::new(i as nat, |j: int| v),
        decreases n - i,
    {
        out.push(v);
        proof {
            assert(out@ =~= Seq::new((i + 1) as nat, |j: int| v));
        }
        i = i + 1;
    }
    out
}

/// The vector `base, base + 1, ..., base + n - 1`.
fn ramp_values(n: usize, base: u64) -> (r: Vec<u64>)
    requires
        base + n <= u64::MAX,
    ensures
        r@ == Seq::new(n as nat, |i: int| (base + i) as u64),
{
    let mut out: Vec<u64> = Vec::new();
    let mut i: usize = 0;
    while i < n
        invariant
            i <= n,
            base + n <= u64::MAX,
            out@ == Seq::new(i as nat, |j: int| (base + j) as u64),
        decreases n - i,
    {
        out.push(base + i as u64);
        proof {
            assert(out@ =~= Seq::new((i + 1) as nat, |j: int| (base + j) as u64));
        }
        i = i + 1;
    }
    out
}

/// The reference witness: every wire group of the fixed topology with
/// its documented values. Input and output amounts both total 100000,
/// so the witness meets the circuit's balance relation.
pub fn demo_witness() -> (r: Vec<WitnessInput>)
    ensures
        r@.len() == 7,
        r@[0].name@ == "in_assets"@ && r@[0].values@ == demo_in_assets(),
        r@[1].name@ == "in_amounts"@ && r@[1].values@ == demo_in_amounts(),
        r@[2].name@ == "in_blinding"@ && r@[2].values@ == demo_in_blinding(),
        r@[3].name@ == "in_secret_keys"@ && r@[3].values@ == demo_in_secret_keys(),
        r@[4].name@ == "out_asset"@ && r@[4].values@ == demo_out_asset(),
        r@[5].name@ == "out_amount"@ && r@[5].values@ == demo_out_amount(),
        r@[6].name@ == "out_blinding"@ && r@[6].values@ == demo_out_blinding(),
{
    let mut out: Vec<WitnessInput> = Vec::new();
    out.push(WitnessInput { name: "in_assets".to_owned(), values: constant_values(10, 1) });
    out.push(WitnessInput { name: "in_amounts".to_owned(), values: constant_values(10, 10000) });
    out.push(
        WitnessInput { name: "in_blinding".to_owned(), values: ramp_values(10, 2131231253) },
    );
    out.push(
        WitnessInput { name: "in_secret_keys".to_owned(), values: ramp_values(10, 1212531253) },
    );
    out.push(WitnessInput { name: "out_asset".to_owned(), values: constant_values(5, 1) });
    out.push(WitnessInput { name: "out_amount".to_owned(), values: constant_values(5, 20000) });
    out.push(
        WitnessInput { name: "out_blinding".to_owned(), values: ramp_values(5, 215531253) },
    );
    out
}

} // verus!
