//! The Groth16 proof pipeline over BN254: trusted setup, proving,
//! verification and canonical encoding of the results.
//!
//! The cryptographic group and pairing work is delegated to
//! `ark_groth16` behind trusted wrappers. Each opaque value has a view
//! — a circuit the plain constraint data it was built from, a key or
//! proof the canonical compressed bytes it serializes to — and every
//! wrapper's contract names its result as a deterministic function of
//! those views. What this module verifies is
//! the pipeline's own logic: dimension validation at circuit
//! construction, the witness-satisfaction gate before proving, the
//! error taxonomy, the canonical concatenation of the public-input
//! sequence, and the hex rendering of every emitted artifact.

use vstd::prelude::*;
use ark_ff::{BigInteger, PrimeField};
use ark_relations::gr1cs::{ConstraintSynthesizer, ConstraintSystem};
use ark_snark::SNARK;
use rand::SeedableRng;
use crate::bignat::le_val;
use crate::curve::p_base;
use crate::hexcodec::{hex_chars, hex_encode};

verus! {

/// One rank-1 constraint `a * b = c`: each side a linear combination of
/// wires, given as pairs of wire index and coefficient (canonical
/// little-endian field-element bytes).
pub struct ConstraintRow {
    pub a: Vec<(usize, Vec<u8>)>,
    pub b: Vec<(usize, Vec<u8>)>,
    pub c: Vec<(usize, Vec<u8>)>,
}

/// A linear combination as plain data: wire indices and coefficient
/// byte sequences.
pub open spec fn lc_model(lc: Seq<(usize, Vec<u8>)>) -> Seq<(usize, Seq<u8>)> {
    lc.map_values(|e: (usize, Vec<u8>)| (e.0, e.1@))
}

/// A constraint row as plain data.
pub struct RowModel {
    pub a: Seq<(usize, Seq<u8>)>,
    pub b: Seq<(usize, Seq<u8>)>,
    pub c: Seq<(usize, Seq<u8>)>,
}

/// The model of one [`ConstraintRow`].
pub open spec fn row_model(r: ConstraintRow) -> RowModel {
    RowModel { a: lc_model(r.a@), b: lc_model(r.b@), c: lc_model(r.c@) }
}

/// The models of a vector of constraint rows.
pub open spec fn rows_model(rows: Seq<ConstraintRow>) -> Seq<RowModel> {
    rows.map_values(|r: ConstraintRow| row_model(r))
}

/// Every wire index of the linear combination lies below the declared
/// variable count.
pub open spec fn lc_indices_ok(lc: Seq<(usize, Seq<u8>)>, nv: nat) -> bool {
    forall|i: int| 0 <= i < lc.len() ==> (#[trigger] lc[i]).0 < nv
}

/// Every wire index of the row lies below the declared variable count.
pub open spec fn row_indices_ok(r: RowModel, nv: nat) -> bool {
    lc_indices_ok(r.a, nv) && lc_indices_ok(r.b, nv) && lc_indices_ok(r.c, nv)
}

/// The plain data a circuit value was built from: the declared wire
/// counts, the constraint rows, and the bound witness, if any.
pub struct CircuitModel {
    pub num_inputs: nat,
    pub num_aux: nat,
    pub num_variables: nat,
    pub rows: Seq<RowModel>,
    pub witness: Option<Seq<Seq<u8>>>,
}

impl CircuitModel {
    /// Consistent dimensions: at least the constant-one instance wire,
    /// wire counts that add up, every constraint index in range, and a
    /// bound witness covering every wire. The outside synthesis code
    /// indexes on these assumptions.
    pub open spec fn dims_ok(&self) -> bool {
        &&& 1 <= self.num_inputs
        &&& self.num_inputs + self.num_aux == self.num_variables
        &&& forall|i: int|
            0 <= i < self.rows.len() ==> row_indices_ok(#[trigger] self.rows[i],
                self.num_variables)
        &&& match self.witness {
            Option::Some(w) => w.len() == self.num_variables,
            Option::None => true,
        }
    }
}

/// The model of a freshly assembled circuit structure.
pub open spec fn structure_model(
    num_inputs: nat,
    num_aux: nat,
    num_variables: nat,
    rows: Seq<ConstraintRow>,
) -> CircuitModel {
    CircuitModel {
        num_inputs,
        num_aux,
        num_variables,
        rows: rows_model(rows),
        witness: Option::None,
    }
}

#[verifier::external_body]
pub struct RawCircuit {
    inner: ark_circom::CircomCircuit<ark_bn254::Fr>,
}

/// The plain constraint data a raw circuit holds: every trusted item
/// of this module speaks of a circuit through this name.
pub uninterp spec fn circuit_data(c: RawCircuit) -> CircuitModel;

/// A circuit structure (with an optionally bound witness assignment),
/// held opaquely for the prover; its view is the plain data it was
/// built from. Only [`make_circuit`] and [`bind_witness`] create
/// values of this type, and both validate the dimensions the view
/// records.
pub struct Circuit {
    raw: RawCircuit,
    num_variables: usize,
}

impl Circuit {
    #[verifier::type_invariant]
    spec fn mirror_ok(self) -> bool {
        self.num_variables as nat == circuit_data(self.raw).num_variables
    }
}

impl View for Circuit {
    type V = CircuitModel;

    closed spec fn view(&self) -> CircuitModel {
        circuit_data(self.raw)
    }
}

#[verifier::external_body]
pub struct RawProvingKey {
    inner: ark_groth16::ProvingKey<ark_bn254::Bn254>,
}

/// The canonical compressed bytes a raw proving key holds, as
/// `ark_serialize::CanonicalSerialize::serialize_compressed` returns
/// them; a deterministic function of the key.
pub uninterp spec fn pk_data(k: RawProvingKey) -> Seq<u8>;

/// An opaque Groth16 proving key; its view is the canonical compressed
/// byte encoding of the key. Valid only together with the verifying
/// key of the same setup; mixing keys from different setups is a
/// misuse, not a caught error.
pub struct ProvingKey {
    raw: RawProvingKey,
}

impl View for ProvingKey {
    type V = Seq<u8>;

    closed spec fn view(&self) -> Seq<u8> {
        pk_data(self.raw)
    }
}

#[verifier::external_body]
pub struct RawVerifyingKey {
    inner: ark_groth16::VerifyingKey<ark_bn254::Bn254>,
}

/// The canonical compressed bytes a raw verifying key holds.
pub uninterp spec fn vk_data(k: RawVerifyingKey) -> Seq<u8>;

/// An opaque Groth16 verifying key; its view is the canonical
/// compressed byte encoding.
pub struct VerifyingKey {
    raw: RawVerifyingKey,
}

impl View for VerifyingKey {
    type V = Seq<u8>;

    closed spec fn view(&self) -> Seq<u8> {
        vk_data(self.raw)
    }
}

#[verifier::external_body]
pub struct RawPreparedVerifyingKey {
    inner: ark_groth16::PreparedVerifyingKey<ark_bn254::Bn254>,
}

/// What a raw prepared verifying key holds: the precomputation's
/// result, identified by the bytes of the key it came from.
pub uninterp spec fn pvk_data(k: RawPreparedVerifyingKey) -> Seq<u8>;

/// A verifying key after the one-time pairing-friendly precomputation;
/// its view names the precomputation's result on the key's bytes.
pub struct PreparedVerifyingKey {
    raw: RawPreparedVerifyingKey,
}

impl View for PreparedVerifyingKey {
    type V = Seq<u8>;

    closed spec fn view(&self) -> Seq<u8> {
        pvk_data(self.raw)
    }
}

#[verifier::external_body]
pub struct RawProof {
    inner: ark_groth16::Proof<ark_bn254::Bn254>,
}

/// The canonical compressed bytes a raw proof holds.
pub uninterp spec fn proof_data(p: RawProof) -> Seq<u8>;

/// An opaque Groth16 proof, bound to exactly the proving key and
/// witness used to create it; its view is the canonical compressed
/// byte encoding.
pub struct Proof {
    raw: RawProof,
}

impl View for Proof {
    type V = Seq<u8>;

    closed spec fn view(&self) -> Seq<u8> {
        proof_data(self.raw)
    }
}

/// The pipeline's error taxonomy. A proof that fails verification is
/// not an error: `verify` returns `Ok(false)` for it.
#[derive(Clone, Copy, Debug, PartialEq, Eq, Structural)]
pub enum PipelineError {
    /// Trusted setup failed on the circuit structure.
    Setup,
    /// The witness does not satisfy every circuit constraint; a
    /// logically invalid transaction is rejected here, before
    /// verification.
    ConstraintUnsatisfied,
    /// Proof synthesis failed for a reason other than an unsatisfied
    /// witness.
    Proving,
    /// The instance exposes no public-input sequence.
    MissingPublicInputs,
    /// Canonical serialization of a key or proof failed.
    Serialization,
    /// Verification could not evaluate the pairing equation on the
    /// given material; distinct from a well-formed check returning
    /// false.
    Verification,
}

/// The canonical bytes of the proving key that setup derives from the
/// circuit data and the seed, or nothing where setup fails; setup is a
/// deterministic function of both.
pub uninterp spec fn setup_of(m: CircuitModel, seed: Seq<u8>) -> Option<Seq<u8>>;

/// The canonical bytes of the verifying key carried inside a proving
/// key with the given bytes.
pub uninterp spec fn vk_bytes_of(pk: Seq<u8>) -> Seq<u8>;

/// The result of the pairing-friendly precomputation on a verifying
/// key with the given bytes.
pub uninterp spec fn prepared_of(vk: Seq<u8>) -> Seq<u8>;

/// Whether the circuit's bound witness satisfies every constraint —
/// or nothing where synthesis itself fails; a deterministic function
/// of the circuit data.
pub uninterp spec fn sat_check_of(m: CircuitModel) -> Option<bool>;

/// The canonical bytes of the proof derived from the proving key, the
/// satisfied instance and the seed, or nothing where proving fails.
pub uninterp spec fn prove_of(pk: Seq<u8>, m: CircuitModel, seed: Seq<u8>) -> Option<Seq<u8>>;

/// The outcome of the pairing equation on the prepared key, the
/// public-input sequence and the proof bytes, or nothing where it
/// cannot be evaluated; a pure deterministic function.
pub uninterp spec fn verify_of(pvk: Seq<u8>, inputs: Seq<Seq<u8>>, proof: Seq<u8>) -> Option<
    bool,
>;

/// Every wire index of the linear combination lies below `nv`.
fn lc_ok(lc: &Vec<(usize, Vec<u8>)>, nv: usize) -> (r: bool)
    ensures
        r == lc_indices_ok(lc_model(lc@), nv as nat),
{
    let mut j: usize = 0;
    while j < lc.len()
        invariant
            j <= lc@.len(),
            forall|k: int| 0 <= k < j ==> (#[trigger] lc_model(lc@)[k]).0 < nv,
        decreases lc@.len() - j,
    {
        if lc[j].0 >= nv {
            proof {
                assert(lc_model(lc@)[j as int].0 == lc@[j as int].0);
            }
            return false;
        }
        proof {
            assert(lc_model(lc@)[j as int].0 == lc@[j as int].0);
        }
        j = j + 1;
    }
    true
}

/// Every wire index of the row lies below `nv`.
fn row_ok(row: &ConstraintRow, nv: usize) -> (r: bool)
    ensures
        r == row_indices_ok(row_model(*row), nv as nat),
{
    lc_ok(&row.a, nv) && lc_ok(&row.b, nv) && lc_ok(&row.c, nv)
}

/// Every wire index of every row lies below `nv`.
fn rows_ok(rows: &Vec<ConstraintRow>, nv: usize) -> (r: bool)
    ensures
        r == (forall|i: int|
            0 <= i < rows@.len() ==> row_indices_ok(#[trigger] rows_model(rows@)[i], nv as nat)),
{
    let mut i: usize = 0;
    while i < rows.len()
        invariant
            i <= rows@.len(),
            forall|k: int| 0 <= k < i ==> row_indices_ok(#[trigger] rows_model(rows@)[k],
                nv as nat),
        decreases rows@.len() - i,
    {
        if !row_ok(&rows[i], nv) {
            proof {
                assert(rows_model(rows@)[i as int] == row_model(rows@[i as int]));
            }
            return false;
        }
        proof {
            assert(rows_model(rows@)[i as int] == row_model(rows@[i as int]));
        }
        i = i + 1;
    }
    true
}

/// Relies on `ark_circom::CircomCircuit` and `R1CS` being plain data:
/// assembles the circuit structure from the given wire counts and
/// constraint rows, each coefficient converted from its little-endian
/// bytes to a field element, one for one, with no witness bound and no
/// wire mapping. The circuit's view records exactly these arguments.
#[verifier::external_body]
fn raw_make_circuit(
    num_inputs: usize,
    num_aux: usize,
    num_variables: usize,
    constraints: &Vec<ConstraintRow>,
) -> (r: Circuit)
    ensures
        circuit_data(r.raw) == structure_model(
            num_inputs as nat,
            num_aux as nat,
            num_variables as nat,
            constraints@,
        ),
{
    let conv = |lc: &Vec<(usize, Vec<u8>)>| -> Vec<(usize, ark_bn254::Fr)> {
        lc.iter().map(|(i, c)| (*i, ark_bn254::Fr::from_le_bytes_mod_order(c))).collect()
    };
    let rows = constraints.iter().map(|r| (conv(&r.a), conv(&r.b), conv(&r.c))).collect();
    let r1cs = ark_circom::circom::R1CS::<ark_bn254::Fr> {
        num_inputs,
        num_aux,
        num_variables,
        constraints: rows,
        wire_mapping: None,
    };
    Circuit {
        raw: RawCircuit { inner: ark_circom::CircomCircuit { r1cs, witness: None } },
        num_variables,
    }
}

/// Assembles a circuit structure after validating its dimensions:
/// construction succeeds exactly when the declared counts are
/// consistent and every constraint's wire index is in range, so every
/// circuit value in existence has consistent dimensions.
pub fn make_circuit(
    num_inputs: usize,
    num_aux: usize,
    num_variables: usize,
    constraints: &Vec<ConstraintRow>,
) -> (r: Option<Circuit>)
    ensures
        r matches Some(c) ==> c@ == structure_model(
            num_inputs as nat,
            num_aux as nat,
            num_variables as nat,
            constraints@,
        ) && c@.dims_ok(),
        r is Some <==> structure_model(
            num_inputs as nat,
            num_aux as nat,
            num_variables as nat,
            constraints@,
        ).dims_ok(),
{
    if num_inputs < 1 {
        return None;
    }
    if num_variables < num_inputs {
        return None;
    }
    if num_variables - num_inputs != num_aux {
        return None;
    }
    if !rows_ok(constraints, num_variables) {
        proof {
            let m = structure_model(
                num_inputs as nat,
                num_aux as nat,
                num_variables as nat,
                constraints@,
            );
            assert(m.rows == rows_model(constraints@));
            assert(!(forall|i: int|
                0 <= i < m.rows.len() ==> row_indices_ok(#[trigger] m.rows[i],
                    m.num_variables)));
        }
        return None;
    }
    Some(raw_make_circuit(num_inputs, num_aux, num_variables, constraints))
}

/// Relies on `ark_circom::CircomCircuit`: binds the witness assignment,
/// each element converted from its canonical little-endian bytes to a
/// field element, one for one, in order; the ghost model records the
/// bytes bound.
#[verifier::external_body]
fn raw_bind_witness(circuit: Circuit, witness: &Vec<Vec<u8>>) -> (r: Circuit)
    ensures
        r@ == (CircuitModel { witness: Option::Some(views_of(witness@)), ..circuit@ }),
{
    let w = witness.iter().map(|b| ark_bn254::Fr::from_le_bytes_mod_order(b)).collect();
    Circuit {
        raw: RawCircuit {
            inner: ark_circom::CircomCircuit {
                r1cs: circuit.raw.inner.r1cs,
                witness: Some(w),
            },
        },
        num_variables: circuit.num_variables,
    }
}

/// Binds a witness assignment to the circuit; succeeds exactly when
/// the assignment covers every declared wire, so a bound witness can
/// never be indexed out of range during synthesis.
pub fn bind_witness(circuit: Circuit, witness: &Vec<Vec<u8>>) -> (r: Option<Circuit>)
    ensures
        r matches Some(c) ==> c@ == (CircuitModel {
            witness: Option::Some(views_of(witness@)),
            ..circuit@
        }),
        r is Some <==> witness@.len() == circuit@.num_variables,
{
    proof {
        use_type_invariant(&circuit);
    }
    if witness.len() == circuit.num_variables {
        Some(raw_bind_witness(circuit, witness))
    } else {
        None
    }
}

/// Relies on `rand::rngs::StdRng::from_seed` and
/// `ark_groth16::Groth16::generate_random_parameters_with_reduction`:
/// samples the trapdoor from the seeded generator and evaluates the
/// circuit's arithmetic program at it, a deterministic function of the
/// circuit data and the seed; `None` on a synthesis error. Consistent
/// dimensions keep the QAP instance map in bounds. The trapdoor is
/// local and insecure by design; reproducibility under a fixed seed is
/// the point.
#[verifier::external_body]
fn groth_setup(circuit: Circuit, seed: &[u8; 32]) -> (r: Option<ProvingKey>)
    requires
        circuit@.dims_ok(),
    ensures
        r is Some <==> setup_of(circuit@, seed@) is Some,
        r matches Some(pk) ==> setup_of(circuit@, seed@) == Some(pk_data(pk.raw)),
{
    let mut rng = rand::rngs::StdRng::from_seed(*seed);
    ark_groth16::Groth16::<ark_bn254::Bn254>::generate_random_parameters_with_reduction(
        circuit.raw.inner,
        &mut rng,
    ).ok().map(|pk| ProvingKey { raw: RawProvingKey { inner: pk } })
}

/// Relies on `ark_groth16::ProvingKey`: the verifying key is carried as
/// a field of the proving key; the two come from one setup.
#[verifier::external_body]
pub fn extract_vk(pk: &ProvingKey) -> (r: VerifyingKey)
    ensures
        r@ == vk_bytes_of(pk@),
{
    VerifyingKey { raw: RawVerifyingKey { inner: pk.raw.inner.vk.clone() } }
}

/// Relies on `ark_relations::gr1cs::ConstraintSystem`: synthesizes the
/// circuit's constraints into a fresh constraint system and asks
/// `is_satisfied` whether the bound witness meets every one of them, a
/// deterministic function of the circuit data; `None` on a synthesis
/// error. Consistent dimensions keep the witness indexing of the value
/// closures in bounds.
#[verifier::external_body]
fn witness_satisfies(circuit: &Circuit) -> (r: Option<bool>)
    requires
        circuit@.dims_ok(),
    ensures
        r == sat_check_of(circuit@),
{
    let cs = ConstraintSystem::<ark_bn254::Fr>::new_ref();
    match circuit.raw.inner.clone().generate_constraints(cs.clone()) {
        Ok(()) => cs.is_satisfied().ok(),
        Err(_) => None,
    }
}

/// Relies on `ark_groth16::Groth16::prove`: computes the proof elements
/// from the proving key and the witness assignment, with blinding drawn
/// from the seeded generator, a deterministic function of all three;
/// `None` on a synthesis error. The satisfied-witness precondition
/// keeps the prover's own satisfaction assertion from firing, and
/// consistent dimensions keep synthesis in bounds.
#[verifier::external_body]
fn groth_prove(pk: &ProvingKey, circuit: Circuit, seed: &[u8; 32]) -> (r: Option<Proof>)
    requires
        circuit@.dims_ok(),
        sat_check_of(circuit@) == Some(true),
    ensures
        r is Some <==> prove_of(pk@, circuit@, seed@) is Some,
        r matches Some(p) ==> prove_of(pk@, circuit@, seed@) == Some(proof_data(p.raw)),
{
    let mut rng = rand::rngs::StdRng::from_seed(*seed);
    ark_groth16::Groth16::<ark_bn254::Bn254>::prove(&pk.raw.inner, circuit.raw.inner, &mut rng)
        .ok()
        .map(|p| Proof { raw: RawProof { inner: p } })
}

/// Relies on `ark_groth16::prepare_verifying_key`: the one-time
/// precomputation that puts the key in pairing-friendly form, a
/// deterministic function of the key.
#[verifier::external_body]
pub fn prepare(vk: &VerifyingKey) -> (r: PreparedVerifyingKey)
    ensures
        r@ == prepared_of(vk@),
{
    PreparedVerifyingKey {
        raw: RawPreparedVerifyingKey {
            inner: ark_groth16::prepare_verifying_key(&vk.raw.inner),
        },
    }
}

/// Relies on `ark_groth16::Groth16::verify_with_processed_vk`:
/// evaluates the pairing equation, a pure deterministic function of
/// the key, the input sequence and the proof; `Some(true)` exactly
/// when it holds, `None` on a hard error. Each public input is
/// converted from its little-endian bytes to a field element, one for
/// one, in order.
#[verifier::external_body]
fn groth_verify(
    pvk: &PreparedVerifyingKey,
    public_inputs: &Vec<Vec<u8>>,
    proof: &Proof,
) -> (r: Option<bool>)
    ensures
        r == verify_of(pvk_data(pvk.raw), views_of(public_inputs@), proof@),
{
    let inputs: Vec<ark_bn254::Fr> = public_inputs
        .iter()
        .map(|b| ark_bn254::Fr::from_le_bytes_mod_order(b))
        .collect();
    ark_groth16::Groth16::<ark_bn254::Bn254>::verify_with_processed_vk(
        &pvk.raw.inner,
        &inputs,
        &proof.raw.inner,
    ).ok()
}

/// Relies on `ark_circom::CircomCircuit::get_public_inputs` and the
/// canonical `ark_ff` representation: with a bound witness it returns
/// the witness values after the constant-one wire up to the instance
/// wire count, each as its canonical 32-byte little-endian
/// representative — the bound bytes reduced modulo the field order —
/// and with no witness bound it returns nothing.
#[verifier::external_body]
pub fn public_inputs(circuit: &Circuit) -> (r: Option<Vec<Vec<u8>>>)
    requires
        circuit@.dims_ok(),
    ensures
        r is Some <==> circuit@.witness is Some,
        r matches Some(v) ==> {
            &&& v@.len() == circuit@.num_inputs - 1
            &&& forall|i: int|
                0 <= i < v@.len() ==> (#[trigger] v@[i])@.len() == 32 && le_val(v@[i]@) == le_val(
                    circuit@.witness->Some_0[i + 1],
                ) % le_val(p_base()) && le_val(v@[i]@) < le_val(p_base())
        },
{
    let inputs = circuit.raw.inner.get_public_inputs()?;
    Some(inputs.iter().map(|f| f.into_bigint().to_bytes_le()).collect())
}

/// Relies on `ark_serialize::CanonicalSerialize::serialize_compressed`
/// for the verifying key: the canonical compressed encoding — the
/// key's model bytes; `None` on a serialization error.
#[verifier::external_body]
fn serialize_vk(vk: &VerifyingKey) -> (r: Option<Vec<u8>>)
    ensures
        r matches Some(v) ==> v@ == vk_data(vk.raw),
{
    let mut bytes = Vec::new();
    match ark_serialize::CanonicalSerialize::serialize_compressed(&vk.raw.inner, &mut bytes) {
        Ok(()) => Some(bytes),
        Err(_) => None,
    }
}

/// Relies on `ark_serialize::CanonicalSerialize::serialize_compressed`
/// for the proof: the canonical compressed encoding — the proof's
/// model bytes: two compressed G1 points of 32 bytes and one
/// compressed G2 point of 64 bytes, 128 bytes in all; `None` on a
/// serialization error.
#[verifier::external_body]
fn serialize_proof(proof: &Proof) -> (r: Option<Vec<u8>>)
    ensures
        r matches Some(v) ==> v@ == proof@ && v@.len() == 128,
{
    let mut bytes = Vec::new();
    match ark_serialize::CanonicalSerialize::serialize_compressed(&proof.raw.inner, &mut bytes) {
        Ok(()) => Some(bytes),
        Err(_) => None,
    }
}

/// A canonical encoded public input: exactly 32 little-endian bytes
/// denoting a value below the base-field modulus. The compressed
/// serialization of a field element is the element's canonical bytes,
/// so encoding is the identity on this representation.
pub open spec fn field_element_wf(bytes: Seq<u8>) -> bool {
    bytes.len() == 32 && le_val(bytes) < le_val(p_base())
}

/// What decoding a byte string yields: the canonical bytes themselves
/// when they are a well-formed field element, nothing otherwise.
pub open spec fn decode_field_spec(bytes: Seq<u8>) -> Option<Seq<u8>> {
    if field_element_wf(bytes) {
        Some(bytes)
    } else {
        None
    }
}

/// Decodes one canonically encoded field element: accepts exactly the
/// 32-byte strings whose value lies below the base-field modulus and
/// returns the canonical bytes unchanged.
pub fn decode_field_element(bytes: &Vec<u8>) -> (r: Option<Vec<u8>>)
    ensures
        r matches Some(v) ==> v@ == bytes@,
        r is Some <==> decode_field_spec(bytes@) is Some,
{
    proof {
        crate::curve::lemma_p_base_positive();
    }
    if bytes.len() != 32 {
        return None;
    }
    let modulus = crate::curve::EdwardsConfig::base_modulus();
    if !crate::bignat::big_lt(bytes, &modulus) {
        return None;
    }
    let mut copy: Vec<u8> = Vec::new();
    let mut i: usize = 0;
    while i < bytes.len()
        invariant
            i <= bytes@.len(),
            copy@ == bytes@.take(i as int),
        decreases bytes@.len() - i,
    {
        copy.push(bytes[i]);
        proof {
            assert(bytes@.take(i + 1) =~= bytes@.take(i as int).push(bytes@[i as int]));
        }
        i = i + 1;
    }
    proof {
        assert(bytes@.take(bytes@.len() as int) =~= bytes@);
    }
    Some(copy)
}

/// Round trip: the canonical bytes of every well-formed field element
/// decode back to exactly those bytes. Together with
/// [`decode_field_element`]'s contract this pins
/// `decode(serialize(v)) == v` for the field-element value kind, whose
/// serialization is the identity on canonical bytes.
pub proof fn lemma_field_element_round_trip(bytes: Seq<u8>)
    requires
        field_element_wf(bytes),
    ensures
        decode_field_spec(bytes) == Some(bytes),
{
}

/// The concatenation of a sequence of byte strings, in order, with no
/// length prefixes.
pub open spec fn concat_all(s: Seq<Seq<u8>>) -> Seq<u8>
    decreases s.len(),
{
    if s.len() == 0 {
        Seq::empty()
    } else {
        s[0] + concat_all(s.skip(1))
    }
}

/// Appending one more byte string appends its bytes.
pub proof fn lemma_concat_all_push(s: Seq<Seq<u8>>, x: Seq<u8>)
    ensures
        concat_all(s.push(x)) == concat_all(s) + x,
    decreases s.len(),
{
    let t = s.push(x);
    assert(concat_all(t) == t[0] + concat_all(t.skip(1)));
    if s.len() == 0 {
        assert(t.skip(1) =~= Seq::<Seq<u8>>::empty());
        assert(concat_all(s.push(x)) =~= concat_all(s) + x);
    } else {
        assert(t.skip(1) =~= s.skip(1).push(x));
        assert(t[0] == s[0]);
        lemma_concat_all_push(s.skip(1), x);
        assert(concat_all(s) == s[0] + concat_all(s.skip(1)));
        assert(concat_all(s.push(x)) =~= concat_all(s) + x);
    }
}

/// The element byte sequences of a vector of byte vectors.
pub open spec fn views_of(inputs: Seq<Vec<u8>>) -> Seq<Seq<u8>> {
    inputs.map_values(|v: Vec<u8>| v@)
}

/// The public-input sequence serialized as the plain concatenation of
/// the elements' canonical bytes, without length prefixes: recovering
/// an element requires knowing the fixed per-element width externally.
pub fn serialize_public_inputs(inputs: &Vec<Vec<u8>>) -> (r: Vec<u8>)
    ensures
        r@ == concat_all(views_of(inputs@)),
{
    let mut out: Vec<u8> = Vec::new();
    let mut i: usize = 0;
    proof {
        assert(views_of(inputs@).take(0) =~= Seq::<Seq<u8>>::empty());
    }
    while i < inputs.len()
        invariant
            i <= inputs@.len(),
            out@ == concat_all(views_of(inputs@).take(i as int)),
        decreases inputs@.len() - i,
    {
        let element = &inputs[i];
        let mut j: usize = 0;
        while j < element.len()
            invariant
                j <= element@.len(),
                element@ == inputs@[i as int]@,
                i < inputs@.len(),
                out@ == concat_all(views_of(inputs@).take(i as int)) + element@.take(j as int),
            decreases element@.len() - j,
        {
            out.push(element[j]);
            proof {
                assert(element@.take(j + 1) =~= element@.take(j as int).push(element@[j as int]));
            }
            j = j + 1;
        }
        proof {
            lemma_concat_all_push(views_of(inputs@).take(i as int), inputs@[i as int]@);
            assert(views_of(inputs@).take(i + 1) =~= views_of(inputs@).take(i as int).push(
                inputs@[i as int]@,
            ));
            assert(element@.take(element@.len() as int) =~= element@);
        }
        i = i + 1;
    }
    proof {
        assert(views_of(inputs@).take(inputs@.len() as int) =~= views_of(inputs@));
    }
    out
}

/// Runs trusted setup on the circuit structure with trapdoor randomness
/// drawn from the seeded generator: succeeds exactly when the outside
/// setup derives a key for this circuit and seed, and returns exactly
/// that key. Reproducible for a fixed seed and insecure for production
/// by design: the trapdoor is known to whoever ran it.
pub fn setup(circuit: Circuit, seed: &[u8; 32]) -> (r: Result<ProvingKey, PipelineError>)
    requires
        circuit@.dims_ok(),
    ensures
        r is Ok <==> setup_of(circuit@, seed@) is Some,
        r matches Ok(pk) ==> setup_of(circuit@, seed@) == Some(pk@),
        r is Err ==> r->Err_0 == PipelineError::Setup,
{
    match groth_setup(circuit, seed) {
        Some(pk) => Ok(pk),
        None => Err(PipelineError::Setup),
    }
}

/// Produces a proof from the proving key and the satisfied instance.
/// The witness is checked against every constraint first:
/// `ConstraintUnsatisfied` comes back exactly when that check says the
/// witness violates the circuit relation — a logically invalid
/// transaction is rejected here, before verification is ever reached —
/// and a proof comes back exactly when the check passes and the outside
/// prover succeeds.
pub fn prove(pk: &ProvingKey, circuit: Circuit, seed: &[u8; 32]) -> (r: Result<
    Proof,
    PipelineError,
>)
    requires
        circuit@.dims_ok(),
    ensures
        r is Ok <==> (sat_check_of(circuit@) == Some(true) && prove_of(pk@, circuit@, seed@)
            is Some),
        r matches Ok(p) ==> prove_of(pk@, circuit@, seed@) == Some(p@),
        r is Err ==> (r->Err_0 == PipelineError::ConstraintUnsatisfied <==> sat_check_of(circuit@)
            == Some(false)),
        r is Err ==> (r->Err_0 == PipelineError::ConstraintUnsatisfied || r->Err_0
            == PipelineError::Proving),
{
    match witness_satisfies(&circuit) {
        None => Err(PipelineError::Proving),
        Some(false) => Err(PipelineError::ConstraintUnsatisfied),
        Some(true) => match groth_prove(pk, circuit, seed) {
            Some(proof) => Ok(proof),
            None => Err(PipelineError::Proving),
        },
    }
}

/// Checks a proof against a prepared verifying key and a public-input
/// sequence: the returned boolean is exactly the pairing equation's
/// outcome on the given key, inputs and proof. A failing proof is a
/// normal `Ok(false)` outcome, not an error; the input order is part
/// of the contract, so a reordered sequence makes a valid proof fail
/// without any error being raised.
pub fn verify(
    pvk: &PreparedVerifyingKey,
    public_inputs: &Vec<Vec<u8>>,
    proof: &Proof,
) -> (r: Result<bool, PipelineError>)
    ensures
        r is Ok <==> verify_of(pvk@, views_of(public_inputs@), proof@) is Some,
        r matches Ok(b) ==> verify_of(pvk@, views_of(public_inputs@), proof@) == Some(b),
        r is Err ==> r->Err_0 == PipelineError::Verification,
{
    match groth_verify(pvk, public_inputs, proof) {
        Some(b) => Ok(b),
        None => Err(PipelineError::Verification),
    }
}

/// Everything the pipeline emits: the raw canonical bytes of the
/// verifying key, the proof and each public input, their hex
/// renderings, and the verification outcome.
pub struct ProofBundle {
    pub vk_bytes: Vec<u8>,
    pub proof_bytes: Vec<u8>,
    pub public_inputs: Vec<Vec<u8>>,
    pub vk_hex: String,
    pub proof_hex: String,
    pub public_inputs_hex: String,
    pub verified: bool,
}

/// The bundle's hex fields render exactly its byte fields; the proof is
/// the fixed 128-byte compressed encoding; each public input is a
/// canonical 32-byte field element; the public-input rendering is the
/// hex of the plain concatenation.
pub open spec fn bundle_wf(b: &ProofBundle) -> bool {
    &&& b.vk_hex@ == hex_chars(b.vk_bytes@)
    &&& b.proof_bytes@.len() == 128
    &&& b.proof_hex@ == hex_chars(b.proof_bytes@)
    &&& forall|i: int|
        0 <= i < b.public_inputs@.len() ==> (#[trigger] b.public_inputs@[i])@.len() == 32
            && le_val(b.public_inputs@[i]@) < le_val(p_base())
    &&& b.public_inputs_hex@ == hex_chars(concat_all(views_of(b.public_inputs@)))
}

/// What a successful run carries, over the named outside results: the
/// verifying key of the derived proving key, the proof derived from
/// that key and the instance, the instance's public inputs, and the
/// pairing equation's outcome on exactly those three.
pub open spec fn pipeline_ok(
    s: CircuitModel,
    i: CircuitModel,
    seed: Seq<u8>,
    b: &ProofBundle,
) -> bool {
    let pk = setup_of(s, seed)->Some_0;
    let vk = vk_bytes_of(pk);
    &&& setup_of(s, seed) is Some
    &&& i.witness is Some
    &&& sat_check_of(i) == Some(true)
    &&& prove_of(pk, i, seed) == Some(b.proof_bytes@)
    &&& b.vk_bytes@ == vk
    &&& b.public_inputs@.len() == i.num_inputs - 1
    &&& verify_of(prepared_of(vk), views_of(b.public_inputs@), b.proof_bytes@) == Some(
        b.verified,
    )
}

/// The whole proof pipeline on one circuit structure and one satisfied
/// instance of it: setup, public-input extraction, proving (with its
/// witness gate), verification, and canonical encoding. The
/// verification outcome is surfaced in the bundle's `verified` field,
/// never discarded. Fail-fast: any hard error aborts the run with no
/// partial output, and each gate's error comes back exactly when that
/// gate fails.
pub fn run_pipeline(structure: Circuit, instance: Circuit, seed: &[u8; 32]) -> (r: Result<
    ProofBundle,
    PipelineError,
>)
    requires
        structure@.dims_ok(),
        instance@.dims_ok(),
    ensures
        r matches Ok(b) ==> pipeline_ok(structure@, instance@, seed@, &b) && bundle_wf(&b),
        (r is Err && r->Err_0 == PipelineError::Setup) <==> setup_of(structure@, seed@) is None,
        setup_of(structure@, seed@) is Some ==> ((r is Err && r->Err_0
            == PipelineError::MissingPublicInputs) <==> instance@.witness is None),
        (setup_of(structure@, seed@) is Some && instance@.witness is Some) ==> ((r is Err
            && r->Err_0 == PipelineError::ConstraintUnsatisfied) <==> sat_check_of(instance@)
            == Some(false)),
        (setup_of(structure@, seed@) is Some && instance@.witness is Some) ==> ((r is Err
            && r->Err_0 == PipelineError::Proving) <==> (sat_check_of(instance@) is None || (
        sat_check_of(instance@) == Some(true) && prove_of(
            setup_of(structure@, seed@)->Some_0,
            instance@,
            seed@,
        ) is None))),
{
    let pk = setup(structure, seed)?;
    let public_inputs = match public_inputs(&instance) {
        Some(inputs) => inputs,
        None => {
            return Err(PipelineError::MissingPublicInputs);
        },
    };
    let vk = extract_vk(&pk);
    let ghost instance_model = instance@;
    let proof = match prove(&pk, instance, seed) {
        Ok(p) => p,
        Err(e) => {
            proof {
                assert(setup_of(structure@, seed@) == Some(pk@));
                assert(setup_of(structure@, seed@)->Some_0 == pk@);
                if e == PipelineError::Proving {
                    assert(sat_check_of(instance_model) is None || (sat_check_of(instance_model)
                        == Some(true) && prove_of(pk@, instance_model, seed@) is None));
                }
            }
            return Err(e);
        },
    };
    let pvk = prepare(&vk);
    let verified = verify(&pvk, &public_inputs, &proof)?;
    let vk_bytes = match serialize_vk(&vk) {
        Some(bytes) => bytes,
        None => {
            return Err(PipelineError::Serialization);
        },
    };
    let proof_bytes = match serialize_proof(&proof) {
        Some(bytes) => bytes,
        None => {
            return Err(PipelineError::Serialization);
        },
    };
    let vk_hex = hex_encode(&vk_bytes);
    let proof_hex = hex_encode(&proof_bytes);
    let inputs_concat = serialize_public_inputs(&public_inputs);
    let public_inputs_hex = hex_encode(&inputs_concat);
    Ok(
        ProofBundle {
            vk_bytes,
            proof_bytes,
            public_inputs,
            vk_hex,
            proof_hex,
            public_inputs_hex,
            verified,
        },
    )
}

} // verus!
