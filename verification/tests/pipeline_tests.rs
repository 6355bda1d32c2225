use ark_serialize::{CanonicalDeserialize, CanonicalSerialize};
use zkutxo::groth::{
    bind_witness, extract_vk, make_circuit, prepare, prove, public_inputs, run_pipeline, setup,
    verify, Circuit, ConstraintRow, PipelineError,
};

fn le(n: u64) -> Vec<u8> {
    n.to_le_bytes().to_vec()
}

/// Wires `[one, x (public), w (aux)]` with the single constraint
/// `w * w = x`: proving knowledge of a square root of the public input.
fn square_circuit() -> Circuit {
    let rows = vec![ConstraintRow {
        a: vec![(2, le(1))],
        b: vec![(2, le(1))],
        c: vec![(1, le(1))],
    }];
    make_circuit(2, 1, 3, &rows).expect("dimensions are consistent")
}

fn square_witness(x: u64, w: u64) -> Vec<Vec<u8>> {
    vec![le(1), le(x), le(w)]
}

/// Wires `[one, x1, x2 (public), w1, w2 (aux)]` with `w1 * w1 = x1` and
/// `w2 * w2 = x2`.
fn two_input_circuit() -> Circuit {
    let rows = vec![
        ConstraintRow { a: vec![(3, le(1))], b: vec![(3, le(1))], c: vec![(1, le(1))] },
        ConstraintRow { a: vec![(4, le(1))], b: vec![(4, le(1))], c: vec![(2, le(1))] },
    ];
    make_circuit(3, 2, 5, &rows).expect("dimensions are consistent")
}

#[test]
fn pipeline_end_to_end_verifies() {
    let seed = [0u8; 32];
    let instance = bind_witness(square_circuit(), &square_witness(9, 3)).expect("witness covers every wire");
    let bundle = run_pipeline(square_circuit(), instance, &seed).expect("pipeline succeeds");
    assert!(bundle.verified);
    let mut nine = vec![0u8; 32];
    nine[0] = 9;
    assert_eq!(bundle.public_inputs, vec![nine]);
    assert_eq!(bundle.proof_bytes.len(), 128);
    assert_eq!(bundle.proof_hex, hex::encode(&bundle.proof_bytes));
    assert_eq!(bundle.vk_hex, hex::encode(&bundle.vk_bytes));
    assert_eq!(bundle.public_inputs_hex.len(), 64);
}

#[test]
fn pipeline_deterministic_under_fixed_seed() {
    let seed = [0u8; 32];
    let b1 = run_pipeline(
        square_circuit(),
        bind_witness(square_circuit(), &square_witness(9, 3)).expect("witness covers every wire"),
        &seed,
    )
    .expect("pipeline succeeds");
    let b2 = run_pipeline(
        square_circuit(),
        bind_witness(square_circuit(), &square_witness(9, 3)).expect("witness covers every wire"),
        &seed,
    )
    .expect("pipeline succeeds");
    assert_eq!(b1.vk_hex, b2.vk_hex);
    assert_eq!(b1.proof_hex, b2.proof_hex);
    assert_eq!(b1.public_inputs_hex, b2.public_inputs_hex);
}

#[test]
fn mutated_public_input_fails_verification() {
    let seed = [0u8; 32];
    let pk = setup(square_circuit(), &seed).expect("setup succeeds");
    let vk = extract_vk(&pk);
    let instance = bind_witness(square_circuit(), &square_witness(9, 3)).expect("witness covers every wire");
    let inputs = public_inputs(&instance).expect("instance exposes inputs");
    let proof = prove(&pk, instance, &seed).expect("witness satisfies the circuit");
    let pvk = prepare(&vk);
    assert_eq!(verify(&pvk, &inputs, &proof), Ok(true));
    let mut mutated = inputs.clone();
    mutated[0][0] = mutated[0][0].wrapping_add(1);
    assert_eq!(verify(&pvk, &mutated, &proof), Ok(false));
}

#[test]
fn reordered_public_inputs_fail_verification() {
    let seed = [0u8; 32];
    let pk = setup(two_input_circuit(), &seed).expect("setup succeeds");
    let vk = extract_vk(&pk);
    let witness = vec![le(1), le(9), le(16), le(3), le(4)];
    let instance = bind_witness(two_input_circuit(), &witness).expect("witness covers every wire");
    let inputs = public_inputs(&instance).expect("instance exposes inputs");
    let proof = prove(&pk, instance, &seed).expect("witness satisfies the circuit");
    let pvk = prepare(&vk);
    assert_eq!(verify(&pvk, &inputs, &proof), Ok(true));
    let swapped = vec![inputs[1].clone(), inputs[0].clone()];
    assert_eq!(verify(&pvk, &swapped, &proof), Ok(false));
}

#[test]
fn unsatisfied_witness_rejected_at_prove() {
    let seed = [0u8; 32];
    let pk = setup(square_circuit(), &seed).expect("setup succeeds");
    let instance = bind_witness(square_circuit(), &square_witness(8, 3)).expect("witness covers every wire");
    let result = prove(&pk, instance, &seed);
    assert_eq!(result.err(), Some(PipelineError::ConstraintUnsatisfied));
}

#[test]
fn instance_without_witness_has_no_public_inputs() {
    let seed = [0u8; 32];
    let result = run_pipeline(square_circuit(), square_circuit(), &seed);
    assert_eq!(result.err(), Some(PipelineError::MissingPublicInputs));
}

#[test]
fn missing_public_inputs_fail_verification_without_error() {
    let seed = [0u8; 32];
    let pk = setup(square_circuit(), &seed).expect("setup succeeds");
    let vk = extract_vk(&pk);
    let instance = bind_witness(square_circuit(), &square_witness(9, 3)).expect("witness covers every wire");
    let inputs = public_inputs(&instance).expect("instance exposes inputs");
    let proof = prove(&pk, instance, &seed).expect("witness satisfies the circuit");
    let pvk = prepare(&vk);
    assert_eq!(verify(&pvk, &inputs, &proof), Ok(true));
    assert_eq!(verify(&pvk, &vec![], &proof), Ok(false));
}

#[test]
fn proof_and_key_round_trip() {
    let seed = [0u8; 32];
    let instance = bind_witness(square_circuit(), &square_witness(9, 3)).expect("witness covers every wire");
    let bundle = run_pipeline(square_circuit(), instance, &seed).expect("pipeline succeeds");

    let proof = ark_groth16::Proof::<ark_bn254::Bn254>::deserialize_compressed(
        &bundle.proof_bytes[..],
    )
    .expect("proof bytes decode");
    let mut reserialized = Vec::new();
    proof.serialize_compressed(&mut reserialized).expect("proof reserializes");
    assert_eq!(reserialized, bundle.proof_bytes);

    let vk = ark_groth16::VerifyingKey::<ark_bn254::Bn254>::deserialize_compressed(
        &bundle.vk_bytes[..],
    )
    .expect("verifying key bytes decode");
    let mut vk_reserialized = Vec::new();
    vk.serialize_compressed(&mut vk_reserialized).expect("verifying key reserializes");
    assert_eq!(vk_reserialized, bundle.vk_bytes);
}

#[test]
fn inconsistent_circuit_dimensions_rejected() {
    let rows = vec![ConstraintRow { a: vec![(7, le(1))], b: vec![(2, le(1))], c: vec![(1, le(1))] }];
    // wire index 7 exceeds the declared variable count
    assert!(make_circuit(2, 1, 3, &rows).is_none());
    let good = vec![ConstraintRow { a: vec![(2, le(1))], b: vec![(2, le(1))], c: vec![(1, le(1))] }];
    // counts that do not add up
    assert!(make_circuit(2, 2, 3, &good).is_none());
    // no constant-one instance wire
    assert!(make_circuit(0, 3, 3, &good).is_none());
}

#[test]
fn short_witness_rejected_at_binding() {
    let circuit = square_circuit();
    assert!(bind_witness(circuit, &vec![le(1), le(9)]).is_none());
}

#[test]
fn curve_point_round_trip() {
    let g = <ark_ed_on_bn254::EdwardsConfig as ark_ec::twisted_edwards::TECurveConfig>::GENERATOR;
    let mut bytes = Vec::new();
    g.serialize_compressed(&mut bytes).expect("point serializes");
    let back =
        ark_ed_on_bn254::EdwardsAffine::deserialize_compressed(&bytes[..]).expect("point decodes");
    assert_eq!(back, g);
}
