use zkutxo::curve::EdwardsConfig;
use zkutxo::groth::{decode_field_element, serialize_public_inputs};
use zkutxo::hexcodec::hex_encode;
use zkutxo::witness::demo_witness;

#[test]
fn hex_encode_exact_value() {
    assert_eq!(hex_encode(&vec![0u8, 255, 16]), "00ff10");
    assert_eq!(hex_encode(&vec![]), "");
    assert_eq!(hex_encode(&vec![0xde, 0xad, 0xbe, 0xef]), "deadbeef");
}

#[test]
fn hex_encode_matches_reference_encoder() {
    let samples: Vec<Vec<u8>> = vec![
        vec![],
        vec![0],
        vec![1, 2, 3, 4, 5],
        EdwardsConfig::base_modulus(),
        (0u8..=255).collect(),
    ];
    for s in samples {
        assert_eq!(hex_encode(&s), hex::encode(&s));
    }
}

#[test]
fn public_input_concatenation_is_plain() {
    let inputs = vec![vec![1u8, 2], vec![], vec![3u8, 4, 5]];
    assert_eq!(serialize_public_inputs(&inputs), vec![1u8, 2, 3, 4, 5]);
}

#[test]
fn field_element_round_trip() {
    let mut nine = vec![0u8; 32];
    nine[0] = 9;
    let decoded = decode_field_element(&nine).expect("canonical element decodes");
    assert_eq!(decoded, nine);
}

#[test]
fn field_element_wrong_length_rejected() {
    assert!(decode_field_element(&vec![9u8; 31]).is_none());
    assert!(decode_field_element(&vec![9u8; 33]).is_none());
}

#[test]
fn field_element_above_modulus_rejected() {
    let modulus = EdwardsConfig::base_modulus();
    assert!(decode_field_element(&modulus).is_none());
}

#[test]
fn demo_witness_has_documented_values() {
    let w = demo_witness();
    assert_eq!(w.len(), 7);
    assert_eq!(w[0].name, "in_assets");
    assert_eq!(w[0].values, vec![1u64; 10]);
    assert_eq!(w[1].name, "in_amounts");
    assert_eq!(w[1].values, vec![10000u64; 10]);
    assert_eq!(w[2].name, "in_blinding");
    let blinding: Vec<u64> = (0..10).map(|i| 2131231253 + i).collect();
    assert_eq!(w[2].values, blinding);
    assert_eq!(w[3].name, "in_secret_keys");
    let secrets: Vec<u64> = (0..10).map(|i| 1212531253 + i).collect();
    assert_eq!(w[3].values, secrets);
    assert_eq!(w[4].name, "out_asset");
    assert_eq!(w[4].values, vec![1u64; 5]);
    assert_eq!(w[5].name, "out_amount");
    assert_eq!(w[5].values, vec![20000u64; 5]);
    assert_eq!(w[6].name, "out_blinding");
    let out_blinding: Vec<u64> = (0..5).map(|i| 215531253 + i).collect();
    assert_eq!(w[6].values, out_blinding);
}

#[test]
fn demo_witness_amounts_balance() {
    let w = demo_witness();
    let total_in: u64 = w[1].values.iter().sum();
    let total_out: u64 = w[5].values.iter().sum();
    assert_eq!(total_in, 100000);
    assert_eq!(total_in, total_out);
}
