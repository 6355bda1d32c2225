use num_bigint::BigUint;
use zkutxo::curve::{generator, is_on_curve, montgomery_from_edwards, AffinePoint, EdwardsConfig};

#[test]
fn generator_satisfies_curve_equation() {
    assert!(is_on_curve(&generator()));
}

#[test]
fn generator_matches_documented_decimals() {
    let g = generator();
    let gx = BigUint::parse_bytes(
        b"5299619240641551281634865583518297030282874472190772894086521144482721001553",
        10,
    )
    .unwrap();
    let gy = BigUint::parse_bytes(
        b"16950150798460657717958625567821834550301663161624707787222815936182638968203",
        10,
    )
    .unwrap();
    assert_eq!(BigUint::from_bytes_le(&g.x), gx);
    assert_eq!(BigUint::from_bytes_le(&g.y), gy);
}

#[test]
fn base_modulus_matches_documented_decimal() {
    let p = BigUint::parse_bytes(
        b"21888242871839275222246405745257275088548364400416034343698204186575808495617",
        10,
    )
    .unwrap();
    assert_eq!(BigUint::from_bytes_le(&EdwardsConfig::base_modulus()), p);
    let r = BigUint::parse_bytes(
        b"2736030358979909402780800718157159386076813972158567259200215660948447373041",
        10,
    )
    .unwrap();
    assert_eq!(BigUint::from_bytes_le(&EdwardsConfig::scalar_modulus()), r);
}

#[test]
fn neutral_point_is_on_curve() {
    let neutral = AffinePoint { x: vec![0], y: vec![1] };
    assert!(is_on_curve(&neutral));
}

#[test]
fn tweaked_generator_leaves_curve() {
    let mut g = generator();
    g.x[0] ^= 1;
    assert!(!is_on_curve(&g));
}

#[test]
fn arbitrary_point_is_off_curve() {
    let pt = AffinePoint { x: vec![2], y: vec![3] };
    assert!(!is_on_curve(&pt));
}

#[test]
fn cofactor_inverse_is_inverse_mod_scalar_modulus() {
    assert!(EdwardsConfig::cofactor_inverse_checks());
}

#[test]
fn montgomery_constants_have_documented_values() {
    let m = montgomery_from_edwards().expect("the conversion divisor is invertible");
    assert_eq!(BigUint::from_bytes_le(&m.coeff_a), BigUint::from(168698u64));
    assert_eq!(BigUint::from_bytes_le(&m.coeff_b), BigUint::from(1u64));
}
