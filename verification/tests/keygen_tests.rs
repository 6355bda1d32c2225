use ark_ec::CurveGroup;
use ark_ff::{BigInteger, PrimeField, UniformRand};
use num_bigint::BigUint;
use rand::SeedableRng;
use zkutxo::bignat::big_lt;
use zkutxo::curve::{is_on_curve, EdwardsConfig};
use zkutxo::keygen::{conversion_constants_check, generate_keypair};

#[test]
fn keygen_deterministic_under_fixed_seed() {
    let seed = [7u8; 32];
    let kp1 = generate_keypair(&seed).expect("derivation succeeds");
    let kp2 = generate_keypair(&seed).expect("derivation succeeds");
    assert_eq!(kp1.secret, kp2.secret);
    assert_eq!(kp1.public.x, kp2.public.x);
    assert_eq!(kp1.public.y, kp2.public.y);
}

#[test]
fn keygen_public_point_on_curve() {
    for fill in [0u8, 1, 9, 200] {
        let kp = generate_keypair(&[fill; 32]).expect("derivation succeeds");
        assert!(is_on_curve(&kp.public));
        assert_eq!(kp.public.x.len(), 32);
        assert_eq!(kp.public.y.len(), 32);
    }
}

#[test]
fn keygen_secret_is_reduced_scalar() {
    let kp = generate_keypair(&[0xff; 32]).expect("derivation succeeds");
    assert_eq!(kp.secret.len(), 32);
    assert!(big_lt(&kp.secret, &EdwardsConfig::scalar_modulus()));
    assert_ne!(kp.secret, vec![0xff; 32]);
}

#[test]
fn keygen_distinct_seeds_distinct_keys() {
    let kp1 = generate_keypair(&[3u8; 32]).expect("derivation succeeds");
    let kp2 = generate_keypair(&[4u8; 32]).expect("derivation succeeds");
    assert_ne!(kp1.secret, kp2.secret);
    assert_ne!(kp1.public.x, kp2.public.x);
}

#[test]
fn conversion_constants_satisfy_relations() {
    assert!(conversion_constants_check());
}

#[test]
fn keygen_matches_direct_curve_computation() {
    // Recompute the public point with independent big-integer
    // arithmetic: carry the generator onto the a = 1 curve, multiply
    // there with ark, and carry the result back.
    let seed = [5u8; 32];
    let kp = generate_keypair(&seed).expect("derivation succeeds");

    let p = BigUint::parse_bytes(
        b"21888242871839275222246405745257275088548364400416034343698204186575808495617",
        10,
    )
    .unwrap();
    let a = BigUint::from(168700u64);
    // sqrt(a) mod p, as the library documents it.
    let sa = BigUint::parse_bytes(
        b"7214280148105020021932206872019688659210616427216992810330019057549499971851",
        10,
    )
    .unwrap();
    assert_eq!(&sa * &sa % &p, a);

    let gx = BigUint::parse_bytes(
        b"5299619240641551281634865583518297030282874472190772894086521144482721001553",
        10,
    )
    .unwrap();
    let gy = BigUint::parse_bytes(
        b"16950150798460657717958625567821834550301663161624707787222815936182638968203",
        10,
    )
    .unwrap();
    let ux = &gx * &sa % &p;

    let mut rng = rand::rngs::StdRng::from_seed(seed);
    let sk = ark_ed_on_bn254::Fr::rand(&mut rng);
    assert_eq!(sk.into_bigint().to_bytes_le(), kp.secret);

    let fx = ark_ed_on_bn254::Fq::from_le_bytes_mod_order(&ux.to_bytes_le());
    let fy = ark_ed_on_bn254::Fq::from_le_bytes_mod_order(&gy.to_bytes_le());
    let base = ark_ed_on_bn254::EdwardsAffine::new_unchecked(fx, fy);
    let q = (base * sk).into_affine();

    let inv_sa = sa.modpow(&(&p - BigUint::from(2u64)), &p);
    let qx = BigUint::from_bytes_le(&q.x.into_bigint().to_bytes_le());
    let expected_x = qx * inv_sa % &p;
    assert_eq!(BigUint::from_bytes_le(&kp.public.x), expected_x);
    assert_eq!(q.y.into_bigint().to_bytes_le(), kp.public.y);
}
