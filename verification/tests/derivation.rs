use split_sig::aggregate_bls12_381;
use split_sig::aggregate_curve25519;
use split_sig::bls12_381_scalar_list_to_bytes;
use split_sig::bls381::Scalar381;
use split_sig::curve25519_scalar_list_to_bytes;
use split_sig::errors::SigError;
use split_sig::hash_tilde_bls12_381;
use split_sig::hash_tilde_curve25519;
use split_sig::ristretto::Scalar25519;

#[test]
fn test_masking_derivation_deterministic() {
    let seed: Vec<u8> = vec![5, 6, 7, 8];
    let n: usize = 16;
    let first = hash_tilde_curve25519(&seed, n, true);
    let second = hash_tilde_curve25519(&seed, n, true);
    assert_eq!(first.len(), n);
    for i in 0..n {
        assert_eq!(first[i].to_bytes(), second[i].to_bytes());
    }
    let first = hash_tilde_bls12_381(&seed, n, false);
    let second = hash_tilde_bls12_381(&seed, n, false);
    for i in 0..n {
        assert_eq!(first[i].to_bytes(), second[i].to_bytes());
    }
}

#[test]
fn test_masking_domain_separation() {
    let seed: Vec<u8> = vec![42, 17];
    let n: usize = 16;
    let untagged = hash_tilde_curve25519(&seed, n, false);
    let tagged = hash_tilde_curve25519(&seed, n, true);
    for i in 0..n {
        assert_ne!(untagged[i].to_bytes(), tagged[i].to_bytes());
    }
    let untagged = hash_tilde_bls12_381(&seed, n, false);
    let tagged = hash_tilde_bls12_381(&seed, n, true);
    for i in 0..n {
        assert_ne!(untagged[i].to_bytes(), tagged[i].to_bytes());
    }
}

#[test]
fn test_masking_positions_differ() {
    // Distinct positions hash distinct inputs, so the coefficients differ.
    let seed: Vec<u8> = vec![1];
    let coeffs = hash_tilde_curve25519(&seed, 8, false);
    for i in 0..8 {
        for j in 0..i {
            assert_ne!(coeffs[i].to_bytes(), coeffs[j].to_bytes());
        }
    }
}

#[test]
fn test_aggregate_exact_value() {
    // <(2, 3), (4, 5)> = 2 * 4 + 3 * 5 = 23 in either scalar field.
    let a = vec![Scalar25519::from_small(2), Scalar25519::from_small(3)];
    let b = vec![Scalar25519::from_small(4), Scalar25519::from_small(5)];
    let agg = aggregate_curve25519(&a, &b).unwrap();
    assert_eq!(agg.to_bytes(), Scalar25519::from_small(23).to_bytes());

    let a = vec![Scalar381::from_small(2), Scalar381::from_small(3)];
    let b = vec![Scalar381::from_small(4), Scalar381::from_small(5)];
    let agg = aggregate_bls12_381(&a, &b).unwrap();
    assert_eq!(agg.to_bytes(), Scalar381::from_small(23).to_bytes());
}

#[test]
fn test_aggregate_length_mismatch() {
    let a = vec![Scalar25519::from_small(1)];
    let b = vec![Scalar25519::from_small(1), Scalar25519::from_small(2)];
    assert!(matches!(aggregate_curve25519(&a, &b), Err(SigError::LengthMismatch)));
    let a = vec![Scalar381::from_small(1)];
    let b = vec![Scalar381::from_small(1), Scalar381::from_small(2)];
    assert!(matches!(aggregate_bls12_381(&a, &b), Err(SigError::LengthMismatch)));
}

#[test]
fn test_serialization_exact_value() {
    // One scalar of value 7: an 8-byte little-endian length of 1, then the
    // 32-byte little-endian encoding of 7.
    let v = vec![Scalar25519::from_small(7)];
    let bytes = curve25519_scalar_list_to_bytes(&v);
    let mut expected: Vec<u8> = vec![1, 0, 0, 0, 0, 0, 0, 0];
    expected.push(7);
    expected.extend(std::iter::repeat(0u8).take(31));
    assert_eq!(bytes, expected);

    let v = vec![Scalar381::from_small(7)];
    let bytes = bls12_381_scalar_list_to_bytes(&v);
    assert_eq!(bytes, expected);
}

#[test]
fn test_serialization_distinguishes_vectors() {
    // Injectivity on a pair that concatenation without a length prefix would
    // not need to distinguish from reordering.
    let v1 = vec![Scalar25519::from_small(1), Scalar25519::from_small(2)];
    let v2 = vec![Scalar25519::from_small(2), Scalar25519::from_small(1)];
    assert_ne!(curve25519_scalar_list_to_bytes(&v1), curve25519_scalar_list_to_bytes(&v2));
    let empty: Vec<Scalar25519> = Vec::new();
    let one = vec![Scalar25519::zero()];
    assert_ne!(curve25519_scalar_list_to_bytes(&empty), curve25519_scalar_list_to_bytes(&one));
}

#[test]
fn test_keygen_key_binding() {
    // Independent randomness yields distinct secret vectors and distinct
    // public keys.
    let (sk1, pk1) = split_sig::bls::keygen(8).unwrap();
    let (sk2, pk2) = split_sig::bls::keygen(8).unwrap();
    assert_ne!(bls12_381_scalar_list_to_bytes(&sk1), bls12_381_scalar_list_to_bytes(&sk2));
    assert_ne!(pk1.to_bytes(), pk2.to_bytes());

    let (sk1, pk1) = split_sig::ecdsa::keygen(8).unwrap();
    let (sk2, pk2) = split_sig::ecdsa::keygen(8).unwrap();
    assert_ne!(curve25519_scalar_list_to_bytes(&sk1), curve25519_scalar_list_to_bytes(&sk2));
    assert!(!pk1.eq_point(&pk2));
}

#[test]
fn test_sampling_stays_below_bound() {
    let sk = split_sig::sample_curve25519_lambda(64);
    for s in sk.iter() {
        let b = s.to_bytes();
        assert!(b[0] < 128);
        for j in 1..32 {
            assert_eq!(b[j], 0);
        }
    }
}
