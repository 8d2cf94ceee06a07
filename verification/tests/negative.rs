use split_sig::bb3_aim;
use split_sig::bb3_cml;
use split_sig::bls;
use split_sig::bls381::Scalar381;
use split_sig::bls381::g1_from_bytes;
use split_sig::ecdsa;
use split_sig::errors::SigError;
use split_sig::okamoto_aim;
use split_sig::okamoto_cml;
use split_sig::ristretto::Scalar25519;
use split_sig::schnorr;

fn flip_bit_25519(s: &Scalar25519, bit: usize) -> Scalar25519 {
    let mut b = s.to_bytes();
    b[bit / 8] ^= 1 << (bit % 8);
    Scalar25519::from_bytes(b)
}

fn flip_bit_381(s: &Scalar381, bit: usize) -> Scalar381 {
    let mut b = s.to_bytes();
    b[bit / 8] ^= 1 << (bit % 8);
    Scalar381::from_bytes(b)
}

#[test]
fn test_keygen_rejects_zero_length() {
    assert!(matches!(bls::keygen(0), Err(SigError::LengthMismatch)));
    assert!(matches!(bb3_aim::keygen(0), Err(SigError::LengthMismatch)));
    assert!(matches!(bb3_cml::keygen(0), Err(SigError::LengthMismatch)));
    assert!(matches!(ecdsa::keygen(0), Err(SigError::LengthMismatch)));
    assert!(matches!(schnorr::keygen(0), Err(SigError::LengthMismatch)));
    assert!(matches!(okamoto_aim::keygen(0), Err(SigError::LengthMismatch)));
    assert!(matches!(okamoto_cml::keygen(0), Err(SigError::LengthMismatch)));
}

#[test]
fn test_zero_nonce_vector_is_rejected() {
    // An ephemeral vector of zero components drives a zero nonce aggregate,
    // which has no inverse.
    let (sk, _pk) = ecdsa::keygen(4).unwrap();
    let zeros = vec![Scalar25519::zero(); 4];
    assert!(matches!(
        ecdsa::sign_with_nonce(&sk, &zeros, b"msg"),
        Err(SigError::NonInvertibleScalar)
    ));
}

#[test]
fn test_ecdsa_rejects_zero_s() {
    let (_sk, pk) = ecdsa::keygen(4).unwrap();
    let sig = (Scalar25519::from_small(3), Scalar25519::zero());
    assert!(!ecdsa::verify(&pk, b"msg", &sig));
}

#[test]
fn test_ecdsa_bit_flip() {
    let msg = b"flip me";
    let (sk, pk) = ecdsa::keygen(16).unwrap();
    let (r, s) = ecdsa::sign(&sk, msg).unwrap();
    assert!(ecdsa::verify(&pk, msg, &(r, s)));
    for bit in [0usize, 13, 255] {
        assert!(!ecdsa::verify(&pk, msg, &(flip_bit_25519(&r, bit), s)));
        assert!(!ecdsa::verify(&pk, msg, &(r, flip_bit_25519(&s, bit))));
    }
}

#[test]
fn test_schnorr_bit_flip() {
    let msg = b"flip me";
    let (sk, pk) = schnorr::keygen(16).unwrap();
    let (c, z) = schnorr::sign(&pk, &sk, msg);
    assert!(schnorr::verify(&pk, msg, &(c, z)));
    for bit in [0usize, 13, 255] {
        assert!(!schnorr::verify(&pk, msg, &(flip_bit_25519(&c, bit), z)));
        assert!(!schnorr::verify(&pk, msg, &(c, flip_bit_25519(&z, bit))));
    }
}

#[test]
fn test_okamoto_bit_flip() {
    let msg = b"flip me";
    let (sk, pk) = okamoto_aim::keygen(16).unwrap();
    let (c, z1, z2) = okamoto_aim::sign(&pk, &sk, msg);
    assert!(okamoto_aim::verify(&pk, msg, &(c, z1, z2)));
    assert!(!okamoto_aim::verify(&pk, msg, &(flip_bit_25519(&c, 7), z1, z2)));
    assert!(!okamoto_aim::verify(&pk, msg, &(c, flip_bit_25519(&z1, 7), z2)));
    assert!(!okamoto_aim::verify(&pk, msg, &(c, z1, flip_bit_25519(&z2, 7))));

    let (sk, pk) = okamoto_cml::keygen(16).unwrap();
    let (c, z1, z2) = okamoto_cml::sign(&pk, &sk, msg);
    assert!(okamoto_cml::verify(&pk, msg, &(c, z1, z2)));
    assert!(!okamoto_cml::verify(&pk, msg, &(flip_bit_25519(&c, 7), z1, z2)));
    assert!(!okamoto_cml::verify(&pk, msg, &(c, flip_bit_25519(&z1, 7), z2)));
    assert!(!okamoto_cml::verify(&pk, msg, &(c, z1, flip_bit_25519(&z2, 7))));
}

#[test]
fn test_bb3_bit_flip() {
    let msg = b"flip me";
    let (sk, pk) = bb3_aim::keygen(8).unwrap();
    let (s_point, nonce) = bb3_aim::sign(&sk, msg).unwrap();
    assert!(bb3_aim::verify(&pk, msg, &(s_point, nonce)));
    // Flip a bit of the nonce scalar.
    assert!(!bb3_aim::verify(&pk, msg, &(s_point, flip_bit_381(&nonce, 9))));
    // Flip a bit of the point's encoding: either it stops decoding at all, or
    // it decodes to a point that no longer satisfies the pairing identity.
    let mut pb = s_point.to_bytes();
    pb[20] ^= 4;
    match g1_from_bytes(&pb) {
        None => {},
        Some(q) => assert!(!bb3_aim::verify(&pk, msg, &(q, nonce))),
    }
}

#[test]
fn test_bls_bit_flip() {
    let msg = b"flip me";
    let (sk, pk) = bls::keygen(8).unwrap();
    let sig = bls::sign(&sk, msg);
    assert!(bls::verify(&pk, msg, &sig));
    let mut pb = sig.to_bytes();
    pb[17] ^= 2;
    match g1_from_bytes(&pb) {
        None => {},
        Some(q) => assert!(!bls::verify(&pk, msg, &q)),
    }
}

#[test]
fn test_cross_key_bls() {
    let n: usize = 100;
    let msg = "Hello, world!";
    let (sk, pk) = bls::keygen(n).unwrap();
    let (_sk2, pk2) = bls::keygen(n).unwrap();
    let sig = bls::sign(&sk, msg.as_bytes());
    assert!(bls::verify(&pk, msg.as_bytes(), &sig));
    assert!(!bls::verify(&pk2, msg.as_bytes(), &sig));
}

#[test]
fn test_cross_key_bb3() {
    let n: usize = 100;
    let msg = "Hello, world!";
    let (sk, pk) = bb3_aim::keygen(n).unwrap();
    let (_sk2, pk2) = bb3_aim::keygen(n).unwrap();
    let sig = bb3_aim::sign(&sk, msg.as_bytes()).unwrap();
    assert!(bb3_aim::verify(&pk, msg.as_bytes(), &sig));
    assert!(!bb3_aim::verify(&pk2, msg.as_bytes(), &sig));

    let (sk, pk) = bb3_cml::keygen(n).unwrap();
    let (_sk2, pk2) = bb3_cml::keygen(n).unwrap();
    let sig = bb3_cml::sign(&sk, msg.as_bytes()).unwrap();
    assert!(bb3_cml::verify(&pk, msg.as_bytes(), &sig));
    assert!(!bb3_cml::verify(&pk2, msg.as_bytes(), &sig));
}

#[test]
fn test_cross_key_ristretto_schemes() {
    let n: usize = 100;
    let msg = "Hello, world!";
    let (sk, pk) = ecdsa::keygen(n).unwrap();
    let (_sk2, pk2) = ecdsa::keygen(n).unwrap();
    let sig = ecdsa::sign(&sk, msg.as_bytes()).unwrap();
    assert!(ecdsa::verify(&pk, msg.as_bytes(), &sig));
    assert!(!ecdsa::verify(&pk2, msg.as_bytes(), &sig));

    let (sk, pk) = schnorr::keygen(n).unwrap();
    let (_sk2, pk2) = schnorr::keygen(n).unwrap();
    let sig = schnorr::sign(&pk, &sk, msg.as_bytes());
    assert!(schnorr::verify(&pk, msg.as_bytes(), &sig));
    assert!(!schnorr::verify(&pk2, msg.as_bytes(), &sig));

    let (sk, pk) = okamoto_aim::keygen(n).unwrap();
    let (_sk2, pk2) = okamoto_aim::keygen(n).unwrap();
    let sig = okamoto_aim::sign(&pk, &sk, msg.as_bytes());
    assert!(okamoto_aim::verify(&pk, msg.as_bytes(), &sig));
    assert!(!okamoto_aim::verify(&pk2, msg.as_bytes(), &sig));

    let (sk, pk) = okamoto_cml::keygen(n).unwrap();
    let (_sk2, pk2) = okamoto_cml::keygen(n).unwrap();
    let sig = okamoto_cml::sign(&pk, &sk, msg.as_bytes());
    assert!(okamoto_cml::verify(&pk, msg.as_bytes(), &sig));
    assert!(!okamoto_cml::verify(&pk2, msg.as_bytes(), &sig));
}

#[test]
fn test_wrong_message_rejected() {
    let (sk, pk) = bls::keygen(4).unwrap();
    let sig = bls::sign(&sk, b"first");
    assert!(!bls::verify(&pk, b"second", &sig));
    let (sk, pk) = ecdsa::keygen(4).unwrap();
    let sig = ecdsa::sign(&sk, b"first").unwrap();
    assert!(!ecdsa::verify(&pk, b"second", &sig));
}
