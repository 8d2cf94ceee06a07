use split_sig::bb3_aim;
use split_sig::bb3_cml;
use split_sig::bls;
use split_sig::ecdsa;
use split_sig::okamoto_aim;
use split_sig::okamoto_cml;
use split_sig::schnorr;

#[test]
fn test_lr_bls() {
    let n: usize = 100;
    let msg = "Hello, world!";
    let (sk, pk) = bls::keygen(n).unwrap();
    let signature = bls::sign(&sk, &msg.as_bytes());
    assert!(bls::verify(&pk, &msg.as_bytes(), &signature))
}

#[test]
fn test_lr_bb3_aim() {
    let n: usize = 100;
    let msg = "Hello, world!";
    let (sk, pk) = bb3_aim::keygen(n).unwrap();
    let signature = bb3_aim::sign(&sk, &msg.as_bytes()).unwrap();
    assert!(bb3_aim::verify(&pk, &msg.as_bytes(), &signature))
}

#[test]
fn test_lr_bb3_cml() {
    let n: usize = 100;
    let msg = "Hello, world!";
    let (sk, pk) = bb3_cml::keygen(n).unwrap();
    let signature = bb3_cml::sign(&sk, &msg.as_bytes()).unwrap();
    assert!(bb3_cml::verify(&pk, &msg.as_bytes(), &signature))
}

#[test]
fn test_lr_ecdsa() {
    let n: usize = 100;
    let msg = "Hello, world!";
    let (sk, pk) = ecdsa::keygen(n).unwrap();
    let signature = ecdsa::sign(&sk, &msg.as_bytes()).unwrap();
    assert!(ecdsa::verify(&pk, &msg.as_bytes(), &signature))
}

#[test]
fn test_lr_schnorr() {
    let n: usize = 100;
    let msg = "Hello, world!";
    let (sk, pk) = schnorr::keygen(n).unwrap();
    let signature = schnorr::sign(&pk, &sk, &msg.as_bytes());
    assert!(schnorr::verify(&pk, &msg.as_bytes(), &signature))
}

#[test]
fn test_lr_okamoto_aim() {
    let n: usize = 100;
    let msg = "Hello, world!";
    let (sk, pk) = okamoto_aim::keygen(n).unwrap();
    let signature = okamoto_aim::sign(&pk, &sk, &msg.as_bytes());
    assert!(okamoto_aim::verify(&pk, &msg.as_bytes(), &signature))
}

// The dual-secret dual-base variant is constructed by direct analogy to the
// dual-secret dual-pairing variant: one independent secret vector per masking
// direction.
#[test]
fn test_lr_okamoto_cml() {
    let n: usize = 100;
    let msg = "Hello, world!";
    let (sk, pk) = okamoto_cml::keygen(n).unwrap();
    let signature = okamoto_cml::sign(&pk, &sk, &msg.as_bytes());
    assert!(okamoto_cml::verify(&pk, &msg.as_bytes(), &signature))
}

#[test]
fn test_degenerate_length_roundtrips() {
    let msg = "boundary";
    let (sk, pk) = bls::keygen(1).unwrap();
    assert!(bls::verify(&pk, msg.as_bytes(), &bls::sign(&sk, msg.as_bytes())));
    let (sk, pk) = bb3_aim::keygen(1).unwrap();
    assert!(bb3_aim::verify(&pk, msg.as_bytes(), &bb3_aim::sign(&sk, msg.as_bytes()).unwrap()));
    let (sk, pk) = bb3_cml::keygen(1).unwrap();
    assert!(bb3_cml::verify(&pk, msg.as_bytes(), &bb3_cml::sign(&sk, msg.as_bytes()).unwrap()));
    let (sk, pk) = ecdsa::keygen(1).unwrap();
    assert!(ecdsa::verify(&pk, msg.as_bytes(), &ecdsa::sign(&sk, msg.as_bytes()).unwrap()));
    let (sk, pk) = schnorr::keygen(1).unwrap();
    assert!(schnorr::verify(&pk, msg.as_bytes(), &schnorr::sign(&pk, &sk, msg.as_bytes())));
    let (sk, pk) = okamoto_aim::keygen(1).unwrap();
    assert!(okamoto_aim::verify(&pk, msg.as_bytes(), &okamoto_aim::sign(&pk, &sk, msg.as_bytes())));
    let (sk, pk) = okamoto_cml::keygen(1).unwrap();
    assert!(okamoto_cml::verify(&pk, msg.as_bytes(), &okamoto_cml::sign(&pk, &sk, msg.as_bytes())));
}
