[package]
name = "split_sig"
version = "0.1.0"
edition = "2021"
publish = false

[dependencies]
bls12_381 = { version = "=0.8.0", features = ["experimental"] }
curve25519-dalek = "=4.1.3"
group = "=0.13.0"
rand = "=0.8.8"
sha2 = "=0.9.9"
