use vstd::prelude::*;
use vstd::pervasive::unreached;
use crate::bls381::G1Point;
use crate::bls381::G2Point;
use crate::bls381::Scalar381;
use crate::bls381::g1_hash_of;
use crate::bls381::g1_smul;
use crate::bls381::g2_gen;
use crate::bls381::g2_gen_mul;
use crate::bls381::pair381;
use crate::errors::SigError;
use crate::all_lambda_scalars;
use crate::derived_agg_381;
use crate::views_381;

verus! {

/// The public key bound to a split-key vector: the G2 generator raised to the
/// aggregate scalar that the vector drives under its variant-false masking
/// vector.
pub open spec fn bls_pk_of(sk: Seq<Seq<u8>>) -> Seq<u8> {
    g2_gen_mul(derived_agg_381(sk, false))
}

/// The signature on a message under a split-key vector: the message's G1 hash
/// point raised to the same aggregate scalar the public key was built from.
pub open spec fn bls_sig_of(sk: Seq<Seq<u8>>, msg: Seq<u8>) -> Seq<u8> {
    g1_smul(g1_hash_of(msg), derived_agg_381(sk, false))
}

/// Generate a split-key pair for the pairing signature: a fresh split-key
/// vector of length `n` and the public key it binds. A zero-length parameter
/// is rejected rather than yielding a trivial key.
pub fn keygen(n: usize) -> (r: Result<(Vec<Scalar381>, G2Point), SigError>)
    ensures
        r is Ok <==> n >= 1,
        r is Err ==> r == Err::<(Vec<Scalar381>, G2Point), SigError>(SigError::LengthMismatch),
        r matches Ok(kp) ==> ({
            &&& kp.0@.len() == n
            &&& all_lambda_scalars(views_381(kp.0@))
            &&& kp.1@ == bls_pk_of(views_381(kp.0@))
        }),
{
    if n == 0 {
        return Err(SigError::LengthMismatch);
    }
    let sk = crate::sample_bls12_381_lambda(n);
    let seed = crate::bls12_381_scalar_list_to_bytes(&sk);
    let a_list = crate::hash_tilde_bls12_381(seed.as_slice(), n, false);
    let agg = match crate::aggregate_bls12_381(&a_list, &sk) {
        Ok(s) => s,
        Err(e) => {
            return Err(e);
        },
    };
    let pk = crate::bls381::g2_base_mul(&agg);
    Ok((sk, pk))
}

/// Sign a message: hash it to G1 and raise the hash point to the aggregate
/// scalar recomputed from the split-key vector exactly as at key generation.
pub fn sign(sk: &Vec<Scalar381>, msg: &[u8]) -> (r: G1Point)
    ensures
        r@ == bls_sig_of(views_381(sk@), msg@),
{
    let n = sk.len();
    let h = crate::hash_g1_bls12_381(msg);
    let seed = crate::bls12_381_scalar_list_to_bytes(sk);
    let a_list = crate::hash_tilde_bls12_381(seed.as_slice(), n, false);
    let agg = match crate::aggregate_bls12_381(&a_list, sk) {
        Ok(s) => s,
        Err(_) => unreached(),
    };
    crate::bls381::g1_mul(&h, &agg)
}

/// Verify a signature against a public key: accept exactly when the pairing
/// of the signature with the G2 generator equals the pairing of the message's
/// hash point with the public key. No secret material is consulted, and a
/// malformed pair never raises: the result is plain false.
pub fn verify(pk: &G2Point, msg: &[u8], signature: &G1Point) -> (r: bool)
    ensures
        r == (pair381(signature@, g2_gen()) == pair381(g1_hash_of(msg@), pk@)),
{
    let h = crate::hash_g1_bls12_381(msg);
    let one = Scalar381::from_small(1);
    let gen2 = crate::bls381::g2_base_mul(&one);
    crate::bls381::pairing_eq(signature, &gen2, &h, pk)
}

} // verus!
