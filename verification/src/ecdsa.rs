use vstd::prelude::*;
use vstd::pervasive::unreached;
use crate::ristretto::Point25519;
use crate::ristretto::Scalar25519;
use crate::ristretto::rist_add;
use crate::ristretto::rist_base_mul;
use crate::ristretto::rist_mul;
use crate::ristretto::sc25519_add;
use crate::ristretto::sc25519_inv;
use crate::ristretto::sc25519_mul;
use crate::ristretto::sc25519_reduce;
use crate::bytes32::zero32;
use crate::errors::SigError;
use crate::all_lambda_scalars;
use crate::derived_agg_25519;
use crate::msg_scalar_25519;
use crate::views_25519;

verus! {

/// How many fresh ephemeral vectors signing may draw before giving up on
/// escaping a zero nonce aggregate.
pub const MAX_SIGN_ATTEMPTS: usize = 8;

/// The public key bound to a split-key vector: the basepoint raised to the
/// aggregate scalar the vector drives under its variant-false masking vector.
pub open spec fn ecdsa_pk_of(sk: Seq<Seq<u8>>) -> Seq<u8> {
    rist_base_mul(derived_agg_25519(sk, false))
}

/// The aggregate scalar an ephemeral split vector drives under its
/// variant-true masking vector: the nonce of one signature.
pub open spec fn nonce_agg(k: Seq<Seq<u8>>) -> Seq<u8> {
    derived_agg_25519(k, true)
}

/// The first signature component for an ephemeral vector: the basepoint
/// raised to the nonce aggregate, compressed and reduced into the field.
pub open spec fn ecdsa_r_of(k: Seq<Seq<u8>>) -> Seq<u8> {
    sc25519_reduce(rist_base_mul(nonce_agg(k)))
}

/// The second signature component: the nonce inverse times the message
/// scalar plus the first component times the key aggregate.
pub open spec fn ecdsa_s_of(sk: Seq<Seq<u8>>, k: Seq<Seq<u8>>, msg: Seq<u8>) -> Seq<u8> {
    sc25519_mul(
        sc25519_inv(nonce_agg(k)),
        sc25519_add(
            msg_scalar_25519(msg),
            sc25519_mul(ecdsa_r_of(k), derived_agg_25519(sk, false)),
        ),
    )
}

/// Generate a split-key pair for the discrete-log signature. A zero-length
/// parameter is rejected rather than yielding a trivial key.
pub fn keygen(n: usize) -> (r: Result<(Vec<Scalar25519>, Point25519), SigError>)
    ensures
        r is Ok <==> n >= 1,
        r is Err ==> r == Err::<(Vec<Scalar25519>, Point25519), SigError>(
            SigError::LengthMismatch,
        ),
        r matches Ok(kp) ==> ({
            &&& kp.0@.len() == n
            &&& all_lambda_scalars(views_25519(kp.0@))
            &&& kp.1@ == ecdsa_pk_of(views_25519(kp.0@))
        }),
{
    if n == 0 {
        return Err(SigError::LengthMismatch);
    }
    let sk = crate::sample_curve25519_lambda(n);
    let seed = crate::curve25519_scalar_list_to_bytes(&sk);
    let a_list = crate::hash_tilde_curve25519(seed.as_slice(), n, false);
    let agg = match crate::aggregate_curve25519(&a_list, &sk) {
        Ok(s) => s,
        Err(e) => {
            return Err(e);
        },
    };
    let pk = crate::ristretto::point_base_mul(&agg);
    Ok((sk, pk))
}

/// Sign a message with a caller-supplied ephemeral split vector `k`: succeeds
/// exactly when the nonce aggregate that `k` drives is nonzero, the signature
/// being the reduced commitment and the response scalar.
pub fn sign_with_nonce(sk: &Vec<Scalar25519>, k: &Vec<Scalar25519>, msg: &[u8]) -> (r: Result<
    (Scalar25519, Scalar25519),
    SigError,
>)
    ensures
        r is Ok <==> nonce_agg(views_25519(k@)) != zero32(),
        r matches Ok(sig) ==> ({
            &&& sig.0@ == ecdsa_r_of(views_25519(k@))
            &&& sig.1@ == ecdsa_s_of(views_25519(sk@), views_25519(k@), msg@)
        }),
        r is Err ==> r == Err::<(Scalar25519, Scalar25519), SigError>(
            SigError::NonInvertibleScalar,
        ),
{
    let m = crate::hash_scalar_curve25519(msg);
    let seed = crate::curve25519_scalar_list_to_bytes(sk);
    let a_list = crate::hash_tilde_curve25519(seed.as_slice(), sk.len(), false);
    let kseed = crate::curve25519_scalar_list_to_bytes(k);
    let b_list = crate::hash_tilde_curve25519(kseed.as_slice(), k.len(), true);
    let agg_a = match crate::aggregate_curve25519(&a_list, sk) {
        Ok(s) => s,
        Err(_) => unreached(),
    };
    let agg_b = match crate::aggregate_curve25519(&b_list, k) {
        Ok(s) => s,
        Err(_) => unreached(),
    };
    if agg_b.is_zero() {
        return Err(SigError::NonInvertibleScalar);
    }
    let commit = crate::ristretto::point_base_mul(&agg_b);
    let commit_bytes = commit.to_bytes();
    let r_sc = crate::ristretto::scalar_reduce(&commit_bytes);
    let inv = crate::ristretto::scalar_invert(&agg_b);
    let s_sc = crate::ristretto::scalar_mul(
        &inv,
        &crate::ristretto::scalar_add(&m, &crate::ristretto::scalar_mul(&r_sc, &agg_a)),
    );
    Ok((r_sc, s_sc))
}

/// Sign a message: draw a fresh ephemeral split vector of the key's length
/// and retry while its nonce aggregate is zero, a negligible-probability
/// event, surfacing `RandomnessUnavailable` only if every attempt within the
/// bound failed.
pub fn sign(sk: &Vec<Scalar25519>, msg: &[u8]) -> (r: Result<
    (Scalar25519, Scalar25519),
    SigError,
>)
    ensures
        r matches Ok(sig) ==> exists|k: Seq<Seq<u8>>|
            {
                &&& nonce_agg(k) != zero32()
                &&& k.len() == sk@.len()
                &&& #[trigger] all_lambda_scalars(k)
                &&& sig.0@ == ecdsa_r_of(k)
                &&& sig.1@ == ecdsa_s_of(views_25519(sk@), k, msg@)
            },
        r is Err ==> r == Err::<(Scalar25519, Scalar25519), SigError>(
            SigError::RandomnessUnavailable,
        ),
{
    let mut attempts: usize = 0;
    while attempts < MAX_SIGN_ATTEMPTS
        decreases MAX_SIGN_ATTEMPTS - attempts,
    {
        let k = crate::sample_curve25519_lambda(sk.len());
        match sign_with_nonce(sk, &k, msg) {
            Ok(sig) => {
                proof {
                    let ks = views_25519(k@);
                    assert(all_lambda_scalars(ks) && nonce_agg(ks) != zero32());
                }
                return Ok(sig);
            },
            Err(_) => {},
        }
        attempts += 1;
    }
    Err(SigError::RandomnessUnavailable)
}

/// Verify a signature `(r, s)` against a public key: recompute the commitment
/// point as `(base^m + pk^r) * s^(-1)` and accept exactly when `r` equals its
/// compressed encoding reduced into the field. A zero `s` is malformed and
/// rejected outright rather than raising; no secret material is consulted.
pub fn verify(pk: &Point25519, msg: &[u8], signature: &(Scalar25519, Scalar25519)) -> (r: bool)
    ensures
        r == (signature.1@ != zero32() && signature.0@ == sc25519_reduce(
            rist_mul(
                rist_add(
                    rist_base_mul(msg_scalar_25519(msg@)),
                    rist_mul(pk@, signature.0@),
                ),
                sc25519_inv(signature.1@),
            ),
        )),
{
    if signature.1.is_zero() {
        return false;
    }
    let m = crate::hash_scalar_curve25519(msg);
    let base_m = crate::ristretto::point_base_mul(&m);
    let pk_r = crate::ristretto::point_mul(pk, &signature.0);
    let sum = crate::ristretto::point_add(&base_m, &pk_r);
    let s_inv = crate::ristretto::scalar_invert(&signature.1);
    let commit = crate::ristretto::point_mul(&sum, &s_inv);
    let commit_bytes = commit.to_bytes();
    let candidate = crate::ristretto::scalar_reduce(&commit_bytes);
    signature.0.eq_scalar(&candidate)
}

} // verus!
