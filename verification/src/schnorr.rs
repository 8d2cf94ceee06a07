use vstd::prelude::*;
use vstd::pervasive::unreached;
use crate::ristretto::Point25519;
use crate::ristretto::Scalar25519;
use crate::ristretto::rist_base_mul;
use crate::ristretto::rist_mul;
use crate::ristretto::rist_sub;
use crate::ristretto::sc25519_add;
use crate::ristretto::sc25519_mul;
use crate::errors::SigError;
use crate::all_lambda_scalars;
use crate::challenge_25519;
use crate::derived_agg_25519;
use crate::views_25519;

verus! {

/// The public key bound to a split-key vector: the basepoint raised to the
/// aggregate scalar the vector drives under its variant-false masking vector.
pub open spec fn schnorr_pk_of(sk: Seq<Seq<u8>>) -> Seq<u8> {
    rist_base_mul(derived_agg_25519(sk, false))
}

/// The challenge of an honest signature: the Fiat-Shamir hash of the public
/// key, the message and the commitment that the ephemeral vector drives.
pub open spec fn schnorr_c_of(pk: Seq<u8>, rv: Seq<Seq<u8>>, msg: Seq<u8>) -> Seq<u8> {
    challenge_25519(pk, msg, rist_base_mul(derived_agg_25519(rv, true)))
}

/// The response of an honest signature: the ephemeral aggregate plus the
/// challenge times the key aggregate.
pub open spec fn schnorr_z_of(
    pk: Seq<u8>,
    sk: Seq<Seq<u8>>,
    rv: Seq<Seq<u8>>,
    msg: Seq<u8>,
) -> Seq<u8> {
    sc25519_add(
        derived_agg_25519(rv, true),
        sc25519_mul(schnorr_c_of(pk, rv, msg), derived_agg_25519(sk, false)),
    )
}

/// Generate a split-key pair for the Schnorr-style sigma-protocol signature.
/// A zero-length parameter is rejected rather than yielding a trivial key.
pub fn keygen(n: usize) -> (r: Result<(Vec<Scalar25519>, Point25519), SigError>)
    ensures
        r is Ok <==> n >= 1,
        r is Err ==> r == Err::<(Vec<Scalar25519>, Point25519), SigError>(
            SigError::LengthMismatch,
        ),
        r matches Ok(kp) ==> ({
            &&& kp.0@.len() == n
            &&& all_lambda_scalars(views_25519(kp.0@))
            &&& kp.1@ == schnorr_pk_of(views_25519(kp.0@))
        }),
{
    if n == 0 {
        return Err(SigError::LengthMismatch);
    }
    let sk = crate::sample_curve25519_lambda(n);
    let seed = crate::curve25519_scalar_list_to_bytes(&sk);
    let a_list = crate::hash_tilde_curve25519(seed.as_slice(), n, false);
    let agg = match crate::aggregate_curve25519(&a_list, &sk) {
        Ok(s) => s,
        Err(e) => {
            return Err(e);
        },
    };
    let pk = crate::ristretto::point_base_mul(&agg);
    Ok((sk, pk))
}

/// Sign a message: draw a fresh ephemeral split vector, commit to the
/// aggregate it drives under the variant-true tag, hash the commitment into
/// the challenge and answer with the masked response. Signing never fails:
/// no inversion is involved.
pub fn sign(pk: &Point25519, sk: &Vec<Scalar25519>, msg: &[u8]) -> (r: (Scalar25519, Scalar25519))
    ensures
        exists|rv: Seq<Seq<u8>>|
            {
                &&& rv.len() == sk@.len()
                &&& #[trigger] all_lambda_scalars(rv)
                &&& r.0@ == schnorr_c_of(pk@, rv, msg@)
                &&& r.1@ == schnorr_z_of(pk@, views_25519(sk@), rv, msg@)
            },
{
    let n = sk.len();
    let seed = crate::curve25519_scalar_list_to_bytes(sk);
    let a_list = crate::hash_tilde_curve25519(seed.as_slice(), n, false);
    let agg_a = match crate::aggregate_curve25519(&a_list, sk) {
        Ok(s) => s,
        Err(_) => unreached(),
    };
    let r_list = crate::sample_curve25519_lambda(n);
    let rseed = crate::curve25519_scalar_list_to_bytes(&r_list);
    let b_list = crate::hash_tilde_curve25519(rseed.as_slice(), n, true);
    let agg_b = match crate::aggregate_curve25519(&b_list, &r_list) {
        Ok(s) => s,
        Err(_) => unreached(),
    };
    let commit = crate::ristretto::point_base_mul(&agg_b);
    let c = crate::fiat_shamir_challenge(pk, msg, &commit);
    let z = crate::ristretto::scalar_add(
        &agg_b,
        &crate::ristretto::scalar_mul(&c, &agg_a),
    );
    proof {
        let rv = views_25519(r_list@);
        assert(all_lambda_scalars(rv));
    }
    (c, z)
}

/// Verify a signature `(c, z)` against a public key: recompute the commitment
/// as `base^z - pk^c`, rehash the challenge and accept exactly when it equals
/// `c`. No secret material is consulted and malformed input never raises.
pub fn verify(pk: &Point25519, msg: &[u8], signature: &(Scalar25519, Scalar25519)) -> (r: bool)
    ensures
        r == (signature.0@ == challenge_25519(
            pk@,
            msg@,
            rist_sub(rist_base_mul(signature.1@), rist_mul(pk@, signature.0@)),
        )),
{
    let base_z = crate::ristretto::point_base_mul(&signature.1);
    let pk_c = crate::ristretto::point_mul(pk, &signature.0);
    let commit = crate::ristretto::point_sub(&base_z, &pk_c);
    let candidate = crate::fiat_shamir_challenge(pk, msg, &commit);
    signature.0.eq_scalar(&candidate)
}

} // verus!
