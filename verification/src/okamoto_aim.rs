use vstd::prelude::*;
use vstd::pervasive::unreached;
use crate::ristretto::Point25519;
use crate::ristretto::Scalar25519;
use crate::ristretto::rist_add;
use crate::ristretto::rist_base_mul;
use crate::ristretto::rist_mul;
use crate::ristretto::rist_sub;
use crate::ristretto::sc25519_add;
use crate::ristretto::sc25519_mul;
use crate::errors::SigError;
use crate::all_lambda_scalars;
use crate::challenge_25519;
use crate::derived_agg_25519;
use crate::second_base_spec;
use crate::views_25519;

verus! {

/// The public key of the single-secret dual-base scheme: the basepoint raised
/// to the variant-false aggregate plus the second base raised to the
/// variant-true aggregate, both driven by one split-key vector.
pub open spec fn okamoto_aim_pk_of(sk: Seq<Seq<u8>>) -> Seq<u8> {
    rist_add(
        rist_base_mul(derived_agg_25519(sk, false)),
        rist_mul(second_base_spec(), derived_agg_25519(sk, true)),
    )
}

/// The commitment that an ephemeral split vector drives: the same dual-base
/// shape as the public key.
pub open spec fn okamoto_commit_of(rv: Seq<Seq<u8>>) -> Seq<u8> {
    rist_add(
        rist_base_mul(derived_agg_25519(rv, false)),
        rist_mul(second_base_spec(), derived_agg_25519(rv, true)),
    )
}

/// The challenge of an honest signature.
pub open spec fn okamoto_aim_c_of(pk: Seq<u8>, rv: Seq<Seq<u8>>, msg: Seq<u8>) -> Seq<u8> {
    challenge_25519(pk, msg, okamoto_commit_of(rv))
}

/// The two responses of an honest signature, one per masking direction.
pub open spec fn okamoto_aim_z_of(
    pk: Seq<u8>,
    sk: Seq<Seq<u8>>,
    rv: Seq<Seq<u8>>,
    msg: Seq<u8>,
) -> (Seq<u8>, Seq<u8>) {
    let c = okamoto_aim_c_of(pk, rv, msg);
    (
        sc25519_add(derived_agg_25519(rv, false), sc25519_mul(c, derived_agg_25519(sk, false))),
        sc25519_add(derived_agg_25519(rv, true), sc25519_mul(c, derived_agg_25519(sk, true))),
    )
}

/// Generate a split-key pair for the single-secret dual-base scheme: one
/// split-key vector drives both exponents through the two domain tags. A
/// zero-length parameter is rejected.
pub fn keygen(n: usize) -> (r: Result<(Vec<Scalar25519>, Point25519), SigError>)
    ensures
        r is Ok <==> n >= 1,
        r is Err ==> r == Err::<(Vec<Scalar25519>, Point25519), SigError>(
            SigError::LengthMismatch,
        ),
        r matches Ok(kp) ==> ({
            &&& kp.0@.len() == n
            &&& all_lambda_scalars(views_25519(kp.0@))
            &&& kp.1@ == okamoto_aim_pk_of(views_25519(kp.0@))
        }),
{
    if n == 0 {
        return Err(SigError::LengthMismatch);
    }
    let sk = crate::sample_curve25519_lambda(n);
    let seed = crate::curve25519_scalar_list_to_bytes(&sk);
    let a_list = crate::hash_tilde_curve25519(seed.as_slice(), n, false);
    let b_list = crate::hash_tilde_curve25519(seed.as_slice(), n, true);
    let agg_a = match crate::aggregate_curve25519(&a_list, &sk) {
        Ok(s) => s,
        Err(e) => {
            return Err(e);
        },
    };
    let agg_b = match crate::aggregate_curve25519(&b_list, &sk) {
        Ok(s) => s,
        Err(e) => {
            return Err(e);
        },
    };
    let base2 = crate::second_base();
    let first = crate::ristretto::point_base_mul(&agg_a);
    let second = crate::ristretto::point_mul(&base2, &agg_b);
    let pk = crate::ristretto::point_add(&first, &second);
    Ok((sk, pk))
}

/// Sign a message: draw a fresh ephemeral split vector, commit to the two
/// aggregates it drives over the two bases, hash the commitment into the
/// challenge and answer with one masked response per base. Signing never
/// fails: no inversion is involved.
pub fn sign(pk: &Point25519, sk: &Vec<Scalar25519>, msg: &[u8]) -> (r: (
    Scalar25519,
    Scalar25519,
    Scalar25519,
))
    ensures
        exists|rv: Seq<Seq<u8>>|
            {
                &&& rv.len() == sk@.len()
                &&& #[trigger] all_lambda_scalars(rv)
                &&& r.0@ == okamoto_aim_c_of(pk@, rv, msg@)
                &&& r.1@ == okamoto_aim_z_of(pk@, views_25519(sk@), rv, msg@).0
                &&& r.2@ == okamoto_aim_z_of(pk@, views_25519(sk@), rv, msg@).1
            },
{
    let n = sk.len();
    let seed = crate::curve25519_scalar_list_to_bytes(sk);
    let a_list = crate::hash_tilde_curve25519(seed.as_slice(), n, false);
    let b_list = crate::hash_tilde_curve25519(seed.as_slice(), n, true);
    let agg_a = match crate::aggregate_curve25519(&a_list, sk) {
        Ok(s) => s,
        Err(_) => unreached(),
    };
    let agg_b = match crate::aggregate_curve25519(&b_list, sk) {
        Ok(s) => s,
        Err(_) => unreached(),
    };
    let r_list = crate::sample_curve25519_lambda(n);
    let rseed = crate::curve25519_scalar_list_to_bytes(&r_list);
    let d_list = crate::hash_tilde_curve25519(rseed.as_slice(), n, false);
    let e_list = crate::hash_tilde_curve25519(rseed.as_slice(), n, true);
    let agg_d = match crate::aggregate_curve25519(&d_list, &r_list) {
        Ok(s) => s,
        Err(_) => unreached(),
    };
    let agg_e = match crate::aggregate_curve25519(&e_list, &r_list) {
        Ok(s) => s,
        Err(_) => unreached(),
    };
    let base2 = crate::second_base();
    let first = crate::ristretto::point_base_mul(&agg_d);
    let second = crate::ristretto::point_mul(&base2, &agg_e);
    let commit = crate::ristretto::point_add(&first, &second);
    let c = crate::fiat_shamir_challenge(pk, msg, &commit);
    let z1 = crate::ristretto::scalar_add(&agg_d, &crate::ristretto::scalar_mul(&c, &agg_a));
    let z2 = crate::ristretto::scalar_add(&agg_e, &crate::ristretto::scalar_mul(&c, &agg_b));
    proof {
        let rv = views_25519(r_list@);
        assert(all_lambda_scalars(rv));
    }
    (c, z1, z2)
}

/// Verify a signature `(c, z1, z2)` against a public key: recompute the
/// commitment as `base^z1 + base2^z2 - pk^c`, rehash the challenge and accept
/// exactly when it equals `c`. No secret material is consulted and malformed
/// input never raises.
pub fn verify(pk: &Point25519, msg: &[u8], signature: &(Scalar25519, Scalar25519, Scalar25519)) -> (r:
    bool)
    ensures
        r == (signature.0@ == challenge_25519(
            pk@,
            msg@,
            rist_sub(
                rist_add(
                    rist_base_mul(signature.1@),
                    rist_mul(second_base_spec(), signature.2@),
                ),
                rist_mul(pk@, signature.0@),
            ),
        )),
{
    let base2 = crate::second_base();
    let base_z1 = crate::ristretto::point_base_mul(&signature.1);
    let base2_z2 = crate::ristretto::point_mul(&base2, &signature.2);
    let sum = crate::ristretto::point_add(&base_z1, &base2_z2);
    let pk_c = crate::ristretto::point_mul(pk, &signature.0);
    let commit = crate::ristretto::point_sub(&sum, &pk_c);
    let candidate = crate::fiat_shamir_challenge(pk, msg, &commit);
    signature.0.eq_scalar(&candidate)
}

} // verus!
