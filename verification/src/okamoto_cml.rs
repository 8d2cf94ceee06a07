use vstd::prelude::*;
use vstd::pervasive::unreached;
use crate::ristretto::Point25519;
use crate::ristretto::Scalar25519;
use crate::ristretto::rist_add;
use crate::ristretto::rist_base_mul;
use crate::ristretto::rist_mul;
use crate::ristretto::rist_sub;
use crate::ristretto::sc25519_add;
use crate::ristretto::sc25519_mul;
use crate::errors::SigError;
use crate::all_lambda_scalars;
use crate::challenge_25519;
use crate::derived_agg_25519;
use crate::second_base_spec;
use crate::views_25519;

verus! {

/// The public key of the dual-secret dual-base scheme: two independent
/// split-key vectors, the first driving the basepoint exponent under the
/// variant-false tag and the second driving the second-base exponent under
/// the variant-true tag, by direct analogy to the dual-secret dual-pairing
/// variant.
pub open spec fn okamoto_cml_pk_of(sk1: Seq<Seq<u8>>, sk2: Seq<Seq<u8>>) -> Seq<u8> {
    rist_add(
        rist_base_mul(derived_agg_25519(sk1, false)),
        rist_mul(second_base_spec(), derived_agg_25519(sk2, true)),
    )
}

/// The commitment that a pair of ephemeral split vectors drives: the same
/// dual-base shape as the public key.
pub open spec fn okamoto_cml_commit_of(rv1: Seq<Seq<u8>>, rv2: Seq<Seq<u8>>) -> Seq<u8> {
    rist_add(
        rist_base_mul(derived_agg_25519(rv1, false)),
        rist_mul(second_base_spec(), derived_agg_25519(rv2, true)),
    )
}

/// The challenge of an honest signature.
pub open spec fn okamoto_cml_c_of(
    pk: Seq<u8>,
    rv1: Seq<Seq<u8>>,
    rv2: Seq<Seq<u8>>,
    msg: Seq<u8>,
) -> Seq<u8> {
    challenge_25519(pk, msg, okamoto_cml_commit_of(rv1, rv2))
}

/// Generate a dual-secret split-key pair: two independent split-key vectors
/// of length `n` and the dual-base public key they drive. A zero-length
/// parameter is rejected.
pub fn keygen(n: usize) -> (r: Result<((Vec<Scalar25519>, Vec<Scalar25519>), Point25519), SigError>)
    ensures
        r is Ok <==> n >= 1,
        r is Err ==> r == Err::<((Vec<Scalar25519>, Vec<Scalar25519>), Point25519), SigError>(
            SigError::LengthMismatch,
        ),
        r matches Ok(kp) ==> ({
            &&& kp.0.0@.len() == n
            &&& kp.0.1@.len() == n
            &&& all_lambda_scalars(views_25519(kp.0.0@))
            &&& all_lambda_scalars(views_25519(kp.0.1@))
            &&& kp.1@ == okamoto_cml_pk_of(views_25519(kp.0.0@), views_25519(kp.0.1@))
        }),
{
    if n == 0 {
        return Err(SigError::LengthMismatch);
    }
    let sk1 = crate::sample_curve25519_lambda(n);
    let sk2 = crate::sample_curve25519_lambda(n);
    let seed1 = crate::curve25519_scalar_list_to_bytes(&sk1);
    let seed2 = crate::curve25519_scalar_list_to_bytes(&sk2);
    let a_list = crate::hash_tilde_curve25519(seed1.as_slice(), n, false);
    let b_list = crate::hash_tilde_curve25519(seed2.as_slice(), n, true);
    let agg_a = match crate::aggregate_curve25519(&a_list, &sk1) {
        Ok(s) => s,
        Err(e) => {
            return Err(e);
        },
    };
    let agg_b = match crate::aggregate_curve25519(&b_list, &sk2) {
        Ok(s) => s,
        Err(e) => {
            return Err(e);
        },
    };
    let base2 = crate::second_base();
    let first = crate::ristretto::point_base_mul(&agg_a);
    let second = crate::ristretto::point_mul(&base2, &agg_b);
    let pk = crate::ristretto::point_add(&first, &second);
    Ok(((sk1, sk2), pk))
}

/// Sign a message: draw one fresh ephemeral split vector per masking
/// direction, commit over the two bases, hash the commitment into the
/// challenge and answer with one masked response per direction. Signing
/// never fails: no inversion is involved.
pub fn sign(
    pk: &Point25519,
    sk: &(Vec<Scalar25519>, Vec<Scalar25519>),
    msg: &[u8],
) -> (r: (Scalar25519, Scalar25519, Scalar25519))
    ensures
        exists|rv1: Seq<Seq<u8>>, rv2: Seq<Seq<u8>>|
            {
                &&& rv1.len() == sk.0@.len()
                &&& rv2.len() == sk.1@.len()
                &&& #[trigger] all_lambda_scalars(rv1)
                &&& #[trigger] all_lambda_scalars(rv2)
                &&& r.0@ == okamoto_cml_c_of(pk@, rv1, rv2, msg@)
                &&& r.1@ == sc25519_add(
                    derived_agg_25519(rv1, false),
                    sc25519_mul(r.0@, derived_agg_25519(views_25519(sk.0@), false)),
                )
                &&& r.2@ == sc25519_add(
                    derived_agg_25519(rv2, true),
                    sc25519_mul(r.0@, derived_agg_25519(views_25519(sk.1@), true)),
                )
            },
{
    let seed1 = crate::curve25519_scalar_list_to_bytes(&sk.0);
    let seed2 = crate::curve25519_scalar_list_to_bytes(&sk.1);
    let a_list = crate::hash_tilde_curve25519(seed1.as_slice(), sk.0.len(), false);
    let b_list = crate::hash_tilde_curve25519(seed2.as_slice(), sk.1.len(), true);
    let agg_a = match crate::aggregate_curve25519(&a_list, &sk.0) {
        Ok(s) => s,
        Err(_) => unreached(),
    };
    let agg_b = match crate::aggregate_curve25519(&b_list, &sk.1) {
        Ok(s) => s,
        Err(_) => unreached(),
    };
    let rv1 = crate::sample_curve25519_lambda(sk.0.len());
    let rv2 = crate::sample_curve25519_lambda(sk.1.len());
    let rseed1 = crate::curve25519_scalar_list_to_bytes(&rv1);
    let rseed2 = crate::curve25519_scalar_list_to_bytes(&rv2);
    let d_list = crate::hash_tilde_curve25519(rseed1.as_slice(), rv1.len(), false);
    let e_list = crate::hash_tilde_curve25519(rseed2.as_slice(), rv2.len(), true);
    let agg_d = match crate::aggregate_curve25519(&d_list, &rv1) {
        Ok(s) => s,
        Err(_) => unreached(),
    };
    let agg_e = match crate::aggregate_curve25519(&e_list, &rv2) {
        Ok(s) => s,
        Err(_) => unreached(),
    };
    let base2 = crate::second_base();
    let first = crate::ristretto::point_base_mul(&agg_d);
    let second = crate::ristretto::point_mul(&base2, &agg_e);
    let commit = crate::ristretto::point_add(&first, &second);
    let c = crate::fiat_shamir_challenge(pk, msg, &commit);
    let z1 = crate::ristretto::scalar_add(&agg_d, &crate::ristretto::scalar_mul(&c, &agg_a));
    let z2 = crate::ristretto::scalar_add(&agg_e, &crate::ristretto::scalar_mul(&c, &agg_b));
    proof {
        let kv1 = views_25519(rv1@);
        let kv2 = views_25519(rv2@);
        assert(all_lambda_scalars(kv1) && all_lambda_scalars(kv2));
    }
    (c, z1, z2)
}

/// Verify a signature `(c, z1, z2)` against a public key: the same dual-base
/// identity as the single-secret variant, which never consults the secret
/// vectors.
pub fn verify(pk: &Point25519, msg: &[u8], signature: &(Scalar25519, Scalar25519, Scalar25519)) -> (r:
    bool)
    ensures
        r == (signature.0@ == challenge_25519(
            pk@,
            msg@,
            rist_sub(
                rist_add(
                    rist_base_mul(signature.1@),
                    rist_mul(second_base_spec(), signature.2@),
                ),
                rist_mul(pk@, signature.0@),
            ),
        )),
{
    let base2 = crate::second_base();
    let base_z1 = crate::ristretto::point_base_mul(&signature.1);
    let base2_z2 = crate::ristretto::point_mul(&base2, &signature.2);
    let sum = crate::ristretto::point_add(&base_z1, &base2_z2);
    let pk_c = crate::ristretto::point_mul(pk, &signature.0);
    let commit = crate::ristretto::point_sub(&sum, &pk_c);
    let candidate = crate::fiat_shamir_challenge(pk, msg, &commit);
    signature.0.eq_scalar(&candidate)
}

} // verus!
