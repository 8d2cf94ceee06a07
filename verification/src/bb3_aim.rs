use vstd::prelude::*;
use vstd::pervasive::unreached;
use crate::bls381::G1Point;
use crate::bls381::G2Point;
use crate::bls381::Scalar381;
use crate::bls381::g1_gen;
use crate::bls381::g1_gen_mul;
use crate::bls381::g2_gen;
use crate::bls381::g2_gen_mul;
use crate::bls381::g2_smul;
use crate::bls381::g2_sum;
use crate::bls381::pair381;
use crate::bls381::s381_add;
use crate::bls381::s381_inv;
use crate::bls381::s381_is_zero;
use crate::bls381::s381_mul;
use crate::errors::SigError;
use crate::all_lambda_scalars;
use crate::derived_agg_381;
use crate::msg_scalar_381;
use crate::views_381;

verus! {

/// How many fresh nonces signing may draw before giving up on escaping a
/// zero denominator; in practice the first draw succeeds.
pub const MAX_SIGN_ATTEMPTS: usize = 8;

/// The public key pair of the single-secret variant: one split-key vector
/// drives both components, under the two domain-separated masking vectors.
pub open spec fn bb3_aim_pk_of(sk: Seq<Seq<u8>>) -> (Seq<u8>, Seq<u8>) {
    (g2_gen_mul(derived_agg_381(sk, false)), g2_gen_mul(derived_agg_381(sk, true)))
}

/// The signing denominator: message scalar plus the variant-false aggregate
/// plus the nonce times the variant-true aggregate.
pub open spec fn bb3_aim_pow(sk: Seq<Seq<u8>>, msg: Seq<u8>, nonce: Seq<u8>) -> Seq<u8> {
    s381_add(
        s381_add(msg_scalar_381(msg), derived_agg_381(sk, false)),
        s381_mul(nonce, derived_agg_381(sk, true)),
    )
}

/// Generate a split-key pair: a fresh split-key vector and the pair `(U, V)`
/// of G2 points it drives under the two domain tags. A zero-length parameter
/// is rejected.
pub fn keygen(n: usize) -> (r: Result<(Vec<Scalar381>, (G2Point, G2Point)), SigError>)
    ensures
        r is Ok <==> n >= 1,
        r is Err ==> r == Err::<(Vec<Scalar381>, (G2Point, G2Point)), SigError>(
            SigError::LengthMismatch,
        ),
        r matches Ok(kp) ==> ({
            &&& kp.0@.len() == n
            &&& all_lambda_scalars(views_381(kp.0@))
            &&& kp.1.0@ == bb3_aim_pk_of(views_381(kp.0@)).0
            &&& kp.1.1@ == bb3_aim_pk_of(views_381(kp.0@)).1
        }),
{
    if n == 0 {
        return Err(SigError::LengthMismatch);
    }
    let sk = crate::sample_bls12_381_lambda(n);
    let seed = crate::bls12_381_scalar_list_to_bytes(&sk);
    let a_list = crate::hash_tilde_bls12_381(seed.as_slice(), n, false);
    let b_list = crate::hash_tilde_bls12_381(seed.as_slice(), n, true);
    let agg_a = match crate::aggregate_bls12_381(&a_list, &sk) {
        Ok(s) => s,
        Err(e) => {
            return Err(e);
        },
    };
    let agg_b = match crate::aggregate_bls12_381(&b_list, &sk) {
        Ok(s) => s,
        Err(e) => {
            return Err(e);
        },
    };
    let u = crate::bls381::g2_base_mul(&agg_a);
    let v = crate::bls381::g2_base_mul(&agg_b);
    Ok((sk, (u, v)))
}

/// Sign a message with a caller-supplied nonce scalar: compute the
/// denominator from the message scalar, the two recomputed aggregates and the
/// nonce, and succeed exactly when it is invertible, the signature being the
/// G1 generator raised to its inverse, beside the nonce.
pub fn sign_with_nonce(sk: &Vec<Scalar381>, msg: &[u8], nonce: &Scalar381) -> (r: Result<
    (G1Point, Scalar381),
    SigError,
>)
    ensures
        r is Ok <==> !s381_is_zero(bb3_aim_pow(views_381(sk@), msg@, nonce@)),
        r matches Ok(sig) ==> ({
            &&& sig.0@ == g1_gen_mul(s381_inv(bb3_aim_pow(views_381(sk@), msg@, nonce@)))
            &&& sig.1@ == nonce@
        }),
        r is Err ==> r == Err::<(G1Point, Scalar381), SigError>(SigError::NonInvertibleScalar),
{
    let n = sk.len();
    let m = crate::hash_scalar_bls12_381(msg);
    let seed = crate::bls12_381_scalar_list_to_bytes(sk);
    let a_list = crate::hash_tilde_bls12_381(seed.as_slice(), n, false);
    let b_list = crate::hash_tilde_bls12_381(seed.as_slice(), n, true);
    let agg_a = match crate::aggregate_bls12_381(&a_list, sk) {
        Ok(s) => s,
        Err(_) => unreached(),
    };
    let agg_b = match crate::aggregate_bls12_381(&b_list, sk) {
        Ok(s) => s,
        Err(_) => unreached(),
    };
    let pow = crate::bls381::scalar381_add(
        &crate::bls381::scalar381_add(&m, &agg_a),
        &crate::bls381::scalar381_mul(nonce, &agg_b),
    );
    match crate::bls381::scalar381_invert(&pow) {
        Some(inv) => Ok((crate::bls381::g1_base_mul(&inv), *nonce)),
        None => Err(SigError::NonInvertibleScalar),
    }
}

/// Sign a message: draw a fresh wide-reduced nonce and retry on a zero
/// denominator, a negligible-probability event, surfacing
/// `RandomnessUnavailable` only if every attempt within the bound failed.
pub fn sign(sk: &Vec<Scalar381>, msg: &[u8]) -> (r: Result<(G1Point, Scalar381), SigError>)
    ensures
        r matches Ok(sig) ==> ({
            &&& !s381_is_zero(bb3_aim_pow(views_381(sk@), msg@, sig.1@))
            &&& sig.0@ == g1_gen_mul(s381_inv(bb3_aim_pow(views_381(sk@), msg@, sig.1@)))
        }),
        r is Err ==> r == Err::<(G1Point, Scalar381), SigError>(SigError::RandomnessUnavailable),
{
    let mut attempts: usize = 0;
    while attempts < MAX_SIGN_ATTEMPTS
        decreases MAX_SIGN_ATTEMPTS - attempts,
    {
        let wide = crate::sampling::sample_wide_bytes();
        let nonce = crate::bls381::scalar381_from_wide(&wide);
        match sign_with_nonce(sk, msg, &nonce) {
            Ok(sig) => {
                return Ok(sig);
            },
            Err(_) => {},
        }
        attempts += 1;
    }
    Err(SigError::RandomnessUnavailable)
}

/// Verify a signature `(S, nonce)` against a public key `(U, V)`: accept
/// exactly when the pairing of `S` with `U + g2^m + V^nonce` equals the
/// pairing of the two generators, `m` being the message scalar.
pub fn verify(pk: &(G2Point, G2Point), msg: &[u8], signature: &(G1Point, Scalar381)) -> (r: bool)
    ensures
        r == (pair381(
            signature.0@,
            g2_sum(g2_sum(pk.0@, g2_gen_mul(msg_scalar_381(msg@))), g2_smul(pk.1@, signature.1@)),
        ) == pair381(g1_gen(), g2_gen())),
{
    let m = crate::hash_scalar_bls12_381(msg);
    let gm = crate::bls381::g2_base_mul(&m);
    let left = crate::bls381::g2_add(&pk.0, &gm);
    let vr = crate::bls381::g2_mul(&pk.1, &signature.1);
    let combined = crate::bls381::g2_add(&left, &vr);
    let one = Scalar381::from_small(1);
    let gen1 = crate::bls381::g1_base_mul(&one);
    let gen2 = crate::bls381::g2_base_mul(&one);
    crate::bls381::pairing_eq(&signature.0, &combined, &gen1, &gen2)
}

} // verus!
