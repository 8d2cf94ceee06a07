use vstd::prelude::*;

pub mod bb3_aim;
pub mod bb3_cml;
pub mod bls;
pub mod bls381;
pub mod bytes32;
pub mod ecdsa;
pub mod errors;
pub mod hashing;
pub mod okamoto_aim;
pub mod okamoto_cml;
pub mod ristretto;
pub mod sampling;
pub mod schnorr;

use crate::bls381::Scalar381;
use crate::bytes32::small_scalar_bytes;
use crate::bytes32::zero32;
use crate::errors::SigError;
use crate::hashing::sha512;
use crate::hashing::sha512_of;
use crate::ristretto::Scalar25519;
use crate::sampling::LAMBDA;

verus! {

/// The views of a sequence of Ristretto scalars: each scalar as its canonical
/// 32-byte encoding.
pub open spec fn views_25519(s: Seq<Scalar25519>) -> Seq<Seq<u8>> {
    s.map_values(|x: Scalar25519| x@)
}

/// The views of a sequence of BLS12-381 scalars.
pub open spec fn views_381(s: Seq<Scalar381>) -> Seq<Seq<u8>> {
    s.map_values(|x: Scalar381| x@)
}

/// Whether a byte string encodes a split-key component: a value below LAMBDA.
pub open spec fn is_lambda_scalar(b: Seq<u8>) -> bool {
    exists|v: u8| v < LAMBDA && b == small_scalar_bytes(v)
}

/// Whether every byte string of a sequence encodes a split-key component.
pub open spec fn all_lambda_scalars(s: Seq<Seq<u8>>) -> bool {
    forall|i: int| 0 <= i < s.len() ==> is_lambda_scalar(#[trigger] s[i])
}

/// The canonical, injective encoding of a scalar vector used as hash input
/// for masking-vector derivation: an 8-byte little-endian length followed by
/// the 32-byte encoding of each scalar in order.
pub open spec fn serialized_scalar_list(s: Seq<Seq<u8>>) -> Seq<u8> {
    vstd::bytes::spec_u64_to_le_bytes(s.len() as u64) + s.flatten()
}

/// The bytes hashed for position `i` of a masking vector: the one-byte domain
/// tag of the variant, the seed, and the position as 8 little-endian bytes,
/// so that distinct positions always hash distinct inputs.
pub open spec fn mask_input(seed: Seq<u8>, variant: bool, i: int) -> Seq<u8> {
    seq![if variant { 1u8 } else { 0u8 }] + seed + vstd::bytes::spec_u64_to_le_bytes(i as u64)
}

/// Position `i` of the Ristretto masking vector derived from a seed.
pub open spec fn mask_elem_25519(seed: Seq<u8>, variant: bool, i: int) -> Seq<u8> {
    crate::ristretto::sc25519_from_wide(sha512_of(mask_input(seed, variant, i)))
}

/// The Ristretto masking vector of length `n` derived from a seed under a
/// domain-separation variant.
pub open spec fn masking_25519(seed: Seq<u8>, n: nat, variant: bool) -> Seq<Seq<u8>> {
    Seq::new(n, |i: int| mask_elem_25519(seed, variant, i))
}

/// Position `i` of the BLS12-381 masking vector derived from a seed.
pub open spec fn mask_elem_381(seed: Seq<u8>, variant: bool, i: int) -> Seq<u8> {
    crate::bls381::s381_from_wide(sha512_of(mask_input(seed, variant, i)))
}

/// The BLS12-381 masking vector of length `n` derived from a seed under a
/// domain-separation variant.
pub open spec fn masking_381(seed: Seq<u8>, n: nat, variant: bool) -> Seq<Seq<u8>> {
    Seq::new(n, |i: int| mask_elem_381(seed, variant, i))
}

/// The inner product of two equally long vectors of Ristretto scalars,
/// folded from the left over field addition and multiplication.
pub open spec fn ip25519(a: Seq<Seq<u8>>, b: Seq<Seq<u8>>) -> Seq<u8>
    decreases a.len(),
{
    if a.len() == 0 {
        zero32()
    } else {
        crate::ristretto::sc25519_add(
            ip25519(a.drop_last(), b.drop_last()),
            crate::ristretto::sc25519_mul(a.last(), b.last()),
        )
    }
}

/// The inner product of two equally long vectors of BLS12-381 scalars.
pub open spec fn ip381(a: Seq<Seq<u8>>, b: Seq<Seq<u8>>) -> Seq<u8>
    decreases a.len(),
{
    if a.len() == 0 {
        zero32()
    } else {
        crate::bls381::s381_add(
            ip381(a.drop_last(), b.drop_last()),
            crate::bls381::s381_mul(a.last(), b.last()),
        )
    }
}

/// The Ristretto scalar that a message hashes to: its SHA-512 digest reduced
/// into the field.
pub open spec fn msg_scalar_25519(m: Seq<u8>) -> Seq<u8> {
    crate::ristretto::sc25519_from_wide(sha512_of(m))
}

/// The BLS12-381 scalar that a message hashes to.
pub open spec fn msg_scalar_381(m: Seq<u8>) -> Seq<u8> {
    crate::bls381::s381_from_wide(sha512_of(m))
}

/// Derive the Ristretto masking vector of length `n` from seed bytes `m`
/// under the domain-separation tag `variant`: position `i` is the SHA-512
/// digest of `tag || m || i`, reduced into the scalar field. The derivation
/// is a function of `(m, n, variant)` alone.
pub fn hash_tilde_curve25519(m: &[u8], n: usize, variant: bool) -> (r: Vec<Scalar25519>)
    ensures
        r@.len() == n,
        views_25519(r@) == masking_25519(m@, n as nat, variant),
{
    let mut out: Vec<Scalar25519> = Vec::new();
    let mut i: usize = 0;
    while i < n
        invariant
            0 <= i <= n,
            out@.len() == i,
            forall|j: int| 0 <= j < i ==> #[trigger] out@[j]@ == mask_elem_25519(m@, variant, j),
        decreases n - i,
    {
        let input = build_mask_input(m, variant, i);
        let digest = sha512(input.as_slice());
        out.push(crate::ristretto::scalar_from_wide(&digest));
        i += 1;
    }
    proof {
        assert(views_25519(out@) =~= masking_25519(m@, n as nat, variant));
    }
    out
}

/// Derive the BLS12-381 masking vector of length `n` from seed bytes `m`
/// under the domain-separation tag `variant`, exactly as the Ristretto
/// derivation but reduced into the BLS12-381 scalar field.
pub fn hash_tilde_bls12_381(m: &[u8], n: usize, variant: bool) -> (r: Vec<Scalar381>)
    ensures
        r@.len() == n,
        views_381(r@) == masking_381(m@, n as nat, variant),
{
    let mut out: Vec<Scalar381> = Vec::new();
    let mut i: usize = 0;
    while i < n
        invariant
            0 <= i <= n,
            out@.len() == i,
            forall|j: int| 0 <= j < i ==> #[trigger] out@[j]@ == mask_elem_381(m@, variant, j),
        decreases n - i,
    {
        let input = build_mask_input(m, variant, i);
        let digest = sha512(input.as_slice());
        out.push(crate::bls381::scalar381_from_wide(&digest));
        i += 1;
    }
    proof {
        assert(views_381(out@) =~= masking_381(m@, n as nat, variant));
    }
    out
}

/// The bytes hashed for one masking-vector position.
fn build_mask_input(m: &[u8], variant: bool, i: usize) -> (r: Vec<u8>)
    ensures
        r@ == mask_input(m@, variant, i as int),
{
    let ghost tag: u8 = if variant { 1u8 } else { 0u8 };
    let mut input: Vec<u8> = Vec::new();
    input.push(if variant { 1u8 } else { 0u8 });
    let mut j: usize = 0;
    while j < m.len()
        invariant
            0 <= j <= m@.len(),
            input@ == seq![tag] + m@.take(j as int),
        decreases m@.len() - j,
    {
        input.push(m[j]);
        proof {
            assert(input@ =~= seq![tag] + m@.take(j + 1));
        }
        j += 1;
    }
    let idx_bytes = vstd::bytes::u64_to_le_bytes(i as u64);
    let mut t: usize = 0;
    proof {
        assert(m@.take(m@.len() as int) =~= m@);
    }
    while t < idx_bytes.len()
        invariant
            0 <= t <= idx_bytes@.len(),
            idx_bytes@ == vstd::bytes::spec_u64_to_le_bytes(i as u64),
            input@ == seq![tag] + m@ + idx_bytes@.take(t as int),
        decreases idx_bytes@.len() - t,
    {
        input.push(idx_bytes[t]);
        proof {
            assert(input@ =~= seq![tag] + m@ + idx_bytes@.take(t + 1));
        }
        t += 1;
    }
    proof {
        assert(idx_bytes@.take(idx_bytes@.len() as int) =~= idx_bytes@);
        assert(input@ =~= mask_input(m@, variant, i as int));
    }
    input
}

/// Sample a fresh split-key vector of length `n`: each component is drawn
/// independently and uniformly from [0, LAMBDA) and embedded as a Ristretto
/// scalar.
pub fn sample_curve25519_lambda(n: usize) -> (r: Vec<Scalar25519>)
    ensures
        r@.len() == n,
        all_lambda_scalars(views_25519(r@)),
{
    let mut out: Vec<Scalar25519> = Vec::new();
    let mut i: usize = 0;
    while i < n
        invariant
            0 <= i <= n,
            out@.len() == i,
            forall|j: int| 0 <= j < i ==> is_lambda_scalar(#[trigger] out@[j]@),
        decreases n - i,
    {
        let v = crate::sampling::sample_lambda_byte();
        out.push(Scalar25519::from_small(v));
        i += 1;
    }
    proof {
        assert(all_lambda_scalars(views_25519(out@)));
    }
    out
}

/// Sample a fresh split-key vector of length `n` of BLS12-381 scalars.
pub fn sample_bls12_381_lambda(n: usize) -> (r: Vec<Scalar381>)
    ensures
        r@.len() == n,
        all_lambda_scalars(views_381(r@)),
{
    let mut out: Vec<Scalar381> = Vec::new();
    let mut i: usize = 0;
    while i < n
        invariant
            0 <= i <= n,
            out@.len() == i,
            forall|j: int| 0 <= j < i ==> is_lambda_scalar(#[trigger] out@[j]@),
        decreases n - i,
    {
        let v = crate::sampling::sample_lambda_byte();
        out.push(Scalar381::from_small(v));
        i += 1;
    }
    proof {
        assert(all_lambda_scalars(views_381(out@)));
    }
    out
}

/// The inner product of two Ristretto scalar vectors over the scalar field.
/// Vectors of unequal length are rejected with `LengthMismatch`.
pub fn aggregate_curve25519(a: &Vec<Scalar25519>, b: &Vec<Scalar25519>) -> (r: Result<
    Scalar25519,
    SigError,
>)
    ensures
        r is Ok <==> a@.len() == b@.len(),
        r matches Ok(s) ==> s@ == ip25519(views_25519(a@), views_25519(b@)),
        r is Err ==> r == Err::<Scalar25519, SigError>(SigError::LengthMismatch),
{
    if a.len() != b.len() {
        return Err(SigError::LengthMismatch);
    }
    let ghost va = views_25519(a@);
    let ghost vb = views_25519(b@);
    let mut sum = Scalar25519::zero();
    let mut i: usize = 0;
    while i < a.len()
        invariant
            0 <= i <= a@.len(),
            a@.len() == b@.len(),
            va == views_25519(a@),
            vb == views_25519(b@),
            sum@ == ip25519(va.take(i as int), vb.take(i as int)),
        decreases a@.len() - i,
    {
        let t = crate::ristretto::scalar_mul(&a[i], &b[i]);
        sum = crate::ristretto::scalar_add(&sum, &t);
        proof {
            assert(va.take(i + 1).drop_last() =~= va.take(i as int));
            assert(vb.take(i + 1).drop_last() =~= vb.take(i as int));
        }
        i += 1;
    }
    proof {
        assert(va.take(a@.len() as int) =~= va);
        assert(vb.take(b@.len() as int) =~= vb);
    }
    Ok(sum)
}

/// The inner product of two BLS12-381 scalar vectors over the scalar field.
pub fn aggregate_bls12_381(a: &Vec<Scalar381>, b: &Vec<Scalar381>) -> (r: Result<
    Scalar381,
    SigError,
>)
    ensures
        r is Ok <==> a@.len() == b@.len(),
        r matches Ok(s) ==> s@ == ip381(views_381(a@), views_381(b@)),
        r is Err ==> r == Err::<Scalar381, SigError>(SigError::LengthMismatch),
{
    if a.len() != b.len() {
        return Err(SigError::LengthMismatch);
    }
    let ghost va = views_381(a@);
    let ghost vb = views_381(b@);
    let mut sum = Scalar381::zero();
    let mut i: usize = 0;
    while i < a.len()
        invariant
            0 <= i <= a@.len(),
            a@.len() == b@.len(),
            va == views_381(a@),
            vb == views_381(b@),
            sum@ == ip381(va.take(i as int), vb.take(i as int)),
        decreases a@.len() - i,
    {
        let t = crate::bls381::scalar381_mul(&a[i], &b[i]);
        sum = crate::bls381::scalar381_add(&sum, &t);
        proof {
            assert(va.take(i + 1).drop_last() =~= va.take(i as int));
            assert(vb.take(i + 1).drop_last() =~= vb.take(i as int));
        }
        i += 1;
    }
    proof {
        assert(va.take(a@.len() as int) =~= va);
        assert(vb.take(b@.len() as int) =~= vb);
    }
    Ok(sum)
}

/// Serialize a Ristretto scalar vector canonically: an 8-byte little-endian
/// length followed by each scalar's 32-byte encoding. The encoding is
/// injective over scalar vectors, so distinct vectors never collide as hash
/// input.
pub fn curve25519_scalar_list_to_bytes(a: &Vec<Scalar25519>) -> (r: Vec<u8>)
    ensures
        r@ == serialized_scalar_list(views_25519(a@)),
{
    let ghost va = views_25519(a@);
    let mut out: Vec<u8> = vstd::bytes::u64_to_le_bytes(a.len() as u64);
    let ghost prefix = out@;
    let mut i: usize = 0;
    while i < a.len()
        invariant
            0 <= i <= a@.len(),
            va == views_25519(a@),
            prefix == vstd::bytes::spec_u64_to_le_bytes(a@.len() as u64),
            out@ == prefix + va.take(i as int).flatten(),
        decreases a@.len() - i,
    {
        let bytes = a[i].to_bytes();
        push_bytes32(&mut out, &bytes);
        proof {
            lemma_flatten_take_push(va, i as int);
        }
        i += 1;
    }
    proof {
        assert(va.take(a@.len() as int) =~= va);
    }
    out
}

/// Serialize a BLS12-381 scalar vector canonically, as the Ristretto form.
pub fn bls12_381_scalar_list_to_bytes(a: &Vec<Scalar381>) -> (r: Vec<u8>)
    ensures
        r@ == serialized_scalar_list(views_381(a@)),
{
    let ghost va = views_381(a@);
    let mut out: Vec<u8> = vstd::bytes::u64_to_le_bytes(a.len() as u64);
    let ghost prefix = out@;
    let mut i: usize = 0;
    while i < a.len()
        invariant
            0 <= i <= a@.len(),
            va == views_381(a@),
            prefix == vstd::bytes::spec_u64_to_le_bytes(a@.len() as u64),
            out@ == prefix + va.take(i as int).flatten(),
        decreases a@.len() - i,
    {
        let bytes = a[i].to_bytes();
        push_bytes32(&mut out, &bytes);
        proof {
            lemma_flatten_take_push(va, i as int);
        }
        i += 1;
    }
    proof {
        assert(va.take(a@.len() as int) =~= va);
    }
    out
}

/// Append 32 bytes to a byte vector.
fn push_bytes32(out: &mut Vec<u8>, bytes: &[u8; 32])
    ensures
        final(out)@ == old(out)@ + bytes@,
{
    let mut j: usize = 0;
    while j < 32
        invariant
            0 <= j <= 32,
            out@ == old(out)@ + bytes@.take(j as int),
        decreases 32 - j,
    {
        out.push(bytes[j]);
        proof {
            assert(out@ =~= old(out)@ + bytes@.take(j + 1));
        }
        j += 1;
    }
    proof {
        assert(bytes@.take(32) =~= bytes@);
    }
}

/// Flattening one more element appends its bytes: the flattened prefix of
/// length `i + 1` is the flattened prefix of length `i` followed by element
/// `i`.
proof fn lemma_flatten_take_push(s: Seq<Seq<u8>>, i: int)
    requires
        0 <= i < s.len(),
    ensures
        s.take(i + 1).flatten() == s.take(i).flatten() + s[i],
{
    let t = s.take(i + 1);
    assert(t.drop_last() =~= s.take(i));
    t.lemma_flatten_and_flatten_alt_are_equivalent();
    s.take(i).lemma_flatten_and_flatten_alt_are_equivalent();
    assert(t.flatten_alt() == t.drop_last().flatten_alt() + t.last());
}

/// Hash a message into the BLS12-381 scalar field through SHA-512.
pub fn hash_scalar_bls12_381(msg: &[u8]) -> (r: Scalar381)
    ensures
        r@ == msg_scalar_381(msg@),
{
    let digest = sha512(msg);
    crate::bls381::scalar381_from_wide(&digest)
}

/// Hash a message to a point of G1 with the curve's hash-to-curve procedure.
pub fn hash_g1_bls12_381(msg: &[u8]) -> (r: crate::bls381::G1Point)
    ensures
        r@ == crate::bls381::g1_hash_of(msg@),
{
    crate::bls381::hash_to_g1(msg)
}

/// The aggregate scalar that a Ristretto split-key vector drives under its
/// self-derived masking vector of the given variant: the inner product of the
/// masking vector, derived from the vector's own serialization, with the
/// vector itself.
pub open spec fn derived_agg_25519(sk: Seq<Seq<u8>>, variant: bool) -> Seq<u8> {
    ip25519(masking_25519(serialized_scalar_list(sk), sk.len(), variant), sk)
}

/// The aggregate scalar that a BLS12-381 split-key vector drives under its
/// self-derived masking vector of the given variant.
pub open spec fn derived_agg_381(sk: Seq<Seq<u8>>, variant: bool) -> Seq<u8> {
    ip381(masking_381(serialized_scalar_list(sk), sk.len(), variant), sk)
}

/// The Fiat-Shamir challenge of the sigma-protocol schemes: the hash of the
/// public key's encoding, the message scalar's encoding and the commitment
/// point's encoding, reduced into the Ristretto scalar field.
pub open spec fn challenge_25519(pk: Seq<u8>, msg: Seq<u8>, commit: Seq<u8>) -> Seq<u8> {
    crate::ristretto::sc25519_from_wide(sha512_of(pk + msg_scalar_25519(msg) + commit))
}

/// Hash a message into the Ristretto scalar field through SHA-512.
pub fn hash_scalar_curve25519(msg: &[u8]) -> (r: Scalar25519)
    ensures
        r@ == msg_scalar_25519(msg@),
{
    let digest = sha512(msg);
    crate::ristretto::scalar_from_wide(&digest)
}

/// Compute the Fiat-Shamir challenge scalar for a public key, a message and a
/// commitment point.
pub(crate) fn fiat_shamir_challenge(
    pk: &crate::ristretto::Point25519,
    msg: &[u8],
    commit: &crate::ristretto::Point25519,
) -> (r: Scalar25519)
    ensures
        r@ == challenge_25519(pk@, msg@, commit@),
{
    let m = hash_scalar_curve25519(msg);
    let mut input: Vec<u8> = Vec::new();
    let pk_bytes = pk.to_bytes();
    push_bytes32(&mut input, &pk_bytes);
    let m_bytes = m.to_bytes();
    push_bytes32(&mut input, &m_bytes);
    let commit_bytes = commit.to_bytes();
    push_bytes32(&mut input, &commit_bytes);
    proof {
        assert(input@ =~= pk@ + msg_scalar_25519(msg@) + commit@);
    }
    let digest = sha512(input.as_slice());
    crate::ristretto::scalar_from_wide(&digest)
}

/// The seed bytes of the process-wide second generator of the dual-base
/// scheme: the ASCII string "dual-base".
pub open spec fn dual_base_tag() -> Seq<u8> {
    seq![100u8, 117u8, 97u8, 108u8, 45u8, 98u8, 97u8, 115u8, 101u8]
}

/// The encoding of the second generator: a point derived by hashing the
/// fixed tag, so every call yields the same group element.
pub open spec fn second_base_spec() -> Seq<u8> {
    crate::ristretto::rist_from_uniform(sha512_of(dual_base_tag()))
}

/// The second generator of the dual-base scheme. It is derived
/// deterministically from a fixed tag, so it is the same immutable group
/// element in every call, from any thread, with nothing to initialize.
pub fn second_base() -> (r: crate::ristretto::Point25519)
    ensures
        r@ == second_base_spec(),
{
    let mut tag: Vec<u8> = Vec::new();
    tag.push(100u8);
    tag.push(117u8);
    tag.push(97u8);
    tag.push(108u8);
    tag.push(45u8);
    tag.push(98u8);
    tag.push(97u8);
    tag.push(115u8);
    tag.push(101u8);
    proof {
        assert(tag@ =~= dual_base_tag());
    }
    let digest = sha512(tag.as_slice());
    crate::ristretto::point_from_uniform(&digest)
}

/// Determinism of masking-vector derivation: two derivations from the same
/// seed, length and domain variant yield the same coefficient vector, which
/// is what lets signing recompute exactly the coefficients that key
/// generation used.
pub proof fn lemma_masking_deterministic_25519(
    first: Seq<Seq<u8>>,
    second: Seq<Seq<u8>>,
    seed: Seq<u8>,
    n: nat,
    variant: bool,
)
    requires
        first == masking_25519(seed, n, variant),
        second == masking_25519(seed, n, variant),
    ensures
        first == second,
{
}

/// Determinism of masking-vector derivation over the BLS12-381 field.
pub proof fn lemma_masking_deterministic_381(
    first: Seq<Seq<u8>>,
    second: Seq<Seq<u8>>,
    seed: Seq<u8>,
    n: nat,
    variant: bool,
)
    requires
        first == masking_381(seed, n, variant),
        second == masking_381(seed, n, variant),
    ensures
        first == second,
{
}

/// Domain separation at the hash input: for every seed and position, the
/// bytes hashed under the false variant differ from the bytes hashed under
/// the true variant, because the leading domain tag differs. That the derived
/// coefficients themselves then differ in every position is a property of the
/// hash, exercised by test.
pub proof fn lemma_domain_tags_distinct(seed: Seq<u8>, i: int)
    ensures
        mask_input(seed, false, i) != mask_input(seed, true, i),
{
    assert(mask_input(seed, false, i)[0] == 0u8);
    assert(mask_input(seed, true, i)[0] == 1u8);
}

/// Positional separation at the hash input: within one masking vector, two
/// distinct positions hash different inputs, because the trailing 8-byte
/// little-endian position encodings differ.
pub proof fn lemma_mask_positions_distinct(seed: Seq<u8>, variant: bool, i: int, j: int)
    requires
        0 <= i <= u64::MAX,
        0 <= j <= u64::MAX,
        i != j,
    ensures
        mask_input(seed, variant, i) != mask_input(seed, variant, j),
{
    vstd::bytes::lemma_auto_spec_u64_to_from_le_bytes();
    let a = mask_input(seed, variant, i);
    let b = mask_input(seed, variant, j);
    let ei = vstd::bytes::spec_u64_to_le_bytes(i as u64);
    let ej = vstd::bytes::spec_u64_to_le_bytes(j as u64);
    if a == b {
        let off = 1 + seed.len();
        assert(ei =~= ej) by {
            assert(forall|t: int| 0 <= t < 8 ==> a[off + t] == ei[t] && b[off + t] == ej[t]);
        }
        assert(vstd::bytes::spec_u64_from_le_bytes(ei) == i as u64);
        assert(vstd::bytes::spec_u64_from_le_bytes(ej) == j as u64);
        assert(false);
    }
}

/// The length of the flattening of a sequence of 32-byte strings.
proof fn lemma_flatten_len_32(s: Seq<Seq<u8>>)
    requires
        forall|i: int| 0 <= i < s.len() ==> #[trigger] s[i].len() == 32,
    ensures
        s.flatten().len() == 32 * s.len(),
    decreases s.len(),
{
    if s.len() == 0 {
    } else {
        assert(s.flatten() == s.first() + s.drop_first().flatten());
        lemma_flatten_len_32(s.drop_first());
    }
}

/// Flattening is injective over sequences of 32-byte strings of equal length.
proof fn lemma_flatten_fixed_injective(a: Seq<Seq<u8>>, b: Seq<Seq<u8>>)
    requires
        a.len() == b.len(),
        forall|i: int| 0 <= i < a.len() ==> #[trigger] a[i].len() == 32,
        forall|i: int| 0 <= i < b.len() ==> #[trigger] b[i].len() == 32,
        a.flatten() == b.flatten(),
    ensures
        a == b,
    decreases a.len(),
{
    if a.len() == 0 {
        assert(a =~= b);
    } else {
        a.lemma_flatten_and_flatten_alt_are_equivalent();
        b.lemma_flatten_and_flatten_alt_are_equivalent();
        a.drop_last().lemma_flatten_and_flatten_alt_are_equivalent();
        b.drop_last().lemma_flatten_and_flatten_alt_are_equivalent();
        let fa = a.drop_last().flatten();
        let fb = b.drop_last().flatten();
        assert(a.flatten() == fa + a.last());
        assert(b.flatten() == fb + b.last());
        lemma_flatten_len_32(a.drop_last());
        lemma_flatten_len_32(b.drop_last());
        let n = a.len() - 1;
        assert(a.last() =~= b.last()) by {
            assert(forall|j: int|
                0 <= j < 32 ==> (fa + a.last())[32 * n + j] == a.last()[j] && (fb + b.last())[32 * n
                    + j] == b.last()[j]);
        }
        assert(fa =~= fb) by {
            assert(forall|j: int|
                0 <= j < 32 * n ==> (fa + a.last())[j] == fa[j] && (fb + b.last())[j] == fb[j]);
        }
        lemma_flatten_fixed_injective(a.drop_last(), b.drop_last());
        assert(a =~= b) by {
            assert(forall|i: int|
                0 <= i < n ==> a[i] == a.drop_last()[i] && b[i] == b.drop_last()[i]);
            assert(a[n] == a.last() && b[n] == b.last());
        }
    }
}

/// Injectivity of the canonical scalar-vector serialization: two vectors of
/// 32-byte scalar encodings with the same serialization are the same vector,
/// so distinct split-key vectors never collide as derivation seeds.
pub proof fn lemma_serialization_injective(a: Seq<Seq<u8>>, b: Seq<Seq<u8>>)
    requires
        a.len() <= u64::MAX,
        b.len() <= u64::MAX,
        forall|i: int| 0 <= i < a.len() ==> #[trigger] a[i].len() == 32,
        forall|i: int| 0 <= i < b.len() ==> #[trigger] b[i].len() == 32,
        serialized_scalar_list(a) == serialized_scalar_list(b),
    ensures
        a == b,
{
    vstd::bytes::lemma_auto_spec_u64_to_from_le_bytes();
    let pa = vstd::bytes::spec_u64_to_le_bytes(a.len() as u64);
    let pb = vstd::bytes::spec_u64_to_le_bytes(b.len() as u64);
    assert(pa =~= pb) by {
        assert(forall|j: int|
            0 <= j < 8 ==> pa[j] == serialized_scalar_list(a)[j] && pb[j]
                == serialized_scalar_list(b)[j]);
    }
    assert(vstd::bytes::spec_u64_from_le_bytes(pa) == a.len() as u64);
    assert(vstd::bytes::spec_u64_from_le_bytes(pb) == b.len() as u64);
    assert(a.len() == b.len());
    lemma_flatten_len_32(a);
    lemma_flatten_len_32(b);
    assert(a.flatten() =~= b.flatten()) by {
        assert(forall|j: int|
            0 <= j < a.flatten().len() ==> a.flatten()[j] == serialized_scalar_list(a)[8 + j]
                && b.flatten()[j] == serialized_scalar_list(b)[8 + j]);
    }
    lemma_flatten_fixed_injective(a, b);
}

} // verus!
