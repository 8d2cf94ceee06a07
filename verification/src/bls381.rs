use vstd::prelude::*;
use crate::bytes32::zero32;
use crate::bytes32::small_scalar_bytes;
use crate::bytes32::bytes32_eq;
use bls12_381::G1Projective;
use bls12_381::G2Projective;
use bls12_381::hash_to_curve::ExpandMsgXmd;
use bls12_381::hash_to_curve::HashToCurve;

verus! {

/// The G1 group of the BLS12-381 pairing-friendly curve, as provided by the
/// bls12_381 crate; opaque to the verifier.
#[verifier::external_type_specification]
#[verifier::external_body]
pub struct ExG1Projective(G1Projective);

/// The G2 group of the BLS12-381 pairing-friendly curve; opaque to the
/// verifier.
#[verifier::external_type_specification]
#[verifier::external_body]
pub struct ExG2Projective(G2Projective);

/// An element of the BLS12-381 scalar field, held as a 32-byte little-endian
/// encoding, which is the view of the scalar. The module's own operations
/// always produce the canonical encoding; `from_bytes` wraps caller bytes
/// unchanged.
#[derive(Clone, Copy)]
pub struct Scalar381 {
    bytes: [u8; 32],
}

impl View for Scalar381 {
    type V = Seq<u8>;

    closed spec fn view(&self) -> Seq<u8> {
        self.bytes@
    }
}

impl Scalar381 {
    /// Wrap 32 bytes as a scalar encoding, unchanged.
    pub fn from_bytes(bytes: [u8; 32]) -> (r: Scalar381)
        ensures
            r@ == bytes@,
    {
        Scalar381 { bytes }
    }

    /// The 32-byte encoding of this scalar.
    pub fn to_bytes(&self) -> (r: [u8; 32])
        ensures
            r@ == self@,
    {
        self.bytes
    }

    /// The zero scalar.
    pub fn zero() -> (r: Scalar381)
        ensures
            r@ == zero32(),
    {
        Scalar381 { bytes: [0u8; 32] }
    }

    /// The scalar of a single-byte value.
    pub fn from_small(v: u8) -> (r: Scalar381)
        ensures
            r@ == small_scalar_bytes(v),
    {
        let mut bytes = [0u8; 32];
        bytes[0] = v;
        Scalar381 { bytes }
    }

    /// Whether this scalar is the zero scalar.
    pub fn is_zero(&self) -> (r: bool)
        ensures
            r == (self@ == zero32()),
    {
        crate::bytes32::bytes32_is_zero(&self.bytes)
    }

    /// Whether two scalars have the same encoding.
    pub fn eq_scalar(&self, other: &Scalar381) -> (r: bool)
        ensures
            r == (self@ == other@),
    {
        bytes32_eq(&self.bytes, &other.bytes)
    }
}

/// A point of G1, carried together with its canonical compressed 48-byte
/// encoding, which is the view of the point. The module's functions always
/// construct the encoding from the point they return, so the two fields
/// describe the same group element.
#[derive(Clone, Copy)]
pub struct G1Point {
    point: G1Projective,
    bytes: [u8; 48],
}

impl View for G1Point {
    type V = Seq<u8>;

    closed spec fn view(&self) -> Seq<u8> {
        self.bytes@
    }
}

impl G1Point {
    /// The compressed 48-byte encoding of this point.
    pub fn to_bytes(&self) -> (r: [u8; 48])
        ensures
            r@ == self@,
    {
        self.bytes
    }
}

/// A point of G2, carried together with its canonical compressed 96-byte
/// encoding, which is the view of the point. As with G1, the fields always
/// describe the same group element.
#[derive(Clone, Copy)]
pub struct G2Point {
    point: G2Projective,
    bytes: [u8; 96],
}

impl View for G2Point {
    type V = Seq<u8>;

    closed spec fn view(&self) -> Seq<u8> {
        self.bytes@
    }
}

impl G2Point {
    /// The compressed 96-byte encoding of this point.
    pub fn to_bytes(&self) -> (r: [u8; 96])
        ensures
            r@ == self@,
    {
        self.bytes
    }
}

/// The sum of two BLS12-381 scalars, reduced into the field.
pub uninterp spec fn s381_add(a: Seq<u8>, b: Seq<u8>) -> Seq<u8>;

/// The product of two BLS12-381 scalars, reduced into the field.
pub uninterp spec fn s381_mul(a: Seq<u8>, b: Seq<u8>) -> Seq<u8>;

/// The multiplicative inverse of a nonzero BLS12-381 scalar.
pub uninterp spec fn s381_inv(a: Seq<u8>) -> Seq<u8>;

/// Whether an encoding reduces to the zero scalar of the BLS12-381 field:
/// exactly the encodings on which `Scalar::invert` yields no value.
pub uninterp spec fn s381_is_zero(a: Seq<u8>) -> bool;

/// The scalar obtained by reducing 64 bytes modulo the field order.
pub uninterp spec fn s381_from_wide(w: Seq<u8>) -> Seq<u8>;

/// The G1 generator multiplied by a scalar.
pub uninterp spec fn g1_gen_mul(s: Seq<u8>) -> Seq<u8>;

/// A G1 point multiplied by a scalar.
pub uninterp spec fn g1_smul(p: Seq<u8>, s: Seq<u8>) -> Seq<u8>;

/// The G2 generator multiplied by a scalar.
pub uninterp spec fn g2_gen_mul(s: Seq<u8>) -> Seq<u8>;

/// A G2 point multiplied by a scalar.
pub uninterp spec fn g2_smul(p: Seq<u8>, s: Seq<u8>) -> Seq<u8>;

/// The sum of two G2 points.
pub uninterp spec fn g2_sum(p: Seq<u8>, q: Seq<u8>) -> Seq<u8>;

/// The G1 point that a byte string hashes to.
pub uninterp spec fn g1_hash_of(m: Seq<u8>) -> Seq<u8>;

/// The compressed G1 generator, written as the generator raised to one.
pub open spec fn g1_gen() -> Seq<u8> {
    g1_gen_mul(crate::bytes32::small_scalar_bytes(1))
}

/// The compressed G2 generator, written as the generator raised to one.
pub open spec fn g2_gen() -> Seq<u8> {
    g2_gen_mul(crate::bytes32::small_scalar_bytes(1))
}

/// The value of the bilinear pairing on a G1 and a G2 point, as an abstract
/// identity of the target-group element: two pairing values are the same
/// target-group element exactly when these identities are equal.
pub uninterp spec fn pair381(p: Seq<u8>, q: Seq<u8>) -> Seq<u8>;

/// Relies on bls12_381 scalar addition modulo the field order; the wide
/// conversion of a zero-padded canonical encoding keeps its value.
#[verifier::external_body]
pub(crate) fn scalar381_add(a: &Scalar381, b: &Scalar381) -> (r: Scalar381)
    ensures
        r@ == s381_add(a@, b@),
{
    let mut wa = [0u8; 64];
    wa[..32].copy_from_slice(&a.bytes);
    let mut wb = [0u8; 64];
    wb[..32].copy_from_slice(&b.bytes);
    let x = bls12_381::Scalar::from_bytes_wide(&wa) + bls12_381::Scalar::from_bytes_wide(&wb);
    Scalar381 { bytes: x.to_bytes() }
}

/// Relies on bls12_381 scalar multiplication modulo the field order.
#[verifier::external_body]
pub(crate) fn scalar381_mul(a: &Scalar381, b: &Scalar381) -> (r: Scalar381)
    ensures
        r@ == s381_mul(a@, b@),
{
    let mut wa = [0u8; 64];
    wa[..32].copy_from_slice(&a.bytes);
    let mut wb = [0u8; 64];
    wb[..32].copy_from_slice(&b.bytes);
    let x = bls12_381::Scalar::from_bytes_wide(&wa) * bls12_381::Scalar::from_bytes_wide(&wb);
    Scalar381 { bytes: x.to_bytes() }
}

/// Relies on bls12_381's `Scalar::invert`, which yields a value exactly for a
/// nonzero scalar; a zero scalar comes back as `None`.
#[verifier::external_body]
pub(crate) fn scalar381_invert(a: &Scalar381) -> (r: Option<Scalar381>)
    ensures
        r is Some <==> !s381_is_zero(a@),
        r matches Some(s) ==> s@ == s381_inv(a@),
{
    let mut wa = [0u8; 64];
    wa[..32].copy_from_slice(&a.bytes);
    let ct = bls12_381::Scalar::from_bytes_wide(&wa).invert();
    if ct.is_some().into() {
        Some(Scalar381 { bytes: ct.unwrap().to_bytes() })
    } else {
        None
    }
}

/// Relies on bls12_381's `Scalar::from_bytes_wide`: 64 little-endian bytes
/// reduced into the field, a function of the bytes alone.
#[verifier::external_body]
pub(crate) fn scalar381_from_wide(w: &[u8; 64]) -> (r: Scalar381)
    ensures
        r@ == s381_from_wide(w@),
{
    let x = bls12_381::Scalar::from_bytes_wide(w);
    Scalar381 { bytes: x.to_bytes() }
}

/// Relies on bls12_381 multiplication of the G1 generator by a scalar; the
/// result is compressed to fill the point's encoding.
#[verifier::external_body]
pub(crate) fn g1_base_mul(s: &Scalar381) -> (r: G1Point)
    ensures
        r@ == g1_gen_mul(s@),
{
    let mut ws = [0u8; 64];
    ws[..32].copy_from_slice(&s.bytes);
    let p = G1Projective::generator() * bls12_381::Scalar::from_bytes_wide(&ws);
    G1Point { point: p, bytes: bls12_381::G1Affine::from(&p).to_compressed() }
}

/// Relies on bls12_381 G1 point-by-scalar multiplication.
#[verifier::external_body]
pub(crate) fn g1_mul(p: &G1Point, s: &Scalar381) -> (r: G1Point)
    ensures
        r@ == g1_smul(p@, s@),
{
    let mut ws = [0u8; 64];
    ws[..32].copy_from_slice(&s.bytes);
    let q = p.point * bls12_381::Scalar::from_bytes_wide(&ws);
    G1Point { point: q, bytes: bls12_381::G1Affine::from(&q).to_compressed() }
}

/// Relies on bls12_381 multiplication of the G2 generator by a scalar.
#[verifier::external_body]
pub(crate) fn g2_base_mul(s: &Scalar381) -> (r: G2Point)
    ensures
        r@ == g2_gen_mul(s@),
{
    let mut ws = [0u8; 64];
    ws[..32].copy_from_slice(&s.bytes);
    let p = G2Projective::generator() * bls12_381::Scalar::from_bytes_wide(&ws);
    G2Point { point: p, bytes: bls12_381::G2Affine::from(&p).to_compressed() }
}

/// Relies on bls12_381 G2 point-by-scalar multiplication.
#[verifier::external_body]
pub(crate) fn g2_mul(p: &G2Point, s: &Scalar381) -> (r: G2Point)
    ensures
        r@ == g2_smul(p@, s@),
{
    let mut ws = [0u8; 64];
    ws[..32].copy_from_slice(&s.bytes);
    let q = p.point * bls12_381::Scalar::from_bytes_wide(&ws);
    G2Point { point: q, bytes: bls12_381::G2Affine::from(&q).to_compressed() }
}

/// Relies on bls12_381 G2 point addition.
#[verifier::external_body]
pub(crate) fn g2_add(p: &G2Point, q: &G2Point) -> (r: G2Point)
    ensures
        r@ == g2_sum(p@, q@),
{
    let s = p.point + q.point;
    G2Point { point: s, bytes: bls12_381::G2Affine::from(&s).to_compressed() }
}

/// Relies on bls12_381's `pairing` and on equality of target-group elements:
/// the target group has no byte encoding of its own in the crate, so the two
/// pairing values are compared in place of handing them out.
#[verifier::external_body]
pub(crate) fn pairing_eq(a: &G1Point, p: &G2Point, b: &G1Point, q: &G2Point) -> (r: bool)
    ensures
        r == (pair381(a@, p@) == pair381(b@, q@)),
{
    let left = bls12_381::pairing(
        &bls12_381::G1Affine::from(&a.point),
        &bls12_381::G2Affine::from(&p.point),
    );
    let right = bls12_381::pairing(
        &bls12_381::G1Affine::from(&b.point),
        &bls12_381::G2Affine::from(&q.point),
    );
    left == right
}

/// Relies on bls12_381's hash-to-curve (`encode_to_curve` with SHA-256 message
/// expansion under a fixed domain tag): a G1 point determined by the message
/// alone.
#[verifier::external_body]
pub(crate) fn hash_to_g1(msg: &[u8]) -> (r: G1Point)
    ensures
        r@ == g1_hash_of(msg@),
{
    let p = <G1Projective as HashToCurve<ExpandMsgXmd<sha2::Sha256>>>::encode_to_curve(
        msg,
        b"split_sig_hash_to_g1",
    );
    G1Point { point: p, bytes: bls12_381::G1Affine::from(&p).to_compressed() }
}

/// Decode a candidate compressed encoding into a G1 point; a byte string
/// that is no canonical encoding of a G1 point is rejected.
pub fn g1_from_bytes(bytes: &[u8; 48]) -> (r: Option<G1Point>)
    ensures
        r matches Some(p) ==> p@ == bytes@,
{
    g1_decode(bytes)
}

/// Relies on bls12_381's `G1Affine::from_compressed`: it accepts exactly the
/// canonical encodings of G1 points, and an accepted encoding is the one the
/// returned point compresses back to.
#[verifier::external_body]
pub(crate) fn g1_decode(bytes: &[u8; 48]) -> (r: Option<G1Point>)
    ensures
        r matches Some(p) ==> p@ == bytes@,
{
    let ct = bls12_381::G1Affine::from_compressed(bytes);
    if ct.is_some().into() {
        let a = ct.unwrap();
        Some(G1Point { point: G1Projective::from(&a), bytes: *bytes })
    } else {
        None
    }
}

} // verus!
