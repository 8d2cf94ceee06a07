use vstd::prelude::*;
use crate::bytes32::zero32;
use crate::bytes32::small_scalar_bytes;
use crate::bytes32::bytes32_eq;
use curve25519_dalek::ristretto::RistrettoPoint;

verus! {

/// The Ristretto group over Curve25519, as provided by curve25519-dalek; a
/// point of it is opaque to the verifier.
#[verifier::external_type_specification]
#[verifier::external_body]
pub struct ExRistrettoPoint(RistrettoPoint);

/// An element of the Ristretto scalar field, held as a 32-byte little-endian
/// encoding, which is the view of the scalar. The module's own operations
/// always produce the canonical encoding; `from_bytes` wraps caller bytes
/// unchanged.
#[derive(Clone, Copy)]
pub struct Scalar25519 {
    bytes: [u8; 32],
}

impl View for Scalar25519 {
    type V = Seq<u8>;

    closed spec fn view(&self) -> Seq<u8> {
        self.bytes@
    }
}

impl Scalar25519 {
    /// Wrap 32 bytes as a scalar encoding, unchanged.
    pub fn from_bytes(bytes: [u8; 32]) -> (r: Scalar25519)
        ensures
            r@ == bytes@,
    {
        Scalar25519 { bytes }
    }

    /// The 32-byte encoding of this scalar.
    pub fn to_bytes(&self) -> (r: [u8; 32])
        ensures
            r@ == self@,
    {
        self.bytes
    }

    /// The zero scalar.
    pub fn zero() -> (r: Scalar25519)
        ensures
            r@ == zero32(),
    {
        Scalar25519 { bytes: [0u8; 32] }
    }

    /// The scalar of a single-byte value.
    pub fn from_small(v: u8) -> (r: Scalar25519)
        ensures
            r@ == small_scalar_bytes(v),
    {
        let mut bytes = [0u8; 32];
        bytes[0] = v;
        Scalar25519 { bytes }
    }

    /// Whether this scalar is the zero scalar.
    pub fn is_zero(&self) -> (r: bool)
        ensures
            r == (self@ == zero32()),
    {
        crate::bytes32::bytes32_is_zero(&self.bytes)
    }

    /// Whether two scalars have the same encoding.
    pub fn eq_scalar(&self, other: &Scalar25519) -> (r: bool)
        ensures
            r == (self@ == other@),
    {
        bytes32_eq(&self.bytes, &other.bytes)
    }
}

/// A Ristretto group element, carried together with its canonical compressed
/// 32-byte encoding, which is the view of the point. The module's functions
/// always construct the encoding from the point they return, so the two
/// fields describe the same group element, and the encoding is canonical:
/// two values of this type are the same group element exactly when their
/// encodings are equal.
#[derive(Clone, Copy)]
pub struct Point25519 {
    point: RistrettoPoint,
    bytes: [u8; 32],
}

impl View for Point25519 {
    type V = Seq<u8>;

    closed spec fn view(&self) -> Seq<u8> {
        self.bytes@
    }
}

impl Point25519 {
    /// The compressed 32-byte encoding of this point.
    pub fn to_bytes(&self) -> (r: [u8; 32])
        ensures
            r@ == self@,
    {
        self.bytes
    }

    /// Whether two points are the same group element; the compressed encoding
    /// is canonical, so this is encoding equality.
    pub fn eq_point(&self, other: &Point25519) -> (r: bool)
        ensures
            r == (self@ == other@),
    {
        bytes32_eq(&self.bytes, &other.bytes)
    }
}

/// The sum of two Ristretto scalars, reduced into the field.
pub uninterp spec fn sc25519_add(a: Seq<u8>, b: Seq<u8>) -> Seq<u8>;

/// The product of two Ristretto scalars, reduced into the field.
pub uninterp spec fn sc25519_mul(a: Seq<u8>, b: Seq<u8>) -> Seq<u8>;

/// The multiplicative inverse of a Ristretto scalar, as dalek's `invert`
/// computes it; it is only meaningful on nonzero scalars, which the callers
/// check first.
pub uninterp spec fn sc25519_inv(a: Seq<u8>) -> Seq<u8>;

/// The scalar obtained by reducing 64 bytes modulo the group order.
pub uninterp spec fn sc25519_from_wide(w: Seq<u8>) -> Seq<u8>;

/// The scalar obtained by reducing 32 bytes modulo the group order.
pub uninterp spec fn sc25519_reduce(b: Seq<u8>) -> Seq<u8>;

/// The Ristretto basepoint multiplied by a scalar.
pub uninterp spec fn rist_base_mul(s: Seq<u8>) -> Seq<u8>;

/// A Ristretto point multiplied by a scalar.
pub uninterp spec fn rist_mul(p: Seq<u8>, s: Seq<u8>) -> Seq<u8>;

/// The sum of two Ristretto points.
pub uninterp spec fn rist_add(p: Seq<u8>, q: Seq<u8>) -> Seq<u8>;

/// The difference of two Ristretto points.
pub uninterp spec fn rist_sub(p: Seq<u8>, q: Seq<u8>) -> Seq<u8>;

/// The Ristretto point derived from 64 uniform bytes.
pub uninterp spec fn rist_from_uniform(w: Seq<u8>) -> Seq<u8>;

/// Relies on curve25519-dalek scalar addition modulo the group order; the
/// encodings in and out are canonical.
#[verifier::external_body]
pub(crate) fn scalar_add(a: &Scalar25519, b: &Scalar25519) -> (r: Scalar25519)
    ensures
        r@ == sc25519_add(a@, b@),
{
    let x = curve25519_dalek::scalar::Scalar::from_bytes_mod_order(a.bytes)
        + curve25519_dalek::scalar::Scalar::from_bytes_mod_order(b.bytes);
    Scalar25519 { bytes: x.to_bytes() }
}

/// Relies on curve25519-dalek scalar multiplication modulo the group order.
#[verifier::external_body]
pub(crate) fn scalar_mul(a: &Scalar25519, b: &Scalar25519) -> (r: Scalar25519)
    ensures
        r@ == sc25519_mul(a@, b@),
{
    let x = curve25519_dalek::scalar::Scalar::from_bytes_mod_order(a.bytes)
        * curve25519_dalek::scalar::Scalar::from_bytes_mod_order(b.bytes);
    Scalar25519 { bytes: x.to_bytes() }
}

/// Relies on curve25519-dalek's `Scalar::invert`, a deterministic function of
/// the scalar alone, computed by exponentiation and total on every encoding.
#[verifier::external_body]
pub(crate) fn scalar_invert(a: &Scalar25519) -> (r: Scalar25519)
    ensures
        r@ == sc25519_inv(a@),
{
    let x = curve25519_dalek::scalar::Scalar::from_bytes_mod_order(a.bytes).invert();
    Scalar25519 { bytes: x.to_bytes() }
}

/// Relies on curve25519-dalek's `Scalar::from_bytes_mod_order_wide`: 64 bytes
/// reduced into the field, a function of the bytes alone.
#[verifier::external_body]
pub(crate) fn scalar_from_wide(w: &[u8; 64]) -> (r: Scalar25519)
    ensures
        r@ == sc25519_from_wide(w@),
{
    let x = curve25519_dalek::scalar::Scalar::from_bytes_mod_order_wide(w);
    Scalar25519 { bytes: x.to_bytes() }
}

/// Relies on curve25519-dalek's `Scalar::from_bytes_mod_order`: 32 bytes
/// reduced into the field, a function of the bytes alone.
#[verifier::external_body]
pub(crate) fn scalar_reduce(b: &[u8; 32]) -> (r: Scalar25519)
    ensures
        r@ == sc25519_reduce(b@),
{
    let x = curve25519_dalek::scalar::Scalar::from_bytes_mod_order(*b);
    Scalar25519 { bytes: x.to_bytes() }
}

/// Relies on curve25519-dalek multiplication of the Ristretto basepoint by a
/// scalar; the result is compressed to fill the point's encoding.
#[verifier::external_body]
pub(crate) fn point_base_mul(s: &Scalar25519) -> (r: Point25519)
    ensures
        r@ == rist_base_mul(s@),
{
    let p = curve25519_dalek::constants::RISTRETTO_BASEPOINT_POINT
        * curve25519_dalek::scalar::Scalar::from_bytes_mod_order(s.bytes);
    Point25519 { point: p, bytes: p.compress().to_bytes() }
}

/// Relies on curve25519-dalek point-by-scalar multiplication.
#[verifier::external_body]
pub(crate) fn point_mul(p: &Point25519, s: &Scalar25519) -> (r: Point25519)
    ensures
        r@ == rist_mul(p@, s@),
{
    let q = p.point * curve25519_dalek::scalar::Scalar::from_bytes_mod_order(s.bytes);
    Point25519 { point: q, bytes: q.compress().to_bytes() }
}

/// Relies on curve25519-dalek point addition.
#[verifier::external_body]
pub(crate) fn point_add(p: &Point25519, q: &Point25519) -> (r: Point25519)
    ensures
        r@ == rist_add(p@, q@),
{
    let s = p.point + q.point;
    Point25519 { point: s, bytes: s.compress().to_bytes() }
}

/// Relies on curve25519-dalek point subtraction.
#[verifier::external_body]
pub(crate) fn point_sub(p: &Point25519, q: &Point25519) -> (r: Point25519)
    ensures
        r@ == rist_sub(p@, q@),
{
    let s = p.point - q.point;
    Point25519 { point: s, bytes: s.compress().to_bytes() }
}

/// Relies on curve25519-dalek's `RistrettoPoint::from_uniform_bytes`: a point
/// derived from 64 bytes, a function of the bytes alone.
#[verifier::external_body]
pub(crate) fn point_from_uniform(w: &[u8; 64]) -> (r: Point25519)
    ensures
        r@ == rist_from_uniform(w@),
{
    let p = RistrettoPoint::from_uniform_bytes(w);
    Point25519 { point: p, bytes: p.compress().to_bytes() }
}

} // verus!
