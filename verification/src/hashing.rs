use vstd::prelude::*;

verus! {

/// The SHA-512 digest of a byte string, named so that contracts can speak of
/// derived coefficients exactly; the digest is a function of the input alone.
pub uninterp spec fn sha512_of(input: Seq<u8>) -> Seq<u8>;

/// Relies on sha2's Sha512: a 64-byte digest determined by the input alone.
#[verifier::external_body]
pub(crate) fn sha512(input: &[u8]) -> (r: [u8; 64])
    ensures
        r@ == sha512_of(input@),
{
    let digest = <sha2::Sha512 as sha2::Digest>::digest(input);
    let mut out = [0u8; 64];
    out.copy_from_slice(&digest);
    out
}

} // verus!
