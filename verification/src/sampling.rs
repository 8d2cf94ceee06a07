use vstd::prelude::*;
use rand::Rng;

verus! {

/// The exclusive upper bound of each split-key component: components are
/// drawn uniformly from [0, LAMBDA).
pub const LAMBDA: u8 = 128;

/// Relies on rand's thread-local generator: `gen_range(0..LAMBDA)` returns a
/// uniform draw below LAMBDA. Nothing more can be said of a random value.
#[verifier::external_body]
pub(crate) fn sample_lambda_byte() -> (r: u8)
    ensures
        r < LAMBDA,
{
    rand::thread_rng().gen_range(0..LAMBDA)
}

/// Relies on rand's thread-local generator to fill 64 bytes. Nothing can be
/// promised of their values.
#[verifier::external_body]
pub(crate) fn sample_wide_bytes() -> (r: [u8; 64]) {
    let mut bytes = [0u8; 64];
    rand::thread_rng().fill(&mut bytes[..]);
    bytes
}

} // verus!
