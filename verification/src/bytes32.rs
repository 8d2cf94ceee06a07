use vstd::prelude::*;

verus! {

/// The canonical encoding of the zero scalar: 32 zero bytes.
pub open spec fn zero32() -> Seq<u8> {
    Seq::new(32, |i: int| 0u8)
}

/// The canonical encoding of a single-byte value `v`: little-endian, so byte 0
/// holds `v` and the rest are zero.
pub open spec fn small_scalar_bytes(v: u8) -> Seq<u8> {
    zero32().update(0, v)
}

/// Compare two 32-byte strings.
pub fn bytes32_eq(a: &[u8; 32], b: &[u8; 32]) -> (r: bool)
    ensures
        r == (a@ == b@),
{
    let mut i: usize = 0;
    while i < 32
        invariant
            0 <= i <= 32,
            forall|j: int| 0 <= j < i ==> a@[j] == b@[j],
        decreases 32 - i,
    {
        if a[i] != b[i] {
            return false;
        }
        i += 1;
    }
    proof {
        assert(a@ =~= b@);
    }
    true
}

/// Whether 32 bytes are all zero, i.e. encode the zero scalar.
pub fn bytes32_is_zero(a: &[u8; 32]) -> (r: bool)
    ensures
        r == (a@ == zero32()),
{
    let mut i: usize = 0;
    while i < 32
        invariant
            0 <= i <= 32,
            forall|j: int| 0 <= j < i ==> a@[j] == 0u8,
        decreases 32 - i,
    {
        if a[i] != 0 {
            return false;
        }
        i += 1;
    }
    proof {
        assert(a@ =~= zero32());
    }
    true
}

} // verus!
