//! The prime field `p = 2^64 - 2^32 + 1`, with elements held as canonical `u64` values.

use vstd::prelude::*;

verus! {

/// The field modulus.
pub const MODULUS: u64 = 0xffff_ffff_0000_0001;

/// A `u64` is a field element in canonical form when it is below the modulus.
pub open spec fn is_canonical(v: u64) -> bool {
    v < MODULUS
}

/// The field element that an arbitrary `u64` stands for.
pub open spec fn felt(v: u64) -> u64 {
    (v % MODULUS) as u64
}

/// Every element of the sequence is canonical.
pub open spec fn all_canonical(s: Seq<u64>) -> bool {
    forall|i: int| 0 <= i < s.len() ==> is_canonical(#[trigger] s[i])
}

/// Reduces `v` into canonical form.
pub fn to_canonical(v: u64) -> (r: u64)
    ensures
        r == felt(v),
        is_canonical(r),
        is_canonical(v) ==> r == v,
{
    if v >= MODULUS {
        v - MODULUS
    } else {
        v
    }
}

} // verus!
