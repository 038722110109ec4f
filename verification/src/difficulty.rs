//! The difficulty predicate: a digest passes difficulty `d` when its first
//! `d` nibbles (high nibble of each byte first) are all zero.

use vstd::prelude::*;

verus! {

/// Nibble `i` of `digest`: the high half of byte `i / 2` when `i` is even,
/// the low half when `i` is odd.
pub open spec fn nibble_of(digest: Seq<u8>, i: int) -> u8
    recommends
        0 <= i,
        i / 2 < digest.len(),
{
    if i % 2 == 0 {
        digest[i / 2] / 16
    } else {
        digest[i / 2] % 16
    }
}

/// A digest passes difficulty `d` when `d` does not exceed the digest's
/// nibble count and every nibble before `d` is zero. A difficulty beyond
/// the nibble count never passes; a non-positive one always does.
pub open spec fn spec_passes(digest: Seq<u8>, difficulty: int) -> bool {
    &&& difficulty <= 2 * digest.len()
    &&& forall|i: int| 0 <= i < difficulty ==> nibble_of(digest, i) == 0
}

/// Decides whether `digest` satisfies `difficulty` leading zero nibbles,
/// guarding the byte index so that an oversized difficulty is rejected
/// rather than read out of bounds.
pub fn passes(digest: &Vec<u8>, difficulty: i32) -> (r: bool)
    ensures
        r == spec_passes(digest@, difficulty as int),
{
    if difficulty <= 0 {
        return true;
    }
    let d = difficulty as usize;
    if (d + 1) / 2 > digest.len() {
        return false;
    }
    let mut i: usize = 0;
    while i < d
        invariant
            d as int == difficulty as int,
            0 < d <= 2 * digest@.len(),
            i <= d,
            forall|j: int| 0 <= j < i ==> nibble_of(digest@, j) == 0,
        decreases d - i,
    {
        let b = digest[i / 2];
        let nib = if i % 2 == 0 {
            b / 16
        } else {
            b % 16
        };
        if nib != 0 {
            assert(nibble_of(digest@, i as int) != 0);
            return false;
        }
        i += 1;
    }
    true
}

} // verus!
