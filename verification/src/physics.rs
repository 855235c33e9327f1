//! What the physics world reports after each of its steps.
//!
//! The rigid bodies live outside this crate. Of each step this crate is told
//! which pairs of colliders began to overlap, which are in contact and which
//! intersect. A pair is unordered: `(a, b)` and `(b, a)` say the same.

use vstd::prelude::*;

verus! {

/// Whether `pair` is the pair of the colliders `a` and `b`.
pub open spec fn joins(pair: (u32, u32), a: int, b: int) -> bool {
    (pair.0 == a && pair.1 == b) || (pair.0 == b && pair.1 == a)
}

/// Whether `pairs` holds the pair of the colliders `a` and `b`.
pub open spec fn reported(pairs: Seq<(u32, u32)>, a: int, b: int) -> bool {
    exists|i: int| 0 <= i < pairs.len() && joins(#[trigger] pairs[i], a, b)
}

/// Looks for the pair of the colliders `a` and `b` in `pairs`.
pub fn is_reported(pairs: &Vec<(u32, u32)>, a: u64, b: u64) -> (found: bool)
    ensures
        found == reported(pairs@, a as int, b as int),
{
    let mut i: usize = 0;
    while i < pairs.len()
        invariant
            i <= pairs.len(),
            forall|k: int| 0 <= k < i ==> !joins(#[trigger] pairs@[k], a as int, b as int),
        decreases pairs.len() - i,
    {
        let pair = pairs[i];
        let first: u64 = pair.0 as u64;
        let second: u64 = pair.1 as u64;
        if (first == a && second == b) || (first == b && second == a) {
            return true;
        }
        i += 1;
    }
    false
}

} // verus!
