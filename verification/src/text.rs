//! Comparison of string slices, character by character.

use vstd::prelude::*;
use vstd::std_specs::iter::IteratorSpec;

verus! {

/// Tells whether two strings hold the same characters.
pub fn str_equal(a: &str, b: &str) -> (same: bool)
    ensures
        same == (a@ == b@),
{
    broadcast use vstd::string::group_string_axioms;

    let mut left = a.chars();
    let mut right = b.chars();
    let ghost mut seen: int = 0;
    loop
        invariant
            0 <= seen <= a@.len(),
            seen <= b@.len(),
            left.remaining() == a@.subrange(seen, a@.len() as int),
            right.remaining() == b@.subrange(seen, b@.len() as int),
            a@.subrange(0, seen) == b@.subrange(0, seen),
        decreases a@.len() - seen,
    {
        match (left.next(), right.next()) {
            (None, None) => {
                assert(a@ =~= a@.subrange(0, seen));
                assert(b@ =~= b@.subrange(0, seen));
                return true;
            },
            (Some(x), Some(y)) => {
                assert(x == a@[seen]);
                assert(y == b@[seen]);
                if x != y {
                    return false;
                }
                proof {
                    assert(left.remaining() =~= a@.subrange(seen + 1, a@.len() as int));
                    assert(right.remaining() =~= b@.subrange(seen + 1, b@.len() as int));
                    assert(a@.subrange(0, seen + 1) =~= a@.subrange(0, seen).push(x));
                    assert(b@.subrange(0, seen + 1) =~= b@.subrange(0, seen).push(y));
                    seen = seen + 1;
                }
            },
            _ => {
                assert(a@.len() != b@.len());
                return false;
            },
        }
    }
}

} // verus!
