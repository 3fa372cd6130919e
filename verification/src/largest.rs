//! The largest number of a list.

use vstd::prelude::*;

verus! {

/// `m` occurs in `elems` and no element of `elems` exceeds it.
pub open spec fn is_largest(elems: Seq<i64>, m: i64) -> bool {
    &&& exists|i: int| 0 <= i < elems.len() && elems[i] == m
    &&& forall|i: int| 0 <= i < elems.len() ==> elems[i] <= m
}

/// Returns the largest element of `elems`, or `None` for an empty list.
pub fn find_largest_element(elems: &Vec<i64>) -> (largest: Option<i64>)
    ensures
        match largest {
            None => elems@.len() == 0,
            Some(m) => is_largest(elems@, m),
        },
{
    if elems.is_empty() {
        return None;
    }
    let mut biggest: i64 = elems[0];
    let mut seen: usize = 1;
    let ghost mut at: int = 0;
    while seen < elems.len()
        invariant
            1 <= seen <= elems.len(),
            0 <= at < seen,
            elems[at] == biggest,
            forall|i: int| 0 <= i < seen ==> elems[i] <= biggest,
        decreases elems.len() - seen,
    {
        let contender: i64 = elems[seen];
        if contender > biggest {
            biggest = contender;
            proof {
                at = seen as int;
            }
        }
        seen = seen + 1;
    }
    Some(biggest)
}

/// A list has at most one largest element.
pub proof fn largest_is_unique(elems: Seq<i64>, a: i64, b: i64)
    requires
        is_largest(elems, a),
        is_largest(elems, b),
    ensures
        a == b,
{
}

} // verus!
