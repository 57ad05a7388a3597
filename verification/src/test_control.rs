//! Two sums.

use vstd::prelude::*;

verus! {

/// Sum of two unsigned numbers. The caller keeps the sum within `u64`.
pub fn add(left: u64, right: u64) -> (sum: u64)
    requires
        left + right <= u64::MAX,
    ensures
        sum == left + right,
{
    left + right
}

/// `a` plus two. The caller keeps the result within `i32`.
pub fn add_two(a: i32) -> (sum: i32)
    requires
        a + 2 <= i32::MAX,
    ensures
        sum == a + 2,
{
    a + 2
}

} // verus!
