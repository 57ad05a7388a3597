//! Two mutable halves of one slice, and a counter that is added to.

use vstd::prelude::*;

verus! {

/// Splits a slice at `mid` into two parts that can be changed side by side:
/// the first `mid` items and the rest. What is written into the parts is
/// what the slice holds afterwards.
pub fn split_at_mut(values: &mut [i32], mid: usize) -> (parts: (&mut [i32], &mut [i32]))
    requires
        mid <= old(values)@.len(),
    ensures
        parts.0@ == old(values)@.subrange(0, mid as int),
        parts.1@ == old(values)@.subrange(mid as int, old(values)@.len() as int),
        final(values)@ == final(parts.0)@ + final(parts.1)@,
{
    values.split_at_mut(mid)
}

/// Adds `inc` to the counter. The caller keeps the counter within `u32`.
pub fn add_to_count(counter: &mut u32, inc: u32)
    requires
        *old(counter) + inc <= u32::MAX,
    ensures
        *final(counter) == *old(counter) + inc,
{
    *counter = *counter + inc;
}

} // verus!
