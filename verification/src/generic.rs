//! Points over any coordinate type, and the largest item of a list.

use std::cmp::Ordering;
use vstd::prelude::*;
use vstd::std_specs::cmp::PartialOrdSpec;

verus! {

/// A point whose two coordinates have one type.
pub struct Point<T> {
    pub x: T,
    pub y: T,
}

/// A point whose two coordinates may differ in type.
pub struct Point2<T, U> {
    pub x: T,
    pub y: U,
}

impl<T> Point<T> {
    /// The first coordinate.
    pub fn x(&self) -> (x: &T)
        ensures
            *x == self.x,
    {
        &self.x
    }
}

impl<T1, U1> Point2<T1, U1> {
    /// The point that has this point's first coordinate and `other`'s second.
    pub fn mixup<T2, U2>(self, other: Point2<T2, U2>) -> (mixed: Point2<T1, U2>)
        ensures
            mixed.x == self.x,
            mixed.y == other.y,
    {
        Point2 { x: self.x, y: other.y }
    }
}

/// The largest item of a list by the order of `T`: the first item, replaced
/// in turn by each later item that it is less than.
pub open spec fn largest_of<T: PartialOrd>(list: Seq<T>) -> T
    recommends
        list.len() > 0,
    decreases list.len(),
{
    if list.len() <= 1 {
        list[0]
    } else {
        let before = largest_of(list.drop_last());
        if before.partial_cmp_spec(&list.last()) == Some(Ordering::Less) {
            list.last()
        } else {
            before
        }
    }
}

/// The largest item of a list that is not empty.
pub fn largest<T: PartialOrd>(list: &[T]) -> (found: &T)
    requires
        list@.len() > 0,
    ensures
        T::obeys_partial_cmp_spec() ==> *found == largest_of(list@),
        exists|at: int| 0 <= at < list@.len() && *found == list@[at],
{
    let mut largest = &list[0];
    let mut at: usize = 1;
    let ghost mut seen: int = 1;
    let ghost mut picked: int = 0;
    assert(list@.take(1).len() == 1);
    while at < list.len()
        invariant
            1 <= seen <= list@.len(),
            seen == at,
            0 <= picked < list@.len(),
            *largest == list@[picked],
            T::obeys_partial_cmp_spec() ==> *largest == largest_of(list@.take(seen)),
        decreases list@.len() - seen,
    {
        let item = &list[at];
        proof {
            assert(list@.take(seen + 1).drop_last() =~= list@.take(seen));
            assert(list@.take(seen + 1).last() == *item);
        }
        if *largest < *item {
            largest = item;
            proof {
                picked = seen;
            }
        }
        at += 1;
        proof {
            seen = seen + 1;
        }
    }
    assert(list@.take(seen) =~= list@);
    largest
}

} // verus!
