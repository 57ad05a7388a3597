//! A box that holds one value and can be read like a reference to it.

use std::ops::Deref;
use vstd::prelude::*;

verus! {

/// A box with one value in it.
pub struct MyBox<T>(pub T);

impl<T> MyBox<T> {
    /// Puts `x` into a box.
    pub fn new(x: T) -> (boxed: MyBox<T>)
        ensures
            boxed.0 == x,
    {
        MyBox(x)
    }
}

impl<T> Deref for MyBox<T> {
    type Target = T;

    /// The value in the box.
    fn deref(&self) -> (inner: &T)
        ensures
            *inner == self.0,
    {
        &self.0
    }
}

} // verus!
