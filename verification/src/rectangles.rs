//! The area of a rectangle.

use vstd::prelude::*;

verus! {

/// A rectangle with sides of whole length.
#[derive(Debug)]
pub struct Rectangle {
    pub width: u32,
    pub height: u32,
}

impl Rectangle {
    /// The area. The caller keeps it within `u32`.
    pub fn area(&self) -> (area: u32)
        requires
            self.width * self.height <= u32::MAX,
        ensures
            area == self.width * self.height,
    {
        self.width * self.height
    }
}

/// The area of `rectangle`. The caller keeps it within `u32`.
pub fn area(rectangle: &Rectangle) -> (area: u32)
    requires
        rectangle.width * rectangle.height <= u32::MAX,
    ensures
        area == rectangle.width * rectangle.height,
{
    rectangle.width * rectangle.height
}

} // verus!
