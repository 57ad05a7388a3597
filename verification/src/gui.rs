//! A screen that draws whatever components it is given.

use vstd::prelude::*;

verus! {

/// Anything that can draw itself.
pub trait Draw {
    fn draw(&self);
}

/// A screen with its components, in the order in which they are drawn.
pub struct Screen {
    pub components: Vec<Box<dyn Draw>>,
}

impl Screen {
    /// Draws every component once, first to last.
    pub fn run(&self) {
        let mut at: usize = 0;
        while at < self.components.len()
            invariant
                at <= self.components@.len(),
            decreases self.components@.len() - at,
        {
            self.components[at].draw();
            at += 1;
        }
    }
}

/// A button with a label.
pub struct Button {
    pub width: u32,
    pub height: u32,
    pub label: String,
}

impl Draw for Button {
    fn draw(&self) {
    }
}

} // verus!
