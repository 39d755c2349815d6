//! Drawable components behind one polymorphic interface.
//!
//! [`Screen`] owns a list of components that share nothing but the
//! [`Draw`] trait, and [`Screen::run`] draws each of them in turn through
//! that interface. [`Button`] is one such component; a user of the library
//! can add its own by implementing [`Draw`].

use vstd::prelude::*;

verus! {

/// Something that can draw itself.
pub trait Draw {
    fn draw(&self);
}

/// A screen full of drawable components.
pub struct Screen {
    pub components: Vec<Box<dyn Draw>>,
}

impl Screen {
    /// Draws every component, in the order they were added.
    pub fn run(&self) {
        let mut i: usize = 0;
        while i < self.components.len()
            invariant
                i <= self.components.len(),
            decreases self.components.len() - i,
        {
            self.components[i].draw();
            i += 1;
        }
    }
}

/// A push button with a size and a label.
pub struct Button {
    pub width: u32,
    pub height: u32,
    pub label: String,
}

impl Draw for Button {
    fn draw(&self) {
    }
}

} // verus!
