//! The viewport rectangle.

use vstd::prelude::*;

use crate::driver::{Driver, ModelState};

verus! {

/// The rectangle of the drawing surface that rendering maps to.
#[derive(Clone, Copy, Debug, PartialEq, Eq, Structural)]
pub struct Viewport {
    pub x: i32,
    pub y: i32,
    pub w: i32,
    pub h: i32,
}

impl Viewport {
    /// A viewport covering a window of the given size from its origin.
    pub fn for_window(w: i32, h: i32) -> (r: Viewport)
        ensures
            r == (Viewport { x: 0, y: 0, w, h }),
    {
        Viewport { x: 0, y: 0, w, h }
    }

    /// Records a new window size; the origin stays.
    pub fn update_size(&mut self, w: i32, h: i32)
        ensures
            *final(self) == (Viewport { w, h, ..*old(self) }),
    {
        self.w = w;
        self.h = h;
    }

    /// Hands the rectangle to the driver.
    pub fn refresh(&self, d: &mut Driver)
        requires
            old(d)@.inv(),
        ensures
            final(d)@.inv(),
            final(d)@ == (ModelState { viewport: (self.x, self.y, self.w, self.h), ..old(d)@ }),
    {
        d.set_viewport(self.x, self.y, self.w, self.h);
    }
}

} // verus!
