//! Screen and window sizes in pixels.

use vstd::prelude::*;

verus! {

/// A size in pixels. A usable screen has a positive width and height.
#[derive(Clone, Copy, Debug, PartialEq, Eq, Structural)]
pub struct Resolution {
    pub width: u32,
    pub height: u32,
}

impl Resolution {
    /// Both dimensions are at least one pixel.
    pub open spec fn is_positive(self) -> bool {
        self.width >= 1 && self.height >= 1
    }

    /// A size of the given width and height.
    pub fn new(width: u32, height: u32) -> (res: Resolution)
        ensures
            res.width == width,
            res.height == height,
    {
        Resolution { width, height }
    }
}

} // verus!
