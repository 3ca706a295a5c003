//! Three-dimensional extents.

use vstd::prelude::*;

verus! {

/// Width, height and depth of an image, in texels.
#[derive(Clone, Copy, Debug, PartialEq, Eq)]
pub struct Extent3d {
    pub width: u32,
    pub height: u32,
    pub depth: u32,
}

impl Extent3d {
    /// An extent of the given width, height and depth.
    pub fn new(width: u32, height: u32, depth: u32) -> (extent: Self)
        ensures
            extent == (Extent3d { width, height, depth }),
    {
        Extent3d { width, height, depth }
    }
}

} // verus!
