//! Two-dimensional pixel extents, as reported by the window and carried by
//! the swapchain. A zero-area extent is the signal that the window is
//! minimized and rendering must pause.

use vstd::prelude::*;

verus! {

/// A drawable size in pixels.
#[derive(Clone, Copy, Debug, PartialEq, Eq, Structural)]
pub struct Extent2D {
    pub width: u32,
    pub height: u32,
}

impl Extent2D {
    /// An extent with zero width or zero height has no drawable area.
    pub open spec fn spec_is_zero_area(self) -> bool {
        self.width == 0 || self.height == 0
    }

    pub fn new(width: u32, height: u32) -> (r: Extent2D)
        ensures
            r.width == width,
            r.height == height,
    {
        Extent2D { width, height }
    }

    pub fn is_zero_area(&self) -> (r: bool)
        ensures
            r == self.spec_is_zero_area(),
    {
        self.width == 0 || self.height == 0
    }
}

/// `v` forced into the closed interval `[lo, hi]`.
pub open spec fn spec_clamp_u32(v: u32, lo: u32, hi: u32) -> u32
    recommends
        lo <= hi,
{
    if v < lo {
        lo
    } else if v > hi {
        hi
    } else {
        v
    }
}

pub fn clamp_u32(v: u32, lo: u32, hi: u32) -> (r: u32)
    requires
        lo <= hi,
    ensures
        r == spec_clamp_u32(v, lo, hi),
        lo <= r <= hi,
{
    if v < lo {
        lo
    } else if v > hi {
        hi
    } else {
        v
    }
}

} // verus!
