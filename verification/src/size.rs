//! Window and surface extents in physical pixels.

use vstd::prelude::*;

verus! {

/// A width and a height in physical pixels.
#[derive(Clone, Copy, Debug, PartialEq, Eq, Structural)]
pub struct PhysicalSize {
    pub width: u32,
    pub height: u32,
}

impl PhysicalSize {
    /// Whether an extent covers at least one pixel.
    pub open spec fn has_area(self) -> bool {
        self.width > 0 && self.height > 0
    }

    pub fn new(width: u32, height: u32) -> (size: PhysicalSize)
        ensures
            size == (PhysicalSize { width, height }),
    {
        PhysicalSize { width, height }
    }

    /// A minimized window reports zero in one or both dimensions; such an
    /// extent is degenerate and must never reach a surface.
    pub fn is_degenerate(&self) -> (degenerate: bool)
        ensures
            degenerate == !self.has_area(),
    {
        self.width == 0 || self.height == 0
    }
}

} // verus!
