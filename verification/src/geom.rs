//! Integer device geometry shared with the rendering layer.

use vstd::prelude::*;

verus! {

/// A surface extent in whole device pixels.
#[derive(Clone, Copy, Debug, PartialEq, Eq, Structural)]
pub struct DeviceSize {
    pub width: u32,
    pub height: u32,
}

impl DeviceSize {
    /// The extent `width` by `height` pixels.
    pub fn new(width: u32, height: u32) -> (r: Self)
        ensures
            r.width == width,
            r.height == height,
    {
        DeviceSize { width, height }
    }

    /// The largest extent fitting inside both `self` and `other`: the
    /// axis-wise minimum. A texture copy clipped to it stays in bounds of
    /// both surfaces.
    pub fn min(&self, other: &Self) -> (r: Self)
        ensures
            r.width == if self.width <= other.width {
                self.width
            } else {
                other.width
            },
            r.height == if self.height <= other.height {
                self.height
            } else {
                other.height
            },
    {
        DeviceSize {
            width: if self.width <= other.width {
                self.width
            } else {
                other.width
            },
            height: if self.height <= other.height {
                self.height
            } else {
                other.height
            },
        }
    }
}

} // verus!
