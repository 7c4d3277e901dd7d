//! Points of the plane and the size of the viewport.

use crate::fixed::{saturate, Fixed, UNIT};
use vstd::prelude::*;

verus! {

/// A point of the plane with integer coordinates, in millionths: what a
/// [`Point`] stands for, and what the camera's formulas are stated over.
pub struct SpecPoint {
    pub x: int,
    pub y: int,
}

impl SpecPoint {
    /// Each coordinate brought into the range that a [`Fixed`] can hold.
    pub open spec fn saturated(self) -> SpecPoint {
        SpecPoint { x: saturate(self.x), y: saturate(self.y) }
    }

    /// Whether a [`Point`] can hold this point as it is.
    pub open spec fn representable(self) -> bool {
        self.saturated() == self
    }
}

/// A point in fixed-point coordinates, on the screen (logical pixels, y
/// growing downward) or in the world (y growing upward).
#[derive(Clone, Copy, Debug, PartialEq, Eq, Structural)]
pub struct Point {
    pub x: Fixed,
    pub y: Fixed,
}

impl View for Point {
    type V = SpecPoint;

    open spec fn view(&self) -> SpecPoint {
        SpecPoint { x: self.x@, y: self.y@ }
    }
}

impl Point {
    /// The point with the given whole-number coordinates.
    pub fn from_ints(x: i32, y: i32) -> (p: Point)
        ensures
            p@ == (SpecPoint { x: x * UNIT, y: y * UNIT }),
    {
        Point { x: Fixed::from_int(x), y: Fixed::from_int(y) }
    }
}

/// The size of the render surface in logical pixels.
#[derive(Clone, Copy, Debug, PartialEq, Eq, Structural)]
pub struct ViewportSize {
    pub width: u32,
    pub height: u32,
}

} // verus!
