//! What the renderer is handed each frame.

use crate::fixed::Fixed;
use crate::geometry::Point;
use vstd::prelude::*;

verus! {

/// The view-projection transform, by the numbers that determine its matrix:
/// the translation that moves the camera's position to the origin, and the
/// bounds of the orthographic projection that is applied after it.
#[derive(Clone, Copy, Debug, PartialEq, Eq, Structural)]
pub struct ViewProjection {
    pub left: Fixed,
    pub right: Fixed,
    pub bottom: Fixed,
    pub top: Fixed,
    pub near: Fixed,
    pub far: Fixed,
    /// The translation in the plane; along the third axis it is zero.
    pub translation: Point,
}

} // verus!
