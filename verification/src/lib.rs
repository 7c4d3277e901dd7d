//! A two-dimensional camera for pan and zoom, in fixed-point arithmetic.
//!
//! Every quantity the camera works with (world coordinates, pointer
//! positions, the zoom factor) is a [`fixed::Fixed`] number: a whole count of
//! millionths. A quotient is rounded to the nearest millionth, and a result
//! that no such number can hold is brought to the nearest limit of the range.
//!
//! [`camera::Camera`] is the camera. What its operations do is stated over
//! [`model::CameraModel`], its state over the integers; the laws that the
//! operations obey together are proved in [`laws`]. The renderer is handed a
//! [`projection::ViewProjection`], and [`input`] holds the events that the
//! windowing side reports.

pub mod camera;
pub mod fixed;
pub mod geometry;
pub mod input;
pub mod laws;
pub mod model;
pub mod projection;
