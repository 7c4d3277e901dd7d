//! The input events that drive a camera, and the step that each of them
//! makes it take.

use crate::fixed::Fixed;
use crate::geometry::{Point, ViewportSize};
use crate::model::CameraModel;
use vstd::prelude::*;

verus! {

/// A button of the pointing device.
#[derive(Clone, Copy, Debug, PartialEq, Eq, Structural)]
pub enum PointerButton {
    /// The button that drags the camera.
    Primary,
    Secondary,
    Middle,
    Other,
}

/// How far a wheel or touchpad scrolled.
#[derive(Clone, Copy, Debug, PartialEq, Eq, Structural)]
pub enum ScrollDelta {
    /// A number of lines of the wheel.
    Lines(Fixed),
    /// A distance in pixels, which a camera does not take.
    Pixels,
}

/// What the windowing side reports to a camera.
#[derive(Clone, Copy, Debug, PartialEq, Eq, Structural)]
pub enum InputEvent {
    /// The pointer is at this screen position, in logical pixels.
    PointerMoved(Point),
    /// A button went down or up.
    Button { button: PointerButton, pressed: bool },
    Scrolled(ScrollDelta),
    /// The viewport has this size now, in logical pixels.
    Resized(ViewportSize),
}

/// Why a camera turned an event down.
#[derive(Clone, Copy, Debug, PartialEq, Eq, Structural)]
pub enum InputError {
    /// The event was a scroll by pixels.
    UnsupportedScroll,
}

impl InputEvent {
    /// Whether a camera takes the event: every event but a scroll by pixels.
    pub open spec fn supported(self) -> bool {
        !(self matches InputEvent::Scrolled(ScrollDelta::Pixels))
    }
}

impl CameraModel {
    /// The state after a supported event.
    pub open spec fn after_event(self, event: InputEvent) -> CameraModel {
        match event {
            InputEvent::PointerMoved(to) => self.pointer_moved(to@),
            InputEvent::Button { button: PointerButton::Primary, pressed } => CameraModel {
                drag_active: pressed,
                ..self
            },
            InputEvent::Button { .. } => self,
            InputEvent::Scrolled(ScrollDelta::Lines(amount)) => self.scrolled(amount@),
            InputEvent::Scrolled(ScrollDelta::Pixels) => self,
            InputEvent::Resized(viewport_size) => self.resized(viewport_size),
        }
    }
}

} // verus!
