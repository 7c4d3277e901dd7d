//! The camera as a mathematical object: its state over the integers, and
//! what each operation does to that state.

use crate::fixed::{round_div, saturate, HALF_UNIT, UNIT};
use crate::geometry::{SpecPoint, ViewportSize};
use vstd::prelude::*;

verus! {

/// The smallest zoom factor, one tenth.
pub const ZOOM_MIN: i64 = 100_000;

/// The largest zoom factor, ten.
pub const ZOOM_MAX: i64 = 10_000_000;

/// The zoom change per scrolled line that a new camera starts with, one tenth.
pub const ZOOM_DEFAULT_SENSITIVITY: i64 = 100_000;

/// `v` brought into the range from `lo` to `hi`.
pub open spec fn clamp(v: int, lo: int, hi: int) -> int
    recommends
        lo <= hi,
{
    if v < lo {
        lo
    } else if v > hi {
        hi
    } else {
        v
    }
}

/// The state of a camera. All numbers are in millionths, but for the
/// viewport size, which is in whole logical pixels.
pub struct CameraModel {
    /// The world point shown at the centre of the viewport.
    pub position: SpecPoint,
    /// How many viewport units one world unit covers.
    pub zoom: int,
    /// The zoom change per scrolled line.
    pub zoom_sensitivity: int,
    pub viewport_size: ViewportSize,
    /// Whether the primary button is held down.
    pub drag_active: bool,
    /// The last pointer position seen, if any was.
    pub last_pointer_position: Option<SpecPoint>,
}

impl CameraModel {
    /// What holds of every camera: the zoom factor is within its limits and
    /// every coordinate is one that a fixed-point number can hold.
    pub open spec fn wf(self) -> bool {
        &&& ZOOM_MIN <= self.zoom <= ZOOM_MAX
        &&& self.position.representable()
        &&& saturate(self.zoom_sensitivity) == self.zoom_sensitivity
        &&& self.last_pointer_position matches Some(p) ==> p.representable()
    }

    /// The state of a camera that has just been made for the given viewport.
    pub open spec fn initial(viewport_size: ViewportSize) -> CameraModel {
        CameraModel {
            position: SpecPoint { x: 0, y: 0 },
            zoom: UNIT as int,
            zoom_sensitivity: ZOOM_DEFAULT_SENSITIVITY as int,
            viewport_size,
            drag_active: false,
            last_pointer_position: None,
        }
    }

    /// The screen position of the centre of the viewport.
    pub open spec fn screen_center(self) -> SpecPoint {
        SpecPoint {
            x: self.viewport_size.width * HALF_UNIT,
            y: self.viewport_size.height * HALF_UNIT,
        }
    }

    /// The world point under a screen position, before it is brought into
    /// range: the offset from the screen centre, divided by the zoom factor,
    /// its y axis turned over, added to the camera's position.
    pub open spec fn screen_to_world_exact(self, screen: SpecPoint) -> SpecPoint {
        let center = self.screen_center();
        SpecPoint {
            x: self.position.x + round_div((screen.x - center.x) * UNIT, self.zoom),
            y: self.position.y - round_div((screen.y - center.y) * UNIT, self.zoom),
        }
    }

    /// The world point under a screen position.
    pub open spec fn screen_to_world(self, screen: SpecPoint) -> SpecPoint {
        self.screen_to_world_exact(screen).saturated()
    }

    /// The screen position of a world point, before it is brought into
    /// range: the formula of `screen_to_world_exact` solved for the screen
    /// position.
    pub open spec fn world_to_screen_exact(self, world: SpecPoint) -> SpecPoint {
        let center = self.screen_center();
        SpecPoint {
            x: center.x + round_div((world.x - self.position.x) * self.zoom, UNIT as int),
            y: center.y - round_div((world.y - self.position.y) * self.zoom, UNIT as int),
        }
    }

    /// The screen position of a world point.
    pub open spec fn world_to_screen(self, world: SpecPoint) -> SpecPoint {
        self.world_to_screen_exact(world).saturated()
    }

    /// The camera's position after the pointer, held down, went from `from`
    /// to `to`, before it is brought into range: the world moves with the
    /// pointer, so the camera moves against it, by the pointer's way divided
    /// by the zoom factor.
    pub open spec fn dragged_position_exact(self, from: SpecPoint, to: SpecPoint) -> SpecPoint {
        SpecPoint {
            x: self.position.x + round_div((from.x - to.x) * UNIT, self.zoom),
            y: self.position.y - round_div((from.y - to.y) * UNIT, self.zoom),
        }
    }

    /// The camera's position after the pointer, held down, went from `from`
    /// to `to`.
    pub open spec fn dragged_position(self, from: SpecPoint, to: SpecPoint) -> SpecPoint {
        self.dragged_position_exact(from, to).saturated()
    }

    /// The state after the pointer was seen at `to`. The camera moves only
    /// while dragging, and only if an earlier pointer position is known.
    pub open spec fn pointer_moved(self, to: SpecPoint) -> CameraModel {
        CameraModel {
            position: if self.drag_active && self.last_pointer_position is Some {
                self.dragged_position(self.last_pointer_position->0, to)
            } else {
                self.position
            },
            last_pointer_position: Some(to),
            ..self
        }
    }

    /// The zoom factor that scrolling by `amount` lines leads to.
    pub open spec fn zoom_after_scroll(self, amount: int) -> int {
        clamp(
            self.zoom + round_div(amount * self.zoom_sensitivity, UNIT as int),
            ZOOM_MIN as int,
            ZOOM_MAX as int,
        )
    }

    /// The screen position that a zoom holds still: the last pointer
    /// position, or the screen's origin if none was seen.
    pub open spec fn zoom_anchor(self) -> SpecPoint {
        match self.last_pointer_position {
            Some(p) => p,
            None => SpecPoint { x: 0, y: 0 },
        }
    }

    /// The state after the zoom factor was set to `zoom`: the camera has
    /// moved by the distance between the world points that the anchor lies
    /// over before and after the change.
    pub open spec fn zoomed_about_anchor(self, zoom: int) -> CameraModel {
        let zoomed = CameraModel { zoom, ..self };
        let before = self.screen_to_world(self.zoom_anchor());
        let after = zoomed.screen_to_world(self.zoom_anchor());
        CameraModel {
            position: SpecPoint {
                x: self.position.x - (after.x - before.x),
                y: self.position.y - (after.y - before.y),
            }.saturated(),
            ..zoomed
        }
    }

    /// Whether setting the zoom factor to `zoom` takes no coordinate out of
    /// range: neither the world point under the anchor, before or after,
    /// nor the camera's new position.
    pub open spec fn zoom_stays_in_range(self, zoom: int) -> bool {
        let zoomed = CameraModel { zoom, ..self };
        let before = self.screen_to_world_exact(self.zoom_anchor());
        let after = zoomed.screen_to_world_exact(self.zoom_anchor());
        &&& before.representable()
        &&& after.representable()
        &&& (SpecPoint {
            x: self.position.x - (after.x - before.x),
            y: self.position.y - (after.y - before.y),
        }).representable()
    }

    /// The state after scrolling by `amount` lines. Nothing changes unless
    /// the zoom factor does.
    pub open spec fn scrolled(self, amount: int) -> CameraModel {
        let zoom = self.zoom_after_scroll(amount);
        if zoom == self.zoom {
            self
        } else {
            self.zoomed_about_anchor(zoom)
        }
    }

    /// The state after scrolling by each of `amounts` in turn.
    pub open spec fn scrolled_all(self, amounts: Seq<int>) -> CameraModel
        decreases amounts.len(),
    {
        if amounts.len() == 0 {
            self
        } else {
            self.scrolled_all(amounts.drop_last()).scrolled(amounts.last())
        }
    }

    /// The state after the viewport took the size `viewport_size`.
    pub open spec fn resized(self, viewport_size: ViewportSize) -> CameraModel {
        CameraModel { viewport_size, ..self }
    }

    /// Whether the position is in the inner half of the range on both axes:
    /// so far from the limits that no world point under the viewport, and no
    /// zoom about one, can reach them.
    pub open spec fn away_from_limits(self) -> bool {
        &&& -0x4000_0000_0000_0000 <= self.position.x <= 0x4000_0000_0000_0000
        &&& -0x4000_0000_0000_0000 <= self.position.y <= 0x4000_0000_0000_0000
    }

    /// Whether the screen position lies within the viewport.
    pub open spec fn in_viewport(self, screen: SpecPoint) -> bool {
        &&& 0 <= screen.x <= self.viewport_size.width * UNIT
        &&& 0 <= screen.y <= self.viewport_size.height * UNIT
    }

    /// Half of what the viewport shows of the world along an axis on which
    /// it is `pixels` logical pixels long: `pixels / (2 * zoom)`.
    pub open spec fn half_extent(self, pixels: int) -> int {
        round_div(pixels * UNIT * UNIT, 2 * self.zoom)
    }

    /// Half the width of what the viewport shows of the world.
    pub open spec fn half_width(self) -> int {
        self.half_extent(self.viewport_size.width as int)
    }

    /// Half the height of what the viewport shows of the world.
    pub open spec fn half_height(self) -> int {
        self.half_extent(self.viewport_size.height as int)
    }
}

} // verus!
