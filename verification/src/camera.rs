//! The camera itself: the state, and the operations that input drives.

use crate::fixed::{
    lemma_round_div_is_nearest, round_div_i128, saturate_i128, times_half_unit, times_unit, Fixed,
    UNIT,
};
use crate::geometry::{Point, SpecPoint, ViewportSize};
use crate::input::{InputError, InputEvent, PointerButton, ScrollDelta};
use crate::model::{CameraModel, ZOOM_DEFAULT_SENSITIVITY, ZOOM_MAX, ZOOM_MIN};
use crate::projection::ViewProjection;
use vstd::prelude::*;

verus! {

/// A camera over the plane: a position, a zoom factor, and what it knows of
/// the pointer.
#[derive(Debug)]
pub struct Camera {
    position: Point,
    zoom: Fixed,
    zoom_sensitivity: Fixed,
    viewport_size: ViewportSize,
    lmb_is_pressed: bool,
    cursor_position: Option<Point>,
}

impl View for Camera {
    type V = CameraModel;

    closed spec fn view(&self) -> CameraModel {
        CameraModel {
            position: self.position@,
            zoom: self.zoom@,
            zoom_sensitivity: self.zoom_sensitivity@,
            viewport_size: self.viewport_size,
            drag_active: self.lmb_is_pressed,
            last_pointer_position: match self.cursor_position {
                Some(p) => Some(p@),
                None => None,
            },
        }
    }
}

/// A distance between two coordinates, times a zoom factor, is far from
/// the limits of an `i128`.
proof fn lemma_scaled_by_zoom_fits(away: int, zoom: int)
    requires
        -0x1_0000_0000_0000_0000 <= away <= 0x1_0000_0000_0000_0000,
        0 < zoom <= ZOOM_MAX,
    ensures
        -0x100_0000_0000_0000_0000_0000 <= away * zoom <= 0x100_0000_0000_0000_0000_0000,
{
    assert(-0x100_0000_0000_0000_0000_0000 <= away * zoom <= 0x100_0000_0000_0000_0000_0000)
        by (nonlinear_arith)
        requires
            -0x1_0000_0000_0000_0000 <= away <= 0x1_0000_0000_0000_0000,
            0 < zoom <= 10_000_000,
    ;
}

impl Camera {
    #[verifier::type_invariant]
    spec fn zoom_within_limits(self) -> bool {
        ZOOM_MIN <= self.zoom.raw <= ZOOM_MAX
    }

    /// A camera at the origin, at zoom factor one, that has seen no pointer.
    pub fn new(viewport_size: ViewportSize) -> (camera: Camera)
        ensures
            camera@ == CameraModel::initial(viewport_size),
            camera@.wf(),
    {
        Camera {
            position: Point { x: Fixed { raw: 0 }, y: Fixed { raw: 0 } },
            zoom: Fixed { raw: UNIT },
            zoom_sensitivity: Fixed { raw: ZOOM_DEFAULT_SENSITIVITY },
            viewport_size,
            lmb_is_pressed: false,
            cursor_position: None,
        }
    }

    /// The world point at the centre of the viewport.
    pub fn position(&self) -> (position: Point)
        ensures
            position@ == self@.position,
            self@.wf(),
    {
        proof {
            use_type_invariant(self);
        }
        self.position
    }

    /// Moves the camera so that `position` is at the centre of the viewport.
    pub fn set_position(&mut self, position: Point)
        ensures
            final(self)@ == (CameraModel { position: position@, ..old(self)@ }),
            final(self)@.wf(),
    {
        proof {
            use_type_invariant(&*self);
        }
        self.position = position;
    }

    /// The zoom factor.
    pub fn zoom(&self) -> (zoom: Fixed)
        ensures
            zoom@ == self@.zoom,
            ZOOM_MIN <= zoom@ <= ZOOM_MAX,
            self@.wf(),
    {
        proof {
            use_type_invariant(self);
        }
        self.zoom
    }

    /// Sets the zoom change per scrolled line.
    pub fn set_zoom_sensitivity(&mut self, zoom_sensitivity: Fixed)
        ensures
            final(self)@ == (CameraModel {
                zoom_sensitivity: zoom_sensitivity@,
                ..old(self)@
            }),
            final(self)@.wf(),
    {
        proof {
            use_type_invariant(&*self);
        }
        self.zoom_sensitivity = zoom_sensitivity;
    }

    /// The size of the viewport.
    pub fn viewport_size(&self) -> (viewport_size: ViewportSize)
        ensures
            viewport_size == self@.viewport_size,
            self@.wf(),
    {
        proof {
            use_type_invariant(self);
        }
        self.viewport_size
    }

    /// Takes over the size of the viewport, as it is; position and zoom
    /// factor stay.
    pub fn set_viewport_size(&mut self, viewport_size: ViewportSize)
        ensures
            final(self)@ == old(self)@.resized(viewport_size),
            final(self)@.position == old(self)@.position,
            final(self)@.zoom == old(self)@.zoom,
            final(self)@.wf(),
    {
        proof {
            use_type_invariant(&*self);
        }
        self.viewport_size = viewport_size;
    }

    /// Takes note of whether the primary button is held: the camera is
    /// dragged while it is.
    pub fn update_lmb_state(&mut self, lmb_is_pressed: bool)
        ensures
            final(self)@ == (CameraModel { drag_active: lmb_is_pressed, ..old(self)@ }),
            final(self)@.wf(),
    {
        proof {
            use_type_invariant(&*self);
        }
        self.lmb_is_pressed = lmb_is_pressed;
    }

    /// The world point under the screen position `screen_pos`.
    pub fn screen_to_world_position(&self, screen_pos: Point) -> (world: Point)
        ensures
            world@ == self@.screen_to_world(screen_pos@),
            self@.wf(),
    {
        proof {
            use_type_invariant(self);
        }
        let zoom: i128 = self.zoom.raw as i128;
        let center_x: i128 = times_half_unit(self.viewport_size.width);
        let center_y: i128 = times_half_unit(self.viewport_size.height);
        let offset_x: i128 = round_div_i128(
            times_unit(screen_pos.x.raw as i128 - center_x),
            zoom,
        );
        let offset_y: i128 = round_div_i128(
            times_unit(screen_pos.y.raw as i128 - center_y),
            zoom,
        );
        Point {
            x: Fixed { raw: saturate_i128(self.position.x.raw as i128 + offset_x) },
            y: Fixed { raw: saturate_i128(self.position.y.raw as i128 - offset_y) },
        }
    }

    /// The screen position at which the world point `world_pos` is shown.
    pub fn world_to_screen_position(&self, world_pos: Point) -> (screen: Point)
        ensures
            screen@ == self@.world_to_screen(world_pos@),
            self@.wf(),
    {
        proof {
            use_type_invariant(self);
        }
        let zoom: i128 = self.zoom.raw as i128;
        let center_x: i128 = times_half_unit(self.viewport_size.width);
        let center_y: i128 = times_half_unit(self.viewport_size.height);
        let away_x: i128 = world_pos.x.raw as i128 - self.position.x.raw as i128;
        let away_y: i128 = world_pos.y.raw as i128 - self.position.y.raw as i128;
        proof {
            lemma_scaled_by_zoom_fits(away_x as int, zoom as int);
            lemma_scaled_by_zoom_fits(away_y as int, zoom as int);
        }
        let offset_x: i128 = round_div_i128(away_x * zoom, 1_000_000);
        let offset_y: i128 = round_div_i128(away_y * zoom, 1_000_000);
        Point {
            x: Fixed { raw: saturate_i128(center_x + offset_x) },
            y: Fixed { raw: saturate_i128(center_y - offset_y) },
        }
    }

    /// Computes `self@.half_extent(pixels)`.
    fn half_extent(&self, pixels: u32) -> (half: i64)
        ensures
            half == self@.half_extent(pixels as int),
            half >= 0,
            half > 0 <==> pixels > 0,
    {
        proof {
            use_type_invariant(self);
        }
        let area: i128 = (pixels as i128) * 1_000_000_000_000;
        let twice_zoom: i128 = 2 * (self.zoom.raw as i128);
        let half: i128 = round_div_i128(area, twice_zoom);
        proof {
            assert(pixels * UNIT * UNIT == area);
            lemma_round_div_is_nearest(area as int, twice_zoom as int);
            assert(half * 200_000 <= half * twice_zoom) by (nonlinear_arith)
                requires
                    half >= 0,
                    twice_zoom >= 200_000,
            ;
            assert(half == 0 ==> half * twice_zoom == 0) by (nonlinear_arith);
        }
        half as i64
    }

    /// The view-projection transform: a translation by the negated position,
    /// then an orthographic projection of the part of the world that the
    /// viewport shows, which reaches half its extent to each side of the
    /// origin and from minus one to one in depth. The bounds along an axis
    /// fall together only where the viewport has no pixel along it.
    pub fn calculate_view_projection_matrix(&self) -> (vp: ViewProjection)
        ensures
            vp.right@ == self@.half_width(),
            vp.left@ == -self@.half_width(),
            vp.top@ == self@.half_height(),
            vp.bottom@ == -self@.half_height(),
            vp.near@ == -UNIT,
            vp.far@ == UNIT as int,
            vp.translation@ == (SpecPoint {
                x: -self@.position.x,
                y: -self@.position.y,
            }).saturated(),
            vp.left@ < vp.right@ <==> self@.viewport_size.width > 0,
            vp.bottom@ < vp.top@ <==> self@.viewport_size.height > 0,
            self@.wf(),
    {
        proof {
            use_type_invariant(self);
        }
        let half_w: i64 = self.half_extent(self.viewport_size.width);
        let half_h: i64 = self.half_extent(self.viewport_size.height);
        ViewProjection {
            left: Fixed { raw: -half_w },
            right: Fixed { raw: half_w },
            bottom: Fixed { raw: -half_h },
            top: Fixed { raw: half_h },
            near: Fixed { raw: -1_000_000 },
            far: Fixed { raw: 1_000_000 },
            translation: Point {
                x: Fixed { raw: saturate_i128(-(self.position.x.raw as i128)) },
                y: Fixed { raw: saturate_i128(-(self.position.y.raw as i128)) },
            },
        }
    }

    /// Takes note of the pointer at `cursor_position`, and while the primary
    /// button is held moves the camera by the way the pointer went.
    pub fn update_cursor_position(&mut self, cursor_position: Point)
        ensures
            final(self)@ == old(self)@.pointer_moved(cursor_position@),
            !old(self)@.drag_active ==> final(self)@ == (CameraModel {
                last_pointer_position: Some(cursor_position@),
                ..old(self)@
            }),
            final(self)@.wf(),
    {
        proof {
            use_type_invariant(&*self);
        }
        if self.lmb_is_pressed {
            if let Some(last) = self.cursor_position {
                let zoom: i128 = self.zoom.raw as i128;
                let delta_x: i128 = round_div_i128(
                    times_unit(last.x.raw as i128 - cursor_position.x.raw as i128),
                    zoom,
                );
                let delta_y: i128 = round_div_i128(
                    times_unit(last.y.raw as i128 - cursor_position.y.raw as i128),
                    zoom,
                );
                self.position = Point {
                    x: Fixed { raw: saturate_i128(self.position.x.raw as i128 + delta_x) },
                    y: Fixed { raw: saturate_i128(self.position.y.raw as i128 - delta_y) },
                };
            }
        }
        self.cursor_position = Some(cursor_position);
    }

    /// Zooms by `scroll` lines of the wheel, holding still the world point
    /// under the pointer.
    pub fn mouse_scroll(&mut self, scroll: Fixed)
        ensures
            final(self)@ == old(self)@.scrolled(scroll@),
            ZOOM_MIN <= final(self)@.zoom <= ZOOM_MAX,
            final(self)@.wf(),
    {
        proof {
            use_type_invariant(&*self);
        }
        let sensitivity: i128 = self.zoom_sensitivity.raw as i128;
        assert(-0x4000_0000_0000_0000_0000_0000_0000_0000 <= scroll.raw * sensitivity
            <= 0x4000_0000_0000_0000_0000_0000_0000_0000) by (nonlinear_arith)
            requires
                -0x8000_0000_0000_0000 <= scroll.raw <= 0x8000_0000_0000_0000,
                -0x8000_0000_0000_0000 <= sensitivity <= 0x8000_0000_0000_0000,
        ;
        let zoom_delta: i128 = round_div_i128((scroll.raw as i128) * sensitivity, 1_000_000);
        let target: i128 = self.zoom.raw as i128 + zoom_delta;
        let new_zoom: i64 = if target < ZOOM_MIN as i128 {
            ZOOM_MIN
        } else if target > ZOOM_MAX as i128 {
            ZOOM_MAX
        } else {
            target as i64
        };
        if new_zoom == self.zoom.raw {
            return ;
        }
        let anchor: Point = match self.cursor_position {
            Some(p) => p,
            None => Point { x: Fixed { raw: 0 }, y: Fixed { raw: 0 } },
        };
        let before: Point = self.screen_to_world_position(anchor);
        self.zoom = Fixed { raw: new_zoom };
        let after: Point = self.screen_to_world_position(anchor);
        let shift_x: i128 = after.x.raw as i128 - before.x.raw as i128;
        let shift_y: i128 = after.y.raw as i128 - before.y.raw as i128;
        self.position = Point {
            x: Fixed { raw: saturate_i128(self.position.x.raw as i128 - shift_x) },
            y: Fixed { raw: saturate_i128(self.position.y.raw as i128 - shift_y) },
        };
    }

    /// Takes one input event. A scroll by pixels is turned down and changes
    /// nothing; every other event is taken, and does what the operation of
    /// its kind does.
    pub fn handle_event(&mut self, event: InputEvent) -> (result: Result<(), InputError>)
        ensures
            result is Ok <==> event.supported(),
            result is Ok ==> final(self)@ == old(self)@.after_event(event),
            result is Err ==> result == Err::<(), InputError>(InputError::UnsupportedScroll)
                && final(self)@ == old(self)@,
            final(self)@.wf(),
    {
        proof {
            use_type_invariant(&*self);
        }
        match event {
            InputEvent::PointerMoved(to) => {
                self.update_cursor_position(to);
                Ok(())
            },
            InputEvent::Button { button, pressed } => {
                match button {
                    PointerButton::Primary => self.update_lmb_state(pressed),
                    _ => {},
                }
                Ok(())
            },
            InputEvent::Scrolled(ScrollDelta::Lines(amount)) => {
                self.mouse_scroll(amount);
                Ok(())
            },
            InputEvent::Scrolled(ScrollDelta::Pixels) => Err(InputError::UnsupportedScroll),
            InputEvent::Resized(viewport_size) => {
                self.set_viewport_size(viewport_size);
                Ok(())
            },
        }
    }
}

} // verus!
