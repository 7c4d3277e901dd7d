//! What holds of the camera whatever the input: the laws that its
//! operations obey together.

use crate::fixed::{
    lemma_round_div_is_nearest, lemma_round_div_is_odd, lemma_round_div_of_multiple,
    lemma_round_div_of_sum, lemma_round_div_within, round_div, HALF_UNIT, UNIT,
};
use crate::geometry::{SpecPoint, ViewportSize};
use crate::model::{CameraModel, ZOOM_MAX, ZOOM_MIN};
use vstd::prelude::*;

verus! {

/// A scroll leaves the zoom factor within its limits, whatever the state,
/// the amount and the sensitivity are.
pub proof fn lemma_scroll_keeps_zoom_within_limits(camera: CameraModel, amount: int)
    ensures
        ZOOM_MIN <= camera.scrolled(amount).zoom <= ZOOM_MAX,
{
}

/// After every scroll of any sequence of scrolls, the zoom factor is
/// within its limits and the camera is well formed.
pub proof fn lemma_scrolls_keep_zoom_within_limits(camera: CameraModel, amounts: Seq<int>)
    requires
        camera.wf(),
    ensures
        ZOOM_MIN <= camera.scrolled_all(amounts).zoom <= ZOOM_MAX,
        camera.scrolled_all(amounts).wf(),
    decreases amounts.len(),
{
    if amounts.len() > 0 {
        lemma_scrolls_keep_zoom_within_limits(camera, amounts.drop_last());
    }
}

/// A scroll holds still the world point under the anchor: the screen
/// position of the pointer lies over the same world point after the scroll
/// as before it, exactly. This holds wherever the zoom itself takes no
/// coordinate out of range.
pub proof fn lemma_scroll_holds_anchor_still(camera: CameraModel, amount: int)
    requires
        camera.zoom_stays_in_range(camera.zoom_after_scroll(amount)),
    ensures
        camera.scrolled(amount).zoom_anchor() == camera.zoom_anchor(),
        camera.scrolled(amount).screen_to_world(camera.zoom_anchor())
            == camera.screen_to_world(camera.zoom_anchor()),
{
}

/// The rounded quotient of `offset` by the zoom factor, multiplied by the
/// zoom factor again and rounded, is `offset` up to five millionths, and
/// `offset` itself where the zoom factor is at most one.
proof fn lemma_offset_round_trip(offset: int, zoom: int)
    requires
        ZOOM_MIN <= zoom <= ZOOM_MAX,
    ensures
        -5 <= round_div(round_div(offset * UNIT, zoom) * zoom, UNIT as int) - offset <= 5,
        zoom <= UNIT ==> round_div(round_div(offset * UNIT, zoom) * zoom, UNIT as int) == offset,
{
    let there = round_div(offset * UNIT, zoom);
    let back = round_div(there * zoom, UNIT as int);
    lemma_round_div_is_nearest(offset * UNIT, zoom);
    lemma_round_div_is_nearest(there * zoom, UNIT as int);
    assert(UNIT == 1_000_000);
    assert(offset * UNIT == 1_000_000 * offset);
    assert(back * UNIT == 1_000_000 * back);
    if zoom == UNIT {
        lemma_round_div_of_multiple(offset, UNIT as int);
        assert(there == offset);
        lemma_round_div_of_multiple(there, UNIT as int);
    }
}

/// A screen position within the viewport, taken to the world and back,
/// comes out where it was, up to five millionths of a pixel on each axis,
/// and exactly where the zoom factor is at most one. This holds wherever
/// the world point is within range.
pub proof fn lemma_screen_world_round_trip(camera: CameraModel, screen: SpecPoint)
    requires
        camera.wf(),
        camera.in_viewport(screen),
        camera.screen_to_world_exact(screen).representable(),
    ensures
        -5 <= camera.world_to_screen(camera.screen_to_world(screen)).x - screen.x <= 5,
        -5 <= camera.world_to_screen(camera.screen_to_world(screen)).y - screen.y <= 5,
        camera.zoom <= UNIT ==> camera.world_to_screen(camera.screen_to_world(screen)) == screen,
{
    let center = camera.screen_center();
    let world = camera.screen_to_world(screen);
    let offset_x = screen.x - center.x;
    let offset_y = screen.y - center.y;
    let there_x = round_div(offset_x * UNIT, camera.zoom);
    let there_y = round_div(offset_y * UNIT, camera.zoom);
    assert(UNIT == 1_000_000 && HALF_UNIT == 500_000);
    assert(world.x - camera.position.x == there_x);
    assert(world.y - camera.position.y == -there_y);
    lemma_offset_round_trip(offset_x, camera.zoom);
    lemma_offset_round_trip(offset_y, camera.zoom);
    assert((-there_y) * camera.zoom == -(there_y * camera.zoom)) by (nonlinear_arith);
    lemma_round_div_is_odd(there_y * camera.zoom, UNIT as int);
}

/// At zoom factor one a drag moves the camera by the pointer's way in
/// pixels, the y axis turned over, with nothing lost to rounding.
pub proof fn lemma_drag_at_zoom_one(camera: CameraModel, from: SpecPoint, to: SpecPoint)
    requires
        camera.zoom == UNIT,
    ensures
        camera.dragged_position(from, to) == (SpecPoint {
            x: camera.position.x + (from.x - to.x),
            y: camera.position.y - (from.y - to.y),
        }).saturated(),
{
    lemma_round_div_of_multiple(from.x - to.x, UNIT as int);
    lemma_round_div_of_multiple(from.y - to.y, UNIT as int);
}

/// A drag carries the world along with the pointer: the world point that
/// was under the pointer before a move is under it after, up to one
/// millionth on each axis. This holds wherever no coordinate leaves the
/// range.
pub proof fn lemma_drag_carries_world_point(camera: CameraModel, to: SpecPoint)
    requires
        camera.wf(),
        camera.drag_active,
        camera.last_pointer_position is Some,
        camera.screen_to_world_exact(camera.last_pointer_position->0).representable(),
        camera.pointer_moved(to).screen_to_world_exact(to).representable(),
        camera.dragged_position_exact(camera.last_pointer_position->0, to).representable(),
    ensures
        -1 <= camera.pointer_moved(to).screen_to_world(to).x - camera.screen_to_world(
            camera.last_pointer_position->0,
        ).x <= 1,
        -1 <= camera.pointer_moved(to).screen_to_world(to).y - camera.screen_to_world(
            camera.last_pointer_position->0,
        ).y <= 1,
{
    let from = camera.last_pointer_position->0;
    let center = camera.screen_center();
    assert(UNIT == 1_000_000);
    lemma_round_div_of_sum((from.x - to.x) * UNIT, (to.x - center.x) * UNIT, camera.zoom);
    lemma_round_div_of_sum((from.y - to.y) * UNIT, (to.y - center.y) * UNIT, camera.zoom);
    assert((from.x - to.x) * UNIT + (to.x - center.x) * UNIT == (from.x - center.x) * UNIT);
    assert((from.y - to.y) * UNIT + (to.y - center.y) * UNIT == (from.y - center.y) * UNIT);
}

/// While the primary button is not held, a pointer move changes nothing
/// but the pointer position that the camera remembers.
pub proof fn lemma_pointer_move_without_drag(camera: CameraModel, to: SpecPoint)
    requires
        !camera.drag_active,
    ensures
        camera.pointer_moved(to) == (CameraModel { last_pointer_position: Some(to), ..camera }),
        camera.pointer_moved(to).position == camera.position,
{
}

/// Whether two half extents are to each other as the lengths in pixels that
/// they belong to, up to the half millionth by which each may be rounded:
/// `half_a / pixels_a == half_b / pixels_b`, multiplied out.
pub open spec fn in_proportion(half_a: int, pixels_a: int, half_b: int, pixels_b: int) -> bool {
    -(pixels_a + pixels_b) <= 2 * (half_b * pixels_a - half_a * pixels_b) <= pixels_a + pixels_b
}

/// The quotients of two lengths by twice the zoom factor, each rounded, are
/// in proportion to the lengths.
proof fn lemma_half_extents_in_proportion(camera: CameraModel, pixels_a: int, pixels_b: int)
    requires
        camera.zoom > 0,
        pixels_a >= 0,
        pixels_b >= 0,
    ensures
        in_proportion(
            camera.half_extent(pixels_a),
            pixels_a,
            camera.half_extent(pixels_b),
            pixels_b,
        ),
{
    let d = 2 * camera.zoom;
    let na = pixels_a * UNIT * UNIT;
    let nb = pixels_b * UNIT * UNIT;
    let qa = round_div(na, d);
    let qb = round_div(nb, d);
    lemma_round_div_is_nearest(na, d);
    lemma_round_div_is_nearest(nb, d);
    let ea = qa * d - na;
    let eb = qb * d - nb;
    assert(na * pixels_b == nb * pixels_a) by (nonlinear_arith)
        requires
            na == pixels_a * UNIT * UNIT,
            nb == pixels_b * UNIT * UNIT,
    ;
    assert(eb * pixels_a == (qb * pixels_a) * d - nb * pixels_a) by (nonlinear_arith)
        requires
            eb == qb * d - nb,
    ;
    assert(ea * pixels_b == (qa * pixels_b) * d - na * pixels_b) by (nonlinear_arith)
        requires
            ea == qa * d - na,
    ;
    assert((qb * pixels_a - qa * pixels_b) * d == (qb * pixels_a) * d - (qa * pixels_b) * d)
        by (nonlinear_arith);
    assert(-(pixels_a + pixels_b) * d <= 2 * (eb * pixels_a - ea * pixels_b) <= (pixels_a
        + pixels_b) * d) by (nonlinear_arith)
        requires
            -d <= 2 * ea <= d,
            -d <= 2 * eb <= d,
            pixels_a >= 0,
            pixels_b >= 0,
    ;
    assert(-(pixels_a + pixels_b) <= 2 * (qb * pixels_a - qa * pixels_b) <= pixels_a + pixels_b)
        by (nonlinear_arith)
        requires
            -(pixels_a + pixels_b) * d <= 2 * ((qb * pixels_a - qa * pixels_b) * d) <= (pixels_a
                + pixels_b) * d,
            d > 0,
    ;
}

/// A change of the viewport's size changes neither position nor zoom
/// factor, and it changes the half extents of what the viewport shows in
/// proportion to the size.
pub proof fn lemma_resize_scales_half_extents(camera: CameraModel, viewport_size: ViewportSize)
    requires
        camera.wf(),
    ensures
        camera.resized(viewport_size).position == camera.position,
        camera.resized(viewport_size).zoom == camera.zoom,
        in_proportion(
            camera.half_width(),
            camera.viewport_size.width as int,
            camera.resized(viewport_size).half_width(),
            viewport_size.width as int,
        ),
        in_proportion(
            camera.half_height(),
            camera.viewport_size.height as int,
            camera.resized(viewport_size).half_height(),
            viewport_size.height as int,
        ),
{
    lemma_half_extents_in_proportion(
        camera,
        camera.viewport_size.width as int,
        viewport_size.width as int,
    );
    lemma_half_extents_in_proportion(
        camera,
        camera.viewport_size.height as int,
        viewport_size.height as int,
    );
}

/// Along an axis on which the viewport is `pixels` long, the offset of a
/// screen coordinate within the viewport from the centre, divided by a zoom
/// factor within the limits, is at most ten times half the longest viewport.
proof fn lemma_offset_in_world_is_small(coordinate: int, pixels: int, zoom: int)
    requires
        0 <= pixels <= u32::MAX,
        0 <= coordinate <= pixels * UNIT,
        ZOOM_MIN <= zoom <= ZOOM_MAX,
    ensures
        -21_474_836_475_000_000 <= round_div((coordinate - pixels * HALF_UNIT) * UNIT, zoom)
            <= 21_474_836_475_000_000,
{
    let offset = coordinate - pixels * HALF_UNIT;
    let bound = 21_474_836_475_000_000int;
    assert(UNIT == 1_000_000 && HALF_UNIT == 500_000 && ZOOM_MIN == 100_000);
    assert(-2_147_483_647_500_000 <= offset <= 2_147_483_647_500_000);
    assert(-bound * zoom <= offset * UNIT <= bound * zoom) by (nonlinear_arith)
        requires
            -bound * 100_000 <= offset * UNIT <= bound * 100_000,
            zoom >= 100_000,
            bound >= 0,
    ;
    lemma_round_div_within(offset * UNIT, zoom, bound);
}

/// For a camera away from the limits of the range, the world point under a
/// screen position within the viewport is within range.
pub proof fn lemma_world_point_is_in_range(camera: CameraModel, screen: SpecPoint)
    requires
        camera.wf(),
        camera.away_from_limits(),
        camera.in_viewport(screen),
    ensures
        camera.screen_to_world_exact(screen).representable(),
{
    lemma_offset_in_world_is_small(screen.x, camera.viewport_size.width as int, camera.zoom);
    lemma_offset_in_world_is_small(screen.y, camera.viewport_size.height as int, camera.zoom);
}

/// For a camera away from the limits of the range whose anchor is within
/// the viewport, a change of the zoom factor takes no coordinate out of
/// range.
pub proof fn lemma_zoom_stays_in_range(camera: CameraModel, zoom: int)
    requires
        camera.wf(),
        camera.away_from_limits(),
        camera.in_viewport(camera.zoom_anchor()),
        ZOOM_MIN <= zoom <= ZOOM_MAX,
    ensures
        camera.zoom_stays_in_range(zoom),
{
    let anchor = camera.zoom_anchor();
    lemma_offset_in_world_is_small(anchor.x, camera.viewport_size.width as int, camera.zoom);
    lemma_offset_in_world_is_small(anchor.y, camera.viewport_size.height as int, camera.zoom);
    lemma_offset_in_world_is_small(anchor.x, camera.viewport_size.width as int, zoom);
    lemma_offset_in_world_is_small(anchor.y, camera.viewport_size.height as int, zoom);
}

} // verus!
