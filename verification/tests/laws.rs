use camera2d::camera::Camera;
use camera2d::fixed::Fixed;
use camera2d::geometry::{Point, ViewportSize};
use camera2d::model::{ZOOM_DEFAULT_SENSITIVITY, ZOOM_MAX, ZOOM_MIN};

fn fixed(raw: i64) -> Fixed {
    Fixed { raw }
}

fn point(x: i64, y: i64) -> Point {
    Point { x: fixed(x), y: fixed(y) }
}

#[test]
fn zoom_limits_are_a_tenth_and_ten() {
    assert_eq!(ZOOM_MIN, 100_000);
    assert_eq!(ZOOM_MAX, 10_000_000);
    assert_eq!(ZOOM_DEFAULT_SENSITIVITY, 100_000);
}

#[test]
fn zoom_stays_within_limits_over_many_scrolls() {
    let mut camera = Camera::new(ViewportSize { width: 800, height: 600 });
    camera.update_cursor_position(Point::from_ints(123, 456));
    let amounts: [i64; 12] = [
        3_000_000,
        -7_500_000,
        40_000_000,
        40_000_000,
        40_000_000,
        -1,
        i64::MAX,
        i64::MIN,
        -250_000_000,
        1,
        99_000_000,
        -98_999_999,
    ];
    for round in 0..20 {
        for amount in amounts {
            camera.mouse_scroll(fixed(amount.wrapping_mul(round + 1)));
            let zoom = camera.zoom().raw;
            assert!(ZOOM_MIN <= zoom && zoom <= ZOOM_MAX);
        }
    }
}

#[test]
fn zoom_stays_within_limits_for_any_sensitivity() {
    let sensitivities: [i64; 6] = [0, 1, -1, 100_000, i64::MAX, i64::MIN];
    let amounts: [i64; 7] = [0, 1, -1, 1_000_000, -1_000_000, i64::MAX, i64::MIN];
    for sensitivity in sensitivities {
        let mut camera = Camera::new(ViewportSize { width: 800, height: 600 });
        camera.set_zoom_sensitivity(fixed(sensitivity));
        for amount in amounts {
            camera.mouse_scroll(fixed(amount));
            let zoom = camera.zoom().raw;
            assert!(ZOOM_MIN <= zoom && zoom <= ZOOM_MAX);
        }
    }
}

#[test]
fn scroll_holds_the_world_point_under_the_pointer() {
    let mut camera = Camera::new(ViewportSize { width: 800, height: 600 });
    let pointer = Point::from_ints(600, 150);
    camera.update_cursor_position(pointer);
    assert_eq!(camera.screen_to_world_position(pointer), Point::from_ints(200, 150));
    camera.mouse_scroll(Fixed::from_int(1));
    assert_eq!(camera.zoom(), fixed(1_100_000));
    assert_eq!(camera.screen_to_world_position(pointer), Point::from_ints(200, 150));
}

#[test]
fn scroll_holds_the_world_point_at_every_step() {
    let mut camera = Camera::new(ViewportSize { width: 1366, height: 768 });
    camera.set_position(point(-1_234_567, 7_654_321));
    let pointer = point(123_456_789, 456_789_012);
    camera.update_cursor_position(pointer);
    let amounts: [i64; 9] =
        [1_000_000, 1_000_000, -3_000_000, 333_333, -7_000_000, 50_000_000, -5, -45_000_000, 17];
    for amount in amounts {
        let zoom = camera.zoom();
        let before = camera.screen_to_world_position(pointer);
        camera.mouse_scroll(fixed(amount));
        assert_ne!(camera.zoom(), zoom);
        assert_eq!(camera.screen_to_world_position(pointer), before);
    }
}

#[test]
fn scroll_at_the_limit_of_the_range_lets_the_world_point_slip() {
    let mut camera = Camera::new(ViewportSize { width: 800, height: 600 });
    camera.set_position(point(i64::MAX, 0));
    let pointer = Point::from_ints(0, 300);
    camera.update_cursor_position(pointer);
    assert_eq!(camera.screen_to_world_position(pointer), point(i64::MAX - 400_000_000, 0));
    camera.mouse_scroll(Fixed::from_int(-1));
    assert_eq!(camera.zoom(), fixed(900_000));
    // The camera would have to move right, and cannot.
    assert_eq!(camera.position(), point(i64::MAX, 0));
    assert_eq!(camera.screen_to_world_position(pointer), point(i64::MAX - 444_444_444, 0));
}

#[test]
fn round_trip_at_the_limit_of_the_range_comes_back_short() {
    let mut camera = Camera::new(ViewportSize { width: 800, height: 600 });
    camera.set_position(point(i64::MAX, 0));
    let world = camera.screen_to_world_position(Point::from_ints(800, 300));
    assert_eq!(world, point(i64::MAX, 0));
    assert_eq!(camera.world_to_screen_position(world), Point::from_ints(400, 300));
}

#[test]
fn round_trip_is_exact_up_to_zoom_one() {
    let mut camera = Camera::new(ViewportSize { width: 800, height: 600 });
    let screen = point(123_456_789, 456_789_012);
    let world = camera.screen_to_world_position(screen);
    assert_eq!(world, point(-276_543_211, -156_789_012));
    assert_eq!(camera.world_to_screen_position(world), screen);

    camera.mouse_scroll(Fixed::from_int(-100));
    camera.set_position(point(3, 4));
    assert_eq!(camera.zoom(), fixed(100_000));
    let world = camera.screen_to_world_position(screen);
    assert_eq!(world, point(-2_765_432_107, -1_567_890_116));
    assert_eq!(camera.world_to_screen_position(world), screen);
}

#[test]
fn round_trip_is_within_five_millionths_above_zoom_one() {
    let mut camera = Camera::new(ViewportSize { width: 800, height: 600 });
    let screen = point(123_456_789, 456_789_012);
    camera.mouse_scroll(Fixed::from_int(100));
    camera.set_position(point(5_000_000, -7_000_000));
    assert_eq!(camera.zoom(), Fixed::from_int(10));
    let world = camera.screen_to_world_position(screen);
    assert_eq!(world, point(-22_654_321, -22_678_901));
    assert_eq!(camera.world_to_screen_position(world), point(123_456_790, 456_789_010));
}

#[test]
fn round_trip_over_the_viewport_at_several_zooms() {
    let mut camera = Camera::new(ViewportSize { width: 800, height: 600 });
    camera.set_position(point(-98_765_432, 12_345_678));
    camera.mouse_scroll(Fixed::from_int(-100));
    for _ in 0..34 {
        let exact = camera.zoom().raw <= 1_000_000;
        let mut x: i64 = 0;
        while x <= 800_000_000 {
            let mut y: i64 = 0;
            while y <= 600_000_000 {
                let screen = point(x, y);
                let back = camera.world_to_screen_position(camera.screen_to_world_position(screen));
                assert!((back.x.raw - x).abs() <= 5);
                assert!((back.y.raw - y).abs() <= 5);
                if exact {
                    assert_eq!(back, screen);
                }
                y += 54_545_455;
            }
            x += 61_538_461;
        }
        camera.mouse_scroll(fixed(2_999_999));
    }
    assert_eq!(camera.zoom(), Fixed::from_int(10));
}

#[test]
fn drag_at_zoom_one_moves_by_the_pixels_exactly() {
    let mut camera = Camera::new(ViewportSize { width: 800, height: 600 });
    camera.update_cursor_position(point(100_000_001, 99_999_999));
    camera.update_lmb_state(true);
    camera.update_cursor_position(point(-7, 13));
    assert_eq!(camera.position(), point(100_000_008, -99_999_986));
}

#[test]
fn drag_carries_the_world_point_under_the_pointer() {
    let mut camera = Camera::new(ViewportSize { width: 800, height: 600 });
    camera.set_position(point(-98_765_432, 12_345_678));
    camera.mouse_scroll(Fixed::from_int(-100));
    let from = point(100_300_000, 100_700_000);
    let to = point(80_100_001, 90_899_999);
    for _ in 0..34 {
        camera.update_lmb_state(false);
        camera.update_cursor_position(from);
        let grabbed = camera.screen_to_world_position(from);
        camera.update_lmb_state(true);
        camera.update_cursor_position(to);
        let carried = camera.screen_to_world_position(to);
        assert!((carried.x.raw - grabbed.x.raw).abs() <= 1);
        assert!((carried.y.raw - grabbed.y.raw).abs() <= 1);
        camera.mouse_scroll(fixed(2_999_999));
    }
    assert_eq!(camera.zoom(), Fixed::from_int(10));
}

#[test]
fn resize_leaves_position_and_zoom() {
    let mut camera = Camera::new(ViewportSize { width: 800, height: 600 });
    camera.set_position(point(1_500_000, -2_500_000));
    camera.mouse_scroll(Fixed::from_int(3));
    let position = camera.position();
    let zoom = camera.zoom();
    camera.set_viewport_size(ViewportSize { width: 1920, height: 1080 });
    assert_eq!(camera.position(), position);
    assert_eq!(camera.zoom(), zoom);
    assert_eq!(camera.viewport_size(), ViewportSize { width: 1920, height: 1080 });
}

#[test]
fn resize_scales_half_extents_with_the_size() {
    let mut camera = Camera::new(ViewportSize { width: 800, height: 600 });
    let small = camera.calculate_view_projection_matrix();
    camera.set_viewport_size(ViewportSize { width: 2400, height: 300 });
    let large = camera.calculate_view_projection_matrix();
    assert_eq!(large.right.raw, 3 * small.right.raw);
    assert_eq!(large.left.raw, 3 * small.left.raw);
    assert_eq!(2 * large.top.raw, small.top.raw);
    assert_eq!(2 * large.bottom.raw, small.bottom.raw);
    assert_eq!(large.right, Fixed::from_int(1200));
    assert_eq!(large.top, Fixed::from_int(150));
}

#[test]
fn resize_scales_half_extents_up_to_rounding() {
    let mut camera = Camera::new(ViewportSize { width: 7, height: 11 });
    camera.mouse_scroll(Fixed::from_int(-3));
    assert_eq!(camera.zoom(), fixed(700_000));
    let small = camera.calculate_view_projection_matrix();
    assert_eq!(small.right, Fixed::from_int(5));
    assert_eq!(small.top, fixed(7_857_143));
    camera.set_viewport_size(ViewportSize { width: 70, height: 1100 });
    let large = camera.calculate_view_projection_matrix();
    assert_eq!(large.right, Fixed::from_int(50));
    assert_eq!(large.top, fixed(785_714_286));
    // As 11 is to 1100, so are the half heights, up to half the sum of the sizes.
    let cross = large.top.raw * 11 - small.top.raw * 1100;
    assert!(2 * cross.abs() <= 11 + 1100);
}
