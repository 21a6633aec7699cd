use window_placer::position::{BOTTOM_EDGE_PERCENT, RIGHT_EDGE_PERCENT};
use window_placer::{compute_position, TargetPosition, WidgetSize, WIDGET_HEIGHT, WIDGET_WIDTH};

fn float_x(screen_width: u32, widget_width: u32) -> i32 {
    ((screen_width as f64 * 0.95) - widget_width as f64) as i32
}

fn float_y(screen_height: u32, widget_height: u32) -> i32 {
    ((screen_height as f64 * 0.80) - widget_height as f64) as i32
}

#[test]
fn full_hd_screen_places_widget_at_1424_464() {
    assert_eq!(
        compute_position(1920, 1080, 400, 400),
        TargetPosition { x: 1424, y: 464 }
    );
}

#[test]
fn screen_as_wide_as_the_widget_gives_minus_twenty() {
    assert_eq!(compute_position(400, 1080, 400, 400).x, -20);
}

#[test]
fn screen_as_tall_as_the_widget_gives_minus_eighty() {
    assert_eq!(compute_position(1920, 400, 400, 400).y, -80);
}

#[test]
fn negative_coordinates_are_not_clamped_to_zero() {
    let position = compute_position(100, 100, 400, 400);
    assert_eq!(position, TargetPosition { x: -305, y: -320 });
}

#[test]
fn degenerate_screen_is_accepted() {
    assert_eq!(
        compute_position(0, 0, 400, 400),
        TargetPosition { x: -400, y: -400 }
    );
}

#[test]
fn fractions_are_cut_toward_zero_when_positive() {
    // 1366 * 0.95 = 1297.7, 768 * 0.80 = 614.4
    assert_eq!(
        compute_position(1366, 768, 400, 400),
        TargetPosition { x: 897, y: 214 }
    );
    // 421 * 0.95 = 399.95, 501 * 0.80 = 400.8
    assert_eq!(
        compute_position(421, 501, 400, 400),
        TargetPosition { x: 0, y: 0 }
    );
    // 423 * 0.95 = 401.85, 503 * 0.80 = 402.4
    assert_eq!(
        compute_position(423, 503, 400, 400),
        TargetPosition { x: 1, y: 2 }
    );
}

#[test]
fn fractions_are_cut_toward_zero_when_negative() {
    // 1 * 0.95 - 400 = -399.05, 1 * 0.80 - 400 = -399.2
    assert_eq!(
        compute_position(1, 1, 400, 400),
        TargetPosition { x: -399, y: -399 }
    );
    // 419 * 0.95 - 400 = -1.95, 499 * 0.80 - 400 = -0.8
    assert_eq!(
        compute_position(419, 499, 400, 400),
        TargetPosition { x: -1, y: 0 }
    );
}

#[test]
fn exact_multiples_lose_nothing() {
    // 2000 * 0.95 = 1900, 1000 * 0.80 = 800
    assert_eq!(
        compute_position(2000, 1000, 400, 400),
        TargetPosition { x: 1500, y: 400 }
    );
    assert_eq!(
        compute_position(3840, 2160, 400, 400),
        TargetPosition { x: 3248, y: 1328 }
    );
}

#[test]
fn widget_size_is_subtracted_as_given() {
    assert_eq!(
        compute_position(1920, 1080, 0, 0),
        TargetPosition { x: 1824, y: 864 }
    );
    assert_eq!(
        compute_position(1920, 1080, 300, 200),
        TargetPosition { x: 1524, y: 664 }
    );
}

#[test]
fn huge_screen_saturates_at_i32_max() {
    assert_eq!(
        compute_position(u32::MAX, u32::MAX, 400, 400),
        TargetPosition { x: i32::MAX, y: i32::MAX }
    );
}

#[test]
fn huge_widget_saturates_at_i32_min() {
    assert_eq!(
        compute_position(0, 0, u32::MAX, u32::MAX),
        TargetPosition { x: i32::MIN, y: i32::MIN }
    );
    assert_eq!(compute_position(0, 0, 2147483648, 2147483649).x, i32::MIN);
    assert_eq!(compute_position(0, 0, 2147483648, 2147483649).y, i32::MIN);
    assert_eq!(compute_position(0, 0, 2147483647, 2147483647).x, -2147483647);
}

#[test]
fn last_width_before_saturation() {
    // (2260509524 * 95 - 40000) / 100 = 2147483647.8
    assert_eq!(compute_position(2260509524, 0, 400, 400).x, i32::MAX);
    // (2260509523 * 95 - 40000) / 100 = 2147483646.85
    assert_eq!(compute_position(2260509523, 0, 400, 400).x, 2147483646);
}

#[test]
fn same_inputs_give_same_output() {
    let first = compute_position(2560, 1440, 400, 400);
    let second = compute_position(2560, 1440, 400, 400);
    assert_eq!(first, second);
    assert_eq!(first, TargetPosition { x: 2032, y: 752 });
}

#[test]
fn agrees_with_the_formula_in_floating_point_on_small_screens() {
    for extent in 0u32..=20_000 {
        let position = compute_position(extent, extent, 400, 400);
        assert_eq!(position.x, float_x(extent, 400), "width {}", extent);
        assert_eq!(position.y, float_y(extent, 400), "height {}", extent);
    }
}

#[test]
fn agrees_with_the_formula_in_floating_point_across_the_range() {
    let mut extent: u64 = 0;
    while extent <= u32::MAX as u64 {
        for nudge in 0u64..41 {
            let e = (extent + nudge).min(u32::MAX as u64) as u32;
            let position = compute_position(e, e, 400, 400);
            assert_eq!(position.x, float_x(e, 400), "width {}", e);
            assert_eq!(position.y, float_y(e, 400), "height {}", e);
        }
        extent += 9_999_991;
    }
    let position = compute_position(u32::MAX, u32::MAX, 400, 400);
    assert_eq!(position.x, float_x(u32::MAX, 400));
    assert_eq!(position.y, float_y(u32::MAX, 400));
}

#[test]
fn agrees_with_the_formula_in_floating_point_for_other_widgets() {
    let widgets = [0u32, 1, 19, 20, 399, 400, 401, 65_535, 2_147_483_647, 2_147_483_648, u32::MAX];
    let screens = [
        0u32, 1, 5, 19, 20, 21, 400, 421, 500, 1366, 1920, 2_147_483_647, 2_147_483_648,
        2_260_509_523, 2_260_509_524, 4_294_967_280, u32::MAX,
    ];
    for &widget in widgets.iter() {
        for &screen in screens.iter() {
            let position = compute_position(screen, screen, widget, widget);
            assert_eq!(position.x, float_x(screen, widget), "{} {}", screen, widget);
            assert_eq!(position.y, float_y(screen, widget), "{} {}", screen, widget);
        }
    }
}

#[test]
fn placement_constants() {
    assert_eq!(RIGHT_EDGE_PERCENT, 95);
    assert_eq!(BOTTOM_EDGE_PERCENT, 80);
    assert_eq!(WIDGET_WIDTH, 400);
    assert_eq!(WIDGET_HEIGHT, 400);
    assert_eq!(WidgetSize::fixed(), WidgetSize { width: 400, height: 400 });
}
