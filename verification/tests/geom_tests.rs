use endless_trial::geom::{clamp, mul_mil, scale, Bounds, Rect, Vec2i, ARENA_SIDE};

#[test]
fn bounds_contain_interior_and_edges() {
    let b = Bounds::arena();
    assert!(b.contains(Vec2i::new(0, 0)));
    assert!(b.contains(Vec2i::new(ARENA_SIDE, ARENA_SIDE)));
    assert!(b.contains(Vec2i::new(400_000, 123_456)));
}

#[test]
fn bounds_reject_outside_points() {
    let b = Bounds::arena();
    assert!(!b.contains(Vec2i::new(-1, 0)));
    assert!(!b.contains(Vec2i::new(0, -1)));
    assert!(!b.contains(Vec2i::new(ARENA_SIDE + 1, 0)));
    assert!(!b.contains(Vec2i::new(0, ARENA_SIDE + 1)));
}

#[test]
fn rectangles_overlap_when_ranges_overlap_on_both_axes() {
    let a = Rect::new(0, 0, 16_000, 16_000);
    let b = Rect::new(15_999, 15_999, 16_000, 16_000);
    assert!(a.intersects(&b));
    assert!(b.intersects(&a));
}

#[test]
fn touching_rectangles_do_not_overlap() {
    let a = Rect::new(0, 0, 16_000, 16_000);
    let b = Rect::new(16_000, 0, 16_000, 16_000);
    assert!(!a.intersects(&b));
    let c = Rect::new(0, 16_000, 16_000, 16_000);
    assert!(!a.intersects(&c));
}

#[test]
fn disjoint_on_one_axis_means_no_overlap() {
    let a = Rect::new(0, 0, 16_000, 16_000);
    let b = Rect::new(8_000, 40_000, 16_000, 16_000);
    assert!(!a.intersects(&b));
}

#[test]
fn scaling_truncates_toward_zero_for_both_signs() {
    assert_eq!(scale(1000, 1000, 1400), 714);
    assert_eq!(scale(-1000, 1000, 1400), -714);
    assert_eq!(scale(1000, 1000, 1900), 526);
    assert_eq!(scale(7, 1000, 1000), 7);
    assert_eq!(scale(0, 123, 7), 0);
}

#[test]
fn fixed_point_product_keeps_the_scale() {
    assert_eq!(mul_mil(1000, 5500), 5500);
    assert_eq!(mul_mil(-1000, 5500), -5500);
    assert_eq!(mul_mil(707, 1000), 707);
    assert_eq!(mul_mil(500, 500), 250);
    assert_eq!(mul_mil(-500, -500), 250);
}

#[test]
fn clamping_pins_to_the_limits() {
    assert_eq!(clamp(5, 10), 5);
    assert_eq!(clamp(15, 10), 10);
    assert_eq!(clamp(-15, 10), -10);
}
