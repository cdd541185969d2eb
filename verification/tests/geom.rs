use tiny_skia::geom::{bound_scalar, div_trunc_i64, nearly_equal, Point, Rect, SCALAR_ONE};

#[test]
fn rect_rejects_unordered_edges() {
    assert!(Rect::from_ltrb(10, 0, 0, 10).is_none());
    assert!(Rect::from_ltrb(0, 10, 10, 0).is_none());
    let r = Rect::from_ltrb(-5, -6, 7, 8).unwrap();
    assert_eq!((r.left(), r.top(), r.right(), r.bottom()), (-5, -6, 7, 8));
}

#[test]
fn point_carries_its_coordinates() {
    let p = Point::from_xy(3, -4);
    assert_eq!((p.x, p.y), (3, -4));
    assert_eq!(Point::zero(), Point::from_xy(0, 0));
}

#[test]
fn bound_clamps_into_the_interval() {
    assert_eq!(bound_scalar(-3, 0, 10), 0);
    assert_eq!(bound_scalar(15, 0, 10), 10);
    assert_eq!(bound_scalar(4, 0, 10), 4);
}

#[test]
fn nearly_equal_uses_the_fixed_tolerance() {
    assert!(nearly_equal(100, 100));
    assert!(nearly_equal(100, 116));
    assert!(nearly_equal(116, 100));
    assert!(!nearly_equal(100, 117));
    assert!(nearly_equal(SCALAR_ONE, SCALAR_ONE - 16));
}

#[test]
fn division_truncates_toward_zero() {
    assert_eq!(div_trunc_i64(7, 2), 3);
    assert_eq!(div_trunc_i64(-7, 2), -3);
    assert_eq!(div_trunc_i64(6, 3), 2);
    assert_eq!(div_trunc_i64(-6, 3), -2);
    assert_eq!(div_trunc_i64(0, 5), 0);
}
