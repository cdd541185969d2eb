use tiny_skia::geom::{Point, Rect};
use tiny_skia::line_clipper::clip;

fn rect_0_0_100_100() -> Rect {
    Rect::from_ltrb(0, 0, 100, 100).unwrap()
}

#[test]
fn segment_fully_above_is_clipped_out() {
    let r = rect_0_0_100_100();
    let src = [Point::from_xy(10, -50), Point::from_xy(20, -10)];
    assert!(clip(&src, &r, false).is_empty());
    // Touching the top edge from above still counts as above.
    let src = [Point::from_xy(10, -50), Point::from_xy(20, 0)];
    assert!(clip(&src, &r, false).is_empty());
}

#[test]
fn segment_fully_below_is_clipped_out() {
    let r = rect_0_0_100_100();
    let src = [Point::from_xy(10, 100), Point::from_xy(20, 200)];
    assert!(clip(&src, &r, false).is_empty());
}

#[test]
fn interior_segment_passes_through_unchanged() {
    let r = rect_0_0_100_100();
    let src = [Point::from_xy(10, 20), Point::from_xy(60, 70)];
    let pts = clip(&src, &r, false);
    assert_eq!(pts.len(), 2);
    assert_eq!(pts[0], Point::from_xy(10, 20));
    assert_eq!(pts[1], Point::from_xy(60, 70));
}

#[test]
fn left_overhang_becomes_edge_run_plus_interior() {
    let r = rect_0_0_100_100();
    // From (-50, 10) to (50, 90): crosses the left edge at y = 50.
    let src = [Point::from_xy(-50, 10), Point::from_xy(50, 90)];
    let pts = clip(&src, &r, false);
    assert_eq!(pts.len(), 3);
    assert_eq!(pts[0], Point::from_xy(0, 10));
    assert_eq!(pts[1], Point::from_xy(0, 50));
    assert_eq!(pts[2], Point::from_xy(50, 90));
}

#[test]
fn wholly_left_collapses_to_left_edge() {
    let r = rect_0_0_100_100();
    let src = [Point::from_xy(-30, 10), Point::from_xy(-10, 60)];
    let pts = clip(&src, &r, false);
    assert_eq!(pts.len(), 2);
    assert_eq!(pts[0], Point::from_xy(0, 10));
    assert_eq!(pts[1], Point::from_xy(0, 60));
}

#[test]
fn wholly_right_is_culled_only_on_request() {
    let r = rect_0_0_100_100();
    let src = [Point::from_xy(150, 10), Point::from_xy(120, 80)];
    assert!(clip(&src, &r, true).is_empty());
    let pts = clip(&src, &r, false);
    assert_eq!(pts.len(), 2);
    // Collapsed onto the right edge, in source order: winding survives.
    assert_eq!(pts[0], Point::from_xy(100, 10));
    assert_eq!(pts[1], Point::from_xy(100, 80));
}

#[test]
fn y_chop_computes_the_top_intersection() {
    let r = rect_0_0_100_100();
    let src = [Point::from_xy(0, -100), Point::from_xy(100, 100)];
    let pts = clip(&src, &r, false);
    assert_eq!(pts.len(), 2);
    assert_eq!(pts[0], Point::from_xy(50, 0));
    assert_eq!(pts[1], Point::from_xy(100, 100));
}

#[test]
fn winding_direction_follows_the_source_segment() {
    let r = rect_0_0_100_100();
    // Runs right-to-left and top-to-bottom; output must keep that direction.
    let src = [Point::from_xy(150, -20), Point::from_xy(-50, 120)];
    let pts = clip(&src, &r, false);
    assert!(pts.len() >= 2);
    assert_eq!(pts[0].y, 0);
    assert_eq!(pts[pts.len() - 1].y, 100);
    for w in pts.windows(2) {
        assert!(w[0].y <= w[1].y);
        assert!(w[0].x >= w[1].x);
    }
    // And the reversed source keeps the reversed direction.
    let src = [Point::from_xy(-50, 120), Point::from_xy(150, -20)];
    let pts = clip(&src, &r, false);
    assert!(pts.len() >= 2);
    assert_eq!(pts[0].y, 100);
    assert_eq!(pts[pts.len() - 1].y, 0);
}

#[test]
fn every_output_coordinate_lies_within_the_rectangle() {
    let r = Rect::from_ltrb(-20, -30, 40, 50).unwrap();
    let segments = [
        [Point::from_xy(-100, -100), Point::from_xy(100, 100)],
        [Point::from_xy(100, -100), Point::from_xy(-100, 100)],
        [Point::from_xy(-25, -100), Point::from_xy(45, 100)],
        [Point::from_xy(0, -29), Point::from_xy(1000, 49)],
        [Point::from_xy(-21, 0), Point::from_xy(41, 1)],
    ];
    for src in segments.iter() {
        let pts = clip(src, &r, false);
        for p in pts.iter() {
            assert!(-20 <= p.x && p.x <= 40);
            assert!(-30 <= p.y && p.y <= 50);
        }
    }
}
