use tiny_skia::int_rect::{IntRect, LengthU32, ScreenIntRect};
use tiny_skia::int_size::IntSize;

#[test]
fn tests() {
    assert_eq!(IntSize::from_wh(0, 0), None);
    assert_eq!(IntSize::from_wh(1, 0), None);
    assert_eq!(IntSize::from_wh(0, 1), None);

    let size = IntSize::from_wh(3, 4).unwrap();
    assert_eq!(size.to_int_rect(1, 2), IntRect::from_xywh(1, 2, 3, 4).unwrap());
    assert_eq!(size.to_screen_int_rect(1, 2), ScreenIntRect::from_xywh(1, 2, 3, 4).unwrap());
}

#[test]
fn accessors_report_the_construction_values() {
    let size = IntSize::from_wh(7, 9).unwrap();
    assert_eq!(size.width(), 7);
    assert_eq!(size.height(), 9);
    assert_eq!(size.dimensions(), (7, 9));
    assert_eq!(size.width_safe().get(), 7);
    assert_eq!(size.height_safe().get(), 9);
}

#[test]
fn from_wh_safe_keeps_the_lengths() {
    let w = LengthU32::new(11).unwrap();
    let h = LengthU32::new(13).unwrap();
    let size = IntSize::from_wh_safe(w, h);
    assert_eq!(size.dimensions(), (11, 13));
}

#[test]
fn length_rejects_zero() {
    assert!(LengthU32::new(0).is_none());
    assert_eq!(LengthU32::new(5).unwrap().get(), 5);
}

#[test]
fn int_rect_rejects_degenerate_and_overflowing_extents() {
    assert!(IntRect::from_xywh(0, 0, 0, 1).is_none());
    assert!(IntRect::from_xywh(0, 0, 1, 0).is_none());
    assert!(IntRect::from_xywh(i32::MAX, 0, 2, 2).is_none());
    assert!(IntRect::from_xywh(0, i32::MAX, 2, 2).is_none());
    let r = IntRect::from_xywh(-3, 4, 10, 20).unwrap();
    assert_eq!((r.x(), r.y(), r.width(), r.height()), (-3, 4, 10, 20));
}

#[test]
fn screen_int_rect_rejects_empty_extents() {
    assert!(ScreenIntRect::from_xywh(0, 0, 0, 1).is_none());
    assert!(ScreenIntRect::from_xywh(0, 0, 1, 0).is_none());
    let r = ScreenIntRect::from_xywh(1, 2, 3, 4).unwrap();
    assert_eq!((r.x(), r.y(), r.width(), r.height()), (1, 2, 3, 4));
}
