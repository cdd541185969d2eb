//! An integer size with non-zero width and height.

use vstd::prelude::*;

use crate::int_rect::{IntRect, LengthU32, ScreenIntRect};

verus! {

/// An integer size.
///
/// Width and height are positive and non-zero.
#[derive(Clone, Copy, PartialEq, Eq, Structural, Debug)]
pub struct IntSize {
    width: LengthU32,
    height: LengthU32,
}

impl IntSize {
    /// The width as a plain integer.
    pub closed spec fn width_spec(&self) -> u32 {
        self.width.value()
    }

    /// The height as a plain integer.
    pub closed spec fn height_spec(&self) -> u32 {
        self.height.value()
    }

    /// Whether both extents are non-zero.
    pub open spec fn is_valid(&self) -> bool {
        self.width_spec() > 0 && self.height_spec() > 0
    }

    /// Creates a new `IntSize` from width and height; `None` when either is
    /// zero.
    pub fn from_wh(width: u32, height: u32) -> (r: Option<IntSize>)
        ensures
            r is Some <==> width > 0 && height > 0,
            r is Some ==> r->Some_0.width_spec() == width && r->Some_0.height_spec() == height,
            r is Some ==> r->Some_0.is_valid(),
    {
        match (LengthU32::new(width), LengthU32::new(height)) {
            (Some(width), Some(height)) => Some(IntSize { width, height }),
            _ => None,
        }
    }

    /// Creates a new `IntSize` from already validated width and height.
    pub fn from_wh_safe(width: LengthU32, height: LengthU32) -> (r: IntSize)
        ensures
            r.width_spec() == width.value(),
            r.height_spec() == height.value(),
            width.is_valid() && height.is_valid() ==> r.is_valid(),
    {
        IntSize { width, height }
    }

    /// Returns width.
    pub fn width(&self) -> (r: u32)
        ensures
            r == self.width_spec(),
    {
        self.width.get()
    }

    /// Returns height.
    pub fn height(&self) -> (r: u32)
        ensures
            r == self.height_spec(),
    {
        self.height.get()
    }

    /// Returns width as a checked length.
    pub fn width_safe(&self) -> (r: LengthU32)
        ensures
            r.value() == self.width_spec(),
            self.is_valid() ==> r.is_valid(),
    {
        self.width
    }

    /// Returns height as a checked length.
    pub fn height_safe(&self) -> (r: LengthU32)
        ensures
            r.value() == self.height_spec(),
            self.is_valid() ==> r.is_valid(),
    {
        self.height
    }

    /// Returns width and height as a tuple.
    pub fn dimensions(&self) -> (r: (u32, u32))
        ensures
            r.0 == self.width_spec(),
            r.1 == self.height_spec(),
    {
        (self.width(), self.height())
    }

    /// Converts the current size into an `IntRect` at the provided position.
    ///
    /// The far corner must stay representable, else the conversion has no
    /// meaningful rectangle to hand back.
    pub fn to_int_rect(&self, x: i32, y: i32) -> (r: IntRect)
        requires
            self.is_valid(),
            x + self.width_spec() <= i32::MAX,
            y + self.height_spec() <= i32::MAX,
        ensures
            r.parts() == (x, y, self.width_spec(), self.height_spec()),
            r.is_valid(),
    {
        IntRect::from_xywh(x, y, self.width.get(), self.height.get()).unwrap()
    }

    /// Converts the current size into a `ScreenIntRect` at the provided
    /// position.
    pub fn to_screen_int_rect(&self, x: u32, y: u32) -> (r: ScreenIntRect)
        ensures
            r.parts() == (x, y, self.width_spec(), self.height_spec()),
            self.is_valid() ==> r.is_valid(),
    {
        ScreenIntRect::from_xywh_safe(x, y, self.width, self.height)
    }
}

} // verus!
