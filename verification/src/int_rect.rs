//! Integer rectangles and positive lengths for pixel buffers.
//!
//! These are the whole-pixel counterparts of the fixed-point geometry in
//! [`crate::geom`]: a guaranteed-positive length, a signed integer rectangle
//! whose corners stay representable, and an unsigned screen rectangle.

use vstd::prelude::*;

verus! {

/// A `u32` that is guaranteed to be greater than zero.
#[derive(Clone, Copy, PartialEq, Eq, Structural, Debug)]
pub struct LengthU32 {
    n: u32,
}

impl LengthU32 {
    /// The wrapped value.
    pub closed spec fn value(&self) -> u32 {
        self.n
    }

    /// Whether the guarantee holds.
    pub open spec fn is_valid(&self) -> bool {
        self.value() > 0
    }

    /// Creates a positive length; `None` when `n` is zero.
    pub fn new(n: u32) -> (r: Option<LengthU32>)
        ensures
            r is Some <==> n > 0,
            r is Some ==> r->Some_0.value() == n && r->Some_0.is_valid(),
    {
        if n > 0 {
            Some(LengthU32 { n })
        } else {
            None
        }
    }

    /// Returns the wrapped value.
    pub fn get(&self) -> (r: u32)
        ensures
            r == self.value(),
    {
        self.n
    }
}

/// An integer rectangle at a signed position, with positive extents whose
/// far corner still fits the signed range.
#[derive(Clone, Copy, PartialEq, Eq, Structural, Debug)]
pub struct IntRect {
    x: i32,
    y: i32,
    width: u32,
    height: u32,
}

impl IntRect {
    /// Whether the extents are positive and the far corner representable.
    pub open spec fn is_valid(&self) -> bool {
        self.parts().2 > 0 && self.parts().3 > 0 && self.parts().0 + self.parts().2 <= i32::MAX
            && self.parts().1 + self.parts().3 <= i32::MAX
    }

    /// The rectangle's fields as a tuple `(x, y, width, height)`.
    pub closed spec fn parts(&self) -> (i32, i32, u32, u32) {
        (self.x, self.y, self.width, self.height)
    }

    /// Creates a rectangle; `None` when an extent is zero or the far corner
    /// would leave the signed range.
    pub fn from_xywh(x: i32, y: i32, width: u32, height: u32) -> (r: Option<IntRect>)
        ensures
            r is Some <==> width > 0 && height > 0 && x + width <= i32::MAX && y + height
                <= i32::MAX,
            r is Some ==> r->Some_0.parts() == (x, y, width, height),
            r is Some ==> r->Some_0.is_valid(),
    {
        if width > 0 && height > 0 && (width as i64) + (x as i64) <= i32::MAX as i64 && (
        height as i64) + (y as i64) <= i32::MAX as i64 {
            Some(IntRect { x, y, width, height })
        } else {
            None
        }
    }

    /// Left edge.
    pub fn x(&self) -> (r: i32)
        ensures
            r == self.parts().0,
    {
        self.x
    }

    /// Top edge.
    pub fn y(&self) -> (r: i32)
        ensures
            r == self.parts().1,
    {
        self.y
    }

    /// Horizontal extent.
    pub fn width(&self) -> (r: u32)
        ensures
            r == self.parts().2,
    {
        self.width
    }

    /// Vertical extent.
    pub fn height(&self) -> (r: u32)
        ensures
            r == self.parts().3,
    {
        self.height
    }
}

/// A screen rectangle: unsigned position with positive extents.
#[derive(Clone, Copy, PartialEq, Eq, Structural, Debug)]
pub struct ScreenIntRect {
    x: u32,
    y: u32,
    width: LengthU32,
    height: LengthU32,
}

impl ScreenIntRect {
    /// Whether the extents are positive.
    pub open spec fn is_valid(&self) -> bool {
        self.parts().2 > 0 && self.parts().3 > 0
    }

    /// The rectangle's fields as a tuple `(x, y, width, height)`.
    pub closed spec fn parts(&self) -> (u32, u32, u32, u32) {
        (self.x, self.y, self.width.value(), self.height.value())
    }

    /// Creates a screen rectangle; `None` when an extent is zero.
    pub fn from_xywh(x: u32, y: u32, width: u32, height: u32) -> (r: Option<ScreenIntRect>)
        ensures
            r is Some <==> width > 0 && height > 0,
            r is Some ==> r->Some_0.parts() == (x, y, width, height),
            r is Some ==> r->Some_0.is_valid(),
    {
        let w = LengthU32::new(width);
        let h = LengthU32::new(height);
        match (w, h) {
            (Some(width), Some(height)) => Some(ScreenIntRect { x, y, width, height }),
            _ => None,
        }
    }

    /// Creates a screen rectangle from lengths that are already positive.
    pub fn from_xywh_safe(x: u32, y: u32, width: LengthU32, height: LengthU32) -> (r:
        ScreenIntRect)
        ensures
            r.parts() == (x, y, width.value(), height.value()),
            width.is_valid() && height.is_valid() ==> r.is_valid(),
    {
        ScreenIntRect { x, y, width, height }
    }

    /// Left edge.
    pub fn x(&self) -> (r: u32)
        ensures
            r == self.parts().0,
    {
        self.x
    }

    /// Top edge.
    pub fn y(&self) -> (r: u32)
        ensures
            r == self.parts().1,
    {
        self.y
    }

    /// Horizontal extent.
    pub fn width(&self) -> (r: u32)
        ensures
            r == self.parts().2,
    {
        self.width.get()
    }

    /// Vertical extent.
    pub fn height(&self) -> (r: u32)
        ensures
            r == self.parts().3,
    {
        self.height.get()
    }
}

} // verus!
