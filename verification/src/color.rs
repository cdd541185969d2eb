//! Normalized colors in fixed point.
//!
//! Each channel is a fixed-point scalar in `[0, SCALAR_ONE]`; `SCALAR_ONE`
//! stands for a fully saturated channel, so an opaque color has alpha exactly
//! `SCALAR_ONE`.

use vstd::prelude::*;

use crate::geom::SCALAR_ONE;

verus! {

/// An RGBA color with normalized fixed-point channels.
#[derive(Clone, Copy, PartialEq, Eq, Structural, Debug)]
pub struct Color {
    pub r: i32,
    pub g: i32,
    pub b: i32,
    pub a: i32,
}

impl Color {
    /// Whether every channel lies in the normalized range.
    pub open spec fn is_valid(&self) -> bool {
        0 <= self.r <= SCALAR_ONE && 0 <= self.g <= SCALAR_ONE && 0 <= self.b <= SCALAR_ONE && 0
            <= self.a <= SCALAR_ONE
    }

    /// Whether the color is fully opaque.
    pub open spec fn is_opaque_spec(&self) -> bool {
        self.a == SCALAR_ONE
    }

    /// Creates a color from its four channels; `None` when a channel falls
    /// outside the normalized range.
    pub fn from_rgba(r: i32, g: i32, b: i32, a: i32) -> (c: Option<Color>)
        ensures
            c is Some <==> (Color { r, g, b, a }).is_valid(),
            c is Some ==> c->Some_0 == (Color { r, g, b, a }),
    {
        if 0 <= r && r <= SCALAR_ONE && 0 <= g && g <= SCALAR_ONE && 0 <= b && b <= SCALAR_ONE && 0
            <= a && a <= SCALAR_ONE {
            Some(Color { r, g, b, a })
        } else {
            None
        }
    }

    /// Whether the color is fully opaque.
    pub fn is_opaque(&self) -> (r: bool)
        ensures
            r == self.is_opaque_spec(),
    {
        self.a == SCALAR_ONE
    }
}

} // verus!
