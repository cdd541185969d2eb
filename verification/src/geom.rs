//! Device-space geometry for the rasterizer core.
//!
//! Coordinates are held as exact 32-bit fixed-point scalars: an `i32` counts
//! `1 / SCALAR_ONE` of a device unit. All geometric computation on these
//! scalars is exact integer arithmetic (widened internally where products are
//! formed), so clipping and gradient normalization are free of rounding drift
//! by construction; where an intersection cannot be represented exactly it is
//! pinned back into the bracket of its source values.

use vstd::prelude::*;
use vstd::arithmetic::div_mod::lemma_div_is_ordered_by_denominator;

verus! {

/// One device unit, in fixed-point scalar steps.
pub const SCALAR_ONE: i32 = 65536;

/// Tolerance used by nearly-equal comparisons on fixed-point scalars
/// (`SCALAR_ONE / 4096`).
pub const SCALAR_NEARLY_TOLERANCE: i32 = 16;

/// `v` clamped into `[lo, hi]` (callers must pass `lo <= hi`).
pub open spec fn clamp_scalar(v: int, lo: int, hi: int) -> int {
    if v < lo {
        lo
    } else if v > hi {
        hi
    } else {
        v
    }
}

/// Whether two scalars differ by at most the nearly-equal tolerance.
pub open spec fn nearly_equal_scalar(a: int, b: int) -> bool {
    -(SCALAR_NEARLY_TOLERANCE as int) <= a - b <= SCALAR_NEARLY_TOLERANCE as int
}

/// Division that truncates toward zero, for a positive divisor.
pub open spec fn div_trunc(n: int, d: int) -> int {
    if n >= 0 {
        n / d
    } else {
        -((-n) / d)
    }
}

/// `n / d` truncating toward zero.
pub fn div_trunc_i64(n: i64, d: i64) -> (q: i64)
    requires
        0 < d,
        -0x4000_0000_0000_0000 < n < 0x4000_0000_0000_0000,
    ensures
        q == div_trunc(n as int, d as int),
        n >= 0 ==> 0 <= q <= n,
        n <= 0 ==> n <= q <= 0,
{
    if n >= 0 {
        let q: u64 = (n as u64) / (d as u64);
        proof {
            lemma_div_is_ordered_by_denominator(n as int, 1, d as int);
        }
        q as i64
    } else {
        let m: i64 = -n;
        let q: u64 = (m as u64) / (d as u64);
        proof {
            lemma_div_is_ordered_by_denominator(m as int, 1, d as int);
        }
        -(q as i64)
    }
}

/// `v` clamped into `[lo, hi]`.
pub fn bound_scalar(v: i32, lo: i32, hi: i32) -> (r: i32)
    requires
        lo <= hi,
    ensures
        r == clamp_scalar(v as int, lo as int, hi as int),
{
    if v < lo {
        lo
    } else if v > hi {
        hi
    } else {
        v
    }
}

/// Whether two scalars differ by at most the nearly-equal tolerance.
pub fn nearly_equal(a: i32, b: i32) -> (r: bool)
    ensures
        r == nearly_equal_scalar(a as int, b as int),
{
    let d: i64 = a as i64 - b as i64;
    -(SCALAR_NEARLY_TOLERANCE as i64) <= d && d <= SCALAR_NEARLY_TOLERANCE as i64
}

/// A point in device space, in fixed-point scalars.
#[derive(Clone, Copy, PartialEq, Eq, Structural, Debug)]
pub struct Point {
    pub x: i32,
    pub y: i32,
}

impl Point {
    /// Creates a point from its two coordinates.
    pub fn from_xy(x: i32, y: i32) -> (p: Point)
        ensures
            p.x == x,
            p.y == y,
    {
        Point { x, y }
    }

    /// The origin.
    pub fn zero() -> (p: Point)
        ensures
            p.x == 0,
            p.y == 0,
    {
        Point { x: 0, y: 0 }
    }
}

/// An axis-aligned rectangle in device space, in fixed-point scalars.
///
/// A rectangle is meaningful only when it is `valid`: left edge not to the
/// right of the right edge, top edge not below the bottom edge.
#[derive(Clone, Copy, PartialEq, Eq, Structural, Debug)]
pub struct Rect {
    pub left: i32,
    pub top: i32,
    pub right: i32,
    pub bottom: i32,
}

impl Rect {
    /// Whether the edges are ordered.
    pub open spec fn is_valid(&self) -> bool {
        self.left <= self.right && self.top <= self.bottom
    }

    /// Creates a rectangle from its four edges; `None` when they are not
    /// ordered.
    pub fn from_ltrb(left: i32, top: i32, right: i32, bottom: i32) -> (r: Option<Rect>)
        ensures
            r is Some <==> left <= right && top <= bottom,
            r is Some ==> r->Some_0 == (Rect { left, top, right, bottom }),
            r is Some ==> r->Some_0.is_valid(),
    {
        if left <= right && top <= bottom {
            Some(Rect { left, top, right, bottom })
        } else {
            None
        }
    }

    /// Left edge.
    pub fn left(&self) -> (v: i32)
        ensures
            v == self.left,
    {
        self.left
    }

    /// Top edge.
    pub fn top(&self) -> (v: i32)
        ensures
            v == self.top,
    {
        self.top
    }

    /// Right edge.
    pub fn right(&self) -> (v: i32)
        ensures
            v == self.right,
    {
        self.right
    }

    /// Bottom edge.
    pub fn bottom(&self) -> (v: i32)
        ensures
            v == self.bottom,
    {
        self.bottom
    }
}

} // verus!
