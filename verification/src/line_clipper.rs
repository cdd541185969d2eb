//! Clips a single line segment against an axis-aligned rectangle.
//!
//! Segments wholly above or below the rectangle vanish; portions hanging out
//! to the left or right collapse into vertical runs pinned to the matching
//! edge, so the segment's winding contribution survives without spurious
//! horizontal movement. Intersections are computed with widened integer
//! arithmetic and then pinned back into the bracket of the source
//! coordinates, so no emitted coordinate can drift outside its endpoints.

use vstd::prelude::*;
use vstd::arithmetic::div_mod::{lemma_div_is_ordered, lemma_div_multiples_vanish};

use crate::geom::{clamp_scalar, Point, Rect};

verus! {

/// The most points one clipped segment can produce (up to three connected
/// sub-segments).
pub const MAX_POINTS: usize = 4;

/// Whether `value` lies between the two limits, whichever order they come in.
pub open spec fn is_between_unsorted(value: int, limit0: int, limit1: int) -> bool {
    if limit0 < limit1 {
        limit0 <= value <= limit1
    } else {
        limit1 <= value <= limit0
    }
}

/// `value` pinned between the two limits, whichever order they come in.
pub open spec fn pin_unsorted(value: int, limit0: int, limit1: int) -> int {
    if limit1 < limit0 {
        clamp_scalar(value, limit1, limit0)
    } else {
        clamp_scalar(value, limit0, limit1)
    }
}

/// The smaller y of a segment's endpoints.
pub open spec fn seg_min_y(p0: Point, p1: Point) -> int {
    if p0.y <= p1.y {
        p0.y as int
    } else {
        p1.y as int
    }
}

/// The larger y of a segment's endpoints.
pub open spec fn seg_max_y(p0: Point, p1: Point) -> int {
    if p0.y <= p1.y {
        p1.y as int
    } else {
        p0.y as int
    }
}

/// The larger x of a segment's endpoints.
pub open spec fn seg_max_x(p0: Point, p1: Point) -> int {
    if p0.x <= p1.x {
        p1.x as int
    } else {
        p0.x as int
    }
}

/// Whether the segment lies entirely on or above the rectangle's top edge.
pub open spec fn seg_fully_above(p0: Point, p1: Point, r: Rect) -> bool {
    seg_max_y(p0, p1) <= r.top as int
}

/// Whether the segment lies entirely on or below the rectangle's bottom edge.
pub open spec fn seg_fully_below(p0: Point, p1: Point, r: Rect) -> bool {
    seg_min_y(p0, p1) >= r.bottom as int
}

/// Whether the point lies inside the rectangle, edges included.
pub open spec fn point_in_rect(p: Point, r: Rect) -> bool {
    r.left as int <= p.x as int <= r.right as int
        && r.top as int <= p.y as int <= r.bottom as int
}

fn pin_unsorted_i32(value: i32, limit0: i32, limit1: i32) -> (r: i32)
    ensures
        r == pin_unsorted(value as int, limit0 as int, limit1 as int),
{
    let (lo, hi) = if limit1 < limit0 {
        (limit1, limit0)
    } else {
        (limit0, limit1)
    };
    if value < lo {
        lo
    } else if value > hi {
        hi
    } else {
        value
    }
}

fn pin_unsorted_i64(value: i64, limit0: i64, limit1: i64) -> (r: i64)
    ensures
        r == pin_unsorted(value as int, limit0 as int, limit1 as int),
{
    let (lo, hi) = if limit1 < limit0 {
        (limit1, limit0)
    } else {
        (limit0, limit1)
    };
    if value < lo {
        lo
    } else if value > hi {
        hi
    } else {
        value
    }
}

/// The midpoint of two scalars, used when a segment is too flat for a
/// well-conditioned intersection (the averaging fallback of the numeric
/// policy).
fn ave(a: i32, b: i32) -> (r: i32)
    ensures
        is_between_unsorted(r as int, a as int, b as int),
{
    let (lo, hi) = if a <= b {
        (a, b)
    } else {
        (b, a)
    };
    let d: u64 = (hi as i64 - lo as i64) as u64;
    let half: u64 = d / 2;
    assert(half <= d);
    (lo as i64 + half as i64) as i32
}

/// `t * rise / run` where `t <= run`, so the result never exceeds `rise`.
fn scaled_offset(t: u64, rise: u64, run: u64) -> (q: u64)
    requires
        0 < run,
        t <= run,
        rise <= 0xffff_ffff,
        run <= 0xffff_ffff,
    ensures
        q <= rise,
{
    proof {
        assert(t * rise <= run * rise) by (nonlinear_arith)
            requires
                t <= run,
                0 <= rise,
        ;
        assert(run * rise <= 0xffff_ffff * 0xffff_ffff) by (nonlinear_arith)
            requires
                run <= 0xffff_ffff,
                rise <= 0xffff_ffff,
                0 <= run,
                0 <= rise,
        ;
    }
    let prod: u64 = t * rise;
    let q: u64 = prod / run;
    proof {
        lemma_div_is_ordered(prod as int, (run * rise) as int, run as int);
        lemma_div_multiples_vanish(rise as int, run as int);
    }
    q
}

/// Returns the x coordinate of the segment's intersection with the horizontal
/// line at `y`, computed with widened integer arithmetic and pinned between
/// the endpoints' x values.
fn sect_with_horizontal(s0: Point, s1: Point, y: i32) -> (x: i32)
    ensures
        is_between_unsorted(x as int, s0.x as int, s1.x as int),
{
    if s0.y == s1.y {
        ave(s0.x, s1.x)
    } else {
        let (lo, hi) = if s0.y < s1.y {
            (s0, s1)
        } else {
            (s1, s0)
        };
        let run: u64 = (hi.y as i64 - lo.y as i64) as u64;
        let t_raw: i64 = y as i64 - lo.y as i64;
        let t: u64 = if t_raw < 0 {
            0
        } else if t_raw as u64 > run {
            run
        } else {
            t_raw as u64
        };
        let xlo: i64 = lo.x as i64;
        let xhi: i64 = hi.x as i64;
        let xr: i64 = if xhi >= xlo {
            let q: u64 = scaled_offset(t, (xhi - xlo) as u64, run);
            xlo + q as i64
        } else {
            let q: u64 = scaled_offset(t, (xlo - xhi) as u64, run);
            xlo - q as i64
        };
        let pinned: i64 = pin_unsorted_i64(xr, s0.x as i64, s1.x as i64);
        pinned as i32
    }
}

/// Returns the y coordinate of the segment's intersection with the vertical
/// line at `x`, computed with widened integer arithmetic and pinned between
/// the endpoints' y values.
fn sect_with_vertical(s0: Point, s1: Point, x: i32) -> (y: i32)
    ensures
        is_between_unsorted(y as int, s0.y as int, s1.y as int),
{
    if s0.x == s1.x {
        ave(s0.y, s1.y)
    } else {
        let (lo, hi) = if s0.x < s1.x {
            (s0, s1)
        } else {
            (s1, s0)
        };
        let run: u64 = (hi.x as i64 - lo.x as i64) as u64;
        let t_raw: i64 = x as i64 - lo.x as i64;
        let t: u64 = if t_raw < 0 {
            0
        } else if t_raw as u64 > run {
            run
        } else {
            t_raw as u64
        };
        let ylo: i64 = lo.y as i64;
        let yhi: i64 = hi.y as i64;
        let yr: i64 = if yhi >= ylo {
            let q: u64 = scaled_offset(t, (yhi - ylo) as u64, run);
            ylo + q as i64
        } else {
            let q: u64 = scaled_offset(t, (ylo - yhi) as u64, run);
            ylo - q as i64
        };
        let pinned: i64 = pin_unsorted_i64(yr, s0.y as i64, s1.y as i64);
        pinned as i32
    }
}

/// Like [`sect_with_vertical`], with the result pinned once more between the
/// endpoints' y values before it is handed back.
fn sect_clamp_with_vertical(s0: Point, s1: Point, x: i32) -> (y: i32)
    ensures
        is_between_unsorted(y as int, s0.y as int, s1.y as int),
{
    let y = sect_with_vertical(s0, s1, x);
    pin_unsorted_i32(y, s0.y, s1.y)
}

/// Clips the segment `src[0]..src[1]` against `clip`, ignoring segments that
/// lie completely above or below it. Portions to the left or right become
/// vertical runs aligned to the matching edge. The emitted points trace 0 to
/// 3 connected segments, ordered so that their first-to-last direction
/// matches the source segment's direction; `can_cull_to_the_right` drops a
/// segment wholly right of the rectangle instead of pinning it.
pub fn clip(src: &[Point; 2], clip_rect: &Rect, can_cull_to_the_right: bool) -> (pts: Vec<Point>)
    requires
        clip_rect.is_valid(),
    ensures
        seg_fully_above(src@[0], src@[1], *clip_rect) || seg_fully_below(src@[0], src@[1], *clip_rect)
            ==> pts@.len() == 0,
        pts@.len() == 0 ==> seg_fully_above(src@[0], src@[1], *clip_rect) || seg_fully_below(
            src@[0],
            src@[1],
            *clip_rect,
        ) || (can_cull_to_the_right && seg_max_x(src@[0], src@[1]) >= clip_rect.right as int),
        pts@.len() == 0 || (2 <= pts@.len() <= MAX_POINTS as int),
        forall|i: int| 0 <= i < pts@.len() ==> point_in_rect(#[trigger] pts@[i], *clip_rect),
        pts@.len() >= 2 ==> pts@[0].y as int == clamp_scalar(
            src@[0].y as int,
            clip_rect.top as int,
            clip_rect.bottom as int,
        ),
        pts@.len() >= 2 ==> pts@[pts@.len() - 1].y as int == clamp_scalar(
            src@[1].y as int,
            clip_rect.top as int,
            clip_rect.bottom as int,
        ),
        pts@.len() >= 2 && src@[0].y <= src@[1].y ==> pts@[0].y <= pts@[pts@.len() - 1].y,
        pts@.len() >= 2 && src@[1].y <= src@[0].y ==> pts@[pts@.len() - 1].y <= pts@[0].y,
        forall|i: int|
            0 <= i < pts@.len() ==> is_between_unsorted(
                (#[trigger] pts@[i]).x as int,
                clamp_scalar(src@[0].x as int, clip_rect.left as int, clip_rect.right as int),
                clamp_scalar(src@[1].x as int, clip_rect.left as int, clip_rect.right as int),
            ),
        forall|i: int|
            0 <= i < pts@.len() ==> is_between_unsorted(
                (#[trigger] pts@[i]).y as int,
                clamp_scalar(src@[0].y as int, clip_rect.top as int, clip_rect.bottom as int),
                clamp_scalar(src@[1].y as int, clip_rect.top as int, clip_rect.bottom as int),
            ),
{
    let s0 = src[0];
    let s1 = src[1];

    // Reject segments wholly above or below the clip.
    if s0.y < s1.y {
        if s1.y <= clip_rect.top {
            return Vec::new();
        }
        if s0.y >= clip_rect.bottom {
            return Vec::new();
        }
    } else {
        if s0.y <= clip_rect.top {
            return Vec::new();
        }
        if s1.y >= clip_rect.bottom {
            return Vec::new();
        }
    }

    // Chop in y to a single segment held in (t0, t1).
    let mut t0 = s0;
    let mut t1 = s1;
    if s0.y < s1.y {
        if s0.y < clip_rect.top {
            t0 = Point { x: sect_with_horizontal(s0, s1, clip_rect.top), y: clip_rect.top };
        }
        if t1.y > clip_rect.bottom {
            t1 = Point { x: sect_with_horizontal(s0, s1, clip_rect.bottom), y: clip_rect.bottom };
        }
    } else {
        if s1.y < clip_rect.top {
            t1 = Point { x: sect_with_horizontal(s0, s1, clip_rect.top), y: clip_rect.top };
        }
        if t0.y > clip_rect.bottom {
            t0 = Point { x: sect_with_horizontal(s0, s1, clip_rect.bottom), y: clip_rect.bottom };
        }
    }

    assert(t0.y as int == clamp_scalar(s0.y as int, clip_rect.top as int, clip_rect.bottom as int));
    assert(t1.y as int == clamp_scalar(s1.y as int, clip_rect.top as int, clip_rect.bottom as int));
    assert(is_between_unsorted(t0.x as int, s0.x as int, s1.x as int));
    assert(is_between_unsorted(t1.x as int, s0.x as int, s1.x as int));

    // Chop into 1..3 segments wholly within the clip in x. `a` is the end
    // with the smaller source x; emission is reversed afterwards when the
    // source ran right-to-left, to keep the winding order.
    let (a, b, reverse) = if s0.x < s1.x {
        (t0, t1, false)
    } else {
        (t1, t0, true)
    };

    let mut out: Vec<Point> = Vec::new();

    if b.x <= clip_rect.left {
        // Wholly to the left: collapse to a vertical run on the left edge.
        out.push(Point { x: clip_rect.left, y: t0.y });
        out.push(Point { x: clip_rect.left, y: t1.y });
        return out;
    }
    if a.x >= clip_rect.right {
        // Wholly to the right: cull, or collapse onto the right edge.
        if can_cull_to_the_right {
            return Vec::new();
        }
        out.push(Point { x: clip_rect.right, y: t0.y });
        out.push(Point { x: clip_rect.right, y: t1.y });
        return out;
    }

    if a.x < clip_rect.left {
        out.push(Point { x: clip_rect.left, y: a.y });
        out.push(Point { x: clip_rect.left, y: sect_clamp_with_vertical(t0, t1, clip_rect.left) });
    } else {
        out.push(a);
    }
    if b.x > clip_rect.right {
        out.push(Point { x: clip_rect.right, y: sect_clamp_with_vertical(t0, t1, clip_rect.right) });
        out.push(Point { x: clip_rect.right, y: b.y });
    } else {
        out.push(b);
    }

    if reverse {
        let n = out.len();
        let mut rev: Vec<Point> = Vec::new();
        let mut i: usize = 0;
        while i < n
            invariant
                i <= n,
                n == out.len(),
                rev.len() == i,
                forall|j: int| 0 <= j < i ==> rev@[j] == out@[n - 1 - j],
            decreases n - i,
        {
            rev.push(out[n - 1 - i]);
            i += 1;
        }
        rev
    } else {
        out
    }
}

} // verus!
