//! Gradient stop normalization and gradient stage construction.
//!
//! A gradient is an ordered list of `(position, color)` stops. Construction
//! brackets the list with synthetic stops so the first position is exactly 0
//! and the last exactly `SCALAR_ONE`, clamps positions to be non-decreasing,
//! and derives whether the stops are evenly spaced and whether every color is
//! opaque. Stage construction then pushes either the closed-form two-stop
//! evaluation stage or the general search-based stage, together with the
//! tiling and premultiply stages the paint calls for.

use vstd::prelude::*;

use vstd::arithmetic::div_mod::{lemma_div_is_ordered, lemma_div_multiples_vanish};

use crate::geom::{
    bound_scalar, clamp_scalar, div_trunc, div_trunc_i64, nearly_equal, nearly_equal_scalar,
    SCALAR_ONE,
};
use crate::color::Color;
use crate::raster_pipeline::{
    bounded_gradient_color, ctx_entry, plain_entry, widen_color, zero_gradient_color, Context,
    ContextStorage,
    EvenlySpaced2StopGradientCtx, GradientColor, GradientCtx, RasterPipelineBuilder, Stage,
    StageEntry, Transform,
};
use crate::shaders::SpreadMode;

verus! {

/// A gradient point.
#[derive(Clone, Copy, PartialEq, Eq, Structural, Debug)]
pub struct GradientStop {
    /// Parametric position, a fixed-point scalar meant to lie in
    /// `[0, SCALAR_ONE]`.
    pub position: i32,
    /// The color this stop contributes.
    pub color: Color,
}

/// Whether a stop's position and color are in their normalized ranges.
pub open spec fn stop_wf(s: GradientStop) -> bool {
    0 <= s.position <= SCALAR_ONE && s.color.is_valid()
}

/// Whether every stop of the list is well formed.
pub open spec fn stops_wf(s: Seq<GradientStop>) -> bool {
    forall|i: int| 0 <= i < s.len() ==> stop_wf(#[trigger] s[i])
}

impl GradientStop {
    /// Creates a new gradient point; `position` is clamped to the
    /// `[0, SCALAR_ONE]` range.
    pub fn new(position: i32, color: Color) -> (s: GradientStop)
        ensures
            s.position == clamp_scalar(position as int, 0, SCALAR_ONE as int),
            s.color == color,
            color.is_valid() ==> stop_wf(s),
    {
        GradientStop { position: bound_scalar(position, 0, SCALAR_ONE), color }
    }
}

/// Whether the caller omitted the leading stop at position 0.
pub open spec fn needs_first_dummy(s: Seq<GradientStop>) -> bool {
    s[0].position != 0
}

/// Whether the caller omitted the trailing stop at position `SCALAR_ONE`.
pub open spec fn needs_last_dummy(s: Seq<GradientStop>) -> bool {
    s[s.len() - 1].position != SCALAR_ONE
}

/// The caller's stops bracketed with the synthetic end stops they omitted,
/// each reusing the adjacent color.
pub open spec fn augmented_stops(s: Seq<GradientStop>) -> Seq<GradientStop> {
    let front = if needs_first_dummy(s) {
        seq![GradientStop { position: 0, color: s[0].color }]
    } else {
        Seq::<GradientStop>::empty()
    };
    let back = if needs_last_dummy(s) {
        seq![GradientStop { position: SCALAR_ONE, color: s[s.len() - 1].color }]
    } else {
        Seq::<GradientStop>::empty()
    };
    front + s + back
}

/// Position `i` of the bracketed list after normalization: the last position
/// is forced to exactly `SCALAR_ONE`, and every other position is clamped
/// between its predecessor and `SCALAR_ONE`.
pub open spec fn normalized_position(aug: Seq<GradientStop>, i: int) -> int
    decreases i,
{
    if i == aug.len() - 1 {
        SCALAR_ONE as int
    } else if i <= 0 {
        clamp_scalar(aug[0].position as int, 0, SCALAR_ONE as int)
    } else {
        clamp_scalar(aug[i].position as int, normalized_position(aug, i - 1), SCALAR_ONE as int)
    }
}

/// The normalized position before position `i` (zero ahead of the list).
pub open spec fn previous_position(aug: Seq<GradientStop>, i: int) -> int {
    if i == 0 {
        0
    } else {
        normalized_position(aug, i - 1)
    }
}

/// The index where the normalization sweep starts: at the synthetic first
/// stop when one was inserted, else right after the existing one.
pub open spec fn norm_start_index(s: Seq<GradientStop>) -> int {
    if needs_first_dummy(s) {
        0
    } else {
        1
    }
}

/// The reference gap the uniformity test compares every gap against.
pub open spec fn norm_uniform_step(s: Seq<GradientStop>) -> int {
    augmented_stops(s)[norm_start_index(s)].position as int
}

/// Whether every normalized gap nearly equals the reference gap.
pub open spec fn stops_are_uniform(s: Seq<GradientStop>) -> bool {
    let aug = augmented_stops(s);
    forall|j: int|
        norm_start_index(s) <= j < aug.len() ==> nearly_equal_scalar(
            norm_uniform_step(s),
            normalized_position(aug, j) - previous_position(aug, j),
        )
}

/// Whether every stop of the list is fully opaque.
pub open spec fn all_opaque(s: Seq<GradientStop>) -> bool {
    forall|j: int| 0 <= j < s.len() ==> (#[trigger] s[j]).color.a == SCALAR_ONE
}

/// The factor of one gradient interval, per channel: the color delta divided
/// by the position delta, so that `bias + factor * t` crosses the interval.
pub open spec fn factor_channel_spec(cl: int, cr: int, tl: int, tr: int) -> int {
    div_trunc((cr - cl) * (SCALAR_ONE as int), tr - tl)
}

/// The bias of one gradient interval, per channel: the left color pulled
/// back so the line passes through it at the left boundary.
pub open spec fn bias_channel_spec(cl: int, f: int, tl: int) -> int {
    cl - div_trunc(f * tl, SCALAR_ONE as int)
}

/// The factor of the interval between stops `i` and `i + 1`.
pub open spec fn interval_factor(points: Seq<GradientStop>, i: int) -> GradientColor {
    let cl = points[i].color;
    let cr = points[i + 1].color;
    let tl = points[i].position as int;
    let tr = points[i + 1].position as int;
    GradientColor {
        r: factor_channel_spec(cl.r as int, cr.r as int, tl, tr) as i64,
        g: factor_channel_spec(cl.g as int, cr.g as int, tl, tr) as i64,
        b: factor_channel_spec(cl.b as int, cr.b as int, tl, tr) as i64,
        a: factor_channel_spec(cl.a as int, cr.a as int, tl, tr) as i64,
    }
}

/// The bias of the interval between stops `i` and `i + 1`.
pub open spec fn interval_bias(points: Seq<GradientStop>, i: int) -> GradientColor {
    let cl = points[i].color;
    let f = interval_factor(points, i);
    let tl = points[i].position as int;
    GradientColor {
        r: bias_channel_spec(cl.r as int, f.r as int, tl) as i64,
        g: bias_channel_spec(cl.g as int, f.g as int, tl) as i64,
        b: bias_channel_spec(cl.b as int, f.b as int, tl) as i64,
        a: bias_channel_spec(cl.a as int, f.a as int, tl) as i64,
    }
}

/// The factors of the non-degenerate intervals among the stops from
/// `first` up to `i`, in order.
pub open spec fn interval_factors(points: Seq<GradientStop>, first: int, i: int) -> Seq<
    GradientColor,
>
    decreases i - first,
{
    if i <= first {
        Seq::<GradientColor>::empty()
    } else {
        interval_factors(points, first, i - 1) + (if points[i - 1].position < points[i].position {
            seq![interval_factor(points, i - 1)]
        } else {
            Seq::<GradientColor>::empty()
        })
    }
}

/// The biases matching [`interval_factors`].
pub open spec fn interval_biases(points: Seq<GradientStop>, first: int, i: int) -> Seq<
    GradientColor,
>
    decreases i - first,
{
    if i <= first {
        Seq::<GradientColor>::empty()
    } else {
        interval_biases(points, first, i - 1) + (if points[i - 1].position < points[i].position {
            seq![interval_bias(points, i - 1)]
        } else {
            Seq::<GradientColor>::empty()
        })
    }
}

/// The left boundaries matching [`interval_factors`].
pub open spec fn interval_t_values(points: Seq<GradientStop>, first: int, i: int) -> Seq<i32>
    decreases i - first,
{
    if i <= first {
        Seq::<i32>::empty()
    } else {
        interval_t_values(points, first, i - 1) + (if points[i - 1].position < points[i].position {
            seq![points[i - 1].position]
        } else {
            Seq::<i32>::empty()
        })
    }
}

/// The first stop the search stage keeps: a synthetic edge stop is skipped
/// when it is redundant with its neighbor's color.
pub open spec fn first_stop_index(points: Seq<GradientStop>) -> int {
    if points.len() > 2 {
        if points[0].color != points[1].color {
            0
        } else {
            1
        }
    } else {
        0
    }
}

/// The last stop the search stage keeps, mirroring [`first_stop_index`].
pub open spec fn last_stop_index(points: Seq<GradientStop>) -> int {
    if points.len() > 2 {
        if points[points.len() - 2].color != points[points.len() - 1].color {
            points.len() - 1
        } else {
            points.len() - 2
        }
    } else {
        1
    }
}

/// `s` zero-padded at the back to the vectorized evaluator's batch width.
pub open spec fn zero_pad16(s: Seq<GradientColor>) -> Seq<GradientColor> {
    if s.len() >= 16 {
        s
    } else {
        s + Seq::new((16 - s.len()) as nat, |j: int| zero_gradient_color())
    }
}

/// The factor array of the general gradient context built from `points`.
pub open spec fn general_factors(points: Seq<GradientStop>) -> Seq<GradientColor> {
    zero_pad16(
        seq![zero_gradient_color()] + interval_factors(
            points,
            first_stop_index(points),
            last_stop_index(points),
        ) + seq![zero_gradient_color()],
    )
}

/// The bias array of the general gradient context built from `points`.
pub open spec fn general_biases(points: Seq<GradientStop>) -> Seq<GradientColor> {
    zero_pad16(
        seq![widen_color(points[first_stop_index(points)].color)] + interval_biases(
            points,
            first_stop_index(points),
            last_stop_index(points),
        ) + seq![widen_color(points[last_stop_index(points)].color)],
    )
}

/// The boundary array of the general gradient context built from `points`.
pub open spec fn general_t_values(points: Seq<GradientStop>) -> Seq<i32> {
    seq![0i32] + interval_t_values(points, first_stop_index(points), last_stop_index(points))
        + seq![points[last_stop_index(points)].position]
}

/// The number of meaningful entries of the general gradient context.
pub open spec fn general_len(points: Seq<GradientStop>) -> int {
    2 + interval_factors(points, first_stop_index(points), last_stop_index(points)).len() as int
}

/// A gradient: normalized stops plus the paint parameters that steer stage
/// construction.
#[derive(Debug)]
pub struct Gradient {
    /// The normalized stops: bracketed by 0 and `SCALAR_ONE`, non-decreasing.
    pub points: Vec<GradientStop>,
    /// Tiling policy for parametric values outside the unit range.
    pub tile_mode: SpreadMode,
    /// The paint's local transform.
    pub local_transform: Transform,
    /// Maps gradient points to the unit parametrization.
    pub points_to_unit: Transform,
    /// Whether every stop color is fully opaque.
    pub colors_are_opaque: bool,
    /// Whether the stops are evenly spaced.
    pub has_uniform_stops: bool,
}

impl Gradient {
    /// The well-formedness every constructed gradient enjoys.
    pub open spec fn is_valid(&self) -> bool {
        &&& self.points@.len() >= 2
        &&& stops_wf(self.points@)
        &&& self.points@[0].position == 0
        &&& self.points@[self.points@.len() - 1].position == SCALAR_ONE
        &&& forall|i: int|
            1 <= i < self.points@.len() ==> (#[trigger] self.points@[i]).position >= self.points@[i
                - 1].position
        &&& (self.points@.len() == 2 ==> self.has_uniform_stops)
    }

    /// Builds a gradient from at least two stops: brackets them with the end
    /// stops the caller omitted, clamps positions to be non-decreasing with
    /// the last exactly `SCALAR_ONE`, and derives the opacity and uniform
    /// spacing flags.
    #[verifier::rlimit(60)]
    pub fn new(
        points: Vec<GradientStop>,
        tile_mode: SpreadMode,
        local_transform: Transform,
        points_to_unit: Transform,
    ) -> (g: Gradient)
        requires
            points@.len() >= 2,
            stops_wf(points@),
        ensures
            g.is_valid(),
            g.tile_mode == tile_mode,
            g.local_transform == local_transform,
            g.points_to_unit == points_to_unit,
            g.points@.len() == augmented_stops(points@).len(),
            forall|i: int|
                0 <= i < g.points@.len() ==> (#[trigger] g.points@[i]).color == augmented_stops(
                    points@,
                )[i].color,
            forall|i: int|
                0 <= i < g.points@.len() ==> (#[trigger] g.points@[i]).position as int
                    == normalized_position(augmented_stops(points@), i),
            g.colors_are_opaque == all_opaque(augmented_stops(points@)),
            g.has_uniform_stops == stops_are_uniform(points@),
    {
        let ghost input_stops: Seq<GradientStop> = points@;
        let mut pts = points;
        let n0 = pts.len();
        let dummy_first = pts[0].position != 0;
        let dummy_last = pts[n0 - 1].position != SCALAR_ONE;

        if dummy_first {
            let c = pts[0].color;
            pts.insert(0, GradientStop { position: 0, color: c });
        }
        if dummy_last {
            let c = pts[pts.len() - 1].color;
            pts.push(GradientStop { position: SCALAR_ONE, color: c });
        }
        proof {
            assert(pts@ =~= augmented_stops(input_stops));
        }
        let n = pts.len();

        let mut colors_are_opaque = true;
        let mut i: usize = 0;
        while i < n
            invariant
                i <= n,
                n == pts@.len(),
                colors_are_opaque == (forall|j: int|
                    0 <= j < i ==> (#[trigger] pts@[j]).color.a == SCALAR_ONE),
            decreases n - i,
        {
            colors_are_opaque = colors_are_opaque && pts[i].color.is_opaque();
            i += 1;
        }

        // Pin the last position to exactly one, and make the positions
        // monotonic, deriving the uniform spacing flag along the sweep.
        let start_index: usize = if dummy_first {
            0
        } else {
            1
        };
        let mut out: Vec<GradientStop> = Vec::new();
        if start_index == 1 {
            out.push(pts[0]);
        }
        let mut prev: i32 = 0;
        let mut has_uniform_stops = true;
        let uniform_step: i32 = pts[start_index].position;
        proof {
            assert(pts@[0].position == 0);
        }
        let mut i: usize = start_index;
        while i < n
            invariant
                start_index <= i <= n,
                start_index <= 1,
                n == pts@.len(),
                n >= 2,
                pts@ == augmented_stops(input_stops),
                stops_wf(pts@),
                pts@[0].position == 0,
                start_index as int == norm_start_index(input_stops),
                uniform_step as int == norm_uniform_step(input_stops),
                out@.len() == i,
                forall|j: int| 0 <= j < i ==> (#[trigger] out@[j]).color == pts@[j].color,
                forall|j: int|
                    0 <= j < i ==> (#[trigger] out@[j]).position as int == normalized_position(
                        pts@,
                        j,
                    ),
                forall|j: int| 0 <= j < i ==> 0 <= (#[trigger] out@[j]).position <= SCALAR_ONE,
                forall|j: int|
                    1 <= j < i ==> (#[trigger] out@[j]).position >= out@[j - 1].position,
                i > 0 ==> out@[i - 1].position == prev,
                prev as int == previous_position(pts@, i as int),
                0 <= prev <= SCALAR_ONE,
                has_uniform_stops == (forall|j: int|
                    start_index <= j < i ==> nearly_equal_scalar(
                        uniform_step as int,
                        normalized_position(pts@, j) - previous_position(pts@, j),
                    )),
            decreases n - i,
        {
            let curr: i32 = if i + 1 == n {
                SCALAR_ONE
            } else {
                bound_scalar(pts[i].position, prev, SCALAR_ONE)
            };
            has_uniform_stops = has_uniform_stops && nearly_equal(uniform_step, curr - prev);
            out.push(GradientStop { position: curr, color: pts[i].color });
            prev = curr;
            i += 1;
        }

        proof {
            if out@.len() == 2 {
                assert(!needs_first_dummy(input_stops));
                assert(!needs_last_dummy(input_stops));
                assert(norm_start_index(input_stops) == 1);
                assert(normalized_position(pts@, 0) == 0);
                assert(normalized_position(pts@, 1) == SCALAR_ONE);
                assert(uniform_step == SCALAR_ONE);
                assert(nearly_equal_scalar(
                    uniform_step as int,
                    normalized_position(pts@, 1) - previous_position(pts@, 1),
                ));
                assert(has_uniform_stops);
            }
        }

        Gradient {
            points: out,
            tile_mode,
            local_transform,
            points_to_unit,
            colors_are_opaque,
            has_uniform_stops,
        }
    }

    /// The transform stage construction pushes, if any.
    pub open spec fn transform_stage_entries(&self, ctx_base: int) -> Seq<StageEntry> {
        if self.points_to_unit.is_identity_spec() {
            Seq::<StageEntry>::empty()
        } else {
            seq![ctx_entry(Stage::Transform, ctx_base)]
        }
    }

    /// The context records the transform stage needs, if any.
    pub open spec fn transform_context_entries(&self) -> Seq<Context> {
        if self.points_to_unit.is_identity_spec() {
            Seq::<Context>::empty()
        } else {
            seq![Context::Transform(self.points_to_unit)]
        }
    }

    /// The tiling stage the spread mode calls for. Pad clamps only when the
    /// stops are evenly spaced: clamping would destroy hard stops at the
    /// range boundaries, which only the general search stage handles.
    pub open spec fn tiling_stage_entries(&self) -> Seq<StageEntry> {
        match self.tile_mode {
            SpreadMode::Reflect => seq![plain_entry(Stage::ReflectX1)],
            SpreadMode::Repeat => seq![plain_entry(Stage::RepeatX1)],
            SpreadMode::Pad => if self.has_uniform_stops {
                seq![plain_entry(Stage::PadX1)]
            } else {
                Seq::<StageEntry>::empty()
            },
        }
    }

    /// Which gradient evaluation stage construction picks.
    pub open spec fn gradient_stage_tag(&self) -> Stage {
        if self.points@.len() == 2 {
            Stage::EvenlySpaced2StopGradient
        } else {
            Stage::Gradient
        }
    }

    /// The premultiply stage, pushed only when some stop is translucent.
    pub open spec fn premultiply_stage_entries(&self) -> Seq<StageEntry> {
        if self.colors_are_opaque {
            Seq::<StageEntry>::empty()
        } else {
            seq![plain_entry(Stage::Premultiply)]
        }
    }

    /// The closed-form context of the two-stop fast path: per-channel delta
    /// as factor, the first stop's color as bias.
    pub open spec fn two_stop_ctx(&self) -> EvenlySpaced2StopGradientCtx {
        let c0 = self.points@[0].color;
        let c1 = self.points@[1].color;
        EvenlySpaced2StopGradientCtx {
            factor: GradientColor {
                r: (c1.r - c0.r) as i64,
                g: (c1.g - c0.g) as i64,
                b: (c1.b - c0.b) as i64,
                a: (c1.a - c0.a) as i64,
            },
            bias: widen_color(c0),
        }
    }

    /// The full stage list stage construction appends for this gradient.
    pub open spec fn stages_appended(
        &self,
        base: Seq<StageEntry>,
        ctx_base: int,
        mid: Seq<StageEntry>,
        post: Seq<StageEntry>,
    ) -> Seq<StageEntry> {
        base + seq![plain_entry(Stage::SeedShader)] + self.transform_stage_entries(ctx_base) + mid
            + self.tiling_stage_entries() + seq![
            ctx_entry(
                self.gradient_stage_tag(),
                ctx_base + self.transform_context_entries().len(),
            ),
        ] + self.premultiply_stage_entries() + post
    }

    /// Appends one factor, bias and boundary entry for every
    /// non-degenerate interval between stops `first` and `last`.
    fn push_interval_entries(
        &self,
        first: usize,
        last: usize,
        factors: &mut Vec<GradientColor>,
        biases: &mut Vec<GradientColor>,
        t_values: &mut Vec<i32>,
    )
        requires
            self.is_valid(),
            first <= last < self.points@.len(),
        ensures
            final(factors)@ == old(factors)@ + interval_factors(
                self.points@,
                first as int,
                last as int,
            ),
            final(biases)@ == old(biases)@ + interval_biases(
                self.points@,
                first as int,
                last as int,
            ),
            final(t_values)@ == old(t_values)@ + interval_t_values(
                self.points@,
                first as int,
                last as int,
            ),
            forall|k: int|
                old(factors)@.len() <= k < final(factors)@.len() ==> bounded_gradient_color(
                    #[trigger] final(factors)@[k],
                ),
            forall|k: int|
                old(biases)@.len() <= k < final(biases)@.len() ==> bounded_gradient_color(
                    #[trigger] final(biases)@[k],
                ),
    {
        let n = self.points.len();
        let mut i: usize = first;
        while i < last
            invariant
                first <= i <= last < n,
                n == self.points@.len(),
                stops_wf(self.points@),
                forall|k: int|
                    1 <= k < n ==> (#[trigger] self.points@[k]).position >= self.points@[k
                        - 1].position,
                factors@ == old(factors)@ + interval_factors(
                    self.points@,
                    first as int,
                    i as int,
                ),
                biases@ == old(biases)@ + interval_biases(self.points@, first as int, i as int),
                t_values@ == old(t_values)@ + interval_t_values(
                    self.points@,
                    first as int,
                    i as int,
                ),
                forall|k: int|
                    old(factors)@.len() <= k < factors@.len() ==> bounded_gradient_color(
                        #[trigger] factors@[k],
                    ),
                forall|k: int|
                    old(biases)@.len() <= k < biases@.len() ==> bounded_gradient_color(
                        #[trigger] biases@[k],
                    ),
            decreases last - i,
        {
            let tl = self.points[i].position;
            let tr = self.points[i + 1].position;
            if tl < tr {
                // For each interval we want the color `bias + factor*t`
                // for t between this stop and the next.
                let cl = self.points[i].color;
                let cr = self.points[i + 1].color;
                let fr = factor_channel(cl.r, cr.r, tl, tr);
                let fg = factor_channel(cl.g, cr.g, tl, tr);
                let fb = factor_channel(cl.b, cr.b, tl, tr);
                let fa = factor_channel(cl.a, cr.a, tl, tr);
                factors.push(GradientColor::new(fr, fg, fb, fa));
                biases.push(
                    GradientColor::new(
                        bias_channel(cl.r, fr, tl),
                        bias_channel(cl.g, fg, tl),
                        bias_channel(cl.b, fb, tl),
                        bias_channel(cl.a, fa, tl),
                    ),
                );
                t_values.push(tl);
            }
            i += 1;
        }
    }

    /// Builds the general search-based gradient context: parallel factor,
    /// bias and boundary arrays over the non-degenerate intervals, bracketed
    /// by constant-color entries and zero-padded to the batch width.
    #[verifier::rlimit(60)]
    fn build_general_ctx(&self) -> (ctx: GradientCtx)
        requires
            self.is_valid(),
            self.points@.len() != 2,
        ensures
            ctx.factors@ == general_factors(self.points@),
            ctx.biases@ == general_biases(self.points@),
            ctx.t_values@ == general_t_values(self.points@),
            ctx.len == general_len(self.points@),
            ctx.is_evaluable(),
    {
        let n = self.points.len();
        // The search conceptually places a stop at the far low end, so
        // the synthetic edge stops are dropped again where they are
        // redundant with their neighbor's color.
        let (first, last): (usize, usize) = if n > 2 {
            let f: usize = if self.points[0].color != self.points[1].color {
                0
            } else {
                1
            };
            let l: usize = if self.points[n - 2].color != self.points[n - 1].color {
                n - 1
            } else {
                n - 2
            };
            (f, l)
        } else {
            (0, 1)
        };

        let mut factors: Vec<GradientColor> = Vec::new();
        let mut biases: Vec<GradientColor> = Vec::new();
        let mut t_values: Vec<i32> = Vec::new();

        factors.push(GradientColor::zero());
        biases.push(GradientColor::from_color(self.points[first].color));
        t_values.push(0);

        self.push_interval_entries(first, last, &mut factors, &mut biases, &mut t_values);

        factors.push(GradientColor::zero());
        biases.push(GradientColor::from_color(self.points[last].color));
        t_values.push(self.points[last].position);

        proof {
            lemma_interval_lens(self.points@, first as int, last as int);
        }
        let ctx_len = factors.len();
        pad_to_batch_width(&mut factors, &mut biases);

        GradientCtx { len: ctx_len, factors, biases, t_values }
    }

    /// Appends this gradient's stages to `pipeline`: seed, the
    /// points-to-unit transform, the caller's shader stages, the tiling
    /// stage, the gradient evaluation stage with its context, premultiply
    /// when some color is translucent, and the caller's post stages last.
    #[verifier::rlimit(60)]
    pub fn append_stages(
        &self,
        pipeline: &mut RasterPipelineBuilder,
        ctx_storage: &mut ContextStorage,
        shader_stages: &RasterPipelineBuilder,
        post_stages: &RasterPipelineBuilder,
    ) -> (r: Option<()>)
        requires
            self.is_valid(),
        ensures
            r == Some::<()>(()),
            final(pipeline).stages@ == self.stages_appended(
                old(pipeline).stages@,
                old(ctx_storage).items@.len() as int,
                shader_stages.stages@,
                post_stages.stages@,
            ),
            final(ctx_storage).items@.len() == old(ctx_storage).items@.len()
                + self.transform_context_entries().len() + 1,
            final(ctx_storage).items@.subrange(0, old(ctx_storage).items@.len() as int) == old(
                ctx_storage,
            ).items@,
            !self.points_to_unit.is_identity_spec() ==> final(ctx_storage).items@[old(
                ctx_storage,
            ).items@.len() as int] == Context::Transform(self.points_to_unit),
            self.points@.len() == 2 ==> final(ctx_storage).items@[old(ctx_storage).items@.len()
                + self.transform_context_entries().len() as int] == Context::EvenlySpaced2Stop(
                self.two_stop_ctx(),
            ) && self.two_stop_ctx().is_bounded(),
            self.points@.len() != 2 ==> ({
                let gctx = final(ctx_storage).items@[old(ctx_storage).items@.len()
                    + self.transform_context_entries().len() as int];
                &&& gctx is Gradient
                &&& gctx->Gradient_0.factors@ == general_factors(self.points@)
                &&& gctx->Gradient_0.biases@ == general_biases(self.points@)
                &&& gctx->Gradient_0.t_values@ == general_t_values(self.points@)
                &&& gctx->Gradient_0.len == general_len(self.points@)
                &&& gctx->Gradient_0.is_evaluable()
            }),
    {
        pipeline.push(Stage::SeedShader);
        pipeline.push_transform(self.points_to_unit, ctx_storage);
        pipeline.extend(shader_stages);

        match self.tile_mode {
            SpreadMode::Reflect => {
                pipeline.push(Stage::ReflectX1);
            },
            SpreadMode::Repeat => {
                pipeline.push(Stage::RepeatX1);
            },
            SpreadMode::Pad => {
                if self.has_uniform_stops {
                    // We clamp only when the stops are evenly spaced; hard
                    // stops at the boundaries survive only the general
                    // search stage.
                    pipeline.push(Stage::PadX1);
                }
            },
        }

        if self.points.len() == 2 {
            // The two-stop case with stops at 0 and one.
            let c0 = self.points[0].color;
            let c1 = self.points[1].color;
            let ctx = EvenlySpaced2StopGradientCtx {
                factor: GradientColor::new(
                    c1.r as i64 - c0.r as i64,
                    c1.g as i64 - c0.g as i64,
                    c1.b as i64 - c0.b as i64,
                    c1.a as i64 - c0.a as i64,
                ),
                bias: GradientColor::from_color(c0),
            };
            let ix = ctx_storage.push_context(Context::EvenlySpaced2Stop(ctx));
            pipeline.push_with_context(Stage::EvenlySpaced2StopGradient, ix);
        } else {
            let ctx = self.build_general_ctx();
            let ix = ctx_storage.push_context(Context::Gradient(ctx));
            pipeline.push_with_context(Stage::Gradient, ix);
        }
        if !self.colors_are_opaque {
            pipeline.push(Stage::Premultiply);
        }

        pipeline.extend(post_stages);

        proof {
            assert(final(pipeline).stages@ =~= self.stages_appended(
                old(pipeline).stages@,
                old(ctx_storage).items@.len() as int,
                shader_stages.stages@,
                post_stages.stages@,
            ));
        }
        Some(())
    }
}

/// Pads the factor and bias arrays with zeros until the vectorized
/// evaluator's batch width is reached.
fn pad_to_batch_width(factors: &mut Vec<GradientColor>, biases: &mut Vec<GradientColor>)
    requires
        old(factors)@.len() == old(biases)@.len(),
        forall|k: int|
            0 <= k < old(factors)@.len() ==> bounded_gradient_color(#[trigger] old(factors)@[k]),
        forall|k: int|
            0 <= k < old(biases)@.len() ==> bounded_gradient_color(#[trigger] old(biases)@[k]),
    ensures
        final(factors)@ == zero_pad16(old(factors)@),
        final(biases)@ == zero_pad16(old(biases)@),
        forall|k: int|
            0 <= k < final(factors)@.len() ==> bounded_gradient_color(#[trigger] final(factors)@[k]),
        forall|k: int|
            0 <= k < final(biases)@.len() ==> bounded_gradient_color(#[trigger] final(biases)@[k]),
{
    let ghost base_factors = factors@;
    let ghost base_biases = biases@;
    while factors.len() < 16
        invariant
            factors@.len() == biases@.len(),
            factors@.len() >= base_factors.len(),
            base_factors.len() >= 16 ==> factors@ == base_factors,
            base_factors.len() < 16 ==> factors@.len() <= 16,
            base_factors.len() == base_biases.len(),
            factors@.subrange(0, base_factors.len() as int) == base_factors,
            biases@.subrange(0, base_biases.len() as int) == base_biases,
            forall|k: int|
                base_factors.len() <= k < factors@.len() ==> factors@[k] == zero_gradient_color(),
            forall|k: int|
                base_biases.len() <= k < biases@.len() ==> biases@[k] == zero_gradient_color(),
            forall|k: int|
                0 <= k < base_factors.len() ==> bounded_gradient_color(#[trigger] base_factors[k]),
            forall|k: int|
                0 <= k < base_biases.len() ==> bounded_gradient_color(#[trigger] base_biases[k]),
        decreases 16 - factors@.len(),
    {
        factors.push(GradientColor::zero());
        biases.push(GradientColor::zero());
    }
    proof {
        assert(factors@ =~= zero_pad16(base_factors));
        assert(biases@ =~= zero_pad16(base_biases));
    }
}

/// The three interval arrays always grow in lockstep.
proof fn lemma_interval_lens(points: Seq<GradientStop>, first: int, i: int)
    ensures
        interval_factors(points, first, i).len() == interval_biases(points, first, i).len(),
        interval_biases(points, first, i).len() == interval_t_values(points, first, i).len(),
    decreases i - first,
{
    if i > first {
        lemma_interval_lens(points, first, i - 1);
    }
}

/// One factor channel: the color delta scaled up and divided by the
/// position delta.
fn factor_channel(cl: i32, cr: i32, tl: i32, tr: i32) -> (f: i64)
    requires
        0 <= cl <= SCALAR_ONE,
        0 <= cr <= SCALAR_ONE,
        0 <= tl < tr <= SCALAR_ONE,
    ensures
        f == factor_channel_spec(cl as int, cr as int, tl as int, tr as int),
        -(SCALAR_ONE as int * SCALAR_ONE as int) <= f <= SCALAR_ONE as int * SCALAR_ONE as int,
{
    proof {
        assert((cr - cl) * (SCALAR_ONE as int) <= SCALAR_ONE as int * SCALAR_ONE as int
            && (cr - cl) * (SCALAR_ONE as int) >= -(SCALAR_ONE as int * SCALAR_ONE as int))
            by (nonlinear_arith)
            requires
                -(SCALAR_ONE as int) <= cr - cl <= SCALAR_ONE as int,
        ;
    }
    let num: i64 = (cr as i64 - cl as i64) * (SCALAR_ONE as i64);
    div_trunc_i64(num, tr as i64 - tl as i64)
}

/// One bias channel: the left color pulled back by `factor * t` at the left
/// boundary.
fn bias_channel(cl: i32, f: i64, tl: i32) -> (b: i64)
    requires
        0 <= cl <= SCALAR_ONE,
        -(SCALAR_ONE as int * SCALAR_ONE as int) <= f <= SCALAR_ONE as int * SCALAR_ONE as int,
        0 <= tl <= SCALAR_ONE,
    ensures
        b == bias_channel_spec(cl as int, f as int, tl as int),
        -2 * (SCALAR_ONE as int * SCALAR_ONE as int) <= b <= 2 * (SCALAR_ONE as int
            * SCALAR_ONE as int),
{
    proof {
        assert(f * tl <= SCALAR_ONE as int * SCALAR_ONE as int * SCALAR_ONE as int)
            by (nonlinear_arith)
            requires
                f <= SCALAR_ONE as int * SCALAR_ONE as int,
                0 <= tl <= SCALAR_ONE as int,
        ;
        assert(f * tl >= -(SCALAR_ONE as int * SCALAR_ONE as int * SCALAR_ONE as int))
            by (nonlinear_arith)
            requires
                f >= -(SCALAR_ONE as int * SCALAR_ONE as int),
                0 <= tl <= SCALAR_ONE as int,
        ;
    }
    let prod: i64 = f * (tl as i64);
    let q: i64 = div_trunc_i64(prod, SCALAR_ONE as i64);
    proof {
        let one_sq: int = SCALAR_ONE as int * SCALAR_ONE as int;
        if prod >= 0 {
            lemma_div_is_ordered(prod as int, one_sq * (SCALAR_ONE as int), SCALAR_ONE as int);
            lemma_div_multiples_vanish(one_sq, SCALAR_ONE as int);
        } else {
            lemma_div_is_ordered(-prod as int, one_sq * (SCALAR_ONE as int), SCALAR_ONE as int);
            lemma_div_multiples_vanish(one_sq, SCALAR_ONE as int);
        }
        assert(-one_sq <= q <= one_sq);
    }
    cl as i64 - q
}

} // verus!
