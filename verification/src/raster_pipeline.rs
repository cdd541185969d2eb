//! The raster pipeline stage machine.
//!
//! A pipeline is an ordered list of stage tags, each optionally paired with
//! an index into an arena of per-fill context records. The list is built by
//! appending and never reordered; contexts live exactly as long as the fill
//! that pushed them. Gradient stage contexts hold widened fixed-point
//! channel values, so per-interval factors may exceed the unit range and run
//! negative.

use vstd::prelude::*;

use crate::geom::{div_trunc, div_trunc_i64, SCALAR_ONE};
use crate::color::Color;

verus! {

/// One composable unit of per-pixel-batch computation.
#[derive(Clone, Copy, PartialEq, Eq, Structural, Debug)]
pub enum Stage {
    /// Seeds the shader coordinates for a span.
    SeedShader,
    /// Applies an affine transform to the shader coordinates.
    Transform,
    /// Folds the parametric value by reflection into the unit range.
    ReflectX1,
    /// Folds the parametric value by repetition into the unit range.
    RepeatX1,
    /// Clamps the parametric value into the unit range.
    PadX1,
    /// Closed-form two-stop gradient evaluation.
    EvenlySpaced2StopGradient,
    /// General search-based gradient evaluation.
    Gradient,
    /// Premultiplies color channels by alpha.
    Premultiply,
}

/// An affine shader-space-to-device-space transform, in fixed-point scalars.
#[derive(Clone, Copy, PartialEq, Eq, Structural, Debug)]
pub struct Transform {
    pub sx: i32,
    pub kx: i32,
    pub ky: i32,
    pub sy: i32,
    pub tx: i32,
    pub ty: i32,
}

impl Transform {
    /// Whether this is the identity transform.
    pub open spec fn is_identity_spec(&self) -> bool {
        self.sx == SCALAR_ONE && self.kx == 0 && self.ky == 0 && self.sy == SCALAR_ONE
            && self.tx == 0 && self.ty == 0
    }

    /// The identity transform.
    pub fn identity() -> (t: Transform)
        ensures
            t.is_identity_spec(),
    {
        Transform { sx: SCALAR_ONE, kx: 0, ky: 0, sy: SCALAR_ONE, tx: 0, ty: 0 }
    }

    /// Creates a transform from its six coefficients, row by row.
    pub fn from_row(sx: i32, ky: i32, kx: i32, sy: i32, tx: i32, ty: i32) -> (t: Transform)
        ensures
            t == (Transform { sx, kx, ky, sy, tx, ty }),
    {
        Transform { sx, kx, ky, sy, tx, ty }
    }

    /// Whether this is the identity transform.
    pub fn is_identity(&self) -> (r: bool)
        ensures
            r == self.is_identity_spec(),
    {
        self.sx == SCALAR_ONE && self.kx == 0 && self.ky == 0 && self.sy == SCALAR_ONE
            && self.tx == 0 && self.ty == 0
    }
}

/// A quadruple of widened fixed-point color channels.
#[derive(Clone, Copy, PartialEq, Eq, Structural, Debug)]
pub struct GradientColor {
    pub r: i64,
    pub g: i64,
    pub b: i64,
    pub a: i64,
}

/// The all-zero channel quadruple.
pub open spec fn zero_gradient_color() -> GradientColor {
    GradientColor { r: 0, g: 0, b: 0, a: 0 }
}

/// `c`'s channels widened from normalized fixed point.
pub open spec fn widen_color(c: Color) -> GradientColor {
    GradientColor { r: c.r as i64, g: c.g as i64, b: c.b as i64, a: c.a as i64 }
}

impl GradientColor {
    /// Creates a channel quadruple.
    pub fn new(r: i64, g: i64, b: i64, a: i64) -> (c: GradientColor)
        ensures
            c == (GradientColor { r, g, b, a }),
    {
        GradientColor { r, g, b, a }
    }

    /// The all-zero quadruple.
    pub fn zero() -> (c: GradientColor)
        ensures
            c == zero_gradient_color(),
    {
        GradientColor { r: 0, g: 0, b: 0, a: 0 }
    }

    /// Widens a normalized color's channels.
    pub fn from_color(c: Color) -> (g: GradientColor)
        ensures
            g == widen_color(c),
    {
        GradientColor { r: c.r as i64, g: c.g as i64, b: c.b as i64, a: c.a as i64 }
    }
}

/// Evaluation context for the closed-form two-stop gradient: the color at
/// parameter `t` is `bias + factor * t`.
#[derive(Clone, Copy, PartialEq, Eq, Structural, Debug)]
pub struct EvenlySpaced2StopGradientCtx {
    pub factor: GradientColor,
    pub bias: GradientColor,
}

/// The value of one channel of `bias + factor * t` in fixed point.
pub open spec fn gradient_channel_at(bias: int, factor: int, t: int) -> int {
    bias + div_trunc(factor * t, SCALAR_ONE as int)
}

/// Whether a channel quadruple is small enough for fixed-point evaluation;
/// gradient construction always delivers such quadruples.
pub open spec fn bounded_gradient_color(c: GradientColor) -> bool {
    &&& -2 * (SCALAR_ONE as int * SCALAR_ONE as int) <= c.r <= 2 * (SCALAR_ONE as int
        * SCALAR_ONE as int)
    &&& -2 * (SCALAR_ONE as int * SCALAR_ONE as int) <= c.g <= 2 * (SCALAR_ONE as int
        * SCALAR_ONE as int)
    &&& -2 * (SCALAR_ONE as int * SCALAR_ONE as int) <= c.b <= 2 * (SCALAR_ONE as int
        * SCALAR_ONE as int)
    &&& -2 * (SCALAR_ONE as int * SCALAR_ONE as int) <= c.a <= 2 * (SCALAR_ONE as int
        * SCALAR_ONE as int)
}

/// One channel of `bias + factor * t` in fixed point.
fn eval_channel(bias: i64, factor: i64, t: i32) -> (v: i64)
    requires
        0 <= t <= SCALAR_ONE,
        -2 * (SCALAR_ONE as int * SCALAR_ONE as int) <= factor <= 2 * (SCALAR_ONE as int
            * SCALAR_ONE as int),
        -2 * (SCALAR_ONE as int * SCALAR_ONE as int) <= bias <= 2 * (SCALAR_ONE as int
            * SCALAR_ONE as int),
    ensures
        v == gradient_channel_at(bias as int, factor as int, t as int),
{
    proof {
        assert(factor * t <= 2 * (SCALAR_ONE as int * SCALAR_ONE as int * SCALAR_ONE as int)
            && factor * t >= -2 * (SCALAR_ONE as int * SCALAR_ONE as int * SCALAR_ONE as int))
            by (nonlinear_arith)
            requires
                -2 * (SCALAR_ONE as int * SCALAR_ONE as int) <= factor <= 2 * (SCALAR_ONE as int
                    * SCALAR_ONE as int),
                0 <= t <= SCALAR_ONE as int,
        ;
    }
    bias + div_trunc_i64(factor * (t as i64), SCALAR_ONE as i64)
}

impl EvenlySpaced2StopGradientCtx {
    /// Whether the context's channels are small enough for evaluation: the
    /// two-stop construction always delivers this.
    pub open spec fn is_bounded(&self) -> bool {
        bounded_gradient_color(self.factor) && bounded_gradient_color(self.bias)
    }

    /// Evaluates the closed form at parameter `t`: per channel,
    /// `bias + factor * t` in fixed point.
    pub fn eval(&self, t: i32) -> (c: GradientColor)
        requires
            0 <= t <= SCALAR_ONE,
            self.is_bounded(),
        ensures
            c.r == gradient_channel_at(self.bias.r as int, self.factor.r as int, t as int),
            c.g == gradient_channel_at(self.bias.g as int, self.factor.g as int, t as int),
            c.b == gradient_channel_at(self.bias.b as int, self.factor.b as int, t as int),
            c.a == gradient_channel_at(self.bias.a as int, self.factor.a as int, t as int),
    {
        GradientColor {
            r: eval_channel(self.bias.r, self.factor.r, t),
            g: eval_channel(self.bias.g, self.factor.g, t),
            b: eval_channel(self.bias.b, self.factor.b, t),
            a: eval_channel(self.bias.a, self.factor.a, t),
        }
    }
}

/// Evaluation context for the general search-based gradient stage: parallel
/// per-interval factor, bias and left-boundary arrays, zero-padded so a
/// vectorized evaluator can always read a full batch.
#[derive(Debug)]
pub struct GradientCtx {
    /// Number of meaningful entries, before padding.
    pub len: usize,
    pub factors: Vec<GradientColor>,
    pub biases: Vec<GradientColor>,
    pub t_values: Vec<i32>,
}

/// The entry the boundary search picks for parameter `t`: the largest index
/// whose boundary does not exceed `t`, or the first entry when `t` lies
/// below every boundary (the conceptual stop at the far low end).
pub open spec fn search_index(ts: Seq<i32>, t: int) -> int
    decreases ts.len(),
{
    if ts.len() <= 1 {
        0
    } else if ts[ts.len() - 1] <= t {
        ts.len() - 1
    } else {
        search_index(ts.drop_last(), t)
    }
}

impl GradientCtx {
    /// Whether the context is shaped for evaluation: at least one meaningful
    /// entry, arrays long enough, and channels bounded for the arithmetic.
    pub open spec fn is_evaluable(&self) -> bool {
        &&& 1 <= self.len
        &&& self.len <= self.t_values@.len()
        &&& self.len <= self.factors@.len()
        &&& self.len <= self.biases@.len()
        &&& forall|k: int|
            0 <= k < self.len ==> bounded_gradient_color(#[trigger] self.factors@[k])
        &&& forall|k: int| 0 <= k < self.len ==> bounded_gradient_color(#[trigger] self.biases@[k])
    }

    /// Evaluates the general gradient at parameter `t`: searches the
    /// boundary values for the interval containing `t` and applies that
    /// interval's bias and factor.
    pub fn eval(&self, t: i32) -> (c: GradientColor)
        requires
            0 <= t <= SCALAR_ONE,
            self.is_evaluable(),
        ensures
            ({
                let k = search_index(self.t_values@.subrange(0, self.len as int), t as int);
                &&& c.r == gradient_channel_at(
                    self.biases@[k].r as int,
                    self.factors@[k].r as int,
                    t as int,
                )
                &&& c.g == gradient_channel_at(
                    self.biases@[k].g as int,
                    self.factors@[k].g as int,
                    t as int,
                )
                &&& c.b == gradient_channel_at(
                    self.biases@[k].b as int,
                    self.factors@[k].b as int,
                    t as int,
                )
                &&& c.a == gradient_channel_at(
                    self.biases@[k].a as int,
                    self.factors@[k].a as int,
                    t as int,
                )
            }),
    {
        let n = self.len;
        let mut idx: usize = 0;
        let mut i: usize = 1;
        while i < n
            invariant
                1 <= i <= n,
                n == self.len,
                n <= self.t_values@.len(),
                idx < i,
                idx as int == search_index(self.t_values@.subrange(0, i as int), t as int),
            decreases n - i,
        {
            proof {
                assert(self.t_values@.subrange(0, i as int + 1).drop_last()
                    =~= self.t_values@.subrange(0, i as int));
            }
            if self.t_values[i] <= t {
                idx = i;
            }
            i += 1;
        }
        let f = self.factors[idx];
        let b = self.biases[idx];
        GradientColor {
            r: eval_channel(b.r, f.r, t),
            g: eval_channel(b.g, f.g, t),
            b: eval_channel(b.b, f.b, t),
            a: eval_channel(b.a, f.a, t),
        }
    }
}

/// A per-fill context record referenced by stages through its arena index.
#[derive(Debug)]
pub enum Context {
    Transform(Transform),
    EvenlySpaced2Stop(EvenlySpaced2StopGradientCtx),
    Gradient(GradientCtx),
}

/// The arena of context records scoped to one fill call.
#[derive(Debug)]
pub struct ContextStorage {
    pub items: Vec<Context>,
}

impl ContextStorage {
    /// An empty arena.
    pub fn new() -> (s: ContextStorage)
        ensures
            s.items@.len() == 0,
    {
        ContextStorage { items: Vec::new() }
    }

    /// Appends a context record and returns its index.
    pub fn push_context(&mut self, ctx: Context) -> (ix: usize)
        ensures
            final(self).items@ == old(self).items@.push(ctx),
            ix == old(self).items@.len(),
    {
        let ix = self.items.len();
        self.items.push(ctx);
        ix
    }
}

/// One stage list entry: the stage tag, and the arena index of its context
/// record where it has one.
#[derive(Clone, Copy, PartialEq, Debug)]
pub struct StageEntry {
    pub stage: Stage,
    pub ctx: Option<usize>,
}

/// A stage entry without a context record.
pub open spec fn plain_entry(stage: Stage) -> StageEntry {
    StageEntry { stage, ctx: None }
}

/// A stage entry paired with its context index.
pub open spec fn ctx_entry(stage: Stage, ix: int) -> StageEntry {
    StageEntry { stage, ctx: Some(ix as usize) }
}

/// The ordered, append-only stage list for one fill operation.
#[derive(Debug)]
pub struct RasterPipelineBuilder {
    pub stages: Vec<StageEntry>,
}

impl RasterPipelineBuilder {
    /// An empty pipeline.
    pub fn new() -> (b: RasterPipelineBuilder)
        ensures
            b.stages@.len() == 0,
    {
        RasterPipelineBuilder { stages: Vec::new() }
    }

    /// Appends a stage without a context.
    pub fn push(&mut self, stage: Stage)
        ensures
            final(self).stages@ == old(self).stages@.push(plain_entry(stage)),
    {
        self.stages.push(StageEntry { stage, ctx: None });
    }

    /// Appends a stage paired with the context record at `ctx`.
    pub fn push_with_context(&mut self, stage: Stage, ctx: usize)
        ensures
            final(self).stages@ == old(self).stages@.push(ctx_entry(stage, ctx as int)),
    {
        self.stages.push(StageEntry { stage, ctx: Some(ctx) });
    }

    /// Appends a transform stage with its context record, unless the
    /// transform is the identity, which needs no stage at all.
    pub fn push_transform(&mut self, ts: Transform, ctx_storage: &mut ContextStorage)
        ensures
            ts.is_identity_spec() ==> final(self).stages@ == old(self).stages@
                && final(ctx_storage).items@ == old(ctx_storage).items@,
            !ts.is_identity_spec() ==> final(self).stages@ == old(self).stages@.push(
                ctx_entry(Stage::Transform, old(ctx_storage).items@.len() as int),
            ) && final(ctx_storage).items@ == old(ctx_storage).items@.push(
                Context::Transform(ts),
            ),
    {
        if !ts.is_identity() {
            let ix = ctx_storage.push_context(Context::Transform(ts));
            self.push_with_context(Stage::Transform, ix);
        }
    }

    /// Appends every stage of `other`, in order.
    pub fn extend(&mut self, other: &RasterPipelineBuilder)
        ensures
            final(self).stages@ == old(self).stages@ + other.stages@,
    {
        let n = other.stages.len();
        let mut i: usize = 0;
        while i < n
            invariant
                i <= n,
                n == other.stages@.len(),
                self.stages@ == old(self).stages@ + other.stages@.subrange(0, i as int),
            decreases n - i,
        {
            proof {
                assert(old(self).stages@ + other.stages@.subrange(0, i as int + 1) =~= (old(
                    self,
                ).stages@ + other.stages@.subrange(0, i as int)).push(other.stages@[i as int]));
            }
            let entry = other.stages[i];
            self.stages.push(entry);
            i += 1;
        }
        proof {
            assert(other.stages@.subrange(0, n as int) =~= other.stages@);
        }
    }
}

} // verus!
