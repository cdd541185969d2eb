use tiny_skia::color::Color;
use tiny_skia::geom::SCALAR_ONE;
use tiny_skia::raster_pipeline::{
    Context, ContextStorage, GradientColor, RasterPipelineBuilder, Stage, Transform,
};
use tiny_skia::shaders::gradient::{Gradient, GradientStop};
use tiny_skia::shaders::SpreadMode;

fn opaque(r: i32, g: i32, b: i32) -> Color {
    Color::from_rgba(r, g, b, SCALAR_ONE).unwrap()
}

fn red() -> Color {
    opaque(SCALAR_ONE, 0, 0)
}

fn green() -> Color {
    opaque(0, SCALAR_ONE, 0)
}

fn blue() -> Color {
    opaque(0, 0, SCALAR_ONE)
}

fn positions(g: &Gradient) -> Vec<i32> {
    g.points.iter().map(|s| s.position).collect()
}

#[test]
fn stop_position_is_clamped_into_the_unit_range() {
    assert_eq!(GradientStop::new(-5, red()).position, 0);
    assert_eq!(GradientStop::new(70000, red()).position, SCALAR_ONE);
    assert_eq!(GradientStop::new(12345, red()).position, 12345);
}

#[test]
fn construction_brackets_interior_stops_with_synthetic_ends() {
    let stops = vec![
        GradientStop::new(19661, red()),
        GradientStop::new(45875, blue()),
    ];
    let g = Gradient::new(stops, SpreadMode::Pad, Transform::identity(), Transform::identity());
    assert_eq!(positions(&g), vec![0, 19661, 45875, SCALAR_ONE]);
    assert_eq!(g.points[0].color, red());
    assert_eq!(g.points[1].color, red());
    assert_eq!(g.points[2].color, blue());
    assert_eq!(g.points[3].color, blue());
    assert!(g.colors_are_opaque);
    assert!(!g.has_uniform_stops);
}

#[test]
fn construction_normalizes_positions_monotonically() {
    let stops = vec![
        GradientStop::new(0, red()),
        GradientStop::new(52429, green()),
        GradientStop::new(13107, blue()),
        GradientStop::new(SCALAR_ONE, blue()),
    ];
    let g = Gradient::new(stops, SpreadMode::Pad, Transform::identity(), Transform::identity());
    let p = positions(&g);
    assert_eq!(p, vec![0, 52429, 52429, SCALAR_ONE]);
    assert_eq!(p.first(), Some(&0));
    assert_eq!(p.last(), Some(&SCALAR_ONE));
    for w in p.windows(2) {
        assert!(w[0] <= w[1]);
    }
}

#[test]
fn two_uniform_stops_take_the_closed_form_path() {
    let stops = vec![
        GradientStop::new(0, red()),
        GradientStop::new(SCALAR_ONE, blue()),
    ];
    let g = Gradient::new(stops, SpreadMode::Pad, Transform::identity(), Transform::identity());
    assert!(g.has_uniform_stops);
    assert!(g.colors_are_opaque);

    let mut pipeline = RasterPipelineBuilder::new();
    let mut storage = ContextStorage::new();
    let mid = RasterPipelineBuilder::new();
    let post = RasterPipelineBuilder::new();
    assert_eq!(g.append_stages(&mut pipeline, &mut storage, &mid, &post), Some(()));

    let tags: Vec<Stage> = pipeline.stages.iter().map(|e| e.stage).collect();
    assert_eq!(
        tags,
        vec![Stage::SeedShader, Stage::PadX1, Stage::EvenlySpaced2StopGradient],
    );
    assert_eq!(pipeline.stages[2].ctx, Some(0));

    // Evaluating the closed form halfway gives the exact midpoint blend.
    match &storage.items[0] {
        Context::EvenlySpaced2Stop(ctx) => {
            assert_eq!(ctx.bias, GradientColor::new(
                SCALAR_ONE as i64,
                0,
                0,
                SCALAR_ONE as i64,
            ));
            assert_eq!(ctx.factor, GradientColor::new(
                -(SCALAR_ONE as i64),
                0,
                SCALAR_ONE as i64,
                0,
            ));
            let mid_color = ctx.eval(SCALAR_ONE / 2);
            assert_eq!(mid_color, GradientColor::new(32768, 0, 32768, 65536));
            assert_eq!(ctx.eval(0), GradientColor::new(65536, 0, 0, 65536));
            assert_eq!(ctx.eval(SCALAR_ONE), GradientColor::new(0, 0, 65536, 65536));
        },
        _ => panic!("expected the two-stop context"),
    }
}

#[test]
fn translucent_stops_append_a_premultiply_stage() {
    let translucent = Color::from_rgba(SCALAR_ONE, 0, 0, SCALAR_ONE / 2).unwrap();
    let stops = vec![
        GradientStop::new(0, translucent),
        GradientStop::new(SCALAR_ONE, blue()),
    ];
    let g = Gradient::new(stops, SpreadMode::Repeat, Transform::identity(), Transform::identity());
    assert!(!g.colors_are_opaque);

    let mut pipeline = RasterPipelineBuilder::new();
    let mut storage = ContextStorage::new();
    let mid = RasterPipelineBuilder::new();
    let post = RasterPipelineBuilder::new();
    g.append_stages(&mut pipeline, &mut storage, &mid, &post).unwrap();
    let tags: Vec<Stage> = pipeline.stages.iter().map(|e| e.stage).collect();
    assert_eq!(
        tags,
        vec![
            Stage::SeedShader,
            Stage::RepeatX1,
            Stage::EvenlySpaced2StopGradient,
            Stage::Premultiply,
        ],
    );
}

#[test]
fn pad_skips_the_clamp_stage_for_non_uniform_stops() {
    let stops = vec![
        GradientStop::new(19661, red()),
        GradientStop::new(45875, blue()),
    ];
    let g = Gradient::new(stops, SpreadMode::Pad, Transform::identity(), Transform::identity());
    assert!(!g.has_uniform_stops);

    let mut pipeline = RasterPipelineBuilder::new();
    let mut storage = ContextStorage::new();
    let mid = RasterPipelineBuilder::new();
    let post = RasterPipelineBuilder::new();
    g.append_stages(&mut pipeline, &mut storage, &mid, &post).unwrap();
    let tags: Vec<Stage> = pipeline.stages.iter().map(|e| e.stage).collect();
    assert!(!tags.contains(&Stage::PadX1));
    assert!(tags.contains(&Stage::Gradient));
}

#[test]
fn non_identity_transform_gets_its_own_stage_and_context() {
    let ts = Transform::from_row(2 * SCALAR_ONE, 0, 0, 2 * SCALAR_ONE, 5, 7);
    let stops = vec![
        GradientStop::new(0, red()),
        GradientStop::new(SCALAR_ONE, blue()),
    ];
    let g = Gradient::new(stops, SpreadMode::Reflect, Transform::identity(), ts);

    let mut pipeline = RasterPipelineBuilder::new();
    let mut storage = ContextStorage::new();
    let mid = RasterPipelineBuilder::new();
    let post = RasterPipelineBuilder::new();
    g.append_stages(&mut pipeline, &mut storage, &mid, &post).unwrap();
    let tags: Vec<Stage> = pipeline.stages.iter().map(|e| e.stage).collect();
    assert_eq!(
        tags,
        vec![
            Stage::SeedShader,
            Stage::Transform,
            Stage::ReflectX1,
            Stage::EvenlySpaced2StopGradient,
        ],
    );
    assert_eq!(pipeline.stages[1].ctx, Some(0));
    assert_eq!(pipeline.stages[3].ctx, Some(1));
    match &storage.items[0] {
        Context::Transform(t) => assert_eq!(*t, ts),
        _ => panic!("expected the transform context"),
    }
}

#[test]
fn caller_stages_are_spliced_in_order() {
    let stops = vec![
        GradientStop::new(0, red()),
        GradientStop::new(SCALAR_ONE, blue()),
    ];
    let g = Gradient::new(stops, SpreadMode::Repeat, Transform::identity(), Transform::identity());

    let mut pipeline = RasterPipelineBuilder::new();
    let mut storage = ContextStorage::new();
    let mut mid = RasterPipelineBuilder::new();
    mid.push(Stage::ReflectX1);
    let mut post = RasterPipelineBuilder::new();
    post.push(Stage::SeedShader);
    g.append_stages(&mut pipeline, &mut storage, &mid, &post).unwrap();
    let tags: Vec<Stage> = pipeline.stages.iter().map(|e| e.stage).collect();
    assert_eq!(
        tags,
        vec![
            Stage::SeedShader,
            Stage::ReflectX1,
            Stage::RepeatX1,
            Stage::EvenlySpaced2StopGradient,
            Stage::SeedShader,
        ],
    );
}

#[test]
fn three_stops_build_the_search_context() {
    let stops = vec![
        GradientStop::new(0, red()),
        GradientStop::new(SCALAR_ONE / 2, green()),
        GradientStop::new(SCALAR_ONE, blue()),
    ];
    let g = Gradient::new(stops, SpreadMode::Pad, Transform::identity(), Transform::identity());

    let mut pipeline = RasterPipelineBuilder::new();
    let mut storage = ContextStorage::new();
    let mid = RasterPipelineBuilder::new();
    let post = RasterPipelineBuilder::new();
    g.append_stages(&mut pipeline, &mut storage, &mid, &post).unwrap();

    match &storage.items[0] {
        Context::Gradient(ctx) => {
            assert_eq!(ctx.len, 4);
            assert_eq!(ctx.t_values, vec![0, 0, 32768, SCALAR_ONE]);
            assert_eq!(ctx.factors.len(), 16);
            assert_eq!(ctx.biases.len(), 16);
            // Bracketing constant-color entries.
            assert_eq!(ctx.factors[0], GradientColor::new(0, 0, 0, 0));
            assert_eq!(ctx.biases[0].r, SCALAR_ONE as i64);
            assert_eq!(ctx.biases[3].b, SCALAR_ONE as i64);
            // Red fades to green over the first half: slope is minus two
            // units of red (and plus two of green) per unit of t.
            assert_eq!(ctx.factors[1].r, -2 * SCALAR_ONE as i64);
            assert_eq!(ctx.factors[1].g, 2 * SCALAR_ONE as i64);
            assert_eq!(ctx.biases[1].r, SCALAR_ONE as i64);
            // Green fades to blue over the second half; the bias anchors the
            // line at t = 0, so the green channel starts doubled.
            assert_eq!(ctx.factors[2].g, -2 * SCALAR_ONE as i64);
            assert_eq!(ctx.factors[2].b, 2 * SCALAR_ONE as i64);
            assert_eq!(ctx.biases[2].g, 2 * SCALAR_ONE as i64);
            // Padding entries stay zero.
            assert_eq!(ctx.factors[15], GradientColor::new(0, 0, 0, 0));
            assert_eq!(ctx.biases[15], GradientColor::new(0, 0, 0, 0));
        },
        _ => panic!("expected the general gradient context"),
    }
}

#[test]
fn search_evaluation_blends_within_the_containing_interval() {
    let stops = vec![
        GradientStop::new(0, red()),
        GradientStop::new(SCALAR_ONE / 2, green()),
        GradientStop::new(SCALAR_ONE, blue()),
    ];
    let g = Gradient::new(stops, SpreadMode::Pad, Transform::identity(), Transform::identity());

    let mut pipeline = RasterPipelineBuilder::new();
    let mut storage = ContextStorage::new();
    let mid = RasterPipelineBuilder::new();
    let post = RasterPipelineBuilder::new();
    g.append_stages(&mut pipeline, &mut storage, &mid, &post).unwrap();

    match &storage.items[0] {
        Context::Gradient(ctx) => {
            // The start of the ramp is pure red.
            assert_eq!(ctx.eval(0), GradientColor::new(65536, 0, 0, 65536));
            // A quarter in, red has faded halfway to green.
            assert_eq!(ctx.eval(16384), GradientColor::new(32768, 32768, 0, 65536));
            // Three quarters in, green has faded halfway to blue.
            assert_eq!(ctx.eval(49152), GradientColor::new(0, 32768, 32768, 65536));
            // The end of the ramp is pure blue.
            assert_eq!(ctx.eval(SCALAR_ONE), GradientColor::new(0, 0, 65536, 65536));
        },
        _ => panic!("expected the general gradient context"),
    }
}
