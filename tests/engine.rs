use fractal_explorer::color::color_of;
use fractal_explorer::explorer::{reference_endpoint, ConfigError, Explorer, PixelMethod, PixelRequest, ViewConfiguration};
use fractal_explorer::fractal::{Fractal, FractalBehavior, Orbit, OrbitStep, StepRule};

type Behavior = FractalBehavior<(i64, i64), i64>;

fn config(width: usize, height: usize, tile: usize, max_iter: u32) -> ViewConfiguration {
    ViewConfiguration::new(width, height, tile, max_iter, 16, 32).unwrap()
}

fn explorer(width: usize, height: usize, tile: usize, max_iter: u32) -> Explorer<i64, (i64, i64)> {
    Explorer::new(config(width, height, tile, max_iter), Fractal::Mandelbrot, 1, (0, 0))
}

#[test]
fn color_of_converging_orbit_is_black() {
    let b: Behavior = FractalBehavior::Converges((0, 0), 0, 160);
    assert_eq!(color_of(&b, 160), 0);
}

#[test]
fn color_of_diverging_orbit_scales_the_escape_step() {
    let half: Behavior = FractalBehavior::Diverges((3, 0), 3, 80);
    assert_eq!(color_of(&half, 160), 128);
    let last: Behavior = FractalBehavior::Diverges((3, 0), 3, 159);
    assert_eq!(color_of(&last, 160), 254);
    let first: Behavior = FractalBehavior::Diverges((3, 0), 3, 0);
    assert_eq!(color_of(&first, 160), 0);
    let third: Behavior = FractalBehavior::Diverges((3, 0), 3, 1);
    assert_eq!(color_of(&third, 3), 85);
    let top: Behavior = FractalBehavior::Diverges((3, 0), 3, 9);
    assert_eq!(color_of(&top, 10), 230);
}

#[test]
fn configuration_errors() {
    assert_eq!(ViewConfiguration::new(0, 4, 1, 10, 16, 32), Err(ConfigError::EmptyResolution));
    assert_eq!(ViewConfiguration::new(4, 0, 1, 10, 16, 32), Err(ConfigError::EmptyResolution));
    assert_eq!(ViewConfiguration::new(4, 4, 0, 10, 16, 32), Err(ConfigError::EmptyTile));
    assert_eq!(ViewConfiguration::new(4, 4, 3, 10, 16, 32), Err(ConfigError::RaggedTiles));
    assert_eq!(ViewConfiguration::new(4, 4, 4, 0, 16, 32), Err(ConfigError::ZeroIterations));
    assert_eq!(ViewConfiguration::new(4, 4, 4, 10, 0, 32), Err(ConfigError::ZeroPrecision));
    assert_eq!(ViewConfiguration::new(4, 4, 4, 10, 16, 0), Err(ConfigError::ZeroPrecision));
    assert_eq!(ViewConfiguration::new(usize::MAX, 2, 1, 10, 16, 32), Err(ConfigError::TooLarge));
    assert_eq!(ViewConfiguration::new(usize::MAX / 4 + 1, 1, 1, 10, 16, 32), Err(ConfigError::TooLarge));
}

#[test]
fn configuration_keeps_its_values() {
    let c = config(200, 150, 10000, 160);
    assert_eq!(c.width, 200);
    assert_eq!(c.height, 150);
    assert_eq!(c.pixel_count, 30000);
    assert_eq!(c.tile_size, 10000);
    assert_eq!(c.max_iter, 160);
    assert_eq!(c.world_precision, 16);
    assert_eq!(c.iteration_precision, 32);
}

#[test]
fn step_rules() {
    assert_eq!(Fractal::Mandelbrot.step_rule(false), StepRule::Square);
    assert_eq!(Fractal::Mandelbrot.step_rule(true), StepRule::PerturbedSquare);
    assert_eq!(Fractal::BurningShip.step_rule(false), StepRule::FoldedSquare);
    assert_eq!(Fractal::BurningShip.step_rule(true), StepRule::FoldedSquare);
}

#[test]
fn zero_budget_converges_without_a_step() {
    match Orbit::<(i64, i64), i64>::start((0, 0), 0, 0) {
        OrbitStep::Finished(FractalBehavior::Converges(z, m, n)) => {
            assert_eq!(z, (0, 0));
            assert_eq!(m, 0);
            assert_eq!(n, 0);
        }
        other => panic!("unexpected {:?}", other),
    }
}

#[test]
fn escape_at_first_step_diverges_at_zero() {
    let orbit = match Orbit::<(i64, i64), i64>::start((0, 0), 0, 10) {
        OrbitStep::Running(o) => o,
        other => panic!("unexpected {:?}", other),
    };
    assert_eq!(orbit.steps, 0);
    match orbit.advance((3, 0), 3, true) {
        OrbitStep::Finished(FractalBehavior::Diverges(z, m, n)) => {
            assert_eq!(z, (3, 0));
            assert_eq!(m, 3);
            assert_eq!(n, 0);
        }
        other => panic!("unexpected {:?}", other),
    }
}

#[test]
fn bounded_orbit_converges_with_full_budget() {
    let mut step = Orbit::<(i64, i64), i64>::start((0, 0), 0, 3);
    let mut taken = 0;
    let result = loop {
        match step {
            OrbitStep::Running(o) => {
                taken += 1;
                step = o.advance((0, 0), 0, false);
            }
            OrbitStep::Finished(b) => break b,
        }
    };
    assert_eq!(taken, 3);
    assert!(!result.diverges());
    assert_eq!(result.iterations(), 3);
}

#[test]
fn escape_after_some_steps_reports_the_step() {
    let mut step = Orbit::<(i64, i64), i64>::start((0, 0), 0, 10);
    let mut taken = 0;
    let result = loop {
        match step {
            OrbitStep::Running(o) => {
                taken += 1;
                let escaped = taken == 3;
                step = o.advance((taken, 0), taken, escaped);
            }
            OrbitStep::Finished(b) => break b,
        }
    };
    assert!(result.diverges());
    assert_eq!(result.iterations(), 2);
}

#[test]
fn new_explorer_has_zeroed_buffer_and_wants_a_redraw() {
    let mut e = explorer(4, 4, 4, 10);
    assert_eq!(e.buffer().len(), 64);
    assert!(e.buffer().iter().all(|b| *b == 0));
    assert!(e.update());
    assert!(!e.update());
    e.set_view(2, (1, 1));
    assert_eq!(*e.zoom(), 2);
    assert_eq!(*e.position(), (1, 1));
    assert!(e.update());
    e.set_fractal(Fractal::BurningShip);
    assert_eq!(e.fractal(), Fractal::BurningShip);
    assert!(e.update());
}

#[test]
fn corner_and_center_pixels_of_a_small_grid() {
    let e = explorer(4, 4, 4, 10);
    // (0, 0) maps to (-4/4, -4/4) = (-1, -1); (2, 2) to the center (0, 0).
    assert_eq!(e.world_to_complex(0, 0), (-4, -4));
    assert_eq!(e.world_to_complex(2, 2), (0, 0));
    assert_eq!(e.world_to_complex(3, 1), (2, -2));
}

#[test]
fn pixel_mapping_is_monotonic() {
    let e = explorer(5, 3, 5, 10);
    for y in 0..3 {
        for x in 1..5 {
            assert!(e.world_to_complex(x - 1, y).0 < e.world_to_complex(x, y).0);
            assert_eq!(e.world_to_complex(x - 1, y).1, e.world_to_complex(x, y).1);
        }
    }
    for x in 0..5 {
        assert!(e.world_to_complex(x, 0).1 < e.world_to_complex(x, 1).1);
        assert!(e.world_to_complex(x, 1).1 < e.world_to_complex(x, 2).1);
    }
}

#[test]
fn pixel_of_is_row_major() {
    let e = explorer(4, 3, 4, 10);
    assert_eq!(e.pixel_of(0), (0, 0));
    assert_eq!(e.pixel_of(5), (1, 1));
    assert_eq!(e.pixel_of(11), (3, 2));
}

fn sample_results() -> Vec<Behavior> {
    vec![
        FractalBehavior::Converges((0, 0), 0, 10),
        FractalBehavior::Diverges((3, 0), 3, 5),
        FractalBehavior::Diverges((3, 0), 3, 0),
        FractalBehavior::Diverges((3, 0), 3, 9),
    ]
}

#[test]
fn whole_frame_pass_writes_gray_rgba() {
    let mut e = explorer(2, 2, 2, 10);
    e.fill_image_buffer(&sample_results());
    assert_eq!(
        *e.buffer(),
        vec![0, 0, 0, 255, 128, 128, 128, 255, 0, 0, 0, 255, 230, 230, 230, 255]
    );
}

#[test]
fn whole_frame_pass_is_idempotent() {
    let mut e = explorer(2, 2, 2, 10);
    e.fill_image_buffer(&sample_results());
    let first = e.buffer().clone();
    e.fill_image_buffer(&sample_results());
    assert_eq!(*e.buffer(), first);
    let mut other = explorer(2, 2, 2, 10);
    other.fill_image_buffer(&sample_results());
    assert_eq!(*other.buffer(), first);
}

#[test]
fn tiled_pass_falls_back_after_converged_reference() {
    let mut e = explorer(4, 1, 2, 10);
    e.begin_tiled_pass();
    let mut seen: Vec<PixelRequest> = Vec::new();
    // Tile 0: reference converges; tile 1: reference diverges.
    let outcomes: Vec<Behavior> = vec![
        FractalBehavior::Converges((0, 0), 0, 10),
        FractalBehavior::Diverges((3, 0), 3, 1),
        FractalBehavior::Diverges((3, 0), 3, 2),
        FractalBehavior::Converges((0, 0), 0, 10),
    ];
    let mut k = 0;
    while let Some(req) = e.next_request() {
        seen.push(req);
        e.fill_image_buffer_pt(&outcomes[k]);
        k += 1;
    }
    assert_eq!(k, 4);
    let methods: Vec<PixelMethod> = seen.iter().map(|r| r.method).collect();
    assert_eq!(
        methods,
        vec![
            PixelMethod::Reference,
            PixelMethod::FullPrecision,
            PixelMethod::Reference,
            PixelMethod::Perturbed,
        ]
    );
    let indices: Vec<(usize, usize, usize)> = seen.iter().map(|r| (r.index, r.x, r.y)).collect();
    assert_eq!(indices, vec![(0, 0, 0), (1, 1, 0), (2, 2, 0), (3, 3, 0)]);
    assert_eq!(
        *e.buffer(),
        vec![0, 0, 0, 255, 25, 25, 25, 255, 51, 51, 51, 255, 0, 0, 0, 255]
    );
}

#[test]
fn tiled_pass_matches_whole_frame_where_reference_converges() {
    let results = sample_results();
    let mut whole = explorer(2, 2, 2, 10);
    whole.fill_image_buffer(&results);
    let mut tiled = explorer(2, 2, 2, 10);
    tiled.begin_tiled_pass();
    while let Some(req) = tiled.next_request() {
        // Tile 0's reference converges, so its pixels are full-precision results.
        if req.index < 2 {
            assert_ne!(req.method, PixelMethod::Perturbed);
        }
        tiled.fill_image_buffer_pt(&results[req.index]);
    }
    assert_eq!(tiled.buffer()[..8], whole.buffer()[..8]);
}

#[test]
fn tiled_pass_over_a_200_by_150_grid() {
    let mut e = explorer(200, 150, 10000, 160);
    e.begin_tiled_pass();
    let mut count = 0;
    let mut references = Vec::new();
    while let Some(req) = e.next_request() {
        assert_eq!(req.index, count);
        assert_eq!((req.x, req.y), (count % 200, count / 200));
        if req.method == PixelMethod::Reference {
            references.push(req.index);
        }
        let b: Behavior = FractalBehavior::Converges((0, 0), 0, 160);
        e.fill_image_buffer_pt(&b);
        count += 1;
    }
    assert_eq!(count, 30000);
    assert_eq!(references, vec![0, 10000, 20000]);
    assert!(e.buffer().chunks(4).all(|p| p == [0, 0, 0, 255]));
}

#[test]
fn valid_configuration_is_accepted() {
    assert!(ViewConfiguration::new(4, 4, 4, 10, 16, 32).is_ok());
    assert!(ViewConfiguration::new(1, 1, 1, 1, 1, 1).is_ok());
    assert!(ViewConfiguration::new(200, 150, 10000, 160, 16, 32).is_ok());
}

#[test]
fn reference_endpoint_of_results() {
    let d: Behavior = FractalBehavior::Diverges((3, 1), 3, 2);
    assert_eq!(reference_endpoint(&d), Some(&(3, 1)));
    let c: Behavior = FractalBehavior::Converges((0, 1), 1, 10);
    assert_eq!(reference_endpoint(&c), None);
}

#[test]
fn tiled_pass_twice_gives_identical_buffers() {
    let results = sample_results();
    let mut e = explorer(2, 2, 2, 10);
    let mut passes = Vec::new();
    for _ in 0..2 {
        e.begin_tiled_pass();
        while let Some(req) = e.next_request() {
            e.fill_image_buffer_pt(&results[req.index]);
        }
        passes.push(e.buffer().clone());
    }
    assert_eq!(passes[0], passes[1]);
    assert_eq!(passes[0], vec![0, 0, 0, 255, 128, 128, 128, 255, 0, 0, 0, 255, 230, 230, 230, 255]);
}
