use par_fractal::deep_zoom::{
    f32_bits_eq, f64_bits_eq, later_escape, perturbation_eligible, select_reference, FractalKind,
    PerturbationDriver, PollOutcome, ViewSignature,
};
use par_fractal::types::{FractalType, RenderMode};

/// Base-2 logarithm of the zoom above which perturbation engages.
const PERTURBATION_LOG2_THRESHOLD: f64 = 13.3;

fn past_threshold(zoom: f64) -> bool {
    zoom.log2() > PERTURBATION_LOG2_THRESHOLD
}

fn view(
    center: [f64; 2],
    center_precise: Option<[&str; 2]>,
    zoom: f64,
    aspect: f32,
    max_iter: u32,
    fractal_type: FractalType,
    julia_c: [f32; 2],
) -> ViewSignature {
    ViewSignature {
        center: (center[0].to_bits(), center[1].to_bits()),
        center_precise: center_precise.map(|p| (p[0].chars().collect(), p[1].chars().collect())),
        zoom: zoom.to_bits(),
        aspect: aspect.to_bits(),
        max_iter,
        fractal_type,
        julia_c: (julia_c[0].to_bits(), julia_c[1].to_bits()),
    }
}


#[test]
fn fractal_kind_from_type_maps_eligible_types() {
    assert_eq!(FractalKind::from_fractal_type(FractalType::Mandelbrot2D), Some(FractalKind::Mandelbrot));
    assert_eq!(FractalKind::from_fractal_type(FractalType::Julia2D), Some(FractalKind::Julia));
    assert_eq!(FractalKind::from_fractal_type(FractalType::BurningShip2D), Some(FractalKind::BurningShip));
    assert_eq!(FractalKind::from_fractal_type(FractalType::Tricorn2D), Some(FractalKind::Tricorn));
    assert_eq!(FractalKind::from_fractal_type(FractalType::Phoenix2D), None);
    assert_eq!(FractalKind::from_fractal_type(FractalType::Mandelbulb3D), None);
}

#[test]
fn later_escape_rule() {
    assert!(!later_escape(&None, &None));
    assert!(later_escape(&None, &Some(5)));
    assert!(!later_escape(&Some(5), &None));
    assert!(later_escape(&Some(6), &Some(5)));
    assert!(!later_escape(&Some(5), &Some(5)));
}

#[test]
fn selector_prefers_bounded_then_latest_then_first() {
    // Probe order: center first.
    assert_eq!(select_reference(&vec![Some(3), Some(9), None, Some(12), None]), 2);
    assert_eq!(select_reference(&vec![Some(3), Some(9), Some(9), Some(2)]), 1);
    // Ties keep the center.
    assert_eq!(select_reference(&vec![Some(4), Some(4), Some(4)]), 0);
    assert_eq!(select_reference(&vec![None, None]), 0);
}

#[test]
fn gate_covers_perturbation_eligible_types() {
    let z = 1e8; // well past the threshold
    assert!(perturbation_eligible(past_threshold(z), FractalType::Mandelbrot2D, RenderMode::TwoD));
    assert!(perturbation_eligible(past_threshold(z), FractalType::Julia2D, RenderMode::TwoD));
    assert!(perturbation_eligible(past_threshold(z), FractalType::BurningShip2D, RenderMode::TwoD));
    assert!(perturbation_eligible(past_threshold(z), FractalType::Tricorn2D, RenderMode::TwoD));

    // Below the threshold.
    assert!(!perturbation_eligible(past_threshold(1.0), FractalType::Mandelbrot2D, RenderMode::TwoD));
    // Exactly at the threshold is not eligible (strictly greater than).
    assert!(!perturbation_eligible(
        past_threshold(2f64.powf(PERTURBATION_LOG2_THRESHOLD)),
        FractalType::Mandelbrot2D,
        RenderMode::TwoD,
    ));
    // Just above it is eligible.
    assert!(perturbation_eligible(
        past_threshold(2f64.powf(PERTURBATION_LOG2_THRESHOLD) * 1.0001),
        FractalType::Mandelbrot2D,
        RenderMode::TwoD,
    ));

    // Non-perturbation fractal types or modes are ineligible.
    assert!(!perturbation_eligible(past_threshold(z), FractalType::Phoenix2D, RenderMode::TwoD));
    assert!(!perturbation_eligible(past_threshold(z), FractalType::Mandelbulb3D, RenderMode::ThreeD));
}

#[test]
fn note_view_dirty_only_on_change() {
    let mut d = PerturbationDriver::new();
    // Initial state is dirty (so the first eligible frame spawns).
    assert!(d.dirty);

    d.note_view(view([-0.5, 0.0], None, 1e8, 16.0 / 9.0, 1000, FractalType::Mandelbrot2D, [0.0, 0.0]));
    assert!(d.dirty, "first note is always a change from None");

    // Same view: not dirty.
    d.dirty = false;
    d.note_view(view([-0.5, 0.0], None, 1e8, 16.0 / 9.0, 1000, FractalType::Mandelbrot2D, [0.0, 0.0]));
    assert!(!d.dirty, "identical view must not mark dirty");

    // Each field change marks dirty.
    d.note_view(view([-0.5, 0.0001], None, 1e8, 16.0 / 9.0, 1000, FractalType::Mandelbrot2D, [0.0, 0.0]));
    assert!(d.dirty, "center change must mark dirty");
    d.dirty = false;
    d.note_view(view([-0.5, 0.0001], None, 2e8, 16.0 / 9.0, 1000, FractalType::Mandelbrot2D, [0.0, 0.0]));
    assert!(d.dirty, "zoom change must mark dirty");
    d.dirty = false;
    d.note_view(view([-0.5, 0.0001], None, 2e8, 4.0 / 3.0, 1000, FractalType::Mandelbrot2D, [0.0, 0.0]));
    assert!(d.dirty, "aspect change must mark dirty");
    d.dirty = false;
    d.note_view(view([-0.5, 0.0001], None, 2e8, 4.0 / 3.0, 1001, FractalType::Mandelbrot2D, [0.0, 0.0]));
    assert!(d.dirty, "max_iter change must mark dirty");
    d.dirty = false;
    d.note_view(view([-0.5, 0.0001], None, 2e8, 4.0 / 3.0, 1001, FractalType::Julia2D, [0.0, 0.0]));
    assert!(d.dirty, "fractal_type change must mark dirty");
    d.dirty = false;
    d.note_view(view([-0.5, 0.0001], None, 2e8, 4.0 / 3.0, 1001, FractalType::Julia2D, [-0.7, 0.27015]));
    assert!(d.dirty, "julia_c change must mark dirty");
}

#[test]
fn maybe_spawn_no_op_below_gate_and_no_duplicate_spawns() {
    let mut d = PerturbationDriver::new();
    // dirty, but zoom = 1 (below the threshold)
    d.note_view(view([-0.5, 0.0], None, 1.0, 16.0 / 9.0, 1000, FractalType::Mandelbrot2D, [0.0, 0.0]));

    let spawned = d.maybe_spawn(past_threshold(1.0), FractalType::Mandelbrot2D).is_some();
    assert!(!spawned);
    assert!(!d.computing, "below-threshold spawn attempt must not flip computing");
}

#[test]
fn note_view_dirty_on_precise_center_change() {
    let mut d = PerturbationDriver::new();
    let zoom = 1e8_f64;
    let aspect = 16.0 / 9.0;
    let max_iter = 1000u32;
    let jc = [0.0f32, 0.0];

    // Establish a baseline view (no precise center).
    d.note_view(view([-0.5, 0.0], None, zoom, aspect, max_iter, FractalType::Mandelbrot2D, jc));
    d.dirty = false;

    // Same f64 center, but a precise override now present: must invalidate.
    d.note_view(view(
        [-0.5, 0.0],
        Some(["-0.743643887037151071", "0.1318259042"]),
        zoom,
        aspect,
        max_iter,
        FractalType::Mandelbrot2D,
        jc,
    ));
    assert!(d.dirty, "setting a precise center must invalidate the orbit");

    // Re-recording the identical precise view must not re-invalidate.
    d.dirty = false;
    d.note_view(view(
        [-0.5, 0.0],
        Some(["-0.743643887037151071", "0.1318259042"]),
        zoom,
        aspect,
        max_iter,
        FractalType::Mandelbrot2D,
        jc,
    ));
    assert!(!d.dirty, "identical precise view must not re-invalidate");

    // Changing the precise string's digits (sub-f64) must invalidate.
    d.note_view(view(
        [-0.5, 0.0],
        Some(["-0.743643887037151087", "0.1318259042"]),
        zoom,
        aspect,
        max_iter,
        FractalType::Mandelbrot2D,
        jc,
    ));
    assert!(d.dirty, "sub-f64 change to the precise string must invalidate");

    // Clearing the precise override must invalidate (revert to f64 path).
    d.dirty = false;
    d.note_view(view([-0.5, 0.0], None, zoom, aspect, max_iter, FractalType::Mandelbrot2D, jc));
    assert!(d.dirty, "clearing the precise center must invalidate");
}

#[test]
fn driver_spawns_once_per_stale_view() {
    let mut d = PerturbationDriver::new();
    assert!(d.dirty && !d.computing);
    // Below the zoom threshold: no spawn, stays stale.
    assert_eq!(d.maybe_spawn(false, FractalType::Mandelbrot2D), None);
    assert!(d.dirty);
    // Past the zoom threshold: spawn for the Mandelbrot map.
    assert_eq!(d.maybe_spawn(true, FractalType::Mandelbrot2D), Some(FractalKind::Mandelbrot));
    assert!(d.computing && !d.dirty);
    // No duplicate spawn while computing, even after a view change.
    d.note_view(view([0.25, 0.0], None, 1e9, 1.0, 500, FractalType::Julia2D, [0.0, 0.0]));
    assert_eq!(d.maybe_spawn(true, FractalType::Julia2D), None);
    assert!(!d.poll(PollOutcome::Pending));
    assert!(d.computing);
    assert!(d.poll(PollOutcome::Received));
    assert!(!d.computing);
    // The view changed meanwhile: a new worker spawns.
    assert_eq!(d.maybe_spawn(true, FractalType::Julia2D), Some(FractalKind::Julia));
}

#[test]
fn driver_retries_after_dead_worker() {
    let mut d = PerturbationDriver::new();
    assert!(d.maybe_spawn(true, FractalType::Tricorn2D).is_some());
    assert!(!d.poll(PollOutcome::Disconnected));
    assert!(d.dirty && !d.computing);
    assert_eq!(d.maybe_spawn(true, FractalType::Tricorn2D), Some(FractalKind::Tricorn));
}

#[test]
fn driver_ignores_ineligible_types() {
    let mut d = PerturbationDriver::new();
    assert_eq!(d.maybe_spawn(true, FractalType::Newton2D), None);
    assert!(d.dirty && !d.computing);
}

#[test]
fn float_bits_compare_as_numbers() {
    assert!(f64_bits_eq(0.0f64.to_bits(), (-0.0f64).to_bits()));
    assert!(!f64_bits_eq(f64::NAN.to_bits(), f64::NAN.to_bits()));
    assert!(f64_bits_eq(1.5f64.to_bits(), 1.5f64.to_bits()));
    assert!(!f64_bits_eq(1.5f64.to_bits(), 1.25f64.to_bits()));
    assert!(f64_bits_eq(f64::INFINITY.to_bits(), f64::INFINITY.to_bits()));
    assert!(f32_bits_eq(0.0f32.to_bits(), (-0.0f32).to_bits()));
    assert!(!f32_bits_eq(f32::NAN.to_bits(), f32::NAN.to_bits()));
    assert!(!f32_bits_eq(2.0f32.to_bits(), 3.0f32.to_bits()));
}

#[test]
fn nan_view_always_counts_as_changed() {
    let mut d = PerturbationDriver::new();
    d.note_view(view([f64::NAN, 0.0], None, 1e8, 1.0, 100, FractalType::Mandelbrot2D, [0.0, 0.0]));
    d.dirty = false;
    d.note_view(view([f64::NAN, 0.0], None, 1e8, 1.0, 100, FractalType::Mandelbrot2D, [0.0, 0.0]));
    assert!(d.dirty);
    d.dirty = false;
    d.note_view(view([0.0, -0.0], None, 1e8, 1.0, 100, FractalType::Mandelbrot2D, [0.0, 0.0]));
    assert!(d.dirty);
    d.dirty = false;
    d.note_view(view([-0.0, 0.0], None, 1e8, 1.0, 100, FractalType::Mandelbrot2D, [0.0, 0.0]));
    assert!(!d.dirty, "signed zeros compare equal");
}

#[test]
fn probe_visits_the_center_first() {
    let v = par_fractal::deep_zoom::probe_offsets();
    assert_eq!(v.len(), 9);
    assert_eq!(v[0], (0, 0));
    let mut sorted = v.clone();
    sorted.sort();
    sorted.dedup();
    assert_eq!(sorted.len(), 9);
}
