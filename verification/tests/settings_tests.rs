use par_fractal::settings::{sanitize_settings, switch_fractal, CoreSettings};
use par_fractal::types::{FractalType, RenderMode};

fn base() -> CoreSettings {
    CoreSettings {
        fractal_type: FractalType::Mandelbrot2D,
        render_mode: RenderMode::TwoD,
        palette_index: 3,
        max_iterations: 256,
        max_steps: 128,
        shadow_samples: 16,
        dof_samples: 8,
        attractor_accumulation_enabled: false,
        attractor_iterations_per_frame: 10_000,
    }
}

#[test]
fn switching_sets_mode_and_type_defaults() {
    let mut s = base();
    switch_fractal(&mut s, FractalType::MengerSponge3D);
    assert_eq!(s.render_mode, RenderMode::ThreeD);
    assert_eq!(s.max_iterations, 7);
    switch_fractal(&mut s, FractalType::Mandelbrot2D);
    assert_eq!(s.render_mode, RenderMode::TwoD);
    assert_eq!(s.max_iterations, 7, "Mandelbrot keeps the current count");
    switch_fractal(&mut s, FractalType::Buddhabrot2D);
    assert_eq!(s.max_iterations, 5000);
    assert!(s.attractor_accumulation_enabled);
    assert_eq!(s.attractor_iterations_per_frame, 50_000);
    switch_fractal(&mut s, FractalType::Lorenz3D);
    assert_eq!((s.render_mode, s.max_iterations), (RenderMode::ThreeD, 10000));
    assert_eq!(s.palette_index, 3);
}

#[test]
fn loading_clamps_every_budget() {
    let mut s = base();
    s.fractal_type = FractalType::Mandelbulb3D;
    s.max_iterations = 0;
    s.max_steps = 1_000_000;
    s.shadow_samples = 10_000;
    s.dof_samples = 65;
    s.attractor_iterations_per_frame = u32::MAX;
    s.palette_index = 99;
    let r = sanitize_settings(s, 21);
    assert_eq!(r.render_mode, RenderMode::ThreeD);
    assert_eq!(r.max_iterations, 1);
    assert_eq!(r.max_steps, 2_000);
    assert_eq!(r.shadow_samples, 512);
    assert_eq!(r.dof_samples, 64);
    assert_eq!(r.attractor_iterations_per_frame, 2_000_000);
    assert_eq!(r.palette_index, 20);
    assert_eq!(sanitize_settings(r, 21), r);
    assert_eq!(sanitize_settings(base(), 21), base());
}

#[test]
fn test_ifs_fractals_use_low_iteration_counts() {
    for fractal_type in [FractalType::SierpinskiGasket3D, FractalType::SierpinskiPyramid3D, FractalType::MengerSponge3D] {
        let mut s = CoreSettings::default();
        assert_eq!(s.max_iterations, 80, "escape-time default");
        switch_fractal(&mut s, fractal_type);
        assert!(s.max_iterations <= 16, "{:?} kept max_iterations = {}, which diverges", fractal_type, s.max_iterations);
    }
}

#[test]
fn test_3d_defaults_do_not_depend_on_the_previous_fractal() {
    // (type, whether its distance estimator reads the iteration count)
    let de_reads_iterations = [
        (FractalType::Mandelbulb3D, false),
        (FractalType::MengerSponge3D, true),
        (FractalType::SierpinskiPyramid3D, true),
        (FractalType::SierpinskiGasket3D, true),
        (FractalType::JuliaSet3D, false),
        (FractalType::Mandelbox3D, false),
        (FractalType::OctahedralIFS3D, false),
        (FractalType::IcosahedralIFS3D, false),
        (FractalType::ApollonianGasket3D, false),
        (FractalType::Kleinian3D, false),
        (FractalType::HybridMandelbulbJulia3D, true),
        (FractalType::QuaternionCubic3D, true),
    ];
    for (target, reads_iterations) in de_reads_iterations {
        let shape_via = |via: FractalType| {
            let mut s = CoreSettings::default();
            switch_fractal(&mut s, via);
            switch_fractal(&mut s, target);
            (s.fractal_type, s.render_mode, if reads_iterations { Some(s.max_iterations) } else { None })
        };
        assert_eq!(
            shape_via(FractalType::Threeply2D),
            shape_via(FractalType::MengerSponge3D),
            "{:?} depends on the previously selected fractal",
            target
        );
    }
}
