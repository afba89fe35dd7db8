use par_fractal::types::{ChannelSource, ColorMode, FogMode, FractalType, ProceduralPalette, RenderMode, ShadingModel};

#[test]
fn gpu_discriminant_roundtrip() {
    assert_eq!(FractalType::Mandelbrot2D.gpu_id(), 0);
    assert_eq!(FractalType::Collatz2D.gpu_id(), 12);
    assert_eq!(FractalType::Mandelbulb3D.gpu_id(), 13);
    assert_eq!(FractalType::SierpinskiGasket3D.gpu_id(), 24);
    assert_eq!(FractalType::Buddhabrot2D.gpu_id(), 25);
    assert_eq!(FractalType::Hopalong2D.gpu_id(), 26);
    assert_eq!(FractalType::Threeply2D.gpu_id(), 31);
    assert_eq!(FractalType::Pickover3D.gpu_id(), 35);
    assert_eq!(FractalType::Rossler3D.gpu_id(), 37);

    assert_eq!(RenderMode::TwoD.gpu_id(), 0);
    assert_eq!(RenderMode::ThreeD.gpu_id(), 1);

    assert_eq!(ShadingModel::BlinnPhong.gpu_id(), 0);
    assert_eq!(ShadingModel::PBR.gpu_id(), 1);

    assert_eq!(ColorMode::Palette.gpu_id(), 0);
    assert_eq!(ColorMode::PerChannel.gpu_id(), 8);
    assert_eq!(ColorMode::DistanceGrayscale.gpu_id(), 15);

    assert_eq!(ChannelSource::Iterations.gpu_id(), 0);
    assert_eq!(ChannelSource::Constant.gpu_id(), 7);

    assert_eq!(FogMode::Linear.gpu_id(), 0);
    assert_eq!(FogMode::Quadratic.gpu_id(), 2);

    assert_eq!(ProceduralPalette::Static.gpu_id(), 0);
    assert_eq!(ProceduralPalette::Firestrm.gpu_id(), 1);
    assert_eq!(ProceduralPalette::Custom.gpu_id(), 12);
    for p in ProceduralPalette::all() {
        assert_eq!(p.shader_index(), p.gpu_id());
    }
    assert_eq!(ProceduralPalette::Static.shader_index(), 0);
}

#[test]
fn test_sprawling_3d_fractals_are_framed_from_outside() {
    let min_distance = [
        (FractalType::OctahedralIFS3D, 8.0),
        (FractalType::IcosahedralIFS3D, 8.0),
        (FractalType::ApollonianGasket3D, 7.0),
    ];
    for (fractal_type, minimum) in min_distance {
        let distance = fractal_type.default_camera_distance_tenths() as f32 / 10.0;
        assert!(
            distance >= minimum,
            "{fractal_type:?} frames from {distance}, inside its ~{minimum} extent"
        );
    }
}

#[test]
fn test_every_3d_fractal_declares_a_positive_camera_distance() {
    for fractal_type in [
        FractalType::Mandelbulb3D,
        FractalType::MengerSponge3D,
        FractalType::SierpinskiPyramid3D,
        FractalType::SierpinskiGasket3D,
        FractalType::JuliaSet3D,
        FractalType::Mandelbox3D,
        FractalType::OctahedralIFS3D,
        FractalType::IcosahedralIFS3D,
        FractalType::ApollonianGasket3D,
        FractalType::Kleinian3D,
        FractalType::HybridMandelbulbJulia3D,
        FractalType::QuaternionCubic3D,
        FractalType::Pickover3D,
        FractalType::Lorenz3D,
        FractalType::Rossler3D,
    ] {
        assert!(fractal_type.is_3d(), "{fractal_type:?} is not a 3D type");
        let distance = fractal_type.default_camera_distance_tenths() as f32 / 10.0;
        assert!(
            distance > 0.0 && distance.is_finite(),
            "{fractal_type:?} declares camera distance {distance}"
        );
    }
}

#[test]
fn attractor_and_accumulation_classification() {
    assert!(FractalType::Hopalong2D.is_2d_attractor());
    assert!(!FractalType::Mandelbrot2D.is_2d_attractor());
    assert!(FractalType::Buddhabrot2D.is_buddhabrot());
    assert!(FractalType::Buddhabrot2D.uses_accumulation());
    assert!(FractalType::Chip2D.uses_accumulation());
    assert!(!FractalType::Lorenz3D.uses_accumulation());
    assert_eq!(FractalType::Hopalong2D.attractor_index(), 0);
    assert_eq!(FractalType::Threeply2D.attractor_index(), 5);
    assert_eq!(FractalType::Julia2D.attractor_index(), 0);
    assert!(FractalType::Lorenz3D.is_3d());
    assert!(!FractalType::Buddhabrot2D.is_3d());
}

#[test]
fn render_mode_follows_dimension() {
    assert_eq!(FractalType::Mandelbulb3D.render_mode(), RenderMode::ThreeD);
    assert_eq!(FractalType::Rossler3D.render_mode(), RenderMode::ThreeD);
    assert_eq!(FractalType::Julia2D.render_mode(), RenderMode::TwoD);
    assert_eq!(FractalType::Buddhabrot2D.render_mode(), RenderMode::TwoD);
    assert_eq!(FractalType::Mandelbrot2D.default_camera_distance_tenths(), 0);
    assert_eq!(FractalType::Mandelbulb3D.default_camera_distance_tenths(), 50);
}

#[test]
fn filename_safe_names() {
    assert_eq!(FractalType::Mandelbrot2D.filename_safe_name(), "mandelbrot");
    assert_eq!(FractalType::JuliaSet3D.filename_safe_name(), "julia_3d");
    assert_eq!(FractalType::HybridMandelbulbJulia3D.filename_safe_name(), "hybrid_bulb_julia");
    assert_eq!(FractalType::Rossler3D.filename_safe_name(), "rossler");
}

#[test]
fn procedural_palette_names_and_indices() {
    assert_eq!(ProceduralPalette::Static.name(), "None (Static)");
    assert_eq!(ProceduralPalette::Firestrm.name(), "Fire Storm");
    assert_eq!(ProceduralPalette::Viridis.shader_index(), 11);
    assert_eq!(ProceduralPalette::all().len(), 12);
    assert_eq!(ProceduralPalette::default_palette(), ProceduralPalette::Static);
}

#[test]
fn color_mode_tool_codes() {
    assert_eq!(ColorMode::from_tool_code(2), ColorMode::Normals);
    assert_eq!(ColorMode::from_tool_code(6), ColorMode::LocalPosition);
    assert_eq!(ColorMode::from_tool_code(7), ColorMode::Palette);
}
