use par_fractal::presets::{builtin_preset, builtin_presets, PresetCategory};
use par_fractal::types::FractalType;

#[test]
fn builtin_catalog_has_twenty_presets() {
    let all = builtin_presets();
    assert_eq!(all.len(), 20);
    assert_eq!(all[0].name, "Classic Mandelbulb");
    assert_eq!(all[0].category, PresetCategory::ThreeDFractals);
    assert_eq!(all[0].max_steps, Some(200));
    assert_eq!(all[0].palette_index, None);
    assert_eq!(all[19].name, "Sierpinski Gasket");
    assert_eq!(all[19].fractal_type, FractalType::SierpinskiGasket3D);
}

#[test]
fn builtin_preset_lookup_by_name() {
    let p = builtin_preset("Mandelbrot Classic").unwrap();
    assert_eq!(p.fractal_type, FractalType::Mandelbrot2D);
    assert_eq!(p.max_iterations, Some(256));
    assert_eq!(p.category, PresetCategory::TwoDFractals);
    assert!(builtin_preset("mandelbrot classic").is_none());
    assert!(builtin_preset("Unknown").is_none());
}
