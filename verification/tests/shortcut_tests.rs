use par_fractal::shortcuts::{
    fewer_iterations, fewer_steps, more_iterations, more_steps, next_shadow_mode, shortcut_action, step_detail,
    ShortcutAction, ShortcutKey,
};
use par_fractal::types::{FractalType, ProceduralPalette, RenderMode};

#[test]
fn digits_pick_2d_fractals_without_reset() {
    assert_eq!(
        shortcut_action(ShortcutKey::Digit1, false, false),
        Some(ShortcutAction::SwitchFractal { fractal_type: FractalType::Mandelbrot2D, reset_view: false })
    );
    assert_eq!(
        shortcut_action(ShortcutKey::Digit0, true, true),
        Some(ShortcutAction::SwitchFractal { fractal_type: FractalType::Nova2D, reset_view: false })
    );
}

#[test]
fn function_keys_pick_3d_fractals_and_reset() {
    assert_eq!(
        shortcut_action(ShortcutKey::F1, false, false),
        Some(ShortcutAction::SwitchFractal { fractal_type: FractalType::Mandelbulb3D, reset_view: true })
    );
    assert_eq!(
        shortcut_action(ShortcutKey::F10, false, false),
        Some(ShortcutAction::SwitchFractal { fractal_type: FractalType::HybridMandelbulbJulia3D, reset_view: true })
    );
    assert_eq!(shortcut_action(ShortcutKey::F12, false, false), Some(ShortcutAction::QueueScreenshot));
}

#[test]
fn modifiers_select_the_variant() {
    assert_eq!(shortcut_action(ShortcutKey::KeyP, false, false), Some(ShortcutAction::NextPalette));
    assert_eq!(shortcut_action(ShortcutKey::KeyP, true, false), Some(ShortcutAction::CycleProceduralPalette));
    assert_eq!(shortcut_action(ShortcutKey::KeyD, false, false), None);
    assert_eq!(shortcut_action(ShortcutKey::KeyD, true, false), Some(ShortcutAction::ToggleLodDebug));
    assert_eq!(shortcut_action(ShortcutKey::KeyK, false, false), None);
    assert_eq!(shortcut_action(ShortcutKey::KeyK, false, true), Some(ShortcutAction::OpenCommandPalette));
    assert_eq!(shortcut_action(ShortcutKey::Slash, false, false), Some(ShortcutAction::OpenCommandPalette));
}

#[test]
fn iteration_keys_step_and_clamp() {
    assert_eq!(fewer_iterations(256), 224);
    assert_eq!(fewer_iterations(40), 32);
    assert_eq!(fewer_iterations(0), 32);
    assert_eq!(more_iterations(256), 288);
    assert_eq!(more_iterations(2040), 2048);
    assert_eq!(fewer_steps(100), 90);
    assert_eq!(fewer_steps(35), 30);
    assert_eq!(more_steps(100), 110);
    assert_eq!(more_steps(495), 500);
    assert_eq!(step_detail(RenderMode::TwoD, true, 256, 100), (288, 100));
    assert_eq!(step_detail(RenderMode::ThreeD, false, 256, 100), (256, 90));
}

#[test]
fn shadow_mode_and_procedural_palette_cycle() {
    assert_eq!(next_shadow_mode(0), 1);
    assert_eq!(next_shadow_mode(1), 2);
    assert_eq!(next_shadow_mode(2), 0);
    let mut p = ProceduralPalette::Static;
    p = p.cycled();
    assert_eq!(p, ProceduralPalette::Firestrm);
    for _ in 0..13 {
        p = p.cycled();
    }
    assert_eq!(p, ProceduralPalette::Firestrm);
    assert_eq!(ProceduralPalette::Custom.cycled(), ProceduralPalette::Static);
}
