use par_fractal::redraw::{AnimationSources, FrameRequests, RedrawState};
use par_fractal::types::{FractalType, ProceduralPalette, RenderMode};

fn still_scene() -> AnimationSources {
    AnimationSources {
        auto_orbit: false,
        render_mode: RenderMode::TwoD,
        camera_transition_active: false,
        palette_animation_enabled: false,
        procedural_palette: ProceduralPalette::Static,
        lod_enabled: true,
        lod_transition_incomplete: false,
        accumulation_enabled: false,
        accumulation_paused: false,
        fractal_type: FractalType::Mandelbrot2D,
        recording: false,
    }
}

fn no_requests() -> FrameRequests {
    FrameRequests { ui_repaint: false, screenshot: false, hires_render: false }
}

#[test]
fn still_scene_is_not_animating() {
    assert!(!still_scene().is_scene_animation_active());
}

#[test]
fn each_animation_source_counts() {
    let mut a = still_scene();
    a.auto_orbit = true;
    assert!(!a.is_scene_animation_active(), "auto-orbit only rotates 3D views");
    a.render_mode = RenderMode::ThreeD;
    assert!(a.is_scene_animation_active());

    let mut a = still_scene();
    a.camera_transition_active = true;
    assert!(a.is_scene_animation_active());

    let mut a = still_scene();
    a.palette_animation_enabled = true;
    assert!(a.is_scene_animation_active());

    let mut a = still_scene();
    a.procedural_palette = ProceduralPalette::Firestrm;
    assert!(a.is_scene_animation_active());

    let mut a = still_scene();
    a.lod_transition_incomplete = true;
    assert!(a.is_scene_animation_active());
    a.lod_enabled = false;
    assert!(!a.is_scene_animation_active());

    let mut a = still_scene();
    a.accumulation_enabled = true;
    assert!(!a.is_scene_animation_active(), "Mandelbrot does not accumulate");
    a.fractal_type = FractalType::Buddhabrot2D;
    assert!(a.is_scene_animation_active());
    a.fractal_type = FractalType::Hopalong2D;
    assert!(a.is_scene_animation_active());
    a.accumulation_paused = true;
    assert!(!a.is_scene_animation_active());

    let mut a = still_scene();
    a.recording = true;
    assert!(a.is_scene_animation_active());
}

#[test]
fn first_frame_renders_then_loop_parks() {
    let mut s = RedrawState::new();
    let anim = still_scene();
    assert!(s.should_render_next_frame(&anim, &no_requests()));
    s.after_render_frame(&anim);
    assert!(!s.scene_dirty && !s.input_pending);
    assert!(!s.should_render_next_frame(&anim, &no_requests()));
    s.mark_scene_dirty();
    assert!(s.should_render_next_frame(&anim, &no_requests()));
}

#[test]
fn requests_force_a_frame() {
    let s = RedrawState { scene_dirty: false, input_pending: false };
    let anim = still_scene();
    let mut r = no_requests();
    r.ui_repaint = true;
    assert!(s.should_render_next_frame(&anim, &r));
    let mut r = no_requests();
    r.screenshot = true;
    assert!(s.should_render_next_frame(&anim, &r));
    let mut r = no_requests();
    r.hires_render = true;
    assert!(s.should_render_next_frame(&anim, &r));
    let s = RedrawState { scene_dirty: false, input_pending: true };
    assert!(s.should_render_next_frame(&anim, &no_requests()));
}

#[test]
fn animation_keeps_the_dirty_flag() {
    let mut s = RedrawState { scene_dirty: true, input_pending: true };
    let mut anim = still_scene();
    anim.palette_animation_enabled = true;
    s.after_render_frame(&anim);
    assert!(s.scene_dirty);
    assert!(!s.input_pending);
    assert!(s.should_render_next_frame(&anim, &no_requests()));
}
