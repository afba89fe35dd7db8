//! Which panels of the user interface are open, and the defaults that
//! older saved settings fall back to for fields they lack.

use vstd::prelude::*;
use crate::text::owned;

verus! {

/// Open/closed state of each UI panel and overlay.
#[derive(Debug, Clone, Copy, PartialEq, Eq, Structural)]
pub struct UIState {
    pub fractal_type_open: bool,
    pub presets_open: bool,
    pub color_viz_open: bool,
    pub params_2d_open: bool,
    pub params_3d_open: bool,
    pub ray_marching_open: bool,
    pub camera_open: bool,
    pub shading_open: bool,
    pub lighting_open: bool,
    pub effects_open: bool,
    pub floor_open: bool,
    pub lod_open: bool,
    pub settings_open: bool,
    pub controls_open: bool,
    pub capture_window_open: bool,
    pub show_fps: bool,
    pub show_camera_info: bool,
}

impl Default for UIState {
    /// The fractal type, color, 2D/3D parameter, shading and lighting
    /// panels start open; everything else starts closed.
    fn default() -> (s: Self)
        ensures
            s.fractal_type_open && s.color_viz_open && s.params_2d_open && s.params_3d_open,
            s.shading_open && s.lighting_open,
            !s.presets_open && !s.ray_marching_open && !s.camera_open && !s.effects_open,
            !s.floor_open && !s.lod_open && !s.settings_open && !s.controls_open,
            !s.capture_window_open && !s.show_fps && !s.show_camera_info,
    {
        UIState {
            fractal_type_open: true,
            presets_open: false,
            color_viz_open: true,
            params_2d_open: true,
            params_3d_open: true,
            ray_marching_open: false,
            camera_open: false,
            shading_open: true,
            lighting_open: true,
            effects_open: false,
            floor_open: false,
            lod_open: false,
            settings_open: false,
            controls_open: false,
            capture_window_open: false,
            show_fps: false,
            show_camera_info: false,
        }
    }
}

/// Depth-of-field samples of settings saved without them.
pub fn default_dof_samples() -> (n: u32)
    ensures
        n == 2,
{
    2
}

/// Shadow mode of settings saved without one: soft shadows (2).
pub fn default_shadow_mode() -> (m: u32)
    ensures
        m == 2,
{
    2
}

/// Default of the boolean settings that are on unless saved off.
pub fn default_true() -> (b: bool)
    ensures
        b,
{
    true
}

/// Custom capture width of settings saved without one.
pub fn default_custom_width() -> (s: String)
    ensures
        s@ == "1920"@,
{
    owned("1920")
}

/// Custom capture height of settings saved without one.
pub fn default_custom_height() -> (s: String)
    ensures
        s@ == "1080"@,
{
    owned("1080")
}

} // verus!
