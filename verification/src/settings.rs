//! The integer and enum part of the fractal parameters: which fractal and
//! render mode are active, the iteration and sample budgets, the palette
//! index and the accumulation switches. The render mode always agrees with
//! the fractal type: switching fractals and loading settings both derive
//! it from the type.

use vstd::prelude::*;
use crate::types::{FractalType, RenderMode};

verus! {

/// The integer and enum settings of the fractal parameters.
#[derive(Debug, Clone, Copy, PartialEq, Eq, Structural)]
pub struct CoreSettings {
    pub fractal_type: FractalType,
    pub render_mode: RenderMode,
    /// Index into the static palette catalog.
    pub palette_index: usize,
    /// Escape-time iteration budget (2D) or iteration count (3D, IFS).
    pub max_iterations: u32,
    /// Ray-march step budget.
    pub max_steps: u32,
    pub shadow_samples: u32,
    pub dof_samples: u32,
    pub attractor_accumulation_enabled: bool,
    pub attractor_iterations_per_frame: u32,
}

impl Default for CoreSettings {
    /// The start-up settings: the Mandelbrot set in 2D, the first palette,
    /// 80 iterations, 200 ray steps, 128 shadow and 2 depth-of-field
    /// samples, accumulation off with 10 000 samples per frame.
    fn default() -> (s: Self)
        ensures
            s == (CoreSettings {
                fractal_type: FractalType::Mandelbrot2D,
                render_mode: RenderMode::TwoD,
                palette_index: 0,
                max_iterations: 80,
                max_steps: 200,
                shadow_samples: 128,
                dof_samples: 2,
                attractor_accumulation_enabled: false,
                attractor_iterations_per_frame: 10_000,
            }),
    {
        CoreSettings {
            fractal_type: FractalType::Mandelbrot2D,
            render_mode: RenderMode::TwoD,
            palette_index: 0,
            max_iterations: 80,
            max_steps: 200,
            shadow_samples: 128,
            dof_samples: 2,
            attractor_accumulation_enabled: false,
            attractor_iterations_per_frame: 10_000,
        }
    }
}

/// The render mode a fractal type needs.
pub open spec fn mode_of(t: FractalType) -> RenderMode {
    if t.spec_is_3d() { RenderMode::ThreeD } else { RenderMode::TwoD }
}

/// The render mode agrees with the fractal type.
pub open spec fn consistent(s: CoreSettings) -> bool {
    s.render_mode == mode_of(s.fractal_type)
}

/// The iteration count a switch to `t` sets; types without a default of
/// their own keep `current`. The iterated-function-system types (sponge,
/// pyramid, gasket) get low counts, since their points grow with every step.
pub open spec fn spec_switch_iterations(t: FractalType, current: u32) -> u32 {
    match t {
        FractalType::MengerSponge3D => 7,
        FractalType::SierpinskiPyramid3D => 12,
        FractalType::SierpinskiGasket3D => 8,
        FractalType::Nova2D | FractalType::Lyapunov2D => 16,
        FractalType::SierpinskiTriangle2D => 30,
        FractalType::HybridMandelbulbJulia3D | FractalType::QuaternionCubic3D => 8,
        FractalType::Hopalong2D
        | FractalType::Martin2D
        | FractalType::Gingerbreadman2D
        | FractalType::Chip2D
        | FractalType::Quadruptwo2D
        | FractalType::Threeply2D => 1000,
        FractalType::Buddhabrot2D => 5000,
        FractalType::Pickover3D | FractalType::Lorenz3D | FractalType::Rossler3D => 10000,
        _ => current,
    }
}

/// Whether the distance estimator of a ray-marched 3D type reads the
/// iteration count.
pub open spec fn reads_iterations(t: FractalType) -> bool {
    t == FractalType::MengerSponge3D || t == FractalType::SierpinskiPyramid3D || t
        == FractalType::SierpinskiGasket3D || t == FractalType::HybridMandelbulbJulia3D || t
        == FractalType::QuaternionCubic3D
}

/// The settings after a switch to `t` from settings `s`.
pub open spec fn spec_switched(s: CoreSettings, t: FractalType) -> CoreSettings {
    CoreSettings {
        fractal_type: t,
        render_mode: mode_of(t),
        max_iterations: spec_switch_iterations(t, s.max_iterations),
        attractor_accumulation_enabled: if t == FractalType::Buddhabrot2D {
            true
        } else {
            s.attractor_accumulation_enabled
        },
        attractor_iterations_per_frame: if t == FractalType::Buddhabrot2D {
            50_000
        } else {
            s.attractor_iterations_per_frame
        },
        ..s
    }
}

/// Selecting a ray-marched 3D type (shader identifiers 13 to 24) gives the
/// same type, render mode and, where the type's distance estimator reads
/// it, the same iteration count, whatever was selected before; every
/// iterated-function-system type gets at most 16 iterations.
pub proof fn lemma_3d_switch_independent(a: CoreSettings, b: CoreSettings, t: FractalType)
    requires
        13 <= t.spec_gpu_id() <= 24,
    ensures
        spec_switched(a, t).fractal_type == spec_switched(b, t).fractal_type,
        spec_switched(a, t).render_mode == spec_switched(b, t).render_mode,
        reads_iterations(t) ==> spec_switched(a, t).max_iterations == spec_switched(b, t).max_iterations,
        (t == FractalType::MengerSponge3D || t == FractalType::SierpinskiPyramid3D || t
            == FractalType::SierpinskiGasket3D) ==> spec_switched(a, t).max_iterations <= 16,
{
}

/// Switches to fractal type `t`: the render mode follows the type, the
/// type's default iteration count is set, and the Buddhabrot switches
/// accumulation on with 50 000 samples per frame. Every other setting is
/// kept.
pub fn switch_fractal(s: &mut CoreSettings, t: FractalType)
    ensures
        final(s).fractal_type == t,
        final(s).render_mode == mode_of(t),
        final(s).max_iterations == spec_switch_iterations(t, old(s).max_iterations),
        final(s).attractor_accumulation_enabled == (if t == FractalType::Buddhabrot2D {
            true
        } else {
            old(s).attractor_accumulation_enabled
        }),
        final(s).attractor_iterations_per_frame == (if t == FractalType::Buddhabrot2D {
            50_000
        } else {
            old(s).attractor_iterations_per_frame
        }),
        final(s).palette_index == old(s).palette_index,
        final(s).max_steps == old(s).max_steps,
        final(s).shadow_samples == old(s).shadow_samples,
        final(s).dof_samples == old(s).dof_samples,
        *final(s) == spec_switched(*old(s), t),
        consistent(*final(s)),
{
    s.fractal_type = t;
    s.render_mode = t.render_mode();
    match t {
        FractalType::MengerSponge3D => {
            s.max_iterations = 7;
        },
        FractalType::SierpinskiPyramid3D => {
            s.max_iterations = 12;
        },
        FractalType::SierpinskiGasket3D => {
            s.max_iterations = 8;
        },
        FractalType::Nova2D | FractalType::Lyapunov2D => {
            s.max_iterations = 16;
        },
        FractalType::SierpinskiTriangle2D => {
            s.max_iterations = 30;
        },
        FractalType::HybridMandelbulbJulia3D | FractalType::QuaternionCubic3D => {
            s.max_iterations = 8;
        },
        FractalType::Hopalong2D
        | FractalType::Martin2D
        | FractalType::Gingerbreadman2D
        | FractalType::Chip2D
        | FractalType::Quadruptwo2D
        | FractalType::Threeply2D => {
            s.max_iterations = 1000;
        },
        FractalType::Buddhabrot2D => {
            s.max_iterations = 5000;
            s.attractor_accumulation_enabled = true;
            s.attractor_iterations_per_frame = 50_000;
        },
        FractalType::Pickover3D | FractalType::Lorenz3D | FractalType::Rossler3D => {
            s.max_iterations = 10000;
        },
        _ => {},
    }
}

/// `x` clamped to `lo..=hi`.
pub open spec fn clamp(x: int, lo: int, hi: int) -> int {
    if x < lo { lo } else if x > hi { hi } else { x }
}

fn clamp_u32(x: u32, lo: u32, hi: u32) -> (r: u32)
    requires
        lo <= hi,
    ensures
        r == clamp(x as int, lo as int, hi as int),
{
    if x < lo { lo } else if x > hi { hi } else { x }
}

/// Settings loaded from outside, made safe to render: every
/// resource-driving integer is clamped (iterations to 1..=100 000, ray
/// steps to 1..=2 000, accumulation samples to 1..=2 000 000, shadow
/// samples to at most 512, depth-of-field samples to at most 64), the
/// palette index is kept inside the catalog, and the render mode is derived
/// from the fractal type.
pub fn sanitize_settings(s: CoreSettings, palette_count: usize) -> (r: CoreSettings)
    requires
        palette_count > 0,
    ensures
        r.fractal_type == s.fractal_type,
        r.render_mode == mode_of(s.fractal_type),
        r.palette_index == (if s.palette_index < palette_count { s.palette_index } else { (palette_count - 1) as usize }),
        r.max_iterations == clamp(s.max_iterations as int, 1, 100_000),
        r.max_steps == clamp(s.max_steps as int, 1, 2_000),
        r.attractor_iterations_per_frame == clamp(s.attractor_iterations_per_frame as int, 1, 2_000_000),
        r.shadow_samples == (if s.shadow_samples <= 512 { s.shadow_samples } else { 512 }),
        r.dof_samples == (if s.dof_samples <= 64 { s.dof_samples } else { 64 }),
        r.attractor_accumulation_enabled == s.attractor_accumulation_enabled,
        r == spec_sanitize(s, palette_count),
        consistent(r),
{
    CoreSettings {
        fractal_type: s.fractal_type,
        render_mode: s.fractal_type.render_mode(),
        palette_index: if s.palette_index < palette_count { s.palette_index } else { palette_count - 1 },
        max_iterations: clamp_u32(s.max_iterations, 1, 100_000),
        max_steps: clamp_u32(s.max_steps, 1, 2_000),
        shadow_samples: if s.shadow_samples <= 512 { s.shadow_samples } else { 512 },
        dof_samples: if s.dof_samples <= 64 { s.dof_samples } else { 64 },
        attractor_accumulation_enabled: s.attractor_accumulation_enabled,
        attractor_iterations_per_frame: clamp_u32(s.attractor_iterations_per_frame, 1, 2_000_000),
    }
}

/// The sanitized form of `s`, as `sanitize_settings` returns it.
pub open spec fn spec_sanitize(s: CoreSettings, palette_count: usize) -> CoreSettings {
    CoreSettings {
        fractal_type: s.fractal_type,
        render_mode: mode_of(s.fractal_type),
        palette_index: if s.palette_index < palette_count { s.palette_index } else { (palette_count - 1) as usize },
        max_iterations: clamp(s.max_iterations as int, 1, 100_000) as u32,
        max_steps: clamp(s.max_steps as int, 1, 2_000) as u32,
        shadow_samples: if s.shadow_samples <= 512 { s.shadow_samples } else { 512 },
        dof_samples: if s.dof_samples <= 64 { s.dof_samples } else { 64 },
        attractor_accumulation_enabled: s.attractor_accumulation_enabled,
        attractor_iterations_per_frame: clamp(s.attractor_iterations_per_frame as int, 1, 2_000_000) as u32,
    }
}

/// Sanitized settings are left as they are by a second sanitizing, and
/// their render mode agrees with their fractal type.
pub proof fn lemma_sanitize_idempotent(s: CoreSettings, palette_count: usize)
    requires
        palette_count > 0,
    ensures
        spec_sanitize(spec_sanitize(s, palette_count), palette_count) == spec_sanitize(s, palette_count),
        consistent(spec_sanitize(s, palette_count)),
{
}

/// The iteration counts a switch sets, whatever the count was before: 7
/// for the Menger sponge, 12 for the Sierpinski pyramid, 8 for the
/// Sierpinski gasket, the hybrid bulb and the cubic quaternion, 16 for Nova
/// and Lyapunov, 30 for the Sierpinski triangle, 1000 for the 2D
/// attractors, 5000 for the Buddhabrot and 10 000 for the 3D attractors.
/// The escape-time types, the other ray-marched types and the carpet keep
/// the current count.
pub proof fn lemma_switch_iteration_table(t: FractalType, current: u32)
    ensures
        spec_switch_iterations(FractalType::MengerSponge3D, current) == 7,
        spec_switch_iterations(FractalType::SierpinskiPyramid3D, current) == 12,
        spec_switch_iterations(FractalType::SierpinskiGasket3D, current) == 8,
        spec_switch_iterations(FractalType::HybridMandelbulbJulia3D, current) == 8,
        spec_switch_iterations(FractalType::QuaternionCubic3D, current) == 8,
        spec_switch_iterations(FractalType::Nova2D, current) == 16,
        spec_switch_iterations(FractalType::Lyapunov2D, current) == 16,
        spec_switch_iterations(FractalType::SierpinskiTriangle2D, current) == 30,
        t.spec_is_2d_attractor() ==> spec_switch_iterations(t, current) == 1000,
        spec_switch_iterations(FractalType::Buddhabrot2D, current) == 5000,
        spec_switch_iterations(FractalType::Pickover3D, current) == 10000,
        spec_switch_iterations(FractalType::Lorenz3D, current) == 10000,
        spec_switch_iterations(FractalType::Rossler3D, current) == 10000,
        (t.spec_gpu_id() <= 12 && t != FractalType::Nova2D && t != FractalType::Lyapunov2D && t
            != FractalType::SierpinskiTriangle2D) ==> spec_switch_iterations(t, current) == current,
        (13 <= t.spec_gpu_id() <= 24 && !reads_iterations(t)) ==> spec_switch_iterations(t, current) == current,
{
}

} // verus!
