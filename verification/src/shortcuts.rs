//! Keyboard shortcuts: which key does what, and the integer settings they
//! step.
//!
//! Digits pick 2D fractals, function keys pick 3D fractals (and reset the
//! camera), letters toggle features, and a few keys step iteration counts,
//! the shadow mode and the palettes.

use vstd::prelude::*;
use crate::types::{FractalType, ProceduralPalette, RenderMode};

verus! {

/// The keys that have a shortcut.
#[derive(Debug, Clone, Copy, PartialEq, Eq, Structural)]
pub enum ShortcutKey {
    KeyH,
    KeyF,
    KeyV,
    KeyR,
    Digit1,
    Digit2,
    Digit3,
    Digit4,
    Digit5,
    Digit6,
    Digit7,
    Digit8,
    Digit9,
    Digit0,
    F1,
    F2,
    F3,
    F4,
    F5,
    F6,
    F7,
    F8,
    F9,
    F10,
    F12,
    KeyP,
    KeyO,
    BracketLeft,
    BracketRight,
    Minus,
    Equal,
    Comma,
    Period,
    KeyL,
    KeyT,
    KeyG,
    KeyB,
    KeyI,
    KeyD,
    Slash,
    KeyK,
}

/// What a shortcut does.
#[derive(Debug, Clone, Copy, PartialEq, Eq, Structural)]
pub enum ShortcutAction {
    ToggleUi,
    ToggleFps,
    TogglePerformanceOverlay,
    ResetView,
    /// Switch to a fractal type, resetting the camera when asked.
    SwitchFractal { fractal_type: FractalType, reset_view: bool },
    CycleProceduralPalette,
    NextPalette,
    QueueScreenshot,
    ToggleAutoOrbit,
    SlowerOrbit,
    FasterOrbit,
    FewerIterations,
    MoreIterations,
    LowerPower,
    HigherPower,
    ToggleAmbientOcclusion,
    ToggleDepthOfField,
    ToggleFloor,
    CycleShadowMode,
    ToggleLod,
    ToggleLodDebug,
    OpenCommandPalette,
}

/// The shortcut table. `shift` is the state of either Shift key;
/// `command` is the platform's command modifier (Ctrl, or Cmd on macOS).
pub open spec fn spec_shortcut_action(key: ShortcutKey, shift: bool, command: bool) -> Option<ShortcutAction> {
    match key {
        ShortcutKey::KeyH => Some(ShortcutAction::ToggleUi),
        ShortcutKey::KeyF => Some(ShortcutAction::ToggleFps),
        ShortcutKey::KeyV => Some(ShortcutAction::TogglePerformanceOverlay),
        ShortcutKey::KeyR => Some(ShortcutAction::ResetView),
        ShortcutKey::Digit1 => Some(switch_2d(FractalType::Mandelbrot2D)),
        ShortcutKey::Digit2 => Some(switch_2d(FractalType::Julia2D)),
        ShortcutKey::Digit3 => Some(switch_2d(FractalType::Sierpinski2D)),
        ShortcutKey::Digit4 => Some(switch_2d(FractalType::BurningShip2D)),
        ShortcutKey::Digit5 => Some(switch_2d(FractalType::Tricorn2D)),
        ShortcutKey::Digit6 => Some(switch_2d(FractalType::Phoenix2D)),
        ShortcutKey::Digit7 => Some(switch_2d(FractalType::Celtic2D)),
        ShortcutKey::Digit8 => Some(switch_2d(FractalType::Newton2D)),
        ShortcutKey::Digit9 => Some(switch_2d(FractalType::Lyapunov2D)),
        ShortcutKey::Digit0 => Some(switch_2d(FractalType::Nova2D)),
        ShortcutKey::F1 => Some(switch_3d(FractalType::Mandelbulb3D)),
        ShortcutKey::F2 => Some(switch_3d(FractalType::MengerSponge3D)),
        ShortcutKey::F3 => Some(switch_3d(FractalType::SierpinskiPyramid3D)),
        ShortcutKey::F4 => Some(switch_3d(FractalType::JuliaSet3D)),
        ShortcutKey::F5 => Some(switch_3d(FractalType::Mandelbox3D)),
        ShortcutKey::F6 => Some(switch_3d(FractalType::OctahedralIFS3D)),
        ShortcutKey::F7 => Some(switch_3d(FractalType::IcosahedralIFS3D)),
        ShortcutKey::F8 => Some(switch_3d(FractalType::ApollonianGasket3D)),
        ShortcutKey::F9 => Some(switch_3d(FractalType::Kleinian3D)),
        ShortcutKey::F10 => Some(switch_3d(FractalType::HybridMandelbulbJulia3D)),
        ShortcutKey::F12 => Some(ShortcutAction::QueueScreenshot),
        ShortcutKey::KeyP => Some(
            if shift {
                ShortcutAction::CycleProceduralPalette
            } else {
                ShortcutAction::NextPalette
            },
        ),
        ShortcutKey::KeyO => Some(ShortcutAction::ToggleAutoOrbit),
        ShortcutKey::BracketLeft => Some(ShortcutAction::SlowerOrbit),
        ShortcutKey::BracketRight => Some(ShortcutAction::FasterOrbit),
        ShortcutKey::Minus => Some(ShortcutAction::FewerIterations),
        ShortcutKey::Equal => Some(ShortcutAction::MoreIterations),
        ShortcutKey::Comma => Some(ShortcutAction::LowerPower),
        ShortcutKey::Period => Some(ShortcutAction::HigherPower),
        ShortcutKey::KeyL => Some(ShortcutAction::ToggleAmbientOcclusion),
        ShortcutKey::KeyT => Some(ShortcutAction::ToggleDepthOfField),
        ShortcutKey::KeyG => Some(ShortcutAction::ToggleFloor),
        ShortcutKey::KeyB => Some(ShortcutAction::CycleShadowMode),
        ShortcutKey::KeyI => Some(ShortcutAction::ToggleLod),
        ShortcutKey::KeyD => if shift {
            Some(ShortcutAction::ToggleLodDebug)
        } else {
            None
        },
        ShortcutKey::Slash => Some(ShortcutAction::OpenCommandPalette),
        ShortcutKey::KeyK => if command {
            Some(ShortcutAction::OpenCommandPalette)
        } else {
            None
        },
    }
}

pub open spec fn switch_2d(t: FractalType) -> ShortcutAction {
    ShortcutAction::SwitchFractal { fractal_type: t, reset_view: false }
}

pub open spec fn switch_3d(t: FractalType) -> ShortcutAction {
    ShortcutAction::SwitchFractal { fractal_type: t, reset_view: true }
}

/// The action of a key press, or `None` when the key has no shortcut in
/// this modifier state (the press then goes to the view's own input
/// handling).
pub fn shortcut_action(key: ShortcutKey, shift: bool, command: bool) -> (a: Option<ShortcutAction>)
    ensures
        a == spec_shortcut_action(key, shift, command),
{
    match key {
        ShortcutKey::KeyH => Some(ShortcutAction::ToggleUi),
        ShortcutKey::KeyF => Some(ShortcutAction::ToggleFps),
        ShortcutKey::KeyV => Some(ShortcutAction::TogglePerformanceOverlay),
        ShortcutKey::KeyR => Some(ShortcutAction::ResetView),
        ShortcutKey::Digit1 => Some(ShortcutAction::SwitchFractal { fractal_type: FractalType::Mandelbrot2D, reset_view: false }),
        ShortcutKey::Digit2 => Some(ShortcutAction::SwitchFractal { fractal_type: FractalType::Julia2D, reset_view: false }),
        ShortcutKey::Digit3 => Some(ShortcutAction::SwitchFractal { fractal_type: FractalType::Sierpinski2D, reset_view: false }),
        ShortcutKey::Digit4 => Some(ShortcutAction::SwitchFractal { fractal_type: FractalType::BurningShip2D, reset_view: false }),
        ShortcutKey::Digit5 => Some(ShortcutAction::SwitchFractal { fractal_type: FractalType::Tricorn2D, reset_view: false }),
        ShortcutKey::Digit6 => Some(ShortcutAction::SwitchFractal { fractal_type: FractalType::Phoenix2D, reset_view: false }),
        ShortcutKey::Digit7 => Some(ShortcutAction::SwitchFractal { fractal_type: FractalType::Celtic2D, reset_view: false }),
        ShortcutKey::Digit8 => Some(ShortcutAction::SwitchFractal { fractal_type: FractalType::Newton2D, reset_view: false }),
        ShortcutKey::Digit9 => Some(ShortcutAction::SwitchFractal { fractal_type: FractalType::Lyapunov2D, reset_view: false }),
        ShortcutKey::Digit0 => Some(ShortcutAction::SwitchFractal { fractal_type: FractalType::Nova2D, reset_view: false }),
        ShortcutKey::F1 => Some(ShortcutAction::SwitchFractal { fractal_type: FractalType::Mandelbulb3D, reset_view: true }),
        ShortcutKey::F2 => Some(ShortcutAction::SwitchFractal { fractal_type: FractalType::MengerSponge3D, reset_view: true }),
        ShortcutKey::F3 => Some(ShortcutAction::SwitchFractal { fractal_type: FractalType::SierpinskiPyramid3D, reset_view: true }),
        ShortcutKey::F4 => Some(ShortcutAction::SwitchFractal { fractal_type: FractalType::JuliaSet3D, reset_view: true }),
        ShortcutKey::F5 => Some(ShortcutAction::SwitchFractal { fractal_type: FractalType::Mandelbox3D, reset_view: true }),
        ShortcutKey::F6 => Some(ShortcutAction::SwitchFractal { fractal_type: FractalType::OctahedralIFS3D, reset_view: true }),
        ShortcutKey::F7 => Some(ShortcutAction::SwitchFractal { fractal_type: FractalType::IcosahedralIFS3D, reset_view: true }),
        ShortcutKey::F8 => Some(ShortcutAction::SwitchFractal { fractal_type: FractalType::ApollonianGasket3D, reset_view: true }),
        ShortcutKey::F9 => Some(ShortcutAction::SwitchFractal { fractal_type: FractalType::Kleinian3D, reset_view: true }),
        ShortcutKey::F10 => Some(ShortcutAction::SwitchFractal { fractal_type: FractalType::HybridMandelbulbJulia3D, reset_view: true }),
        ShortcutKey::F12 => Some(ShortcutAction::QueueScreenshot),
        ShortcutKey::KeyP => {
            if shift {
                Some(ShortcutAction::CycleProceduralPalette)
            } else {
                Some(ShortcutAction::NextPalette)
            }
        },
        ShortcutKey::KeyO => Some(ShortcutAction::ToggleAutoOrbit),
        ShortcutKey::BracketLeft => Some(ShortcutAction::SlowerOrbit),
        ShortcutKey::BracketRight => Some(ShortcutAction::FasterOrbit),
        ShortcutKey::Minus => Some(ShortcutAction::FewerIterations),
        ShortcutKey::Equal => Some(ShortcutAction::MoreIterations),
        ShortcutKey::Comma => Some(ShortcutAction::LowerPower),
        ShortcutKey::Period => Some(ShortcutAction::HigherPower),
        ShortcutKey::KeyL => Some(ShortcutAction::ToggleAmbientOcclusion),
        ShortcutKey::KeyT => Some(ShortcutAction::ToggleDepthOfField),
        ShortcutKey::KeyG => Some(ShortcutAction::ToggleFloor),
        ShortcutKey::KeyB => Some(ShortcutAction::CycleShadowMode),
        ShortcutKey::KeyI => Some(ShortcutAction::ToggleLod),
        ShortcutKey::KeyD => {
            if shift {
                Some(ShortcutAction::ToggleLodDebug)
            } else {
                None
            }
        },
        ShortcutKey::Slash => Some(ShortcutAction::OpenCommandPalette),
        ShortcutKey::KeyK => {
            if command {
                Some(ShortcutAction::OpenCommandPalette)
            } else {
                None
            }
        },
    }
}

/// Digit keys pick 2D fractals and keep the view; function keys pick 3D
/// fractals and reset the camera; no two keys pick the same fractal.
pub proof fn lemma_fractal_keys(k1: ShortcutKey, k2: ShortcutKey, s1: bool, s2: bool, c1: bool, c2: bool)
    ensures
        spec_shortcut_action(k1, s1, c1) matches Some(ShortcutAction::SwitchFractal { fractal_type, reset_view })
            ==> reset_view == fractal_type.spec_is_3d(),
        (spec_shortcut_action(k1, s1, c1) matches Some(ShortcutAction::SwitchFractal { fractal_type: t1, .. })
            && spec_shortcut_action(k2, s2, c2) matches Some(ShortcutAction::SwitchFractal { fractal_type: t2, .. })
            && t1 == t2) ==> k1 == k2,
{
}

/// The stepping keys come in pairs, the left key of each pair lowering
/// and the right key raising the same setting: `,` and `.` the power, `[`
/// and `]` the orbit speed, `-` and `=` the iteration (or step) count,
/// whatever modifiers are held.
pub proof fn lemma_stepping_key_pairs(shift: bool, command: bool)
    ensures
        spec_shortcut_action(ShortcutKey::Comma, shift, command) == Some(ShortcutAction::LowerPower),
        spec_shortcut_action(ShortcutKey::Period, shift, command) == Some(ShortcutAction::HigherPower),
        spec_shortcut_action(ShortcutKey::BracketLeft, shift, command) == Some(ShortcutAction::SlowerOrbit),
        spec_shortcut_action(ShortcutKey::BracketRight, shift, command) == Some(ShortcutAction::FasterOrbit),
        spec_shortcut_action(ShortcutKey::Minus, shift, command) == Some(ShortcutAction::FewerIterations),
        spec_shortcut_action(ShortcutKey::Equal, shift, command) == Some(ShortcutAction::MoreIterations),
{
}

/// The toggle and command keys, whatever modifiers are held: `H` the
/// interface, `F` the frame rate, `V` the performance overlay, `R` resets
/// the view, F12 queues a screenshot, `O` auto-orbit, `L` ambient
/// occlusion, `T` depth of field, `G` the floor, `B` cycles the shadow
/// mode, `I` the level-of-detail system, `/` opens the command palette.
/// `P` steps the static palette, or with Shift the procedural one; `D`
/// acts only with Shift and `K` only with the command modifier.
pub proof fn lemma_shortcut_table(shift: bool, command: bool)
    ensures
        spec_shortcut_action(ShortcutKey::KeyH, shift, command) == Some(ShortcutAction::ToggleUi),
        spec_shortcut_action(ShortcutKey::KeyF, shift, command) == Some(ShortcutAction::ToggleFps),
        spec_shortcut_action(ShortcutKey::KeyV, shift, command) == Some(ShortcutAction::TogglePerformanceOverlay),
        spec_shortcut_action(ShortcutKey::KeyR, shift, command) == Some(ShortcutAction::ResetView),
        spec_shortcut_action(ShortcutKey::F12, shift, command) == Some(ShortcutAction::QueueScreenshot),
        spec_shortcut_action(ShortcutKey::KeyO, shift, command) == Some(ShortcutAction::ToggleAutoOrbit),
        spec_shortcut_action(ShortcutKey::KeyL, shift, command) == Some(ShortcutAction::ToggleAmbientOcclusion),
        spec_shortcut_action(ShortcutKey::KeyT, shift, command) == Some(ShortcutAction::ToggleDepthOfField),
        spec_shortcut_action(ShortcutKey::KeyG, shift, command) == Some(ShortcutAction::ToggleFloor),
        spec_shortcut_action(ShortcutKey::KeyB, shift, command) == Some(ShortcutAction::CycleShadowMode),
        spec_shortcut_action(ShortcutKey::KeyI, shift, command) == Some(ShortcutAction::ToggleLod),
        spec_shortcut_action(ShortcutKey::Slash, shift, command) == Some(ShortcutAction::OpenCommandPalette),
        spec_shortcut_action(ShortcutKey::KeyP, false, command) == Some(ShortcutAction::NextPalette),
        spec_shortcut_action(ShortcutKey::KeyP, true, command) == Some(ShortcutAction::CycleProceduralPalette),
        spec_shortcut_action(ShortcutKey::KeyD, true, command) == Some(ShortcutAction::ToggleLodDebug),
        spec_shortcut_action(ShortcutKey::KeyD, false, command) is None,
        spec_shortcut_action(ShortcutKey::KeyK, shift, true) == Some(ShortcutAction::OpenCommandPalette),
        spec_shortcut_action(ShortcutKey::KeyK, shift, false) is None,
{
}

/// The fractal keys: digits 1 to 9 and 0 pick Mandelbrot, Julia,
/// Sierpinski carpet, Burning Ship, Tricorn, Phoenix, Celtic, Newton,
/// Lyapunov and Nova; F1 to F10 pick Mandelbulb, Menger sponge, Sierpinski
/// pyramid, Julia 3D, Mandelbox, octahedral and icosahedral IFS, Apollonian
/// gasket, Kleinian and the hybrid bulb, resetting the camera.
pub proof fn lemma_fractal_key_table(shift: bool, command: bool)
    ensures
        spec_shortcut_action(ShortcutKey::Digit1, shift, command) == Some(ShortcutAction::SwitchFractal { fractal_type: FractalType::Mandelbrot2D, reset_view: false }),
        spec_shortcut_action(ShortcutKey::Digit2, shift, command) == Some(ShortcutAction::SwitchFractal { fractal_type: FractalType::Julia2D, reset_view: false }),
        spec_shortcut_action(ShortcutKey::Digit3, shift, command) == Some(ShortcutAction::SwitchFractal { fractal_type: FractalType::Sierpinski2D, reset_view: false }),
        spec_shortcut_action(ShortcutKey::Digit4, shift, command) == Some(ShortcutAction::SwitchFractal { fractal_type: FractalType::BurningShip2D, reset_view: false }),
        spec_shortcut_action(ShortcutKey::Digit5, shift, command) == Some(ShortcutAction::SwitchFractal { fractal_type: FractalType::Tricorn2D, reset_view: false }),
        spec_shortcut_action(ShortcutKey::Digit6, shift, command) == Some(ShortcutAction::SwitchFractal { fractal_type: FractalType::Phoenix2D, reset_view: false }),
        spec_shortcut_action(ShortcutKey::Digit7, shift, command) == Some(ShortcutAction::SwitchFractal { fractal_type: FractalType::Celtic2D, reset_view: false }),
        spec_shortcut_action(ShortcutKey::Digit8, shift, command) == Some(ShortcutAction::SwitchFractal { fractal_type: FractalType::Newton2D, reset_view: false }),
        spec_shortcut_action(ShortcutKey::Digit9, shift, command) == Some(ShortcutAction::SwitchFractal { fractal_type: FractalType::Lyapunov2D, reset_view: false }),
        spec_shortcut_action(ShortcutKey::Digit0, shift, command) == Some(ShortcutAction::SwitchFractal { fractal_type: FractalType::Nova2D, reset_view: false }),
        spec_shortcut_action(ShortcutKey::F1, shift, command) == Some(ShortcutAction::SwitchFractal { fractal_type: FractalType::Mandelbulb3D, reset_view: true }),
        spec_shortcut_action(ShortcutKey::F2, shift, command) == Some(ShortcutAction::SwitchFractal { fractal_type: FractalType::MengerSponge3D, reset_view: true }),
        spec_shortcut_action(ShortcutKey::F3, shift, command) == Some(ShortcutAction::SwitchFractal { fractal_type: FractalType::SierpinskiPyramid3D, reset_view: true }),
        spec_shortcut_action(ShortcutKey::F4, shift, command) == Some(ShortcutAction::SwitchFractal { fractal_type: FractalType::JuliaSet3D, reset_view: true }),
        spec_shortcut_action(ShortcutKey::F5, shift, command) == Some(ShortcutAction::SwitchFractal { fractal_type: FractalType::Mandelbox3D, reset_view: true }),
        spec_shortcut_action(ShortcutKey::F6, shift, command) == Some(ShortcutAction::SwitchFractal { fractal_type: FractalType::OctahedralIFS3D, reset_view: true }),
        spec_shortcut_action(ShortcutKey::F7, shift, command) == Some(ShortcutAction::SwitchFractal { fractal_type: FractalType::IcosahedralIFS3D, reset_view: true }),
        spec_shortcut_action(ShortcutKey::F8, shift, command) == Some(ShortcutAction::SwitchFractal { fractal_type: FractalType::ApollonianGasket3D, reset_view: true }),
        spec_shortcut_action(ShortcutKey::F9, shift, command) == Some(ShortcutAction::SwitchFractal { fractal_type: FractalType::Kleinian3D, reset_view: true }),
        spec_shortcut_action(ShortcutKey::F10, shift, command) == Some(ShortcutAction::SwitchFractal { fractal_type: FractalType::HybridMandelbulbJulia3D, reset_view: true }),
{
}

/// Only `P`, `D` and `K` depend on the modifiers; every other key does the
/// same thing whatever is held, and every other key has an action.
pub proof fn lemma_modifiers_matter_only_for_p_d_k(k: ShortcutKey, s1: bool, c1: bool, s2: bool, c2: bool)
    requires
        k != ShortcutKey::KeyP,
        k != ShortcutKey::KeyD,
        k != ShortcutKey::KeyK,
    ensures
        spec_shortcut_action(k, s1, c1) == spec_shortcut_action(k, s2, c2),
        spec_shortcut_action(k, s1, c1) is Some,
{
}

/// The 2D iteration count after `-`: 32 fewer, but never below 32.
pub open spec fn spec_fewer_iterations(x: int) -> int {
    if x >= 64 { x - 32 } else { 32 }
}

/// The 2D iteration count after `=`: 32 more, but never above 2048.
pub open spec fn spec_more_iterations(x: int) -> int {
    if x + 32 <= 2048 { x + 32 } else { 2048 }
}

/// The 3D step count after `-`: 10 fewer, but never below 30.
pub open spec fn spec_fewer_steps(x: int) -> int {
    if x >= 40 { x - 10 } else { 30 }
}

/// The 3D step count after `=`: 10 more, but never above 500.
pub open spec fn spec_more_steps(x: int) -> int {
    if x + 10 <= 500 { x + 10 } else { 500 }
}

/// The 2D iteration count after `-`.
pub fn fewer_iterations(max_iterations: u32) -> (r: u32)
    ensures
        r == spec_fewer_iterations(max_iterations as int),
{
    let d = max_iterations.saturating_sub(32);
    if d < 32 { 32 } else { d }
}

/// The 2D iteration count after `=`.
pub fn more_iterations(max_iterations: u32) -> (r: u32)
    requires
        max_iterations <= u32::MAX - 32,
    ensures
        r == spec_more_iterations(max_iterations as int),
{
    let u = max_iterations + 32;
    if u > 2048 { 2048 } else { u }
}

/// The 3D step count after `-`.
pub fn fewer_steps(max_steps: u32) -> (r: u32)
    ensures
        r == spec_fewer_steps(max_steps as int),
{
    let d = max_steps.saturating_sub(10);
    if d < 30 { 30 } else { d }
}

/// The 3D step count after `=`.
pub fn more_steps(max_steps: u32) -> (r: u32)
    requires
        max_steps <= u32::MAX - 10,
    ensures
        r == spec_more_steps(max_steps as int),
{
    let u = max_steps + 10;
    if u > 500 { 500 } else { u }
}

/// The detail settings after `-` or `=`: the 2D iteration count or the 3D
/// step count changes, by the view's mode; the other stays.
pub fn step_detail(mode: RenderMode, more: bool, max_iterations: u32, max_steps: u32) -> (r: (u32, u32))
    requires
        mode == RenderMode::TwoD && more ==> max_iterations <= u32::MAX - 32,
        mode == RenderMode::ThreeD && more ==> max_steps <= u32::MAX - 10,
    ensures
        mode == RenderMode::TwoD ==> r.1 == max_steps && r.0 == (if more {
            spec_more_iterations(max_iterations as int)
        } else {
            spec_fewer_iterations(max_iterations as int)
        }),
        mode == RenderMode::ThreeD ==> r.0 == max_iterations && r.1 == (if more {
            spec_more_steps(max_steps as int)
        } else {
            spec_fewer_steps(max_steps as int)
        }),
{
    match mode {
        RenderMode::TwoD => {
            if more {
                (more_iterations(max_iterations), max_steps)
            } else {
                (fewer_iterations(max_iterations), max_steps)
            }
        },
        RenderMode::ThreeD => {
            if more {
                (max_iterations, more_steps(max_steps))
            } else {
                (max_iterations, fewer_steps(max_steps))
            }
        },
    }
}

/// The detail keys move the iteration count by 32 within 32..=2048 and
/// the step count by 10 within 30..=500: a step never leaves the range,
/// always moves by the full stride when the range allows it, stops at the
/// range's end otherwise, and one step up then one step down returns to
/// the same count.
pub proof fn lemma_detail_steps(i: int, s: int)
    ensures
        32 <= spec_fewer_iterations(i),
        spec_more_iterations(i) <= 2048,
        i >= 64 ==> i - spec_fewer_iterations(i) == 32,
        i < 64 ==> spec_fewer_iterations(i) == 32,
        i + 32 <= 2048 ==> spec_more_iterations(i) - i == 32,
        i + 32 > 2048 ==> spec_more_iterations(i) == 2048,
        32 <= i <= 2048 ==> 32 <= spec_fewer_iterations(i) <= 2048 && 32 <= spec_more_iterations(i) <= 2048,
        32 <= i && i + 32 <= 2048 ==> spec_fewer_iterations(spec_more_iterations(i)) == i,
        30 <= spec_fewer_steps(s),
        spec_more_steps(s) <= 500,
        s >= 40 ==> s - spec_fewer_steps(s) == 10,
        s < 40 ==> spec_fewer_steps(s) == 30,
        s + 10 <= 500 ==> spec_more_steps(s) - s == 10,
        s + 10 > 500 ==> spec_more_steps(s) == 500,
        30 <= s <= 500 ==> 30 <= spec_fewer_steps(s) <= 500 && 30 <= spec_more_steps(s) <= 500,
        30 <= s && s + 10 <= 500 ==> spec_fewer_steps(spec_more_steps(s)) == s,
{
}

/// The shadow mode after `B`.
pub open spec fn spec_next_shadow_mode(mode: int) -> int {
    (mode + 1) % 3
}

/// The shadow mode after `B`: off, hard, soft, and back to off.
pub fn next_shadow_mode(mode: u32) -> (r: u32)
    requires
        mode < u32::MAX,
    ensures
        r == spec_next_shadow_mode(mode as int),
{
    (mode + 1) % 3
}

/// `B` steps off (0) to hard (1) to soft (2) and back to off, and three
/// presses return to the same shadow mode.
pub proof fn lemma_shadow_mode_cycle(mode: u32)
    requires
        mode < 3,
    ensures
        spec_next_shadow_mode(0) == 1,
        spec_next_shadow_mode(1) == 2,
        spec_next_shadow_mode(2) == 0,
        spec_next_shadow_mode(spec_next_shadow_mode(spec_next_shadow_mode(mode as int))) == mode,
{
}

/// The procedural palette with shader index `i`.
pub open spec fn spec_procedural_from_index(i: u32) -> ProceduralPalette {
    if i == 1 {
        ProceduralPalette::Firestrm
    } else if i == 2 {
        ProceduralPalette::Rainbow
    } else if i == 3 {
        ProceduralPalette::Electric
    } else if i == 4 {
        ProceduralPalette::Sunset
    } else if i == 5 {
        ProceduralPalette::Forest
    } else if i == 6 {
        ProceduralPalette::Ocean
    } else if i == 7 {
        ProceduralPalette::Grayscale
    } else if i == 8 {
        ProceduralPalette::Hot
    } else if i == 9 {
        ProceduralPalette::Cool
    } else if i == 10 {
        ProceduralPalette::Plasma
    } else if i == 11 {
        ProceduralPalette::Viridis
    } else if i == 12 {
        ProceduralPalette::Custom
    } else {
        ProceduralPalette::Static
    }
}

impl ProceduralPalette {
    /// The palette after this one when `Shift+P` cycles through the static
    /// palette and then every procedural palette, in shader-index order.
    pub fn cycled(&self) -> (p: ProceduralPalette)
        ensures
            p.spec_shader_index() == (self.spec_shader_index() + 1) % 13,
            p == spec_procedural_from_index(((self.spec_shader_index() + 1) % 13) as u32),
    {
        match self {
            ProceduralPalette::Static => ProceduralPalette::Firestrm,
            ProceduralPalette::Firestrm => ProceduralPalette::Rainbow,
            ProceduralPalette::Rainbow => ProceduralPalette::Electric,
            ProceduralPalette::Electric => ProceduralPalette::Sunset,
            ProceduralPalette::Sunset => ProceduralPalette::Forest,
            ProceduralPalette::Forest => ProceduralPalette::Ocean,
            ProceduralPalette::Ocean => ProceduralPalette::Grayscale,
            ProceduralPalette::Grayscale => ProceduralPalette::Hot,
            ProceduralPalette::Hot => ProceduralPalette::Cool,
            ProceduralPalette::Cool => ProceduralPalette::Plasma,
            ProceduralPalette::Plasma => ProceduralPalette::Viridis,
            ProceduralPalette::Viridis => ProceduralPalette::Custom,
            ProceduralPalette::Custom => ProceduralPalette::Static,
        }
    }
}

} // verus!
