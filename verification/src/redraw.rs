//! Render-on-demand: when the event loop asks for another frame, and when
//! it may park until the next OS event.
//!
//! A frame is rendered when the scene changed (the dirty flag), an input
//! event is still unprocessed, something animates the scene on its own, or
//! a repaint, screenshot or high-resolution render was requested. After a
//! frame the dirty flag is cleared unless an animation source is active.

use vstd::prelude::*;
use crate::types::{FractalType, ProceduralPalette, RenderMode};

verus! {

/// The facts about the scene that decide whether it animates by itself.
#[derive(Debug, Clone, Copy, PartialEq, Eq, Structural)]
pub struct AnimationSources {
    /// 3D auto-orbit is switched on.
    pub auto_orbit: bool,
    pub render_mode: RenderMode,
    /// A smooth camera transition (bookmark load) is interpolating.
    pub camera_transition_active: bool,
    /// The palette offset advances every frame.
    pub palette_animation_enabled: bool,
    pub procedural_palette: ProceduralPalette,
    /// Level-of-detail adaptation is switched on.
    pub lod_enabled: bool,
    /// The level-of-detail blend has not reached its target yet
    /// (transition progress below one).
    pub lod_transition_incomplete: bool,
    /// Attractor sample accumulation is switched on.
    pub accumulation_enabled: bool,
    /// Accumulation is paused by the user.
    pub accumulation_paused: bool,
    pub fractal_type: FractalType,
    /// A video capture is recording.
    pub recording: bool,
}

impl AnimationSources {
    /// Whether something changes the image every frame without input.
    pub open spec fn spec_active(self) -> bool {
        ||| self.auto_orbit && self.render_mode == RenderMode::ThreeD
        ||| self.camera_transition_active
        ||| self.palette_animation_enabled
        ||| self.procedural_palette != ProceduralPalette::Static
        ||| self.lod_enabled && self.lod_transition_incomplete
        ||| self.accumulation_enabled && !self.accumulation_paused && (self.fractal_type.spec_is_2d_attractor()
            || self.fractal_type == FractalType::Buddhabrot2D)
        ||| self.recording
    }

    /// True when something animates the scene continuously, independent of
    /// user input: 3D auto-orbit, a camera transition, palette animation, a
    /// procedural palette (it samples the time), a level-of-detail blend in
    /// progress, attractor or Buddhabrot accumulation, or video capture.
    pub fn is_scene_animation_active(&self) -> (b: bool)
        ensures
            b == self.spec_active(),
    {
        if self.auto_orbit && self.render_mode == RenderMode::ThreeD {
            return true;
        }
        if self.camera_transition_active {
            return true;
        }
        if self.palette_animation_enabled {
            return true;
        }
        if self.procedural_palette != ProceduralPalette::Static {
            return true;
        }
        if self.lod_enabled && self.lod_transition_incomplete {
            return true;
        }
        if self.accumulation_enabled && !self.accumulation_paused && (self.fractal_type.is_2d_attractor()
            || self.fractal_type.is_buddhabrot()) {
            return true;
        }
        self.recording
    }
}

/// Requests that keep the loop rendering regardless of the scene.
#[derive(Debug, Clone, Copy, PartialEq, Eq, Structural)]
pub struct FrameRequests {
    /// The user interface asked for another frame (hover, drag, animation).
    pub ui_repaint: bool,
    /// A screenshot is waiting for the next frame.
    pub screenshot: bool,
    /// A high-resolution render is waiting for the next frame.
    pub hires_render: bool,
}

/// The render-on-demand flags.
#[derive(Debug, Clone, Copy, PartialEq, Eq, Structural)]
pub struct RedrawState {
    /// The scene changed since the last frame.
    pub scene_dirty: bool,
    /// An input event has not been processed by a frame yet.
    pub input_pending: bool,
}

/// The redraw decision.
pub open spec fn spec_should_render(s: RedrawState, anim: AnimationSources, req: FrameRequests) -> bool {
    s.scene_dirty || s.input_pending || anim.spec_active() || req.ui_repaint || req.screenshot
        || req.hires_render
}

/// The flags after a frame: the input has been processed, and the scene is
/// clean unless it animates.
pub open spec fn spec_after_frame(s: RedrawState, anim: AnimationSources) -> RedrawState {
    RedrawState {
        scene_dirty: if anim.spec_active() { s.scene_dirty } else { false },
        input_pending: false,
    }
}

impl RedrawState {
    /// The start-up state: the first frame must be drawn.
    pub fn new() -> (s: Self)
        ensures
            s.scene_dirty,
            !s.input_pending,
    {
        RedrawState { scene_dirty: true, input_pending: false }
    }

    /// Marks the scene as needing a re-render.
    pub fn mark_scene_dirty(&mut self)
        ensures
            final(self).scene_dirty,
            final(self).input_pending == old(self).input_pending,
    {
        self.scene_dirty = true;
    }

    /// Whether the event loop should request another frame.
    pub fn should_render_next_frame(&self, anim: &AnimationSources, req: &FrameRequests) -> (b: bool)
        ensures
            b == spec_should_render(*self, *anim, *req),
    {
        self.scene_dirty || self.input_pending || anim.is_scene_animation_active() || req.ui_repaint
            || req.screenshot || req.hires_render
    }

    /// Called after a frame was rendered: clears the pending input, and the
    /// dirty flag when nothing animates.
    pub fn after_render_frame(&mut self, anim: &AnimationSources)
        ensures
            *final(self) == spec_after_frame(*old(self), *anim),
    {
        self.input_pending = false;
        if !anim.is_scene_animation_active() {
            self.scene_dirty = false;
        }
    }
}

/// A scene marked dirty is always rendered next, whatever else holds.
pub proof fn lemma_dirty_scene_renders(s: RedrawState, anim: AnimationSources, req: FrameRequests)
    requires
        s.scene_dirty,
    ensures
        spec_should_render(s, anim, req),
{
}

/// After a frame with nothing animating and nothing requested, the loop
/// parks: no further frame is asked for until something marks the scene
/// dirty or an input arrives.
pub proof fn lemma_idle_loop_parks(s: RedrawState, anim: AnimationSources)
    requires
        !anim.spec_active(),
    ensures
        !spec_should_render(
            spec_after_frame(s, anim),
            anim,
            FrameRequests { ui_repaint: false, screenshot: false, hires_render: false },
        ),
{
}

/// While an animation source is active every frame is followed by another.
pub proof fn lemma_animation_keeps_rendering(s: RedrawState, anim: AnimationSources, req: FrameRequests)
    requires
        anim.spec_active(),
    ensures
        spec_should_render(spec_after_frame(s, anim), anim, req),
        spec_after_frame(s, anim).scene_dirty == s.scene_dirty,
{
}

/// Each animation source keeps the scene animating on its own: auto-orbit
/// in 3D, a camera transition, palette animation, a procedural palette, a
/// level-of-detail blend in progress while level of detail is on, running
/// accumulation of an attractor or the Buddhabrot, and video capture.
/// Auto-orbit in 2D, a finished blend and paused or inapplicable
/// accumulation animate nothing.
pub proof fn lemma_animation_sources(anim: AnimationSources)
    ensures
        (anim.auto_orbit && anim.render_mode == RenderMode::ThreeD) ==> anim.spec_active(),
        anim.camera_transition_active ==> anim.spec_active(),
        anim.palette_animation_enabled ==> anim.spec_active(),
        anim.procedural_palette != ProceduralPalette::Static ==> anim.spec_active(),
        (anim.lod_enabled && anim.lod_transition_incomplete) ==> anim.spec_active(),
        (anim.accumulation_enabled && !anim.accumulation_paused && anim.fractal_type == FractalType::Buddhabrot2D)
            ==> anim.spec_active(),
        (anim.accumulation_enabled && !anim.accumulation_paused && anim.fractal_type.spec_is_2d_attractor())
            ==> anim.spec_active(),
        anim.recording ==> anim.spec_active(),
        (anim.render_mode == RenderMode::TwoD && !anim.camera_transition_active && !anim.palette_animation_enabled
            && anim.procedural_palette == ProceduralPalette::Static && !anim.lod_transition_incomplete
            && (anim.accumulation_paused || !anim.accumulation_enabled) && !anim.recording) ==> !anim.spec_active(),
        (anim.render_mode == RenderMode::TwoD && !anim.camera_transition_active && !anim.palette_animation_enabled
            && anim.procedural_palette == ProceduralPalette::Static && !anim.lod_enabled
            && !anim.fractal_type.spec_is_2d_attractor() && anim.fractal_type != FractalType::Buddhabrot2D
            && !anim.recording) ==> !anim.spec_active(),
{
}

/// Every request and every unprocessed input is answered by a frame, and a
/// frame always consumes the pending input.
pub proof fn lemma_requests_render(s: RedrawState, anim: AnimationSources, req: FrameRequests)
    ensures
        s.input_pending ==> spec_should_render(s, anim, req),
        req.ui_repaint ==> spec_should_render(s, anim, req),
        req.screenshot ==> spec_should_render(s, anim, req),
        req.hires_render ==> spec_should_render(s, anim, req),
        !spec_after_frame(s, anim).input_pending,
{
}

} // verus!
