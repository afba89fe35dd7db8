//! Deep-zoom perturbation: which fractal types use the reference-orbit
//! path, how the reference orbit is chosen among probe candidates, and the
//! scheduling state machine that decides when a new orbit is computed.

use vstd::prelude::*;
use crate::types::{FractalType, RenderMode};
use crate::text::seq_eq;

verus! {

/// The 2D escape-time map a reference orbit iterates.
#[derive(Debug, Clone, Copy, PartialEq, Eq, Structural)]
pub enum FractalKind {
    Mandelbrot,
    Julia,
    BurningShip,
    Tricorn,
}

impl FractalKind {
    pub open spec fn spec_from_fractal_type(t: FractalType) -> Option<FractalKind> {
        match t {
            FractalType::Mandelbrot2D => Some(FractalKind::Mandelbrot),
            FractalType::Julia2D => Some(FractalKind::Julia),
            FractalType::BurningShip2D => Some(FractalKind::BurningShip),
            FractalType::Tricorn2D => Some(FractalKind::Tricorn),
            _ => None,
        }
    }

    /// The perturbation kind of a fractal type, or `None` when the type
    /// does not use the 2D perturbation path.
    pub fn from_fractal_type(t: FractalType) -> (k: Option<FractalKind>)
        ensures
            k == Self::spec_from_fractal_type(t),
    {
        match t {
            FractalType::Mandelbrot2D => Some(FractalKind::Mandelbrot),
            FractalType::Julia2D => Some(FractalKind::Julia),
            FractalType::BurningShip2D => Some(FractalKind::BurningShip),
            FractalType::Tricorn2D => Some(FractalKind::Tricorn),
            _ => None,
        }
    }
}

/// The perturbation kinds are exactly the shader's perturbation switch
/// (identifiers 0, 1, 4 and 5), all of them 2D types.
pub proof fn lemma_perturbation_types(t: FractalType)
    ensures
        FractalKind::spec_from_fractal_type(t) is Some <==> (t.spec_gpu_id() == 0 || t.spec_gpu_id() == 1
            || t.spec_gpu_id() == 4 || t.spec_gpu_id() == 5),
        FractalKind::spec_from_fractal_type(t) is Some ==> !t.spec_is_3d(),
{
}

/// Later-escape order of reference candidates: a bounded orbit (`None`)
/// beats any escaping one, otherwise the later escape wins; ties are not
/// later.
pub open spec fn spec_later_escape(this: Option<u32>, prev: Option<u32>) -> bool {
    match (this, prev) {
        (None, None) => false,
        (None, Some(_)) => true,
        (Some(_), None) => false,
        (Some(a), Some(b)) => a > b,
    }
}

/// Whether a candidate escaping at `this` replaces the best so far
/// escaping at `prev`.
pub fn later_escape(this: &Option<u32>, prev: &Option<u32>) -> (b: bool)
    ensures
        b == spec_later_escape(*this, *prev),
{
    match (this, prev) {
        (None, None) => false,
        (None, Some(_)) => true,
        (Some(_), None) => false,
        (Some(a), Some(b)) => *a > *b,
    }
}

/// The reference candidate the probe keeps: the first (in probe order)
/// among those escaping latest.
pub fn select_reference(escapes: &Vec<Option<u32>>) -> (best: usize)
    requires
        escapes@.len() >= 1,
    ensures
        best < escapes@.len(),
        forall|j: int| 0 <= j < escapes@.len() ==> !spec_later_escape(#[trigger] escapes@[j], escapes@[best as int]),
        forall|j: int| 0 <= j < best ==> spec_later_escape(escapes@[best as int], #[trigger] escapes@[j]),
{
    let mut best: usize = 0;
    let mut i: usize = 1;
    while i < escapes.len()
        invariant
            1 <= i <= escapes@.len(),
            best < i,
            forall|j: int| 0 <= j < i ==> !spec_later_escape(#[trigger] escapes@[j], escapes@[best as int]),
            forall|j: int| 0 <= j < best ==> spec_later_escape(escapes@[best as int], #[trigger] escapes@[j]),
        decreases escapes@.len() - i,
    {
        if later_escape(&escapes[i], &escapes[best]) {
            best = i;
        }
        i = i + 1;
    }
    best
}

/// The probe grid around the view center, in half-extent steps: the center
/// first, then the eight neighbours row by row. Visiting the center first
/// makes it win ties under [`select_reference`].
pub open spec fn spec_probe_offsets() -> Seq<(i8, i8)> {
    seq![(0i8, 0i8), (-1i8, -1i8), (0i8, -1i8), (1i8, -1i8), (-1i8, 0i8), (1i8, 0i8), (-1i8, 1i8), (0i8, 1i8), (1i8, 1i8)]
}

/// The candidate offsets of the reference probe, center first.
pub fn probe_offsets() -> (v: Vec<(i8, i8)>)
    ensures
        v@ == spec_probe_offsets(),
        v@.len() == 9,
        v@[0] == (0i8, 0i8),
{
    let v = vec![(0i8, 0i8), (-1i8, -1i8), (0i8, -1i8), (1i8, -1i8), (-1i8, 0i8), (1i8, 0i8), (-1i8, 1i8), (0i8, 1i8), (1i8, 1i8)];
    assert(v@ =~= spec_probe_offsets());
    v
}

/// How a poll of the in-flight worker came out.
#[derive(Debug, Clone, Copy, PartialEq, Eq, Structural)]
pub enum PollOutcome {
    /// No worker is in flight.
    Idle,
    /// The worker has not finished yet.
    Pending,
    /// The worker delivered its orbit.
    Received,
    /// The worker died before delivering.
    Disconnected,
}

/// Scheduling state of the reference-orbit worker: whether the current
/// orbit is stale, and whether a worker is in flight.
#[derive(Debug, Clone, Copy, PartialEq, Eq, Structural)]
pub struct DriverState {
    pub dirty: bool,
    pub computing: bool,
}

/// A view was recorded: it becomes stale when the view changed.
pub open spec fn spec_note_view(s: DriverState, changed: bool) -> DriverState {
    DriverState { dirty: s.dirty || changed, computing: s.computing }
}

/// The spawn decision: a worker starts only when the orbit is stale, no
/// worker is in flight, the zoom is past the zoom threshold and the type has a
/// perturbation kind. Below the zoom threshold the orbit stays stale.
pub open spec fn spec_spawn(s: DriverState, past_threshold: bool, t: FractalType) -> (DriverState, Option<FractalKind>) {
    if !s.dirty || s.computing || !past_threshold || FractalKind::spec_from_fractal_type(t) is None {
        (s, None)
    } else {
        (DriverState { dirty: false, computing: true }, FractalKind::spec_from_fractal_type(t))
    }
}

/// The state after a poll: a delivered orbit ends the computation; a dead
/// worker ends it and marks the orbit stale so the next frame retries.
pub open spec fn spec_poll(s: DriverState, outcome: PollOutcome) -> DriverState {
    match outcome {
        PollOutcome::Received => DriverState { dirty: s.dirty, computing: false },
        PollOutcome::Disconnected => DriverState { dirty: true, computing: false },
        _ => s,
    }
}

/// Whether a binary64 bit pattern is a NaN.
pub open spec fn spec_f64_is_nan(a: u64) -> bool {
    (a & 0x7fff_ffff_ffff_ffffu64) > 0x7ff0_0000_0000_0000u64
}

/// Whether a binary32 bit pattern is a NaN.
pub open spec fn spec_f32_is_nan(a: u32) -> bool {
    (a & 0x7fff_ffffu32) > 0x7f80_0000u32
}

/// IEEE 754 equality of two binary64 values given by their bit patterns:
/// a NaN equals nothing, the two zeros are equal, and otherwise equal
/// values have equal bits.
pub open spec fn spec_f64_eq(a: u64, b: u64) -> bool {
    !spec_f64_is_nan(a) && !spec_f64_is_nan(b) && (a == b || ((a & 0x7fff_ffff_ffff_ffffu64) == 0 && (b
        & 0x7fff_ffff_ffff_ffffu64) == 0))
}

/// IEEE 754 equality of two binary32 values given by their bit patterns.
pub open spec fn spec_f32_eq(a: u32, b: u32) -> bool {
    !spec_f32_is_nan(a) && !spec_f32_is_nan(b) && (a == b || ((a & 0x7fff_ffffu32) == 0 && (b & 0x7fff_ffffu32)
        == 0))
}

/// Whether two binary64 bit patterns denote equal numbers (`==` on `f64`).
pub fn f64_bits_eq(a: u64, b: u64) -> (r: bool)
    ensures
        r == spec_f64_eq(a, b),
{
    let a_nan = (a & 0x7fff_ffff_ffff_ffffu64) > 0x7ff0_0000_0000_0000u64;
    let b_nan = (b & 0x7fff_ffff_ffff_ffffu64) > 0x7ff0_0000_0000_0000u64;
    !a_nan && !b_nan && (a == b || ((a & 0x7fff_ffff_ffff_ffffu64) == 0 && (b & 0x7fff_ffff_ffff_ffffu64) == 0))
}

/// Whether two binary32 bit patterns denote equal numbers (`==` on `f32`).
pub fn f32_bits_eq(a: u32, b: u32) -> (r: bool)
    ensures
        r == spec_f32_eq(a, b),
{
    let a_nan = (a & 0x7fff_ffffu32) > 0x7f80_0000u32;
    let b_nan = (b & 0x7fff_ffffu32) > 0x7f80_0000u32;
    !a_nan && !b_nan && (a == b || ((a & 0x7fff_ffffu32) == 0 && (b & 0x7fff_ffffu32) == 0))
}

/// Everything the reference orbit depends on. Floating-point fields are
/// held as their IEEE bit patterns (`to_bits`) and compared as numbers.
pub struct ViewSignature {
    /// Center of the view, real and imaginary parts (binary64 bits).
    pub center: (u64, u64),
    /// High-precision decimal center overriding `center`, when set.
    pub center_precise: Option<(Vec<char>, Vec<char>)>,
    /// Zoom factor (binary64 bits).
    pub zoom: u64,
    /// Width over height of the view (binary32 bits).
    pub aspect: u32,
    /// Iteration budget the shader runs.
    pub max_iter: u32,
    pub fractal_type: FractalType,
    /// Julia constant (binary32 bits).
    pub julia_c: (u32, u32),
}

/// Equality of the precise-center overrides: both absent, or both present
/// with the same digits.
pub open spec fn spec_same_precise(a: Option<(Vec<char>, Vec<char>)>, b: Option<(Vec<char>, Vec<char>)>) -> bool {
    match (a, b) {
        (None, None) => true,
        (Some(x), Some(y)) => x.0@ == y.0@ && x.1@ == y.1@,
        _ => false,
    }
}

/// Field-by-field equality of two view signatures, floats compared as
/// numbers.
pub open spec fn spec_same_view(a: ViewSignature, b: ViewSignature) -> bool {
    &&& spec_f64_eq(a.center.0, b.center.0)
    &&& spec_f64_eq(a.center.1, b.center.1)
    &&& spec_same_precise(a.center_precise, b.center_precise)
    &&& spec_f64_eq(a.zoom, b.zoom)
    &&& spec_f32_eq(a.aspect, b.aspect)
    &&& a.max_iter == b.max_iter
    &&& a.fractal_type == b.fractal_type
    &&& spec_f32_eq(a.julia_c.0, b.julia_c.0)
    &&& spec_f32_eq(a.julia_c.1, b.julia_c.1)
}

/// Whether `sig` differs from the last recorded view (always, when none
/// was recorded).
pub open spec fn spec_view_changed(last: Option<ViewSignature>, sig: ViewSignature) -> bool {
    match last {
        None => true,
        Some(l) => !spec_same_view(l, sig),
    }
}

impl ViewSignature {
    /// Whether two signatures describe the same view.
    pub fn same_view(&self, other: &ViewSignature) -> (r: bool)
        ensures
            r == spec_same_view(*self, *other),
    {
        let precise = match (&self.center_precise, &other.center_precise) {
            (None, None) => true,
            (Some(x), Some(y)) => seq_eq(&x.0, &y.0) && seq_eq(&x.1, &y.1),
            _ => false,
        };
        f64_bits_eq(self.center.0, other.center.0) && f64_bits_eq(self.center.1, other.center.1)
            && precise && f64_bits_eq(self.zoom, other.zoom) && f32_bits_eq(self.aspect, other.aspect)
            && self.max_iter == other.max_iter && self.fractal_type == other.fractal_type
            && f32_bits_eq(self.julia_c.0, other.julia_c.0) && f32_bits_eq(self.julia_c.1, other.julia_c.1)
    }
}

/// True when perturbation engages for a view: the type has a perturbation
/// kind, the view is 2D, and the zoom is past the zoom threshold.
pub open spec fn spec_perturbation_eligible(zoom_past_threshold: bool, t: FractalType, mode: RenderMode) -> bool {
    FractalKind::spec_from_fractal_type(t) is Some && mode == RenderMode::TwoD && zoom_past_threshold
}

/// Whether perturbation engages; `zoom_past_threshold` says whether the
/// zoom's base-2 logarithm exceeds the perturbation threshold.
pub fn perturbation_eligible(zoom_past_threshold: bool, fractal_type: FractalType, render_mode: RenderMode) -> (b: bool)
    ensures
        b == spec_perturbation_eligible(zoom_past_threshold, fractal_type, render_mode),
{
    FractalKind::from_fractal_type(fractal_type).is_some() && render_mode == RenderMode::TwoD && zoom_past_threshold
}

/// Schedules reference-orbit computations: remembers the last view, and
/// whether the orbit is stale and a worker in flight.
pub struct PerturbationDriver {
    pub last_view: Option<ViewSignature>,
    pub dirty: bool,
    pub computing: bool,
}

impl PerturbationDriver {
    /// The scheduling flags.
    pub open spec fn flags(&self) -> DriverState {
        DriverState { dirty: self.dirty, computing: self.computing }
    }

    /// The initial driver: no view yet, stale, idle.
    pub fn new() -> (d: Self)
        ensures
            d.last_view is None,
            d.dirty,
            !d.computing,
    {
        PerturbationDriver { last_view: None, dirty: true, computing: false }
    }

    /// Records the current view; the orbit becomes stale when it differs
    /// from the last recorded one.
    pub fn note_view(&mut self, sig: ViewSignature)
        ensures
            final(self).flags() == spec_note_view(old(self).flags(), spec_view_changed(old(self).last_view, sig)),
            final(self).last_view == Some(sig),
    {
        let changed = match &self.last_view {
            None => true,
            Some(l) => !l.same_view(&sig),
        };
        if changed {
            self.dirty = true;
        }
        self.last_view = Some(sig);
    }

    /// Decides whether to spawn a worker for the current view, and for
    /// which map; on a spawn the orbit becomes fresh and a worker is in
    /// flight.
    pub fn maybe_spawn(&mut self, zoom_past_threshold: bool, fractal_type: FractalType) -> (k: Option<FractalKind>)
        ensures
            (final(self).flags(), k) == spec_spawn(old(self).flags(), zoom_past_threshold, fractal_type),
            final(self).last_view == old(self).last_view,
    {
        if !self.dirty || self.computing {
            return None;
        }
        if !zoom_past_threshold {
            return None;
        }
        let kind = FractalKind::from_fractal_type(fractal_type);
        match kind {
            Some(k) => {
                self.computing = true;
                self.dirty = false;
                Some(k)
            },
            None => None,
        }
    }

    /// Applies the outcome of polling the worker; true when an orbit was
    /// delivered.
    pub fn poll(&mut self, outcome: PollOutcome) -> (delivered: bool)
        ensures
            final(self).flags() == spec_poll(old(self).flags(), outcome),
            final(self).last_view == old(self).last_view,
            delivered == (outcome == PollOutcome::Received),
    {
        match outcome {
            PollOutcome::Received => {
                self.computing = false;
                true
            },
            PollOutcome::Disconnected => {
                self.computing = false;
                self.dirty = true;
                false
            },
            _ => false,
        }
    }
}

impl Default for PerturbationDriver {
    fn default() -> (d: Self)
        ensures
            d.last_view is None,
            d.dirty,
            !d.computing,
    {
        PerturbationDriver::new()
    }
}

/// Re-recording the same view never marks the orbit stale, as long as no
/// coordinate of the view is a NaN (a NaN equals nothing, itself included).
pub proof fn lemma_same_view_is_unchanged(v: ViewSignature)
    requires
        !spec_f64_is_nan(v.center.0),
        !spec_f64_is_nan(v.center.1),
        !spec_f64_is_nan(v.zoom),
        !spec_f32_is_nan(v.aspect),
        !spec_f32_is_nan(v.julia_c.0),
        !spec_f32_is_nan(v.julia_c.1),
    ensures
        !spec_view_changed(Some(v), v),
{
}

/// Whether two binary64 bit patterns are the two zeros (which compare
/// equal although their bits differ).
pub open spec fn both_zero_f64(a: u64, b: u64) -> bool {
    a & 0x7fff_ffff_ffff_ffffu64 == 0 && b & 0x7fff_ffff_ffff_ffffu64 == 0
}

/// Whether two binary32 bit patterns are the two zeros.
pub open spec fn both_zero_f32(a: u32, b: u32) -> bool {
    a & 0x7fff_ffffu32 == 0 && b & 0x7fff_ffffu32 == 0
}

/// A view that differs from the last recorded one in any field invalidates
/// the orbit: a different center, zoom, aspect or Julia constant (other
/// than one zero for the other), a different iteration budget or fractal
/// type, or a different precise center (set, cleared, or other digits).
/// A NaN in any float field of the new view invalidates too.
pub proof fn lemma_any_field_change_invalidates(l: ViewSignature, s: ViewSignature)
    ensures
        (l.center.0 != s.center.0 && !both_zero_f64(l.center.0, s.center.0)) ==> spec_view_changed(Some(l), s),
        (l.center.1 != s.center.1 && !both_zero_f64(l.center.1, s.center.1)) ==> spec_view_changed(Some(l), s),
        (l.zoom != s.zoom && !both_zero_f64(l.zoom, s.zoom)) ==> spec_view_changed(Some(l), s),
        (l.aspect != s.aspect && !both_zero_f32(l.aspect, s.aspect)) ==> spec_view_changed(Some(l), s),
        (l.julia_c.0 != s.julia_c.0 && !both_zero_f32(l.julia_c.0, s.julia_c.0)) ==> spec_view_changed(Some(l), s),
        (l.julia_c.1 != s.julia_c.1 && !both_zero_f32(l.julia_c.1, s.julia_c.1)) ==> spec_view_changed(Some(l), s),
        l.max_iter != s.max_iter ==> spec_view_changed(Some(l), s),
        l.fractal_type != s.fractal_type ==> spec_view_changed(Some(l), s),
        (l.center_precise is None) != (s.center_precise is None) ==> spec_view_changed(Some(l), s),
        (l.center_precise matches Some(x) && s.center_precise matches Some(y) && (x.0@ != y.0@ || x.1@
            != y.1@)) ==> spec_view_changed(Some(l), s),
        spec_f64_is_nan(s.center.0) || spec_f64_is_nan(s.center.1) || spec_f64_is_nan(s.zoom) || spec_f32_is_nan(
            s.aspect,
        ) || spec_f32_is_nan(s.julia_c.0) || spec_f32_is_nan(s.julia_c.1) ==> spec_view_changed(Some(l), s),
        spec_view_changed(None, s),
{
}

/// At most one worker is ever in flight: no spawn happens while one is
/// computing, and a spawn always leaves the state computing.
pub proof fn lemma_single_worker(s: DriverState, past_threshold: bool, t: FractalType)
    ensures
        s.computing ==> spec_spawn(s, past_threshold, t).1 is None,
        spec_spawn(s, past_threshold, t).1 is Some ==> spec_spawn(s, past_threshold, t).0.computing,
{
}

/// A view change during a computation is not lost: once the worker's
/// orbit arrives (or the worker dies), the next eligible frame past the
/// zoom threshold spawns a new worker.
pub proof fn lemma_change_during_compute_respawns(s: DriverState, outcome: PollOutcome, t: FractalType)
    requires
        s.computing,
        outcome == PollOutcome::Received || outcome == PollOutcome::Disconnected,
        FractalKind::spec_from_fractal_type(t) is Some,
    ensures
        spec_spawn(spec_poll(spec_note_view(s, true), outcome), true, t).1 == FractalKind::spec_from_fractal_type(t),
{
}

/// A view below the zoom threshold never spawns and keeps a stale orbit stale, so
/// the first frame past the zoom threshold spawns immediately.
pub proof fn lemma_below_threshold_stays_stale(s: DriverState, t: FractalType)
    ensures
        spec_spawn(s, false, t).1 is None,
        spec_spawn(s, false, t).0 == s,
{
}

/// The map each type's reference orbit iterates: Mandelbrot, Julia,
/// Burning Ship and Tricorn each their own; every other type has none.
pub proof fn lemma_perturbation_kind_table(t: FractalType)
    ensures
        FractalKind::spec_from_fractal_type(FractalType::Mandelbrot2D) == Some(FractalKind::Mandelbrot),
        FractalKind::spec_from_fractal_type(FractalType::Julia2D) == Some(FractalKind::Julia),
        FractalKind::spec_from_fractal_type(FractalType::BurningShip2D) == Some(FractalKind::BurningShip),
        FractalKind::spec_from_fractal_type(FractalType::Tricorn2D) == Some(FractalKind::Tricorn),
        (t != FractalType::Mandelbrot2D && t != FractalType::Julia2D && t != FractalType::BurningShip2D && t
            != FractalType::Tricorn2D) ==> FractalKind::spec_from_fractal_type(t) is None,
{
}

/// The order in which reference candidates replace each other is a strict
/// order: a candidate that stays bounded beats every escaping one, of two
/// escaping ones the later escape wins, and no candidate beats one that
/// stays bounded as long, so a tie keeps the earlier candidate (the
/// center first).
pub proof fn lemma_later_escape_order(x: Option<u32>, y: Option<u32>, z: Option<u32>)
    ensures
        !spec_later_escape(x, x),
        spec_later_escape(x, y) ==> !spec_later_escape(y, x),
        spec_later_escape(x, y) && spec_later_escape(y, z) ==> spec_later_escape(x, z),
        x is None && y is Some ==> spec_later_escape(x, y),
        x is Some && y is None ==> !spec_later_escape(x, y),
        x matches Some(a) ==> (y matches Some(b) ==> (spec_later_escape(x, y) <==> a > b)),
{
}

/// Recording a view never clears a stale orbit, a changed view always
/// makes it stale, an unchanged view leaves a fresh orbit fresh, and the
/// worker is left alone.
pub proof fn lemma_note_view_staleness(s: DriverState, changed: bool)
    ensures
        s.dirty ==> spec_note_view(s, changed).dirty,
        changed ==> spec_note_view(s, changed).dirty,
        (!s.dirty && !changed) ==> !spec_note_view(s, changed).dirty,
        spec_note_view(s, changed).computing == s.computing,
{
}

/// A spawn makes the orbit fresh, so the same view is never computed twice;
/// a fresh orbit never spawns; and a stale orbit with no worker in flight,
/// past the zoom threshold, for a type with a perturbation map, always
/// spawns a worker for that map. A refused spawn changes nothing.
pub proof fn lemma_spawn_decision(s: DriverState, past_threshold: bool, t: FractalType)
    ensures
        spec_spawn(s, past_threshold, t).1 is Some ==> !spec_spawn(s, past_threshold, t).0.dirty
            && spec_spawn(spec_spawn(s, past_threshold, t).0, past_threshold, t).1 is None,
        !s.dirty ==> spec_spawn(s, past_threshold, t).1 is None,
        (s.dirty && !s.computing && past_threshold && FractalKind::spec_from_fractal_type(t) is Some)
            ==> spec_spawn(s, past_threshold, t).1 == FractalKind::spec_from_fractal_type(t),
        spec_spawn(s, past_threshold, t).1 is None ==> spec_spawn(s, past_threshold, t).0 == s,
{
}

/// Polling: a delivered orbit ends the computation and keeps the staleness
/// as it was, so a view recorded meanwhile still gets its own orbit; a dead
/// worker ends it and makes the orbit stale, so it is retried; a pending or
/// idle poll changes nothing.
pub proof fn lemma_poll_outcomes(s: DriverState)
    ensures
        !spec_poll(s, PollOutcome::Received).computing,
        spec_poll(s, PollOutcome::Received).dirty == s.dirty,
        !spec_poll(s, PollOutcome::Disconnected).computing,
        spec_poll(s, PollOutcome::Disconnected).dirty,
        spec_poll(s, PollOutcome::Pending) == s,
        spec_poll(s, PollOutcome::Idle) == s,
{
}

/// Perturbation engages exactly for a 2D view of a type with a
/// perturbation map past the zoom threshold: never in 3D, never below
/// the threshold, never for a type without a map.
pub proof fn lemma_perturbation_eligibility(past_threshold: bool, t: FractalType, mode: RenderMode)
    ensures
        mode == RenderMode::ThreeD ==> !spec_perturbation_eligible(past_threshold, t, mode),
        !past_threshold ==> !spec_perturbation_eligible(past_threshold, t, mode),
        FractalKind::spec_from_fractal_type(t) is None ==> !spec_perturbation_eligible(past_threshold, t, mode),
        (past_threshold && mode == RenderMode::TwoD && FractalKind::spec_from_fractal_type(t) is Some)
            ==> spec_perturbation_eligible(past_threshold, t, mode),
{
}

/// Floats compare as numbers: the infinities are not NaNs but every
/// pattern with an all-ones exponent and a nonzero fraction is; the two
/// zeros are equal; every non-NaN value equals itself; and equality is
/// symmetric.
pub proof fn lemma_float_equality(a: u64, b: u64, x: u32, y: u32)
    ensures
        !spec_f64_is_nan(0x7ff0_0000_0000_0000u64),
        !spec_f64_is_nan(0xfff0_0000_0000_0000u64),
        spec_f64_is_nan(0x7ff0_0000_0000_0001u64),
        spec_f64_is_nan(0x7ff8_0000_0000_0000u64),
        spec_f64_is_nan(0xfff8_0000_0000_0000u64),
        !spec_f32_is_nan(0x7f80_0000u32),
        !spec_f32_is_nan(0xff80_0000u32),
        spec_f32_is_nan(0x7f80_0001u32),
        spec_f32_is_nan(0x7fc0_0000u32),
        spec_f64_eq(0u64, 0x8000_0000_0000_0000u64),
        spec_f32_eq(0u32, 0x8000_0000u32),
        !spec_f64_is_nan(a) ==> spec_f64_eq(a, a),
        !spec_f32_is_nan(x) ==> spec_f32_eq(x, x),
        spec_f64_eq(a, b) == spec_f64_eq(b, a),
        spec_f32_eq(x, y) == spec_f32_eq(y, x),
        !spec_f64_eq(0x3ff0_0000_0000_0000u64, 0x4000_0000_0000_0000u64),
{
    assert((0x7ff0_0000_0000_0000u64 & 0x7fff_ffff_ffff_ffffu64) == 0x7ff0_0000_0000_0000u64) by (bit_vector);
    assert((0xfff0_0000_0000_0000u64 & 0x7fff_ffff_ffff_ffffu64) == 0x7ff0_0000_0000_0000u64) by (bit_vector);
    assert((0x7ff0_0000_0000_0001u64 & 0x7fff_ffff_ffff_ffffu64) == 0x7ff0_0000_0000_0001u64) by (bit_vector);
    assert((0x7ff8_0000_0000_0000u64 & 0x7fff_ffff_ffff_ffffu64) == 0x7ff8_0000_0000_0000u64) by (bit_vector);
    assert((0xfff8_0000_0000_0000u64 & 0x7fff_ffff_ffff_ffffu64) == 0x7ff8_0000_0000_0000u64) by (bit_vector);
    assert((0x7f80_0000u32 & 0x7fff_ffffu32) == 0x7f80_0000u32) by (bit_vector);
    assert((0xff80_0000u32 & 0x7fff_ffffu32) == 0x7f80_0000u32) by (bit_vector);
    assert((0x7f80_0001u32 & 0x7fff_ffffu32) == 0x7f80_0001u32) by (bit_vector);
    assert((0x7fc0_0000u32 & 0x7fff_ffffu32) == 0x7fc0_0000u32) by (bit_vector);
    assert((0u64 & 0x7fff_ffff_ffff_ffffu64) == 0u64) by (bit_vector);
    assert((0x8000_0000_0000_0000u64 & 0x7fff_ffff_ffff_ffffu64) == 0u64) by (bit_vector);
    assert((0u32 & 0x7fff_ffffu32) == 0u32) by (bit_vector);
    assert((0x8000_0000u32 & 0x7fff_ffffu32) == 0u32) by (bit_vector);
    assert((0x3ff0_0000_0000_0000u64 & 0x7fff_ffff_ffff_ffffu64) == 0x3ff0_0000_0000_0000u64) by (bit_vector);
}

} // verus!
