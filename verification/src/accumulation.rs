//! Sample accumulation for strange attractors and the Buddhabrot: per
//! frame, whether the accumulation is cleared, whether the compute shader
//! runs and with which counts, and when it pauses itself.
//!
//! The caller renders; this module decides. A changed view or a recreated
//! target restarts the count, a pending clear empties the target, and a
//! running accumulation adds one frame of samples and pauses once the
//! sample budget is reached (a budget of 0 never pauses).

use vstd::prelude::*;

verus! {

/// Accumulation progress.
#[derive(Debug, Clone, Copy, PartialEq, Eq, Structural)]
pub struct AccumState {
    /// Samples accumulated since the last clear.
    pub total_iterations: u64,
    /// The target is to be cleared on the next frame.
    pub pending_clear: bool,
    /// Accumulation is paused.
    pub paused: bool,
    /// Samples after which accumulation pauses itself; 0 means never.
    pub max_iterations: u64,
}

/// What one frame of accumulation does.
#[derive(Debug, Clone, Copy, PartialEq, Eq, Structural)]
pub struct AccumAction {
    /// Clear the accumulation target before sampling.
    pub clear: bool,
    /// Run the compute shader this frame.
    pub dispatch: bool,
    /// Compute workgroups to dispatch (256 samples each, at least one).
    pub workgroups: u32,
    /// Random-stream offset handed to the shader: the low 32 bits of the
    /// samples accumulated before this frame.
    pub seed_offset: u32,
    /// Shortest Buddhabrot trajectory kept: a tenth of the iteration
    /// budget, at least 20.
    pub min_iterations: u32,
}

impl AccumState {
    /// A fresh accumulation with the default budget of 8 000 000 samples.
    pub fn new() -> (s: Self)
        ensures
            s == (AccumState { total_iterations: 0, pending_clear: false, paused: false, max_iterations: 8_000_000 }),
    {
        AccumState { total_iterations: 0, pending_clear: false, paused: false, max_iterations: 8_000_000 }
    }
}

/// The count after the restarts of a frame: a recreated target or a changed
/// view restarts it, and so does the clear they or a user request cause.
pub open spec fn restarted(s: AccumState, texture_recreated: bool, view_changed: bool) -> AccumState {
    let clear = s.pending_clear || view_changed;
    AccumState {
        total_iterations: if texture_recreated || clear { 0 } else { s.total_iterations },
        pending_clear: false,
        paused: if view_changed { false } else { s.paused },
        max_iterations: s.max_iterations,
    }
}

/// One frame of accumulation. `compute_ready` says whether the compute
/// pipeline exists; `per_frame` is the samples per frame and
/// `max_iterations` the fractal's iteration budget.
pub open spec fn spec_accumulation_step(
    s: AccumState,
    texture_recreated: bool,
    view_changed: bool,
    compute_ready: bool,
    per_frame: u32,
    max_iterations: u32,
) -> (AccumState, AccumAction) {
    let r = restarted(s, texture_recreated, view_changed);
    let run = !r.paused && compute_ready;
    let total = if run { r.total_iterations + per_frame } else { r.total_iterations as int };
    let next = AccumState {
        total_iterations: total as u64,
        pending_clear: false,
        paused: r.paused || (run && r.max_iterations > 0 && total >= r.max_iterations),
        max_iterations: r.max_iterations,
    };
    let action = AccumAction {
        clear: s.pending_clear || view_changed,
        dispatch: run,
        workgroups: if per_frame / 256 >= 1 { (per_frame / 256) as u32 } else { 1 },
        seed_offset: (r.total_iterations % 0x1_0000_0000) as u32,
        min_iterations: if max_iterations / 10 >= 20 { (max_iterations / 10) as u32 } else { 20 },
    };
    (next, action)
}

/// Decides one frame of accumulation.
pub fn accumulation_step(
    s: AccumState,
    texture_recreated: bool,
    view_changed: bool,
    compute_ready: bool,
    per_frame: u32,
    max_iterations: u32,
) -> (r: (AccumState, AccumAction))
    requires
        s.total_iterations + per_frame <= u64::MAX,
    ensures
        r == spec_accumulation_step(s, texture_recreated, view_changed, compute_ready, per_frame, max_iterations),
{
    let mut st = s;
    if texture_recreated {
        st.total_iterations = 0;
    }
    if view_changed {
        st.pending_clear = true;
        st.total_iterations = 0;
        st.paused = false;
    }
    let clear = st.pending_clear;
    if st.pending_clear {
        st.pending_clear = false;
        st.total_iterations = 0;
    }
    let total = st.total_iterations;
    let seed_offset = (total & 0xFFFF_FFFF) as u32;
    assert(total & 0xFFFF_FFFF == total % 0x1_0000_0000) by (bit_vector);
    let run = !st.paused && compute_ready;
    if run {
        st.total_iterations = st.total_iterations + per_frame as u64;
        if st.max_iterations > 0 && st.total_iterations >= st.max_iterations {
            st.paused = true;
        }
    }
    let workgroups = if per_frame / 256 >= 1 { per_frame / 256 } else { 1 };
    let min_iterations = if max_iterations / 10 >= 20 { max_iterations / 10 } else { 20 };
    (st, AccumAction { clear, dispatch: run, workgroups, seed_offset, min_iterations })
}

/// A changed view always restarts from an empty, running accumulation, and
/// a running accumulation never counts past its budget without pausing.
pub proof fn lemma_view_change_restarts(
    s: AccumState,
    texture_recreated: bool,
    compute_ready: bool,
    per_frame: u32,
    max_iterations: u32,
)
    requires
        s.total_iterations + per_frame <= u64::MAX,
    ensures
        spec_accumulation_step(s, texture_recreated, true, compute_ready, per_frame, max_iterations).1.clear,
        spec_accumulation_step(s, texture_recreated, true, compute_ready, per_frame, max_iterations).1.dispatch
            == compute_ready,
        spec_accumulation_step(s, texture_recreated, true, compute_ready, per_frame, max_iterations).0.total_iterations
            == (if compute_ready { per_frame as u64 } else { 0 }),
{
}

/// Once the budget is reached the accumulation pauses, and a paused
/// accumulation with an unchanged view neither runs nor counts.
pub proof fn lemma_budget_pauses(
    s: AccumState,
    texture_recreated: bool,
    compute_ready: bool,
    per_frame: u32,
    max_iterations: u32,
)
    requires
        s.total_iterations + per_frame <= u64::MAX,
    ensures
        ({
            let (n, a) = spec_accumulation_step(s, texture_recreated, false, compute_ready, per_frame, max_iterations);
            &&& (a.dispatch && n.max_iterations > 0 && n.total_iterations >= n.max_iterations) ==> n.paused
            &&& s.paused ==> !a.dispatch && n.paused
        }),
{
}

/// The dispatch sizes of a frame: one workgroup per whole 256 samples (at
/// least one), and a shortest kept trajectory of a tenth of the iteration
/// budget rounded down, never under 20.
pub proof fn lemma_dispatch_sizes(
    s: AccumState,
    texture_recreated: bool,
    view_changed: bool,
    compute_ready: bool,
    per_frame: u32,
    max_iterations: u32,
)
    ensures
        ({
            let a = spec_accumulation_step(s, texture_recreated, view_changed, compute_ready, per_frame, max_iterations).1;
            &&& per_frame >= 256 ==> 256 * a.workgroups <= per_frame < 256 * a.workgroups + 256
            &&& per_frame < 256 ==> a.workgroups == 1
            &&& max_iterations >= 200 ==> 10 * a.min_iterations <= max_iterations < 10 * a.min_iterations + 10
            &&& max_iterations < 200 ==> a.min_iterations == 20
        }),
{
}

/// A running accumulation with nothing to restart it adds exactly one
/// frame of samples, hands the shader the count before this frame as its
/// random-stream offset (while that count fits 32 bits), and does not
/// clear; with a budget of 0 it never pauses. A recreated target alone
/// restarts the count without a clear.
pub proof fn lemma_accumulation_continues(
    s: AccumState,
    compute_ready: bool,
    per_frame: u32,
    max_iterations: u32,
)
    requires
        s.total_iterations + per_frame <= u64::MAX,
        !s.pending_clear,
        !s.paused,
    ensures
        ({
            let (n, a) = spec_accumulation_step(s, false, false, true, per_frame, max_iterations);
            &&& n.total_iterations == s.total_iterations + per_frame
            &&& a.dispatch && !a.clear
            &&& s.total_iterations < 0x1_0000_0000 ==> a.seed_offset == s.total_iterations
            &&& s.max_iterations == 0 ==> !n.paused
        }),
        ({
            let (n, a) = spec_accumulation_step(s, true, false, compute_ready, per_frame, max_iterations);
            &&& !a.clear
            &&& n.total_iterations == (if compute_ready { per_frame as u64 } else { 0 })
        }),
{
}

} // verus!
