use par_fractal::accumulation::{accumulation_step, AccumState};

#[test]
fn accumulation_counts_and_pauses() {
    let mut s = AccumState::new();
    s.max_iterations = 100_000;
    let (s1, a1) = accumulation_step(s, true, false, true, 50_000, 1000);
    assert!(!a1.clear && a1.dispatch);
    assert_eq!((a1.workgroups, a1.seed_offset, a1.min_iterations), (195, 0, 100));
    assert_eq!(s1.total_iterations, 50_000);
    let (s2, a2) = accumulation_step(s1, false, false, true, 50_000, 100);
    assert_eq!(a2.seed_offset, 50_000);
    assert_eq!(a2.min_iterations, 20);
    assert!(s2.paused && s2.total_iterations == 100_000);
    let (s3, a3) = accumulation_step(s2, false, false, true, 50_000, 100);
    assert!(!a3.dispatch && s3 == s2);
}

#[test]
fn view_change_clears_and_resumes() {
    let s = AccumState { total_iterations: 7_000, pending_clear: false, paused: true, max_iterations: 8_000_000 };
    let (n, a) = accumulation_step(s, false, true, true, 100, 1000);
    assert!(a.clear && a.dispatch);
    assert_eq!(a.workgroups, 1);
    assert_eq!((n.total_iterations, n.paused, n.pending_clear), (100, false, false));
}

#[test]
fn zero_budget_never_pauses_and_missing_pipeline_does_not_count() {
    let s = AccumState { total_iterations: 5, pending_clear: true, paused: false, max_iterations: 0 };
    let (n, a) = accumulation_step(s, false, false, true, 1000, 1000);
    assert!(a.clear && !n.paused && n.total_iterations == 1000);
    let (m, b) = accumulation_step(n, false, false, false, 1000, 1000);
    assert!(!b.dispatch && m.total_iterations == 1000);
}
