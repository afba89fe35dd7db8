use par_fractal::lod::{motion_lod_level, performance_lod_step, target_lod_level, LODProfile, LODStrategy, StableTimer};

#[test]
fn motion_level_follows_camera_state() {
    assert_eq!(motion_lod_level(true, false, false), 2);
    assert_eq!(motion_lod_level(true, true, true), 3);
    assert_eq!(motion_lod_level(false, true, true), 2);
    assert_eq!(motion_lod_level(false, true, false), 0);
}

#[test]
fn performance_degrades_at_once_and_upgrades_when_stable() {
    assert_eq!(performance_lod_step(1, 1, false), (1, StableTimer::Accumulate));
    assert_eq!(performance_lod_step(1, 3, false), (3, StableTimer::Reset));
    assert_eq!(performance_lod_step(3, 0, false), (3, StableTimer::Accumulate));
    assert_eq!(performance_lod_step(3, 0, true), (0, StableTimer::Reset));
}

#[test]
fn target_level_per_strategy() {
    assert_eq!(target_lod_level(LODStrategy::Distance, 1, 3, 2, 0), 1);
    assert_eq!(target_lod_level(LODStrategy::Motion, 1, 3, 2, 0), 3);
    assert_eq!(target_lod_level(LODStrategy::Performance, 1, 3, 2, 0), 2);
    assert_eq!(target_lod_level(LODStrategy::Hybrid, 1, 0, 2, 0), 2);
    // The minimum quality level is respected.
    assert_eq!(target_lod_level(LODStrategy::Hybrid, 0, 0, 0, 1), 1);
    // Levels past the lowest quality are capped.
    assert_eq!(target_lod_level(LODStrategy::Distance, 7, 0, 0, 0), 3);
}

#[test]
fn profile_switches() {
    assert!(!LODProfile::PerformanceFirst.smooth_transitions(true));
    assert!(LODProfile::Balanced.smooth_transitions(false));
    assert!(!LODProfile::Custom.smooth_transitions(false));
    assert!(LODProfile::PerformanceFirst.aggressive_mode(false));
    assert!(!LODProfile::QualityFirst.aggressive_mode(true));
    assert!(LODProfile::Custom.aggressive_mode(true));
}
