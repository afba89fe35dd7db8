use par_fractal::capture::{padded_bytes_per_row, strip_row_padding, swap_bgra_channels};
use par_fractal::lod::{parse_quality_level, profile_name, LODProfile, LODStrategy};
use par_fractal::palettes::{next_palette_index, prev_palette_index};
use par_fractal::platform::category;
use par_fractal::platform::{list_web_keys, make_key, parse_key, storage_file_name, PlatformError};
use par_fractal::presets::{storage_keys, AppPreferences, BookmarkGallery, CustomPaletteGallery, PresetCategory, PresetGallery};
use par_fractal::reference::{parse_kind, FractalKind};
use par_fractal::tools::{parse_fractal_type, parse_size, parse_u32};
use par_fractal::types::FractalType;
use par_fractal::ui_state::{default_custom_height, default_custom_width, default_dof_samples, default_shadow_mode, default_true, UIState};

fn names(v: &[&str]) -> Vec<String> {
    v.iter().map(|s| s.to_string()).collect()
}

#[test]
fn preset_categories() {
    assert_eq!(PresetCategory::TwoDFractals.as_str(), "2D Fractals");
    assert_eq!(PresetCategory::IFS.as_str(), "IFS");
    assert_eq!(PresetCategory::all_categories().len(), 5);
    assert_eq!(PresetCategory::all_categories()[0], PresetCategory::All);
    assert_eq!(PresetCategory::default_category(), PresetCategory::All);
}

#[test]
fn preferences_window_size() {
    let mut p = AppPreferences::default();
    assert_eq!(p.window_size_or_default(), (960, 540));
    p.set_window_size(1280, 720);
    assert_eq!(p.window_size_or_default(), (1280, 720));
    p.window_height = None;
    assert_eq!(p.window_size_or_default(), (1280, 540));
}

#[test]
fn gallery_listing_keeps_yaml_stems() {
    let files = names(&["b.yaml", "a.yaml", "notes.txt", ".yaml", "c.d.yaml", "e.YAML", "f"]);
    assert_eq!(BookmarkGallery::list_bookmarks(&files), names(&["a", "b", "c.d"]));
    assert_eq!(CustomPaletteGallery::list_palettes(&files), names(&["a", "b", "c.d"]));
    assert_eq!(PresetGallery::list_user_presets(&files), names(&["b", "a", "c.d"]));
    assert_eq!(storage_keys(&files), names(&[".yaml", "a", "b", "c.d", "e", "f", "notes"]));
}

#[test]
fn storage_keys_and_file_names() {
    assert_eq!(storage_file_name("settings"), "settings.yaml");
    assert_eq!(make_key(category::PRESETS, "x"), "par-fractal:presets:x");
    assert_eq!(parse_key("par-fractal:presets:x", category::PRESETS), Some("x".to_string()));
    assert_eq!(parse_key("par-fractal:bookmarks:x", category::PRESETS), None);
    let keys = names(&["par-fractal:presets:zeta", "other", "par-fractal:presets:alpha", "par-fractal:palettes:q"]);
    assert_eq!(list_web_keys(&keys, "presets"), names(&["alpha", "zeta"]));
    assert_eq!(category::all(), vec!["settings", "presets", "bookmarks", "palettes", "preferences"]);
}

#[test]
fn platform_error_messages() {
    assert_eq!(PlatformError::StorageNotAvailable.message(), "Storage not available");
    assert_eq!(PlatformError::IoError("disk".to_string()).message(), "I/O error: disk");
    assert_eq!(PlatformError::NotSupported("web".to_string()).message(), "Not supported: web");
    assert_eq!(PlatformError::SerializationError("bad".to_string()).message(), "Serialization error: bad");
    assert_eq!(PlatformError::OperationCancelled.message(), "Operation cancelled");
}

#[test]
fn quality_levels_and_profiles() {
    assert_eq!(parse_quality_level("Ultra"), Some(0));
    assert_eq!(parse_quality_level("h"), Some(1));
    assert_eq!(parse_quality_level("MED"), Some(2));
    assert_eq!(parse_quality_level("low"), Some(3));
    assert_eq!(parse_quality_level("max"), None);
    assert_eq!(profile_name(LODProfile::PerformanceFirst), "Performance First");
    assert_eq!(LODProfile::DistanceOnly.strategy(LODStrategy::Hybrid), LODStrategy::Distance);
    assert_eq!(LODProfile::Custom.strategy(LODStrategy::Motion), LODStrategy::Motion);
    assert_eq!(LODProfile::QualityFirst.min_quality_level(0), 1);
    assert_eq!(LODProfile::default_profile(), LODProfile::Balanced);
    assert_eq!(LODStrategy::default_strategy(), LODStrategy::Hybrid);
}

#[test]
fn readback_helpers() {
    assert_eq!(padded_bytes_per_row(1), 256);
    assert_eq!(padded_bytes_per_row(64), 256);
    assert_eq!(padded_bytes_per_row(65), 512);
    assert_eq!(padded_bytes_per_row(0), 0);
    let padded: Vec<u8> = (0u8..16).collect();
    // 1-pixel-wide, 2-row image with an 8-byte pitch.
    assert_eq!(strip_row_padding(&padded, 1, 2, 8), vec![0, 1, 2, 3, 8, 9, 10, 11]);
    let mut px = vec![1u8, 2, 3, 4, 5, 6, 7, 8, 9];
    swap_bgra_channels(&mut px, true);
    assert_eq!(px, vec![3, 2, 1, 4, 7, 6, 5, 8, 9]);
    swap_bgra_channels(&mut px, false);
    assert_eq!(px, vec![3, 2, 1, 4, 7, 6, 5, 8, 9]);
}

#[test]
fn tool_argument_parsers() {
    assert_eq!(parse_size("1920x1080"), Some((1920, 1080)));
    assert_eq!(parse_size("0x10"), None);
    assert_eq!(parse_size("1920"), None);
    assert_eq!(parse_size("axb"), None);
    assert_eq!(parse_u32("+42"), Some(42));
    assert_eq!(parse_u32("4294967295"), Some(u32::MAX));
    assert_eq!(parse_u32("4294967296"), None);
    assert_eq!(parse_u32("-1"), None);
    assert_eq!(parse_u32(""), None);
    assert_eq!(parse_kind("burning_ship"), Some(FractalKind::BurningShip));
    assert_eq!(parse_kind("julia"), None);
    assert_eq!(parse_fractal_type("Tricorn2D"), Some(FractalType::Tricorn2D));
    assert_eq!(parse_fractal_type("Julia2D"), None);
}

#[test]
fn ui_defaults() {
    let s = UIState::default();
    assert!(s.fractal_type_open && s.lighting_open);
    assert!(!s.show_fps && !s.presets_open);
    assert_eq!(default_dof_samples(), 2);
    assert_eq!(default_shadow_mode(), 2);
    assert!(default_true());
    assert_eq!(default_custom_width(), "1920");
    assert_eq!(default_custom_height(), "1080");
}

#[test]
fn palette_cycling_wraps_both_ways() {
    assert_eq!(next_palette_index(0, 48), 1);
    assert_eq!(next_palette_index(47, 48), 0);
    assert_eq!(prev_palette_index(0, 48), 47);
    assert_eq!(prev_palette_index(2, 48), 1);
    for i in 0..48 {
        assert_eq!(prev_palette_index(next_palette_index(i, 48), 48), i);
    }
}
