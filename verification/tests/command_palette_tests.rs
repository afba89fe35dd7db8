use par_fractal::command_palette::{fuzzy_match, Command, CommandAction, CommandCategory, CommandPalette, EffectType, SCORE_UNIT, BUILTIN_COMMAND_COUNT};
use par_fractal::types::FractalType;

#[test]
fn test_fuzzy_match() {
    assert!(fuzzy_match("man", "mandelbrot").is_some());
    assert!(fuzzy_match("mdb", "mandelbulb").is_some());
    assert!(fuzzy_match("xyz", "mandelbrot").is_none());
}

#[test]
fn test_command_matching() {
    let cmd = Command::new(
        "Mandelbrot",
        CommandCategory::Fractal,
        CommandAction::SetFractalType(FractalType::Mandelbrot2D),
        "Classic Mandelbrot",
    )
    .with_aliases(vec!["mb", "mbrot"]);

    assert!(cmd.match_score("man").is_some());
    assert!(cmd.match_score("mb").is_some());
    assert!(cmd.match_score("xyz").is_none());
}

#[test]
fn test_palette_filtering() {
    let mut palette = CommandPalette::new();
    palette.set_query("mandel".to_string());

    assert!(!palette.filtered_commands.is_empty());
    assert!(palette
        .filtered_commands
        .iter()
        .any(|(_, cmd)| cmd.name.contains("Mandel")));
}

#[test]
fn score_tiers() {
    let cmd = Command::new("Toggle Fog", CommandCategory::Effect, CommandAction::ToggleEffect(EffectType::Fog), "Toggle atmospheric fog")
        .with_aliases(vec!["fog", "atmosphere"]);
    assert_eq!(cmd.match_score(""), Some(SCORE_UNIT));
    assert_eq!(cmd.match_score("toggle fog"), Some(100 * SCORE_UNIT));
    assert_eq!(cmd.match_score("TOGGLE"), Some(90 * SCORE_UNIT));
    assert_eq!(cmd.match_score("fog"), Some(95 * SCORE_UNIT));
    assert_eq!(cmd.match_score("atmo"), Some(85 * SCORE_UNIT));
    assert_eq!(cmd.match_score("zzz"), None);
}

#[test]
fn fuzzy_score_exact_value() {
    // "mdb" in "mandelbulb": 3 of 10 text bytes matched, longest run 1 of 3
    // query bytes, text does not start with the query:
    // 40*0.3 + 40/3 + 10 = 35.333..., kept to 20 fractional bits.
    let s = fuzzy_match("mdb", "mandelbulb").unwrap();
    assert_eq!(s, 12 * SCORE_UNIT + (40 * SCORE_UNIT) / 3 + 10 * SCORE_UNIT);
    // A prefix fuzzy match is capped at 80.
    assert_eq!(fuzzy_match("ab", "ab"), Some(80 * SCORE_UNIT));
    assert_eq!(fuzzy_match("", "anything"), Some(SCORE_UNIT));
}

#[test]
fn description_match_scores_thirty() {
    let cmd = Command::new("Reset View", CommandCategory::Camera, CommandAction::ResetView, "Reset camera to default position")
        .with_aliases(vec!["reset"]);
    assert_eq!(cmd.match_score("position"), Some(30 * SCORE_UNIT));
}

#[test]
fn alias_fuzzy_scores_nine_tenths() {
    let cmd = Command::new("Qqq", CommandCategory::UI, CommandAction::ToggleUI, "none")
        .with_aliases(vec!["abcd"]);
    let direct = fuzzy_match("ad", "abcd").unwrap();
    assert_eq!(cmd.match_score("ad"), Some(direct * 9 / 10));
}

#[test]
fn results_are_ranked_and_limited() {
    let mut palette = CommandPalette::new();
    assert_eq!(palette.commands.len(), BUILTIN_COMMAND_COUNT);
    palette.open();
    assert!(palette.open);
    assert_eq!(palette.filtered_commands.len(), 10);
    assert_eq!(palette.filtered_commands[0].1.name, "Mandelbrot (2D)");
    palette.set_query("toggle".to_string());
    assert!(palette.filtered_commands.len() <= 10);
    for w in palette.filtered_commands.windows(2) {
        assert!(w[0].0 >= w[1].0);
    }
    palette.close();
    assert!(!palette.open);
    assert!(palette.filtered_commands.is_empty());
}

#[test]
fn selection_moves_within_results() {
    let mut palette = CommandPalette::new();
    palette.toggle();
    assert!(palette.open);
    palette.select_previous();
    assert_eq!(palette.selected_index, 0);
    palette.select_next();
    palette.select_next();
    assert_eq!(palette.selected_index, 2);
    assert_eq!(palette.get_selected_command().unwrap().name, palette.filtered_commands[2].1.name);
    for _ in 0..20 {
        palette.select_next();
    }
    assert_eq!(palette.selected_index, 9);
    palette.set_query("screenshot".to_string());
    assert_eq!(palette.selected_index, 0);
    assert_eq!(palette.get_selected_command().unwrap().name, "Take Screenshot");
    palette.toggle();
    assert!(palette.get_selected_command().is_none());
}

#[test]
fn category_names_and_icons() {
    assert_eq!(CommandCategory::Fractal.name(), "Fractal");
    assert_eq!(CommandCategory::LOD.name(), "LOD");
    assert_eq!(CommandCategory::Color.icon(), "🎨");
    assert_eq!(CommandCategory::Settings.icon(), "⚙️");
}

#[test]
fn builders_keep_fields() {
    let cmd = Command::new("X", CommandCategory::Debug, CommandAction::Screenshot, "d")
        .with_aliases(vec!["a", "b"])
        .with_shortcut("F12");
    assert_eq!(cmd.aliases, vec!["a".to_string(), "b".to_string()]);
    assert_eq!(cmd.shortcut.as_deref(), Some("F12"));
    let c2 = cmd.clone();
    assert_eq!(c2.name, "X");
    assert_eq!(c2.aliases.len(), 2);
}

#[test]
fn mandel_lists_the_mandel_commands_first() {
    let mut palette = CommandPalette::new();
    palette.set_query("mandel".to_string());
    assert_eq!(palette.selected_index, 0);
    let names: Vec<&str> = palette.filtered_commands.iter().take(3).map(|(_, c)| c.name.as_str()).collect();
    assert_eq!(names, vec!["Mandelbrot (2D)", "Mandelbulb (3D)", "Mandelbox (3D)"]);
    for (s, _) in palette.filtered_commands.iter().take(3) {
        assert_eq!(*s, 90 * SCORE_UNIT);
    }
}

#[test]
fn catalog_entries_are_exact() {
    let palette = CommandPalette::new();
    let menger = palette.commands.iter().find(|c| c.name == "Menger Sponge (3D)").unwrap();
    assert!(matches!(menger.action, CommandAction::SetFractalType(FractalType::MengerSponge3D)));
    assert_eq!(menger.aliases, vec!["menger".to_string(), "sponge".to_string()]);
    assert_eq!(menger.shortcut.as_deref(), Some("F2"));
    assert_eq!(menger.description, "Menger Sponge (3D) fractal");
    let newton = palette.commands.iter().find(|c| c.name == "Newton (2D)").unwrap();
    assert_eq!(newton.aliases, vec!["newton".to_string()]);
    assert!(newton.shortcut.is_none());
}

#[test]
fn every_listed_fractal_type_has_a_command() {
    let palette = CommandPalette::new();
    let all = [
        FractalType::Mandelbrot2D, FractalType::Julia2D, FractalType::Sierpinski2D, FractalType::SierpinskiTriangle2D,
        FractalType::BurningShip2D, FractalType::Tricorn2D, FractalType::Phoenix2D, FractalType::Celtic2D,
        FractalType::Newton2D, FractalType::Lyapunov2D, FractalType::Nova2D, FractalType::Magnet2D,
        FractalType::Collatz2D, FractalType::Mandelbulb3D, FractalType::MengerSponge3D,
        FractalType::SierpinskiPyramid3D, FractalType::JuliaSet3D, FractalType::Mandelbox3D,
        FractalType::OctahedralIFS3D, FractalType::IcosahedralIFS3D, FractalType::ApollonianGasket3D,
        FractalType::Kleinian3D, FractalType::HybridMandelbulbJulia3D, FractalType::QuaternionCubic3D,
        FractalType::SierpinskiGasket3D, FractalType::Hopalong2D, FractalType::Martin2D,
        FractalType::Gingerbreadman2D, FractalType::Chip2D, FractalType::Quadruptwo2D, FractalType::Threeply2D,
    ];
    for t in all {
        assert!(palette.commands.iter().any(|c| c.category == CommandCategory::Fractal
            && matches!(c.action, CommandAction::SetFractalType(u) if u == t)), "{:?}", t);
    }
}
