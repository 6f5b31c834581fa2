use hemu_gui::settings::{
    default_host_modifier, default_video_backend, default_window_height, default_window_width,
    InputConfig, KeyMapping, ScalingMode, Settings,
};

#[test]
fn test_default_settings() {
    let settings = Settings::default();
    assert_eq!(settings.input.player1.a, "Z");
    assert_eq!(settings.input.player1.b, "X");
    assert_eq!(settings.input.player2.a, "U");
    assert_eq!(settings.input.player2.b, "O");
    assert_eq!(settings.input.host_modifier, "RightCtrl");
    assert_eq!(settings.window_width, 512);
    assert_eq!(settings.window_height, 480);
    assert_eq!(settings.last_rom_path, None);
}

#[test]
fn test_backward_compatibility_migration() {
    // A configuration written by an older version: only the single-player
    // "keyboard" entry and the window size.
    let keyboard = KeyMapping {
        a: "Z".to_string(),
        b: "X".to_string(),
        x: String::new(),
        y: String::new(),
        l: String::new(),
        r: String::new(),
        select: "LeftShift".to_string(),
        start: "Enter".to_string(),
        up: "Up".to_string(),
        down: "Down".to_string(),
        left: "Left".to_string(),
        right: "Right".to_string(),
    };
    let mut settings = Settings::default();
    settings.keyboard = Some(keyboard);
    settings.window_width = 512;
    settings.window_height = 480;
    settings.migrate_legacy_keyboard();
    assert_eq!(settings.input.player1.a, "Z");
    assert_eq!(settings.input.player1.b, "X");
}

#[test]
fn test_multi_player_defaults() {
    let settings = Settings::default();

    // Player 1 uses default mappings
    assert_eq!(settings.input.player1.a, "Z");
    assert_eq!(settings.input.player1.up, "Up");

    // Player 2 has different default mappings
    assert_eq!(settings.input.player2.a, "U");
    assert_eq!(settings.input.player2.b, "O");
    assert_eq!(settings.input.player2.up, "I");
    assert_eq!(settings.input.player2.start, "P");

    // Players 3 and 4 are unmapped by default
    assert!(settings.input.player3.a.is_empty());
    assert!(settings.input.player4.a.is_empty());
}

#[test]
fn test_scaling_mode_names() {
    assert_eq!(ScalingMode::Original.name(), "Original");
    assert_eq!(ScalingMode::Fit.name(), "Fit");
    assert_eq!(ScalingMode::Stretch.name(), "Stretch");
}

#[test]
fn test_scaling_mode_default() {
    assert_eq!(ScalingMode::default(), ScalingMode::Fit);
}

#[test]
fn test_settings_with_scaling_mode() {
    let mut settings = Settings::default();
    assert_eq!(settings.scaling_mode, ScalingMode::Fit);

    settings.scaling_mode = ScalingMode::Original;
    assert_eq!(settings.scaling_mode, ScalingMode::Original);

    settings.scaling_mode = ScalingMode::Stretch;
    assert_eq!(settings.scaling_mode, ScalingMode::Stretch);
}

#[test]
fn migration_without_legacy_entry_keeps_player1() {
    let mut settings = Settings::default();
    settings.input.player1.a = "Q".to_string();
    settings.migrate_legacy_keyboard();
    assert_eq!(settings.input.player1.a, "Q");
    assert!(settings.keyboard.is_none());
}

#[test]
fn migration_replaces_player1_and_clears_legacy_entry() {
    let mut legacy = KeyMapping::default();
    legacy.a = "J".to_string();
    legacy.start = "Space".to_string();
    let mut settings = Settings::default();
    settings.keyboard = Some(legacy);
    settings.migrate_legacy_keyboard();
    assert_eq!(settings.input.player1.a, "J");
    assert_eq!(settings.input.player1.start, "Space");
    assert!(settings.keyboard.is_none());
    assert_eq!(settings.input.player2.a, "U");
}

#[test]
fn default_helpers_values() {
    assert_eq!(default_window_width(), 512);
    assert_eq!(default_window_height(), 480);
    assert_eq!(default_video_backend(), "software");
    assert_eq!(default_host_modifier(), "RightCtrl");
}

#[test]
fn player_defaults_of_other_players() {
    let p3 = KeyMapping::player3_default();
    let p4 = KeyMapping::player4_default();
    assert!(p3.a.is_empty() && p3.up.is_empty());
    assert!(p4.b.is_empty() && p4.right.is_empty());
    let input = InputConfig::default();
    assert_eq!(input.player1.right, "Right");
    assert_eq!(input.player2.a, "U");
}
