//! The settings.

use tui_calendar::config::{CacheConfig, Config, StoredConfig};

fn refusal(change: fn(&mut Config)) -> String {
    let mut config = Config::default();
    change(&mut config);
    Config::load_from("config.toml", StoredConfig::Read(config)).unwrap_err()
}

#[test]
fn merges_partial_configuration_with_defaults() {
    let stored = Config {
        default_view: "agenda".into(),
        refresh_seconds: 10,
        ..Config::default()
    };
    let config = Config::load_from("config.toml", StoredConfig::Read(stored)).unwrap();
    assert_eq!(config.default_view, "agenda");
    assert_eq!(config.refresh_seconds, 10);
    assert_eq!(config.time_format, "24h");
}

#[test]
fn rejects_invalid_event_defaults() {
    let error = refusal(|config| config.event.default_duration_minutes = 0);
    assert!(error.contains("validating"));
    assert!(error.starts_with("validating config.toml: "));
}

#[test]
fn rejects_unknown_and_invalid_top_level_settings_with_field_context() {
    assert!(refusal(|config| config.week_start = "friday".into()).contains("week_start"));
    let error = Config::load_from(
        "config.toml",
        StoredConfig::Unparsable("unknown field `unknown_release_setting`".into()),
    )
    .unwrap_err();
    assert_eq!(error, "parsing config.toml: unknown field `unknown_release_setting`");
}

#[test]
fn rejects_invalid_runtime_settings_instead_of_silently_falling_back() {
    assert!(refusal(|config| config.default_view = "timeline".into()).contains("default_view"));
    assert!(refusal(|config| config.time_format = "military".into()).contains("time_format"));
    assert!(refusal(|config| config.refresh_seconds = 0).contains("refresh_seconds"));
}

#[test]
fn every_setting_is_held_to_its_words() {
    assert!(refusal(|config| config.theme = "neon".into()).contains("theme"));
    assert!(refusal(|config| config.backend = "carrier".into()).contains("backend"));
    assert!(refusal(|config| config.event.default_start_time = "9 o'clock".into())
        .contains("default_start_time"));
    assert!(refusal(|config| config.event.time_rounding_minutes = 0).contains("time_rounding"));
    let mut config = Config::default();
    config.theme = "LIGHT".into();
    config.default_view = "Month".into();
    assert_eq!(config.validate(), Ok(()));
}

#[test]
fn missing_and_unreadable_settings() {
    let config = Config::load_from("config.toml", StoredConfig::Missing).unwrap();
    assert_eq!(config, Config::default());
    assert_eq!(config.cache, CacheConfig { past_days: 365, future_days: 730 });
    assert_eq!(
        Config::load_from("config.toml", StoredConfig::Unreadable("denied".into())).unwrap_err(),
        "reading config.toml: denied"
    );
}

#[test]
fn the_places_of_the_settings() {
    assert_eq!(Config::directory(Some("/home/a/.config".into())), "/home/a/.config/tui-calendar");
    assert_eq!(Config::directory(None), "./tui-calendar");
    assert_eq!(Config::path(None, Some("/c/".into())), "/c/tui-calendar/config.toml");
    assert_eq!(Config::path(Some("/elsewhere.toml".into()), None), "/elsewhere.toml");
    assert_eq!(
        Config::data_directory(Some("/home/a/.local/share".into()), None),
        "/home/a/.local/share/tui-calendar"
    );
    assert_eq!(
        Config::data_directory(None, Some("/c".into())),
        "/c/tui-calendar/tui-calendar"
    );
}
