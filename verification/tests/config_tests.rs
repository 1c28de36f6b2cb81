use cosmic_hex::config::{AppTheme, Config, ConfigState};

#[test]
fn default_config_values() {
    let c = Config::default();
    assert_eq!(c.app_theme, AppTheme::System);
    assert_eq!(c.font_name, "Fira Mono");
    assert_eq!(c.font_size, 20);
    assert_eq!(c.syntax_theme_dark, "COSMIC Dark");
    assert_eq!(c.syntax_theme_light, "COSMIC Light");
}

#[test]
fn syntax_theme_follows_the_chosen_theme() {
    let mut c = Config::default();
    c.app_theme = AppTheme::Dark;
    assert_eq!(c.syntax_theme(false), "COSMIC Dark");
    c.app_theme = AppTheme::Light;
    assert_eq!(c.syntax_theme(true), "COSMIC Light");
}

#[test]
fn syntax_theme_system_uses_the_preference() {
    let c = Config::default();
    assert_eq!(c.syntax_theme(true), "COSMIC Dark");
    assert_eq!(c.syntax_theme(false), "COSMIC Light");
}

#[test]
fn remember_recent_moves_to_front_and_dedups() {
    let mut state = ConfigState::default();
    state.remember_recent("a".to_string());
    state.remember_recent("b".to_string());
    state.remember_recent("a".to_string());
    let entries: Vec<&str> = state.recent_files.iter().map(|s| s.as_str()).collect();
    assert_eq!(entries, vec!["a", "b"]);
}

#[test]
fn remember_recent_keeps_at_most_ten() {
    let mut state = ConfigState::default();
    for i in 0..15 {
        state.remember_recent(format!("file-{}", i));
    }
    assert_eq!(state.recent_files.len(), 10);
    assert_eq!(state.recent_files[0], "file-14");
    assert_eq!(state.recent_files[9], "file-5");
}

#[test]
fn remember_recent_preserves_order_of_the_rest() {
    let mut state = ConfigState::default();
    state.remember_recent("x".to_string());
    state.remember_recent("y".to_string());
    state.remember_recent("z".to_string());
    state.remember_recent("y".to_string());
    let entries: Vec<&str> = state.recent_files.iter().map(|s| s.as_str()).collect();
    assert_eq!(entries, vec!["y", "z", "x"]);
}
