use orbolay::app_state::AppState;
use orbolay::config::Config;
use orbolay::logger::{log_line, status_label, LogColor, LogKind};
use orbolay::util::string_map::StringMap;

#[test]
fn status_labels() {
    assert_eq!(status_label(None), ("INFO".to_string(), LogColor::Blue));
    assert_eq!(status_label(Some(LogKind::Info)), ("INFO".to_string(), LogColor::Blue));
    assert_eq!(status_label(Some(LogKind::Success)), ("DONE".to_string(), LogColor::Green));
    assert_eq!(status_label(Some(LogKind::Warn)), ("WARN".to_string(), LogColor::Yellow));
    assert_eq!(status_label(Some(LogKind::Error)), ("FAIL".to_string(), LogColor::Red));
}

#[test]
fn log_lines() {
    assert_eq!(
        log_line("2024-01-02 03:04:05", "INFO", "hello"),
        "[2024-01-02 03:04:05] [INFO] hello"
    );
}

#[test]
fn config_copies() {
    let mut c = Config::default();
    c.user_alignment = Some("bottomright".into());
    c.overlay_keybind = Some(vec!["KeyA".into()]);
    let d = c.clone();
    assert_eq!(d.user_alignment, Some("bottomright".to_string()));
    assert_eq!(d.overlay_keybind, Some(vec!["KeyA".to_string()]));
    assert_eq!(d.port, c.port);
}

#[test]
fn map_copies() {
    let mut m: StringMap<String> = StringMap::new();
    m.insert("k".into(), "v".into());
    m.insert("j".into(), "w".into());
    let n = m.clone();
    assert_eq!(n.len(), 2);
    assert_eq!(n.get("k"), Some(&"v".to_string()));
    assert_eq!(n.entry(1).0, "j");
}

#[test]
fn default_state_is_the_start_state() {
    let s = AppState::default();
    assert!(!s.is_open);
    assert_eq!(s.guild_names.get("0"), Some(&"Default".to_string()));
    let t = s.clone();
    assert_eq!(t.guild_names.len(), 1);
}
