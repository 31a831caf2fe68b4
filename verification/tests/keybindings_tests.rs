use brainwires_cli::events::{Event, KeyCode, KeyEvent, KeyModifiers};
use brainwires_cli::keybindings::{parse_key_spec, KeybindingMap, Keybindings};

fn key_event(code: KeyCode, mods: KeyModifiers) -> Event {
    Event::Key(KeyEvent::new(code, mods))
}

#[test]
fn parse_round_trips_common_forms() {
    assert_eq!(parse_key_spec("Ctrl+D"), Some((KeyCode::Char('d'), KeyModifiers::control())));
    assert_eq!(parse_key_spec("ctrl+d"), Some((KeyCode::Char('d'), KeyModifiers::control())));
    assert_eq!(
        parse_key_spec("Alt+Shift+F4"),
        Some((KeyCode::F(4), KeyModifiers::alt().union(KeyModifiers::shift())))
    );
    assert_eq!(parse_key_spec("Esc"), Some((KeyCode::Esc, KeyModifiers::none())));
    assert_eq!(parse_key_spec("Space"), Some((KeyCode::Char(' '), KeyModifiers::none())));
    assert_eq!(parse_key_spec("F1"), Some((KeyCode::F(1), KeyModifiers::none())));
}

#[test]
fn parse_rejects_garbage() {
    assert!(parse_key_spec("").is_none());
    assert!(parse_key_spec("not-a-key").is_none());
    assert!(parse_key_spec("Ctrl+").is_none());
    assert!(parse_key_spec("Ctrl+hello").is_none());
    assert!(parse_key_spec("F99").is_none());
}

#[test]
fn defaults_match_built_in_behaviour() {
    let map = KeybindingMap::default();
    let ctrl_d = key_event(KeyCode::Char('d'), KeyModifiers::control());
    assert!(map.matches("console_view", &ctrl_d));
    let ctrl_p = key_event(KeyCode::Char('p'), KeyModifiers::control());
    assert!(map.matches("plan_mode_toggle", &ctrl_p));
    let d = key_event(KeyCode::Char('d'), KeyModifiers::none());
    assert!(!map.matches("console_view", &d));
}

#[test]
fn user_override_replaces_default() {
    let mut cfg = Keybindings::default();
    cfg.global.insert("console_view".to_string(), "Ctrl+K".to_string());
    let map = KeybindingMap::from_settings(Some(&cfg));
    let ctrl_k = key_event(KeyCode::Char('k'), KeyModifiers::control());
    assert!(map.matches("console_view", &ctrl_k));
    let ctrl_d = key_event(KeyCode::Char('d'), KeyModifiers::control());
    assert!(!map.matches("console_view", &ctrl_d));
    let ctrl_p = key_event(KeyCode::Char('p'), KeyModifiers::control());
    assert!(map.matches("plan_mode_toggle", &ctrl_p));
}

#[test]
fn unknown_action_is_ignored_not_fatal() {
    let mut cfg = Keybindings::default();
    cfg.global.insert("no_such_action".to_string(), "Ctrl+X".to_string());
    let map = KeybindingMap::from_settings(Some(&cfg));
    let ctrl_d = key_event(KeyCode::Char('d'), KeyModifiers::control());
    assert!(map.matches("console_view", &ctrl_d));
}

#[test]
fn keybindings_merge_later_wins() {
    let mut a = Keybindings::default();
    a.global.insert("console_view".to_string(), "Ctrl+D".to_string());
    let mut b = Keybindings::default();
    b.global.insert("console_view".to_string(), "Ctrl+K".to_string());
    b.global.insert("plan_mode_toggle".to_string(), "Ctrl+J".to_string());
    a.merge(b);
    assert_eq!(a.global.get("console_view").unwrap(), "Ctrl+K");
    assert_eq!(a.global.get("plan_mode_toggle").unwrap(), "Ctrl+J");
}

#[test]
fn unparseable_override_keeps_default() {
    let mut cfg = Keybindings::default();
    cfg.global.insert("task_viewer".to_string(), "Hyper+Q".to_string());
    let map = KeybindingMap::from_settings(Some(&cfg));
    let ctrl_t = key_event(KeyCode::Char('t'), KeyModifiers::control());
    assert!(map.matches("task_viewer", &ctrl_t));
}

#[test]
fn unknown_action_never_matches() {
    let map = KeybindingMap::default();
    let ctrl_d = key_event(KeyCode::Char('d'), KeyModifiers::control());
    assert!(!map.matches("no_such_action", &ctrl_d));
    assert!(!map.matches("console_view", &Event::Tick));
}

#[test]
fn action_names_are_sorted() {
    let map = KeybindingMap::default();
    assert_eq!(
        map.action_names(),
        vec![
            "console_view",
            "file_explorer",
            "plan_mode_toggle",
            "reverse_search",
            "sub_agent_viewer",
            "task_viewer"
        ]
    );
}

#[test]
fn parse_accepts_named_keys_and_spaces() {
    assert_eq!(parse_key_spec("  ctrl + Enter "), Some((KeyCode::Enter, KeyModifiers::control())));
    assert_eq!(parse_key_spec("PageDown"), Some((KeyCode::PageDown, KeyModifiers::none())));
    assert_eq!(parse_key_spec("Q"), Some((KeyCode::Char('q'), KeyModifiers::none())));
    assert_eq!(parse_key_spec("f24"), Some((KeyCode::F(24), KeyModifiers::none())));
    assert!(parse_key_spec("F0").is_none());
    assert_eq!(
        parse_key_spec("Meta+x"),
        Some((KeyCode::Char('x'), KeyModifiers::alt()))
    );
}

#[test]
fn merge_keeps_keys_of_both() {
    let mut a = Keybindings::default();
    a.global.insert("console_view".to_string(), "Ctrl+D".to_string());
    let mut b = Keybindings::default();
    b.global.insert("task_viewer".to_string(), "Ctrl+Y".to_string());
    a.merge(b);
    assert_eq!(a.global.get("console_view").unwrap(), "Ctrl+D");
    assert_eq!(a.global.get("task_viewer").unwrap(), "Ctrl+Y");
    assert!(a.global.get("file_explorer").is_none());
}
