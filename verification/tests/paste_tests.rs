use brainwires_cli::events::{Event, KeyCode, KeyEvent, KeyModifiers, MouseButton, MouseEvent, MouseEventKind};
use brainwires_cli::paste::{PasteDetector, MIN_PASTE_CHARS};

fn plain(c: char) -> KeyEvent {
    KeyEvent::new(KeyCode::Char(c), KeyModifiers::none())
}

fn key_code(e: &Event) -> Option<KeyCode> {
    match e {
        Event::Key(k) => Some(k.code),
        _ => None,
    }
}

#[test]
fn short_burst_becomes_key_presses() {
    let mut d = PasteDetector::new();
    assert!(d.on_key(plain('h')).is_empty());
    assert!(d.on_key(plain('i')).is_empty());
    assert!(d.is_holding());
    let out = d.flush();
    assert_eq!(out.len(), 2);
    assert_eq!(key_code(&out[0]), Some(KeyCode::Char('h')));
    assert_eq!(key_code(&out[1]), Some(KeyCode::Char('i')));
    assert!(!d.is_holding());
}

#[test]
fn long_burst_becomes_one_paste() {
    let mut d = PasteDetector::new();
    for c in "hello world".chars() {
        assert!(d.on_key(plain(c)).is_empty());
    }
    let out = d.flush();
    assert_eq!(out.len(), 1);
    match &out[0] {
        Event::Paste(t) => assert_eq!(t, "hello world"),
        other => panic!("expected a paste, got {:?}", other),
    }
}

#[test]
fn burst_size_counts_bytes() {
    // four characters of three bytes each: 12 bytes
    let mut d = PasteDetector::new();
    for c in "日本語で".chars() {
        d.on_key(plain(c));
    }
    let out = d.flush();
    assert_eq!(out.len(), 1);
    assert!(matches!(&out[0], Event::Paste(t) if t == "日本語で"));
    assert!("日本語で".len() >= MIN_PASTE_CHARS);
}

#[test]
fn enter_inside_burst_is_a_newline() {
    let mut d = PasteDetector::new();
    for c in "line one".chars() {
        d.on_key(plain(c));
    }
    assert!(d.on_key(KeyEvent::new(KeyCode::Enter, KeyModifiers::none())).is_empty());
    for c in "two".chars() {
        d.on_key(plain(c));
    }
    let out = d.flush();
    assert!(matches!(&out[0], Event::Paste(t) if t == "line one\ntwo"));
}

#[test]
fn enter_alone_goes_out_at_once() {
    let mut d = PasteDetector::new();
    let out = d.on_key(KeyEvent::new(KeyCode::Enter, KeyModifiers::none()));
    assert_eq!(out.len(), 1);
    assert_eq!(key_code(&out[0]), Some(KeyCode::Enter));
}

#[test]
fn short_burst_with_newline_gives_enter() {
    let mut d = PasteDetector::new();
    d.on_key(plain('a'));
    d.on_key(KeyEvent::new(KeyCode::Enter, KeyModifiers::none()));
    let out = d.flush();
    assert_eq!(out.len(), 2);
    assert_eq!(key_code(&out[1]), Some(KeyCode::Enter));
}

#[test]
fn other_key_flushes_first() {
    let mut d = PasteDetector::new();
    d.on_key(plain('x'));
    let out = d.on_key(KeyEvent::new(KeyCode::Esc, KeyModifiers::none()));
    assert_eq!(out.len(), 2);
    assert_eq!(key_code(&out[0]), Some(KeyCode::Char('x')));
    assert_eq!(key_code(&out[1]), Some(KeyCode::Esc));
    assert!(!d.is_holding());
}

#[test]
fn control_characters_are_not_held() {
    let mut d = PasteDetector::new();
    let out = d.on_key(KeyEvent::new(KeyCode::Char('c'), KeyModifiers::control()));
    assert_eq!(out.len(), 1);
    assert!(out[0].is_quit());
}

#[test]
fn tick_waits_for_burst() {
    let mut d = PasteDetector::new();
    assert_eq!(d.on_tick().len(), 1);
    d.on_key(plain('a'));
    assert!(d.on_tick().is_empty());
}

#[test]
fn bracketed_paste_drops_held_burst() {
    let mut d = PasteDetector::new();
    d.on_key(plain('a'));
    let out = d.on_paste("pasted".to_string());
    assert_eq!(out.len(), 1);
    assert!(matches!(&out[0], Event::Paste(t) if t == "pasted"));
    assert!(!d.is_holding());
}

#[test]
fn mouse_flushes_and_resize_does_not() {
    let mut d = PasteDetector::new();
    d.on_key(plain('a'));
    let out = d.on_resize(80, 24);
    assert_eq!(out.len(), 1);
    assert!(matches!(out[0], Event::Resize(80, 24)));
    assert!(d.is_holding());
    let m = MouseEvent {
        kind: MouseEventKind::Down(MouseButton::Left),
        column: 3,
        row: 4,
        modifiers: KeyModifiers::none(),
    };
    let out = d.on_mouse(m);
    assert_eq!(out.len(), 2);
    assert!(matches!(out[1], Event::Mouse(_)));
}
