use brainwires_cli::events::{
    Event, KeyCode, KeyEvent, KeyModifiers, MouseButton, MouseEvent, MouseEventKind,
};

fn key_event(code: KeyCode, modifiers: KeyModifiers) -> Event {
    Event::Key(KeyEvent::new(code, modifiers))
}

fn mouse(kind: MouseEventKind, column: u16, row: u16) -> Event {
    Event::Mouse(MouseEvent { kind, column, row, modifiers: KeyModifiers::none() })
}

#[test]
fn test_is_quit() {
    assert!(key_event(KeyCode::Char('c'), KeyModifiers::control()).is_quit());
    assert!(!key_event(KeyCode::Char('c'), KeyModifiers::none()).is_quit());
    assert!(!key_event(KeyCode::Char('q'), KeyModifiers::control()).is_quit());
}

#[test]
fn test_is_reverse_search() {
    assert!(key_event(KeyCode::Char('r'), KeyModifiers::control()).is_reverse_search());
    assert!(!key_event(KeyCode::Char('r'), KeyModifiers::none()).is_reverse_search());
}

#[test]
fn test_is_session_picker() {
    assert!(key_event(KeyCode::Char('l'), KeyModifiers::control()).is_session_picker());
    assert!(!key_event(KeyCode::Char('l'), KeyModifiers::none()).is_session_picker());
}

#[test]
fn test_is_enter() {
    assert!(key_event(KeyCode::Enter, KeyModifiers::none()).is_enter());
    assert!(!key_event(KeyCode::Char('a'), KeyModifiers::none()).is_enter());
}

#[test]
fn test_is_backspace() {
    assert!(key_event(KeyCode::Backspace, KeyModifiers::none()).is_backspace());
    assert!(!key_event(KeyCode::Delete, KeyModifiers::none()).is_backspace());
}

#[test]
fn test_is_escape() {
    assert!(key_event(KeyCode::Esc, KeyModifiers::none()).is_escape());
    assert!(!key_event(KeyCode::Char('a'), KeyModifiers::none()).is_escape());
}

#[test]
fn test_is_tab() {
    assert!(key_event(KeyCode::Tab, KeyModifiers::none()).is_tab());
    assert!(!key_event(KeyCode::Char('a'), KeyModifiers::none()).is_tab());
}

#[test]
fn test_is_up_down() {
    assert!(key_event(KeyCode::Up, KeyModifiers::none()).is_up());
    assert!(key_event(KeyCode::Down, KeyModifiers::none()).is_down());
    assert!(!key_event(KeyCode::Left, KeyModifiers::none()).is_up());
}

#[test]
fn test_is_shift_enter() {
    assert!(key_event(KeyCode::Enter, KeyModifiers::shift()).is_shift_enter());
    assert!(!key_event(KeyCode::Enter, KeyModifiers::none()).is_shift_enter());
}

#[test]
fn test_is_console_view() {
    assert!(key_event(KeyCode::Char('d'), KeyModifiers::control()).is_console_view());
    assert!(!key_event(KeyCode::Char('d'), KeyModifiers::none()).is_console_view());
}

#[test]
fn test_is_page_up_down() {
    assert!(key_event(KeyCode::PageUp, KeyModifiers::none()).is_page_up());
    assert!(key_event(KeyCode::PageDown, KeyModifiers::none()).is_page_down());
    assert!(!key_event(KeyCode::PageUp, KeyModifiers::none()).is_page_down());
}

#[test]
fn test_char() {
    assert_eq!(key_event(KeyCode::Char('a'), KeyModifiers::none()).char(), Some('a'));
    assert_eq!(key_event(KeyCode::Char('Z'), KeyModifiers::shift()).char(), Some('Z'));
    assert_eq!(key_event(KeyCode::Char('c'), KeyModifiers::control()).char(), None);
    assert_eq!(key_event(KeyCode::Enter, KeyModifiers::none()).char(), None);
}

#[test]
fn test_is_delete_word_backward() {
    assert!(key_event(KeyCode::Backspace, KeyModifiers::alt()).is_delete_word_backward());
    assert!(key_event(KeyCode::Char('w'), KeyModifiers::control()).is_delete_word_backward());
    assert!(!key_event(KeyCode::Backspace, KeyModifiers::none()).is_delete_word_backward());
}

#[test]
fn test_is_delete_word_forward() {
    assert!(key_event(KeyCode::Delete, KeyModifiers::alt()).is_delete_word_forward());
    assert!(!key_event(KeyCode::Delete, KeyModifiers::none()).is_delete_word_forward());
}

#[test]
fn test_is_delete_to_start() {
    assert!(key_event(KeyCode::Char('u'), KeyModifiers::control()).is_delete_to_start());
    assert!(!key_event(KeyCode::Char('u'), KeyModifiers::none()).is_delete_to_start());
}

#[test]
fn test_is_delete_to_end() {
    assert!(key_event(KeyCode::Char('k'), KeyModifiers::control()).is_delete_to_end());
    assert!(!key_event(KeyCode::Char('k'), KeyModifiers::none()).is_delete_to_end());
}

#[test]
fn test_is_move_to_line_start() {
    assert!(key_event(KeyCode::Char('a'), KeyModifiers::control()).is_move_to_line_start());
    assert!(!key_event(KeyCode::Char('a'), KeyModifiers::none()).is_move_to_line_start());
}

#[test]
fn test_is_move_to_line_end() {
    assert!(key_event(KeyCode::Char('e'), KeyModifiers::control()).is_move_to_line_end());
    assert!(!key_event(KeyCode::Char('e'), KeyModifiers::none()).is_move_to_line_end());
}

#[test]
fn test_is_move_word_backward() {
    assert!(key_event(KeyCode::Left, KeyModifiers::alt()).is_move_word_backward());
    assert!(key_event(KeyCode::Left, KeyModifiers::control()).is_move_word_backward());
    assert!(!key_event(KeyCode::Left, KeyModifiers::none()).is_move_word_backward());
}

#[test]
fn test_is_move_word_forward() {
    assert!(key_event(KeyCode::Right, KeyModifiers::alt()).is_move_word_forward());
    assert!(key_event(KeyCode::Right, KeyModifiers::control()).is_move_word_forward());
    assert!(!key_event(KeyCode::Right, KeyModifiers::none()).is_move_word_forward());
}

#[test]
fn test_mouse_scroll_up() {
    let event = mouse(MouseEventKind::ScrollUp, 10, 20);
    assert_eq!(event.mouse_scroll_up(), Some((10, 20)));
    let event = Event::Tick;
    assert_eq!(event.mouse_scroll_up(), None);
}

#[test]
fn test_mouse_scroll_down() {
    let event = mouse(MouseEventKind::ScrollDown, 15, 25);
    assert_eq!(event.mouse_scroll_down(), Some((15, 25)));
    let event = Event::Tick;
    assert_eq!(event.mouse_scroll_down(), None);
}

#[test]
fn test_mouse_click() {
    let event = mouse(MouseEventKind::Down(MouseButton::Left), 5, 10);
    assert_eq!(event.mouse_click(), Some((5, 10)));
    let event = mouse(MouseEventKind::Down(MouseButton::Right), 5, 10);
    assert_eq!(event.mouse_click(), None);
    let event = mouse(MouseEventKind::Up(MouseButton::Left), 5, 10);
    assert_eq!(event.mouse_click(), None);
    let event = Event::Tick;
    assert_eq!(event.mouse_click(), None);
}

#[test]
fn test_is_file_explorer() {
    let ctrl_alt = KeyModifiers::control().union(KeyModifiers::alt());
    assert!(key_event(KeyCode::Char('f'), ctrl_alt).is_file_explorer());
    assert!(!key_event(KeyCode::Char('f'), KeyModifiers::control()).is_file_explorer());
    assert!(!key_event(KeyCode::Char('f'), KeyModifiers::alt()).is_file_explorer());
    assert!(!key_event(KeyCode::Char('f'), KeyModifiers::none()).is_file_explorer());
}

#[test]
fn test_is_save() {
    assert!(key_event(KeyCode::Char('s'), KeyModifiers::control()).is_save());
    assert!(!key_event(KeyCode::Char('s'), KeyModifiers::none()).is_save());
}

#[test]
fn test_is_ctrl_x() {
    assert!(key_event(KeyCode::Char('x'), KeyModifiers::control()).is_ctrl_x());
    assert!(!key_event(KeyCode::Char('x'), KeyModifiers::none()).is_ctrl_x());
}

#[test]
fn test_is_ctrl_o() {
    assert!(key_event(KeyCode::Char('o'), KeyModifiers::control()).is_ctrl_o());
    assert!(!key_event(KeyCode::Char('o'), KeyModifiers::none()).is_ctrl_o());
}

#[test]
fn test_is_git_scm() {
    assert!(key_event(KeyCode::Char('g'), KeyModifiers::control()).is_git_scm());
    assert!(!key_event(KeyCode::Char('g'), KeyModifiers::none()).is_git_scm());
}

#[test]
fn test_is_help() {
    assert!(key_event(KeyCode::F(1), KeyModifiers::none()).is_help());
    assert!(!key_event(KeyCode::Char('?'), KeyModifiers::none()).is_help());
    assert!(!key_event(KeyCode::Char('h'), KeyModifiers::none()).is_help());
    assert!(!key_event(KeyCode::F(2), KeyModifiers::none()).is_help());
}

#[test]
fn non_key_events_match_no_shortcut() {
    let e = Event::Resize(80, 24);
    assert!(!e.is_quit());
    assert!(!e.is_enter());
    assert_eq!(e.char(), None);
    let p = Event::Paste("ctrl".to_string());
    assert!(!p.is_escape());
    assert_eq!(p.mouse_click(), None);
}

#[test]
fn modifiers_union_and_contains() {
    let m = KeyModifiers::control().union(KeyModifiers::shift());
    assert!(m.contains(KeyModifiers::control()));
    assert!(m.contains(KeyModifiers::shift()));
    assert!(!m.contains(KeyModifiers::alt()));
    assert_eq!(m.bits, 3);
}
