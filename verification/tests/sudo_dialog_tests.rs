use brainwires_cli::events::{Event, KeyCode, KeyEvent, KeyModifiers};
use brainwires_cli::sudo_dialog::{sudo_key, PendingSudoRequest, SudoDialogState, SudoKey};

fn key(c: KeyCode) -> Event {
    Event::Key(KeyEvent::new(c, KeyModifiers::none()))
}

fn request(id: &str) -> PendingSudoRequest {
    PendingSudoRequest { id: id.to_string(), command: "sudo apt update".to_string() }
}

fn typed(state: &mut SudoDialogState, text: &str) {
    for c in text.chars() {
        state.insert_char(c);
    }
}

#[test]
fn sudo_dialog_starts_empty() {
    let state = SudoDialogState::new();
    assert!(state.current_request.is_none());
    assert_eq!(state.password_len(), 0);
    assert_eq!(state.cursor_pos, 0);
}

#[test]
fn submit_hands_out_id_and_password_once() {
    let mut state = SudoDialogState::new();
    state.set_request(request("req-1"));
    typed(&mut state, "abc");
    assert_eq!(state.password_len(), 3);
    assert_eq!(state.cursor_pos, 3);
    assert_eq!(state.submit(), Some(("req-1".to_string(), "abc".to_string())));
    assert!(state.current_request.is_none());
    assert_eq!(state.password_len(), 0);
    assert_eq!(state.cursor_pos, 0);
    assert_eq!(state.submit(), None);
}

#[test]
fn submit_needs_a_password_and_a_request() {
    let mut state = SudoDialogState::new();
    state.set_request(request("req-2"));
    assert_eq!(state.submit(), None);
    assert!(state.current_request.is_some());

    let mut alone = SudoDialogState::new();
    typed(&mut alone, "pw");
    assert_eq!(alone.submit(), None);
    assert_eq!(alone.password_len(), 2);
}

#[test]
fn new_request_clears_the_password() {
    let mut state = SudoDialogState::new();
    state.set_request(request("a"));
    typed(&mut state, "secret");
    state.set_request(request("b"));
    assert_eq!(state.password_len(), 0);
    assert_eq!(state.cursor_pos, 0);
    assert_eq!(state.current_request.as_ref().map(|r| r.id.clone()), Some("b".to_string()));
}

#[test]
fn insert_and_delete_at_the_cursor() {
    let mut state = SudoDialogState::new();
    state.set_request(request("r"));
    typed(&mut state, "abc");
    state.cursor_pos = 1;
    state.insert_char('X');
    assert_eq!(state.cursor_pos, 2);
    state.cursor_pos = 4;
    state.delete_char();
    assert_eq!(state.cursor_pos, 3);
    assert_eq!(state.submit(), Some(("r".to_string(), "aXb".to_string())));
}

#[test]
fn delete_at_the_start_does_nothing() {
    let mut state = SudoDialogState::new();
    typed(&mut state, "ab");
    state.cursor_pos = 0;
    state.delete_char();
    assert_eq!(state.cursor_pos, 0);
    assert_eq!(state.password_len(), 2);
}

#[test]
fn length_counts_bytes() {
    let mut state = SudoDialogState::new();
    state.insert_char('é');
    assert_eq!(state.password_len(), 2);
    assert_eq!(state.cursor_pos, 1);
    assert!(!state.is_boundary(1));
    assert!(state.is_boundary(0));
    assert!(state.is_boundary(2));
}

#[test]
fn deleting_what_was_typed_restores_the_password() {
    let mut state = SudoDialogState::new();
    state.set_request(request("r"));
    typed(&mut state, "pq");
    state.cursor_pos = 1;
    state.insert_char('ü');
    state.delete_char();
    assert_eq!(state.cursor_pos, 1);
    assert_eq!(state.submit(), Some(("r".to_string(), "pq".to_string())));
}

#[test]
fn cancel_drops_request_and_password() {
    let mut state = SudoDialogState::new();
    assert_eq!(state.cancel(), None);
    state.set_request(request("req-9"));
    typed(&mut state, "xyz");
    assert_eq!(state.cancel(), Some("req-9".to_string()));
    assert!(state.current_request.is_none());
    assert_eq!(state.password_len(), 0);
    assert_eq!(state.cursor_pos, 0);
}

#[test]
fn sudo_keys() {
    assert_eq!(sudo_key(0, &key(KeyCode::Esc)), SudoKey::Cancel);
    assert_eq!(sudo_key(3, &key(KeyCode::Esc)), SudoKey::Cancel);
    assert_eq!(sudo_key(0, &key(KeyCode::Enter)), SudoKey::Nothing);
    assert_eq!(sudo_key(3, &key(KeyCode::Enter)), SudoKey::Submit);
    assert_eq!(sudo_key(0, &key(KeyCode::Char('k'))), SudoKey::Insert('k'));
    assert_eq!(sudo_key(2, &key(KeyCode::Backspace)), SudoKey::DeleteBackward);
    assert_eq!(sudo_key(2, &key(KeyCode::Tab)), SudoKey::Nothing);
    assert_eq!(sudo_key(2, &Event::Resize(10, 10)), SudoKey::Nothing);
}
