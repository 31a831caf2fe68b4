use brainwires_cli::app::{TaskViewerState, TuiMessage};
use brainwires_cli::viewers::{status_request, toggle_target, toggled_status, StatusRequest, TaskStatus};
use brainwires_cli::events::{Event, KeyCode, KeyEvent, KeyModifiers, MouseEvent, MouseEventKind};
use brainwires_cli::key_actions::GitKey;
use brainwires_cli::viewers::{
    console_copy_toast, console_key, conversation_clipboard_text, conversation_copy_toast, git_toast,
    git_unavailable_toast, hotkey_selected_toast, mouse_toggle_toast, picker_key, search_key, shell_viewer_key, ClipboardOutcome,
    ConsoleKey, PickerKey, SearchKey, ShellViewer, ShellViewerKey,
};

fn key(code: KeyCode) -> Event {
    Event::Key(KeyEvent::new(code, KeyModifiers::none()))
}

fn wheel(kind: MouseEventKind) -> Event {
    Event::Mouse(MouseEvent { kind, column: 1, row: 1, modifiers: KeyModifiers::none() })
}

fn msg(role: &str, content: &str) -> TuiMessage {
    TuiMessage { role: role.to_string(), content: content.to_string(), created_at: 0 }
}

#[test]
fn mouse_toggle_notices() {
    let off = mouse_toggle_toast(true);
    assert_eq!(off.message, "Mouse disabled - select text with terminal");
    assert_eq!(off.duration_ms, 2000);
    let on = mouse_toggle_toast(false);
    assert_eq!(on.message, "Mouse enabled");
    assert_eq!(on.duration_ms, 1500);
}

#[test]
fn copy_notices() {
    let t = console_copy_toast(&ClipboardOutcome::Success, 12);
    assert_eq!((t.message.as_str(), t.duration_ms), ("Copied 12 lines to clipboard", 2000));
    let t = conversation_copy_toast(&ClipboardOutcome::Success, 3);
    assert_eq!(t.message, "Copied 3 messages to clipboard");
    let t = conversation_copy_toast(&ClipboardOutcome::Error("busy".to_string()), 3);
    assert_eq!((t.message.as_str(), t.duration_ms), ("Failed to copy: busy", 3000));
    let t = console_copy_toast(&ClipboardOutcome::NotAvailable, 1);
    assert_eq!((t.message.as_str(), t.duration_ms), ("Clipboard not available", 3000));
}

#[test]
fn conversation_text_for_the_clipboard() {
    let text = conversation_clipboard_text(&[msg("user", "hi"), msg("assistant", "hello")]);
    assert_eq!(text, "[USER] hi\n\n[ASSISTANT] hello");
    assert_eq!(conversation_clipboard_text(&[]), "");
}

#[test]
fn git_notices() {
    let ok: Result<(), String> = Ok(());
    let err: Result<(), String> = Err("no remote".to_string());
    assert_eq!(git_toast(&GitKey::Push, &ok).unwrap().message, "Pushed to remote");
    let t = git_toast(&GitKey::Push, &err).unwrap();
    assert_eq!((t.message.as_str(), t.duration_ms), ("Push failed: no remote", 3000));
    let t = git_toast(&GitKey::Stage(vec!["a".to_string(), "b".to_string()]), &ok).unwrap();
    assert_eq!((t.message.as_str(), t.duration_ms), ("Staged 2 file(s)", 1500));
    assert_eq!(git_toast(&GitKey::Unstage(vec!["a".to_string()]), &ok).unwrap().message, "Unstaged 1 file(s)");
    assert_eq!(git_toast(&GitKey::Commit, &ok).unwrap().message, "Changes committed");
    assert_eq!(git_toast(&GitKey::Confirm, &err).unwrap().message, "Action failed: no remote");
    assert_eq!(git_toast(&GitKey::NothingStaged, &ok).unwrap().message, "No files staged for commit");
    assert_eq!(git_toast(&GitKey::Fetch, &ok).unwrap().message, "Fetched from remote");
    assert_eq!(git_toast(&GitKey::Pull, &ok).unwrap().message, "Pulled from remote");
    assert!(git_toast(&GitKey::Refresh, &ok).is_none());
    assert_eq!(git_toast(&GitKey::Refresh, &err).unwrap().message, "Refresh failed: no remote");
    assert!(git_toast(&GitKey::Up, &ok).is_none());
    assert_eq!(git_unavailable_toast("not a repo").message, "Git not available: not a repo");
}

#[test]
fn console_keys() {
    assert_eq!(console_key(&wheel(MouseEventKind::ScrollUp)), ConsoleKey::ScrollUp(3));
    assert_eq!(console_key(&wheel(MouseEventKind::ScrollDown)), ConsoleKey::ScrollDown(3));
    assert_eq!(console_key(&key(KeyCode::Esc)), ConsoleKey::Close);
    assert_eq!(console_key(&key(KeyCode::Char('c'))), ConsoleKey::Copy);
    assert_eq!(console_key(&key(KeyCode::Char('m'))), ConsoleKey::ToggleMouse);
    assert_eq!(console_key(&key(KeyCode::PageUp)), ConsoleKey::ScrollUp(10));
    assert_eq!(console_key(&key(KeyCode::PageDown)), ConsoleKey::ScrollDown(10));
    assert_eq!(console_key(&key(KeyCode::Char('x'))), ConsoleKey::Nothing);
}

#[test]
fn shell_viewer_keys() {
    let v = ShellViewer { selected: 1, scroll: 5 };
    assert_eq!(shell_viewer_key(v, 3, &wheel(MouseEventKind::ScrollUp)), ShellViewerKey::Show(ShellViewer { selected: 1, scroll: 2 }));
    assert_eq!(shell_viewer_key(v, 3, &key(KeyCode::PageUp)), ShellViewerKey::Show(ShellViewer { selected: 1, scroll: 0 }));
    assert_eq!(shell_viewer_key(v, 3, &key(KeyCode::PageDown)), ShellViewerKey::Show(ShellViewer { selected: 1, scroll: 15 }));
    assert_eq!(shell_viewer_key(v, 3, &key(KeyCode::Up)), ShellViewerKey::Show(ShellViewer { selected: 0, scroll: 0 }));
    assert_eq!(shell_viewer_key(v, 3, &key(KeyCode::Down)), ShellViewerKey::Show(ShellViewer { selected: 2, scroll: 0 }));
    let last = ShellViewer { selected: 2, scroll: 0 };
    assert_eq!(shell_viewer_key(last, 3, &key(KeyCode::Down)), ShellViewerKey::Show(ShellViewer { selected: 2, scroll: 0 }));
    assert_eq!(shell_viewer_key(last, 0, &key(KeyCode::Down)), ShellViewerKey::Nothing);
    assert_eq!(shell_viewer_key(v, 3, &key(KeyCode::Esc)), ShellViewerKey::Close);
    let top = ShellViewer { selected: 0, scroll: u16::MAX - 1 };
    assert_eq!(shell_viewer_key(top, 1, &key(KeyCode::PageDown)), ShellViewerKey::Show(ShellViewer { selected: 0, scroll: u16::MAX }));
}

#[test]
fn history_search_keys() {
    assert_eq!(search_key(0, 3, &key(KeyCode::Up)), SearchKey::Select(1));
    assert_eq!(search_key(2, 3, &key(KeyCode::Up)), SearchKey::Nothing);
    assert_eq!(search_key(0, 0, &key(KeyCode::Up)), SearchKey::Nothing);
    assert_eq!(search_key(2, 3, &key(KeyCode::Down)), SearchKey::Select(1));
    assert_eq!(search_key(0, 3, &key(KeyCode::Down)), SearchKey::Nothing);
    assert_eq!(search_key(0, 3, &key(KeyCode::Esc)), SearchKey::Cancel);
    assert_eq!(search_key(0, 3, &key(KeyCode::Enter)), SearchKey::Accept);
    assert_eq!(search_key(0, 3, &key(KeyCode::Backspace)), SearchKey::DeleteChar);
    assert_eq!(search_key(0, 3, &key(KeyCode::Char('g'))), SearchKey::TypeChar('g'));
    let ctrl_g = Event::Key(KeyEvent::new(KeyCode::Char('g'), KeyModifiers::control()));
    assert_eq!(search_key(0, 3, &ctrl_g), SearchKey::Nothing);
}

#[test]
fn session_picker_keys() {
    assert_eq!(picker_key(0, 0, 5, &key(KeyCode::Esc)), PickerKey::Cancel);
    assert_eq!(picker_key(0, 0, 5, &key(KeyCode::Up)), PickerKey::Nothing);
    assert_eq!(picker_key(0, 0, 5, &key(KeyCode::Down)), PickerKey::Move { selected: 1, scroll: 0 });
    assert_eq!(picker_key(4, 0, 5, &key(KeyCode::Down)), PickerKey::Nothing);
    // row of session 9 is 20: 20 + 1 >= 0 + 20, so the list scrolls to 20 - 17
    assert_eq!(picker_key(8, 0, 12, &key(KeyCode::Down)), PickerKey::Move { selected: 9, scroll: 3 });
    // moving up above the scroll brings the row back into view
    assert_eq!(picker_key(3, 10, 12, &key(KeyCode::Up)), PickerKey::Move { selected: 2, scroll: 6 });
    assert_eq!(picker_key(3, 2, 12, &key(KeyCode::Up)), PickerKey::Move { selected: 2, scroll: 2 });
    assert_eq!(picker_key(2, 0, 5, &key(KeyCode::Enter)), PickerKey::Load(Some(2)));
    assert_eq!(picker_key(0, 0, 0, &key(KeyCode::Enter)), PickerKey::Load(None));
}

#[test]
fn picked_hotkey_notice() {
    let t = hotkey_selected_toast("Ctrl+C", "Quit", "Global");
    assert_eq!((t.message.as_str(), t.duration_ms), ("Ctrl+C: Quit [Global]", 3000));
}

#[test]
fn task_status_toggle() {
    assert_eq!(toggled_status(TaskStatus::Pending), TaskStatus::InProgress);
    assert_eq!(toggled_status(TaskStatus::InProgress), TaskStatus::Completed);
    assert_eq!(toggled_status(TaskStatus::Failed), TaskStatus::Pending);
    assert_eq!(toggled_status(TaskStatus::Skipped), TaskStatus::Pending);
    assert_eq!(status_request(TaskStatus::Pending), StatusRequest::Start);
    assert_eq!(status_request(TaskStatus::InProgress), StatusRequest::Complete("Manually completed".to_string()));
    assert_eq!(status_request(TaskStatus::Blocked), StatusRequest::Nothing);
    let state = TaskViewerState {
        selected_index: 1,
        scroll: 0,
        visible_tasks: vec!["t1".to_string(), "t2".to_string()],
        collapsed: Vec::new(),
    };
    assert_eq!(toggle_target(&state).as_deref(), Some("t2"));
    let none = TaskViewerState { selected_index: 2, ..state };
    assert_eq!(toggle_target(&none), None);
}
