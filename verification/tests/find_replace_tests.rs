use brainwires_cli::app::{AppMode, TuiMessage};
use brainwires_cli::events::{Event, KeyCode, KeyEvent, KeyModifiers, MouseButton, MouseEvent, MouseEventKind};
use brainwires_cli::find_replace_keys::{
    find_replace_key, searched_text, DialogFocus, FindReplaceAction, FindReplaceContext, FindReplaceView,
};

fn key(code: KeyCode, m: KeyModifiers) -> Event {
    Event::Key(KeyEvent::new(code, m))
}

fn view(focus: DialogFocus) -> FindReplaceView {
    FindReplaceView { focus, context: FindReplaceContext::InputView, clicked: None }
}

fn click() -> Event {
    Event::Mouse(MouseEvent { kind: MouseEventKind::Down(MouseButton::Left), column: 1, row: 1, modifiers: KeyModifiers::none() })
}

#[test]
fn escape_goes_back_to_the_view() {
    let s = find_replace_key(&view(DialogFocus::FindInput), &key(KeyCode::Esc, KeyModifiers::none()));
    assert_eq!(s.action, FindReplaceAction::Close(AppMode::InputFullscreen));
    let conv = FindReplaceView { context: FindReplaceContext::ConversationView, ..view(DialogFocus::FindInput) };
    let s = find_replace_key(&conv, &key(KeyCode::Esc, KeyModifiers::none()));
    assert_eq!(s.action, FindReplaceAction::Close(AppMode::ConversationFullscreen));
}

#[test]
fn enter_activates_the_focus() {
    let s = find_replace_key(&view(DialogFocus::FindInput), &key(KeyCode::Enter, KeyModifiers::none()));
    assert_eq!(s.action, FindReplaceAction::NextMatch);
    let s = find_replace_key(&view(DialogFocus::ReplaceInput), &key(KeyCode::Enter, KeyModifiers::none()));
    assert_eq!(s.action, FindReplaceAction::Replace);
    let s = find_replace_key(&view(DialogFocus::CaseCheckbox), &key(KeyCode::Enter, KeyModifiers::none()));
    assert_eq!((s.action, s.rematch), (FindReplaceAction::ToggleCase, true));
    let s = find_replace_key(&view(DialogFocus::ReplaceAllButton), &key(KeyCode::Enter, KeyModifiers::none()));
    assert_eq!(s.action, FindReplaceAction::ReplaceAll);
}

#[test]
fn typing_and_space() {
    let s = find_replace_key(&view(DialogFocus::FindInput), &key(KeyCode::Char('x'), KeyModifiers::none()));
    assert_eq!((s.action, s.rematch), (FindReplaceAction::InsertChar('x'), true));
    let s = find_replace_key(&view(DialogFocus::ReplaceInput), &key(KeyCode::Char(' '), KeyModifiers::none()));
    assert_eq!((s.action, s.rematch), (FindReplaceAction::InsertChar(' '), false));
    let s = find_replace_key(&view(DialogFocus::RegexCheckbox), &key(KeyCode::Char(' '), KeyModifiers::none()));
    assert_eq!((s.action, s.rematch), (FindReplaceAction::ToggleRegex, true));
    let s = find_replace_key(&view(DialogFocus::FindInput), &key(KeyCode::Char('x'), KeyModifiers::control()));
    assert_eq!(s.action, FindReplaceAction::FocusOnly);
    let s = find_replace_key(&view(DialogFocus::NextButton), &key(KeyCode::Char('x'), KeyModifiers::none()));
    assert_eq!(s.action, FindReplaceAction::FocusOnly);
    let s = find_replace_key(&view(DialogFocus::FindInput), &key(KeyCode::Backspace, KeyModifiers::none()));
    assert_eq!((s.action, s.rematch), (FindReplaceAction::DeleteChar, true));
    let s = find_replace_key(&view(DialogFocus::FindInput), &key(KeyCode::Tab, KeyModifiers::none()));
    assert_eq!(s.action, FindReplaceAction::FocusNext);
    let s = find_replace_key(&view(DialogFocus::FindInput), &key(KeyCode::BackTab, KeyModifiers::shift()));
    assert_eq!(s.action, FindReplaceAction::FocusPrev);
}

#[test]
fn clicks_focus_and_press() {
    let v = FindReplaceView { clicked: Some(DialogFocus::ReplaceButton), ..view(DialogFocus::FindInput) };
    let s = find_replace_key(&v, &click());
    assert_eq!((s.focus, s.action), (Some(DialogFocus::ReplaceButton), FindReplaceAction::Replace));
    let v = FindReplaceView { clicked: Some(DialogFocus::ReplaceInput), ..view(DialogFocus::FindInput) };
    let s = find_replace_key(&v, &click());
    assert_eq!((s.focus, s.action), (Some(DialogFocus::ReplaceInput), FindReplaceAction::FocusOnly));
    let s = find_replace_key(&view(DialogFocus::FindInput), &click());
    assert_eq!((s.focus, s.action), (None, FindReplaceAction::FocusOnly));
}

#[test]
fn text_searched() {
    let msgs = vec![
        TuiMessage { role: "user".to_string(), content: "one".to_string(), created_at: 0 },
        TuiMessage { role: "assistant".to_string(), content: "two".to_string(), created_at: 0 },
    ];
    assert_eq!(searched_text(FindReplaceContext::ConversationView, "typed", &msgs), "one\n\ntwo");
    assert_eq!(searched_text(FindReplaceContext::InputView, "typed", &msgs), "typed");
}
