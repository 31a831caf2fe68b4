use brainwires_cli::app::AppMode;
use brainwires_cli::events::{Event, KeyCode, KeyEvent, KeyModifiers, MouseButton, MouseEvent, MouseEventKind};
use brainwires_cli::key_actions::{question_key, QuestionKey, QuestionView};
use brainwires_cli::main_view::{
    cancel_confirm_key, conversation_fullscreen_key, double_click_target, global_key, input_fullscreen_key,
    is_control, next_focus, normal_view_key, prev_focus, waiting_view_key, CancelKey, ConversationViewStyle,
    EditOp, FocusedPanel, GlobalKey, MainKey, MainView,
};
use brainwires_cli::widgets::Rect;

fn key(code: KeyCode) -> Event {
    Event::Key(KeyEvent::new(code, KeyModifiers::none()))
}

fn with(code: KeyCode, m: KeyModifiers) -> Event {
    Event::Key(KeyEvent::new(code, m))
}

fn mouse(kind: MouseEventKind, column: u16, row: u16) -> Event {
    Event::Mouse(MouseEvent { kind, column, row, modifiers: KeyModifiers::none() })
}

fn view() -> MainView {
    MainView {
        mode: AppMode::Normal,
        focused_panel: FocusedPanel::Input,
        status_bar_visible: true,
        show_autocomplete: false,
        view_style: ConversationViewStyle::Classic,
        multiline_input: false,
        cursor_on_first_line: true,
        cursor_on_last_line: true,
        input_blank: false,
        conversation_area: Rect::new(0, 0, 80, 20),
        input_area: Rect::new(0, 20, 80, 3),
        exit_button: Rect::new(70, 23, 6, 1),
    }
}

#[test]
fn focus_cycles_through_visible_panels() {
    assert_eq!(next_focus(FocusedPanel::Input, true), FocusedPanel::Conversation);
    assert_eq!(next_focus(FocusedPanel::Conversation, true), FocusedPanel::StatusBar);
    assert_eq!(next_focus(FocusedPanel::Conversation, false), FocusedPanel::Input);
    assert_eq!(prev_focus(FocusedPanel::Input, true), FocusedPanel::StatusBar);
    assert_eq!(prev_focus(FocusedPanel::Input, false), FocusedPanel::Conversation);
    for p in [FocusedPanel::Input, FocusedPanel::Conversation, FocusedPanel::StatusBar] {
        assert_eq!(next_focus(prev_focus(p, true), true), p);
    }
}

#[test]
fn normal_screen_keys() {
    let v = view();
    assert_eq!(normal_view_key(&v, &key(KeyCode::Tab)), MainKey::Focus(FocusedPanel::Conversation));
    assert_eq!(normal_view_key(&v, &key(KeyCode::Enter)), MainKey::Submit);
    assert_eq!(normal_view_key(&v, &key(KeyCode::Up)), MainKey::HistoryUp);
    assert_eq!(normal_view_key(&v, &key(KeyCode::Char('a'))), MainKey::Edit(EditOp::InsertChar('a')));
    assert_eq!(normal_view_key(&v, &key(KeyCode::Char('\u{1b}'))), MainKey::Nothing);
    assert_eq!(normal_view_key(&v, &key(KeyCode::F(1))), MainKey::OpenHelp);
    assert_eq!(normal_view_key(&v, &with(KeyCode::Char('r'), KeyModifiers::control())), MainKey::StartReverseSearch);
    assert_eq!(normal_view_key(&v, &with(KeyCode::Enter, KeyModifiers::shift())), MainKey::Edit(EditOp::InsertNewline));
    assert_eq!(normal_view_key(&v, &key(KeyCode::PageUp)), MainKey::ScrollUp(10));
    assert_eq!(normal_view_key(&v, &key(KeyCode::F(9))), MainKey::ToggleViewStyle);
    assert_eq!(normal_view_key(&v, &key(KeyCode::F(10))), MainKey::EnterMode(AppMode::InputFullscreen));
    assert_eq!(normal_view_key(&v, &Event::Paste("x".to_string())), MainKey::Paste);
    let mut blank = view();
    blank.input_blank = true;
    assert_eq!(normal_view_key(&blank, &key(KeyCode::Enter)), MainKey::Nothing);
    let mut ac = view();
    ac.show_autocomplete = true;
    assert_eq!(normal_view_key(&ac, &key(KeyCode::Tab)), MainKey::AcceptAutocomplete);
    assert_eq!(normal_view_key(&ac, &key(KeyCode::Enter)), MainKey::AcceptAndSubmit);
    assert_eq!(normal_view_key(&ac, &key(KeyCode::Down)), MainKey::AutocompleteNext);
    let mut multi = view();
    multi.multiline_input = true;
    multi.cursor_on_first_line = false;
    assert_eq!(normal_view_key(&multi, &key(KeyCode::Up)), MainKey::Edit(EditOp::Up));
    assert_eq!(normal_view_key(&multi, &key(KeyCode::Down)), MainKey::HistoryDown);
    assert_eq!(normal_view_key(&multi, &key(KeyCode::PageDown)), MainKey::Edit(EditOp::PageDown));
}

#[test]
fn normal_screen_focus_dependent_keys() {
    let mut v = view();
    v.focused_panel = FocusedPanel::StatusBar;
    assert_eq!(normal_view_key(&v, &key(KeyCode::Char(' '))), MainKey::OpenExitDialog);
    assert_eq!(normal_view_key(&v, &key(KeyCode::F(10))), MainKey::Nothing);
    v.focused_panel = FocusedPanel::Conversation;
    assert_eq!(normal_view_key(&v, &key(KeyCode::Up)), MainKey::ScrollUp(1));
    v.view_style = ConversationViewStyle::Journal;
    assert_eq!(normal_view_key(&v, &key(KeyCode::Enter)), MainKey::JournalToggle);
    assert_eq!(normal_view_key(&v, &key(KeyCode::Char('j'))), MainKey::JournalDown);
}

#[test]
fn mouse_on_the_main_screen() {
    let v = view();
    assert_eq!(normal_view_key(&v, &mouse(MouseEventKind::ScrollUp, 5, 5)), MainKey::ScrollUp(3));
    assert_eq!(normal_view_key(&v, &mouse(MouseEventKind::ScrollDown, 5, 21)), MainKey::Nothing);
    assert_eq!(normal_view_key(&v, &mouse(MouseEventKind::Down(MouseButton::Left), 71, 23)), MainKey::OpenExitDialog);
    assert_eq!(normal_view_key(&v, &mouse(MouseEventKind::Down(MouseButton::Left), 3, 21)), MainKey::Click(3, 21));
    assert_eq!(double_click_target(&v, 3, 21), Some(AppMode::InputFullscreen));
    assert_eq!(double_click_target(&v, 3, 3), Some(AppMode::ConversationFullscreen));
    assert_eq!(double_click_target(&v, 79, 24), None);
}

#[test]
fn waiting_screen_keys() {
    let v = view();
    assert_eq!(waiting_view_key(&v, &key(KeyCode::Esc)), MainKey::AskCancel);
    assert_eq!(waiting_view_key(&v, &key(KeyCode::Enter)), MainKey::QueueMessage);
    assert_eq!(waiting_view_key(&v, &key(KeyCode::Char('\u{7}'))), MainKey::Edit(EditOp::InsertChar('\u{7}')));
    assert_eq!(waiting_view_key(&v, &key(KeyCode::Tab)), MainKey::Nothing);
    assert_eq!(cancel_confirm_key(&key(KeyCode::Char('Y'))), CancelKey::Cancel);
    assert_eq!(cancel_confirm_key(&key(KeyCode::Esc)), CancelKey::Continue);
    assert_eq!(cancel_confirm_key(&key(KeyCode::Char('x'))), CancelKey::Nothing);
}

#[test]
fn fullscreen_keys() {
    let v = view();
    assert_eq!(conversation_fullscreen_key(&key(KeyCode::Esc)), MainKey::LeaveFullscreen);
    assert_eq!(conversation_fullscreen_key(&key(KeyCode::Char('c'))), MainKey::CopyConversation);
    assert_eq!(conversation_fullscreen_key(&key(KeyCode::Char('m'))), MainKey::ToggleMouseCapture);
    assert_eq!(conversation_fullscreen_key(&mouse(MouseEventKind::ScrollDown, 0, 0)), MainKey::ScrollDown(3));
    assert_eq!(conversation_fullscreen_key(&with(KeyCode::Char('g'), KeyModifiers::control())), MainKey::OpenGitScm);
    assert_eq!(input_fullscreen_key(&v, &key(KeyCode::Esc)), MainKey::EnterMode(AppMode::Normal));
    assert_eq!(input_fullscreen_key(&v, &key(KeyCode::Enter)), MainKey::SubmitFromFullscreen);
    assert_eq!(input_fullscreen_key(&v, &key(KeyCode::Delete)), MainKey::Edit(EditOp::DeleteForward));
    assert_eq!(input_fullscreen_key(&v, &key(KeyCode::Up)), MainKey::Nothing);
    assert_eq!(input_fullscreen_key(&v, &with(KeyCode::Char('h'), KeyModifiers::control())), MainKey::OpenFindReplace);
}

#[test]
fn global_keys() {
    let ctrl = |c: char| with(KeyCode::Char(c), KeyModifiers::control());
    assert_eq!(global_key(AppMode::Normal, &ctrl('c')), GlobalKey::OpenExitDialog);
    assert_eq!(global_key(AppMode::ExitDialog, &ctrl('c')), GlobalKey::Dispatch);
    assert_eq!(global_key(AppMode::Normal, &ctrl('z')), GlobalKey::OpenSuspendDialog);
    assert_eq!(global_key(AppMode::ConsoleView, &ctrl('d')), GlobalKey::LeaveConsoleView);
    assert_eq!(global_key(AppMode::Normal, &ctrl('d')), GlobalKey::OpenConsoleView);
    assert_eq!(global_key(AppMode::PlanMode, &ctrl('p')), GlobalKey::ExitPlanMode);
    assert_eq!(global_key(AppMode::Normal, &Event::Resize(80, 24)), GlobalKey::Resized);
    assert_eq!(global_key(AppMode::Normal, &Event::IpcDisconnected), GlobalKey::SessionLost);
    assert_eq!(global_key(AppMode::Normal, &key(KeyCode::Char('a'))), GlobalKey::Dispatch);
}

#[test]
fn view_style_and_control_chars() {
    assert_eq!(ConversationViewStyle::Journal.toggled(), ConversationViewStyle::Classic);
    assert_eq!(ConversationViewStyle::Classic.switched_note(), "View: Classic");
    assert!(is_control('\u{0}'));
    assert!(is_control('\u{9f}'));
    assert!(!is_control('a'));
    assert!(!is_control('\u{a0}'));
}

#[test]
fn question_view_keys() {
    let v = QuestionView { has_questions: true, editing_other: false, cursor_on_other: false, on_last_question: false };
    assert_eq!(question_key(&v, &key(KeyCode::Esc)), QuestionKey::Decline);
    assert_eq!(question_key(&v, &key(KeyCode::Enter)), QuestionKey::ToggleAndNext);
    assert_eq!(question_key(&v, &key(KeyCode::Tab)), QuestionKey::NextQuestion);
    assert_eq!(question_key(&v, &key(KeyCode::Char('x'))), QuestionKey::Nothing);
    let last = QuestionView { on_last_question: true, ..v };
    assert_eq!(question_key(&last, &key(KeyCode::Enter)), QuestionKey::SubmitAnswers);
    let other = QuestionView { cursor_on_other: true, ..v };
    assert_eq!(question_key(&other, &key(KeyCode::Tab)), QuestionKey::StartOther);
    assert_eq!(question_key(&other, &key(KeyCode::Char('x'))), QuestionKey::TypeIntoOther('x'));
    let editing = QuestionView { editing_other: true, ..v };
    assert_eq!(question_key(&editing, &key(KeyCode::Char(' '))), QuestionKey::OtherChar(' '));
    assert_eq!(question_key(&editing, &key(KeyCode::Tab)), QuestionKey::FinishOtherAndNext);
    assert_eq!(question_key(&editing, &key(KeyCode::Backspace)), QuestionKey::OtherBackspace);
    let none = QuestionView { has_questions: false, ..v };
    assert_eq!(question_key(&none, &key(KeyCode::Enter)), QuestionKey::Leave);
}

use brainwires_cli::app::ExitAction;
use brainwires_cli::key_actions::{exit_dialog_key, ExitFocus, ExitKey};
use brainwires_cli::main_view::plan_mode_key;

#[test]
fn exit_dialog_keys() {
    let f = ExitFocus::ExitButton;
    assert_eq!(exit_dialog_key(f, None, &with(KeyCode::Char('z'), KeyModifiers::control())), ExitKey::ToSuspendDialog);
    assert_eq!(exit_dialog_key(f, None, &key(KeyCode::Enter)), ExitKey::Execute(ExitAction::Exit));
    assert_eq!(exit_dialog_key(ExitFocus::BackgroundButton, None, &key(KeyCode::Enter)), ExitKey::Execute(ExitAction::Background));
    assert_eq!(exit_dialog_key(ExitFocus::PreserveChatCheckbox, None, &key(KeyCode::Enter)), ExitKey::Nothing);
    assert_eq!(exit_dialog_key(ExitFocus::PreserveChatCheckbox, None, &key(KeyCode::Char(' '))), ExitKey::TogglePreserveChat);
    assert_eq!(exit_dialog_key(ExitFocus::ExitWhenDoneCheckbox, None, &key(KeyCode::Char(' '))), ExitKey::ToggleExitWhenDone);
    assert_eq!(exit_dialog_key(f, None, &key(KeyCode::Char('B'))), ExitKey::Execute(ExitAction::Background));
    assert_eq!(exit_dialog_key(f, None, &key(KeyCode::Left)), ExitKey::FocusPrev);
    assert_eq!(exit_dialog_key(f, None, &key(KeyCode::Esc)), ExitKey::Close);
    let click = mouse(MouseEventKind::Down(MouseButton::Left), 1, 1);
    assert_eq!(exit_dialog_key(f, Some(ExitFocus::PreserveChatCheckbox), &click), ExitKey::Click(ExitFocus::PreserveChatCheckbox));
    assert_eq!(exit_dialog_key(f, None, &click), ExitKey::Nothing);
}

#[test]
fn plan_mode_keys() {
    let v = view();
    assert_eq!(plan_mode_key(&v, &key(KeyCode::Esc)), MainKey::ExitPlanMode);
    assert_eq!(plan_mode_key(&v, &key(KeyCode::Enter)), MainKey::Submit);
    assert_eq!(plan_mode_key(&v, &key(KeyCode::Tab)), MainKey::Focus(FocusedPanel::Conversation));
    assert_eq!(plan_mode_key(&v, &key(KeyCode::Up)), MainKey::Nothing);
    assert_eq!(plan_mode_key(&v, &key(KeyCode::PageUp)), MainKey::ScrollUp(10));
    assert_eq!(plan_mode_key(&v, &key(KeyCode::Char('x'))), MainKey::Edit(EditOp::InsertChar('x')));
    let mut c = view();
    c.focused_panel = FocusedPanel::StatusBar;
    assert_eq!(plan_mode_key(&c, &key(KeyCode::Tab)), MainKey::Focus(FocusedPanel::Input));
    c.focused_panel = FocusedPanel::Conversation;
    assert_eq!(plan_mode_key(&c, &key(KeyCode::Down)), MainKey::ScrollDown(1));
    assert_eq!(plan_mode_key(&c, &mouse(MouseEventKind::ScrollUp, 0, 0)), MainKey::Nothing);
}
