//! The main screen: what a key or mouse event does in each of the
//! application's main modes (normal, waiting for the model, the two
//! fullscreen views), and the keys that act in every mode.
//!
//! Each function maps the screen's state, as plain values, and an event to
//! the action to take; the caller carries the action out on the text
//! input, the conversation view and the agent.
use vstd::prelude::*;
use crate::app::AppMode;
use crate::events::{
    is_backspace_spec, is_console_view_spec, is_copy_spec, is_delete_to_end_spec,
    is_delete_to_start_spec, is_delete_word_backward_spec, is_delete_word_forward_spec,
    is_down_spec, is_enter_spec, is_escape_spec, is_file_explorer_spec, is_find_spec,
    is_fullscreen_toggle_spec, is_git_scm_spec, is_help_spec, is_journal_collapse_spec,
    is_journal_cursor_down_spec, is_journal_cursor_up_spec, is_journal_expand_spec,
    is_move_to_document_end_spec, is_move_to_document_start_spec, is_move_to_line_end_spec,
    is_move_to_line_start_spec, is_move_word_backward_spec, is_move_word_forward_spec,
    is_page_down_spec, is_page_up_spec, is_plan_mode_toggle_spec, is_quit_spec, is_replace_spec,
    is_reverse_search_spec, is_session_picker_spec, is_shift_enter_spec, is_shift_tab_spec,
    is_sub_agent_viewer_spec, is_suspend_spec, is_tab_spec, is_task_viewer_spec,
    is_toggle_mouse_spec, is_up_spec, is_view_style_toggle_spec, Event, KeyCode, KeyEvent,
    MouseButton, MouseEventKind,
};
use crate::widgets::Rect;

verus! {

// ---------------------------------------------------------------------------
// Focus and view style
// ---------------------------------------------------------------------------

/// The panel that has the keyboard focus on the main screen.
#[derive(Debug, Clone, Copy, PartialEq, Eq, Structural)]
pub enum FocusedPanel {
    Input,
    Conversation,
    StatusBar,
}

/// How the conversation is drawn.
#[derive(Debug, Clone, Copy, PartialEq, Eq, Structural)]
pub enum ConversationViewStyle {
    /// A tree of turns that can be collapsed
    Journal,
    /// Plain messages
    Classic,
}

/// Tab: input, conversation, status bar (skipped when hidden), input.
pub open spec fn next_focus_spec(p: FocusedPanel, status_bar_visible: bool) -> FocusedPanel {
    match p {
        FocusedPanel::Input => FocusedPanel::Conversation,
        FocusedPanel::Conversation => if status_bar_visible {
            FocusedPanel::StatusBar
        } else {
            FocusedPanel::Input
        },
        FocusedPanel::StatusBar => FocusedPanel::Input,
    }
}

/// Shift+Tab: the reverse cycle.
pub open spec fn prev_focus_spec(p: FocusedPanel, status_bar_visible: bool) -> FocusedPanel {
    match p {
        FocusedPanel::Input => if status_bar_visible {
            FocusedPanel::StatusBar
        } else {
            FocusedPanel::Conversation
        },
        FocusedPanel::Conversation => FocusedPanel::Input,
        FocusedPanel::StatusBar => FocusedPanel::Conversation,
    }
}

/// The panel Tab moves the focus to.
pub fn next_focus(p: FocusedPanel, status_bar_visible: bool) -> (r: FocusedPanel)
    ensures
        r == next_focus_spec(p, status_bar_visible),
{
    match p {
        FocusedPanel::Input => FocusedPanel::Conversation,
        FocusedPanel::Conversation => if status_bar_visible {
            FocusedPanel::StatusBar
        } else {
            FocusedPanel::Input
        },
        FocusedPanel::StatusBar => FocusedPanel::Input,
    }
}

/// The panel Shift+Tab moves the focus to.
pub fn prev_focus(p: FocusedPanel, status_bar_visible: bool) -> (r: FocusedPanel)
    ensures
        r == prev_focus_spec(p, status_bar_visible),
{
    match p {
        FocusedPanel::Input => if status_bar_visible {
            FocusedPanel::StatusBar
        } else {
            FocusedPanel::Conversation
        },
        FocusedPanel::Conversation => FocusedPanel::Input,
        FocusedPanel::StatusBar => FocusedPanel::Conversation,
    }
}

/// Tab and Shift+Tab undo each other on every panel the focus can be on:
/// any panel while the status bar is shown, the other two while it is
/// hidden. Three steps either way come back to the start.
pub proof fn lemma_focus_round_trip(p: FocusedPanel, status_bar_visible: bool)
    requires
        status_bar_visible || p != FocusedPanel::StatusBar,
    ensures
        next_focus_spec(prev_focus_spec(p, status_bar_visible), status_bar_visible) == p,
        prev_focus_spec(next_focus_spec(p, status_bar_visible), status_bar_visible) == p,
        status_bar_visible ==> next_focus_spec(
            next_focus_spec(next_focus_spec(p, status_bar_visible), status_bar_visible),
            status_bar_visible,
        ) == p,
        !status_bar_visible ==> next_focus_spec(next_focus_spec(p, status_bar_visible), status_bar_visible)
            == p,
        !status_bar_visible ==> next_focus_spec(p, status_bar_visible) != FocusedPanel::StatusBar
            && prev_focus_spec(p, status_bar_visible) != FocusedPanel::StatusBar,
{
}

impl ConversationViewStyle {
    pub open spec fn toggled_spec(self) -> ConversationViewStyle {
        match self {
            ConversationViewStyle::Journal => ConversationViewStyle::Classic,
            ConversationViewStyle::Classic => ConversationViewStyle::Journal,
        }
    }

    pub open spec fn name_spec(self) -> Seq<char> {
        match self {
            ConversationViewStyle::Journal => "Journal"@,
            ConversationViewStyle::Classic => "Classic"@,
        }
    }

    /// The other style (F9).
    pub fn toggled(self) -> (r: ConversationViewStyle)
        ensures
            r == self.toggled_spec(),
    {
        match self {
            ConversationViewStyle::Journal => ConversationViewStyle::Classic,
            ConversationViewStyle::Classic => ConversationViewStyle::Journal,
        }
    }

    /// The style's name as shown to the user.
    pub fn name(self) -> (r: &'static str)
        ensures
            r@ == self.name_spec(),
    {
        match self {
            ConversationViewStyle::Journal => "Journal",
            ConversationViewStyle::Classic => "Classic",
        }
    }

    /// The note shown after switching to this style: `View: ` and its name.
    pub fn switched_note(self) -> (r: String)
        ensures
            r@ == "View: "@ + self.name_spec(),
    {
        let mut s = "View: ".to_string();
        crate::text::push_str(&mut s, self.name());
        s
    }
}

/// Whether a character is a control character (Unicode category Cc:
/// U+0000 to U+001F and U+007F to U+009F).
pub open spec fn is_control_spec(c: char) -> bool {
    (c as u32) < 0x20 || (0x7f <= (c as u32) && (c as u32) <= 0x9f)
}

/// Whether a character is a control character.
pub fn is_control(c: char) -> (r: bool)
    ensures
        r == is_control_spec(c),
{
    let u = c as u32;
    u < 0x20 || (0x7f <= u && u <= 0x9f)
}

// ---------------------------------------------------------------------------
// Actions
// ---------------------------------------------------------------------------

/// An edit of the text input.
#[derive(Debug, Clone, Copy, PartialEq, Eq, Structural)]
pub enum EditOp {
    InsertNewline,
    InsertChar(char),
    DeleteBackward,
    DeleteForward,
    DeleteWordBackward,
    DeleteWordForward,
    DeleteToLineStart,
    DeleteToLineEnd,
    Left,
    Right,
    Up,
    Down,
    PageUp,
    PageDown,
    LineStart,
    LineEnd,
    DocumentStart,
    DocumentEnd,
    WordLeft,
    WordRight,
}

/// What an event does on the main screen.
#[derive(Debug, Clone, Copy, PartialEq, Eq, Structural)]
pub enum MainKey {
    /// Insert the pasted text
    Paste,
    /// Scroll the conversation up by this many rows
    ScrollUp(u16),
    /// Scroll the conversation down by this many rows
    ScrollDown(u16),
    OpenExitDialog,
    /// A left click at this cell that opened nothing: when it completes a
    /// double click, it toggles the fullscreen view under it
    Click(u16, u16),
    OpenSubAgentViewer,
    StartReverseSearch,
    OpenSessionPicker,
    OpenTaskViewer,
    OpenHelp,
    /// Move the keyboard focus to this panel
    Focus(FocusedPanel),
    /// Switch to this mode
    EnterMode(AppMode),
    ToggleViewStyle,
    JournalDown,
    JournalUp,
    JournalExpand,
    JournalCollapse,
    /// Collapse or expand the turn under the journal cursor (or put the
    /// cursor on the first turn)
    JournalToggle,
    /// Accept the autocomplete suggestion, then submit unless the input is
    /// blank
    AcceptAndSubmit,
    Submit,
    /// Accept the autocomplete suggestion, with a space after it
    AcceptAutocomplete,
    AutocompletePrev,
    AutocompleteNext,
    HistoryUp,
    HistoryDown,
    Edit(EditOp),
    /// Ask whether to cancel the running request
    AskCancel,
    /// Queue the input to be sent when the agent is done
    QueueMessage,
    OpenFileExplorer,
    OpenFind,
    OpenFindReplace,
    OpenGitScm,
    CopyConversation,
    ToggleMouseCapture,
    /// Leave the conversation fullscreen view, with mouse capture back on
    LeaveFullscreen,
    /// Leave the input fullscreen view and submit
    SubmitFromFullscreen,
    /// Leave plan mode
    ExitPlanMode,
    Nothing,
}

/// The state of the main screen that events depend on.
#[derive(Debug, Clone, Copy, PartialEq, Eq, Structural)]
pub struct MainView {
    pub mode: AppMode,
    pub focused_panel: FocusedPanel,
    pub status_bar_visible: bool,
    /// Whether autocomplete suggestions are shown
    pub show_autocomplete: bool,
    pub view_style: ConversationViewStyle,
    /// Whether the input holds more than one line
    pub multiline_input: bool,
    pub cursor_on_first_line: bool,
    pub cursor_on_last_line: bool,
    /// Whether the input is empty or white space only
    pub input_blank: bool,
    /// Where the conversation, the input and the exit button were drawn
    pub conversation_area: Rect,
    pub input_area: Rect,
    pub exit_button: Rect,
}

/// The mode a double click at `(col, row)` switches to: the fullscreen
/// view of the panel under it.
pub open spec fn double_click_target_spec(v: MainView, col: u16, row: u16) -> Option<AppMode> {
    if v.conversation_area.contains_spec(col as int, row as int) {
        Some(AppMode::ConversationFullscreen)
    } else if v.input_area.contains_spec(col as int, row as int) {
        Some(AppMode::InputFullscreen)
    } else {
        None
    }
}

/// The mode a double click at `(col, row)` switches to, if any.
pub fn double_click_target(v: &MainView, col: u16, row: u16) -> (r: Option<AppMode>)
    ensures
        r == double_click_target_spec(*v, col, row),
{
    if v.conversation_area.contains(col, row) {
        Some(AppMode::ConversationFullscreen)
    } else if v.input_area.contains(col, row) {
        Some(AppMode::InputFullscreen)
    } else {
        None
    }
}

/// The mouse on the normal and waiting screens: the wheel scrolls by three
/// rows over the conversation; a left click on the exit button opens the
/// exit dialog, elsewhere it is a click.
pub open spec fn main_mouse_spec(v: MainView, e: Event) -> MainKey {
    match e {
        Event::Mouse(m) => if m.kind == MouseEventKind::ScrollUp {
            if v.conversation_area.contains_spec(m.column as int, m.row as int) {
                MainKey::ScrollUp(3)
            } else {
                MainKey::Nothing
            }
        } else if m.kind == MouseEventKind::ScrollDown {
            if v.conversation_area.contains_spec(m.column as int, m.row as int) {
                MainKey::ScrollDown(3)
            } else {
                MainKey::Nothing
            }
        } else if m.kind == MouseEventKind::Down(MouseButton::Left) {
            if v.exit_button.contains_spec(m.column as int, m.row as int) {
                MainKey::OpenExitDialog
            } else {
                MainKey::Click(m.column, m.row)
            }
        } else {
            MainKey::Nothing
        },
        _ => MainKey::Nothing,
    }
}

/// The editing shortcuts shared by the normal and fullscreen input views.
pub open spec fn edit_shortcut_spec(k: KeyEvent) -> Option<EditOp> {
    if is_delete_word_backward_spec(k) {
        Some(EditOp::DeleteWordBackward)
    } else if is_delete_word_forward_spec(k) {
        Some(EditOp::DeleteWordForward)
    } else if is_delete_to_start_spec(k) {
        Some(EditOp::DeleteToLineStart)
    } else if is_delete_to_end_spec(k) {
        Some(EditOp::DeleteToLineEnd)
    } else if is_move_to_line_start_spec(k) {
        Some(EditOp::LineStart)
    } else if is_move_to_line_end_spec(k) {
        Some(EditOp::LineEnd)
    } else if is_move_to_document_start_spec(k) {
        Some(EditOp::DocumentStart)
    } else if is_move_to_document_end_spec(k) {
        Some(EditOp::DocumentEnd)
    } else if is_move_word_backward_spec(k) {
        Some(EditOp::WordLeft)
    } else if is_move_word_forward_spec(k) {
        Some(EditOp::WordRight)
    } else if is_backspace_spec(k) {
        Some(EditOp::DeleteBackward)
    } else {
        None
    }
}

} // verus!

verus! {

// ---------------------------------------------------------------------------
// The normal screen
// ---------------------------------------------------------------------------

/// The keys that move in the journal tree, when the conversation has the
/// focus and is drawn as a journal.
pub open spec fn journal_key_spec(v: MainView, k: KeyEvent) -> Option<MainKey> {
    if v.focused_panel == FocusedPanel::Conversation && v.view_style
        == ConversationViewStyle::Journal {
        if is_journal_cursor_down_spec(k) {
            Some(MainKey::JournalDown)
        } else if is_journal_cursor_up_spec(k) {
            Some(MainKey::JournalUp)
        } else if is_journal_expand_spec(k) {
            Some(MainKey::JournalExpand)
        } else if is_journal_collapse_spec(k) {
            Some(MainKey::JournalCollapse)
        } else if is_enter_spec(k) {
            Some(MainKey::JournalToggle)
        } else {
            None
        }
    } else {
        None
    }
}

/// Enter, the arrows and the page keys on the normal screen: they go to
/// the autocomplete list when it is shown, to the input when it has the
/// focus (moving in a multi-line input, through the history at its
/// edges), else they scroll the conversation.
pub open spec fn normal_motion_spec(v: MainView, k: KeyEvent) -> Option<MainKey> {
    let in_input = v.focused_panel == FocusedPanel::Input;
    if is_enter_spec(k) {
        Some(
            if v.show_autocomplete {
                MainKey::AcceptAndSubmit
            } else if !v.input_blank {
                MainKey::Submit
            } else {
                MainKey::Nothing
            },
        )
    } else if is_up_spec(k) {
        Some(
            if v.show_autocomplete {
                MainKey::AutocompletePrev
            } else if in_input {
                if v.multiline_input && !v.cursor_on_first_line {
                    MainKey::Edit(EditOp::Up)
                } else {
                    MainKey::HistoryUp
                }
            } else {
                MainKey::ScrollUp(1)
            },
        )
    } else if is_down_spec(k) {
        Some(
            if v.show_autocomplete {
                MainKey::AutocompleteNext
            } else if in_input {
                if v.multiline_input && !v.cursor_on_last_line {
                    MainKey::Edit(EditOp::Down)
                } else {
                    MainKey::HistoryDown
                }
            } else {
                MainKey::ScrollDown(1)
            },
        )
    } else if is_page_up_spec(k) {
        Some(
            if in_input && v.multiline_input {
                MainKey::Edit(EditOp::PageUp)
            } else {
                MainKey::ScrollUp(10)
            },
        )
    } else if is_page_down_spec(k) {
        Some(
            if in_input && v.multiline_input {
                MainKey::Edit(EditOp::PageDown)
            } else {
                MainKey::ScrollDown(10)
            },
        )
    } else {
        None
    }
}

/// The remaining keys on the normal screen: typed characters (control
/// characters are dropped), the side arrows, Home and End, and Tab, which
/// accepts a shown suggestion.
pub open spec fn normal_plain_spec(k: KeyEvent) -> MainKey {
    match k.code {
        KeyCode::Char(c) => if is_control_spec(c) {
            MainKey::Nothing
        } else {
            MainKey::Edit(EditOp::InsertChar(c))
        },
        KeyCode::Left => MainKey::Edit(EditOp::Left),
        KeyCode::Right => MainKey::Edit(EditOp::Right),
        KeyCode::Home => MainKey::Edit(EditOp::LineStart),
        KeyCode::End => MainKey::Edit(EditOp::LineEnd),
        KeyCode::Tab => MainKey::AcceptAutocomplete,
        _ => MainKey::Nothing,
    }
}

/// What a key does on the normal screen, in this order: the viewers and
/// dialogs it opens; Tab and Shift+Tab move the focus unless suggestions
/// are shown; Enter or Space on the status bar opens the exit dialog; the
/// fullscreen toggle enlarges the focused panel; F9 switches the view
/// style; Shift+Enter inserts a line break; then the journal keys, the
/// motion keys, the editing shortcuts and plain keys.
pub open spec fn normal_key_spec(v: MainView, k: KeyEvent) -> MainKey {
    if is_sub_agent_viewer_spec(k) && v.mode != AppMode::Waiting {
        MainKey::OpenSubAgentViewer
    } else if is_reverse_search_spec(k) {
        MainKey::StartReverseSearch
    } else if is_session_picker_spec(k) {
        MainKey::OpenSessionPicker
    } else if is_task_viewer_spec(k) {
        MainKey::OpenTaskViewer
    } else if is_help_spec(k) {
        MainKey::OpenHelp
    } else if is_tab_spec(k) && !v.show_autocomplete {
        MainKey::Focus(next_focus_spec(v.focused_panel, v.status_bar_visible))
    } else if is_shift_tab_spec(k) && !v.show_autocomplete {
        MainKey::Focus(prev_focus_spec(v.focused_panel, v.status_bar_visible))
    } else if v.focused_panel == FocusedPanel::StatusBar && (k.code == KeyCode::Enter || k.code
        == KeyCode::Char(' ')) {
        MainKey::OpenExitDialog
    } else if is_fullscreen_toggle_spec(k) {
        match v.focused_panel {
            FocusedPanel::Input => MainKey::EnterMode(AppMode::InputFullscreen),
            FocusedPanel::Conversation => MainKey::EnterMode(AppMode::ConversationFullscreen),
            FocusedPanel::StatusBar => MainKey::Nothing,
        }
    } else if is_view_style_toggle_spec(k) {
        MainKey::ToggleViewStyle
    } else if is_shift_enter_spec(k) {
        MainKey::Edit(EditOp::InsertNewline)
    } else if journal_key_spec(v, k) is Some {
        journal_key_spec(v, k)->0
    } else if normal_motion_spec(v, k) is Some {
        normal_motion_spec(v, k)->0
    } else if edit_shortcut_spec(k) is Some {
        MainKey::Edit(edit_shortcut_spec(k)->0)
    } else {
        normal_plain_spec(k)
    }
}

/// What an event does on the normal screen: a paste is inserted, the mouse
/// as on every main screen, and keys as `normal_key_spec` says.
pub open spec fn normal_event_spec(v: MainView, e: Event) -> MainKey {
    match e {
        Event::Paste(_) => MainKey::Paste,
        Event::Mouse(_) => main_mouse_spec(v, e),
        Event::Key(k) => normal_key_spec(v, k),
        _ => MainKey::Nothing,
    }
}

fn main_mouse(v: &MainView, event: &Event) -> (r: MainKey)
    requires
        event is Mouse,
    ensures
        r == main_mouse_spec(*v, *event),
{
    if let Some((col, row)) = event.mouse_scroll_up() {
        return if v.conversation_area.contains(col, row) {
            MainKey::ScrollUp(3)
        } else {
            MainKey::Nothing
        };
    }
    if let Some((col, row)) = event.mouse_scroll_down() {
        return if v.conversation_area.contains(col, row) {
            MainKey::ScrollDown(3)
        } else {
            MainKey::Nothing
        };
    }
    if let Some((col, row)) = event.mouse_click() {
        return if v.exit_button.contains(col, row) {
            MainKey::OpenExitDialog
        } else {
            MainKey::Click(col, row)
        };
    }
    MainKey::Nothing
}

fn edit_shortcut(event: &Event) -> (r: Option<EditOp>)
    requires
        event is Key,
    ensures
        r == edit_shortcut_spec(event->Key_0),
{
    if event.is_delete_word_backward() {
        Some(EditOp::DeleteWordBackward)
    } else if event.is_delete_word_forward() {
        Some(EditOp::DeleteWordForward)
    } else if event.is_delete_to_start() {
        Some(EditOp::DeleteToLineStart)
    } else if event.is_delete_to_end() {
        Some(EditOp::DeleteToLineEnd)
    } else if event.is_move_to_line_start() {
        Some(EditOp::LineStart)
    } else if event.is_move_to_line_end() {
        Some(EditOp::LineEnd)
    } else if event.is_move_to_document_start() {
        Some(EditOp::DocumentStart)
    } else if event.is_move_to_document_end() {
        Some(EditOp::DocumentEnd)
    } else if event.is_move_word_backward() {
        Some(EditOp::WordLeft)
    } else if event.is_move_word_forward() {
        Some(EditOp::WordRight)
    } else if event.is_backspace() {
        Some(EditOp::DeleteBackward)
    } else {
        None
    }
}

fn journal_key(v: &MainView, event: &Event) -> (r: Option<MainKey>)
    requires
        event is Key,
    ensures
        r == journal_key_spec(*v, event->Key_0),
{
    if v.focused_panel == FocusedPanel::Conversation && v.view_style
        == ConversationViewStyle::Journal {
        if event.is_journal_cursor_down() {
            Some(MainKey::JournalDown)
        } else if event.is_journal_cursor_up() {
            Some(MainKey::JournalUp)
        } else if event.is_journal_expand() {
            Some(MainKey::JournalExpand)
        } else if event.is_journal_collapse() {
            Some(MainKey::JournalCollapse)
        } else if event.is_enter() {
            Some(MainKey::JournalToggle)
        } else {
            None
        }
    } else {
        None
    }
}

fn normal_motion(v: &MainView, event: &Event) -> (r: Option<MainKey>)
    requires
        event is Key,
    ensures
        r == normal_motion_spec(*v, event->Key_0),
{
    let in_input = v.focused_panel == FocusedPanel::Input;
    if event.is_enter() {
        Some(
            if v.show_autocomplete {
                MainKey::AcceptAndSubmit
            } else if !v.input_blank {
                MainKey::Submit
            } else {
                MainKey::Nothing
            },
        )
    } else if event.is_up() {
        Some(
            if v.show_autocomplete {
                MainKey::AutocompletePrev
            } else if in_input {
                if v.multiline_input && !v.cursor_on_first_line {
                    MainKey::Edit(EditOp::Up)
                } else {
                    MainKey::HistoryUp
                }
            } else {
                MainKey::ScrollUp(1)
            },
        )
    } else if event.is_down() {
        Some(
            if v.show_autocomplete {
                MainKey::AutocompleteNext
            } else if in_input {
                if v.multiline_input && !v.cursor_on_last_line {
                    MainKey::Edit(EditOp::Down)
                } else {
                    MainKey::HistoryDown
                }
            } else {
                MainKey::ScrollDown(1)
            },
        )
    } else if event.is_page_up() {
        Some(
            if in_input && v.multiline_input {
                MainKey::Edit(EditOp::PageUp)
            } else {
                MainKey::ScrollUp(10)
            },
        )
    } else if event.is_page_down() {
        Some(
            if in_input && v.multiline_input {
                MainKey::Edit(EditOp::PageDown)
            } else {
                MainKey::ScrollDown(10)
            },
        )
    } else {
        None
    }
}

/// What an event does on the normal screen.
pub fn normal_view_key(v: &MainView, event: &Event) -> (r: MainKey)
    ensures
        r == normal_event_spec(*v, *event),
{
    let k = match event {
        Event::Paste(_) => return MainKey::Paste,
        Event::Mouse(_) => return main_mouse(v, event),
        Event::Key(k) => *k,
        _ => return MainKey::Nothing,
    };
    if event.is_sub_agent_viewer() && v.mode != AppMode::Waiting {
        return MainKey::OpenSubAgentViewer;
    }
    if event.is_reverse_search() {
        return MainKey::StartReverseSearch;
    }
    if event.is_session_picker() {
        return MainKey::OpenSessionPicker;
    }
    if event.is_task_viewer() {
        return MainKey::OpenTaskViewer;
    }
    if event.is_help() {
        return MainKey::OpenHelp;
    }
    if event.is_tab() && !v.show_autocomplete {
        return MainKey::Focus(next_focus(v.focused_panel, v.status_bar_visible));
    }
    if event.is_shift_tab() && !v.show_autocomplete {
        return MainKey::Focus(prev_focus(v.focused_panel, v.status_bar_visible));
    }
    if v.focused_panel == FocusedPanel::StatusBar && (k.code == KeyCode::Enter || k.code
        == KeyCode::Char(' ')) {
        return MainKey::OpenExitDialog;
    }
    if event.is_fullscreen_toggle() {
        return match v.focused_panel {
            FocusedPanel::Input => MainKey::EnterMode(AppMode::InputFullscreen),
            FocusedPanel::Conversation => MainKey::EnterMode(AppMode::ConversationFullscreen),
            FocusedPanel::StatusBar => MainKey::Nothing,
        };
    }
    if event.is_view_style_toggle() {
        return MainKey::ToggleViewStyle;
    }
    if event.is_shift_enter() {
        return MainKey::Edit(EditOp::InsertNewline);
    }
    if let Some(a) = journal_key(v, event) {
        return a;
    }
    if let Some(a) = normal_motion(v, event) {
        return a;
    }
    if let Some(op) = edit_shortcut(event) {
        return MainKey::Edit(op);
    }
    match k.code {
        KeyCode::Char(c) => if is_control(c) {
            MainKey::Nothing
        } else {
            MainKey::Edit(EditOp::InsertChar(c))
        },
        KeyCode::Left => MainKey::Edit(EditOp::Left),
        KeyCode::Right => MainKey::Edit(EditOp::Right),
        KeyCode::Home => MainKey::Edit(EditOp::LineStart),
        KeyCode::End => MainKey::Edit(EditOp::LineEnd),
        KeyCode::Tab => MainKey::AcceptAutocomplete,
        _ => MainKey::Nothing,
    }
}

} // verus!

verus! {

// ---------------------------------------------------------------------------
// Waiting for the model, and the fullscreen views
// ---------------------------------------------------------------------------

/// What a key does while the model is answering: Escape asks whether to
/// cancel; Enter queues a message that is not blank; the input can still
/// be edited (every typed character is inserted).
pub open spec fn waiting_key_spec(v: MainView, k: KeyEvent) -> MainKey {
    if is_escape_spec(k) {
        MainKey::AskCancel
    } else if is_enter_spec(k) {
        if !v.input_blank {
            MainKey::QueueMessage
        } else {
            MainKey::Nothing
        }
    } else if is_backspace_spec(k) {
        MainKey::Edit(EditOp::DeleteBackward)
    } else if is_move_to_document_start_spec(k) {
        MainKey::Edit(EditOp::DocumentStart)
    } else if is_move_to_document_end_spec(k) {
        MainKey::Edit(EditOp::DocumentEnd)
    } else {
        match k.code {
            KeyCode::Char(c) => MainKey::Edit(EditOp::InsertChar(c)),
            KeyCode::Left => MainKey::Edit(EditOp::Left),
            KeyCode::Right => MainKey::Edit(EditOp::Right),
            KeyCode::Home => MainKey::Edit(EditOp::LineStart),
            KeyCode::End => MainKey::Edit(EditOp::LineEnd),
            _ => MainKey::Nothing,
        }
    }
}

/// What an event does while the model is answering.
pub open spec fn waiting_event_spec(v: MainView, e: Event) -> MainKey {
    match e {
        Event::Paste(_) => MainKey::Paste,
        Event::Mouse(_) => main_mouse_spec(v, e),
        Event::Key(k) => waiting_key_spec(v, k),
        _ => MainKey::Nothing,
    }
}

/// What an event does while the model is answering.
pub fn waiting_view_key(v: &MainView, event: &Event) -> (r: MainKey)
    ensures
        r == waiting_event_spec(*v, *event),
{
    let k = match event {
        Event::Paste(_) => return MainKey::Paste,
        Event::Mouse(_) => return main_mouse(v, event),
        Event::Key(k) => *k,
        _ => return MainKey::Nothing,
    };
    if event.is_escape() {
        return MainKey::AskCancel;
    }
    if event.is_enter() {
        return if !v.input_blank {
            MainKey::QueueMessage
        } else {
            MainKey::Nothing
        };
    }
    if event.is_backspace() {
        return MainKey::Edit(EditOp::DeleteBackward);
    }
    if event.is_move_to_document_start() {
        return MainKey::Edit(EditOp::DocumentStart);
    }
    if event.is_move_to_document_end() {
        return MainKey::Edit(EditOp::DocumentEnd);
    }
    match k.code {
        KeyCode::Char(c) => MainKey::Edit(EditOp::InsertChar(c)),
        KeyCode::Left => MainKey::Edit(EditOp::Left),
        KeyCode::Right => MainKey::Edit(EditOp::Right),
        KeyCode::Home => MainKey::Edit(EditOp::LineStart),
        KeyCode::End => MainKey::Edit(EditOp::LineEnd),
        _ => MainKey::Nothing,
    }
}

/// What an event does in the fullscreen conversation view: the wheel
/// scrolls by three rows anywhere, a click may complete a double click;
/// the file explorer, find and git views open from here; Escape or the
/// fullscreen toggle leave; F9 switches the view style; `c` copies the
/// conversation, `m` toggles mouse capture; the arrows and page keys
/// scroll.
pub open spec fn conversation_fullscreen_spec(e: Event) -> MainKey {
    match e {
        Event::Mouse(m) => if m.kind == MouseEventKind::ScrollUp {
            MainKey::ScrollUp(3)
        } else if m.kind == MouseEventKind::ScrollDown {
            MainKey::ScrollDown(3)
        } else if m.kind == MouseEventKind::Down(MouseButton::Left) {
            MainKey::Click(m.column, m.row)
        } else {
            MainKey::Nothing
        },
        Event::Key(k) => if is_file_explorer_spec(k) {
            MainKey::OpenFileExplorer
        } else if is_find_spec(k) {
            MainKey::OpenFind
        } else if is_git_scm_spec(k) {
            MainKey::OpenGitScm
        } else if is_escape_spec(k) || is_fullscreen_toggle_spec(k) {
            MainKey::LeaveFullscreen
        } else if is_view_style_toggle_spec(k) {
            MainKey::ToggleViewStyle
        } else if is_copy_spec(k) {
            MainKey::CopyConversation
        } else if is_toggle_mouse_spec(k) {
            MainKey::ToggleMouseCapture
        } else if is_up_spec(k) {
            MainKey::ScrollUp(1)
        } else if is_down_spec(k) {
            MainKey::ScrollDown(1)
        } else if is_page_up_spec(k) {
            MainKey::ScrollUp(10)
        } else if is_page_down_spec(k) {
            MainKey::ScrollDown(10)
        } else {
            MainKey::Nothing
        },
        _ => MainKey::Nothing,
    }
}

/// What an event does in the fullscreen conversation view.
pub fn conversation_fullscreen_key(event: &Event) -> (r: MainKey)
    ensures
        r == conversation_fullscreen_spec(*event),
{
    if let Some(_) = event.mouse_scroll_up() {
        return MainKey::ScrollUp(3);
    }
    if let Some(_) = event.mouse_scroll_down() {
        return MainKey::ScrollDown(3);
    }
    if let Some((col, row)) = event.mouse_click() {
        return MainKey::Click(col, row);
    }
    if event.is_file_explorer() {
        MainKey::OpenFileExplorer
    } else if event.is_find() {
        MainKey::OpenFind
    } else if event.is_git_scm() {
        MainKey::OpenGitScm
    } else if event.is_escape() || event.is_fullscreen_toggle() {
        MainKey::LeaveFullscreen
    } else if event.is_view_style_toggle() {
        MainKey::ToggleViewStyle
    } else if event.is_copy() {
        MainKey::CopyConversation
    } else if event.is_toggle_mouse() {
        MainKey::ToggleMouseCapture
    } else if event.is_up() {
        MainKey::ScrollUp(1)
    } else if event.is_down() {
        MainKey::ScrollDown(1)
    } else if event.is_page_up() {
        MainKey::ScrollUp(10)
    } else if event.is_page_down() {
        MainKey::ScrollDown(10)
    } else {
        MainKey::Nothing
    }
}

/// What a key does in the fullscreen input view: find and replace open;
/// Escape or the fullscreen toggle go back to the normal screen;
/// Shift+Enter breaks the line; Enter submits input that is not blank;
/// the arrows move inside a multi-line input and the page keys always;
/// then the editing shortcuts, typed characters, the side arrows, Home,
/// End and Delete.
pub open spec fn input_fullscreen_key_spec(v: MainView, k: KeyEvent) -> MainKey {
    if is_find_spec(k) {
        MainKey::OpenFind
    } else if is_replace_spec(k) {
        MainKey::OpenFindReplace
    } else if is_escape_spec(k) || is_fullscreen_toggle_spec(k) {
        MainKey::EnterMode(AppMode::Normal)
    } else if is_shift_enter_spec(k) {
        MainKey::Edit(EditOp::InsertNewline)
    } else if is_enter_spec(k) {
        if !v.input_blank {
            MainKey::SubmitFromFullscreen
        } else {
            MainKey::Nothing
        }
    } else if is_up_spec(k) {
        if v.multiline_input && !v.cursor_on_first_line {
            MainKey::Edit(EditOp::Up)
        } else {
            MainKey::Nothing
        }
    } else if is_down_spec(k) {
        if v.multiline_input && !v.cursor_on_last_line {
            MainKey::Edit(EditOp::Down)
        } else {
            MainKey::Nothing
        }
    } else if is_page_up_spec(k) {
        MainKey::Edit(EditOp::PageUp)
    } else if is_page_down_spec(k) {
        MainKey::Edit(EditOp::PageDown)
    } else if edit_shortcut_spec(k) is Some {
        MainKey::Edit(edit_shortcut_spec(k)->0)
    } else {
        match k.code {
            KeyCode::Char(c) => MainKey::Edit(EditOp::InsertChar(c)),
            KeyCode::Left => MainKey::Edit(EditOp::Left),
            KeyCode::Right => MainKey::Edit(EditOp::Right),
            KeyCode::Home => MainKey::Edit(EditOp::LineStart),
            KeyCode::End => MainKey::Edit(EditOp::LineEnd),
            KeyCode::Delete => MainKey::Edit(EditOp::DeleteForward),
            _ => MainKey::Nothing,
        }
    }
}

/// What an event does in the fullscreen input view: a paste is inserted,
/// a click may complete a double click, keys as above.
pub open spec fn input_fullscreen_spec(v: MainView, e: Event) -> MainKey {
    match e {
        Event::Paste(_) => MainKey::Paste,
        Event::Mouse(m) => if m.kind == MouseEventKind::Down(MouseButton::Left) {
            MainKey::Click(m.column, m.row)
        } else {
            MainKey::Nothing
        },
        Event::Key(k) => input_fullscreen_key_spec(v, k),
        _ => MainKey::Nothing,
    }
}

/// What an event does in the fullscreen input view.
pub fn input_fullscreen_key(v: &MainView, event: &Event) -> (r: MainKey)
    ensures
        r == input_fullscreen_spec(*v, *event),
{
    let k = match event {
        Event::Paste(_) => return MainKey::Paste,
        Event::Mouse(_) => return match event.mouse_click() {
            Some((col, row)) => MainKey::Click(col, row),
            None => MainKey::Nothing,
        },
        Event::Key(k) => *k,
        _ => return MainKey::Nothing,
    };
    if event.is_find() {
        return MainKey::OpenFind;
    }
    if event.is_replace() {
        return MainKey::OpenFindReplace;
    }
    if event.is_escape() || event.is_fullscreen_toggle() {
        return MainKey::EnterMode(AppMode::Normal);
    }
    if event.is_shift_enter() {
        return MainKey::Edit(EditOp::InsertNewline);
    }
    if event.is_enter() {
        return if !v.input_blank {
            MainKey::SubmitFromFullscreen
        } else {
            MainKey::Nothing
        };
    }
    if event.is_up() {
        return if v.multiline_input && !v.cursor_on_first_line {
            MainKey::Edit(EditOp::Up)
        } else {
            MainKey::Nothing
        };
    }
    if event.is_down() {
        return if v.multiline_input && !v.cursor_on_last_line {
            MainKey::Edit(EditOp::Down)
        } else {
            MainKey::Nothing
        };
    }
    if event.is_page_up() {
        return MainKey::Edit(EditOp::PageUp);
    }
    if event.is_page_down() {
        return MainKey::Edit(EditOp::PageDown);
    }
    if let Some(op) = edit_shortcut(event) {
        return MainKey::Edit(op);
    }
    match k.code {
        KeyCode::Char(c) => MainKey::Edit(EditOp::InsertChar(c)),
        KeyCode::Left => MainKey::Edit(EditOp::Left),
        KeyCode::Right => MainKey::Edit(EditOp::Right),
        KeyCode::Home => MainKey::Edit(EditOp::LineStart),
        KeyCode::End => MainKey::Edit(EditOp::LineEnd),
        KeyCode::Delete => MainKey::Edit(EditOp::DeleteForward),
        _ => MainKey::Nothing,
    }
}

// ---------------------------------------------------------------------------
// Confirming a cancel, and the keys of every mode
// ---------------------------------------------------------------------------

/// The answer to "Cancel operation? (y/n)".
#[derive(Debug, Clone, Copy, PartialEq, Eq, Structural)]
pub enum CancelKey {
    /// Cancel the request and go back to the normal screen
    Cancel,
    /// Keep waiting for the model
    Continue,
    Nothing,
}

/// `y` cancels; `n` or Escape keep waiting; other events are ignored.
pub open spec fn cancel_key_spec(e: Event) -> CancelKey {
    match e {
        Event::Key(k) => match k.code {
            KeyCode::Char('y') => CancelKey::Cancel,
            KeyCode::Char('Y') => CancelKey::Cancel,
            KeyCode::Char('n') => CancelKey::Continue,
            KeyCode::Char('N') => CancelKey::Continue,
            KeyCode::Esc => CancelKey::Continue,
            _ => CancelKey::Nothing,
        },
        _ => CancelKey::Nothing,
    }
}

/// The answer an event gives to the cancel question.
pub fn cancel_confirm_key(event: &Event) -> (r: CancelKey)
    ensures
        r == cancel_key_spec(*event),
{
    match event {
        Event::Key(k) => match k.code {
            KeyCode::Char('y') | KeyCode::Char('Y') => CancelKey::Cancel,
            KeyCode::Char('n') | KeyCode::Char('N') | KeyCode::Esc => CancelKey::Continue,
            _ => CancelKey::Nothing,
        },
        _ => CancelKey::Nothing,
    }
}

/// What an event does before the current mode sees it.
#[derive(Debug, Clone, Copy, PartialEq, Eq, Structural)]
pub enum GlobalKey {
    OpenExitDialog,
    /// The terminal was resized
    Resized,
    /// The session connection was lost and must be restarted
    SessionLost,
    OpenSuspendDialog,
    /// Leave the console view for the normal screen
    LeaveConsoleView,
    /// Open the console view, scrolled to its end
    OpenConsoleView,
    ExitPlanMode,
    EnterPlanMode,
    /// Hand the event to the current mode
    Dispatch,
}

/// The keys of every mode: Ctrl+C opens the exit dialog (unless it is
/// open), Ctrl+Z the suspend dialog (unless it is open), Ctrl+D toggles
/// the console view and Ctrl+P plan mode; resizes and a lost session are
/// handled here; everything else goes to the current mode.
pub open spec fn global_key_spec(mode: AppMode, e: Event) -> GlobalKey {
    match e {
        Event::Key(k) => if is_quit_spec(k) && mode != AppMode::ExitDialog {
            GlobalKey::OpenExitDialog
        } else if is_suspend_spec(k) && mode != AppMode::SuspendDialog {
            GlobalKey::OpenSuspendDialog
        } else if is_console_view_spec(k) {
            if mode == AppMode::ConsoleView {
                GlobalKey::LeaveConsoleView
            } else {
                GlobalKey::OpenConsoleView
            }
        } else if is_plan_mode_toggle_spec(k) {
            if mode == AppMode::PlanMode {
                GlobalKey::ExitPlanMode
            } else {
                GlobalKey::EnterPlanMode
            }
        } else {
            GlobalKey::Dispatch
        },
        Event::Resize(_, _) => GlobalKey::Resized,
        Event::IpcDisconnected => GlobalKey::SessionLost,
        _ => GlobalKey::Dispatch,
    }
}

/// What an event does before the current mode sees it.
pub fn global_key(mode: AppMode, event: &Event) -> (r: GlobalKey)
    ensures
        r == global_key_spec(mode, *event),
{
    if event.is_quit() && mode != AppMode::ExitDialog {
        return GlobalKey::OpenExitDialog;
    }
    match event {
        Event::Resize(_, _) => return GlobalKey::Resized,
        Event::IpcDisconnected => return GlobalKey::SessionLost,
        _ => {},
    }
    if event.is_suspend() && mode != AppMode::SuspendDialog {
        return GlobalKey::OpenSuspendDialog;
    }
    if event.is_console_view() {
        return if mode == AppMode::ConsoleView {
            GlobalKey::LeaveConsoleView
        } else {
            GlobalKey::OpenConsoleView
        };
    }
    if event.is_plan_mode_toggle() {
        return if mode == AppMode::PlanMode {
            GlobalKey::ExitPlanMode
        } else {
            GlobalKey::EnterPlanMode
        };
    }
    GlobalKey::Dispatch
}

} // verus!

verus! {

// ---------------------------------------------------------------------------
// Plan mode
// ---------------------------------------------------------------------------

/// Tab in plan mode: between the input and the conversation (from the
/// status bar, to the input).
pub open spec fn plan_focus_spec(p: FocusedPanel) -> FocusedPanel {
    match p {
        FocusedPanel::Input => FocusedPanel::Conversation,
        FocusedPanel::Conversation => FocusedPanel::Input,
        FocusedPanel::StatusBar => FocusedPanel::Input,
    }
}

/// What a key does in plan mode: Escape leaves it; Enter submits (after
/// accepting a shown suggestion); Tab moves the focus unless suggestions
/// are shown; the arrows go to the suggestions, or scroll a focused
/// conversation; the page keys scroll; then Backspace, typed characters
/// (control characters dropped), the side arrows, Home, End, and Tab to
/// accept a suggestion.
pub open spec fn plan_key_spec(v: MainView, k: KeyEvent) -> MainKey {
    if is_escape_spec(k) {
        MainKey::ExitPlanMode
    } else if is_enter_spec(k) {
        if v.show_autocomplete {
            MainKey::AcceptAndSubmit
        } else if !v.input_blank {
            MainKey::Submit
        } else {
            MainKey::Nothing
        }
    } else if is_tab_spec(k) && !v.show_autocomplete {
        MainKey::Focus(plan_focus_spec(v.focused_panel))
    } else if is_up_spec(k) && v.show_autocomplete {
        MainKey::AutocompletePrev
    } else if is_down_spec(k) && v.show_autocomplete {
        MainKey::AutocompleteNext
    } else if is_up_spec(k) && v.focused_panel == FocusedPanel::Conversation {
        MainKey::ScrollUp(1)
    } else if is_down_spec(k) && v.focused_panel == FocusedPanel::Conversation {
        MainKey::ScrollDown(1)
    } else if is_page_up_spec(k) {
        MainKey::ScrollUp(10)
    } else if is_page_down_spec(k) {
        MainKey::ScrollDown(10)
    } else if is_backspace_spec(k) {
        MainKey::Edit(EditOp::DeleteBackward)
    } else {
        normal_plain_spec(k)
    }
}

/// What an event does in plan mode: a paste is inserted, keys as above.
pub open spec fn plan_event_spec(v: MainView, e: Event) -> MainKey {
    match e {
        Event::Paste(_) => MainKey::Paste,
        Event::Key(k) => plan_key_spec(v, k),
        _ => MainKey::Nothing,
    }
}

/// What an event does in plan mode.
pub fn plan_mode_key(v: &MainView, event: &Event) -> (r: MainKey)
    ensures
        r == plan_event_spec(*v, *event),
{
    let k = match event {
        Event::Paste(_) => return MainKey::Paste,
        Event::Key(k) => *k,
        _ => return MainKey::Nothing,
    };
    if event.is_escape() {
        return MainKey::ExitPlanMode;
    }
    if event.is_enter() {
        return if v.show_autocomplete {
            MainKey::AcceptAndSubmit
        } else if !v.input_blank {
            MainKey::Submit
        } else {
            MainKey::Nothing
        };
    }
    if event.is_tab() && !v.show_autocomplete {
        return MainKey::Focus(
            match v.focused_panel {
                FocusedPanel::Input => FocusedPanel::Conversation,
                FocusedPanel::Conversation => FocusedPanel::Input,
                FocusedPanel::StatusBar => FocusedPanel::Input,
            },
        );
    }
    if event.is_up() && v.show_autocomplete {
        return MainKey::AutocompletePrev;
    }
    if event.is_down() && v.show_autocomplete {
        return MainKey::AutocompleteNext;
    }
    if event.is_up() && v.focused_panel == FocusedPanel::Conversation {
        return MainKey::ScrollUp(1);
    }
    if event.is_down() && v.focused_panel == FocusedPanel::Conversation {
        return MainKey::ScrollDown(1);
    }
    if event.is_page_up() {
        return MainKey::ScrollUp(10);
    }
    if event.is_page_down() {
        return MainKey::ScrollDown(10);
    }
    if event.is_backspace() {
        return MainKey::Edit(EditOp::DeleteBackward);
    }
    match k.code {
        KeyCode::Char(c) => if is_control(c) {
            MainKey::Nothing
        } else {
            MainKey::Edit(EditOp::InsertChar(c))
        },
        KeyCode::Left => MainKey::Edit(EditOp::Left),
        KeyCode::Right => MainKey::Edit(EditOp::Right),
        KeyCode::Home => MainKey::Edit(EditOp::LineStart),
        KeyCode::End => MainKey::Edit(EditOp::LineEnd),
        KeyCode::Tab => MainKey::AcceptAutocomplete,
        _ => MainKey::Nothing,
    }
}

} // verus!
