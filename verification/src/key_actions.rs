//! What a key or mouse event does in each dialog and view: each function
//! maps the view's state and the event to the action to take. Carrying
//! out an action is a call of the view's own methods, or work at the edge
//! (running git, opening a file).
use vstd::prelude::*;
use crate::events::{
    is_backspace_spec, is_down_spec, is_enter_spec, is_escape_spec, is_help_spec, is_page_down_spec,
    is_page_up_spec, is_quit_spec, is_shift_tab_spec, is_suspend_spec, is_tab_spec, is_up_spec, Event, KeyCode,
    KeyEvent, MouseButton, MouseEventKind,
};
use crate::file_explorer::{
    EntryType, EntryTypeView, FileEntryView, FileExplorerMode, FileExplorerState, FileExplorerView,
};
use crate::app::ExitAction;
use crate::git_scm::{GitFileEntry, GitOperationMode, GitScmState, ScmPanel};
use crate::text::{from_char_range, from_chars, owned, str_eq, string_push, strs_view, to_chars};
use crate::help_dialog::{HelpDialogState, HelpFocus};
use crate::suspend_dialog::{SuspendAction, SuspendDialogState, SuspendFocus};

verus! {

// ---------------------------------------------------------------------------
// The help dialog
// ---------------------------------------------------------------------------

/// What an event does in the help dialog.
#[derive(Debug, Clone, Copy, PartialEq, Eq, Structural)]
pub enum HelpKey {
    /// Scroll the content up by this many rows
    ScrollUp(usize),
    /// Scroll the content down by this many rows
    ScrollDown(usize),
    /// A left click at this cell
    Click(u16, u16),
    ClearSearch,
    Close,
    FocusNext,
    FocusPrev,
    DeleteBackward,
    Insert(char),
    CursorLeft,
    CursorRight,
    CursorHome,
    CursorEnd,
    DeleteForward,
    FocusContent,
    PrevCategory,
    NextCategory,
    Nothing,
}

/// The help dialog's answer to an event, given where the focus is and
/// whether the search field is empty: mouse wheel scrolls by three rows,
/// a left click goes to the category list; Escape or F1 clears a search
/// being typed, else closes; Tab and Shift+Tab move the focus; the other
/// keys depend on the focus.
pub open spec fn help_key_spec(focus: HelpFocus, query_empty: bool, e: Event) -> HelpKey {
    match e {
        Event::Mouse(m) => if m.kind == MouseEventKind::ScrollUp {
            HelpKey::ScrollUp(3)
        } else if m.kind == MouseEventKind::ScrollDown {
            HelpKey::ScrollDown(3)
        } else if m.kind == MouseEventKind::Down(MouseButton::Left) {
            HelpKey::Click(m.column, m.row)
        } else {
            HelpKey::Nothing
        },
        Event::Key(k) => if is_escape_spec(k) || is_help_spec(k) {
            if focus == HelpFocus::SearchInput && !query_empty {
                HelpKey::ClearSearch
            } else {
                HelpKey::Close
            }
        } else if is_tab_spec(k) {
            HelpKey::FocusNext
        } else if is_shift_tab_spec(k) {
            HelpKey::FocusPrev
        } else {
            match focus {
                HelpFocus::SearchInput => if is_backspace_spec(k) {
                    HelpKey::DeleteBackward
                } else {
                    match k.code {
                        KeyCode::Char(c) => HelpKey::Insert(c),
                        KeyCode::Left => HelpKey::CursorLeft,
                        KeyCode::Right => HelpKey::CursorRight,
                        KeyCode::Home => HelpKey::CursorHome,
                        KeyCode::End => HelpKey::CursorEnd,
                        KeyCode::Delete => HelpKey::DeleteForward,
                        KeyCode::Enter => HelpKey::FocusContent,
                        _ => HelpKey::Nothing,
                    }
                },
                HelpFocus::CategoryList => if is_up_spec(k) {
                    HelpKey::PrevCategory
                } else if is_down_spec(k) {
                    HelpKey::NextCategory
                } else if is_enter_spec(k) {
                    HelpKey::FocusContent
                } else {
                    HelpKey::Nothing
                },
                HelpFocus::ContentArea => if is_up_spec(k) {
                    HelpKey::ScrollUp(1)
                } else if is_down_spec(k) {
                    HelpKey::ScrollDown(1)
                } else if is_page_up_spec(k) {
                    HelpKey::ScrollUp(10)
                } else if is_page_down_spec(k) {
                    HelpKey::ScrollDown(10)
                } else {
                    HelpKey::Nothing
                },
            }
        },
        _ => HelpKey::Nothing,
    }
}

/// What an event does in the help dialog.
pub fn help_dialog_key(state: &HelpDialogState, event: &Event) -> (r: HelpKey)
    ensures
        r == help_key_spec(state.focus, state.search_query@.len() == 0, *event),
{
    if let Some(_) = event.mouse_scroll_up() {
        return HelpKey::ScrollUp(3);
    }
    if let Some(_) = event.mouse_scroll_down() {
        return HelpKey::ScrollDown(3);
    }
    if let Some((col, row)) = event.mouse_click() {
        return HelpKey::Click(col, row);
    }
    if event.is_escape() || event.is_help() {
        if state.focus == HelpFocus::SearchInput && state.is_searching() {
            return HelpKey::ClearSearch;
        }
        return HelpKey::Close;
    }
    if event.is_tab() {
        return HelpKey::FocusNext;
    }
    if event.is_shift_tab() {
        return HelpKey::FocusPrev;
    }
    match state.focus {
        HelpFocus::SearchInput => {
            if event.is_backspace() {
                return HelpKey::DeleteBackward;
            }
            match event {
                Event::Key(k) => match k.code {
                    KeyCode::Char(c) => HelpKey::Insert(c),
                    KeyCode::Left => HelpKey::CursorLeft,
                    KeyCode::Right => HelpKey::CursorRight,
                    KeyCode::Home => HelpKey::CursorHome,
                    KeyCode::End => HelpKey::CursorEnd,
                    KeyCode::Delete => HelpKey::DeleteForward,
                    KeyCode::Enter => HelpKey::FocusContent,
                    _ => HelpKey::Nothing,
                },
                _ => HelpKey::Nothing,
            }
        },
        HelpFocus::CategoryList => {
            if event.is_up() {
                HelpKey::PrevCategory
            } else if event.is_down() {
                HelpKey::NextCategory
            } else if event.is_enter() {
                HelpKey::FocusContent
            } else {
                HelpKey::Nothing
            }
        },
        HelpFocus::ContentArea => {
            if event.is_up() {
                HelpKey::ScrollUp(1)
            } else if event.is_down() {
                HelpKey::ScrollDown(1)
            } else if event.is_page_up() {
                HelpKey::ScrollUp(10)
            } else if event.is_page_down() {
                HelpKey::ScrollDown(10)
            } else {
                HelpKey::Nothing
            }
        },
    }
}

// ---------------------------------------------------------------------------
// The suspend dialog
// ---------------------------------------------------------------------------

/// What an event does in the suspend dialog.
#[derive(Debug, Clone, Copy, PartialEq, Eq, Structural)]
pub enum SuspendKey {
    /// Ctrl+C: leave for the exit dialog
    ToExitDialog,
    /// A click on this element: focus it, then toggle the checkbox or run
    /// the button's action
    Click(SuspendFocus),
    Close,
    FocusNext,
    FocusPrev,
    Execute(SuspendAction),
    ToggleCheckbox,
    Nothing,
}

/// The suspend dialog's answer to an event: Ctrl+C goes to the exit
/// dialog; a left click on an element acts on it; Escape closes; Tab,
/// Shift+Tab and the arrows move the focus; `b` and `s` background or
/// suspend at once; Space toggles the checkbox when it has the focus;
/// Enter runs the focused button.
pub open spec fn suspend_key_spec(
    focus: SuspendFocus,
    clicked: Option<SuspendFocus>,
    e: Event,
) -> SuspendKey {
    match e {
        Event::Key(k) => if is_quit_spec(k) {
            SuspendKey::ToExitDialog
        } else if is_escape_spec(k) {
            SuspendKey::Close
        } else if is_tab_spec(k) {
            SuspendKey::FocusNext
        } else if is_shift_tab_spec(k) {
            SuspendKey::FocusPrev
        } else {
            match k.code {
                KeyCode::Left => SuspendKey::FocusPrev,
                KeyCode::Right => SuspendKey::FocusNext,
                KeyCode::Char('b') => SuspendKey::Execute(SuspendAction::Background),
                KeyCode::Char('B') => SuspendKey::Execute(SuspendAction::Background),
                KeyCode::Char('s') => SuspendKey::Execute(SuspendAction::Suspend),
                KeyCode::Char('S') => SuspendKey::Execute(SuspendAction::Suspend),
                KeyCode::Char(' ') if focus == SuspendFocus::ExitWhenDoneCheckbox => SuspendKey::ToggleCheckbox,
                _ => if is_enter_spec(k) {
                    match focus {
                        SuspendFocus::BackgroundButton => SuspendKey::Execute(SuspendAction::Background),
                        SuspendFocus::SuspendButton => SuspendKey::Execute(SuspendAction::Suspend),
                        SuspendFocus::ExitWhenDoneCheckbox => SuspendKey::Nothing,
                    }
                } else {
                    SuspendKey::Nothing
                },
            }
        },
        Event::Mouse(m) => if m.kind == MouseEventKind::Down(MouseButton::Left) {
            match clicked {
                Some(f) => SuspendKey::Click(f),
                None => SuspendKey::Nothing,
            }
        } else {
            SuspendKey::Nothing
        },
        _ => SuspendKey::Nothing,
    }
}

/// What an event does in the suspend dialog.
pub fn suspend_dialog_key(state: &SuspendDialogState, event: &Event) -> (r: SuspendKey)
    ensures
        r == suspend_key_spec(
            state.focus,
            match *event {
                Event::Mouse(m) => crate::suspend_dialog::click_target(
                    state.click_regions@,
                    m.column as int,
                    m.row as int,
                ),
                _ => None,
            },
            *event,
        ),
{
    if event.is_quit() {
        return SuspendKey::ToExitDialog;
    }
    if let Some((col, row)) = event.mouse_click() {
        match state.handle_click(col, row) {
            Some(f) => return SuspendKey::Click(f),
            None => return SuspendKey::Nothing,
        }
    }
    if event.is_escape() {
        return SuspendKey::Close;
    }
    if event.is_tab() {
        return SuspendKey::FocusNext;
    }
    if event.is_shift_tab() {
        return SuspendKey::FocusPrev;
    }
    match event {
        Event::Key(k) => match k.code {
            KeyCode::Left => return SuspendKey::FocusPrev,
            KeyCode::Right => return SuspendKey::FocusNext,
            KeyCode::Char('b') | KeyCode::Char('B') => return SuspendKey::Execute(SuspendAction::Background),
            KeyCode::Char('s') | KeyCode::Char('S') => return SuspendKey::Execute(SuspendAction::Suspend),
            KeyCode::Char(' ') => {
                if state.focus == SuspendFocus::ExitWhenDoneCheckbox {
                    return SuspendKey::ToggleCheckbox;
                }
            },
            _ => {},
        },
        _ => {},
    }
    if event.is_enter() {
        match state.selected_action() {
            Some(a) => return SuspendKey::Execute(a),
            None => {},
        }
    }
    SuspendKey::Nothing
}

} // verus!

verus! {

// ---------------------------------------------------------------------------
// The tool picker and the task viewer
// ---------------------------------------------------------------------------

/// What a key does in the tool picker.
#[derive(Debug, Clone, Copy, PartialEq, Eq, Structural)]
pub enum PickerKey {
    Cancel,
    Confirm,
    Up,
    Down,
    Toggle,
    SelectAll,
    SelectNone,
    Collapse,
    Expand,
    Nothing,
}

/// The tool picker's answer to an event: Escape cancels, Enter confirms,
/// the arrows move or collapse and expand, Space toggles, `a`/`A` select
/// all and `n`/`N` none.
pub open spec fn picker_key_spec(e: Event) -> PickerKey {
    match e {
        Event::Key(k) => if is_escape_spec(k) {
            PickerKey::Cancel
        } else if is_enter_spec(k) {
            PickerKey::Confirm
        } else {
            match k.code {
                KeyCode::Up => PickerKey::Up,
                KeyCode::Down => PickerKey::Down,
                KeyCode::Char(' ') => PickerKey::Toggle,
                KeyCode::Char('a') => PickerKey::SelectAll,
                KeyCode::Char('A') => PickerKey::SelectAll,
                KeyCode::Char('n') => PickerKey::SelectNone,
                KeyCode::Char('N') => PickerKey::SelectNone,
                KeyCode::Left => PickerKey::Collapse,
                KeyCode::Right => PickerKey::Expand,
                _ => PickerKey::Nothing,
            }
        },
        _ => PickerKey::Nothing,
    }
}

/// What an event does in the tool picker.
pub fn tool_picker_key(event: &Event) -> (r: PickerKey)
    ensures
        r == picker_key_spec(*event),
{
    if event.is_escape() {
        return PickerKey::Cancel;
    }
    if event.is_enter() {
        return PickerKey::Confirm;
    }
    match event {
        Event::Key(k) => match k.code {
            KeyCode::Up => PickerKey::Up,
            KeyCode::Down => PickerKey::Down,
            KeyCode::Char(' ') => PickerKey::Toggle,
            KeyCode::Char('a') | KeyCode::Char('A') => PickerKey::SelectAll,
            KeyCode::Char('n') | KeyCode::Char('N') => PickerKey::SelectNone,
            KeyCode::Left => PickerKey::Collapse,
            KeyCode::Right => PickerKey::Expand,
            _ => PickerKey::Nothing,
        },
        _ => PickerKey::Nothing,
    }
}

/// What a key does in the task viewer.
#[derive(Debug, Clone, Copy, PartialEq, Eq, Structural)]
pub enum TaskKey {
    Close,
    Up,
    Down,
    ToggleCollapse,
    ToggleStatus,
    /// Scroll up by ten rows
    PageUp,
    /// Scroll down by ten rows
    PageDown,
    Nothing,
}

/// The task viewer's answer to an event: Escape closes, Up and Down move,
/// Enter and the side arrows collapse or expand, Space moves the task to
/// its next status, the page keys scroll.
pub open spec fn task_key_spec(e: Event) -> TaskKey {
    match e {
        Event::Key(k) => if is_escape_spec(k) {
            TaskKey::Close
        } else {
            match k.code {
                KeyCode::Up => TaskKey::Up,
                KeyCode::Down => TaskKey::Down,
                KeyCode::Enter => TaskKey::ToggleCollapse,
                KeyCode::Left => TaskKey::ToggleCollapse,
                KeyCode::Right => TaskKey::ToggleCollapse,
                KeyCode::Char(' ') => TaskKey::ToggleStatus,
                KeyCode::PageUp => TaskKey::PageUp,
                KeyCode::PageDown => TaskKey::PageDown,
                _ => TaskKey::Nothing,
            }
        },
        _ => TaskKey::Nothing,
    }
}

/// What an event does in the task viewer.
pub fn task_viewer_key(event: &Event) -> (r: TaskKey)
    ensures
        r == task_key_spec(*event),
{
    if event.is_escape() {
        return TaskKey::Close;
    }
    match event {
        Event::Key(k) => match k.code {
            KeyCode::Up => TaskKey::Up,
            KeyCode::Down => TaskKey::Down,
            KeyCode::Enter | KeyCode::Left | KeyCode::Right => TaskKey::ToggleCollapse,
            KeyCode::Char(' ') => TaskKey::ToggleStatus,
            KeyCode::PageUp => TaskKey::PageUp,
            KeyCode::PageDown => TaskKey::PageDown,
            _ => TaskKey::Nothing,
        },
        _ => TaskKey::Nothing,
    }
}

} // verus!

verus! {

// ---------------------------------------------------------------------------
// The file explorer
// ---------------------------------------------------------------------------

/// What an event does in the file explorer.
#[derive(Debug, Clone)]
pub enum ExplorerKey {
    /// Leave search mode (Escape or Enter while searching)
    ExitSearch,
    /// Filter with this query
    SetQuery(String),
    /// Leave the explorer
    Close,
    /// Enter this directory
    EnterDirectory(String),
    /// Open this file in the editor
    OpenFile(String),
    /// Follow a symbolic link to this target: enter it when it is a
    /// directory, else open it
    FollowLink(String),
    Up,
    Down,
    /// Move the cursor up by this many rows
    PageUp(usize),
    /// Move the cursor down by this many rows
    PageDown(usize),
    /// Go to the parent directory
    GoUp,
    ToggleSelection,
    StartSearch,
    SelectAll,
    ClearSelection,
    ToggleHidden,
    Refresh,
    /// Add the selected files to the working set
    AddSelected,
    Nothing,
}

/// The abstract value of an [`ExplorerKey`].
pub enum ExplorerKeyView {
    ExitSearch,
    SetQuery(Seq<char>),
    Close,
    EnterDirectory(Seq<char>),
    OpenFile(Seq<char>),
    FollowLink(Seq<char>),
    Up,
    Down,
    PageUp(usize),
    PageDown(usize),
    GoUp,
    ToggleSelection,
    StartSearch,
    SelectAll,
    ClearSelection,
    ToggleHidden,
    Refresh,
    AddSelected,
    Nothing,
}

impl View for ExplorerKey {
    type V = ExplorerKeyView;

    open spec fn view(&self) -> ExplorerKeyView {
        match self {
            ExplorerKey::ExitSearch => ExplorerKeyView::ExitSearch,
            ExplorerKey::SetQuery(q) => ExplorerKeyView::SetQuery(q@),
            ExplorerKey::Close => ExplorerKeyView::Close,
            ExplorerKey::EnterDirectory(p) => ExplorerKeyView::EnterDirectory(p@),
            ExplorerKey::OpenFile(p) => ExplorerKeyView::OpenFile(p@),
            ExplorerKey::FollowLink(p) => ExplorerKeyView::FollowLink(p@),
            ExplorerKey::Up => ExplorerKeyView::Up,
            ExplorerKey::Down => ExplorerKeyView::Down,
            ExplorerKey::PageUp(n) => ExplorerKeyView::PageUp(*n),
            ExplorerKey::PageDown(n) => ExplorerKeyView::PageDown(*n),
            ExplorerKey::GoUp => ExplorerKeyView::GoUp,
            ExplorerKey::ToggleSelection => ExplorerKeyView::ToggleSelection,
            ExplorerKey::StartSearch => ExplorerKeyView::StartSearch,
            ExplorerKey::SelectAll => ExplorerKeyView::SelectAll,
            ExplorerKey::ClearSelection => ExplorerKeyView::ClearSelection,
            ExplorerKey::ToggleHidden => ExplorerKeyView::ToggleHidden,
            ExplorerKey::Refresh => ExplorerKeyView::Refresh,
            ExplorerKey::AddSelected => ExplorerKeyView::AddSelected,
            ExplorerKey::Nothing => ExplorerKeyView::Nothing,
        }
    }
}

/// `s` without its last character (empty stays empty).
pub open spec fn without_last(s: Seq<char>) -> Seq<char> {
    if s.len() == 0 {
        s
    } else {
        s.drop_last()
    }
}

/// The character a key types: a plain or shifted character key.
pub open spec fn typed_char(k: KeyEvent) -> Option<char> {
    match k.code {
        KeyCode::Char(c) => if k.modifiers.bits == 0 || k.modifiers.bits == 1 {
            Some(c)
        } else {
            None
        },
        _ => None,
    }
}

/// The highlighted entry of the explorer, if the cursor is on one.
pub open spec fn highlighted(s: FileExplorerView) -> Option<FileEntryView> {
    if 0 <= s.effective_cursor() < s.entries.len() {
        Some(s.entries[s.effective_cursor()])
    } else {
        None
    }
}

/// What Enter does on an entry: enter a directory, open a file, follow a
/// link.
pub open spec fn activate(e: FileEntryView) -> ExplorerKeyView {
    match e.entry_type {
        EntryTypeView::Directory => ExplorerKeyView::EnterDirectory(e.path),
        EntryTypeView::ParentDir => ExplorerKeyView::EnterDirectory(e.path),
        EntryTypeView::File { .. } => ExplorerKeyView::OpenFile(e.path),
        EntryTypeView::Symlink { target } => ExplorerKeyView::FollowLink(target),
    }
}

/// The file explorer's answer to an event. While searching, Escape and
/// Enter leave search mode, Backspace drops the last character of the
/// query and a typed character extends it. While browsing, Escape closes;
/// Enter activates the highlighted entry; the arrows and page keys move
/// (twenty rows a page); Left and Backspace go to the parent, Right
/// enters a highlighted directory; Space toggles the selection; `/`
/// searches; `e` opens a highlighted file; `a`, `n`, `.`, `r` and `i`
/// select all, clear the selection, toggle hidden files, refresh and add
/// the selection to the working set.
pub open spec fn explorer_key_spec(s: FileExplorerView, e: Event) -> ExplorerKeyView {
    match e {
        Event::Key(k) => if s.mode == FileExplorerMode::Search {
            if is_escape_spec(k) || is_enter_spec(k) {
                ExplorerKeyView::ExitSearch
            } else if is_backspace_spec(k) {
                ExplorerKeyView::SetQuery(without_last(s.search_query))
            } else {
                match typed_char(k) {
                    Some(c) => ExplorerKeyView::SetQuery(s.search_query.push(c)),
                    None => ExplorerKeyView::Nothing,
                }
            }
        } else if is_escape_spec(k) {
            ExplorerKeyView::Close
        } else if is_enter_spec(k) {
            match highlighted(s) {
                Some(en) => activate(en),
                None => ExplorerKeyView::Nothing,
            }
        } else {
            match k.code {
                KeyCode::Up => ExplorerKeyView::Up,
                KeyCode::Down => ExplorerKeyView::Down,
                KeyCode::PageUp => ExplorerKeyView::PageUp(20),
                KeyCode::PageDown => ExplorerKeyView::PageDown(20),
                KeyCode::Left => ExplorerKeyView::GoUp,
                KeyCode::Backspace => ExplorerKeyView::GoUp,
                KeyCode::Right => match highlighted(s) {
                    Some(en) => match en.entry_type {
                        EntryTypeView::Directory => ExplorerKeyView::EnterDirectory(en.path),
                        EntryTypeView::ParentDir => ExplorerKeyView::EnterDirectory(en.path),
                        _ => ExplorerKeyView::Nothing,
                    },
                    None => ExplorerKeyView::Nothing,
                },
                KeyCode::Char(' ') => ExplorerKeyView::ToggleSelection,
                KeyCode::Char('/') => ExplorerKeyView::StartSearch,
                KeyCode::Char('e') => match highlighted(s) {
                    Some(en) => match en.entry_type {
                        EntryTypeView::File { .. } => ExplorerKeyView::OpenFile(en.path),
                        _ => ExplorerKeyView::Nothing,
                    },
                    None => ExplorerKeyView::Nothing,
                },
                KeyCode::Char('a') => ExplorerKeyView::SelectAll,
                KeyCode::Char('n') => ExplorerKeyView::ClearSelection,
                KeyCode::Char('.') => ExplorerKeyView::ToggleHidden,
                KeyCode::Char('r') => ExplorerKeyView::Refresh,
                KeyCode::Char('i') => ExplorerKeyView::AddSelected,
                _ => ExplorerKeyView::Nothing,
            }
        },
        _ => ExplorerKeyView::Nothing,
    }
}

fn without_last_char(s: &str) -> (r: String)
    ensures
        r@ == without_last(s@),
{
    let v = to_chars(s);
    if v.len() == 0 {
        from_chars(&v)
    } else {
        from_char_range(&v, 0, v.len() - 1)
    }
}

fn with_char(s: &str, c: char) -> (r: String)
    ensures
        r@ == s@.push(c),
{
    let mut out = owned(s);
    string_push(&mut out, c);
    out
}

/// What an event does in the file explorer.
pub fn file_explorer_key(state: &FileExplorerState, event: &Event) -> (r: ExplorerKey)
    ensures
        r@ == explorer_key_spec(state@, *event),
{
    let k = match event {
        Event::Key(k) => *k,
        _ => return ExplorerKey::Nothing,
    };
    if state.mode == FileExplorerMode::Search {
        if event.is_escape() || event.is_enter() {
            return ExplorerKey::ExitSearch;
        }
        if event.is_backspace() {
            return ExplorerKey::SetQuery(without_last_char(state.search_query.as_str()));
        }
        return match event.char() {
            Some(c) => ExplorerKey::SetQuery(with_char(state.search_query.as_str(), c)),
            None => ExplorerKey::Nothing,
        };
    }
    if event.is_escape() {
        return ExplorerKey::Close;
    }
    if event.is_enter() {
        return match state.current_entry() {
            Some(en) => match &en.entry_type {
                EntryType::Directory | EntryType::ParentDir => ExplorerKey::EnterDirectory(
                    en.path.clone(),
                ),
                EntryType::File { .. } => ExplorerKey::OpenFile(en.path.clone()),
                EntryType::Symlink { target } => ExplorerKey::FollowLink(target.clone()),
            },
            None => ExplorerKey::Nothing,
        };
    }
    match k.code {
        KeyCode::Up => ExplorerKey::Up,
        KeyCode::Down => ExplorerKey::Down,
        KeyCode::PageUp => ExplorerKey::PageUp(20),
        KeyCode::PageDown => ExplorerKey::PageDown(20),
        KeyCode::Left | KeyCode::Backspace => ExplorerKey::GoUp,
        KeyCode::Right => match state.current_entry() {
            Some(en) => match &en.entry_type {
                EntryType::Directory | EntryType::ParentDir => ExplorerKey::EnterDirectory(
                    en.path.clone(),
                ),
                _ => ExplorerKey::Nothing,
            },
            None => ExplorerKey::Nothing,
        },
        KeyCode::Char(' ') => ExplorerKey::ToggleSelection,
        KeyCode::Char('/') => ExplorerKey::StartSearch,
        KeyCode::Char('e') => match state.current_entry() {
            Some(en) => match &en.entry_type {
                EntryType::File { .. } => ExplorerKey::OpenFile(en.path.clone()),
                _ => ExplorerKey::Nothing,
            },
            None => ExplorerKey::Nothing,
        },
        KeyCode::Char('a') => ExplorerKey::SelectAll,
        KeyCode::Char('n') => ExplorerKey::ClearSelection,
        KeyCode::Char('.') => ExplorerKey::ToggleHidden,
        KeyCode::Char('r') => ExplorerKey::Refresh,
        KeyCode::Char('i') => ExplorerKey::AddSelected,
        _ => ExplorerKey::Nothing,
    }
}

} // verus!

verus! {

// ---------------------------------------------------------------------------
// The git view
// ---------------------------------------------------------------------------

/// Whether the cursor is on an entry whose path no earlier entry has.
pub open spec fn cursor_first(list: Seq<GitFileEntry>, cursor: usize) -> bool {
    &&& cursor < list.len()
    &&& forall|k: int| 0 <= k < cursor ==> list[k].path@ != list[cursor as int].path@
}

/// Whether a key acts on the entry at `j`: it is selected, or it has the
/// path of the entry under the cursor and that path first occurs there.
pub open spec fn picked(list: Seq<GitFileEntry>, cursor: usize, j: int) -> bool {
    list[j].selected || (cursor_first(list, cursor) && list[j].path@ == list[cursor as int].path@)
}

/// The paths of the first `n` entries that a key acts on, in list order.
pub open spec fn picked_upto(list: Seq<GitFileEntry>, cursor: usize, n: nat) -> Seq<Seq<char>>
    decreases n,
{
    if n == 0 || n > list.len() {
        seq![]
    } else {
        picked_upto(list, cursor, (n - 1) as nat) + if picked(list, cursor, n - 1) {
            seq![list[n - 1].path@]
        } else {
            seq![]
        }
    }
}

/// The paths a key acts on: the selected entries together with the one
/// under the cursor, in list order.
pub open spec fn picked_paths(list: Seq<GitFileEntry>, cursor: usize) -> Seq<Seq<char>> {
    picked_upto(list, cursor, list.len())
}

fn cursor_is_first(list: &[GitFileEntry], cursor: usize) -> (r: bool)
    ensures
        r == cursor_first(list@, cursor),
{
    if cursor >= list.len() {
        return false;
    }
    let mut k: usize = 0;
    while k < cursor
        invariant
            k <= cursor < list@.len(),
            forall|j: int| 0 <= j < k ==> list@[j].path@ != list@[cursor as int].path@,
        decreases cursor - k,
    {
        if str_eq(list[k].path.as_str(), list[cursor].path.as_str()) {
            return false;
        }
        k = k + 1;
    }
    true
}

/// The paths a key acts on in `list`.
pub fn picked_of(list: &[GitFileEntry], cursor: usize) -> (r: Vec<String>)
    ensures
        strs_view(r@) == picked_paths(list@, cursor),
{
    let first = cursor_is_first(list, cursor);
    let mut out: Vec<String> = Vec::new();
    let mut j: usize = 0;
    while j < list.len()
        invariant
            j <= list@.len(),
            first == cursor_first(list@, cursor),
            strs_view(out@) == picked_upto(list@, cursor, j as nat),
        decreases list@.len() - j,
    {
        let hit = list[j].selected || (first && str_eq(
            list[j].path.as_str(),
            list[cursor].path.as_str(),
        ));
        assert(hit == picked(list@, cursor, j as int));
        let ghost before = out@;
        if hit {
            out.push(list[j].path.clone());
            assert(strs_view(out@) =~= strs_view(before) + seq![list@[j as int].path@]);
        } else {
            assert(strs_view(out@) =~= strs_view(before) + seq![]);
        }
        j = j + 1;
    }
    out
}

/// What an event does in the git view.
#[derive(Debug, Clone)]
pub enum GitKey {
    /// Leave commit-message entry, dropping the message
    CancelCommit,
    /// Commit with the message typed
    Commit,
    /// Drop the last character of the commit message
    DeleteChar,
    /// Add this character to the commit message
    TypeChar(char),
    /// Run the action waiting for confirmation
    Confirm,
    /// Drop the action waiting for confirmation: back to browsing, with
    /// the messages cleared
    Decline,
    /// Leave the git view
    Close,
    NextPanel,
    Up,
    Down,
    /// Move the cursor up by this many rows
    PageUp(usize),
    /// Move the cursor down by this many rows
    PageDown(usize),
    ToggleSelection,
    /// Stage these files
    Stage(Vec<String>),
    /// Unstage these files
    Unstage(Vec<String>),
    /// Ask before discarding the changes to these files
    AskDiscard(Vec<String>),
    /// Start typing a commit message
    StartCommit,
    /// Tell the user that nothing is staged
    NothingStaged,
    Push,
    Pull,
    Fetch,
    Refresh,
    Nothing,
}

/// The abstract value of a [`GitKey`].
pub enum GitKeyView {
    CancelCommit,
    Commit,
    DeleteChar,
    TypeChar(char),
    Confirm,
    Decline,
    Close,
    NextPanel,
    Up,
    Down,
    PageUp(usize),
    PageDown(usize),
    ToggleSelection,
    Stage(Seq<Seq<char>>),
    Unstage(Seq<Seq<char>>),
    AskDiscard(Seq<Seq<char>>),
    StartCommit,
    NothingStaged,
    Push,
    Pull,
    Fetch,
    Refresh,
    Nothing,
}

impl View for GitKey {
    type V = GitKeyView;

    open spec fn view(&self) -> GitKeyView {
        match self {
            GitKey::CancelCommit => GitKeyView::CancelCommit,
            GitKey::Commit => GitKeyView::Commit,
            GitKey::DeleteChar => GitKeyView::DeleteChar,
            GitKey::TypeChar(c) => GitKeyView::TypeChar(*c),
            GitKey::Confirm => GitKeyView::Confirm,
            GitKey::Decline => GitKeyView::Decline,
            GitKey::Close => GitKeyView::Close,
            GitKey::NextPanel => GitKeyView::NextPanel,
            GitKey::Up => GitKeyView::Up,
            GitKey::Down => GitKeyView::Down,
            GitKey::PageUp(n) => GitKeyView::PageUp(*n),
            GitKey::PageDown(n) => GitKeyView::PageDown(*n),
            GitKey::ToggleSelection => GitKeyView::ToggleSelection,
            GitKey::Stage(v) => GitKeyView::Stage(strs_view(v@)),
            GitKey::Unstage(v) => GitKeyView::Unstage(strs_view(v@)),
            GitKey::AskDiscard(v) => GitKeyView::AskDiscard(strs_view(v@)),
            GitKey::StartCommit => GitKeyView::StartCommit,
            GitKey::NothingStaged => GitKeyView::NothingStaged,
            GitKey::Push => GitKeyView::Push,
            GitKey::Pull => GitKeyView::Pull,
            GitKey::Fetch => GitKeyView::Fetch,
            GitKey::Refresh => GitKeyView::Refresh,
            GitKey::Nothing => GitKeyView::Nothing,
        }
    }
}

/// Enter or `s`: stage the picked files of the changes or untracked
/// panel, when there are any.
pub open spec fn stage_answer(s: GitScmState) -> GitKeyView {
    let files = picked_paths(s.current(), s.cursor_index);
    if s.current_panel != ScmPanel::Staged && files.len() > 0 {
        GitKeyView::Stage(files)
    } else {
        GitKeyView::Nothing
    }
}

/// `u`: unstage the picked files of the staged panel, when there are any.
pub open spec fn unstage_answer(s: GitScmState) -> GitKeyView {
    let files = picked_paths(s.staged_files@, s.cursor_index);
    if s.current_panel == ScmPanel::Staged && files.len() > 0 {
        GitKeyView::Unstage(files)
    } else {
        GitKeyView::Nothing
    }
}

/// `d`: ask before discarding the picked files of the changes panel,
/// when there are any.
pub open spec fn discard_answer(s: GitScmState) -> GitKeyView {
    let files = picked_paths(s.changed_files@, s.cursor_index);
    if s.current_panel == ScmPanel::Changes && files.len() > 0 {
        GitKeyView::AskDiscard(files)
    } else {
        GitKeyView::Nothing
    }
}

/// The git view's answer to an event. While a commit message is typed,
/// Escape cancels, Enter commits a message that is not empty, Backspace
/// and typed characters edit it. While an action waits for confirmation,
/// `y` runs it and `n` or Escape drops it. While browsing, Escape closes,
/// Tab moves to the next panel, the arrows and page keys move (ten rows a
/// page), Space toggles the selection, Enter or `s` stages, `u` unstages,
/// `d` asks before discarding, `c` starts a commit when something is
/// staged, and `P`, `p`, `f`, `r` push, pull, fetch and refresh.
pub open spec fn git_key_spec(s: GitScmState, e: Event) -> GitKeyView {
    match e {
        Event::Key(k) => match s.mode {
            GitOperationMode::CommitMessage => if is_escape_spec(k) {
                GitKeyView::CancelCommit
            } else if is_enter_spec(k) {
                if s.commit_message@.len() > 0 {
                    GitKeyView::Commit
                } else {
                    GitKeyView::Nothing
                }
            } else if is_backspace_spec(k) {
                GitKeyView::DeleteChar
            } else {
                match typed_char(k) {
                    Some(c) => GitKeyView::TypeChar(c),
                    None => GitKeyView::Nothing,
                }
            },
            GitOperationMode::Confirm { .. } => match k.code {
                KeyCode::Char('y') => GitKeyView::Confirm,
                KeyCode::Char('Y') => GitKeyView::Confirm,
                KeyCode::Char('n') => GitKeyView::Decline,
                KeyCode::Char('N') => GitKeyView::Decline,
                KeyCode::Esc => GitKeyView::Decline,
                _ => GitKeyView::Nothing,
            },
            GitOperationMode::Browse => if is_escape_spec(k) {
                GitKeyView::Close
            } else if is_tab_spec(k) {
                GitKeyView::NextPanel
            } else {
                match k.code {
                    KeyCode::Up => GitKeyView::Up,
                    KeyCode::Down => GitKeyView::Down,
                    KeyCode::PageUp => GitKeyView::PageUp(10),
                    KeyCode::PageDown => GitKeyView::PageDown(10),
                    KeyCode::Char(' ') => GitKeyView::ToggleSelection,
                    KeyCode::Enter => stage_answer(s),
                    KeyCode::Char('s') => stage_answer(s),
                    KeyCode::Char('u') => unstage_answer(s),
                    KeyCode::Char('d') => discard_answer(s),
                    KeyCode::Char('c') => if s.staged_files@.len() > 0 {
                        GitKeyView::StartCommit
                    } else {
                        GitKeyView::NothingStaged
                    },
                    KeyCode::Char('P') => GitKeyView::Push,
                    KeyCode::Char('p') => GitKeyView::Pull,
                    KeyCode::Char('f') => GitKeyView::Fetch,
                    KeyCode::Char('r') => GitKeyView::Refresh,
                    _ => GitKeyView::Nothing,
                }
            },
        },
        _ => GitKeyView::Nothing,
    }
}

fn stage_key(state: &GitScmState) -> (r: GitKey)
    ensures
        r@ == stage_answer(*state),
{
    if state.current_panel == ScmPanel::Staged {
        return GitKey::Nothing;
    }
    let files = picked_of(state.current_list(), state.cursor_index);
    if files.len() > 0 {
        GitKey::Stage(files)
    } else {
        GitKey::Nothing
    }
}

/// What an event does in the git view.
pub fn git_scm_key(state: &GitScmState, event: &Event) -> (r: GitKey)
    ensures
        r@ == git_key_spec(*state, *event),
{
    let k = match event {
        Event::Key(k) => *k,
        _ => return GitKey::Nothing,
    };
    match &state.mode {
        GitOperationMode::CommitMessage => {
            if event.is_escape() {
                GitKey::CancelCommit
            } else if event.is_enter() {
                if !state.commit_message.as_str().is_empty() {
                    GitKey::Commit
                } else {
                    GitKey::Nothing
                }
            } else if event.is_backspace() {
                GitKey::DeleteChar
            } else {
                match event.char() {
                    Some(c) => GitKey::TypeChar(c),
                    None => GitKey::Nothing,
                }
            }
        },
        GitOperationMode::Confirm { .. } => match k.code {
            KeyCode::Char('y') | KeyCode::Char('Y') => GitKey::Confirm,
            KeyCode::Char('n') | KeyCode::Char('N') | KeyCode::Esc => GitKey::Decline,
            _ => GitKey::Nothing,
        },
        GitOperationMode::Browse => {
            if event.is_escape() {
                return GitKey::Close;
            }
            if event.is_tab() {
                return GitKey::NextPanel;
            }
            match k.code {
                KeyCode::Up => GitKey::Up,
                KeyCode::Down => GitKey::Down,
                KeyCode::PageUp => GitKey::PageUp(10),
                KeyCode::PageDown => GitKey::PageDown(10),
                KeyCode::Char(' ') => GitKey::ToggleSelection,
                KeyCode::Enter | KeyCode::Char('s') => stage_key(state),
                KeyCode::Char('u') => {
                    if state.current_panel != ScmPanel::Staged {
                        return GitKey::Nothing;
                    }
                    let files = picked_of(state.staged_files.as_slice(), state.cursor_index);
                    if files.len() > 0 {
                        GitKey::Unstage(files)
                    } else {
                        GitKey::Nothing
                    }
                },
                KeyCode::Char('d') => {
                    if state.current_panel != ScmPanel::Changes {
                        return GitKey::Nothing;
                    }
                    let files = picked_of(state.changed_files.as_slice(), state.cursor_index);
                    if files.len() > 0 {
                        GitKey::AskDiscard(files)
                    } else {
                        GitKey::Nothing
                    }
                },
                KeyCode::Char('c') => if state.staged_files.len() > 0 {
                    GitKey::StartCommit
                } else {
                    GitKey::NothingStaged
                },
                KeyCode::Char('P') => GitKey::Push,
                KeyCode::Char('p') => GitKey::Pull,
                KeyCode::Char('f') => GitKey::Fetch,
                KeyCode::Char('r') => GitKey::Refresh,
                _ => GitKey::Nothing,
            }
        },
    }
}

} // verus!

verus! {

// ---------------------------------------------------------------------------
// Answering clarifying questions
// ---------------------------------------------------------------------------

/// The state of the question view that events depend on.
#[derive(Debug, Clone, Copy, PartialEq, Eq, Structural)]
pub struct QuestionView {
    /// Whether questions are waiting for answers
    pub has_questions: bool,
    /// Whether the text of the "Other" answer is being typed
    pub editing_other: bool,
    /// Whether the cursor is on the "Other" answer
    pub cursor_on_other: bool,
    /// Whether the current question is the last
    pub on_last_question: bool,
}

/// What an event does while questions are shown.
#[derive(Debug, Clone, Copy, PartialEq, Eq, Structural)]
pub enum QuestionKey {
    /// No questions: back to the normal screen
    Leave,
    /// Skip every question: send the declined message and go on
    Decline,
    /// Send the answers and go on
    SubmitAnswers,
    /// Toggle the answer under the cursor, then go to the next question
    ToggleAndNext,
    /// Stop typing "Other" and go to the next question
    FinishOtherAndNext,
    /// Select "Other" and start typing its text
    StartOther,
    NextQuestion,
    /// Stop typing "Other" and go to the previous question
    PrevQuestion,
    /// Add a character to the "Other" text
    OtherChar(char),
    /// Drop the last character of the "Other" text
    OtherBackspace,
    CursorUp,
    CursorDown,
    /// Toggle the answer under the cursor; when that selects "Other", start
    /// typing its text
    ToggleCurrent,
    /// Select "Other", start typing its text with this character
    TypeIntoOther(char),
    Nothing,
}

/// The question view's answer to an event: Escape declines; Enter sends
/// the answers on the last question, else toggles and moves on; Tab moves
/// on (finishing or starting the "Other" text); Shift+Tab moves back;
/// while "Other" is typed, characters and Backspace edit it; otherwise the
/// arrows move the cursor, Space toggles, and a character on "Other"
/// starts its text.
pub open spec fn question_key_spec(v: QuestionView, e: Event) -> QuestionKey {
    if !v.has_questions {
        QuestionKey::Leave
    } else {
        match e {
            Event::Key(k) => if is_escape_spec(k) {
                QuestionKey::Decline
            } else if is_enter_spec(k) {
                if v.on_last_question {
                    QuestionKey::SubmitAnswers
                } else {
                    QuestionKey::ToggleAndNext
                }
            } else if is_tab_spec(k) {
                if v.editing_other {
                    QuestionKey::FinishOtherAndNext
                } else if v.cursor_on_other {
                    QuestionKey::StartOther
                } else {
                    QuestionKey::NextQuestion
                }
            } else if is_shift_tab_spec(k) {
                QuestionKey::PrevQuestion
            } else if v.editing_other {
                match k.code {
                    KeyCode::Char(c) => QuestionKey::OtherChar(c),
                    KeyCode::Backspace => QuestionKey::OtherBackspace,
                    _ => QuestionKey::Nothing,
                }
            } else {
                match k.code {
                    KeyCode::Up => QuestionKey::CursorUp,
                    KeyCode::Down => QuestionKey::CursorDown,
                    KeyCode::Char(' ') => QuestionKey::ToggleCurrent,
                    KeyCode::Char(c) => if v.cursor_on_other {
                        QuestionKey::TypeIntoOther(c)
                    } else {
                        QuestionKey::Nothing
                    },
                    _ => QuestionKey::Nothing,
                }
            },
            _ => QuestionKey::Nothing,
        }
    }
}

/// What an event does while questions are shown.
pub fn question_key(v: &QuestionView, event: &Event) -> (r: QuestionKey)
    ensures
        r == question_key_spec(*v, *event),
{
    if !v.has_questions {
        return QuestionKey::Leave;
    }
    let k = match event {
        Event::Key(k) => *k,
        _ => return QuestionKey::Nothing,
    };
    if event.is_escape() {
        return QuestionKey::Decline;
    }
    if event.is_enter() {
        return if v.on_last_question {
            QuestionKey::SubmitAnswers
        } else {
            QuestionKey::ToggleAndNext
        };
    }
    if event.is_tab() {
        return if v.editing_other {
            QuestionKey::FinishOtherAndNext
        } else if v.cursor_on_other {
            QuestionKey::StartOther
        } else {
            QuestionKey::NextQuestion
        };
    }
    if event.is_shift_tab() {
        return QuestionKey::PrevQuestion;
    }
    if v.editing_other {
        return match k.code {
            KeyCode::Char(c) => QuestionKey::OtherChar(c),
            KeyCode::Backspace => QuestionKey::OtherBackspace,
            _ => QuestionKey::Nothing,
        };
    }
    match k.code {
        KeyCode::Up => QuestionKey::CursorUp,
        KeyCode::Down => QuestionKey::CursorDown,
        KeyCode::Char(' ') => QuestionKey::ToggleCurrent,
        KeyCode::Char(c) => if v.cursor_on_other {
            QuestionKey::TypeIntoOther(c)
        } else {
            QuestionKey::Nothing
        },
        _ => QuestionKey::Nothing,
    }
}

} // verus!

verus! {

// ---------------------------------------------------------------------------
// The exit dialog
// ---------------------------------------------------------------------------

/// The elements of the exit dialog that can have the focus.
#[derive(Debug, Clone, Copy, PartialEq, Eq, Structural)]
pub enum ExitFocus {
    ExitButton,
    BackgroundButton,
    PreserveChatCheckbox,
    ExitWhenDoneCheckbox,
}

impl ExitFocus {
    /// The action of a focused button; none for a checkbox.
    pub open spec fn action_spec(self) -> Option<ExitAction> {
        match self {
            ExitFocus::ExitButton => Some(ExitAction::Exit),
            ExitFocus::BackgroundButton => Some(ExitAction::Background),
            _ => None,
        }
    }
}

/// What an event does in the exit dialog.
#[derive(Debug, Clone, Copy, PartialEq, Eq, Structural)]
pub enum ExitKey {
    /// Ctrl+Z: switch to the suspend dialog, keeping the chat setting
    ToSuspendDialog,
    /// A click on this element: focus it, then toggle the checkbox or run
    /// the button's action
    Click(ExitFocus),
    Close,
    FocusNext,
    FocusPrev,
    Execute(ExitAction),
    TogglePreserveChat,
    ToggleExitWhenDone,
    Nothing,
}

/// The exit dialog's answer to an event: Ctrl+Z switches to the suspend
/// dialog; a left click on an element acts on it; Escape closes; Tab,
/// Shift+Tab and the side arrows move the focus; `e` exits and `b` goes to
/// the background at once; Space toggles a focused checkbox; Enter runs a
/// focused button.
pub open spec fn exit_key_spec(focus: ExitFocus, clicked: Option<ExitFocus>, e: Event) -> ExitKey {
    match e {
        Event::Key(k) => if is_suspend_spec(k) {
            ExitKey::ToSuspendDialog
        } else if is_escape_spec(k) {
            ExitKey::Close
        } else if is_tab_spec(k) {
            ExitKey::FocusNext
        } else if is_shift_tab_spec(k) {
            ExitKey::FocusPrev
        } else {
            match k.code {
                KeyCode::Left => ExitKey::FocusPrev,
                KeyCode::Right => ExitKey::FocusNext,
                KeyCode::Char('e') => ExitKey::Execute(ExitAction::Exit),
                KeyCode::Char('E') => ExitKey::Execute(ExitAction::Exit),
                KeyCode::Char('b') => ExitKey::Execute(ExitAction::Background),
                KeyCode::Char('B') => ExitKey::Execute(ExitAction::Background),
                KeyCode::Char(' ') if focus == ExitFocus::PreserveChatCheckbox => ExitKey::TogglePreserveChat,
                KeyCode::Char(' ') if focus == ExitFocus::ExitWhenDoneCheckbox => ExitKey::ToggleExitWhenDone,
                _ => if is_enter_spec(k) && focus.action_spec() is Some {
                    ExitKey::Execute(focus.action_spec()->0)
                } else {
                    ExitKey::Nothing
                },
            }
        },
        Event::Mouse(m) => if m.kind == MouseEventKind::Down(MouseButton::Left) {
            match clicked {
                Some(f) => ExitKey::Click(f),
                None => ExitKey::Nothing,
            }
        } else {
            ExitKey::Nothing
        },
        _ => ExitKey::Nothing,
    }
}

/// What an event does in the exit dialog, given the focused element and
/// the element under a click, if any.
pub fn exit_dialog_key(focus: ExitFocus, clicked: Option<ExitFocus>, event: &Event) -> (r: ExitKey)
    ensures
        r == exit_key_spec(focus, clicked, *event),
{
    if event.is_suspend() {
        return ExitKey::ToSuspendDialog;
    }
    if let Some(_) = event.mouse_click() {
        return match clicked {
            Some(f) => ExitKey::Click(f),
            None => ExitKey::Nothing,
        };
    }
    if event.is_escape() {
        return ExitKey::Close;
    }
    if event.is_tab() {
        return ExitKey::FocusNext;
    }
    if event.is_shift_tab() {
        return ExitKey::FocusPrev;
    }
    match event {
        Event::Key(k) => match k.code {
            KeyCode::Left => return ExitKey::FocusPrev,
            KeyCode::Right => return ExitKey::FocusNext,
            KeyCode::Char('e') | KeyCode::Char('E') => return ExitKey::Execute(ExitAction::Exit),
            KeyCode::Char('b') | KeyCode::Char('B') => return ExitKey::Execute(ExitAction::Background),
            KeyCode::Char(' ') => {
                if focus == ExitFocus::PreserveChatCheckbox {
                    return ExitKey::TogglePreserveChat;
                }
                if focus == ExitFocus::ExitWhenDoneCheckbox {
                    return ExitKey::ToggleExitWhenDone;
                }
            },
            _ => {},
        },
        _ => {},
    }
    if event.is_enter() {
        match focus {
            ExitFocus::ExitButton => return ExitKey::Execute(ExitAction::Exit),
            ExitFocus::BackgroundButton => return ExitKey::Execute(ExitAction::Background),
            _ => {},
        }
    }
    ExitKey::Nothing
}

} // verus!
