//! The smaller views: the console log, the shell-command viewer, the
//! reverse history search and the session picker, with the short notices
//! ("toasts") the views show after copying, toggling the mouse or running
//! a git action.
use vstd::prelude::*;
use crate::app::TuiMessage;
use crate::events::{
    is_backspace_spec, is_copy_spec, is_down_spec, is_enter_spec, is_escape_spec, is_page_down_spec,
    is_page_up_spec, is_toggle_mouse_spec, is_up_spec, key_of, Event, KeyCode, MouseEventKind,
};
use crate::key_actions::{typed_char, GitKey};
use crate::text::{join, join_strings, push_str, strs_view, to_uppercase, uppercase, usize_to_string, decimal};

verus! {

broadcast use vstd::string::group_string_axioms;

/// A notice shown for a while over the interface.
#[derive(Debug, Clone, PartialEq, Eq)]
pub struct Toast {
    pub message: String,
    /// How long it stays, in milliseconds
    pub duration_ms: u64,
}

// ---------------------------------------------------------------------------
// Notices
// ---------------------------------------------------------------------------

/// The notice after the mouse was turned off (for selecting text in the
/// terminal) or back on.
pub fn mouse_toggle_toast(disabled_now: bool) -> (r: Toast)
    ensures
        disabled_now ==> r.message@ == "Mouse disabled - select text with terminal"@ && r.duration_ms == 2000,
        !disabled_now ==> r.message@ == "Mouse enabled"@ && r.duration_ms == 1500,
{
    if disabled_now {
        Toast { message: "Mouse disabled - select text with terminal".to_string(), duration_ms: 2000 }
    } else {
        Toast { message: "Mouse enabled".to_string(), duration_ms: 1500 }
    }
}

/// What copying to the system clipboard gave.
#[derive(Debug, Clone, PartialEq, Eq)]
pub enum ClipboardOutcome {
    Success,
    Error(String),
    NotAvailable,
}

/// The notice after a copy of `count` items (`what`, such as `lines`).
pub open spec fn copy_toast_spec(outcome: ClipboardOutcome, count: nat, what: Seq<char>) -> (Seq<char>, u64) {
    match outcome {
        ClipboardOutcome::Success => ("Copied "@ + decimal(count) + " "@ + what + " to clipboard"@, 2000),
        ClipboardOutcome::Error(e) => ("Failed to copy: "@ + e@, 3000),
        ClipboardOutcome::NotAvailable => ("Clipboard not available"@, 3000),
    }
}

fn copy_toast(outcome: &ClipboardOutcome, count: usize, what: &str) -> (r: Toast)
    ensures
        (r.message@, r.duration_ms) == copy_toast_spec(*outcome, count as nat, what@),
{
    match outcome {
        ClipboardOutcome::Success => {
            let mut m = "Copied ".to_string();
            let n = usize_to_string(count);
            push_str(&mut m, n.as_str());
            push_str(&mut m, " ");
            push_str(&mut m, what);
            push_str(&mut m, " to clipboard");
            Toast { message: m, duration_ms: 2000 }
        },
        ClipboardOutcome::Error(e) => {
            let mut m = "Failed to copy: ".to_string();
            push_str(&mut m, e.as_str());
            Toast { message: m, duration_ms: 3000 }
        },
        ClipboardOutcome::NotAvailable => Toast { message: "Clipboard not available".to_string(), duration_ms: 3000 },
    }
}

/// The notice after copying the console's `lines` lines.
pub fn console_copy_toast(outcome: &ClipboardOutcome, lines: usize) -> (r: Toast)
    ensures
        (r.message@, r.duration_ms) == copy_toast_spec(*outcome, lines as nat, "lines"@),
{
    copy_toast(outcome, lines, "lines")
}

/// The notice after copying the conversation's `messages` messages.
pub fn conversation_copy_toast(outcome: &ClipboardOutcome, messages: usize) -> (r: Toast)
    ensures
        (r.message@, r.duration_ms) == copy_toast_spec(*outcome, messages as nat, "messages"@),
{
    copy_toast(outcome, messages, "messages")
}

/// One message as copied: its role in capitals in brackets, then its text.
pub open spec fn copied_message(m: TuiMessage) -> Seq<char> {
    "["@ + uppercase(m.role@) + "] "@ + m.content@
}

/// The conversation as copied to the clipboard: the messages in order,
/// separated by blank lines.
pub fn conversation_clipboard_text(messages: &[TuiMessage]) -> (r: String)
    ensures
        r@ == join(messages@.map_values(|m: TuiMessage| copied_message(m)), "\n\n"@),
{
    let mut parts: Vec<String> = Vec::new();
    let mut i: usize = 0;
    while i < messages.len()
        invariant
            i <= messages@.len(),
            strs_view(parts@) == messages@.take(i as int).map_values(|m: TuiMessage| copied_message(m)),
        decreases messages@.len() - i,
    {
        let m = &messages[i];
        let mut s = "[".to_string();
        let role = to_uppercase(m.role.as_str());
        push_str(&mut s, role.as_str());
        push_str(&mut s, "] ");
        push_str(&mut s, m.content.as_str());
        let ghost before = strs_view(parts@);
        parts.push(s);
        assert(strs_view(parts@) =~= before.push(copied_message(messages@[i as int])));
        assert(messages@.take(i + 1).map_values(|m: TuiMessage| copied_message(m))
            =~= messages@.take(i as int).map_values(|m: TuiMessage| copied_message(m)).push(
            copied_message(messages@[i as int]),
        ));
        i = i + 1;
    }
    assert(messages@.take(messages@.len() as int) =~= messages@);
    join_strings(parts.as_slice(), "\n\n")
}

/// The notice when the git view cannot be opened.
pub fn git_unavailable_toast(error: &str) -> (r: Toast)
    ensures
        r.message@ == "Git not available: "@ + error@,
        r.duration_ms == 3000,
{
    let mut m = "Git not available: ".to_string();
    push_str(&mut m, error);
    Toast { message: m, duration_ms: 3000 }
}

/// The notice for a git action: a success or failure note for the actions
/// that run git (the failure carries the error of running it), a note
/// when a commit is asked for with nothing staged, none for the rest.
pub open spec fn git_toast_spec(key: GitKey, result: Result<(), String>) -> Option<(Seq<char>, u64)> {
    let fail = |prefix: Seq<char>| match result {
        Err(e) => Some((prefix + e@, 3000u64)),
        Ok(_) => None,
    };
    match key {
        GitKey::Commit => if result is Ok { Some(("Changes committed"@, 2000u64)) } else { fail("Commit failed: "@) },
        GitKey::Confirm => if result is Ok { Some(("Action completed"@, 2000u64)) } else { fail("Action failed: "@) },
        GitKey::Stage(files) => if result is Ok {
            Some(("Staged "@ + decimal(files@.len()) + " file(s)"@, 1500u64))
        } else {
            fail("Stage failed: "@)
        },
        GitKey::Unstage(files) => if result is Ok {
            Some(("Unstaged "@ + decimal(files@.len()) + " file(s)"@, 1500u64))
        } else {
            fail("Unstage failed: "@)
        },
        GitKey::NothingStaged => Some(("No files staged for commit"@, 2000u64)),
        GitKey::Push => if result is Ok { Some(("Pushed to remote"@, 2000u64)) } else { fail("Push failed: "@) },
        GitKey::Pull => if result is Ok { Some(("Pulled from remote"@, 2000u64)) } else { fail("Pull failed: "@) },
        GitKey::Fetch => if result is Ok { Some(("Fetched from remote"@, 2000u64)) } else { fail("Fetch failed: "@) },
        GitKey::Refresh => fail("Refresh failed: "@),
        _ => None,
    }
}

fn prefixed(prefix: &str, e: &String) -> (r: Toast)
    ensures
        r.message@ == prefix@ + e@,
        r.duration_ms == 3000,
{
    let mut m = prefix.to_string();
    push_str(&mut m, e.as_str());
    Toast { message: m, duration_ms: 3000 }
}

fn count_toast(prefix: &str, n: usize) -> (r: Toast)
    ensures
        r.message@ == prefix@ + decimal(n as nat) + " file(s)"@,
        r.duration_ms == 1500,
{
    let mut m = prefix.to_string();
    let d = usize_to_string(n);
    push_str(&mut m, d.as_str());
    push_str(&mut m, " file(s)");
    Toast { message: m, duration_ms: 1500 }
}

fn fixed(message: &str, duration_ms: u64) -> (r: Toast)
    ensures
        r.message@ == message@,
        r.duration_ms == duration_ms,
{
    Toast { message: message.to_string(), duration_ms }
}

/// The notice for a git action, given what running it gave.
pub fn git_toast(key: &GitKey, result: &Result<(), String>) -> (r: Option<Toast>)
    ensures
        match r {
            Some(t) => git_toast_spec(*key, *result) == Some((t.message@, t.duration_ms)),
            None => git_toast_spec(*key, *result) is None,
        },
{
    match (key, result) {
        (GitKey::Commit, Ok(_)) => Some(fixed("Changes committed", 2000)),
        (GitKey::Commit, Err(e)) => Some(prefixed("Commit failed: ", e)),
        (GitKey::Confirm, Ok(_)) => Some(fixed("Action completed", 2000)),
        (GitKey::Confirm, Err(e)) => Some(prefixed("Action failed: ", e)),
        (GitKey::Stage(files), Ok(_)) => Some(count_toast("Staged ", files.len())),
        (GitKey::Stage(_), Err(e)) => Some(prefixed("Stage failed: ", e)),
        (GitKey::Unstage(files), Ok(_)) => Some(count_toast("Unstaged ", files.len())),
        (GitKey::Unstage(_), Err(e)) => Some(prefixed("Unstage failed: ", e)),
        (GitKey::NothingStaged, _) => Some(fixed("No files staged for commit", 2000)),
        (GitKey::Push, Ok(_)) => Some(fixed("Pushed to remote", 2000)),
        (GitKey::Push, Err(e)) => Some(prefixed("Push failed: ", e)),
        (GitKey::Pull, Ok(_)) => Some(fixed("Pulled from remote", 2000)),
        (GitKey::Pull, Err(e)) => Some(prefixed("Pull failed: ", e)),
        (GitKey::Fetch, Ok(_)) => Some(fixed("Fetched from remote", 2000)),
        (GitKey::Fetch, Err(e)) => Some(prefixed("Fetch failed: ", e)),
        (GitKey::Refresh, Err(e)) => Some(prefixed("Refresh failed: ", e)),
        _ => None,
    }
}

/// The notice after a hotkey was picked in the hotkey dialog: its keys,
/// what it does and where, as `keys: action [context]`.
pub fn hotkey_selected_toast(key_combination: &str, action: &str, context: &str) -> (r: Toast)
    ensures
        r.message@ == key_combination@ + ": "@ + action@ + " ["@ + context@ + "]"@,
        r.duration_ms == 3000,
{
    let mut m = key_combination.to_string();
    push_str(&mut m, ": ");
    push_str(&mut m, action);
    push_str(&mut m, " [");
    push_str(&mut m, context);
    push_str(&mut m, "]");
    Toast { message: m, duration_ms: 3000 }
}

// ---------------------------------------------------------------------------
// The console log
// ---------------------------------------------------------------------------

/// Rows of the console assumed visible when scrolling down.
pub const CONSOLE_VISIBLE_ROWS: usize = 20;

/// What an event does in the console view.
#[derive(Debug, Clone, Copy, PartialEq, Eq, Structural)]
pub enum ConsoleKey {
    /// Scroll up by this many lines
    ScrollUp(usize),
    /// Scroll down by this many lines (with [`CONSOLE_VISIBLE_ROWS`] rows shown)
    ScrollDown(usize),
    /// Leave the console, turning the mouse back on
    Close,
    /// Copy the console to the clipboard
    Copy,
    /// Turn the mouse off or on
    ToggleMouse,
    Nothing,
}

/// The mouse wheel scrolls three lines; Escape closes; `c` copies; `m`
/// toggles the mouse; the page keys scroll ten lines.
pub open spec fn console_key_spec(e: Event) -> ConsoleKey {
    match e {
        Event::Mouse(m) => if m.kind == MouseEventKind::ScrollUp {
            ConsoleKey::ScrollUp(3)
        } else if m.kind == MouseEventKind::ScrollDown {
            ConsoleKey::ScrollDown(3)
        } else {
            ConsoleKey::Nothing
        },
        Event::Key(k) => if is_escape_spec(k) {
            ConsoleKey::Close
        } else if is_copy_spec(k) {
            ConsoleKey::Copy
        } else if is_toggle_mouse_spec(k) {
            ConsoleKey::ToggleMouse
        } else if is_page_up_spec(k) {
            ConsoleKey::ScrollUp(10)
        } else if is_page_down_spec(k) {
            ConsoleKey::ScrollDown(10)
        } else {
            ConsoleKey::Nothing
        },
        _ => ConsoleKey::Nothing,
    }
}

/// What an event does in the console view.
pub fn console_key(event: &Event) -> (r: ConsoleKey)
    ensures
        r == console_key_spec(*event),
{
    if event.mouse_scroll_up().is_some() {
        ConsoleKey::ScrollUp(3)
    } else if event.mouse_scroll_down().is_some() {
        ConsoleKey::ScrollDown(3)
    } else if event.is_escape() {
        ConsoleKey::Close
    } else if event.is_copy() {
        ConsoleKey::Copy
    } else if event.is_toggle_mouse() {
        ConsoleKey::ToggleMouse
    } else if event.is_page_up() {
        ConsoleKey::ScrollUp(10)
    } else if event.is_page_down() {
        ConsoleKey::ScrollDown(10)
    } else {
        ConsoleKey::Nothing
    }
}

// ---------------------------------------------------------------------------
// The shell-command viewer
// ---------------------------------------------------------------------------

/// The shell viewer's position: the command shown and the scroll of its
/// output.
#[derive(Debug, Clone, Copy, PartialEq, Eq, Structural)]
pub struct ShellViewer {
    pub selected: usize,
    pub scroll: u16,
}

/// What an event does in the shell viewer.
#[derive(Debug, Clone, Copy, PartialEq, Eq, Structural)]
pub enum ShellViewerKey {
    Close,
    /// Show this command and scroll
    Show(ShellViewer),
    Nothing,
}

pub open spec fn sat_sub16(a: u16, b: u16) -> u16 {
    if a >= b { (a - b) as u16 } else { 0 }
}

pub open spec fn sat_add16(a: u16, b: u16) -> u16 {
    if a + b <= u16::MAX { (a + b) as u16 } else { u16::MAX }
}

/// The wheel scrolls the output three lines; Escape closes; Up and Down
/// pick the previous or next command (within the `count` run) and show
/// its output from the top; the page keys scroll ten lines.
pub open spec fn shell_viewer_spec(v: ShellViewer, count: usize, e: Event) -> ShellViewerKey {
    match e {
        Event::Mouse(m) => if m.kind == MouseEventKind::ScrollUp {
            ShellViewerKey::Show(ShellViewer { scroll: sat_sub16(v.scroll, 3), ..v })
        } else if m.kind == MouseEventKind::ScrollDown {
            ShellViewerKey::Show(ShellViewer { scroll: sat_add16(v.scroll, 3), ..v })
        } else {
            ShellViewerKey::Nothing
        },
        Event::Key(k) => if is_escape_spec(k) {
            ShellViewerKey::Close
        } else if is_up_spec(k) {
            ShellViewerKey::Show(ShellViewer { selected: if v.selected >= 1 { (v.selected - 1) as usize } else { 0 }, scroll: 0 })
        } else if is_down_spec(k) {
            if count > 0 {
                ShellViewerKey::Show(ShellViewer {
                    selected: if v.selected + 1 <= count - 1 { (v.selected + 1) as usize } else { (count - 1) as usize },
                    scroll: 0,
                })
            } else {
                ShellViewerKey::Nothing
            }
        } else if is_page_up_spec(k) {
            ShellViewerKey::Show(ShellViewer { scroll: sat_sub16(v.scroll, 10), ..v })
        } else if is_page_down_spec(k) {
            ShellViewerKey::Show(ShellViewer { scroll: sat_add16(v.scroll, 10), ..v })
        } else {
            ShellViewerKey::Nothing
        },
        _ => ShellViewerKey::Nothing,
    }
}

/// What an event does in the shell viewer showing one of `count` commands.
pub fn shell_viewer_key(v: ShellViewer, count: usize, event: &Event) -> (r: ShellViewerKey)
    requires
        (key_of(*event) matches Some(k) && is_down_spec(k) && count > 0) ==> v.selected < usize::MAX,
    ensures
        r == shell_viewer_spec(v, count, *event),
{
    if event.mouse_scroll_up().is_some() {
        ShellViewerKey::Show(ShellViewer { scroll: v.scroll.saturating_sub(3), ..v })
    } else if event.mouse_scroll_down().is_some() {
        ShellViewerKey::Show(ShellViewer { scroll: v.scroll.saturating_add(3), ..v })
    } else if event.is_escape() {
        ShellViewerKey::Close
    } else if event.is_up() {
        ShellViewerKey::Show(ShellViewer { selected: v.selected.saturating_sub(1), scroll: 0 })
    } else if event.is_down() {
        if count > 0 {
            let next = v.selected + 1;
            let last = count - 1;
            ShellViewerKey::Show(ShellViewer { selected: if next <= last { next } else { last }, scroll: 0 })
        } else {
            ShellViewerKey::Nothing
        }
    } else if event.is_page_up() {
        ShellViewerKey::Show(ShellViewer { scroll: v.scroll.saturating_sub(10), ..v })
    } else if event.is_page_down() {
        ShellViewerKey::Show(ShellViewer { scroll: v.scroll.saturating_add(10), ..v })
    } else {
        ShellViewerKey::Nothing
    }
}

// ---------------------------------------------------------------------------
// Reverse history search
// ---------------------------------------------------------------------------

/// What an event does while searching the input history.
#[derive(Debug, Clone, Copy, PartialEq, Eq, Structural)]
pub enum SearchKey {
    /// Leave the search, dropping query and results
    Cancel,
    /// Put the chosen result in the input and leave the search
    Accept,
    /// Choose this result
    Select(usize),
    /// Drop the last character of the query and search again
    DeleteChar,
    /// Add this character to the query and search again
    TypeChar(char),
    Nothing,
}

/// Escape cancels, Enter accepts, Up goes to the next older result and
/// Down to the next newer one (never past the ends), Backspace and typed
/// characters edit the query.
pub open spec fn search_key_spec(index: usize, results: usize, e: Event) -> SearchKey {
    match e {
        Event::Key(k) => if is_escape_spec(k) {
            SearchKey::Cancel
        } else if is_enter_spec(k) {
            SearchKey::Accept
        } else if is_up_spec(k) {
            if results > 0 && index < results - 1 { SearchKey::Select((index + 1) as usize) } else { SearchKey::Nothing }
        } else if is_down_spec(k) {
            if index > 0 { SearchKey::Select((index - 1) as usize) } else { SearchKey::Nothing }
        } else if is_backspace_spec(k) {
            SearchKey::DeleteChar
        } else {
            match typed_char(k) {
                Some(c) => SearchKey::TypeChar(c),
                None => SearchKey::Nothing,
            }
        },
        _ => SearchKey::Nothing,
    }
}

/// What an event does while result `index` of `results` is chosen.
pub fn search_key(index: usize, results: usize, event: &Event) -> (r: SearchKey)
    ensures
        r == search_key_spec(index, results, *event),
{
    if event.is_escape() {
        SearchKey::Cancel
    } else if event.is_enter() {
        SearchKey::Accept
    } else if event.is_up() {
        if results > 0 && index < results - 1 { SearchKey::Select(index + 1) } else { SearchKey::Nothing }
    } else if event.is_down() {
        if index > 0 { SearchKey::Select(index - 1) } else { SearchKey::Nothing }
    } else if event.is_backspace() {
        SearchKey::DeleteChar
    } else {
        match event.char() {
            Some(c) => SearchKey::TypeChar(c),
            None => SearchKey::Nothing,
        }
    }
}

// ---------------------------------------------------------------------------
// The session picker
// ---------------------------------------------------------------------------

/// Rows of the session picker assumed visible.
pub const PICKER_VISIBLE_ROWS: u16 = 20;

/// What an event does in the session picker.
#[derive(Debug, Clone, Copy, PartialEq, Eq, Structural)]
pub enum PickerKey {
    /// Leave the picker ("Session picker cancelled")
    Cancel,
    /// Load this session, if one is chosen, and leave the picker
    Load(Option<usize>),
    /// Choose this session, with this scroll
    Move { selected: usize, scroll: u16 },
    Nothing,
}

/// The row of session `i` in the picker: two rows per session, after two
/// header rows (the product taken modulo the row type's range).
pub open spec fn picker_row(i: int) -> int {
    (i * 2) % 65536 + 2
}

/// The picker's arithmetic stays in range for this move.
pub open spec fn picker_fits(selected: usize, scroll: u16, count: usize, code: KeyCode) -> bool {
    match code {
        KeyCode::Up => selected > 0 ==> (selected - 1) * 2 <= usize::MAX && picker_row(selected - 1) <= u16::MAX,
        KeyCode::Down => selected + 1 < count ==> {
            &&& (selected + 1) * 2 <= usize::MAX
            &&& picker_row(selected + 1) + 1 <= u16::MAX
            &&& scroll + PICKER_VISIBLE_ROWS <= u16::MAX
        },
        _ => true,
    }
}

/// Escape cancels; Up and Down choose the previous or next session,
/// scrolling so that its row stays visible; Enter loads the chosen one.
pub open spec fn picker_key_spec(selected: usize, scroll: u16, count: usize, e: Event) -> PickerKey {
    match e {
        Event::Key(k) => match k.code {
            KeyCode::Esc => PickerKey::Cancel,
            KeyCode::Up => if selected > 0 {
                let row = picker_row(selected - 1);
                PickerKey::Move { selected: (selected - 1) as usize, scroll: if row < scroll { row as u16 } else { scroll } }
            } else {
                PickerKey::Nothing
            },
            KeyCode::Down => if selected + 1 < count {
                let row = picker_row(selected + 1);
                PickerKey::Move {
                    selected: (selected + 1) as usize,
                    scroll: if row + 1 >= scroll + PICKER_VISIBLE_ROWS {
                        if row >= PICKER_VISIBLE_ROWS - 3 { (row - (PICKER_VISIBLE_ROWS - 3)) as u16 } else { 0 }
                    } else {
                        scroll
                    },
                }
            } else {
                PickerKey::Nothing
            },
            KeyCode::Enter => PickerKey::Load(if selected < count { Some(selected) } else { None }),
            _ => PickerKey::Nothing,
        },
        _ => PickerKey::Nothing,
    }
}

/// What an event does in the picker with session `selected` of `count`
/// chosen and the list scrolled by `scroll` rows.
pub fn picker_key(selected: usize, scroll: u16, count: usize, event: &Event) -> (r: PickerKey)
    requires
        key_of(*event) matches Some(k) ==> picker_fits(selected, scroll, count, k.code),
    ensures
        r == picker_key_spec(selected, scroll, count, *event),
{
    let k = match event {
        Event::Key(k) => *k,
        _ => return PickerKey::Nothing,
    };
    match k.code {
        KeyCode::Esc => PickerKey::Cancel,
        KeyCode::Up => {
            if selected > 0 {
                let next = selected - 1;
                let row = ((next * 2) % 65536) as u16 + 2;
                PickerKey::Move { selected: next, scroll: if row < scroll { row } else { scroll } }
            } else {
                PickerKey::Nothing
            }
        },
        KeyCode::Down => {
            if selected < count.saturating_sub(1) {
                let next = selected + 1;
                let row = ((next * 2) % 65536) as u16 + 2;
                let new_scroll = if row + 1 >= scroll + PICKER_VISIBLE_ROWS {
                    row.saturating_sub(PICKER_VISIBLE_ROWS - 3)
                } else {
                    scroll
                };
                PickerKey::Move { selected: next, scroll: new_scroll }
            } else {
                PickerKey::Nothing
            }
        },
        KeyCode::Enter => PickerKey::Load(if selected < count { Some(selected) } else { None }),
        _ => PickerKey::Nothing,
    }
}

} // verus!

verus! {

// ---------------------------------------------------------------------------
// The task viewer's status toggle
// ---------------------------------------------------------------------------

/// The state of a task.
#[derive(Debug, Clone, Copy, PartialEq, Eq, Structural)]
pub enum TaskStatus {
    Pending,
    InProgress,
    Completed,
    Failed,
    Blocked,
    Skipped,
}

/// The state the toggle moves a task to: pending tasks start, running
/// ones complete, every other goes back to pending.
pub open spec fn toggled_status_spec(s: TaskStatus) -> TaskStatus {
    match s {
        TaskStatus::Pending => TaskStatus::InProgress,
        TaskStatus::InProgress => TaskStatus::Completed,
        _ => TaskStatus::Pending,
    }
}

/// The state the toggle moves a task to.
pub fn toggled_status(s: TaskStatus) -> (r: TaskStatus)
    ensures
        r == toggled_status_spec(s),
{
    match s {
        TaskStatus::Pending => TaskStatus::InProgress,
        TaskStatus::InProgress => TaskStatus::Completed,
        _ => TaskStatus::Pending,
    }
}

/// What the task manager is asked to do for a toggle.
#[derive(Debug, Clone, PartialEq, Eq)]
pub enum StatusRequest {
    /// Start the task
    Start,
    /// Complete the task with this summary
    Complete(String),
    /// Nothing: the manager has no way to put a task back to pending
    Nothing,
}

/// The request for toggling a task in state `s`: start it, complete it
/// ("Manually completed"), or nothing when it would go back to pending.
pub fn status_request(s: TaskStatus) -> (r: StatusRequest)
    ensures
        toggled_status_spec(s) == TaskStatus::InProgress ==> r == StatusRequest::Start,
        toggled_status_spec(s) == TaskStatus::Completed ==> (r matches StatusRequest::Complete(m) && m@ == "Manually completed"@),
        toggled_status_spec(s) == TaskStatus::Pending ==> r == StatusRequest::Nothing,
{
    match toggled_status(s) {
        TaskStatus::InProgress => StatusRequest::Start,
        TaskStatus::Completed => StatusRequest::Complete("Manually completed".to_string()),
        _ => StatusRequest::Nothing,
    }
}

/// The task the toggle applies to: the one selected in the viewer, if any.
pub fn toggle_target(state: &crate::app::TaskViewerState) -> (r: Option<String>)
    ensures
        match r {
            Some(id) => state.selected_index < state.visible_tasks@.len() && id@ == state.visible_tasks@[state.selected_index as int]@,
            None => state.selected_index >= state.visible_tasks@.len(),
        },
{
    if state.selected_index < state.visible_tasks.len() {
        Some(state.visible_tasks[state.selected_index].clone())
    } else {
        None
    }
}

} // verus!
