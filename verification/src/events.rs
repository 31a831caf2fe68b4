//! Terminal input events and the key-binding predicates over them.
//!
//! The terminal backend's events are converted into these types at the
//! edge; the predicates decide which shortcut a key press is.
use vstd::prelude::*;

verus! {

/// A key of the keyboard.
#[derive(Debug, Clone, Copy, PartialEq, Eq, Structural)]
pub enum KeyCode {
    Backspace,
    Enter,
    Left,
    Right,
    Up,
    Down,
    Home,
    End,
    PageUp,
    PageDown,
    Tab,
    BackTab,
    Delete,
    Insert,
    /// A function key `F1`..`F24` (any number the terminal reports)
    F(u8),
    /// A character key
    Char(char),
    Null,
    Esc,
    /// Any other key (media keys, lock keys, modifier keys on their own)
    Other,
}

/// Modifier keys held with a key, as bit flags: shift 1, control 2,
/// alt 4, super 8, hyper 16, meta 32.
#[derive(Debug, Clone, Copy, PartialEq, Eq, Structural)]
pub struct KeyModifiers {
    pub bits: u8,
}

impl KeyModifiers {
    /// No modifier.
    pub fn none() -> (r: KeyModifiers)
        ensures
            r.bits == 0,
    {
        KeyModifiers { bits: 0 }
    }

    /// Shift.
    pub fn shift() -> (r: KeyModifiers)
        ensures
            r.bits == 1,
    {
        KeyModifiers { bits: 1 }
    }

    /// Control.
    pub fn control() -> (r: KeyModifiers)
        ensures
            r.bits == 2,
    {
        KeyModifiers { bits: 2 }
    }

    /// Alt.
    pub fn alt() -> (r: KeyModifiers)
        ensures
            r.bits == 4,
    {
        KeyModifiers { bits: 4 }
    }

    /// Super.
    pub fn super_key() -> (r: KeyModifiers)
        ensures
            r.bits == 8,
    {
        KeyModifiers { bits: 8 }
    }

    /// Hyper.
    pub fn hyper() -> (r: KeyModifiers)
        ensures
            r.bits == 16,
    {
        KeyModifiers { bits: 16 }
    }

    /// Meta.
    pub fn meta() -> (r: KeyModifiers)
        ensures
            r.bits == 32,
    {
        KeyModifiers { bits: 32 }
    }

    /// Both sets of modifiers.
    pub fn union(self, other: KeyModifiers) -> (r: KeyModifiers)
        ensures
            r.bits == self.bits | other.bits,
    {
        KeyModifiers { bits: self.bits | other.bits }
    }

    /// Whether every modifier of `other` is held.
    pub fn contains(self, other: KeyModifiers) -> (r: bool)
        ensures
            r == (self.bits & other.bits == other.bits),
    {
        self.bits & other.bits == other.bits
    }
}

/// Whether a key was pressed, repeated or released.
#[derive(Debug, Clone, Copy, PartialEq, Eq, Structural)]
pub enum KeyEventKind {
    Press,
    Repeat,
    Release,
}

/// A key event.
#[derive(Debug, Clone, Copy, PartialEq, Eq, Structural)]
pub struct KeyEvent {
    pub code: KeyCode,
    pub modifiers: KeyModifiers,
    pub kind: KeyEventKind,
}

impl KeyEvent {
    /// A key press with the given modifiers.
    pub fn new(code: KeyCode, modifiers: KeyModifiers) -> (r: KeyEvent)
        ensures
            r.code == code,
            r.modifiers == modifiers,
            r.kind == KeyEventKind::Press,
    {
        KeyEvent { code, modifiers, kind: KeyEventKind::Press }
    }
}

/// A mouse button.
#[derive(Debug, Clone, Copy, PartialEq, Eq, Structural)]
pub enum MouseButton {
    Left,
    Right,
    Middle,
}

/// What the mouse did.
#[derive(Debug, Clone, Copy, PartialEq, Eq, Structural)]
pub enum MouseEventKind {
    Down(MouseButton),
    Up(MouseButton),
    Drag(MouseButton),
    Moved,
    ScrollDown,
    ScrollUp,
    ScrollLeft,
    ScrollRight,
}

/// A mouse event at a terminal cell.
#[derive(Debug, Clone, Copy, PartialEq, Eq, Structural)]
pub struct MouseEvent {
    pub kind: MouseEventKind,
    pub column: u16,
    pub row: u16,
    pub modifiers: KeyModifiers,
}

/// TUI event types.
#[derive(Debug, Clone)]
pub enum Event {
    /// Terminal tick for redraws
    Tick,
    /// Key press event
    Key(KeyEvent),
    /// Mouse event
    Mouse(MouseEvent),
    /// Terminal resize
    Resize(u16, u16),
    /// Paste event (bracketed paste mode or detected rapid input)
    Paste(String),
    /// IPC connection lost - Session needs respawn
    IpcDisconnected,
}

/// The key event of `e`, if it is one.
pub open spec fn key_of(e: Event) -> Option<KeyEvent> {
    match e {
        Event::Key(k) => Some(k),
        _ => None,
    }
}

/// Check if event is Ctrl+C.
pub open spec fn is_quit_spec(k: KeyEvent) -> bool {
    k.code == KeyCode::Char('c') && k.modifiers.bits == 2
}

/// Check if event is Ctrl+R (reverse search).
pub open spec fn is_reverse_search_spec(k: KeyEvent) -> bool {
    k.code == KeyCode::Char('r') && k.modifiers.bits == 2
}

/// Check if event is Ctrl+L (session picker).
pub open spec fn is_session_picker_spec(k: KeyEvent) -> bool {
    k.code == KeyCode::Char('l') && k.modifiers.bits == 2
}

/// Check if event is Ctrl+D (console view).
pub open spec fn is_console_view_spec(k: KeyEvent) -> bool {
    k.code == KeyCode::Char('d') && k.modifiers.bits == 2
}

/// Check if event is Ctrl+T (task viewer).
pub open spec fn is_task_viewer_spec(k: KeyEvent) -> bool {
    k.code == KeyCode::Char('t') && k.modifiers.bits == 2
}

/// Check if event is Ctrl+Z (suspend/background dialog).
pub open spec fn is_suspend_spec(k: KeyEvent) -> bool {
    k.code == KeyCode::Char('z') && k.modifiers.bits == 2
}

/// Check if event is Ctrl+P (toggle plan mode).
pub open spec fn is_plan_mode_toggle_spec(k: KeyEvent) -> bool {
    k.code == KeyCode::Char('p') && k.modifiers.bits == 2
}

/// Check if event is 'c' key (copy in console view).
pub open spec fn is_copy_spec(k: KeyEvent) -> bool {
    k.code == KeyCode::Char('c') && k.modifiers.bits == 0
}

/// Check if event is 'm' key (toggle mouse capture for text selection).
pub open spec fn is_toggle_mouse_spec(k: KeyEvent) -> bool {
    k.code == KeyCode::Char('m') && k.modifiers.bits == 0
}

/// Check if event is Enter (without Shift or Alt modifiers).
pub open spec fn is_enter_spec(k: KeyEvent) -> bool {
    k.code == KeyCode::Enter && k.modifiers.bits & 1 != 1 && k.modifiers.bits & 4 != 4
}

/// Check if event is Shift+Enter, Alt+Enter, or Ctrl+J (for multi-line input).
pub open spec fn is_shift_enter_spec(k: KeyEvent) -> bool {
    (k.code == KeyCode::Enter && (k.modifiers.bits & 1 == 1 || k.modifiers.bits & 4 == 4)) || (k.code == KeyCode::Char('j') && k.modifiers.bits == 2)
}

/// Check if event is Escape.
pub open spec fn is_escape_spec(k: KeyEvent) -> bool {
    k.code == KeyCode::Esc
}

/// Check if event is Ctrl+Alt+F or F10 (for fullscreen toggle).
pub open spec fn is_fullscreen_toggle_spec(k: KeyEvent) -> bool {
    k.code == KeyCode::F(10) || (k.code == KeyCode::Char('f') && k.modifiers.bits & 2 == 2 && k.modifiers.bits & 4 == 4)
}

/// Check if event is F9 (for conversation view style toggle).
pub open spec fn is_view_style_toggle_spec(k: KeyEvent) -> bool {
    k.code == KeyCode::F(9)
}

/// Check if event is Tab (without Shift).
pub open spec fn is_tab_spec(k: KeyEvent) -> bool {
    k.code == KeyCode::Tab && k.modifiers.bits & 1 != 1
}

/// Check if event is Shift+Tab (BackTab).
pub open spec fn is_shift_tab_spec(k: KeyEvent) -> bool {
    k.code == KeyCode::BackTab || (k.code == KeyCode::Tab && k.modifiers.bits & 1 == 1)
}

/// Check if event is Backspace.
pub open spec fn is_backspace_spec(k: KeyEvent) -> bool {
    k.code == KeyCode::Backspace
}

/// Check if event is Up arrow.
pub open spec fn is_up_spec(k: KeyEvent) -> bool {
    k.code == KeyCode::Up
}

/// Check if event is Down arrow.
pub open spec fn is_down_spec(k: KeyEvent) -> bool {
    k.code == KeyCode::Down
}

/// Check if event is PageUp.
pub open spec fn is_page_up_spec(k: KeyEvent) -> bool {
    k.code == KeyCode::PageUp
}

/// Check if event is PageDown.
pub open spec fn is_page_down_spec(k: KeyEvent) -> bool {
    k.code == KeyCode::PageDown
}

/// Check if event is Alt+Backspace or Ctrl+W (delete word backward).
pub open spec fn is_delete_word_backward_spec(k: KeyEvent) -> bool {
    (k.code == KeyCode::Backspace && k.modifiers.bits & 4 == 4) || (k.code == KeyCode::Char('w') && k.modifiers.bits == 2)
}

/// Check if event is Alt+Delete (delete word forward).
pub open spec fn is_delete_word_forward_spec(k: KeyEvent) -> bool {
    k.code == KeyCode::Delete && k.modifiers.bits & 4 == 4
}

/// Check if event is Ctrl+U (delete from cursor to start of line).
pub open spec fn is_delete_to_start_spec(k: KeyEvent) -> bool {
    k.code == KeyCode::Char('u') && k.modifiers.bits == 2
}

/// Check if event is Ctrl+K (delete from cursor to end of line).
pub open spec fn is_delete_to_end_spec(k: KeyEvent) -> bool {
    k.code == KeyCode::Char('k') && k.modifiers.bits == 2
}

/// Check if event is Ctrl+A (move to start of line).
pub open spec fn is_move_to_line_start_spec(k: KeyEvent) -> bool {
    k.code == KeyCode::Char('a') && k.modifiers.bits == 2
}

/// Check if event is Ctrl+E (move to end of line).
pub open spec fn is_move_to_line_end_spec(k: KeyEvent) -> bool {
    k.code == KeyCode::Char('e') && k.modifiers.bits == 2
}

/// Check if event is Alt+Left or Ctrl+Left (move word backward).
pub open spec fn is_move_word_backward_spec(k: KeyEvent) -> bool {
    k.code == KeyCode::Left && (k.modifiers.bits & 4 == 4 || k.modifiers.bits & 2 == 2)
}

/// Check if event is Alt+Right or Ctrl+Right (move word forward).
pub open spec fn is_move_word_forward_spec(k: KeyEvent) -> bool {
    k.code == KeyCode::Right && (k.modifiers.bits & 4 == 4 || k.modifiers.bits & 2 == 2)
}

/// Check if event is Ctrl+Home, Ctrl+Up, Super+Up or Alt+Shift+Up (move to document start).
pub open spec fn is_move_to_document_start_spec(k: KeyEvent) -> bool {
    (k.code == KeyCode::Home && k.modifiers.bits & 2 == 2) || (k.code == KeyCode::Up && (k.modifiers.bits & 2 == 2 || k.modifiers.bits & 8 == 8 || (k.modifiers.bits & 4 == 4 && k.modifiers.bits & 1 == 1)))
}

/// Check if event is Ctrl+End, Ctrl+Down, Super+Down or Alt+Shift+Down (move to document end).
pub open spec fn is_move_to_document_end_spec(k: KeyEvent) -> bool {
    (k.code == KeyCode::End && k.modifiers.bits & 2 == 2) || (k.code == KeyCode::Down && (k.modifiers.bits & 2 == 2 || k.modifiers.bits & 8 == 8 || (k.modifiers.bits & 4 == 4 && k.modifiers.bits & 1 == 1)))
}

/// Check if event is Ctrl+Alt+F (file explorer).
pub open spec fn is_file_explorer_spec(k: KeyEvent) -> bool {
    k.code == KeyCode::Char('f') && k.modifiers.bits & 2 == 2 && k.modifiers.bits & 4 == 4
}

/// Check if event is Ctrl+F (find dialog).
pub open spec fn is_find_spec(k: KeyEvent) -> bool {
    k.code == KeyCode::Char('f') && k.modifiers.bits == 2
}

/// Check if event is Ctrl+H (find and replace dialog).
pub open spec fn is_replace_spec(k: KeyEvent) -> bool {
    k.code == KeyCode::Char('h') && k.modifiers.bits == 2
}

/// Check if event is F3 (next match in find).
pub open spec fn is_find_next_spec(k: KeyEvent) -> bool {
    k.code == KeyCode::F(3) && k.modifiers.bits & 1 != 1
}

/// Check if event is Shift+F3 (previous match in find).
pub open spec fn is_find_prev_spec(k: KeyEvent) -> bool {
    k.code == KeyCode::F(3) && k.modifiers.bits & 1 == 1
}

/// Check if event is Ctrl+S (save).
pub open spec fn is_save_spec(k: KeyEvent) -> bool {
    k.code == KeyCode::Char('s') && k.modifiers.bits == 2
}

/// Check if event is Ctrl+X (exit editor / cut in nano).
pub open spec fn is_ctrl_x_spec(k: KeyEvent) -> bool {
    k.code == KeyCode::Char('x') && k.modifiers.bits == 2
}

/// Check if event is Ctrl+O (write out in nano).
pub open spec fn is_ctrl_o_spec(k: KeyEvent) -> bool {
    k.code == KeyCode::Char('o') && k.modifiers.bits == 2
}

/// Check if event is Ctrl+G (git scm).
pub open spec fn is_git_scm_spec(k: KeyEvent) -> bool {
    k.code == KeyCode::Char('g') && k.modifiers.bits == 2
}

/// Check if event is F1 (help dialog).
pub open spec fn is_help_spec(k: KeyEvent) -> bool {
    k.code == KeyCode::F(1)
}

/// Check if event expands a journal tree node ('l' or Right arrow, no mods).
pub open spec fn is_journal_expand_spec(k: KeyEvent) -> bool {
    (k.code == KeyCode::Char('l') && k.modifiers.bits == 0) || (k.code == KeyCode::Right && k.modifiers.bits == 0)
}

/// Check if event collapses a journal tree node ('h' or Left arrow, no mods).
pub open spec fn is_journal_collapse_spec(k: KeyEvent) -> bool {
    (k.code == KeyCode::Char('h') && k.modifiers.bits == 0) || (k.code == KeyCode::Left && k.modifiers.bits == 0)
}

/// Check if event moves journal cursor down ('j' key, no mods).
pub open spec fn is_journal_cursor_down_spec(k: KeyEvent) -> bool {
    k.code == KeyCode::Char('j') && k.modifiers.bits == 0
}

/// Check if event moves journal cursor up ('k' key, no mods).
pub open spec fn is_journal_cursor_up_spec(k: KeyEvent) -> bool {
    k.code == KeyCode::Char('k') && k.modifiers.bits == 0
}

/// Check if event is Ctrl+B (Sub-Agent Viewer).
pub open spec fn is_sub_agent_viewer_spec(k: KeyEvent) -> bool {
    k.code == KeyCode::Char('b') && k.modifiers.bits == 2
}

impl Event {
    /// Check if event is Ctrl+C.
    pub fn is_quit(&self) -> (r: bool)
        ensures
            r == match key_of(*self) {
                Some(k) => is_quit_spec(k),
                None => false,
            },
    {
        match self {
            Event::Key(k) => k.code == KeyCode::Char('c') && k.modifiers.bits == 2,
            _ => false,
        }
    }

    /// Check if event is Ctrl+R (reverse search).
    pub fn is_reverse_search(&self) -> (r: bool)
        ensures
            r == match key_of(*self) {
                Some(k) => is_reverse_search_spec(k),
                None => false,
            },
    {
        match self {
            Event::Key(k) => k.code == KeyCode::Char('r') && k.modifiers.bits == 2,
            _ => false,
        }
    }

    /// Check if event is Ctrl+L (session picker).
    pub fn is_session_picker(&self) -> (r: bool)
        ensures
            r == match key_of(*self) {
                Some(k) => is_session_picker_spec(k),
                None => false,
            },
    {
        match self {
            Event::Key(k) => k.code == KeyCode::Char('l') && k.modifiers.bits == 2,
            _ => false,
        }
    }

    /// Check if event is Ctrl+D (console view).
    pub fn is_console_view(&self) -> (r: bool)
        ensures
            r == match key_of(*self) {
                Some(k) => is_console_view_spec(k),
                None => false,
            },
    {
        match self {
            Event::Key(k) => k.code == KeyCode::Char('d') && k.modifiers.bits == 2,
            _ => false,
        }
    }

    /// Check if event is Ctrl+T (task viewer).
    pub fn is_task_viewer(&self) -> (r: bool)
        ensures
            r == match key_of(*self) {
                Some(k) => is_task_viewer_spec(k),
                None => false,
            },
    {
        match self {
            Event::Key(k) => k.code == KeyCode::Char('t') && k.modifiers.bits == 2,
            _ => false,
        }
    }

    /// Check if event is Ctrl+Z (suspend/background dialog).
    pub fn is_suspend(&self) -> (r: bool)
        ensures
            r == match key_of(*self) {
                Some(k) => is_suspend_spec(k),
                None => false,
            },
    {
        match self {
            Event::Key(k) => k.code == KeyCode::Char('z') && k.modifiers.bits == 2,
            _ => false,
        }
    }

    /// Check if event is Ctrl+P (toggle plan mode).
    pub fn is_plan_mode_toggle(&self) -> (r: bool)
        ensures
            r == match key_of(*self) {
                Some(k) => is_plan_mode_toggle_spec(k),
                None => false,
            },
    {
        match self {
            Event::Key(k) => k.code == KeyCode::Char('p') && k.modifiers.bits == 2,
            _ => false,
        }
    }

    /// Check if event is 'c' key (copy in console view).
    pub fn is_copy(&self) -> (r: bool)
        ensures
            r == match key_of(*self) {
                Some(k) => is_copy_spec(k),
                None => false,
            },
    {
        match self {
            Event::Key(k) => k.code == KeyCode::Char('c') && k.modifiers.bits == 0,
            _ => false,
        }
    }

    /// Check if event is 'm' key (toggle mouse capture for text selection).
    pub fn is_toggle_mouse(&self) -> (r: bool)
        ensures
            r == match key_of(*self) {
                Some(k) => is_toggle_mouse_spec(k),
                None => false,
            },
    {
        match self {
            Event::Key(k) => k.code == KeyCode::Char('m') && k.modifiers.bits == 0,
            _ => false,
        }
    }

    /// Check if event is Enter (without Shift or Alt modifiers).
    pub fn is_enter(&self) -> (r: bool)
        ensures
            r == match key_of(*self) {
                Some(k) => is_enter_spec(k),
                None => false,
            },
    {
        match self {
            Event::Key(k) => k.code == KeyCode::Enter && k.modifiers.bits & 1 != 1 && k.modifiers.bits & 4 != 4,
            _ => false,
        }
    }

    /// Check if event is Shift+Enter, Alt+Enter, or Ctrl+J (for multi-line input).
    pub fn is_shift_enter(&self) -> (r: bool)
        ensures
            r == match key_of(*self) {
                Some(k) => is_shift_enter_spec(k),
                None => false,
            },
    {
        match self {
            Event::Key(k) => (k.code == KeyCode::Enter && (k.modifiers.bits & 1 == 1 || k.modifiers.bits & 4 == 4)) || (k.code == KeyCode::Char('j') && k.modifiers.bits == 2),
            _ => false,
        }
    }

    /// Check if event is Escape.
    pub fn is_escape(&self) -> (r: bool)
        ensures
            r == match key_of(*self) {
                Some(k) => is_escape_spec(k),
                None => false,
            },
    {
        match self {
            Event::Key(k) => k.code == KeyCode::Esc,
            _ => false,
        }
    }

    /// Check if event is Ctrl+Alt+F or F10 (for fullscreen toggle).
    pub fn is_fullscreen_toggle(&self) -> (r: bool)
        ensures
            r == match key_of(*self) {
                Some(k) => is_fullscreen_toggle_spec(k),
                None => false,
            },
    {
        match self {
            Event::Key(k) => k.code == KeyCode::F(10) || (k.code == KeyCode::Char('f') && k.modifiers.bits & 2 == 2 && k.modifiers.bits & 4 == 4),
            _ => false,
        }
    }

    /// Check if event is F9 (for conversation view style toggle).
    pub fn is_view_style_toggle(&self) -> (r: bool)
        ensures
            r == match key_of(*self) {
                Some(k) => is_view_style_toggle_spec(k),
                None => false,
            },
    {
        match self {
            Event::Key(k) => k.code == KeyCode::F(9),
            _ => false,
        }
    }

    /// Check if event is Tab (without Shift).
    pub fn is_tab(&self) -> (r: bool)
        ensures
            r == match key_of(*self) {
                Some(k) => is_tab_spec(k),
                None => false,
            },
    {
        match self {
            Event::Key(k) => k.code == KeyCode::Tab && k.modifiers.bits & 1 != 1,
            _ => false,
        }
    }

    /// Check if event is Shift+Tab (BackTab).
    pub fn is_shift_tab(&self) -> (r: bool)
        ensures
            r == match key_of(*self) {
                Some(k) => is_shift_tab_spec(k),
                None => false,
            },
    {
        match self {
            Event::Key(k) => k.code == KeyCode::BackTab || (k.code == KeyCode::Tab && k.modifiers.bits & 1 == 1),
            _ => false,
        }
    }

    /// Check if event is Backspace.
    pub fn is_backspace(&self) -> (r: bool)
        ensures
            r == match key_of(*self) {
                Some(k) => is_backspace_spec(k),
                None => false,
            },
    {
        match self {
            Event::Key(k) => k.code == KeyCode::Backspace,
            _ => false,
        }
    }

    /// Check if event is Up arrow.
    pub fn is_up(&self) -> (r: bool)
        ensures
            r == match key_of(*self) {
                Some(k) => is_up_spec(k),
                None => false,
            },
    {
        match self {
            Event::Key(k) => k.code == KeyCode::Up,
            _ => false,
        }
    }

    /// Check if event is Down arrow.
    pub fn is_down(&self) -> (r: bool)
        ensures
            r == match key_of(*self) {
                Some(k) => is_down_spec(k),
                None => false,
            },
    {
        match self {
            Event::Key(k) => k.code == KeyCode::Down,
            _ => false,
        }
    }

    /// Check if event is PageUp.
    pub fn is_page_up(&self) -> (r: bool)
        ensures
            r == match key_of(*self) {
                Some(k) => is_page_up_spec(k),
                None => false,
            },
    {
        match self {
            Event::Key(k) => k.code == KeyCode::PageUp,
            _ => false,
        }
    }

    /// Check if event is PageDown.
    pub fn is_page_down(&self) -> (r: bool)
        ensures
            r == match key_of(*self) {
                Some(k) => is_page_down_spec(k),
                None => false,
            },
    {
        match self {
            Event::Key(k) => k.code == KeyCode::PageDown,
            _ => false,
        }
    }

    /// Check if event is Alt+Backspace or Ctrl+W (delete word backward).
    pub fn is_delete_word_backward(&self) -> (r: bool)
        ensures
            r == match key_of(*self) {
                Some(k) => is_delete_word_backward_spec(k),
                None => false,
            },
    {
        match self {
            Event::Key(k) => (k.code == KeyCode::Backspace && k.modifiers.bits & 4 == 4) || (k.code == KeyCode::Char('w') && k.modifiers.bits == 2),
            _ => false,
        }
    }

    /// Check if event is Alt+Delete (delete word forward).
    pub fn is_delete_word_forward(&self) -> (r: bool)
        ensures
            r == match key_of(*self) {
                Some(k) => is_delete_word_forward_spec(k),
                None => false,
            },
    {
        match self {
            Event::Key(k) => k.code == KeyCode::Delete && k.modifiers.bits & 4 == 4,
            _ => false,
        }
    }

    /// Check if event is Ctrl+U (delete from cursor to start of line).
    pub fn is_delete_to_start(&self) -> (r: bool)
        ensures
            r == match key_of(*self) {
                Some(k) => is_delete_to_start_spec(k),
                None => false,
            },
    {
        match self {
            Event::Key(k) => k.code == KeyCode::Char('u') && k.modifiers.bits == 2,
            _ => false,
        }
    }

    /// Check if event is Ctrl+K (delete from cursor to end of line).
    pub fn is_delete_to_end(&self) -> (r: bool)
        ensures
            r == match key_of(*self) {
                Some(k) => is_delete_to_end_spec(k),
                None => false,
            },
    {
        match self {
            Event::Key(k) => k.code == KeyCode::Char('k') && k.modifiers.bits == 2,
            _ => false,
        }
    }

    /// Check if event is Ctrl+A (move to start of line).
    pub fn is_move_to_line_start(&self) -> (r: bool)
        ensures
            r == match key_of(*self) {
                Some(k) => is_move_to_line_start_spec(k),
                None => false,
            },
    {
        match self {
            Event::Key(k) => k.code == KeyCode::Char('a') && k.modifiers.bits == 2,
            _ => false,
        }
    }

    /// Check if event is Ctrl+E (move to end of line).
    pub fn is_move_to_line_end(&self) -> (r: bool)
        ensures
            r == match key_of(*self) {
                Some(k) => is_move_to_line_end_spec(k),
                None => false,
            },
    {
        match self {
            Event::Key(k) => k.code == KeyCode::Char('e') && k.modifiers.bits == 2,
            _ => false,
        }
    }

    /// Check if event is Alt+Left or Ctrl+Left (move word backward).
    pub fn is_move_word_backward(&self) -> (r: bool)
        ensures
            r == match key_of(*self) {
                Some(k) => is_move_word_backward_spec(k),
                None => false,
            },
    {
        match self {
            Event::Key(k) => k.code == KeyCode::Left && (k.modifiers.bits & 4 == 4 || k.modifiers.bits & 2 == 2),
            _ => false,
        }
    }

    /// Check if event is Alt+Right or Ctrl+Right (move word forward).
    pub fn is_move_word_forward(&self) -> (r: bool)
        ensures
            r == match key_of(*self) {
                Some(k) => is_move_word_forward_spec(k),
                None => false,
            },
    {
        match self {
            Event::Key(k) => k.code == KeyCode::Right && (k.modifiers.bits & 4 == 4 || k.modifiers.bits & 2 == 2),
            _ => false,
        }
    }

    /// Check if event is Ctrl+Home, Ctrl+Up, Super+Up or Alt+Shift+Up (move to document start).
    pub fn is_move_to_document_start(&self) -> (r: bool)
        ensures
            r == match key_of(*self) {
                Some(k) => is_move_to_document_start_spec(k),
                None => false,
            },
    {
        match self {
            Event::Key(k) => (k.code == KeyCode::Home && k.modifiers.bits & 2 == 2) || (k.code == KeyCode::Up && (k.modifiers.bits & 2 == 2 || k.modifiers.bits & 8 == 8 || (k.modifiers.bits & 4 == 4 && k.modifiers.bits & 1 == 1))),
            _ => false,
        }
    }

    /// Check if event is Ctrl+End, Ctrl+Down, Super+Down or Alt+Shift+Down (move to document end).
    pub fn is_move_to_document_end(&self) -> (r: bool)
        ensures
            r == match key_of(*self) {
                Some(k) => is_move_to_document_end_spec(k),
                None => false,
            },
    {
        match self {
            Event::Key(k) => (k.code == KeyCode::End && k.modifiers.bits & 2 == 2) || (k.code == KeyCode::Down && (k.modifiers.bits & 2 == 2 || k.modifiers.bits & 8 == 8 || (k.modifiers.bits & 4 == 4 && k.modifiers.bits & 1 == 1))),
            _ => false,
        }
    }

    /// Check if event is Ctrl+Alt+F (file explorer).
    pub fn is_file_explorer(&self) -> (r: bool)
        ensures
            r == match key_of(*self) {
                Some(k) => is_file_explorer_spec(k),
                None => false,
            },
    {
        match self {
            Event::Key(k) => k.code == KeyCode::Char('f') && k.modifiers.bits & 2 == 2 && k.modifiers.bits & 4 == 4,
            _ => false,
        }
    }

    /// Check if event is Ctrl+F (find dialog).
    pub fn is_find(&self) -> (r: bool)
        ensures
            r == match key_of(*self) {
                Some(k) => is_find_spec(k),
                None => false,
            },
    {
        match self {
            Event::Key(k) => k.code == KeyCode::Char('f') && k.modifiers.bits == 2,
            _ => false,
        }
    }

    /// Check if event is Ctrl+H (find and replace dialog).
    pub fn is_replace(&self) -> (r: bool)
        ensures
            r == match key_of(*self) {
                Some(k) => is_replace_spec(k),
                None => false,
            },
    {
        match self {
            Event::Key(k) => k.code == KeyCode::Char('h') && k.modifiers.bits == 2,
            _ => false,
        }
    }

    /// Check if event is F3 (next match in find).
    pub fn is_find_next(&self) -> (r: bool)
        ensures
            r == match key_of(*self) {
                Some(k) => is_find_next_spec(k),
                None => false,
            },
    {
        match self {
            Event::Key(k) => k.code == KeyCode::F(3) && k.modifiers.bits & 1 != 1,
            _ => false,
        }
    }

    /// Check if event is Shift+F3 (previous match in find).
    pub fn is_find_prev(&self) -> (r: bool)
        ensures
            r == match key_of(*self) {
                Some(k) => is_find_prev_spec(k),
                None => false,
            },
    {
        match self {
            Event::Key(k) => k.code == KeyCode::F(3) && k.modifiers.bits & 1 == 1,
            _ => false,
        }
    }

    /// Check if event is Ctrl+S (save).
    pub fn is_save(&self) -> (r: bool)
        ensures
            r == match key_of(*self) {
                Some(k) => is_save_spec(k),
                None => false,
            },
    {
        match self {
            Event::Key(k) => k.code == KeyCode::Char('s') && k.modifiers.bits == 2,
            _ => false,
        }
    }

    /// Check if event is Ctrl+X (exit editor / cut in nano).
    pub fn is_ctrl_x(&self) -> (r: bool)
        ensures
            r == match key_of(*self) {
                Some(k) => is_ctrl_x_spec(k),
                None => false,
            },
    {
        match self {
            Event::Key(k) => k.code == KeyCode::Char('x') && k.modifiers.bits == 2,
            _ => false,
        }
    }

    /// Check if event is Ctrl+O (write out in nano).
    pub fn is_ctrl_o(&self) -> (r: bool)
        ensures
            r == match key_of(*self) {
                Some(k) => is_ctrl_o_spec(k),
                None => false,
            },
    {
        match self {
            Event::Key(k) => k.code == KeyCode::Char('o') && k.modifiers.bits == 2,
            _ => false,
        }
    }

    /// Check if event is Ctrl+G (git scm).
    pub fn is_git_scm(&self) -> (r: bool)
        ensures
            r == match key_of(*self) {
                Some(k) => is_git_scm_spec(k),
                None => false,
            },
    {
        match self {
            Event::Key(k) => k.code == KeyCode::Char('g') && k.modifiers.bits == 2,
            _ => false,
        }
    }

    /// Check if event is F1 (help dialog).
    pub fn is_help(&self) -> (r: bool)
        ensures
            r == match key_of(*self) {
                Some(k) => is_help_spec(k),
                None => false,
            },
    {
        match self {
            Event::Key(k) => k.code == KeyCode::F(1),
            _ => false,
        }
    }

    /// Check if event expands a journal tree node ('l' or Right arrow, no mods).
    pub fn is_journal_expand(&self) -> (r: bool)
        ensures
            r == match key_of(*self) {
                Some(k) => is_journal_expand_spec(k),
                None => false,
            },
    {
        match self {
            Event::Key(k) => (k.code == KeyCode::Char('l') && k.modifiers.bits == 0) || (k.code == KeyCode::Right && k.modifiers.bits == 0),
            _ => false,
        }
    }

    /// Check if event collapses a journal tree node ('h' or Left arrow, no mods).
    pub fn is_journal_collapse(&self) -> (r: bool)
        ensures
            r == match key_of(*self) {
                Some(k) => is_journal_collapse_spec(k),
                None => false,
            },
    {
        match self {
            Event::Key(k) => (k.code == KeyCode::Char('h') && k.modifiers.bits == 0) || (k.code == KeyCode::Left && k.modifiers.bits == 0),
            _ => false,
        }
    }

    /// Check if event moves journal cursor down ('j' key, no mods).
    pub fn is_journal_cursor_down(&self) -> (r: bool)
        ensures
            r == match key_of(*self) {
                Some(k) => is_journal_cursor_down_spec(k),
                None => false,
            },
    {
        match self {
            Event::Key(k) => k.code == KeyCode::Char('j') && k.modifiers.bits == 0,
            _ => false,
        }
    }

    /// Check if event moves journal cursor up ('k' key, no mods).
    pub fn is_journal_cursor_up(&self) -> (r: bool)
        ensures
            r == match key_of(*self) {
                Some(k) => is_journal_cursor_up_spec(k),
                None => false,
            },
    {
        match self {
            Event::Key(k) => k.code == KeyCode::Char('k') && k.modifiers.bits == 0,
            _ => false,
        }
    }

    /// Check if event is Ctrl+B (Sub-Agent Viewer).
    pub fn is_sub_agent_viewer(&self) -> (r: bool)
        ensures
            r == match key_of(*self) {
                Some(k) => is_sub_agent_viewer_spec(k),
                None => false,
            },
    {
        match self {
            Event::Key(k) => k.code == KeyCode::Char('b') && k.modifiers.bits == 2,
            _ => false,
        }
    }

    /// The character of a plain or shifted character key press.
    pub fn char(&self) -> (r: Option<char>)
        ensures
            r == match key_of(*self) {
                Some(k) => match k.code {
                    KeyCode::Char(c) => if k.modifiers.bits == 0 || k.modifiers.bits == 1 {
                        Some(c)
                    } else {
                        None
                    },
                    _ => None,
                },
                None => None,
            },
    {
        match self {
            Event::Key(k) => match k.code {
                KeyCode::Char(c) => if k.modifiers.bits == 0 || k.modifiers.bits == 1 {
                    Some(c)
                } else {
                    None
                },
                _ => None,
            },
            _ => None,
        }
    }

    /// Position of a mouse scroll-up event.
    pub fn mouse_scroll_up(&self) -> (r: Option<(u16, u16)>)
        ensures
            r == match *self {
                Event::Mouse(m) => if m.kind == MouseEventKind::ScrollUp {
                    Some((m.column, m.row))
                } else {
                    None
                },
                _ => None,
            },
    {
        match self {
            Event::Mouse(m) => if m.kind == MouseEventKind::ScrollUp {
                Some((m.column, m.row))
            } else {
                None
            },
            _ => None,
        }
    }

    /// Position of a mouse scroll-down event.
    pub fn mouse_scroll_down(&self) -> (r: Option<(u16, u16)>)
        ensures
            r == match *self {
                Event::Mouse(m) => if m.kind == MouseEventKind::ScrollDown {
                    Some((m.column, m.row))
                } else {
                    None
                },
                _ => None,
            },
    {
        match self {
            Event::Mouse(m) => if m.kind == MouseEventKind::ScrollDown {
                Some((m.column, m.row))
            } else {
                None
            },
            _ => None,
        }
    }

    /// Position of a left-button press.
    pub fn mouse_click(&self) -> (r: Option<(u16, u16)>)
        ensures
            r == match *self {
                Event::Mouse(m) => if m.kind == MouseEventKind::Down(MouseButton::Left) {
                    Some((m.column, m.row))
                } else {
                    None
                },
                _ => None,
            },
    {
        match self {
            Event::Mouse(m) => if m.kind == MouseEventKind::Down(MouseButton::Left) {
                Some((m.column, m.row))
            } else {
                None
            },
            _ => None,
        }
    }
}

} // verus!
