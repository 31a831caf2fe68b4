//! What a key or click does in the find/replace dialog, and which text the
//! dialog searches. The dialog's own state (the query, the replacement,
//! the matches and the click regions) is kept by the program around the
//! library, which carries out the action chosen here.
use vstd::prelude::*;
use crate::app::{AppMode, TuiMessage};
use crate::events::{
    is_enter_spec, is_escape_spec, is_shift_tab_spec, is_tab_spec, Event, KeyCode, MouseButton,
    MouseEventKind,
};
use crate::text::{join, join_strings, owned, strs_view};

verus! {

/// The element of the dialog that has the focus.
#[derive(Debug, Clone, Copy, PartialEq, Eq, Structural)]
pub enum DialogFocus {
    FindInput,
    ReplaceInput,
    CaseCheckbox,
    RegexCheckbox,
    NextButton,
    ReplaceButton,
    ReplaceAllButton,
}

/// Which view the dialog was opened from.
#[derive(Debug, Clone, Copy, PartialEq, Eq, Structural)]
pub enum FindReplaceContext {
    /// The full-screen conversation
    ConversationView,
    /// The full-screen input
    InputView,
}

/// What the decision reads of the dialog.
#[derive(Debug, Clone, Copy, PartialEq, Eq, Structural)]
pub struct FindReplaceView {
    pub focus: DialogFocus,
    pub context: FindReplaceContext,
    /// The element under a left click, as the dialog's click regions report
    /// it (none for other events or a click outside them)
    pub clicked: Option<DialogFocus>,
}

/// The action to carry out.
#[derive(Debug, Clone, Copy, PartialEq, Eq, Structural)]
pub enum FindReplaceAction {
    /// Only the focus changes
    FocusOnly,
    /// Flip case sensitivity and search again
    ToggleCase,
    /// Flip regular-expression search and search again
    ToggleRegex,
    /// Go to the next match
    NextMatch,
    /// Replace the current match
    Replace,
    /// Replace every match
    ReplaceAll,
    /// Close the dialog, going back to this mode
    Close(AppMode),
    /// Move the focus to the next element
    FocusNext,
    /// Move the focus to the previous element
    FocusPrev,
    /// Type this character into the focused field
    InsertChar(char),
    /// Delete the character before the cursor of the focused field
    DeleteChar,
    CursorLeft,
    CursorRight,
}

/// The dialog's answer to an event: a new focus (if any), the action, and
/// whether the matches are to be searched again afterwards.
#[derive(Debug, Clone, Copy, PartialEq, Eq, Structural)]
pub struct FindReplaceStep {
    pub focus: Option<DialogFocus>,
    pub action: FindReplaceAction,
    pub rematch: bool,
}

pub open spec fn step(focus: Option<DialogFocus>, action: FindReplaceAction, rematch: bool) -> FindReplaceStep {
    FindReplaceStep { focus, action, rematch }
}

/// What activating a focused element does (Enter, or a click on it).
pub open spec fn activate(f: DialogFocus) -> FindReplaceAction {
    match f {
        DialogFocus::FindInput => FindReplaceAction::NextMatch,
        DialogFocus::ReplaceInput => FindReplaceAction::Replace,
        DialogFocus::CaseCheckbox => FindReplaceAction::ToggleCase,
        DialogFocus::RegexCheckbox => FindReplaceAction::ToggleRegex,
        DialogFocus::NextButton => FindReplaceAction::NextMatch,
        DialogFocus::ReplaceButton => FindReplaceAction::Replace,
        DialogFocus::ReplaceAllButton => FindReplaceAction::ReplaceAll,
    }
}

/// The checkboxes search again after they change.
pub open spec fn is_checkbox(f: DialogFocus) -> bool {
    f == DialogFocus::CaseCheckbox || f == DialogFocus::RegexCheckbox
}

/// The fields that take typed text.
pub open spec fn is_input(f: DialogFocus) -> bool {
    f == DialogFocus::FindInput || f == DialogFocus::ReplaceInput
}

/// A left click on an element focuses it; on an input field that is all,
/// on a checkbox it flips it and searches again, on a button it presses it.
/// Escape closes, back to the view the dialog came from. Tab and Shift+Tab
/// move the focus. Enter activates the focused element (Enter in the find
/// field goes to the next match, in the replace field replaces). Space
/// (without Control) flips a focused checkbox. In a focused field, a
/// character typed without Control or Alt is inserted, Backspace deletes,
/// and the arrows move the cursor; typing in the find field searches again.
pub open spec fn find_replace_key_spec(v: FindReplaceView, e: Event) -> FindReplaceStep {
    let nothing = step(None, FindReplaceAction::FocusOnly, false);
    match e {
        Event::Mouse(m) => if m.kind == MouseEventKind::Down(MouseButton::Left) {
            match v.clicked {
                Some(c) => if is_input(c) {
                    step(Some(c), FindReplaceAction::FocusOnly, false)
                } else {
                    step(Some(c), activate(c), is_checkbox(c))
                },
                None => nothing,
            }
        } else {
            nothing
        },
        Event::Key(k) => if is_escape_spec(k) {
            step(None, FindReplaceAction::Close(match v.context {
                FindReplaceContext::ConversationView => AppMode::ConversationFullscreen,
                FindReplaceContext::InputView => AppMode::InputFullscreen,
            }), false)
        } else if is_tab_spec(k) {
            step(None, FindReplaceAction::FocusNext, false)
        } else if is_shift_tab_spec(k) {
            step(None, FindReplaceAction::FocusPrev, false)
        } else if is_enter_spec(k) {
            step(None, activate(v.focus), is_checkbox(v.focus))
        } else if k.code == KeyCode::Char(' ') && k.modifiers.bits & 2u8 != 2u8 && is_checkbox(v.focus) {
            step(None, activate(v.focus), true)
        } else if is_input(v.focus) {
            match k.code {
                KeyCode::Char(c) => if k.modifiers.bits & 2u8 != 2u8 && k.modifiers.bits & 4u8 != 4u8 {
                    step(None, FindReplaceAction::InsertChar(c), v.focus == DialogFocus::FindInput)
                } else {
                    nothing
                },
                KeyCode::Backspace => step(None, FindReplaceAction::DeleteChar, v.focus == DialogFocus::FindInput),
                KeyCode::Left => step(None, FindReplaceAction::CursorLeft, false),
                KeyCode::Right => step(None, FindReplaceAction::CursorRight, false),
                _ => nothing,
            }
        } else {
            nothing
        },
        _ => nothing,
    }
}

fn activate_exec(f: DialogFocus) -> (r: FindReplaceAction)
    ensures
        r == activate(f),
{
    match f {
        DialogFocus::FindInput => FindReplaceAction::NextMatch,
        DialogFocus::ReplaceInput => FindReplaceAction::Replace,
        DialogFocus::CaseCheckbox => FindReplaceAction::ToggleCase,
        DialogFocus::RegexCheckbox => FindReplaceAction::ToggleRegex,
        DialogFocus::NextButton => FindReplaceAction::NextMatch,
        DialogFocus::ReplaceButton => FindReplaceAction::Replace,
        DialogFocus::ReplaceAllButton => FindReplaceAction::ReplaceAll,
    }
}

/// What an event does in the find/replace dialog.
pub fn find_replace_key(v: &FindReplaceView, event: &Event) -> (r: FindReplaceStep)
    ensures
        r == find_replace_key_spec(*v, *event),
{
    let nothing = FindReplaceStep { focus: None, action: FindReplaceAction::FocusOnly, rematch: false };
    match event {
        Event::Mouse(m) => {
            if m.kind == MouseEventKind::Down(MouseButton::Left) {
                match v.clicked {
                    Some(c) => {
                        let input = c == DialogFocus::FindInput || c == DialogFocus::ReplaceInput;
                        if input {
                            FindReplaceStep { focus: Some(c), action: FindReplaceAction::FocusOnly, rematch: false }
                        } else {
                            let checkbox = c == DialogFocus::CaseCheckbox || c == DialogFocus::RegexCheckbox;
                            FindReplaceStep { focus: Some(c), action: activate_exec(c), rematch: checkbox }
                        }
                    },
                    None => nothing,
                }
            } else {
                nothing
            }
        },
        Event::Key(k) => {
            let checkbox = v.focus == DialogFocus::CaseCheckbox || v.focus == DialogFocus::RegexCheckbox;
            let input = v.focus == DialogFocus::FindInput || v.focus == DialogFocus::ReplaceInput;
            if event.is_escape() {
                let back = match v.context {
                    FindReplaceContext::ConversationView => AppMode::ConversationFullscreen,
                    FindReplaceContext::InputView => AppMode::InputFullscreen,
                };
                FindReplaceStep { focus: None, action: FindReplaceAction::Close(back), rematch: false }
            } else if event.is_tab() {
                FindReplaceStep { focus: None, action: FindReplaceAction::FocusNext, rematch: false }
            } else if event.is_shift_tab() {
                FindReplaceStep { focus: None, action: FindReplaceAction::FocusPrev, rematch: false }
            } else if event.is_enter() {
                FindReplaceStep { focus: None, action: activate_exec(v.focus), rematch: checkbox }
            } else if k.code == KeyCode::Char(' ') && k.modifiers.bits & 2u8 != 2u8 && checkbox {
                FindReplaceStep { focus: None, action: activate_exec(v.focus), rematch: true }
            } else if input {
                let in_find = v.focus == DialogFocus::FindInput;
                match k.code {
                    KeyCode::Char(c) => if k.modifiers.bits & 2u8 != 2u8 && k.modifiers.bits & 4u8 != 4u8 {
                        FindReplaceStep { focus: None, action: FindReplaceAction::InsertChar(c), rematch: in_find }
                    } else {
                        nothing
                    },
                    KeyCode::Backspace => FindReplaceStep {
                        focus: None,
                        action: FindReplaceAction::DeleteChar,
                        rematch: in_find,
                    },
                    KeyCode::Left => FindReplaceStep { focus: None, action: FindReplaceAction::CursorLeft, rematch: false },
                    KeyCode::Right => FindReplaceStep {
                        focus: None,
                        action: FindReplaceAction::CursorRight,
                        rematch: false,
                    },
                    _ => nothing,
                }
            } else {
                nothing
            }
        },
        _ => nothing,
    }
}

/// The text the dialog searches: the input when it came from the input
/// view, else the messages' texts separated by blank lines.
pub open spec fn searched_text_spec(context: FindReplaceContext, input: Seq<char>, messages: Seq<TuiMessage>) -> Seq<char> {
    match context {
        FindReplaceContext::InputView => input,
        FindReplaceContext::ConversationView => join(messages.map_values(|m: TuiMessage| m.content@), "\n\n"@),
    }
}

/// The text the dialog searches.
pub fn searched_text(context: FindReplaceContext, input: &str, messages: &[TuiMessage]) -> (r: String)
    ensures
        r@ == searched_text_spec(context, input@, messages@),
{
    match context {
        FindReplaceContext::InputView => owned(input),
        FindReplaceContext::ConversationView => {
            let mut parts: Vec<String> = Vec::new();
            let mut i: usize = 0;
            while i < messages.len()
                invariant
                    i <= messages@.len(),
                    strs_view(parts@) == messages@.take(i as int).map_values(|m: TuiMessage| m.content@),
                decreases messages@.len() - i,
            {
                let ghost before = strs_view(parts@);
                parts.push(messages[i].content.clone());
                assert(strs_view(parts@) =~= before.push(messages@[i as int].content@));
                assert(messages@.take(i + 1).map_values(|m: TuiMessage| m.content@) =~= messages@.take(
                    i as int,
                ).map_values(|m: TuiMessage| m.content@).push(messages@[i as int].content@));
                i = i + 1;
            }
            assert(messages@.take(messages@.len() as int) =~= messages@);
            join_strings(parts.as_slice(), "\n\n")
        },
    }
}

} // verus!
