//! The hotkey reference: every hotkey with the contexts it works in,
//! grouped by category, and a search over them.
use vstd::prelude::*;
use crate::text::{contains_seq, join, join_strings, lowercase, owned, str_contains, strs_view, to_lowercase};

verus! {

broadcast use vstd::string::group_string_axioms;

/// Context in which a hotkey is active.
#[derive(Debug, Clone, Copy, PartialEq, Eq, Hash, Structural)]
pub enum HotkeyContext {
    Global,
    Normal,
    Waiting,
    SessionPicker,
    ReverseSearch,
    ConsoleView,
    TaskViewer,
    FileExplorer,
    NanoEditor,
    GitScm,
    FindDialog,
    HelpDialog,
    ToolPicker,
    PlanMode,
}

impl HotkeyContext {
    pub open spec fn label_spec(self) -> Seq<char> {
        match self {
            HotkeyContext::Global => "Global"@,
            HotkeyContext::Normal => "Normal"@,
            HotkeyContext::Waiting => "Waiting"@,
            HotkeyContext::SessionPicker => "Session Picker"@,
            HotkeyContext::ReverseSearch => "Reverse Search"@,
            HotkeyContext::ConsoleView => "Console View"@,
            HotkeyContext::TaskViewer => "Task Viewer"@,
            HotkeyContext::FileExplorer => "File Explorer"@,
            HotkeyContext::NanoEditor => "Nano Editor"@,
            HotkeyContext::GitScm => "Git SCM"@,
            HotkeyContext::FindDialog => "Find Dialog"@,
            HotkeyContext::HelpDialog => "Help Dialog"@,
            HotkeyContext::ToolPicker => "Tool Picker"@,
            HotkeyContext::PlanMode => "Plan Mode"@,
        }
    }

    /// The name of the context as it is shown.
    pub fn label(&self) -> (r: &'static str)
        ensures
            r@ == self.label_spec(),
    {
        match self {
            HotkeyContext::Global => "Global",
            HotkeyContext::Normal => "Normal",
            HotkeyContext::Waiting => "Waiting",
            HotkeyContext::SessionPicker => "Session Picker",
            HotkeyContext::ReverseSearch => "Reverse Search",
            HotkeyContext::ConsoleView => "Console View",
            HotkeyContext::TaskViewer => "Task Viewer",
            HotkeyContext::FileExplorer => "File Explorer",
            HotkeyContext::NanoEditor => "Nano Editor",
            HotkeyContext::GitScm => "Git SCM",
            HotkeyContext::FindDialog => "Find Dialog",
            HotkeyContext::HelpDialog => "Help Dialog",
            HotkeyContext::ToolPicker => "Tool Picker",
            HotkeyContext::PlanMode => "Plan Mode",
        }
    }
}

/// A single hotkey entry with key combination, action, and context.
#[derive(Debug, Clone)]
pub struct HotkeyEntry {
    /// The keyboard shortcut (e.g., "Ctrl+C", "F1")
    pub key_combination: String,
    /// Description of what the hotkey does
    pub action: String,
    /// Context(s) where this hotkey is active
    pub contexts: Vec<HotkeyContext>,
    /// Whether this hotkey can be customized
    pub is_customizable: bool,
}

/// The abstract value of a [`HotkeyEntry`].
#[verifier::ext_equal]
pub struct HotkeyEntryView {
    pub key: Seq<char>,
    pub action: Seq<char>,
    pub contexts: Seq<HotkeyContext>,
    pub is_customizable: bool,
}

impl View for HotkeyEntry {
    type V = HotkeyEntryView;

    open spec fn view(&self) -> HotkeyEntryView {
        HotkeyEntryView {
            key: self.key_combination@,
            action: self.action@,
            contexts: self.contexts@,
            is_customizable: self.is_customizable,
        }
    }
}

/// A customizable entry.
pub open spec fn hk(key: Seq<char>, action: Seq<char>, contexts: Seq<HotkeyContext>) -> HotkeyEntryView {
    HotkeyEntryView { key, action, contexts, is_customizable: true }
}

/// An entry that cannot be customized.
pub open spec fn hk_fixed(key: Seq<char>, action: Seq<char>, contexts: Seq<HotkeyContext>) -> HotkeyEntryView {
    HotkeyEntryView { key, action, contexts, is_customizable: false }
}

/// The names of the contexts.
pub open spec fn context_labels(contexts: Seq<HotkeyContext>) -> Seq<Seq<char>> {
    contexts.map_values(|c: HotkeyContext| c.label_spec())
}

/// The contexts of an entry as shown: `Global` for the one global context,
/// `None` for none, else the names joined by `, `.
pub open spec fn context_string_spec(contexts: Seq<HotkeyContext>) -> Seq<char> {
    if contexts.len() == 1 && contexts[0] == HotkeyContext::Global {
        "Global"@
    } else if contexts.len() == 0 {
        "None"@
    } else {
        join(context_labels(contexts), ", "@)
    }
}

impl HotkeyEntry {
    /// Create a new hotkey entry.
    pub fn new(key_combination: &str, action: &str, contexts: Vec<HotkeyContext>) -> (r: HotkeyEntry)
        ensures
            r@ == hk(key_combination@, action@, contexts@),
    {
        HotkeyEntry {
            key_combination: key_combination.to_string(),
            action: action.to_string(),
            contexts,
            is_customizable: true,
        }
    }

    /// Create a hotkey entry that cannot be customized.
    pub fn fixed(key_combination: &str, action: &str, contexts: Vec<HotkeyContext>) -> (r: HotkeyEntry)
        ensures
            r@ == hk_fixed(key_combination@, action@, contexts@),
    {
        HotkeyEntry {
            key_combination: key_combination.to_string(),
            action: action.to_string(),
            contexts,
            is_customizable: false,
        }
    }

    /// Get a formatted context string.
    pub fn context_string(&self) -> (r: String)
        ensures
            r@ == context_string_spec(self.contexts@),
    {
        if self.contexts.len() == 1 && self.contexts[0] == HotkeyContext::Global {
            "Global".to_string()
        } else if self.contexts.len() == 0 {
            "None".to_string()
        } else {
            let mut names: Vec<String> = Vec::new();
            let mut i: usize = 0;
            while i < self.contexts.len()
                invariant
                    i <= self.contexts@.len(),
                    names@.len() == i,
                    forall|j: int| 0 <= j < i ==> (#[trigger] names@[j])@ == self.contexts@[j].label_spec(),
                decreases self.contexts@.len() - i,
            {
                let l = self.contexts[i].label();
                names.push(owned(l));
                i = i + 1;
            }
            assert(strs_view(names@) =~= context_labels(self.contexts@));
            join_strings(names.as_slice(), ", ")
        }
    }

    /// A copy of the entry.
    pub fn clone_entry(&self) -> (r: HotkeyEntry)
        ensures
            r@ == self@,
    {
        let mut contexts: Vec<HotkeyContext> = Vec::new();
        let mut i: usize = 0;
        while i < self.contexts.len()
            invariant
                i <= self.contexts@.len(),
                contexts@ == self.contexts@.take(i as int),
            decreases self.contexts@.len() - i,
        {
            contexts.push(self.contexts[i]);
            assert(contexts@ =~= self.contexts@.take(i + 1));
            i = i + 1;
        }
        assert(self.contexts@.take(self.contexts@.len() as int) =~= self.contexts@);
        HotkeyEntry {
            key_combination: self.key_combination.clone(),
            action: self.action.clone(),
            contexts,
            is_customizable: self.is_customizable,
        }
    }
}

/// Hotkey category enumeration.
#[derive(Debug, Clone, Copy, PartialEq, Eq, Hash, Structural)]
pub enum HotkeyCategory {
    GlobalActions,
    Navigation,
    TextEditing,
    ViewsModes,
    Dialogs,
    FileExplorer,
    GitScm,
    NanoEditor,
    TaskViewer,
    ToolPicker,
    PlanMode,
}

impl Default for HotkeyCategory {
    fn default() -> (r: HotkeyCategory)
        ensures
            r == HotkeyCategory::GlobalActions,
    {
        HotkeyCategory::GlobalActions
    }
}

/// The categories in the order they are shown.
pub open spec fn hotkey_categories() -> Seq<HotkeyCategory> {
    seq![
        HotkeyCategory::GlobalActions,
        HotkeyCategory::Navigation,
        HotkeyCategory::TextEditing,
        HotkeyCategory::ViewsModes,
        HotkeyCategory::Dialogs,
        HotkeyCategory::FileExplorer,
        HotkeyCategory::GitScm,
        HotkeyCategory::NanoEditor,
        HotkeyCategory::TaskViewer,
        HotkeyCategory::ToolPicker,
        HotkeyCategory::PlanMode,
    ]
}

pub open spec fn global_actions_spec() -> Seq<HotkeyEntryView> {
    seq![
        hk_fixed("Ctrl+C"@, "Quit application"@, seq![HotkeyContext::Global]),
        hk("Ctrl+Z"@, "Open suspend/background dialog"@, seq![HotkeyContext::Global]),
        hk("Escape"@, "Exit current mode/dialog"@, seq![HotkeyContext::Global]),
        hk("F1"@, "Open help dialog"@, seq![HotkeyContext::Global]),
        hk("Enter"@, "Submit message"@, seq![HotkeyContext::Normal]),
        hk("Tab"@, "Toggle focus between panels"@, seq![HotkeyContext::Normal]),
        hk("Shift+Tab"@, "Reverse focus navigation"@, seq![HotkeyContext::Normal]),
    ]
}

pub open spec fn navigation_hotkeys_spec() -> Seq<HotkeyEntryView> {
    seq![
        hk("Ctrl+L"@, "Open session picker"@, seq![HotkeyContext::Normal]),
        hk("Ctrl+D"@, "Toggle console view"@, seq![HotkeyContext::Normal]),
        hk("Ctrl+T"@, "Open task viewer"@, seq![HotkeyContext::Normal]),
        hk("Ctrl+R"@, "Reverse search history"@, seq![HotkeyContext::Normal]),
        hk("Up / Down"@, "Scroll conversation / Navigate lists"@, seq![HotkeyContext::Normal]),
        hk("PageUp / PageDown"@, "Page scroll"@, seq![HotkeyContext::Normal]),
        hk("Ctrl+Home"@, "Scroll to document start"@, seq![HotkeyContext::Normal]),
        hk("Ctrl+End"@, "Scroll to document end"@, seq![HotkeyContext::Normal]),
        hk("Ctrl+Up"@, "Scroll to document start (alt)"@, seq![HotkeyContext::Normal]),
        hk("Ctrl+Down"@, "Scroll to document end (alt)"@, seq![HotkeyContext::Normal]),
    ]
}

pub open spec fn text_editing_hotkeys_spec() -> Seq<HotkeyEntryView> {
    seq![
        hk("Shift+Enter"@, "Insert newline (multiline)"@, seq![HotkeyContext::Normal]),
        hk("Alt+Enter"@, "Insert newline (multiline)"@, seq![HotkeyContext::Normal]),
        hk("Ctrl+J"@, "Insert newline (Unix standard)"@, seq![HotkeyContext::Normal]),
        hk("Ctrl+A"@, "Move cursor to line start"@, seq![HotkeyContext::Normal]),
        hk("Ctrl+E"@, "Move cursor to line end"@, seq![HotkeyContext::Normal]),
        hk("Home"@, "Move cursor to line start"@, seq![HotkeyContext::Normal]),
        hk("End"@, "Move cursor to line end"@, seq![HotkeyContext::Normal]),
        hk("Ctrl+U"@, "Delete from cursor to line start"@, seq![HotkeyContext::Normal]),
        hk("Ctrl+K"@, "Delete from cursor to line end"@, seq![HotkeyContext::Normal]),
        hk("Ctrl+W"@, "Delete word backward"@, seq![HotkeyContext::Normal]),
        hk("Alt+Backspace"@, "Delete word backward"@, seq![HotkeyContext::Normal]),
        hk("Alt+Delete"@, "Delete word forward"@, seq![HotkeyContext::Normal]),
        hk("Ctrl+Left"@, "Move word backward"@, seq![HotkeyContext::Normal]),
        hk("Ctrl+Right"@, "Move word forward"@, seq![HotkeyContext::Normal]),
        hk("Alt+Left"@, "Move word backward (alt)"@, seq![HotkeyContext::Normal]),
        hk("Alt+Right"@, "Move word forward (alt)"@, seq![HotkeyContext::Normal]),
        hk("Left / Right"@, "Move cursor by character"@, seq![HotkeyContext::Normal]),
        hk("Backspace"@, "Delete character before cursor"@, seq![HotkeyContext::Normal]),
        hk("Delete"@, "Delete character at cursor"@, seq![HotkeyContext::Normal]),
    ]
}

pub open spec fn views_modes_hotkeys_spec() -> Seq<HotkeyEntryView> {
    seq![
        hk("F10"@, "Toggle fullscreen mode"@, seq![HotkeyContext::Normal]),
        hk("Ctrl+Alt+F"@, "Toggle fullscreen mode (alt)"@, seq![HotkeyContext::Normal]),
        hk("F9"@, "Toggle conversation view style"@, seq![HotkeyContext::Normal]),
        hk("m"@, "Toggle mouse capture (for text selection)"@, seq![HotkeyContext::ConsoleView]),
        hk("c"@, "Copy console content to clipboard"@, seq![HotkeyContext::ConsoleView]),
    ]
}

pub open spec fn dialogs_hotkeys_spec() -> Seq<HotkeyEntryView> {
    seq![
        hk("Ctrl+F"@, "Open find dialog"@, seq![HotkeyContext::Normal]),
        hk("Ctrl+H"@, "Open find & replace dialog"@, seq![HotkeyContext::Normal]),
        hk("Ctrl+Alt+F"@, "Open file explorer"@, seq![HotkeyContext::Normal]),
        hk("Ctrl+G"@, "Open Git SCM panel"@, seq![HotkeyContext::Normal]),
        hk("F3"@, "Find next match"@, seq![HotkeyContext::FindDialog]),
        hk("Shift+F3"@, "Find previous match"@, seq![HotkeyContext::FindDialog]),
        hk("Tab"@, "Cycle through dialog elements"@, seq![HotkeyContext::FindDialog, HotkeyContext::HelpDialog]),
        hk("Shift+Tab"@, "Cycle backward through elements"@, seq![HotkeyContext::FindDialog, HotkeyContext::HelpDialog]),
        hk("Space"@, "Toggle checkbox"@, seq![HotkeyContext::FindDialog]),
    ]
}

pub open spec fn file_explorer_hotkeys_spec() -> Seq<HotkeyEntryView> {
    seq![
        hk("Up / Down"@, "Navigate file list"@, seq![HotkeyContext::FileExplorer]),
        hk("Enter"@, "Open directory or file"@, seq![HotkeyContext::FileExplorer]),
        hk("Space"@, "Toggle file selection"@, seq![HotkeyContext::FileExplorer]),
        hk("Left / Backspace"@, "Go to parent directory"@, seq![HotkeyContext::FileExplorer]),
        hk("Right"@, "Enter directory"@, seq![HotkeyContext::FileExplorer]),
        hk("/"@, "Start search/filter"@, seq![HotkeyContext::FileExplorer]),
        hk("e"@, "Edit current file"@, seq![HotkeyContext::FileExplorer]),
        hk("a"@, "Select all files"@, seq![HotkeyContext::FileExplorer]),
        hk("n"@, "Clear selection"@, seq![HotkeyContext::FileExplorer]),
        hk("."@, "Toggle hidden files"@, seq![HotkeyContext::FileExplorer]),
        hk("r"@, "Refresh directory"@, seq![HotkeyContext::FileExplorer]),
        hk("i"@, "Insert selected to working set"@, seq![HotkeyContext::FileExplorer]),
        hk("PageUp / PageDown"@, "Page navigation"@, seq![HotkeyContext::FileExplorer]),
        hk("Escape"@, "Exit file explorer"@, seq![HotkeyContext::FileExplorer]),
    ]
}

pub open spec fn git_scm_hotkeys_spec() -> Seq<HotkeyEntryView> {
    seq![
        hk("Tab"@, "Switch between panels"@, seq![HotkeyContext::GitScm]),
        hk("Up / Down"@, "Navigate file list"@, seq![HotkeyContext::GitScm]),
        hk("Space"@, "Toggle file selection"@, seq![HotkeyContext::GitScm]),
        hk("s / Enter"@, "Stage selected file(s)"@, seq![HotkeyContext::GitScm]),
        hk("u"@, "Unstage selected file(s)"@, seq![HotkeyContext::GitScm]),
        hk("d"@, "Discard changes (with confirm)"@, seq![HotkeyContext::GitScm]),
        hk("c"@, "Start commit (enter message)"@, seq![HotkeyContext::GitScm]),
        hk("P"@, "Push to remote"@, seq![HotkeyContext::GitScm]),
        hk("p"@, "Pull from remote"@, seq![HotkeyContext::GitScm]),
        hk("f"@, "Fetch from remote"@, seq![HotkeyContext::GitScm]),
        hk("r"@, "Refresh status"@, seq![HotkeyContext::GitScm]),
        hk("PageUp / PageDown"@, "Scroll"@, seq![HotkeyContext::GitScm]),
        hk("Escape"@, "Close Git SCM"@, seq![HotkeyContext::GitScm]),
    ]
}

pub open spec fn nano_editor_hotkeys_spec() -> Seq<HotkeyEntryView> {
    seq![
        hk("Arrow Keys"@, "Move cursor"@, seq![HotkeyContext::NanoEditor]),
        hk("Ctrl+S / Ctrl+O"@, "Save file"@, seq![HotkeyContext::NanoEditor]),
        hk("Ctrl+X"@, "Exit editor"@, seq![HotkeyContext::NanoEditor]),
        hk("Ctrl+K"@, "Cut line"@, seq![HotkeyContext::NanoEditor]),
        hk("Ctrl+U"@, "Paste"@, seq![HotkeyContext::NanoEditor]),
        hk("Home / End"@, "Line start/end"@, seq![HotkeyContext::NanoEditor]),
        hk("PageUp / PageDown"@, "Page navigation"@, seq![HotkeyContext::NanoEditor]),
        hk("Backspace"@, "Delete backward"@, seq![HotkeyContext::NanoEditor]),
        hk("Delete"@, "Delete forward"@, seq![HotkeyContext::NanoEditor]),
        hk("Enter"@, "Insert newline"@, seq![HotkeyContext::NanoEditor]),
        hk("Tab"@, "Insert tab character"@, seq![HotkeyContext::NanoEditor]),
        hk("Escape"@, "Exit (warns if unsaved)"@, seq![HotkeyContext::NanoEditor]),
    ]
}

pub open spec fn task_viewer_hotkeys_spec() -> Seq<HotkeyEntryView> {
    seq![
        hk("Up / Down"@, "Navigate tasks"@, seq![HotkeyContext::TaskViewer]),
        hk("Enter / Left / Right"@, "Toggle expand/collapse"@, seq![HotkeyContext::TaskViewer]),
        hk("Space"@, "Toggle task status"@, seq![HotkeyContext::TaskViewer]),
        hk("PageUp / PageDown"@, "Scroll"@, seq![HotkeyContext::TaskViewer]),
        hk("Escape"@, "Close task viewer"@, seq![HotkeyContext::TaskViewer]),
    ]
}

pub open spec fn tool_picker_hotkeys_spec() -> Seq<HotkeyEntryView> {
    seq![
        hk("Up / Down"@, "Navigate tools"@, seq![HotkeyContext::ToolPicker]),
        hk("Space"@, "Toggle tool selection"@, seq![HotkeyContext::ToolPicker]),
        hk("a / A"@, "Select all tools"@, seq![HotkeyContext::ToolPicker]),
        hk("n / N"@, "Select no tools"@, seq![HotkeyContext::ToolPicker]),
        hk("Left"@, "Collapse category"@, seq![HotkeyContext::ToolPicker]),
        hk("Right"@, "Expand category"@, seq![HotkeyContext::ToolPicker]),
        hk("Enter"@, "Confirm selection"@, seq![HotkeyContext::ToolPicker]),
        hk("Escape"@, "Cancel picker"@, seq![HotkeyContext::ToolPicker]),
    ]
}

pub open spec fn plan_mode_hotkeys_spec() -> Seq<HotkeyEntryView> {
    seq![
        hk("Ctrl+P"@, "Toggle plan mode"@, seq![HotkeyContext::Global]),
        hk("Enter"@, "Submit message in plan mode"@, seq![HotkeyContext::PlanMode]),
        hk("Ctrl+P"@, "Exit plan mode"@, seq![HotkeyContext::PlanMode]),
        hk("Escape"@, "Exit plan mode"@, seq![HotkeyContext::PlanMode]),
        hk("Ctrl+E"@, "Export plan mode session"@, seq![HotkeyContext::PlanMode]),
        hk("Up / Down"@, "Scroll / Navigate history"@, seq![HotkeyContext::PlanMode]),
    ]
}

impl HotkeyCategory {
    /// The position of the category in [`hotkey_categories`].
    pub open spec fn position(self) -> int {
        match self {
            HotkeyCategory::GlobalActions => 0,
            HotkeyCategory::Navigation => 1,
            HotkeyCategory::TextEditing => 2,
            HotkeyCategory::ViewsModes => 3,
            HotkeyCategory::Dialogs => 4,
            HotkeyCategory::FileExplorer => 5,
            HotkeyCategory::GitScm => 6,
            HotkeyCategory::NanoEditor => 7,
            HotkeyCategory::TaskViewer => 8,
            HotkeyCategory::ToolPicker => 9,
            HotkeyCategory::PlanMode => 10,
        }
    }

    pub open spec fn name_spec(self) -> Seq<char> {
        match self {
            HotkeyCategory::GlobalActions => "Global Actions"@,
            HotkeyCategory::Navigation => "Navigation"@,
            HotkeyCategory::TextEditing => "Text Editing"@,
            HotkeyCategory::ViewsModes => "Views & Modes"@,
            HotkeyCategory::Dialogs => "Dialogs"@,
            HotkeyCategory::FileExplorer => "File Explorer"@,
            HotkeyCategory::GitScm => "Git SCM"@,
            HotkeyCategory::NanoEditor => "Nano Editor"@,
            HotkeyCategory::TaskViewer => "Task Viewer"@,
            HotkeyCategory::ToolPicker => "Tool Picker"@,
            HotkeyCategory::PlanMode => "Plan Mode"@,
        }
    }

    pub open spec fn icon_spec(self) -> Seq<char> {
        match self {
            HotkeyCategory::GlobalActions => "⚡"@,
            HotkeyCategory::Navigation => "🧭"@,
            HotkeyCategory::TextEditing => "✏️"@,
            HotkeyCategory::ViewsModes => "🖥️"@,
            HotkeyCategory::Dialogs => "📋"@,
            HotkeyCategory::FileExplorer => "📁"@,
            HotkeyCategory::GitScm => "🔀"@,
            HotkeyCategory::NanoEditor => "📝"@,
            HotkeyCategory::TaskViewer => "📊"@,
            HotkeyCategory::ToolPicker => "🔧"@,
            HotkeyCategory::PlanMode => "📐"@,
        }
    }

    /// The entries of the category.
    pub open spec fn entries_spec(self) -> Seq<HotkeyEntryView> {
        match self {
            HotkeyCategory::GlobalActions => global_actions_spec(),
            HotkeyCategory::Navigation => navigation_hotkeys_spec(),
            HotkeyCategory::TextEditing => text_editing_hotkeys_spec(),
            HotkeyCategory::ViewsModes => views_modes_hotkeys_spec(),
            HotkeyCategory::Dialogs => dialogs_hotkeys_spec(),
            HotkeyCategory::FileExplorer => file_explorer_hotkeys_spec(),
            HotkeyCategory::GitScm => git_scm_hotkeys_spec(),
            HotkeyCategory::NanoEditor => nano_editor_hotkeys_spec(),
            HotkeyCategory::TaskViewer => task_viewer_hotkeys_spec(),
            HotkeyCategory::ToolPicker => tool_picker_hotkeys_spec(),
            HotkeyCategory::PlanMode => plan_mode_hotkeys_spec(),
        }
    }

    /// The category after this one, wrapping around.
    pub open spec fn next_spec(self) -> HotkeyCategory {
        hotkey_categories()[(self.position() + 1) % 11]
    }

    /// The category before this one, wrapping around.
    pub open spec fn prev_spec(self) -> HotkeyCategory {
        hotkey_categories()[(self.position() + 11 - 1) % 11]
    }

    /// Get all categories in order.
    pub fn all() -> (r: Vec<HotkeyCategory>)
        ensures
            r@ == hotkey_categories(),
    {
        let v = vec![
            HotkeyCategory::GlobalActions,
            HotkeyCategory::Navigation,
            HotkeyCategory::TextEditing,
            HotkeyCategory::ViewsModes,
            HotkeyCategory::Dialogs,
            HotkeyCategory::FileExplorer,
            HotkeyCategory::GitScm,
            HotkeyCategory::NanoEditor,
            HotkeyCategory::TaskViewer,
            HotkeyCategory::ToolPicker,
            HotkeyCategory::PlanMode,
        ];
        assert(v@ =~= hotkey_categories());
        v
    }

    /// Get the display name for this category.
    pub fn display_name(&self) -> (r: &'static str)
        ensures
            r@ == self.name_spec(),
    {
        match self {
            HotkeyCategory::GlobalActions => "Global Actions",
            HotkeyCategory::Navigation => "Navigation",
            HotkeyCategory::TextEditing => "Text Editing",
            HotkeyCategory::ViewsModes => "Views & Modes",
            HotkeyCategory::Dialogs => "Dialogs",
            HotkeyCategory::FileExplorer => "File Explorer",
            HotkeyCategory::GitScm => "Git SCM",
            HotkeyCategory::NanoEditor => "Nano Editor",
            HotkeyCategory::TaskViewer => "Task Viewer",
            HotkeyCategory::ToolPicker => "Tool Picker",
            HotkeyCategory::PlanMode => "Plan Mode",
        }
    }

    /// Get the icon for this category.
    pub fn icon(&self) -> (r: &'static str)
        ensures
            r@ == self.icon_spec(),
    {
        match self {
            HotkeyCategory::GlobalActions => "⚡",
            HotkeyCategory::Navigation => "🧭",
            HotkeyCategory::TextEditing => "✏️",
            HotkeyCategory::ViewsModes => "🖥️",
            HotkeyCategory::Dialogs => "📋",
            HotkeyCategory::FileExplorer => "📁",
            HotkeyCategory::GitScm => "🔀",
            HotkeyCategory::NanoEditor => "📝",
            HotkeyCategory::TaskViewer => "📊",
            HotkeyCategory::ToolPicker => "🔧",
            HotkeyCategory::PlanMode => "📐",
        }
    }

    /// Get hotkey entries for this category.
    pub fn entries(&self) -> (r: Vec<HotkeyEntry>)
        ensures
            r@.map_values(|e: HotkeyEntry| e@) == self.entries_spec(),
    {
        match self {
            HotkeyCategory::GlobalActions => get_global_actions(),
            HotkeyCategory::Navigation => get_navigation_hotkeys(),
            HotkeyCategory::TextEditing => get_text_editing_hotkeys(),
            HotkeyCategory::ViewsModes => get_views_modes_hotkeys(),
            HotkeyCategory::Dialogs => get_dialogs_hotkeys(),
            HotkeyCategory::FileExplorer => get_file_explorer_hotkeys(),
            HotkeyCategory::GitScm => get_git_scm_hotkeys(),
            HotkeyCategory::NanoEditor => get_nano_editor_hotkeys(),
            HotkeyCategory::TaskViewer => get_task_viewer_hotkeys(),
            HotkeyCategory::ToolPicker => get_tool_picker_hotkeys(),
            HotkeyCategory::PlanMode => get_plan_mode_hotkeys(),
        }
    }

    /// Get the next category (wraps around).
    pub fn next(&self) -> (r: HotkeyCategory)
        ensures
            r == self.next_spec(),
    {
        match self {
            HotkeyCategory::GlobalActions => HotkeyCategory::Navigation,
            HotkeyCategory::Navigation => HotkeyCategory::TextEditing,
            HotkeyCategory::TextEditing => HotkeyCategory::ViewsModes,
            HotkeyCategory::ViewsModes => HotkeyCategory::Dialogs,
            HotkeyCategory::Dialogs => HotkeyCategory::FileExplorer,
            HotkeyCategory::FileExplorer => HotkeyCategory::GitScm,
            HotkeyCategory::GitScm => HotkeyCategory::NanoEditor,
            HotkeyCategory::NanoEditor => HotkeyCategory::TaskViewer,
            HotkeyCategory::TaskViewer => HotkeyCategory::ToolPicker,
            HotkeyCategory::ToolPicker => HotkeyCategory::PlanMode,
            HotkeyCategory::PlanMode => HotkeyCategory::GlobalActions,
        }
    }

    /// Get the previous category (wraps around).
    pub fn prev(&self) -> (r: HotkeyCategory)
        ensures
            r == self.prev_spec(),
    {
        match self {
            HotkeyCategory::GlobalActions => HotkeyCategory::PlanMode,
            HotkeyCategory::Navigation => HotkeyCategory::GlobalActions,
            HotkeyCategory::TextEditing => HotkeyCategory::Navigation,
            HotkeyCategory::ViewsModes => HotkeyCategory::TextEditing,
            HotkeyCategory::Dialogs => HotkeyCategory::ViewsModes,
            HotkeyCategory::FileExplorer => HotkeyCategory::Dialogs,
            HotkeyCategory::GitScm => HotkeyCategory::FileExplorer,
            HotkeyCategory::NanoEditor => HotkeyCategory::GitScm,
            HotkeyCategory::TaskViewer => HotkeyCategory::NanoEditor,
            HotkeyCategory::ToolPicker => HotkeyCategory::TaskViewer,
            HotkeyCategory::PlanMode => HotkeyCategory::ToolPicker,
        }
    }
}

/// Going to the next category and back, or back and then on, returns to the
/// category one started from; and the order of `next` is the order of
/// `all`, each category standing once in it.
pub proof fn lemma_hotkey_category_cycle(c: HotkeyCategory)
    ensures
        c.next_spec().prev_spec() == c,
        c.prev_spec().next_spec() == c,
        hotkey_categories()[c.position()] == c,
        c.next_spec().position() == (c.position() + 1) % 11,
{
}

fn get_global_actions() -> (r: Vec<HotkeyEntry>)
    ensures
        r@.map_values(|e: HotkeyEntry| e@) == global_actions_spec(),
{
    let v = vec![
        HotkeyEntry::fixed("Ctrl+C", "Quit application", vec![HotkeyContext::Global]),
        HotkeyEntry::new("Ctrl+Z", "Open suspend/background dialog", vec![HotkeyContext::Global]),
        HotkeyEntry::new("Escape", "Exit current mode/dialog", vec![HotkeyContext::Global]),
        HotkeyEntry::new("F1", "Open help dialog", vec![HotkeyContext::Global]),
        HotkeyEntry::new("Enter", "Submit message", vec![HotkeyContext::Normal]),
        HotkeyEntry::new("Tab", "Toggle focus between panels", vec![HotkeyContext::Normal]),
        HotkeyEntry::new("Shift+Tab", "Reverse focus navigation", vec![HotkeyContext::Normal]),
    ];
    assert(v@.map_values(|e: HotkeyEntry| e@) =~~= global_actions_spec());
    v
}

fn get_navigation_hotkeys() -> (r: Vec<HotkeyEntry>)
    ensures
        r@.map_values(|e: HotkeyEntry| e@) == navigation_hotkeys_spec(),
{
    let v = vec![
        HotkeyEntry::new("Ctrl+L", "Open session picker", vec![HotkeyContext::Normal]),
        HotkeyEntry::new("Ctrl+D", "Toggle console view", vec![HotkeyContext::Normal]),
        HotkeyEntry::new("Ctrl+T", "Open task viewer", vec![HotkeyContext::Normal]),
        HotkeyEntry::new("Ctrl+R", "Reverse search history", vec![HotkeyContext::Normal]),
        HotkeyEntry::new("Up / Down", "Scroll conversation / Navigate lists", vec![HotkeyContext::Normal]),
        HotkeyEntry::new("PageUp / PageDown", "Page scroll", vec![HotkeyContext::Normal]),
        HotkeyEntry::new("Ctrl+Home", "Scroll to document start", vec![HotkeyContext::Normal]),
        HotkeyEntry::new("Ctrl+End", "Scroll to document end", vec![HotkeyContext::Normal]),
        HotkeyEntry::new("Ctrl+Up", "Scroll to document start (alt)", vec![HotkeyContext::Normal]),
        HotkeyEntry::new("Ctrl+Down", "Scroll to document end (alt)", vec![HotkeyContext::Normal]),
    ];
    assert(v@.map_values(|e: HotkeyEntry| e@) =~~= navigation_hotkeys_spec());
    v
}

fn get_text_editing_hotkeys() -> (r: Vec<HotkeyEntry>)
    ensures
        r@.map_values(|e: HotkeyEntry| e@) == text_editing_hotkeys_spec(),
{
    let v = vec![
        HotkeyEntry::new("Shift+Enter", "Insert newline (multiline)", vec![HotkeyContext::Normal]),
        HotkeyEntry::new("Alt+Enter", "Insert newline (multiline)", vec![HotkeyContext::Normal]),
        HotkeyEntry::new("Ctrl+J", "Insert newline (Unix standard)", vec![HotkeyContext::Normal]),
        HotkeyEntry::new("Ctrl+A", "Move cursor to line start", vec![HotkeyContext::Normal]),
        HotkeyEntry::new("Ctrl+E", "Move cursor to line end", vec![HotkeyContext::Normal]),
        HotkeyEntry::new("Home", "Move cursor to line start", vec![HotkeyContext::Normal]),
        HotkeyEntry::new("End", "Move cursor to line end", vec![HotkeyContext::Normal]),
        HotkeyEntry::new("Ctrl+U", "Delete from cursor to line start", vec![HotkeyContext::Normal]),
        HotkeyEntry::new("Ctrl+K", "Delete from cursor to line end", vec![HotkeyContext::Normal]),
        HotkeyEntry::new("Ctrl+W", "Delete word backward", vec![HotkeyContext::Normal]),
        HotkeyEntry::new("Alt+Backspace", "Delete word backward", vec![HotkeyContext::Normal]),
        HotkeyEntry::new("Alt+Delete", "Delete word forward", vec![HotkeyContext::Normal]),
        HotkeyEntry::new("Ctrl+Left", "Move word backward", vec![HotkeyContext::Normal]),
        HotkeyEntry::new("Ctrl+Right", "Move word forward", vec![HotkeyContext::Normal]),
        HotkeyEntry::new("Alt+Left", "Move word backward (alt)", vec![HotkeyContext::Normal]),
        HotkeyEntry::new("Alt+Right", "Move word forward (alt)", vec![HotkeyContext::Normal]),
        HotkeyEntry::new("Left / Right", "Move cursor by character", vec![HotkeyContext::Normal]),
        HotkeyEntry::new("Backspace", "Delete character before cursor", vec![HotkeyContext::Normal]),
        HotkeyEntry::new("Delete", "Delete character at cursor", vec![HotkeyContext::Normal]),
    ];
    assert(v@.map_values(|e: HotkeyEntry| e@) =~~= text_editing_hotkeys_spec());
    v
}

fn get_views_modes_hotkeys() -> (r: Vec<HotkeyEntry>)
    ensures
        r@.map_values(|e: HotkeyEntry| e@) == views_modes_hotkeys_spec(),
{
    let v = vec![
        HotkeyEntry::new("F10", "Toggle fullscreen mode", vec![HotkeyContext::Normal]),
        HotkeyEntry::new("Ctrl+Alt+F", "Toggle fullscreen mode (alt)", vec![HotkeyContext::Normal]),
        HotkeyEntry::new("F9", "Toggle conversation view style", vec![HotkeyContext::Normal]),
        HotkeyEntry::new("m", "Toggle mouse capture (for text selection)", vec![HotkeyContext::ConsoleView]),
        HotkeyEntry::new("c", "Copy console content to clipboard", vec![HotkeyContext::ConsoleView]),
    ];
    assert(v@.map_values(|e: HotkeyEntry| e@) =~~= views_modes_hotkeys_spec());
    v
}

fn get_dialogs_hotkeys() -> (r: Vec<HotkeyEntry>)
    ensures
        r@.map_values(|e: HotkeyEntry| e@) == dialogs_hotkeys_spec(),
{
    let v = vec![
        HotkeyEntry::new("Ctrl+F", "Open find dialog", vec![HotkeyContext::Normal]),
        HotkeyEntry::new("Ctrl+H", "Open find & replace dialog", vec![HotkeyContext::Normal]),
        HotkeyEntry::new("Ctrl+Alt+F", "Open file explorer", vec![HotkeyContext::Normal]),
        HotkeyEntry::new("Ctrl+G", "Open Git SCM panel", vec![HotkeyContext::Normal]),
        HotkeyEntry::new("F3", "Find next match", vec![HotkeyContext::FindDialog]),
        HotkeyEntry::new("Shift+F3", "Find previous match", vec![HotkeyContext::FindDialog]),
        HotkeyEntry::new("Tab", "Cycle through dialog elements", vec![HotkeyContext::FindDialog, HotkeyContext::HelpDialog]),
        HotkeyEntry::new("Shift+Tab", "Cycle backward through elements", vec![HotkeyContext::FindDialog, HotkeyContext::HelpDialog]),
        HotkeyEntry::new("Space", "Toggle checkbox", vec![HotkeyContext::FindDialog]),
    ];
    assert(v@.map_values(|e: HotkeyEntry| e@) =~~= dialogs_hotkeys_spec());
    v
}

fn get_file_explorer_hotkeys() -> (r: Vec<HotkeyEntry>)
    ensures
        r@.map_values(|e: HotkeyEntry| e@) == file_explorer_hotkeys_spec(),
{
    let v = vec![
        HotkeyEntry::new("Up / Down", "Navigate file list", vec![HotkeyContext::FileExplorer]),
        HotkeyEntry::new("Enter", "Open directory or file", vec![HotkeyContext::FileExplorer]),
        HotkeyEntry::new("Space", "Toggle file selection", vec![HotkeyContext::FileExplorer]),
        HotkeyEntry::new("Left / Backspace", "Go to parent directory", vec![HotkeyContext::FileExplorer]),
        HotkeyEntry::new("Right", "Enter directory", vec![HotkeyContext::FileExplorer]),
        HotkeyEntry::new("/", "Start search/filter", vec![HotkeyContext::FileExplorer]),
        HotkeyEntry::new("e", "Edit current file", vec![HotkeyContext::FileExplorer]),
        HotkeyEntry::new("a", "Select all files", vec![HotkeyContext::FileExplorer]),
        HotkeyEntry::new("n", "Clear selection", vec![HotkeyContext::FileExplorer]),
        HotkeyEntry::new(".", "Toggle hidden files", vec![HotkeyContext::FileExplorer]),
        HotkeyEntry::new("r", "Refresh directory", vec![HotkeyContext::FileExplorer]),
        HotkeyEntry::new("i", "Insert selected to working set", vec![HotkeyContext::FileExplorer]),
        HotkeyEntry::new("PageUp / PageDown", "Page navigation", vec![HotkeyContext::FileExplorer]),
        HotkeyEntry::new("Escape", "Exit file explorer", vec![HotkeyContext::FileExplorer]),
    ];
    assert(v@.map_values(|e: HotkeyEntry| e@) =~~= file_explorer_hotkeys_spec());
    v
}

fn get_git_scm_hotkeys() -> (r: Vec<HotkeyEntry>)
    ensures
        r@.map_values(|e: HotkeyEntry| e@) == git_scm_hotkeys_spec(),
{
    let v = vec![
        HotkeyEntry::new("Tab", "Switch between panels", vec![HotkeyContext::GitScm]),
        HotkeyEntry::new("Up / Down", "Navigate file list", vec![HotkeyContext::GitScm]),
        HotkeyEntry::new("Space", "Toggle file selection", vec![HotkeyContext::GitScm]),
        HotkeyEntry::new("s / Enter", "Stage selected file(s)", vec![HotkeyContext::GitScm]),
        HotkeyEntry::new("u", "Unstage selected file(s)", vec![HotkeyContext::GitScm]),
        HotkeyEntry::new("d", "Discard changes (with confirm)", vec![HotkeyContext::GitScm]),
        HotkeyEntry::new("c", "Start commit (enter message)", vec![HotkeyContext::GitScm]),
        HotkeyEntry::new("P", "Push to remote", vec![HotkeyContext::GitScm]),
        HotkeyEntry::new("p", "Pull from remote", vec![HotkeyContext::GitScm]),
        HotkeyEntry::new("f", "Fetch from remote", vec![HotkeyContext::GitScm]),
        HotkeyEntry::new("r", "Refresh status", vec![HotkeyContext::GitScm]),
        HotkeyEntry::new("PageUp / PageDown", "Scroll", vec![HotkeyContext::GitScm]),
        HotkeyEntry::new("Escape", "Close Git SCM", vec![HotkeyContext::GitScm]),
    ];
    assert(v@.map_values(|e: HotkeyEntry| e@) =~~= git_scm_hotkeys_spec());
    v
}

fn get_nano_editor_hotkeys() -> (r: Vec<HotkeyEntry>)
    ensures
        r@.map_values(|e: HotkeyEntry| e@) == nano_editor_hotkeys_spec(),
{
    let v = vec![
        HotkeyEntry::new("Arrow Keys", "Move cursor", vec![HotkeyContext::NanoEditor]),
        HotkeyEntry::new("Ctrl+S / Ctrl+O", "Save file", vec![HotkeyContext::NanoEditor]),
        HotkeyEntry::new("Ctrl+X", "Exit editor", vec![HotkeyContext::NanoEditor]),
        HotkeyEntry::new("Ctrl+K", "Cut line", vec![HotkeyContext::NanoEditor]),
        HotkeyEntry::new("Ctrl+U", "Paste", vec![HotkeyContext::NanoEditor]),
        HotkeyEntry::new("Home / End", "Line start/end", vec![HotkeyContext::NanoEditor]),
        HotkeyEntry::new("PageUp / PageDown", "Page navigation", vec![HotkeyContext::NanoEditor]),
        HotkeyEntry::new("Backspace", "Delete backward", vec![HotkeyContext::NanoEditor]),
        HotkeyEntry::new("Delete", "Delete forward", vec![HotkeyContext::NanoEditor]),
        HotkeyEntry::new("Enter", "Insert newline", vec![HotkeyContext::NanoEditor]),
        HotkeyEntry::new("Tab", "Insert tab character", vec![HotkeyContext::NanoEditor]),
        HotkeyEntry::new("Escape", "Exit (warns if unsaved)", vec![HotkeyContext::NanoEditor]),
    ];
    assert(v@.map_values(|e: HotkeyEntry| e@) =~~= nano_editor_hotkeys_spec());
    v
}

fn get_task_viewer_hotkeys() -> (r: Vec<HotkeyEntry>)
    ensures
        r@.map_values(|e: HotkeyEntry| e@) == task_viewer_hotkeys_spec(),
{
    let v = vec![
        HotkeyEntry::new("Up / Down", "Navigate tasks", vec![HotkeyContext::TaskViewer]),
        HotkeyEntry::new("Enter / Left / Right", "Toggle expand/collapse", vec![HotkeyContext::TaskViewer]),
        HotkeyEntry::new("Space", "Toggle task status", vec![HotkeyContext::TaskViewer]),
        HotkeyEntry::new("PageUp / PageDown", "Scroll", vec![HotkeyContext::TaskViewer]),
        HotkeyEntry::new("Escape", "Close task viewer", vec![HotkeyContext::TaskViewer]),
    ];
    assert(v@.map_values(|e: HotkeyEntry| e@) =~~= task_viewer_hotkeys_spec());
    v
}

fn get_tool_picker_hotkeys() -> (r: Vec<HotkeyEntry>)
    ensures
        r@.map_values(|e: HotkeyEntry| e@) == tool_picker_hotkeys_spec(),
{
    let v = vec![
        HotkeyEntry::new("Up / Down", "Navigate tools", vec![HotkeyContext::ToolPicker]),
        HotkeyEntry::new("Space", "Toggle tool selection", vec![HotkeyContext::ToolPicker]),
        HotkeyEntry::new("a / A", "Select all tools", vec![HotkeyContext::ToolPicker]),
        HotkeyEntry::new("n / N", "Select no tools", vec![HotkeyContext::ToolPicker]),
        HotkeyEntry::new("Left", "Collapse category", vec![HotkeyContext::ToolPicker]),
        HotkeyEntry::new("Right", "Expand category", vec![HotkeyContext::ToolPicker]),
        HotkeyEntry::new("Enter", "Confirm selection", vec![HotkeyContext::ToolPicker]),
        HotkeyEntry::new("Escape", "Cancel picker", vec![HotkeyContext::ToolPicker]),
    ];
    assert(v@.map_values(|e: HotkeyEntry| e@) =~~= tool_picker_hotkeys_spec());
    v
}

fn get_plan_mode_hotkeys() -> (r: Vec<HotkeyEntry>)
    ensures
        r@.map_values(|e: HotkeyEntry| e@) == plan_mode_hotkeys_spec(),
{
    let v = vec![
        HotkeyEntry::new("Ctrl+P", "Toggle plan mode", vec![HotkeyContext::Global]),
        HotkeyEntry::new("Enter", "Submit message in plan mode", vec![HotkeyContext::PlanMode]),
        HotkeyEntry::new("Ctrl+P", "Exit plan mode", vec![HotkeyContext::PlanMode]),
        HotkeyEntry::new("Escape", "Exit plan mode", vec![HotkeyContext::PlanMode]),
        HotkeyEntry::new("Ctrl+E", "Export plan mode session", vec![HotkeyContext::PlanMode]),
        HotkeyEntry::new("Up / Down", "Scroll / Navigate history", vec![HotkeyContext::PlanMode]),
    ];
    assert(v@.map_values(|e: HotkeyEntry| e@) =~~= plan_mode_hotkeys_spec());
    v
}

/// Some context of the entry, shown by name and lower-cased, contains `q`.
pub open spec fn context_matches(q: Seq<char>, contexts: Seq<HotkeyContext>) -> bool {
    exists|i: int| 0 <= i < contexts.len() && contains_seq(lowercase(#[trigger] contexts[i].label_spec()), q)
}

/// An entry matches a lower-cased query when its lower-cased key
/// combination, action or one of its context names contains it.
pub open spec fn hotkey_matches(q: Seq<char>, e: HotkeyEntryView) -> bool {
    contains_seq(lowercase(e.key), q) || contains_seq(lowercase(e.action), q) || context_matches(q, e.contexts)
}

/// The entries of `es` that match `q`, in order, each with its category.
pub open spec fn hotkey_matches_in(
    q: Seq<char>,
    cat: HotkeyCategory,
    es: Seq<HotkeyEntryView>,
) -> Seq<(HotkeyCategory, HotkeyEntryView)>
    decreases es.len(),
{
    if es.len() == 0 {
        seq![]
    } else {
        let r = hotkey_matches_in(q, cat, es.drop_last());
        if hotkey_matches(q, es.last()) {
            r.push((cat, es.last()))
        } else {
            r
        }
    }
}

/// The matches in the first `n` categories.
pub open spec fn hotkey_search_upto(q: Seq<char>, n: nat) -> Seq<(HotkeyCategory, HotkeyEntryView)>
    decreases n,
{
    if n == 0 {
        seq![]
    } else {
        let c = hotkey_categories()[n - 1];
        hotkey_search_upto(q, (n - 1) as nat) + hotkey_matches_in(q, c, c.entries_spec())
    }
}

/// What a search for `query` finds: nothing for an empty query, else every
/// entry whose key combination, action or a context name contains the
/// query, ignoring case, category by category.
pub open spec fn search_hotkeys_spec(query: Seq<char>) -> Seq<(HotkeyCategory, HotkeyEntryView)> {
    if query.len() == 0 {
        seq![]
    } else {
        hotkey_search_upto(lowercase(query), 11)
    }
}

pub open spec fn hotkey_results_view(r: Seq<(HotkeyCategory, HotkeyEntry)>) -> Seq<(HotkeyCategory, HotkeyEntryView)> {
    r.map_values(|p: (HotkeyCategory, HotkeyEntry)| (p.0, p.1@))
}

fn any_context_matches(contexts: &Vec<HotkeyContext>, q: &str) -> (r: bool)
    ensures
        r == context_matches(q@, contexts@),
{
    let mut i: usize = 0;
    while i < contexts.len()
        invariant
            i <= contexts@.len(),
            forall|j: int| 0 <= j < i ==> !contains_seq(lowercase(#[trigger] contexts@[j].label_spec()), q@),
        decreases contexts@.len() - i,
    {
        let l = to_lowercase(contexts[i].label());
        if str_contains(l.as_str(), q) {
            return true;
        }
        i = i + 1;
    }
    false
}

/// Search across all categories for matching entries.
pub fn search_hotkeys(query: &str) -> (r: Vec<(HotkeyCategory, HotkeyEntry)>)
    ensures
        hotkey_results_view(r@) == search_hotkeys_spec(query@),
{
    let mut results: Vec<(HotkeyCategory, HotkeyEntry)> = Vec::new();
    if query.is_empty() {
        assert(hotkey_results_view(results@) =~= seq![]);
        return results;
    }
    let q = to_lowercase(query);
    let all = HotkeyCategory::all();
    let mut k: usize = 0;
    assert(hotkey_results_view(results@) =~= hotkey_search_upto(q@, 0));
    while k < all.len()
        invariant
            all@ == hotkey_categories(),
            k <= all@.len(),
            q@ == lowercase(query@),
            hotkey_results_view(results@) == hotkey_search_upto(q@, k as nat),
        decreases all@.len() - k,
    {
        let cat = all[k];
        let es = cat.entries();
        let ghost base = hotkey_results_view(results@);
        let ghost ev = es@.map_values(|e: HotkeyEntry| e@);
        let mut j: usize = 0;
        assert(ev.take(0) =~= seq![]);
        assert(base + hotkey_matches_in(q@, cat, ev.take(0)) =~= base);
        while j < es.len()
            invariant
                j <= es@.len(),
                ev == es@.map_values(|e: HotkeyEntry| e@),
                hotkey_results_view(results@) == base + hotkey_matches_in(q@, cat, ev.take(j as int)),
            decreases es@.len() - j,
        {
            assert(ev.take(j + 1).drop_last() =~= ev.take(j as int));
            assert(ev.take(j + 1).last() == es@[j as int]@);
            let e = &es[j];
            let kl = to_lowercase(e.key_combination.as_str());
            let al = to_lowercase(e.action.as_str());
            if str_contains(kl.as_str(), q.as_str()) || str_contains(al.as_str(), q.as_str())
                || any_context_matches(&e.contexts, q.as_str()) {
                let ghost before = hotkey_results_view(results@);
                results.push((cat, e.clone_entry()));
                assert(hotkey_results_view(results@) =~= before.push((cat, ev[j as int])));
                assert(hotkey_matches(q@, ev.take(j + 1).last()));
                assert(hotkey_results_view(results@) =~= base + hotkey_matches_in(q@, cat, ev.take(j + 1)));
            }
            j = j + 1;
        }
        assert(ev.take(es@.len() as int) =~= ev);
        assert(hotkey_categories()[k as int] == cat);
        assert(ev == cat.entries_spec());
        assert(hotkey_search_upto(q@, (k + 1) as nat) == hotkey_search_upto(q@, k as nat) + hotkey_matches_in(
            q@,
            cat,
            cat.entries_spec(),
        ));
        k = k + 1;
    }
    results
}

/// The number of entries in the first `n` categories.
pub open spec fn hotkey_count_upto(n: nat) -> nat
    decreases n,
{
    if n == 0 {
        0
    } else {
        hotkey_count_upto((n - 1) as nat) + hotkey_categories()[n - 1].entries_spec().len()
    }
}

/// Get total count of hotkeys.
pub fn hotkey_count() -> (r: usize)
    ensures
        r == hotkey_count_upto(11),
{
    let all = HotkeyCategory::all();
    let mut total: usize = 0;
    let mut k: usize = 0;
    while k < all.len()
        invariant
            all@ == hotkey_categories(),
            k <= all@.len(),
            total == hotkey_count_upto(k as nat),
            hotkey_count_upto(k as nat) <= 108,
        decreases all@.len() - k,
    {
        let n = all[k].entries().len();
        proof {
            lemma_hotkey_count_total();
            lemma_hotkey_count_monotone((k + 1) as nat, 11);
        }
        total = total + n;
        k = k + 1;
    }
    total
}

/// There are 108 hotkeys in all.
pub proof fn lemma_hotkey_count_total()
    ensures
        hotkey_count_upto(11) == 108,
{
    reveal_with_fuel(hotkey_count_upto, 12);
}

proof fn lemma_hotkey_count_monotone(a: nat, b: nat)
    requires
        a <= b,
    ensures
        hotkey_count_upto(a) <= hotkey_count_upto(b),
    decreases b,
{
    if a < b {
        lemma_hotkey_count_monotone(a, (b - 1) as nat);
    }
}

/// A hotkey as the hotkey dialog shows it.
#[derive(Debug, Clone)]
pub struct HotkeyEntryData {
    pub key_combination: String,
    pub action: String,
    /// The contexts, as shown
    pub context: String,
    /// Whether the hotkey is active everywhere
    pub is_global: bool,
    pub is_customizable: bool,
}

impl HotkeyEntryData {
    /// What the dialog shows of an entry.
    pub fn from_entry(entry: HotkeyEntry) -> (r: HotkeyEntryData)
        ensures
            r.key_combination@ == entry.key_combination@,
            r.action@ == entry.action@,
            r.context@ == context_string_spec(entry.contexts@),
            r.is_global == (entry.contexts@.len() == 1 && entry.contexts@[0] == HotkeyContext::Global),
            r.is_customizable == entry.is_customizable,
    {
        let is_global = entry.contexts.len() == 1 && entry.contexts[0] == HotkeyContext::Global;
        let context = entry.context_string();
        HotkeyEntryData {
            key_combination: entry.key_combination,
            action: entry.action,
            context,
            is_global,
            is_customizable: entry.is_customizable,
        }
    }
}

/// Supplies the hotkeys of this program to the hotkey dialog.
#[derive(Debug, Clone, Copy)]
pub struct BrainwiresHotkeyProvider;

impl BrainwiresHotkeyProvider {
    /// The entries of a category, as the dialog shows them.
    pub fn entries_for_category(&self, category: HotkeyCategory) -> (r: Vec<HotkeyEntryData>)
        ensures
            r@.len() == category.entries_spec().len(),
            forall|i: int| 0 <= i < r@.len() ==> {
                let e = #[trigger] category.entries_spec()[i];
                &&& r@[i].key_combination@ == e.key
                &&& r@[i].action@ == e.action
                &&& r@[i].context@ == context_string_spec(e.contexts)
                &&& r@[i].is_global == (e.contexts.len() == 1 && e.contexts[0] == HotkeyContext::Global)
                &&& r@[i].is_customizable == e.is_customizable
            },
    {
        let mut es = category.entries();
        let ghost ev = es@.map_values(|e: HotkeyEntry| e@);
        let mut out: Vec<HotkeyEntryData> = Vec::new();
        let mut i: usize = 0;
        let n = es.len();
        while i < n
            invariant
                n == es@.len(),
                ev == es@.map_values(|e: HotkeyEntry| e@),
                i <= n,
                out@.len() == i,
                forall|j: int| 0 <= j < i ==> {
                    let e = #[trigger] ev[j];
                    &&& out@[j].key_combination@ == e.key
                    &&& out@[j].action@ == e.action
                    &&& out@[j].context@ == context_string_spec(e.contexts)
                    &&& out@[j].is_global == (e.contexts.len() == 1 && e.contexts[0] == HotkeyContext::Global)
                    &&& out@[j].is_customizable == e.is_customizable
                },
            decreases n - i,
        {
            let e = es[i].clone_entry();
            assert(ev[i as int] == e@);
            out.push(HotkeyEntryData::from_entry(e));
            i = i + 1;
        }
        out
    }

    /// The search results, as the dialog shows them.
    pub fn search(&self, query: &str) -> (r: Vec<(HotkeyCategory, HotkeyEntryData)>)
        ensures
            r@.len() == search_hotkeys_spec(query@).len(),
            forall|i: int| 0 <= i < r@.len() ==> {
                let (c, e) = #[trigger] search_hotkeys_spec(query@)[i];
                &&& r@[i].0 == c
                &&& r@[i].1.key_combination@ == e.key
                &&& r@[i].1.action@ == e.action
                &&& r@[i].1.context@ == context_string_spec(e.contexts)
                &&& r@[i].1.is_global == (e.contexts.len() == 1 && e.contexts[0] == HotkeyContext::Global)
                &&& r@[i].1.is_customizable == e.is_customizable
            },
    {
        let found = search_hotkeys(query);
        let ghost fv = hotkey_results_view(found@);
        let mut out: Vec<(HotkeyCategory, HotkeyEntryData)> = Vec::new();
        let mut i: usize = 0;
        let n = found.len();
        while i < n
            invariant
                n == found@.len(),
                fv == hotkey_results_view(found@),
                i <= n,
                out@.len() == i,
                forall|j: int| 0 <= j < i ==> {
                    let (c, e) = #[trigger] fv[j];
                    &&& out@[j].0 == c
                    &&& out@[j].1.key_combination@ == e.key
                    &&& out@[j].1.action@ == e.action
                    &&& out@[j].1.context@ == context_string_spec(e.contexts)
                    &&& out@[j].1.is_global == (e.contexts.len() == 1 && e.contexts[0] == HotkeyContext::Global)
                    &&& out@[j].1.is_customizable == e.is_customizable
                },
            decreases n - i,
        {
            let c = found[i].0;
            let e = found[i].1.clone_entry();
            assert(fv[i as int] == (c, e@));
            out.push((c, HotkeyEntryData::from_entry(e)));
            i = i + 1;
        }
        out
    }
}

} // verus!

verus! {

/// How many of the entries cannot be customized.
pub open spec fn fixed_count(s: Seq<HotkeyEntryView>) -> nat
    decreases s.len(),
{
    if s.len() == 0 {
        0
    } else {
        fixed_count(s.drop_last()) + if s.last().is_customizable { 0nat } else { 1nat }
    }
}

/// How many entries of the first `n` categories cannot be customized.
pub open spec fn fixed_count_upto(n: nat) -> nat
    decreases n,
{
    if n == 0 {
        0
    } else {
        fixed_count_upto((n - 1) as nat) + fixed_count(hotkey_categories()[n - 1].entries_spec())
    }
}

proof fn lemma_fixed_count_concat(a: Seq<HotkeyEntryView>, b: Seq<HotkeyEntryView>)
    ensures
        fixed_count(a + b) == fixed_count(a) + fixed_count(b),
    decreases b.len(),
{
    if b.len() > 0 {
        lemma_fixed_count_concat(a, b.drop_last());
        assert((a + b).drop_last() =~= a + b.drop_last());
        assert((a + b).last() == b.last());
    } else {
        assert(a + b =~= a);
    }
}

proof fn lemma_fixed_count_zero(s: Seq<HotkeyEntryView>)
    requires
        forall|i: int| 0 <= i < s.len() ==> (#[trigger] s[i]).is_customizable,
    ensures
        fixed_count(s) == 0,
    decreases s.len(),
{
    if s.len() > 0 {
        assert(s.last() == s[s.len() - 1]);
        lemma_fixed_count_zero(s.drop_last());
    }
}

proof fn lemma_category_fixed(c: HotkeyCategory)
    ensures
        c.entries_spec().len() > 0,
        fixed_count(c.entries_spec()) == if c == HotkeyCategory::GlobalActions { 1nat } else { 0nat },
{
    let s = c.entries_spec();
    if c == HotkeyCategory::GlobalActions {
        let rest = s.skip(1);
        assert forall|i: int| 0 <= i < rest.len() implies (#[trigger] rest[i]).is_customizable by {
            assert(rest[i] == s[i + 1]);
        }
        lemma_fixed_count_zero(rest);
        let head = s.take(1);
        assert(s[0] == hk_fixed("Ctrl+C"@, "Quit application"@, seq![HotkeyContext::Global]));
        assert(!s[0].is_customizable);
        assert(head.len() == 1);
        assert(head.drop_last() =~= Seq::<HotkeyEntryView>::empty());
        assert(fixed_count(head.drop_last()) == 0);
        assert(head.last() == s[0]);
        assert(fixed_count(head) == 1);
        assert(s =~= head + rest);
        lemma_fixed_count_concat(head, rest);
    } else {
        assert forall|i: int| 0 <= i < s.len() implies (#[trigger] s[i]).is_customizable by {}
        lemma_fixed_count_zero(s);
    }
}

/// Every category lists hotkeys, and across all of them exactly one hotkey
/// cannot be customized: Ctrl+C, which quits, the first global action.
pub proof fn lemma_one_fixed_hotkey()
    ensures
        forall|c: HotkeyCategory| #[trigger] c.entries_spec().len() > 0,
        fixed_count_upto(11) == 1,
        HotkeyCategory::GlobalActions.entries_spec()[0] == hk_fixed(
            "Ctrl+C"@,
            "Quit application"@,
            seq![HotkeyContext::Global],
        ),
{
    assert forall|c: HotkeyCategory| #[trigger] c.entries_spec().len() > 0 by {
        lemma_category_fixed(c);
    }
    let cs = hotkey_categories();
    assert forall|k: int| 0 <= k < 11 implies fixed_count((#[trigger] cs[k]).entries_spec()) == if k == 0 {
        1nat
    } else {
        0nat
    } by {
        lemma_category_fixed(cs[k]);
    }
    assert(fixed_count(cs[0].entries_spec()) == 1);
    assert(fixed_count(cs[1].entries_spec()) == 0);
    assert(fixed_count(cs[2].entries_spec()) == 0);
    assert(fixed_count(cs[3].entries_spec()) == 0);
    assert(fixed_count(cs[4].entries_spec()) == 0);
    assert(fixed_count(cs[5].entries_spec()) == 0);
    assert(fixed_count(cs[6].entries_spec()) == 0);
    assert(fixed_count(cs[7].entries_spec()) == 0);
    assert(fixed_count(cs[8].entries_spec()) == 0);
    assert(fixed_count(cs[9].entries_spec()) == 0);
    assert(fixed_count(cs[10].entries_spec()) == 0);
    reveal_with_fuel(fixed_count_upto, 12);
}

} // verus!
