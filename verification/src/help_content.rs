//! The in-app help: its entries, grouped by category, and a search over
//! them.
use vstd::prelude::*;
use crate::text::{contains_seq, lowercase, str_contains, to_lowercase};

verus! {

/// A single help entry with a shortcut and description.
#[derive(Debug, Clone)]
pub struct HelpEntry {
    /// The keyboard shortcut or command (e.g., "Ctrl+L", "/help")
    pub shortcut: String,
    /// Description of what the shortcut does
    pub description: String,
}

impl View for HelpEntry {
    type V = (Seq<char>, Seq<char>);

    open spec fn view(&self) -> (Seq<char>, Seq<char>) {
        (self.shortcut@, self.description@)
    }
}

impl HelpEntry {
    /// Create a new help entry.
    pub fn new(shortcut: &str, description: &str) -> (r: HelpEntry)
        ensures
            r@ == (shortcut@, description@),
    {
        HelpEntry { shortcut: shortcut.to_string(), description: description.to_string() }
    }
}

/// Help category enumeration.
#[derive(Debug, Clone, Copy, PartialEq, Eq, Hash, Structural)]
pub enum HelpCategory {
    Navigation,
    TextEditing,
    ViewsModes,
    Dialogs,
    Commands,
    FileExplorer,
    GitIntegration,
    TipsTricks,
}

impl Default for HelpCategory {
    fn default() -> (r: HelpCategory)
        ensures
            r == HelpCategory::Navigation,
    {
        HelpCategory::Navigation
    }
}

/// The categories in the order they are shown.
pub open spec fn help_categories() -> Seq<HelpCategory> {
    seq![
        HelpCategory::Navigation,
        HelpCategory::TextEditing,
        HelpCategory::ViewsModes,
        HelpCategory::Dialogs,
        HelpCategory::Commands,
        HelpCategory::FileExplorer,
        HelpCategory::GitIntegration,
        HelpCategory::TipsTricks,
    ]
}

pub open spec fn navigation_help_spec() -> Seq<(Seq<char>, Seq<char>)> {
    seq![
        ("Ctrl+L"@, "Open session picker"@),
        ("Ctrl+D"@, "Toggle console view"@),
        ("Ctrl+T"@, "Open task viewer"@),
        ("Ctrl+R"@, "Reverse search history"@),
        ("Tab"@, "Toggle focus between panels"@),
        ("↑/↓"@, "Scroll conversation/navigate"@),
        ("PgUp/PgDn"@, "Page scroll"@),
        ("Ctrl+Home"@, "Scroll to top"@),
        ("Ctrl+End"@, "Scroll to bottom"@),
        ("Ctrl+C"@, "Quit application"@),
    ]
}

pub open spec fn text_editing_help_spec() -> Seq<(Seq<char>, Seq<char>)> {
    seq![
        ("Ctrl+A / Home"@, "Move cursor to start of line"@),
        ("Ctrl+E / End"@, "Move cursor to end of line"@),
        ("Ctrl+U"@, "Delete from cursor to start of line"@),
        ("Ctrl+K"@, "Delete from cursor to end of line"@),
        ("Ctrl+W"@, "Delete word before cursor"@),
        ("Alt+Backspace"@, "Delete word before cursor"@),
        ("Shift+Enter"@, "Insert newline (multiline input)"@),
        ("Alt+Enter"@, "Insert newline (multiline input)"@),
        ("Ctrl+J"@, "Insert newline (multiline input)"@),
        ("←/→"@, "Move cursor left/right"@),
        ("Ctrl+←/→"@, "Move cursor by word"@),
        ("Enter"@, "Submit message"@),
    ]
}

pub open spec fn views_modes_help_spec() -> Seq<(Seq<char>, Seq<char>)> {
    seq![
        ("F10"@, "Toggle fullscreen mode"@),
        ("Ctrl+Alt+F"@, "Toggle fullscreen mode"@),
        ("F9"@, "Toggle conversation view style"@),
        ("Ctrl+Enter"@, "Fullscreen current panel"@),
        ("F1"@, "Open this help dialog"@),
    ]
}

pub open spec fn dialogs_help_spec() -> Seq<(Seq<char>, Seq<char>)> {
    seq![
        ("Ctrl+F"@, "Open find dialog"@),
        ("Ctrl+H"@, "Open find & replace dialog"@),
        ("Ctrl+Alt+F"@, "Open file explorer"@),
        ("Ctrl+G"@, "Open Git SCM panel"@),
        ("Escape"@, "Close current dialog"@),
        ("Tab"@, "Navigate between dialog elements"@),
    ]
}

pub open spec fn commands_help_spec() -> Seq<(Seq<char>, Seq<char>)> {
    seq![
        ("/help"@, "Show available commands"@),
        ("/clear"@, "Clear conversation history"@),
        ("/compact"@, "Compact context to save tokens"@),
        ("/save [name]"@, "Save current session"@),
        ("/load [name]"@, "Load a saved session"@),
        ("/sessions"@, "List available sessions"@),
        ("/tools"@, "Open tool picker"@),
        ("/model [name]"@, "Switch AI model"@),
        ("/provider [name]"@, "Switch AI provider"@),
        ("/cost"@, "Show token usage and costs"@),
        ("/context"@, "Show context information"@),
        ("/working-set"@, "Manage working set files"@),
        ("/permissions"@, "View/modify permissions"@),
        ("/mcp"@, "Manage MCP servers"@),
    ]
}

pub open spec fn file_explorer_help_spec() -> Seq<(Seq<char>, Seq<char>)> {
    seq![
        ("Enter"@, "Open file or enter directory"@),
        ("Space"@, "Toggle file selection"@),
        ("Backspace"@, "Go to parent directory"@),
        ("/"@, "Start search/filter"@),
        ("."@, "Toggle hidden files"@),
        ("a"@, "Select all files"@),
        ("n"@, "Clear selection"@),
        ("r"@, "Refresh directory"@),
        ("i"@, "Insert selected to working set"@),
        ("Escape"@, "Exit file explorer"@),
    ]
}

pub open spec fn git_integration_help_spec() -> Seq<(Seq<char>, Seq<char>)> {
    seq![
        ("s"@, "Stage selected file"@),
        ("u"@, "Unstage selected file"@),
        ("c"@, "Start commit"@),
        ("Tab"@, "Switch between panels"@),
        ("↑/↓"@, "Navigate files"@),
        ("Enter"@, "View file diff"@),
        ("a"@, "Stage all changes"@),
        ("r"@, "Refresh status"@),
        ("Escape"@, "Exit Git panel"@),
    ]
}

pub open spec fn tips_tricks_help_spec() -> Seq<(Seq<char>, Seq<char>)> {
    seq![
        ("Context"@, "Use /working-set to add files for AI context"@),
        ("Multiline"@, "Use Shift+Enter for multi-line messages"@),
        ("Sessions"@, "Save important conversations with /save"@),
        ("Tools"@, "Use /tools to see and configure available tools"@),
        ("Compact"@, "Use /compact when context gets too large"@),
        ("History"@, "Press Ctrl+R to search command history"@),
        ("Cancel"@, "AI operations can be cancelled with Escape"@),
        ("Copy"@, "Select text in conversation to copy"@),
    ]
}

impl HelpCategory {
    /// The position of the category in [`help_categories`].
    pub open spec fn position(self) -> int {
        match self {
            HelpCategory::Navigation => 0,
            HelpCategory::TextEditing => 1,
            HelpCategory::ViewsModes => 2,
            HelpCategory::Dialogs => 3,
            HelpCategory::Commands => 4,
            HelpCategory::FileExplorer => 5,
            HelpCategory::GitIntegration => 6,
            HelpCategory::TipsTricks => 7,
        }
    }

    pub open spec fn name_spec(self) -> Seq<char> {
        match self {
            HelpCategory::Navigation => "Navigation"@,
            HelpCategory::TextEditing => "Text Editing"@,
            HelpCategory::ViewsModes => "Views & Modes"@,
            HelpCategory::Dialogs => "Dialogs"@,
            HelpCategory::Commands => "Commands"@,
            HelpCategory::FileExplorer => "File Explorer"@,
            HelpCategory::GitIntegration => "Git Integration"@,
            HelpCategory::TipsTricks => "Tips & Tricks"@,
        }
    }

    pub open spec fn icon_spec(self) -> Seq<char> {
        match self {
            HelpCategory::Navigation => "🧭"@,
            HelpCategory::TextEditing => "✏️"@,
            HelpCategory::ViewsModes => "🖥️"@,
            HelpCategory::Dialogs => "📋"@,
            HelpCategory::Commands => "⌨️"@,
            HelpCategory::FileExplorer => "📁"@,
            HelpCategory::GitIntegration => "🔀"@,
            HelpCategory::TipsTricks => "💡"@,
        }
    }

    /// The entries of the category.
    pub open spec fn entries_spec(self) -> Seq<(Seq<char>, Seq<char>)> {
        match self {
            HelpCategory::Navigation => navigation_help_spec(),
            HelpCategory::TextEditing => text_editing_help_spec(),
            HelpCategory::ViewsModes => views_modes_help_spec(),
            HelpCategory::Dialogs => dialogs_help_spec(),
            HelpCategory::Commands => commands_help_spec(),
            HelpCategory::FileExplorer => file_explorer_help_spec(),
            HelpCategory::GitIntegration => git_integration_help_spec(),
            HelpCategory::TipsTricks => tips_tricks_help_spec(),
        }
    }

    /// The category after this one, wrapping around.
    pub open spec fn next_spec(self) -> HelpCategory {
        help_categories()[(self.position() + 1) % 8]
    }

    /// The category before this one, wrapping around.
    pub open spec fn prev_spec(self) -> HelpCategory {
        help_categories()[(self.position() + 8 - 1) % 8]
    }

    /// Get all categories in order.
    pub fn all() -> (r: Vec<HelpCategory>)
        ensures
            r@ == help_categories(),
    {
        let v = vec![
            HelpCategory::Navigation,
            HelpCategory::TextEditing,
            HelpCategory::ViewsModes,
            HelpCategory::Dialogs,
            HelpCategory::Commands,
            HelpCategory::FileExplorer,
            HelpCategory::GitIntegration,
            HelpCategory::TipsTricks,
        ];
        assert(v@ =~= help_categories());
        v
    }

    /// Get the display name for this category.
    pub fn display_name(&self) -> (r: &'static str)
        ensures
            r@ == self.name_spec(),
    {
        match self {
            HelpCategory::Navigation => "Navigation",
            HelpCategory::TextEditing => "Text Editing",
            HelpCategory::ViewsModes => "Views & Modes",
            HelpCategory::Dialogs => "Dialogs",
            HelpCategory::Commands => "Commands",
            HelpCategory::FileExplorer => "File Explorer",
            HelpCategory::GitIntegration => "Git Integration",
            HelpCategory::TipsTricks => "Tips & Tricks",
        }
    }

    /// Get the icon for this category.
    pub fn icon(&self) -> (r: &'static str)
        ensures
            r@ == self.icon_spec(),
    {
        match self {
            HelpCategory::Navigation => "🧭",
            HelpCategory::TextEditing => "✏️",
            HelpCategory::ViewsModes => "🖥️",
            HelpCategory::Dialogs => "📋",
            HelpCategory::Commands => "⌨️",
            HelpCategory::FileExplorer => "📁",
            HelpCategory::GitIntegration => "🔀",
            HelpCategory::TipsTricks => "💡",
        }
    }

    /// Get help entries for this category.
    pub fn entries(&self) -> (r: Vec<HelpEntry>)
        ensures
            r@.map_values(|e: HelpEntry| e@) == self.entries_spec(),
    {
        match self {
            HelpCategory::Navigation => get_navigation_help(),
            HelpCategory::TextEditing => get_text_editing_help(),
            HelpCategory::ViewsModes => get_views_modes_help(),
            HelpCategory::Dialogs => get_dialogs_help(),
            HelpCategory::Commands => get_commands_help(),
            HelpCategory::FileExplorer => get_file_explorer_help(),
            HelpCategory::GitIntegration => get_git_integration_help(),
            HelpCategory::TipsTricks => get_tips_tricks_help(),
        }
    }

    /// Get the next category (wraps around).
    pub fn next(&self) -> (r: HelpCategory)
        ensures
            r == self.next_spec(),
    {
        match self {
            HelpCategory::Navigation => HelpCategory::TextEditing,
            HelpCategory::TextEditing => HelpCategory::ViewsModes,
            HelpCategory::ViewsModes => HelpCategory::Dialogs,
            HelpCategory::Dialogs => HelpCategory::Commands,
            HelpCategory::Commands => HelpCategory::FileExplorer,
            HelpCategory::FileExplorer => HelpCategory::GitIntegration,
            HelpCategory::GitIntegration => HelpCategory::TipsTricks,
            HelpCategory::TipsTricks => HelpCategory::Navigation,
        }
    }

    /// Get the previous category (wraps around).
    pub fn prev(&self) -> (r: HelpCategory)
        ensures
            r == self.prev_spec(),
    {
        match self {
            HelpCategory::Navigation => HelpCategory::TipsTricks,
            HelpCategory::TextEditing => HelpCategory::Navigation,
            HelpCategory::ViewsModes => HelpCategory::TextEditing,
            HelpCategory::Dialogs => HelpCategory::ViewsModes,
            HelpCategory::Commands => HelpCategory::Dialogs,
            HelpCategory::FileExplorer => HelpCategory::Commands,
            HelpCategory::GitIntegration => HelpCategory::FileExplorer,
            HelpCategory::TipsTricks => HelpCategory::GitIntegration,
        }
    }
}

/// Get navigation help entries.
pub fn get_navigation_help() -> (r: Vec<HelpEntry>)
    ensures
        r@.map_values(|e: HelpEntry| e@) == navigation_help_spec(),
{
    let v = vec![
        HelpEntry::new("Ctrl+L", "Open session picker"),
        HelpEntry::new("Ctrl+D", "Toggle console view"),
        HelpEntry::new("Ctrl+T", "Open task viewer"),
        HelpEntry::new("Ctrl+R", "Reverse search history"),
        HelpEntry::new("Tab", "Toggle focus between panels"),
        HelpEntry::new("↑/↓", "Scroll conversation/navigate"),
        HelpEntry::new("PgUp/PgDn", "Page scroll"),
        HelpEntry::new("Ctrl+Home", "Scroll to top"),
        HelpEntry::new("Ctrl+End", "Scroll to bottom"),
        HelpEntry::new("Ctrl+C", "Quit application"),
    ];
    assert(v@.map_values(|e: HelpEntry| e@) =~= navigation_help_spec());
    v
}

/// Get text editing help entries.
pub fn get_text_editing_help() -> (r: Vec<HelpEntry>)
    ensures
        r@.map_values(|e: HelpEntry| e@) == text_editing_help_spec(),
{
    let v = vec![
        HelpEntry::new("Ctrl+A / Home", "Move cursor to start of line"),
        HelpEntry::new("Ctrl+E / End", "Move cursor to end of line"),
        HelpEntry::new("Ctrl+U", "Delete from cursor to start of line"),
        HelpEntry::new("Ctrl+K", "Delete from cursor to end of line"),
        HelpEntry::new("Ctrl+W", "Delete word before cursor"),
        HelpEntry::new("Alt+Backspace", "Delete word before cursor"),
        HelpEntry::new("Shift+Enter", "Insert newline (multiline input)"),
        HelpEntry::new("Alt+Enter", "Insert newline (multiline input)"),
        HelpEntry::new("Ctrl+J", "Insert newline (multiline input)"),
        HelpEntry::new("←/→", "Move cursor left/right"),
        HelpEntry::new("Ctrl+←/→", "Move cursor by word"),
        HelpEntry::new("Enter", "Submit message"),
    ];
    assert(v@.map_values(|e: HelpEntry| e@) =~= text_editing_help_spec());
    v
}

/// Get views & modes help entries.
pub fn get_views_modes_help() -> (r: Vec<HelpEntry>)
    ensures
        r@.map_values(|e: HelpEntry| e@) == views_modes_help_spec(),
{
    let v = vec![
        HelpEntry::new("F10", "Toggle fullscreen mode"),
        HelpEntry::new("Ctrl+Alt+F", "Toggle fullscreen mode"),
        HelpEntry::new("F9", "Toggle conversation view style"),
        HelpEntry::new("Ctrl+Enter", "Fullscreen current panel"),
        HelpEntry::new("F1", "Open this help dialog"),
    ];
    assert(v@.map_values(|e: HelpEntry| e@) =~= views_modes_help_spec());
    v
}

/// Get dialogs help entries.
pub fn get_dialogs_help() -> (r: Vec<HelpEntry>)
    ensures
        r@.map_values(|e: HelpEntry| e@) == dialogs_help_spec(),
{
    let v = vec![
        HelpEntry::new("Ctrl+F", "Open find dialog"),
        HelpEntry::new("Ctrl+H", "Open find & replace dialog"),
        HelpEntry::new("Ctrl+Alt+F", "Open file explorer"),
        HelpEntry::new("Ctrl+G", "Open Git SCM panel"),
        HelpEntry::new("Escape", "Close current dialog"),
        HelpEntry::new("Tab", "Navigate between dialog elements"),
    ];
    assert(v@.map_values(|e: HelpEntry| e@) =~= dialogs_help_spec());
    v
}

/// Get commands help entries.
pub fn get_commands_help() -> (r: Vec<HelpEntry>)
    ensures
        r@.map_values(|e: HelpEntry| e@) == commands_help_spec(),
{
    let v = vec![
        HelpEntry::new("/help", "Show available commands"),
        HelpEntry::new("/clear", "Clear conversation history"),
        HelpEntry::new("/compact", "Compact context to save tokens"),
        HelpEntry::new("/save [name]", "Save current session"),
        HelpEntry::new("/load [name]", "Load a saved session"),
        HelpEntry::new("/sessions", "List available sessions"),
        HelpEntry::new("/tools", "Open tool picker"),
        HelpEntry::new("/model [name]", "Switch AI model"),
        HelpEntry::new("/provider [name]", "Switch AI provider"),
        HelpEntry::new("/cost", "Show token usage and costs"),
        HelpEntry::new("/context", "Show context information"),
        HelpEntry::new("/working-set", "Manage working set files"),
        HelpEntry::new("/permissions", "View/modify permissions"),
        HelpEntry::new("/mcp", "Manage MCP servers"),
    ];
    assert(v@.map_values(|e: HelpEntry| e@) =~= commands_help_spec());
    v
}

/// Get file explorer help entries.
pub fn get_file_explorer_help() -> (r: Vec<HelpEntry>)
    ensures
        r@.map_values(|e: HelpEntry| e@) == file_explorer_help_spec(),
{
    let v = vec![
        HelpEntry::new("Enter", "Open file or enter directory"),
        HelpEntry::new("Space", "Toggle file selection"),
        HelpEntry::new("Backspace", "Go to parent directory"),
        HelpEntry::new("/", "Start search/filter"),
        HelpEntry::new(".", "Toggle hidden files"),
        HelpEntry::new("a", "Select all files"),
        HelpEntry::new("n", "Clear selection"),
        HelpEntry::new("r", "Refresh directory"),
        HelpEntry::new("i", "Insert selected to working set"),
        HelpEntry::new("Escape", "Exit file explorer"),
    ];
    assert(v@.map_values(|e: HelpEntry| e@) =~= file_explorer_help_spec());
    v
}

/// Get git integration help entries.
pub fn get_git_integration_help() -> (r: Vec<HelpEntry>)
    ensures
        r@.map_values(|e: HelpEntry| e@) == git_integration_help_spec(),
{
    let v = vec![
        HelpEntry::new("s", "Stage selected file"),
        HelpEntry::new("u", "Unstage selected file"),
        HelpEntry::new("c", "Start commit"),
        HelpEntry::new("Tab", "Switch between panels"),
        HelpEntry::new("↑/↓", "Navigate files"),
        HelpEntry::new("Enter", "View file diff"),
        HelpEntry::new("a", "Stage all changes"),
        HelpEntry::new("r", "Refresh status"),
        HelpEntry::new("Escape", "Exit Git panel"),
    ];
    assert(v@.map_values(|e: HelpEntry| e@) =~= git_integration_help_spec());
    v
}

/// Get tips & tricks help entries.
pub fn get_tips_tricks_help() -> (r: Vec<HelpEntry>)
    ensures
        r@.map_values(|e: HelpEntry| e@) == tips_tricks_help_spec(),
{
    let v = vec![
        HelpEntry::new("Context", "Use /working-set to add files for AI context"),
        HelpEntry::new("Multiline", "Use Shift+Enter for multi-line messages"),
        HelpEntry::new("Sessions", "Save important conversations with /save"),
        HelpEntry::new("Tools", "Use /tools to see and configure available tools"),
        HelpEntry::new("Compact", "Use /compact when context gets too large"),
        HelpEntry::new("History", "Press Ctrl+R to search command history"),
        HelpEntry::new("Cancel", "AI operations can be cancelled with Escape"),
        HelpEntry::new("Copy", "Select text in conversation to copy"),
    ];
    assert(v@.map_values(|e: HelpEntry| e@) =~= tips_tricks_help_spec());
    v
}

/// An entry matches a lower-cased query when its lower-cased shortcut or
/// description contains it.
pub open spec fn help_matches(q: Seq<char>, e: (Seq<char>, Seq<char>)) -> bool {
    contains_seq(lowercase(e.0), q) || contains_seq(lowercase(e.1), q)
}

/// The entries of `es` that match `q`, in order, each with its category.
pub open spec fn help_matches_in(
    q: Seq<char>,
    cat: HelpCategory,
    es: Seq<(Seq<char>, Seq<char>)>,
) -> Seq<(HelpCategory, (Seq<char>, Seq<char>))>
    decreases es.len(),
{
    if es.len() == 0 {
        seq![]
    } else {
        let r = help_matches_in(q, cat, es.drop_last());
        if help_matches(q, es.last()) {
            r.push((cat, es.last()))
        } else {
            r
        }
    }
}

/// The matches in the first `n` categories.
pub open spec fn help_search_upto(q: Seq<char>, n: nat) -> Seq<(HelpCategory, (Seq<char>, Seq<char>))>
    decreases n,
{
    if n == 0 {
        seq![]
    } else {
        let c = help_categories()[n - 1];
        help_search_upto(q, (n - 1) as nat) + help_matches_in(q, c, c.entries_spec())
    }
}

/// What a search for `query` finds: nothing for an empty query, else every
/// entry whose shortcut or description contains the query, ignoring case,
/// category by category.
pub open spec fn search_help_spec(query: Seq<char>) -> Seq<(HelpCategory, (Seq<char>, Seq<char>))> {
    if query.len() == 0 {
        seq![]
    } else {
        help_search_upto(lowercase(query), 8)
    }
}

pub open spec fn help_results_view(r: Seq<(HelpCategory, HelpEntry)>) -> Seq<(HelpCategory, (Seq<char>, Seq<char>))> {
    r.map_values(|p: (HelpCategory, HelpEntry)| (p.0, p.1@))
}

/// Search across all categories for matching entries.
pub fn search_help(query: &str) -> (r: Vec<(HelpCategory, HelpEntry)>)
    ensures
        help_results_view(r@) == search_help_spec(query@),
{
    let mut results: Vec<(HelpCategory, HelpEntry)> = Vec::new();
    if query.is_empty() {
        assert(help_results_view(results@) =~= seq![]);
        return results;
    }
    let q = to_lowercase(query);
    let all = HelpCategory::all();
    let mut k: usize = 0;
    assert(help_results_view(results@) =~= help_search_upto(q@, 0));
    while k < all.len()
        invariant
            all@ == help_categories(),
            k <= all@.len(),
            q@ == lowercase(query@),
            help_results_view(results@) == help_search_upto(q@, k as nat),
        decreases all@.len() - k,
    {
        let cat = all[k];
        let es = cat.entries();
        let ghost base = help_results_view(results@);
        let ghost ev = es@.map_values(|e: HelpEntry| e@);
        let mut j: usize = 0;
        assert(ev.take(0) =~= seq![]);
        assert(base + help_matches_in(q@, cat, ev.take(0)) =~= base);
        while j < es.len()
            invariant
                j <= es@.len(),
                ev == es@.map_values(|e: HelpEntry| e@),
                help_results_view(results@) == base + help_matches_in(q@, cat, ev.take(j as int)),
            decreases es@.len() - j,
        {
            assert(ev.take(j + 1).drop_last() =~= ev.take(j as int));
            assert(ev.take(j + 1).last() == es@[j as int]@);
            let e = &es[j];
            let s = to_lowercase(e.shortcut.as_str());
            let d = to_lowercase(e.description.as_str());
            if str_contains(s.as_str(), q.as_str()) || str_contains(d.as_str(), q.as_str()) {
                let ghost before = help_results_view(results@);
                results.push((cat, e.clone_entry()));
                assert(help_results_view(results@) =~= before.push((cat, ev[j as int])));
                assert(help_matches(q@, ev.take(j + 1).last()));
                assert(help_results_view(results@) =~= base + help_matches_in(q@, cat, ev.take(j + 1)));
            }
            j = j + 1;
        }
        assert(ev.take(es@.len() as int) =~= ev);
        assert(help_categories()[k as int] == cat);
        assert(ev == cat.entries_spec());
        assert(help_search_upto(q@, (k + 1) as nat) == help_search_upto(q@, k as nat) + help_matches_in(
            q@,
            cat,
            cat.entries_spec(),
        ));
        k = k + 1;
    }
    results
}

/// Going to the next category and back, or back and then on, returns to the
/// category one started from; and the order of `next` is the order of
/// `all`, each category standing once in it.
pub proof fn lemma_help_category_cycle(c: HelpCategory)
    ensures
        c.next_spec().prev_spec() == c,
        c.prev_spec().next_spec() == c,
        help_categories()[c.position()] == c,
        c.next_spec().position() == (c.position() + 1) % 8,
{
}

impl HelpEntry {
    /// A copy of the entry.
    pub fn clone_entry(&self) -> (r: HelpEntry)
        ensures
            r@ == self@,
    {
        HelpEntry { shortcut: self.shortcut.clone(), description: self.description.clone() }
    }
}


proof fn lemma_matches_in_complete(q: Seq<char>, cat: HelpCategory, es: Seq<(Seq<char>, Seq<char>)>, j: int)
    requires
        0 <= j < es.len(),
        contains_seq(lowercase(es[j].0), q) || contains_seq(lowercase(es[j].1), q),
    ensures
        help_matches_in(q, cat, es).contains((cat, es[j])),
    decreases es.len(),
{
    let r = help_matches_in(q, cat, es.drop_last());
    if j == es.len() - 1 {
        assert(help_matches_in(q, cat, es) == r.push((cat, es.last())));
        assert(help_matches_in(q, cat, es)[r.len() as int] == (cat, es[j]));
    } else {
        assert(es.drop_last()[j] == es[j]);
        lemma_matches_in_complete(q, cat, es.drop_last(), j);
        let k = choose|k: int| 0 <= k < r.len() && r[k] == (cat, es[j]);
        if help_matches(q, es.last()) {
            assert(help_matches_in(q, cat, es)[k] == (cat, es[j]));
        }
    }
}

proof fn lemma_matches_in_sound(q: Seq<char>, cat: HelpCategory, es: Seq<(Seq<char>, Seq<char>)>, k: int)
    requires
        0 <= k < help_matches_in(q, cat, es).len(),
    ensures
        help_matches_in(q, cat, es)[k].0 == cat,
        es.contains(help_matches_in(q, cat, es)[k].1),
        contains_seq(lowercase(help_matches_in(q, cat, es)[k].1.0), q) || contains_seq(
            lowercase(help_matches_in(q, cat, es)[k].1.1),
            q,
        ),
    decreases es.len(),
{
    let r = help_matches_in(q, cat, es.drop_last());
    if k < r.len() {
        lemma_matches_in_sound(q, cat, es.drop_last(), k);
        let e = r[k].1;
        let i = choose|i: int| 0 <= i < es.drop_last().len() && es.drop_last()[i] == e;
        assert(es[i] == e);
    } else {
        assert(es[es.len() - 1] == es.last());
    }
}

proof fn lemma_search_upto_complete(q: Seq<char>, n: nat, i: int, j: int)
    requires
        n <= 8,
        0 <= i < n,
        0 <= j < help_categories()[i].entries_spec().len(),
        contains_seq(lowercase(help_categories()[i].entries_spec()[j].0), q) || contains_seq(
            lowercase(help_categories()[i].entries_spec()[j].1),
            q,
        ),
    ensures
        help_search_upto(q, n).contains((help_categories()[i], help_categories()[i].entries_spec()[j])),
    decreases n,
{
    let c = help_categories()[n - 1];
    let a = help_search_upto(q, (n - 1) as nat);
    let b = help_matches_in(q, c, c.entries_spec());
    let x = (help_categories()[i], help_categories()[i].entries_spec()[j]);
    if i == n - 1 {
        lemma_matches_in_complete(q, c, c.entries_spec(), j);
        let k = choose|k: int| 0 <= k < b.len() && b[k] == x;
        assert((a + b)[a.len() + k] == x);
    } else {
        lemma_search_upto_complete(q, (n - 1) as nat, i, j);
        let k = choose|k: int| 0 <= k < a.len() && a[k] == x;
        assert((a + b)[k] == x);
    }
}

proof fn lemma_search_upto_sound(q: Seq<char>, n: nat, k: int)
    requires
        n <= 8,
        0 <= k < help_search_upto(q, n).len(),
    ensures
        ({
            let (c, e) = help_search_upto(q, n)[k];
            &&& c.entries_spec().contains(e)
            &&& contains_seq(lowercase(e.0), q) || contains_seq(lowercase(e.1), q)
        }),
    decreases n,
{
    let c = help_categories()[n - 1];
    let a = help_search_upto(q, (n - 1) as nat);
    let b = help_matches_in(q, c, c.entries_spec());
    if k < a.len() {
        lemma_search_upto_sound(q, (n - 1) as nat, k);
        assert((a + b)[k] == a[k]);
    } else {
        lemma_matches_in_sound(q, c, c.entries_spec(), k - a.len());
        assert((a + b)[k] == b[k - a.len()]);
    }
}

/// A search finds exactly the matching entries (and nothing for an empty
/// query): for a non-empty query,
/// every entry of every category whose lower-cased shortcut or description
/// contains the lower-cased query is in the result, with its category, and
/// everything in the result is such an entry of its category.
pub proof fn lemma_search_finds_all_matches(query: Seq<char>, c: HelpCategory, j: int, k: int)
    ensures
        query.len() == 0 ==> search_help_spec(query).len() == 0,
        query.len() > 0 && 0 <= j < c.entries_spec().len() && (contains_seq(lowercase(c.entries_spec()[j].0), lowercase(query))
            || contains_seq(lowercase(c.entries_spec()[j].1), lowercase(query))) ==> search_help_spec(
            query,
        ).contains((c, c.entries_spec()[j])),
        0 <= k < search_help_spec(query).len() ==> ({
            let (d, e) = search_help_spec(query)[k];
            &&& d.entries_spec().contains(e)
            &&& contains_seq(lowercase(e.0), lowercase(query)) || contains_seq(lowercase(e.1), lowercase(query))
        }),
{
    let q = lowercase(query);
    let i: int = match c {
        HelpCategory::Navigation => 0,
        HelpCategory::TextEditing => 1,
        HelpCategory::ViewsModes => 2,
        HelpCategory::Dialogs => 3,
        HelpCategory::Commands => 4,
        HelpCategory::FileExplorer => 5,
        HelpCategory::GitIntegration => 6,
        HelpCategory::TipsTricks => 7,
    };
    assert(help_categories()[i] == c);
    if query.len() > 0 && 0 <= j < c.entries_spec().len() && (contains_seq(lowercase(c.entries_spec()[j].0), q) || contains_seq(
        lowercase(c.entries_spec()[j].1),
        q,
    )) {
        lemma_search_upto_complete(q, 8, i, j);
    }
    if query.len() > 0 && 0 <= k < search_help_spec(query).len() {
        lemma_search_upto_sound(q, 8, k);
    }
}


/// The entries of `es` whose lower-cased shortcut or description contains
/// `q`, in order, each with category `cat`.
pub open spec fn matching_entries(q: Seq<char>, cat: HelpCategory, es: Seq<(Seq<char>, Seq<char>)>) -> Seq<
    (HelpCategory, (Seq<char>, Seq<char>)),
> {
    es.filter(|e: (Seq<char>, Seq<char>)| contains_seq(lowercase(e.0), q) || contains_seq(lowercase(e.1), q)).map_values(
        |e: (Seq<char>, Seq<char>)| (cat, e),
    )
}

proof fn lemma_matches_in_is_filter(q: Seq<char>, cat: HelpCategory, es: Seq<(Seq<char>, Seq<char>)>)
    ensures
        help_matches_in(q, cat, es) == matching_entries(q, cat, es),
    decreases es.len(),
{
    let pred = |e: (Seq<char>, Seq<char>)| contains_seq(lowercase(e.0), q) || contains_seq(lowercase(e.1), q);
    if es.len() > 0 {
        lemma_matches_in_is_filter(q, cat, es.drop_last());
        let f = es.drop_last().filter(pred);
        reveal_with_fuel(Seq::<(Seq<char>, Seq<char>)>::filter, 1);
        assert(es.filter(pred) == if pred(es.last()) { f.push(es.last()) } else { f });
        if pred(es.last()) {
            assert(f.push(es.last()).map_values(|e: (Seq<char>, Seq<char>)| (cat, e)) =~= f.map_values(
                |e: (Seq<char>, Seq<char>)| (cat, e),
            ).push((cat, es.last())));
        }
    } else {
        reveal_with_fuel(Seq::<(Seq<char>, Seq<char>)>::filter, 1);
        assert(matching_entries(q, cat, es) =~= seq![]);
    }
}

/// What a search finds, in full: nothing for an empty query; otherwise,
/// category by category in the help's order, the entries whose lower-cased
/// shortcut or description contains the lower-cased query, in their order
/// and each once.
pub proof fn lemma_search_is_matches_by_category(query: Seq<char>)
    ensures
        query.len() == 0 ==> search_help_spec(query) == Seq::<(HelpCategory, (Seq<char>, Seq<char>))>::empty(),
        query.len() > 0 ==> ({
            let q = lowercase(query);
            search_help_spec(query) == matching_entries(q, HelpCategory::Navigation, HelpCategory::Navigation.entries_spec())
                + matching_entries(q, HelpCategory::TextEditing, HelpCategory::TextEditing.entries_spec())
                + matching_entries(q, HelpCategory::ViewsModes, HelpCategory::ViewsModes.entries_spec())
                + matching_entries(q, HelpCategory::Dialogs, HelpCategory::Dialogs.entries_spec())
                + matching_entries(q, HelpCategory::Commands, HelpCategory::Commands.entries_spec())
                + matching_entries(q, HelpCategory::FileExplorer, HelpCategory::FileExplorer.entries_spec())
                + matching_entries(q, HelpCategory::GitIntegration, HelpCategory::GitIntegration.entries_spec())
                + matching_entries(q, HelpCategory::TipsTricks, HelpCategory::TipsTricks.entries_spec())
        }),
{
    if query.len() > 0 {
        let q = lowercase(query);
        let cs = help_categories();
        assert forall|i: int| 0 <= i < 8 implies help_matches_in(q, #[trigger] cs[i], cs[i].entries_spec())
            == matching_entries(q, cs[i], cs[i].entries_spec()) by {
            lemma_matches_in_is_filter(q, cs[i], cs[i].entries_spec());
        }
        assert(help_search_upto(q, 0) =~= seq![]);
        assert(help_search_upto(q, 1) =~= help_matches_in(q, cs[0], cs[0].entries_spec()));
        assert(cs[0] == HelpCategory::Navigation);
        assert(cs[1] == HelpCategory::TextEditing);
        assert(cs[2] == HelpCategory::ViewsModes);
        assert(cs[3] == HelpCategory::Dialogs);
        assert(cs[4] == HelpCategory::Commands);
        assert(cs[5] == HelpCategory::FileExplorer);
        assert(cs[6] == HelpCategory::GitIntegration);
        assert(cs[7] == HelpCategory::TipsTricks);
        assert(help_search_upto(q, 8) == help_search_upto(q, 7) + help_matches_in(q, cs[7], cs[7].entries_spec()));
        assert(help_search_upto(q, 7) == help_search_upto(q, 6) + help_matches_in(q, cs[6], cs[6].entries_spec()));
        assert(help_search_upto(q, 6) == help_search_upto(q, 5) + help_matches_in(q, cs[5], cs[5].entries_spec()));
        assert(help_search_upto(q, 5) == help_search_upto(q, 4) + help_matches_in(q, cs[4], cs[4].entries_spec()));
        assert(help_search_upto(q, 4) == help_search_upto(q, 3) + help_matches_in(q, cs[3], cs[3].entries_spec()));
        assert(help_search_upto(q, 3) == help_search_upto(q, 2) + help_matches_in(q, cs[2], cs[2].entries_spec()));
        assert(help_search_upto(q, 2) == help_search_upto(q, 1) + help_matches_in(q, cs[1], cs[1].entries_spec()));
    }
}

} // verus!
