//! The decisions the application makes on its own state: confirming the
//! tool picker, leaving the suspend and exit dialogs, moving in the task
//! viewer, plan mode status, MDAP mode switches and the working-set
//! command replies.
//!
//! `App` here holds the parts of the application state these decisions
//! read and write.
use vstd::prelude::*;
use crate::suspend_dialog::{SuspendAction, SuspendDialogState};
use crate::text::{decimal, lines_spec, push_str, split_lines, str_eq, to_chars, usize_to_string};
use vstd::string::StringSliceAdditionalSpecFns;
use crate::tool::{Tool, ToolView};
use crate::tool_picker::{categories_view, selected_names, selected_tool_names, ToolPickerState};

verus! {

broadcast use vstd::string::group_string_axioms, vstd::utf8::group_utf8_lib;

/// What the application is doing.
#[derive(Debug, Clone, Copy, PartialEq, Eq, Structural)]
pub enum AppMode {
    Normal,
    ReverseSearch,
    SessionPicker,
    ConsoleView,
    ShellViewer,
    Waiting,
    ConversationFullscreen,
    InputFullscreen,
    ToolPicker,
    TaskViewer,
    FileExplorer,
    NanoEditor,
    GitScm,
    CancelConfirm,
    QuestionAnswer,
    UserQuestion,
    FindDialog,
    FindReplaceDialog,
    HelpDialog,
    SuspendDialog,
    ExitDialog,
    HotkeyDialog,
    ApprovalDialog,
    SudoPasswordDialog,
    PlanMode,
    SubAgentViewer,
}

/// Which tools the model is offered.
#[derive(Debug, Clone)]
pub enum ToolMode {
    /// Every built-in and MCP tool
    Full,
    /// The tools named
    Explicit(Vec<String>),
    /// Chosen for each query
    Smart,
    /// The core tools
    Core,
    /// No tools
    Disabled,
}

/// The abstract value of a [`ToolMode`].
pub enum ToolModeView {
    Full,
    Explicit(Seq<Seq<char>>),
    Smart,
    Core,
    Disabled,
}

impl View for ToolMode {
    type V = ToolModeView;

    open spec fn view(&self) -> ToolModeView {
        match self {
            ToolMode::Full => ToolModeView::Full,
            ToolMode::Explicit(v) => ToolModeView::Explicit(crate::text::strs_view(v@)),
            ToolMode::Smart => ToolModeView::Smart,
            ToolMode::Core => ToolModeView::Core,
            ToolMode::Disabled => ToolModeView::Disabled,
        }
    }
}

/// The choices of the exit dialog.
#[derive(Debug, Clone, Copy, PartialEq, Eq, Structural)]
pub struct ExitDialogState {
    pub exit_when_done: bool,
    pub preserve_chat: bool,
}

impl ExitDialogState {
    pub fn exit_when_done(&self) -> (r: bool)
        ensures
            r == self.exit_when_done,
    {
        self.exit_when_done
    }

    pub fn preserve_chat(&self) -> (r: bool)
        ensures
            r == self.preserve_chat,
    {
        self.preserve_chat
    }
}

/// What the exit dialog can do.
#[derive(Debug, Clone, Copy, PartialEq, Eq, Structural)]
pub enum ExitAction {
    /// Quit the program
    Exit,
    /// Keep running in the background
    Background,
}

/// A message shown in the conversation.
#[derive(Debug, Clone)]
pub struct TuiMessage {
    pub role: String,
    pub content: String,
    pub created_at: i64,
}

/// The state of plan mode.
#[derive(Debug, Clone)]
pub struct PlanModeState {
    pub active: bool,
    pub plan_session_id: String,
    /// What the planning is about, if anything in particular
    pub focus: Option<String>,
    /// The plan mode conversation
    pub messages: Vec<TuiMessage>,
    /// The plan mode conversation as sent to the model
    pub conversation_history: Vec<TuiMessage>,
}

/// The main conversation, put aside while plan mode is on.
#[derive(Debug)]
pub struct SavedMainContext {
    pub messages: Vec<TuiMessage>,
    pub conversation_history: Vec<TuiMessage>,
    pub scroll: u16,
    pub status: String,
}

impl PlanModeState {
    /// Forgets the plan mode conversation.
    pub fn clear(&mut self)
        ensures
            final(self).messages@.len() == 0,
            final(self).conversation_history@.len() == 0,
            final(self).active == old(self).active,
            final(self).plan_session_id@ == old(self).plan_session_id@,
            final(self).focus == old(self).focus,
    {
        self.messages = Vec::new();
        self.conversation_history = Vec::new();
    }

    /// The number of messages in the plan mode conversation.
    pub fn message_count(&self) -> (r: usize)
        ensures
            r == self.messages@.len(),
    {
        self.messages.len()
    }
}

/// The task viewer: the tasks shown (by id), the cursor, the scroll and
/// the collapsed tasks.
#[derive(Debug, Clone)]
pub struct TaskViewerState {
    pub selected_index: usize,
    pub scroll: u16,
    /// Ids of the tasks shown, in display order
    pub visible_tasks: Vec<String>,
    /// Ids of the collapsed tasks
    pub collapsed: Vec<String>,
}

/// The application state the decisions below read and write.
#[derive(Debug)]
pub struct App {
    pub mode: AppMode,
    pub status: String,
    /// Messages for the console view, oldest first
    pub console_messages: Vec<String>,
    /// The text being typed
    pub input: String,
    pub model: String,
    /// The tools offered to the model
    pub tools: Vec<Tool>,
    pub tool_mode: ToolMode,
    /// Tools of the connected MCP servers
    pub mcp_tools: Vec<Tool>,
    pub tool_picker_state: Option<ToolPickerState>,
    pub suspend_dialog_state: Option<SuspendDialogState>,
    pub exit_dialog_state: Option<ExitDialogState>,
    pub pending_background: bool,
    pub pending_suspend: bool,
    pub should_quit: bool,
    pub exit_when_agent_done: bool,
    pub last_preserve_chat_setting: bool,
    pub preserve_chat_on_exit: bool,
    pub task_viewer_state: TaskViewerState,
    /// The task tree as text, used when no task list is at hand
    pub task_tree_cache: String,
    pub plan_mode_state: Option<PlanModeState>,
    /// The main conversation while plan mode is on
    pub plan_mode_saved_main: Option<SavedMainContext>,
    /// The conversation shown
    pub messages: Vec<TuiMessage>,
    /// The conversation sent to the model
    pub conversation_history: Vec<TuiMessage>,
    pub scroll: u16,
    /// The MDAP vote margin; none while MDAP mode is off
    pub mdap_k: Option<u32>,
    /// The conversation's session id
    pub session_id: String,
    /// The conversation as it was before the last clear (for `/resume`)
    pub cleared_messages: Option<Vec<TuiMessage>>,
    pub cleared_conversation_history: Option<Vec<TuiMessage>>,
    /// How much the tools may do without asking
    pub approval_mode: ApprovalMode,
    /// A shell command the main loop is to run
    pub pending_exec_command: Option<String>,
    /// Shell commands run so far, oldest first
    pub shell_history: Vec<ShellExecution>,
    pub selected_shell_index: usize,
    pub shell_viewer_scroll: u16,
}

/// How much the tools may do without asking.
#[derive(Debug, Clone, Copy, PartialEq, Eq, Structural)]
pub enum ApprovalMode {
    /// Ask before every change
    Suggest,
    /// Edit files without asking
    AutoEdit,
    /// Do everything without asking
    FullAuto,
}

/// A shell command run from the interface.
#[derive(Debug, Clone)]
pub struct ShellExecution {
    pub command: String,
    pub output: String,
    pub exit_code: i32,
    pub executed_at: i64,
}

// ---------------------------------------------------------------------------
// Confirming the tool picker
// ---------------------------------------------------------------------------

pub open spec fn tools_view(v: Seq<Tool>) -> Seq<ToolView> {
    v.map_values(|t: Tool| t@)
}

/// The first tool of `reg` with this name.
pub open spec fn find_tool(reg: Seq<ToolView>, name: Seq<char>) -> Option<ToolView>
    decreases reg.len(),
{
    if reg.len() == 0 {
        None
    } else if reg[0].name == name {
        Some(reg[0])
    } else {
        find_tool(reg.drop_first(), name)
    }
}

/// The tools of `reg` with the given names, in the order of the names;
/// names it does not have are skipped.
pub open spec fn lookup_tools(reg: Seq<ToolView>, names: Seq<Seq<char>>) -> Seq<ToolView>
    decreases names.len(),
{
    if names.len() == 0 {
        seq![]
    } else {
        lookup_tools(reg, names.drop_last()) + match find_tool(reg, names.last()) {
            Some(t) => seq![t],
            None => seq![],
        }
    }
}

/// The tools of `tools` whose name is among `names`, in order.
pub open spec fn tools_named(tools: Seq<ToolView>, names: Seq<Seq<char>>) -> Seq<ToolView>
    decreases tools.len(),
{
    if tools.len() == 0 {
        seq![]
    } else {
        tools_named(tools.drop_last(), names) + if names.contains(tools.last().name) {
            seq![tools.last()]
        } else {
            seq![]
        }
    }
}

fn find_in(reg: &[Tool], name: &str) -> (r: Option<usize>)
    ensures
        match r {
            Some(i) => i < reg@.len() && find_tool(tools_view(reg@), name@) == Some(reg@[i as int]@),
            None => find_tool(tools_view(reg@), name@) is None,
        },
{
    let ghost rv = tools_view(reg@);
    let mut i: usize = 0;
    assert(rv.skip(0) =~= rv);
    while i < reg.len()
        invariant
            i <= reg@.len(),
            rv == tools_view(reg@),
            find_tool(rv, name@) == find_tool(rv.skip(i as int), name@),
        decreases reg@.len() - i,
    {
        assert(rv.skip(i as int)[0] == reg@[i as int]@);
        if str_eq(reg[i].name.as_str(), name) {
            return Some(i);
        }
        assert(rv.skip(i as int).drop_first() =~= rv.skip(i + 1));
        i = i + 1;
    }
    None
}

fn names_contain(names: &Vec<String>, name: &str) -> (r: bool)
    ensures
        r == crate::text::strs_view(names@).contains(name@),
{
    let mut i: usize = 0;
    while i < names.len()
        invariant
            i <= names@.len(),
            forall|j: int| 0 <= j < i ==> (#[trigger] names@[j])@ != name@,
        decreases names@.len() - i,
    {
        if str_eq(names[i].as_str(), name) {
            assert(crate::text::strs_view(names@)[i as int] == name@);
            return true;
        }
        i = i + 1;
    }
    proof {
        if crate::text::strs_view(names@).contains(name@) {
            let j = choose|j: int| 0 <= j < names@.len() && crate::text::strs_view(names@)[j] == name@;
            assert(names@[j]@ == name@);
        }
    }
    false
}

/// The tools that a selection of names gives: the built-in tools of the
/// registry with those names, then the MCP tools with those names.
pub fn pick_tools(registry: &[Tool], mcp_tools: &[Tool], names: &Vec<String>) -> (r: Vec<Tool>)
    ensures
        tools_view(r@) == lookup_tools(tools_view(registry@), crate::text::strs_view(names@)) + tools_named(
            tools_view(mcp_tools@),
            crate::text::strs_view(names@),
        ),
{
    let ghost nv = crate::text::strs_view(names@);
    let ghost rv = tools_view(registry@);
    let ghost mv = tools_view(mcp_tools@);
    let mut out: Vec<Tool> = Vec::new();
    let mut i: usize = 0;
    assert(nv.take(0) =~= seq![]);
    assert(tools_view(out@) =~= seq![]);
    while i < names.len()
        invariant
            i <= names@.len(),
            nv == crate::text::strs_view(names@),
            rv == tools_view(registry@),
            tools_view(out@) == lookup_tools(rv, nv.take(i as int)),
        decreases names@.len() - i,
    {
        assert(nv.take(i + 1).drop_last() =~= nv.take(i as int));
        assert(nv.take(i + 1).last() == names@[i as int]@);
        match find_in(registry, names[i].as_str()) {
            Some(k) => {
                let ghost before = tools_view(out@);
                out.push(registry[k].clone_tool());
                assert(tools_view(out@) =~= before.push(registry@[k as int]@));
            },
            None => {},
        }
        assert(tools_view(out@) =~= lookup_tools(rv, nv.take(i + 1)));
        i = i + 1;
    }
    assert(nv.take(names@.len() as int) =~= nv);
    let ghost base = tools_view(out@);
    let mut j: usize = 0;
    assert(mv.take(0) =~= seq![]);
    assert(base + tools_named(mv.take(0), nv) =~= base);
    while j < mcp_tools.len()
        invariant
            j <= mcp_tools@.len(),
            mv == tools_view(mcp_tools@),
            nv == crate::text::strs_view(names@),
            tools_view(out@) == base + tools_named(mv.take(j as int), nv),
        decreases mcp_tools@.len() - j,
    {
        assert(mv.take(j + 1).drop_last() =~= mv.take(j as int));
        assert(mv.take(j + 1).last() == mcp_tools@[j as int]@);
        if names_contain(names, mcp_tools[j].name.as_str()) {
            let ghost before = tools_view(out@);
            out.push(mcp_tools[j].clone_tool());
            assert(tools_view(out@) =~= before.push(mcp_tools@[j as int]@));
        }
        assert(tools_view(out@) =~= base + tools_named(mv.take(j + 1), nv));
        j = j + 1;
    }
    assert(mv.take(mcp_tools@.len() as int) =~= mv);
    out
}

/// The status line after a tool selection of `n` tools.
pub open spec fn explicit_status(n: nat) -> Seq<char> {
    "Tool mode: explicit ("@ + decimal(n) + " tools selected)"@
}

/// The console line after a tool selection of `n` tools.
pub open spec fn selected_message(n: nat) -> Seq<char> {
    "✅ Selected "@ + decimal(n) + " tools"@
}

impl App {
    /// Confirm the tool picker: the selected tools become the tools offered
    /// (the built-in ones from `registry`, then the MCP ones), in explicit
    /// mode; the picker closes.
    pub fn confirm_tool_selection(&mut self, registry: &[Tool])
        ensures
            final(self).tool_picker_state is None,
            final(self).mode == AppMode::Normal,
            match old(self).tool_picker_state {
                Some(st) => {
                    let names = selected_names(categories_view(st.categories@));
                    let ts = lookup_tools(tools_view(registry@), names) + tools_named(
                        tools_view(old(self).mcp_tools@),
                        names,
                    );
                    &&& tools_view(final(self).tools@) == ts
                    &&& final(self).tool_mode@ == ToolModeView::Explicit(names)
                    &&& final(self).status@ == explicit_status(ts.len())
                    &&& crate::text::strs_view(final(self).console_messages@) == crate::text::strs_view(
                        old(self).console_messages@,
                    ).push(selected_message(ts.len()))
                },
                None => {
                    &&& final(self).tools@ == old(self).tools@
                    &&& final(self).tool_mode@ == old(self).tool_mode@
                    &&& final(self).status@ == old(self).status@
                    &&& final(self).console_messages@ == old(self).console_messages@
                },
            },
            final(self).mcp_tools@ == old(self).mcp_tools@,
    {
        let picker = self.tool_picker_state.take();
        match picker {
            Some(state) => {
                let selected = selected_tool_names(&state.categories);
                let tools = pick_tools(registry, self.mcp_tools.as_slice(), &selected);
                let count = tools.len();
                let n = usize_to_string(count);
                assert(tools_view(tools@).len() == tools@.len());
                self.tools = tools;
                self.tool_mode = ToolMode::Explicit(selected);
                let mut status = "Tool mode: explicit (".to_string();
                push_str(&mut status, n.as_str());
                push_str(&mut status, " tools selected)");
                self.status = status;
                let mut msg = "✅ Selected ".to_string();
                push_str(&mut msg, n.as_str());
                push_str(&mut msg, " tools");
                let ghost before = self.console_messages@;
                let ghost m = msg@;
                self.console_messages.push(msg);
                assert(crate::text::strs_view(self.console_messages@) =~= crate::text::strs_view(before).push(m));
            },
            None => {},
        }
        self.tool_picker_state = None;
        self.mode = AppMode::Normal;
    }
}

// ---------------------------------------------------------------------------
// MCP tool names and descriptions
// ---------------------------------------------------------------------------

/// The server of an MCP tool named `mcp_<server>_<tool>`: the text between
/// `mcp_` and the next `_`.
pub open spec fn mcp_server_spec(name: Seq<char>) -> Option<Seq<char>> {
    if crate::text::starts_with_seq(name, "mcp_"@) {
        let rest = name.skip(4);
        if rest.contains('_') {
            Some(rest.take(crate::text::first_of(rest, '_')))
        } else {
            None
        }
    } else {
        None
    }
}

/// Extract server name from MCP tool name (mcp_{server}_{tool})
pub fn extract_mcp_server_name(tool_name: &str) -> (r: Option<String>)
    ensures
        match r {
            Some(s) => mcp_server_spec(tool_name@) == Some(s@),
            None => mcp_server_spec(tool_name@) is None,
        },
{
    let v = to_chars(tool_name);
    let prefix = to_chars("mcp_");
    proof {
        reveal_strlit("mcp_");
    }
    if !crate::text::matches_at(v.as_slice(), prefix.as_slice(), 0) {
        return None;
    }
    let n = v.len();
    let mut i: usize = 4;
    while i < n && v[i] != '_'
        invariant
            4 <= i <= n == v@.len(),
            forall|j: int| 4 <= j < i ==> v@[j] != '_',
        decreases n - i,
    {
        i = i + 1;
    }
    let ghost rest = v@.skip(4);
    proof {
        crate::text::lemma_first_of_bound(rest, '_');
    }
    if i == n {
        assert(!rest.contains('_')) by {
            if rest.contains('_') {
                let j = choose|j: int| 0 <= j < rest.len() && rest[j] == '_';
                assert(v@[j + 4] == '_');
            }
        }
        return None;
    }
    assert(rest[i - 4] == '_');
    proof {
        crate::text::lemma_first_of_at(rest, '_', i - 4);
    }
    assert(v@.subrange(4, i as int) =~= rest.take(i - 4));
    Some(crate::text::from_char_range(v.as_slice(), 4, i))
}

} // verus!

verus! {

// ---------------------------------------------------------------------------
// Which parts of the state an operation leaves alone
// ---------------------------------------------------------------------------

pub open spec fn same_tools(a: App, b: App) -> bool {
    &&& a.tools@ == b.tools@
    &&& a.tool_mode@ == b.tool_mode@
    &&& a.mcp_tools@ == b.mcp_tools@
    &&& a.tool_picker_state == b.tool_picker_state
}

pub open spec fn same_dialogs(a: App, b: App) -> bool {
    &&& a.suspend_dialog_state == b.suspend_dialog_state
    &&& a.exit_dialog_state == b.exit_dialog_state
    &&& a.pending_background == b.pending_background
    &&& a.pending_suspend == b.pending_suspend
    &&& a.should_quit == b.should_quit
    &&& a.exit_when_agent_done == b.exit_when_agent_done
    &&& a.last_preserve_chat_setting == b.last_preserve_chat_setting
    &&& a.preserve_chat_on_exit == b.preserve_chat_on_exit
    &&& a.approval_mode == b.approval_mode
    &&& a.pending_exec_command == b.pending_exec_command
}

pub open spec fn same_tasks(a: App, b: App) -> bool {
    &&& a.task_viewer_state == b.task_viewer_state
    &&& a.task_tree_cache@ == b.task_tree_cache@
}

pub open spec fn same_conversation(a: App, b: App) -> bool {
    &&& a.plan_mode_state == b.plan_mode_state
    &&& a.plan_mode_saved_main == b.plan_mode_saved_main
    &&& a.messages@ == b.messages@
    &&& a.conversation_history@ == b.conversation_history@
    &&& a.scroll == b.scroll
    &&& a.session_id@ == b.session_id@
    &&& a.cleared_messages == b.cleared_messages
    &&& a.cleared_conversation_history == b.cleared_conversation_history
    &&& a.shell_history@ == b.shell_history@
    &&& a.selected_shell_index == b.selected_shell_index
    &&& a.shell_viewer_scroll == b.shell_viewer_scroll
}

pub open spec fn same_screen(a: App, b: App) -> bool {
    &&& a.mode == b.mode
    &&& a.status@ == b.status@
    &&& a.console_messages@ == b.console_messages@
    &&& a.input@ == b.input@
    &&& a.model@ == b.model@
    &&& a.mdap_k == b.mdap_k
}

// ---------------------------------------------------------------------------
// Leaving the suspend and exit dialogs
// ---------------------------------------------------------------------------

impl App {
    /// Carries out the suspend dialog's action: the dialog closes; to
    /// background, the main loop is asked to background the process and
    /// remembers the "exit when done" choice; to suspend, it is asked to
    /// stop the process. The mode is left for the main loop to reset.
    pub fn execute_suspend_action(&mut self, action: SuspendAction)
        ensures
            final(self).suspend_dialog_state is None,
            ({
                let exit_when_done = match old(self).suspend_dialog_state {
                    Some(d) => d.exit_when_done.checked,
                    None => false,
                };
                match action {
                    SuspendAction::Background => {
                        &&& final(self).pending_background
                        &&& final(self).exit_when_agent_done == exit_when_done
                        &&& final(self).pending_suspend == old(self).pending_suspend
                    },
                    SuspendAction::Suspend => {
                        &&& final(self).pending_suspend
                        &&& final(self).pending_background == old(self).pending_background
                        &&& final(self).exit_when_agent_done == old(self).exit_when_agent_done
                    },
                }
            }),
            final(self).exit_dialog_state == old(self).exit_dialog_state,
            final(self).should_quit == old(self).should_quit,
            final(self).last_preserve_chat_setting == old(self).last_preserve_chat_setting,
            final(self).preserve_chat_on_exit == old(self).preserve_chat_on_exit,
            same_screen(*final(self), *old(self)),
            same_tools(*final(self), *old(self)),
            same_tasks(*final(self), *old(self)),
            same_conversation(*final(self), *old(self)),
    {
        let exit_when_done = match &self.suspend_dialog_state {
            Some(d) => d.exit_when_done(),
            None => false,
        };
        self.suspend_dialog_state = None;
        match action {
            SuspendAction::Background => {
                self.pending_background = true;
                self.exit_when_agent_done = exit_when_done;
            },
            SuspendAction::Suspend => {
                self.pending_suspend = true;
            },
        }
    }

    /// Carries out the exit dialog's action: the "preserve chat" choice
    /// (kept by default) is remembered for the next dialog and for the
    /// exit, and the dialog closes; to exit, the main loop is asked to quit
    /// and the mode goes back to normal; to background, the main loop is
    /// asked to background the process and remembers "exit when done".
    pub fn execute_exit_action(&mut self, action: ExitAction)
        ensures
            final(self).exit_dialog_state is None,
            ({
                let exit_when_done = match old(self).exit_dialog_state {
                    Some(d) => d.exit_when_done,
                    None => false,
                };
                let preserve = match old(self).exit_dialog_state {
                    Some(d) => d.preserve_chat,
                    None => true,
                };
                &&& final(self).last_preserve_chat_setting == preserve
                &&& final(self).preserve_chat_on_exit == preserve
                &&& match action {
                    ExitAction::Exit => {
                        &&& final(self).should_quit
                        &&& final(self).mode == AppMode::Normal
                        &&& final(self).pending_background == old(self).pending_background
                        &&& final(self).exit_when_agent_done == old(self).exit_when_agent_done
                    },
                    ExitAction::Background => {
                        &&& final(self).pending_background
                        &&& final(self).exit_when_agent_done == exit_when_done
                        &&& final(self).should_quit == old(self).should_quit
                        &&& final(self).mode == old(self).mode
                    },
                }
            }),
            final(self).suspend_dialog_state == old(self).suspend_dialog_state,
            final(self).pending_suspend == old(self).pending_suspend,
            final(self).status@ == old(self).status@,
            final(self).console_messages@ == old(self).console_messages@,
            same_tools(*final(self), *old(self)),
            same_tasks(*final(self), *old(self)),
            same_conversation(*final(self), *old(self)),
    {
        let exit_when_done = match &self.exit_dialog_state {
            Some(d) => d.exit_when_done(),
            None => false,
        };
        let preserve_chat = match &self.exit_dialog_state {
            Some(d) => d.preserve_chat(),
            None => true,
        };
        self.last_preserve_chat_setting = preserve_chat;
        self.preserve_chat_on_exit = preserve_chat;
        self.exit_dialog_state = None;
        match action {
            ExitAction::Exit => {
                self.should_quit = true;
                self.mode = AppMode::Normal;
            },
            ExitAction::Background => {
                self.pending_background = true;
                self.exit_when_agent_done = exit_when_done;
            },
        }
    }
}

// ---------------------------------------------------------------------------
// The task viewer
// ---------------------------------------------------------------------------

/// The last row the task viewer's cursor can reach: one less than the
/// tasks shown, or, with none, one less than the lines of the task tree
/// text (0 when that is empty too).
pub open spec fn task_max_index(visible: Seq<String>, cache: Seq<char>) -> int {
    let n = if visible.len() == 0 {
        lines_spec(cache).len() as int
    } else {
        visible.len() as int
    };
    if n == 0 {
        0
    } else {
        n - 1
    }
}

impl App {
    /// Move up in task viewer, scrolling up to the cursor when it goes
    /// above the first row shown.
    pub fn task_viewer_move_up(&mut self)
        ensures
            ({
                let old_t = old(self).task_viewer_state;
                let i = if old_t.selected_index > 0 {
                    (old_t.selected_index - 1) as usize
                } else {
                    0usize
                };
                let row = (i % 65536) as u16;
                &&& final(self).task_viewer_state.selected_index == i
                &&& final(self).task_viewer_state.scroll == if row < old_t.scroll {
                    row
                } else {
                    old_t.scroll
                }
                &&& final(self).task_viewer_state.visible_tasks@ == old_t.visible_tasks@
                &&& final(self).task_viewer_state.collapsed@ == old_t.collapsed@
            }),
            final(self).task_tree_cache@ == old(self).task_tree_cache@,
            same_screen(*final(self), *old(self)),
            same_tools(*final(self), *old(self)),
            same_dialogs(*final(self), *old(self)),
            same_conversation(*final(self), *old(self)),
    {
        if self.task_viewer_state.selected_index > 0 {
            self.task_viewer_state.selected_index = self.task_viewer_state.selected_index - 1;
        }
        let row = (self.task_viewer_state.selected_index % 65536) as u16;
        if row < self.task_viewer_state.scroll {
            self.task_viewer_state.scroll = row;
        }
    }

    /// Move down in task viewer, no further than the last row.
    pub fn task_viewer_move_down(&mut self)
        ensures
            ({
                let old_t = old(self).task_viewer_state;
                let max = task_max_index(old_t.visible_tasks@, old(self).task_tree_cache@);
                &&& final(self).task_viewer_state.selected_index == if old_t.selected_index < max {
                    old_t.selected_index + 1
                } else {
                    old_t.selected_index as int
                }
                &&& final(self).task_viewer_state.scroll == old_t.scroll
                &&& final(self).task_viewer_state.visible_tasks@ == old_t.visible_tasks@
                &&& final(self).task_viewer_state.collapsed@ == old_t.collapsed@
            }),
            final(self).task_tree_cache@ == old(self).task_tree_cache@,
            same_screen(*final(self), *old(self)),
            same_tools(*final(self), *old(self)),
            same_dialogs(*final(self), *old(self)),
            same_conversation(*final(self), *old(self)),
    {
        let n = if self.task_viewer_state.visible_tasks.len() == 0 {
            let cache = to_chars(self.task_tree_cache.as_str());
            split_lines(cache.as_slice()).len()
        } else {
            self.task_viewer_state.visible_tasks.len()
        };
        let max = n.saturating_sub(1);
        if self.task_viewer_state.selected_index < max {
            self.task_viewer_state.selected_index = self.task_viewer_state.selected_index + 1;
        }
    }

    /// Collapse the task under the cursor, or expand it when collapsed.
    pub fn task_viewer_toggle_collapse(&mut self)
        ensures
            ({
                let old_t = old(self).task_viewer_state;
                let i = old_t.selected_index as int;
                let before = crate::text::strs_view(old_t.collapsed@).to_set();
                let after = crate::text::strs_view(final(self).task_viewer_state.collapsed@).to_set();
                &&& (0 <= i < old_t.visible_tasks@.len() ==> {
                    let id = old_t.visible_tasks@[i]@;
                    after == if before.contains(id) {
                        before.remove(id)
                    } else {
                        before.insert(id)
                    }
                })
                &&& (!(0 <= i < old_t.visible_tasks@.len()) ==> after == before)
                &&& final(self).task_viewer_state.selected_index == old_t.selected_index
                &&& final(self).task_viewer_state.scroll == old_t.scroll
                &&& final(self).task_viewer_state.visible_tasks@ == old_t.visible_tasks@
            }),
            final(self).task_tree_cache@ == old(self).task_tree_cache@,
            same_screen(*final(self), *old(self)),
            same_tools(*final(self), *old(self)),
            same_dialogs(*final(self), *old(self)),
            same_conversation(*final(self), *old(self)),
    {
        let i = self.task_viewer_state.selected_index;
        if i >= self.task_viewer_state.visible_tasks.len() {
            return;
        }
        let id = self.task_viewer_state.visible_tasks[i].clone();
        let ghost before = crate::text::strs_view(self.task_viewer_state.collapsed@);
        if names_contain(&self.task_viewer_state.collapsed, id.as_str()) {
            let mut kept: Vec<String> = Vec::new();
            let mut j: usize = 0;
            while j < self.task_viewer_state.collapsed.len()
                invariant
                    j <= self.task_viewer_state.collapsed@.len(),
                    before == crate::text::strs_view(self.task_viewer_state.collapsed@),
                    forall|x: Seq<char>| #[trigger] crate::text::strs_view(kept@).contains(x) <==> (x != id@
                        && before.take(j as int).contains(x)),
                decreases self.task_viewer_state.collapsed@.len() - j,
            {
                let ghost cur = before.take(j as int);
                let ghost nxt = before.take(j + 1);
                let ghost kv = crate::text::strs_view(kept@);
                let v = self.task_viewer_state.collapsed[j].clone();
                assert(v@ == before[j as int]);
                assert forall|x: Seq<char>| nxt.contains(x) <==> cur.contains(x) || x == v@ by {
                    if nxt.contains(x) {
                        let k = choose|k: int| 0 <= k < nxt.len() && #[trigger] nxt[k] == x;
                        if k < j {
                            assert(cur[k] == x);
                        }
                    }
                    if cur.contains(x) {
                        let k = choose|k: int| 0 <= k < cur.len() && #[trigger] cur[k] == x;
                        assert(nxt[k] == x);
                    }
                    if x == v@ {
                        assert(nxt[j as int] == x);
                    }
                }
                if !str_eq(v.as_str(), id.as_str()) {
                    let ghost vv = v@;
                    kept.push(v);
                    assert(crate::text::strs_view(kept@) =~= kv.push(vv));
                    assert forall|x: Seq<char>| crate::text::strs_view(kept@).contains(x) <==> kv.contains(x) || x == vv by {
                        let nk = crate::text::strs_view(kept@);
                        if nk.contains(x) {
                            let k = choose|k: int| 0 <= k < nk.len() && #[trigger] nk[k] == x;
                            if k < kv.len() {
                                assert(kv[k] == x);
                            }
                        }
                        if kv.contains(x) {
                            let k = choose|k: int| 0 <= k < kv.len() && #[trigger] kv[k] == x;
                            assert(nk[k] == x);
                        }
                        if x == vv {
                            assert(nk[kv.len() as int] == x);
                        }
                    }
                }
                assert forall|x: Seq<char>| #[trigger] crate::text::strs_view(kept@).contains(x) <==> (x != id@
                    && nxt.contains(x)) by {
                    assert(kv.contains(x) <==> (x != id@ && cur.contains(x)));
                }
                j = j + 1;
                assert(nxt == before.take(j as int));
            }
            assert(before.take(before.len() as int) =~= before);
            self.task_viewer_state.collapsed = kept;
            assert(crate::text::strs_view(self.task_viewer_state.collapsed@).to_set() =~= before.to_set().remove(id@));
        } else {
            let ghost idv = id@;
            self.task_viewer_state.collapsed.push(id);
            let ghost after = crate::text::strs_view(self.task_viewer_state.collapsed@);
            assert(after =~= before.push(idv));
            assert(after.to_set() =~= before.to_set().insert(idv)) by {
                assert forall|x: Seq<char>| after.contains(x) <==> before.contains(x) || x == idv by {
                    if after.contains(x) {
                        let k = choose|k: int| 0 <= k < after.len() && #[trigger] after[k] == x;
                        if k < before.len() {
                            assert(before[k] == x);
                        }
                    }
                    if before.contains(x) {
                        let k = choose|k: int| 0 <= k < before.len() && #[trigger] before[k] == x;
                        assert(after[k] == x);
                    }
                    if x == idv {
                        assert(after[before.len() as int] == x);
                    }
                }
            }
        }
    }
}

} // verus!

verus! {

// ---------------------------------------------------------------------------
// Plan mode
// ---------------------------------------------------------------------------

/// The plan mode status text.
pub open spec fn plan_mode_status_spec(state: Option<PlanModeState>) -> Seq<char> {
    match state {
        Some(s) => "Plan Mode: "@ + (if s.active {
            "active"@
        } else {
            "inactive"@
        }) + "\nSession: "@ + s.plan_session_id@ + "\nFocus: "@ + (match s.focus {
            Some(f) => f@,
            None => "general"@,
        }) + "\nMessages: "@ + decimal(s.messages@.len()),
        None => "Plan mode not initialized"@,
    }
}

impl App {
    /// Get plan mode status
    pub fn plan_mode_status(&self) -> (r: String)
        ensures
            r@ == plan_mode_status_spec(self.plan_mode_state),
    {
        match &self.plan_mode_state {
            Some(state) => {
                let mut s = "Plan Mode: ".to_string();
                if state.active {
                    push_str(&mut s, "active");
                } else {
                    push_str(&mut s, "inactive");
                }
                push_str(&mut s, "\nSession: ");
                push_str(&mut s, state.plan_session_id.as_str());
                push_str(&mut s, "\nFocus: ");
                match &state.focus {
                    Some(f) => push_str(&mut s, f.as_str()),
                    None => push_str(&mut s, "general"),
                }
                push_str(&mut s, "\nMessages: ");
                let n = usize_to_string(state.message_count());
                push_str(&mut s, n.as_str());
                s
            },
            None => "Plan mode not initialized".to_string(),
        }
    }

    /// Clear plan mode history: the plan mode conversation, and, while in
    /// plan mode, the conversation shown and sent, with the scroll back at
    /// the top.
    pub fn clear_plan_mode(&mut self)
        ensures
            match old(self).plan_mode_state {
                Some(s) => final(self).plan_mode_state matches Some(t) && t.messages@.len() == 0
                    && t.conversation_history@.len() == 0 && t.active
                    == s.active && t.plan_session_id@ == s.plan_session_id@ && t.focus == s.focus,
                None => final(self).plan_mode_state is None,
            },
            old(self).mode == AppMode::PlanMode ==> final(self).messages@.len() == 0
                && final(self).conversation_history@.len() == 0 && final(self).scroll == 0,
            old(self).mode != AppMode::PlanMode ==> final(self).messages@ == old(self).messages@
                && final(self).conversation_history@ == old(self).conversation_history@ && final(self).scroll
                == old(self).scroll,
            crate::text::strs_view(final(self).console_messages@) == crate::text::strs_view(
                old(self).console_messages@,
            ).push("Plan mode history cleared"@),
            final(self).mode == old(self).mode,
            final(self).status@ == old(self).status@,
            same_tools(*final(self), *old(self)),
            same_dialogs(*final(self), *old(self)),
            same_tasks(*final(self), *old(self)),
    {
        let mut plan = self.plan_mode_state.take();
        match &mut plan {
            Some(state) => state.clear(),
            None => {},
        }
        self.plan_mode_state = plan;
        if self.mode == AppMode::PlanMode {
            self.messages = Vec::new();
            self.conversation_history = Vec::new();
            self.scroll = 0;
        }
        let ghost before = self.console_messages@;
        let m = "Plan mode history cleared".to_string();
        let ghost mv = m@;
        self.console_messages.push(m);
        assert(crate::text::strs_view(self.console_messages@) =~= crate::text::strs_view(before).push(mv));
    }
}

// ---------------------------------------------------------------------------
// MDAP mode
// ---------------------------------------------------------------------------

/// The vote margin MDAP mode starts with.
pub open spec fn default_mdap_k() -> u32 {
    3
}

/// The status line while ready, with the MDAP mark when MDAP mode is on.
pub open spec fn ready_status(model: Seq<char>, mdap: bool) -> Seq<char> {
    "Ready - Model: "@ + model + if mdap {
        " [MDAP] (Ctrl+C to quit)"@
    } else {
        " (Ctrl+C to quit)"@
    }
}

fn ready_status_line(model: &str, mdap: bool) -> (r: String)
    ensures
        r@ == ready_status(model@, mdap),
{
    let mut s = "Ready - Model: ".to_string();
    push_str(&mut s, model);
    if mdap {
        push_str(&mut s, " [MDAP] (Ctrl+C to quit)");
    } else {
        push_str(&mut s, " (Ctrl+C to quit)");
    }
    s
}

impl App {
    /// Turns MDAP mode on with its defaults, unless it is on already.
    pub fn handle_mdap_enable(&mut self)
        ensures
            old(self).mdap_k is Some ==> final(self).mdap_k == old(self).mdap_k && final(self).status@
                == old(self).status@ && crate::text::strs_view(final(self).console_messages@)
                == crate::text::strs_view(old(self).console_messages@).push(
                "ℹ️  MDAP mode is already enabled"@,
            ),
            old(self).mdap_k is None ==> final(self).mdap_k == Some(default_mdap_k()) && final(self).status@
                == ready_status(old(self).model@, true) && crate::text::strs_view(final(self).console_messages@)
                == crate::text::strs_view(old(self).console_messages@).push(
                "✅ MDAP mode enabled (k=3, target=95%)"@,
            ),
            final(self).input@.len() == 0,
            final(self).mode == old(self).mode,
            final(self).model@ == old(self).model@,
            same_tools(*final(self), *old(self)),
            same_dialogs(*final(self), *old(self)),
            same_tasks(*final(self), *old(self)),
            same_conversation(*final(self), *old(self)),
    {
        let ghost before = self.console_messages@;
        let m = if self.mdap_k.is_some() {
            "ℹ️  MDAP mode is already enabled".to_string()
        } else {
            self.mdap_k = Some(3);
            self.status = ready_status_line(self.model.as_str(), true);
            "✅ MDAP mode enabled (k=3, target=95%)".to_string()
        };
        let ghost mv = m@;
        self.console_messages.push(m);
        assert(crate::text::strs_view(self.console_messages@) =~= crate::text::strs_view(before).push(mv));
        self.input = String::new();
    }

    /// Turns MDAP mode off, unless it is off already.
    pub fn handle_mdap_disable(&mut self)
        ensures
            old(self).mdap_k is Some ==> final(self).mdap_k is None && final(self).status@ == ready_status(
                old(self).model@,
                false,
            ) && crate::text::strs_view(final(self).console_messages@) == crate::text::strs_view(
                old(self).console_messages@,
            ).push("✅ MDAP mode disabled"@),
            old(self).mdap_k is None ==> final(self).mdap_k is None && final(self).status@ == old(self).status@
                && crate::text::strs_view(final(self).console_messages@) == crate::text::strs_view(
                old(self).console_messages@,
            ).push("ℹ️  MDAP mode is already disabled"@),
            final(self).input@.len() == 0,
            final(self).mode == old(self).mode,
            final(self).model@ == old(self).model@,
            same_tools(*final(self), *old(self)),
            same_dialogs(*final(self), *old(self)),
            same_tasks(*final(self), *old(self)),
            same_conversation(*final(self), *old(self)),
    {
        let ghost before = self.console_messages@;
        let m = if self.mdap_k.is_some() {
            self.mdap_k = None;
            self.status = ready_status_line(self.model.as_str(), false);
            "✅ MDAP mode disabled".to_string()
        } else {
            "ℹ️  MDAP mode is already disabled".to_string()
        };
        let ghost mv = m@;
        self.console_messages.push(m);
        assert(crate::text::strs_view(self.console_messages@) =~= crate::text::strs_view(before).push(mv));
        self.input = String::new();
    }

    /// Sets the MDAP vote margin, turning MDAP mode on when it is off.
    pub fn handle_mdap_set_k(&mut self, k: u32)
        ensures
            final(self).mdap_k == Some(k),
            old(self).mdap_k is Some ==> final(self).status@ == old(self).status@ && crate::text::strs_view(
                final(self).console_messages@,
            ) == crate::text::strs_view(old(self).console_messages@).push(
                "✅ MDAP vote margin set to k="@ + decimal(k as nat),
            ),
            old(self).mdap_k is None ==> final(self).status@ == ready_status(old(self).model@, true)
                && crate::text::strs_view(final(self).console_messages@) == crate::text::strs_view(
                old(self).console_messages@,
            ).push("✅ MDAP mode enabled with k="@ + decimal(k as nat)),
            final(self).input@.len() == 0,
            final(self).mode == old(self).mode,
            final(self).model@ == old(self).model@,
            same_tools(*final(self), *old(self)),
            same_dialogs(*final(self), *old(self)),
            same_tasks(*final(self), *old(self)),
            same_conversation(*final(self), *old(self)),
    {
        let ghost before = self.console_messages@;
        let n = usize_to_string(k as usize);
        let mut m = if self.mdap_k.is_some() {
            "✅ MDAP vote margin set to k=".to_string()
        } else {
            self.status = ready_status_line(self.model.as_str(), true);
            "✅ MDAP mode enabled with k=".to_string()
        };
        self.mdap_k = Some(k);
        push_str(&mut m, n.as_str());
        let ghost mv = m@;
        self.console_messages.push(m);
        assert(crate::text::strs_view(self.console_messages@) =~= crate::text::strs_view(before).push(mv));
        self.input = String::new();
    }
}

// ---------------------------------------------------------------------------
// Working-set commands
// ---------------------------------------------------------------------------

impl App {
    /// Reports a `/context:remove` of the resolved path, given whether the
    /// working set held it.
    pub fn handle_context_remove(&mut self, path: &str, removed: bool)
        ensures
            crate::text::strs_view(final(self).console_messages@) == crate::text::strs_view(
                old(self).console_messages@,
            ).push(
                if removed {
                    "✅ Removed: "@ + path@
                } else {
                    "⚠️  Not in working set: "@ + path@
                },
            ),
            final(self).status@ == old(self).status@,
            final(self).mode == old(self).mode,
            same_tools(*final(self), *old(self)),
            same_dialogs(*final(self), *old(self)),
            same_tasks(*final(self), *old(self)),
            same_conversation(*final(self), *old(self)),
    {
        let mut m = if removed {
            "✅ Removed: ".to_string()
        } else {
            "⚠️  Not in working set: ".to_string()
        };
        push_str(&mut m, path);
        let ghost before = self.console_messages@;
        let ghost mv = m@;
        self.console_messages.push(m);
        assert(crate::text::strs_view(self.console_messages@) =~= crate::text::strs_view(before).push(mv));
    }

    /// Reports a `/context:pin` of the resolved path, given whether the
    /// working set held it.
    pub fn handle_context_pin(&mut self, path: &str, pinned: bool)
        ensures
            crate::text::strs_view(final(self).console_messages@) == crate::text::strs_view(
                old(self).console_messages@,
            ).push(
                if pinned {
                    "📌 Pinned: "@ + path@
                } else {
                    "⚠️  Not in working set: "@ + path@ + ". Add it first with /context:add"@
                },
            ),
            final(self).status@ == old(self).status@,
            final(self).mode == old(self).mode,
            same_tools(*final(self), *old(self)),
            same_dialogs(*final(self), *old(self)),
            same_tasks(*final(self), *old(self)),
            same_conversation(*final(self), *old(self)),
    {
        let mut m = if pinned {
            "📌 Pinned: ".to_string()
        } else {
            "⚠️  Not in working set: ".to_string()
        };
        push_str(&mut m, path);
        if !pinned {
            push_str(&mut m, ". Add it first with /context:add");
        }
        let ghost before = self.console_messages@;
        let ghost mv = m@;
        self.console_messages.push(m);
        assert(crate::text::strs_view(self.console_messages@) =~= crate::text::strs_view(before).push(mv));
    }

    /// Reports a `/context:unpin` of the resolved path, given whether the
    /// working set held it.
    pub fn handle_context_unpin(&mut self, path: &str, unpinned: bool)
        ensures
            crate::text::strs_view(final(self).console_messages@) == crate::text::strs_view(
                old(self).console_messages@,
            ).push(
                if unpinned {
                    "✅ Unpinned: "@ + path@
                } else {
                    "⚠️  Not in working set: "@ + path@
                },
            ),
            final(self).status@ == old(self).status@,
            final(self).mode == old(self).mode,
            same_tools(*final(self), *old(self)),
            same_dialogs(*final(self), *old(self)),
            same_tasks(*final(self), *old(self)),
            same_conversation(*final(self), *old(self)),
    {
        let mut m = if unpinned {
            "✅ Unpinned: ".to_string()
        } else {
            "⚠️  Not in working set: ".to_string()
        };
        push_str(&mut m, path);
        let ghost before = self.console_messages@;
        let ghost mv = m@;
        self.console_messages.push(m);
        assert(crate::text::strs_view(self.console_messages@) =~= crate::text::strs_view(before).push(mv));
    }

    /// Reports a `/context:clear`, given the number of files before and
    /// after it.
    pub fn handle_context_clear(&mut self, keep_pinned: bool, count_before: usize, count_after: usize)
        requires
            count_after <= count_before,
        ensures
            crate::text::strs_view(final(self).console_messages@) == crate::text::strs_view(
                old(self).console_messages@,
            ).push(
                if keep_pinned && count_after > 0 {
                    "✅ Cleared "@ + decimal((count_before - count_after) as nat) + " file(s), kept "@ + decimal(
                        count_after as nat,
                    ) + " pinned"@
                } else {
                    "✅ Cleared "@ + decimal((count_before - count_after) as nat) + " file(s) from working set"@
                },
            ),
            final(self).status@ == old(self).status@,
            final(self).mode == old(self).mode,
            same_tools(*final(self), *old(self)),
            same_dialogs(*final(self), *old(self)),
            same_tasks(*final(self), *old(self)),
            same_conversation(*final(self), *old(self)),
    {
        let removed = count_before - count_after;
        let mut m = "✅ Cleared ".to_string();
        let r = usize_to_string(removed);
        push_str(&mut m, r.as_str());
        if keep_pinned && count_after > 0 {
            push_str(&mut m, " file(s), kept ");
            let a = usize_to_string(count_after);
            push_str(&mut m, a.as_str());
            push_str(&mut m, " pinned");
        } else {
            push_str(&mut m, " file(s) from working set");
        }
        let ghost before = self.console_messages@;
        let ghost mv = m@;
        self.console_messages.push(m);
        assert(crate::text::strs_view(self.console_messages@) =~= crate::text::strs_view(before).push(mv));
    }
}

} // verus!

verus! {


/// The first line of a text as `str::lines` gives it, or the whole text
/// when it has no line.
pub open spec fn first_line_spec(s: Seq<char>) -> Seq<char> {
    if lines_spec(s).len() > 0 {
        lines_spec(s)[0]
    } else {
        s
    }
}

/// Where a description longer than `max_len` bytes is cut: three bytes
/// earlier, to make room for `...`.
pub open spec fn description_cut(max_len: usize) -> int {
    if max_len >= 3 {
        max_len - 3
    } else {
        0
    }
}

/// The first line of a description, cut to `max_len - 3` bytes with `...`
/// after it when it is longer than `max_len` bytes.
pub open spec fn truncate_description_spec(s: Seq<char>, max_len: usize) -> Seq<char> {
    let l = first_line_spec(s);
    if vstd::utf8::encode_utf8(l).len() > max_len {
        vstd::utf8::decode_utf8(vstd::utf8::encode_utf8(l).subrange(0, description_cut(max_len))) + "..."@
    } else {
        l
    }
}

/// Cutting the first line must not split a character.
pub open spec fn description_cuttable(s: Seq<char>, max_len: usize) -> bool {
    let l = first_line_spec(s);
    vstd::utf8::encode_utf8(l).len() <= max_len || vstd::utf8::is_char_boundary(
        vstd::utf8::encode_utf8(l),
        description_cut(max_len),
    )
}

/// Truncate a description to max length, adding ellipsis if needed
pub fn truncate_description(s: &str, max_len: usize) -> (r: String)
    requires
        description_cuttable(s@, max_len),
    ensures
        r@ == truncate_description_spec(s@, max_len),
{
    let v = to_chars(s);
    let lines = split_lines(v.as_slice());
    let first = if lines.len() > 0 {
        crate::text::from_chars(lines[0].as_slice())
    } else {
        crate::text::owned(s)
    };
    let fc = to_chars(first.as_str());
    if crate::text::utf8_len_at_most(fc.as_slice(), max_len) {
        return first;
    }
    let cut = max_len.saturating_sub(3);
    let fs: &str = first.as_str();
    let (head, _) = fs.split_at(cut);
    proof {
        vstd::utf8::encode_utf8_decode_utf8(head@);
        assert(head.spec_bytes() == vstd::utf8::encode_utf8(head@));
        assert(fs.spec_bytes() == vstd::utf8::encode_utf8(fs@));
        assert(head.spec_bytes() =~= vstd::utf8::encode_utf8(first@).subrange(0, cut as int));
    }
    let mut out = crate::text::owned(head);
    push_str(&mut out, "...");
    out
}

} // verus!

verus! {

// ---------------------------------------------------------------------------
// Opening the tool picker
// ---------------------------------------------------------------------------

/// A tool as the picker shows it: name, description, and whether it is in
/// `names`.
pub open spec fn picker_entry(t: ToolView, names: Seq<Seq<char>>) -> (Seq<char>, Seq<char>, bool) {
    (t.name, t.description, names.contains(t.name))
}

/// The tools as the picker shows them.
pub open spec fn picker_entries(ts: Seq<ToolView>, names: Seq<Seq<char>>) -> Seq<(Seq<char>, Seq<char>, bool)> {
    ts.map_values(|t: ToolView| picker_entry(t, names))
}

/// The tools selected before the picker opens: those of an explicit tool
/// mode, else none.
pub open spec fn mode_names(m: ToolModeView) -> Seq<Seq<char>> {
    match m {
        ToolModeView::Explicit(ns) => ns,
        _ => seq![],
    }
}

/// The built-in categories that have tools, in order.
pub open spec fn builtin_categories(
    cats: Seq<(Seq<char>, Seq<ToolView>)>,
    names: Seq<Seq<char>>,
) -> Seq<(Seq<char>, Seq<(Seq<char>, Seq<char>, bool)>)>
    decreases cats.len(),
{
    if cats.len() == 0 {
        seq![]
    } else {
        builtin_categories(cats.drop_last(), names) + if cats.last().1.len() > 0 {
            seq![(cats.last().0, picker_entries(cats.last().1, names))]
        } else {
            seq![]
        }
    }
}

/// Some tool belongs to the MCP server `s`.
pub open spec fn has_server(tools: Seq<ToolView>, s: Seq<char>) -> bool {
    exists|i: int| 0 <= i < tools.len() && mcp_server_spec(#[trigger] tools[i].name) == Some(s)
}

/// The tools of the MCP server `s`, in order.
pub open spec fn server_group(tools: Seq<ToolView>, s: Seq<char>, names: Seq<Seq<char>>) -> Seq<
    (Seq<char>, Seq<char>, bool),
>
    decreases tools.len(),
{
    if tools.len() == 0 {
        seq![]
    } else {
        server_group(tools.drop_last(), s, names) + if mcp_server_spec(tools.last().name) == Some(s) {
            seq![picker_entry(tools.last(), names)]
        } else {
            seq![]
        }
    }
}

/// Strictly increasing in the order of strings.
pub open spec fn strictly_sorted(s: Seq<Seq<char>>) -> bool {
    forall|i: int, j: int| 0 <= i < j < s.len() ==> crate::text::lex_lt(#[trigger] s[i], #[trigger] s[j])
}

/// The MCP servers of the tools: each once, in the order of strings.
pub open spec fn servers_ok(tools: Seq<ToolView>, servers: Seq<Seq<char>>) -> bool {
    &&& strictly_sorted(servers)
    &&& forall|s: Seq<char>| servers.contains(s) <==> has_server(tools, s)
}

/// The categories the MCP tools are shown in: one per server, named
/// `MCP: ` and the server, in the order of server names, each with the
/// server's tools in their order.
pub open spec fn mcp_categories_ok(
    tools: Seq<ToolView>,
    names: Seq<Seq<char>>,
    cs: Seq<(Seq<char>, Seq<(Seq<char>, Seq<char>, bool)>)>,
) -> bool {
    let servers = cs.map_values(|c: (Seq<char>, Seq<(Seq<char>, Seq<char>, bool)>)| c.0.skip(5));
    &&& servers_ok(tools, servers)
    &&& forall|i: int|
        0 <= i < cs.len() ==> (#[trigger] cs[i]).0 == "MCP: "@ + servers[i] && cs[i].1 == server_group(
            tools,
            servers[i],
            names,
        )
}

fn insert_server(servers: &mut Vec<String>, s: String)
    requires
        strictly_sorted(crate::text::strs_view(old(servers)@)),
    ensures
        strictly_sorted(crate::text::strs_view(final(servers)@)),
        forall|x: Seq<char>|
            crate::text::strs_view(final(servers)@).contains(x) <==> (crate::text::strs_view(
                old(servers)@,
            ).contains(x) || x == s@),
{
    let ghost old_v = crate::text::strs_view(servers@);
    let sc = to_chars(s.as_str());
    let mut j: usize = 0;
    while j < servers.len() && crate::text::chars_lt(to_chars(servers[j].as_str()).as_slice(), sc.as_slice())
        invariant
            j <= servers@.len(),
            old_v == crate::text::strs_view(servers@),
            sc@ == s@,
            forall|m: int| 0 <= m < j ==> crate::text::lex_lt(#[trigger] old_v[m], s@),
        decreases servers@.len() - j,
    {
        j = j + 1;
    }
    if j < servers.len() && str_eq(servers[j].as_str(), s.as_str()) {
        assert(old_v[j as int] == s@);
        return;
    }
    proof {
        if j < old_v.len() {
            assert(!crate::text::lex_lt(old_v[j as int], s@));
            assert(old_v[j as int] != s@);
            crate::text::lemma_lex_total(old_v[j as int], s@);
            assert forall|m: int| j <= m < old_v.len() implies crate::text::lex_lt(s@, #[trigger] old_v[m]) by {
                if m > j {
                    crate::text::lemma_lex_trans(s@, old_v[j as int], old_v[m]);
                }
            }
        }
    }
    let ghost sv = s@;
    servers.insert(j, s);
    let ghost nv = crate::text::strs_view(servers@);
    assert(nv =~= old_v.insert(j as int, sv));
    assert forall|a: int, b: int| 0 <= a < b < nv.len() implies crate::text::lex_lt(#[trigger] nv[a], #[trigger] nv[b]) by {
        if a < j && b < j {
            assert(nv[a] == old_v[a] && nv[b] == old_v[b]);
        } else if a < j && b == j {
        } else if a < j {
            assert(nv[b] == old_v[b - 1]);
            crate::text::lemma_lex_trans(nv[a], sv, nv[b]);
        } else if a == j {
            assert(nv[b] == old_v[b - 1]);
        } else {
            assert(nv[a] == old_v[a - 1] && nv[b] == old_v[b - 1]);
        }
    }
    assert forall|x: Seq<char>| nv.contains(x) <==> (old_v.contains(x) || x == sv) by {
        if nv.contains(x) {
            let k = choose|k: int| 0 <= k < nv.len() && nv[k] == x;
            if k < j {
                assert(old_v[k] == x);
            } else if k > j {
                assert(old_v[k - 1] == x);
            }
        }
        if old_v.contains(x) {
            let k = choose|k: int| 0 <= k < old_v.len() && old_v[k] == x;
            if k < j {
                assert(nv[k] == x);
            } else {
                assert(nv[k + 1] == x);
            }
        }
        if x == sv {
            assert(nv[j as int] == x);
        }
    }
}

/// The MCP servers of the tools, each once, in the order of strings.
fn mcp_servers(tools: &[Tool]) -> (r: Vec<String>)
    ensures
        servers_ok(tools_view(tools@), crate::text::strs_view(r@)),
{
    let ghost tv = tools_view(tools@);
    let mut servers: Vec<String> = Vec::new();
    let mut k: usize = 0;
    while k < tools.len()
        invariant
            k <= tools@.len(),
            tv == tools_view(tools@),
            strictly_sorted(crate::text::strs_view(servers@)),
            forall|s: Seq<char>|
                crate::text::strs_view(servers@).contains(s) <==> has_server(tv.take(k as int), s),
        decreases tools@.len() - k,
    {
        let ghost before = crate::text::strs_view(servers@);
        let found = extract_mcp_server_name(tools[k].name.as_str());
        assert(tv[k as int].name == tools@[k as int].name@);
        match found {
            Some(s) => {
                insert_server(&mut servers, s);
            },
            None => {},
        }
        assert forall|s: Seq<char>|
            crate::text::strs_view(servers@).contains(s) <==> has_server(tv.take(k + 1), s) by {
            let p = tv.take(k as int);
            let q = tv.take(k + 1);
            if has_server(q, s) {
                let i = choose|i: int| 0 <= i < q.len() && mcp_server_spec(#[trigger] q[i].name) == Some(s);
                if i < k {
                    assert(p[i] == q[i]);
                    assert(has_server(p, s));
                }
            }
            if has_server(p, s) {
                let i = choose|i: int| 0 <= i < p.len() && mcp_server_spec(#[trigger] p[i].name) == Some(s);
                assert(q[i] == p[i]);
            }
            if mcp_server_spec(q[k as int].name) == Some(s) {
                assert(has_server(q, s));
            }
        }
        k = k + 1;
    }
    assert(tv.take(tools@.len() as int) =~= tv);
    servers
}

/// The tools of one MCP server, as the picker shows them.
fn server_tools(tools: &[Tool], server: &str, names: &Vec<String>) -> (r: Vec<(String, String, bool)>)
    ensures
        crate::tool_picker::tools_view(r@) == server_group(tools_view(tools@), server@, crate::text::strs_view(names@)),
{
    let ghost tv = tools_view(tools@);
    let ghost nv = crate::text::strs_view(names@);
    let mut out: Vec<(String, String, bool)> = Vec::new();
    let mut k: usize = 0;
    assert(tv.take(0) =~= seq![]);
    while k < tools.len()
        invariant
            k <= tools@.len(),
            tv == tools_view(tools@),
            nv == crate::text::strs_view(names@),
            crate::tool_picker::tools_view(out@) == server_group(tv.take(k as int), server@, nv),
        decreases tools@.len() - k,
    {
        assert(tv.take(k + 1).drop_last() =~= tv.take(k as int));
        assert(tv[k as int].name == tools@[k as int].name@);
        let found = extract_mcp_server_name(tools[k].name.as_str());
        let ghost before = crate::tool_picker::tools_view(out@);
        let hit = match &found {
            Some(s) => str_eq(s.as_str(), server),
            None => false,
        };
        if hit {
            let sel = contains_name(names, tools[k].name.as_str());
            out.push((tools[k].name.clone(), tools[k].description.clone(), sel));
            assert(crate::tool_picker::tools_view(out@) =~= before + seq![picker_entry(tv[k as int], nv)]);
        } else {
            assert(crate::tool_picker::tools_view(out@) =~= before + seq![]);
        }
        k = k + 1;
    }
    assert(tv.take(tools@.len() as int) =~= tv);
    out
}

/// Whether `name` is one of `names`.
fn contains_name(names: &Vec<String>, name: &str) -> (r: bool)
    ensures
        r == crate::text::strs_view(names@).contains(name@),
{
    let ghost nv = crate::text::strs_view(names@);
    let mut i: usize = 0;
    while i < names.len()
        invariant
            i <= names@.len(),
            nv == crate::text::strs_view(names@),
            forall|m: int| 0 <= m < i ==> nv[m] != name@,
        decreases names@.len() - i,
    {
        if str_eq(names[i].as_str(), name) {
            assert(nv[i as int] == name@);
            return true;
        }
        i = i + 1;
    }
    false
}

/// The MCP tools grouped by server, as the picker shows them.
pub fn mcp_picker_categories(tools: &[Tool], names: &Vec<String>) -> (r: Vec<(String, Vec<(String, String, bool)>)>)
    ensures
        mcp_categories_ok(tools_view(tools@), crate::text::strs_view(names@), categories_view(r@)),
{
    let servers = mcp_servers(tools);
    let ghost sv = crate::text::strs_view(servers@);
    let ghost tv = tools_view(tools@);
    let ghost nv = crate::text::strs_view(names@);
    let mut out: Vec<(String, Vec<(String, String, bool)>)> = Vec::new();
    let mut i: usize = 0;
    while i < servers.len()
        invariant
            i <= servers@.len(),
            sv == crate::text::strs_view(servers@),
            tv == tools_view(tools@),
            nv == crate::text::strs_view(names@),
            out@.len() == i,
            forall|m: int|
                0 <= m < i ==> (#[trigger] categories_view(out@)[m]).0 == "MCP: "@ + sv[m]
                    && categories_view(out@)[m].1 == server_group(tv, sv[m], nv),
        decreases servers@.len() - i,
    {
        let group = server_tools(tools, servers[i].as_str(), names);
        let mut name = "MCP: ".to_string();
        push_str(&mut name, servers[i].as_str());
        let ghost before = out@;
        let ghost nm = name@;
        let ghost gv = crate::tool_picker::tools_view(group@);
        assert(nm == "MCP: "@ + sv[i as int]);
        out.push((name, group));
        assert(categories_view(out@)[i as int] == (nm, gv));
        assert forall|m: int|
            0 <= m < i + 1 implies (#[trigger] categories_view(out@)[m]).0 == "MCP: "@ + sv[m]
                && categories_view(out@)[m].1 == server_group(tv, sv[m], nv) by {
            if m < i {
                assert(out@[m] == before[m]);
                assert(categories_view(out@)[m] == categories_view(before)[m]);
            }
        }
        i = i + 1;
    }
    proof {
        reveal_strlit("MCP: ");
        let cs = categories_view(out@);
        let servers2 = cs.map_values(|c: (Seq<char>, Seq<(Seq<char>, Seq<char>, bool)>)| c.0.skip(5));
        assert forall|m: int| 0 <= m < cs.len() implies servers2[m] == sv[m] by {
            assert(("MCP: "@ + sv[m]).skip(5) =~= sv[m]);
        }
        assert(servers2 =~= sv);
    }
    out
}

} // verus!

verus! {

pub open spec fn builtin_view(cats: Seq<(String, Vec<Tool>)>) -> Seq<(Seq<char>, Seq<ToolView>)> {
    cats.map_values(|c: (String, Vec<Tool>)| (c.0@, tools_view(c.1@)))
}

fn picker_tools_of(ts: &Vec<Tool>, names: &Vec<String>) -> (r: Vec<(String, String, bool)>)
    ensures
        crate::tool_picker::tools_view(r@) == picker_entries(tools_view(ts@), crate::text::strs_view(names@)),
{
    let ghost tv = tools_view(ts@);
    let ghost nv = crate::text::strs_view(names@);
    let mut out: Vec<(String, String, bool)> = Vec::new();
    let mut k: usize = 0;
    while k < ts.len()
        invariant
            k <= ts@.len(),
            tv == tools_view(ts@),
            nv == crate::text::strs_view(names@),
            out@.len() == k,
            forall|m: int|
                0 <= m < k ==> #[trigger] crate::tool_picker::tool_view(out@[m]) == picker_entry(tv[m], nv),
        decreases ts@.len() - k,
    {
        let sel = contains_name(names, ts[k].name.as_str());
        let ghost before = out@;
        out.push((ts[k].name.clone(), ts[k].description.clone(), sel));
        assert forall|m: int| 0 <= m < k + 1 implies #[trigger] crate::tool_picker::tool_view(out@[m])
            == picker_entry(tv[m], nv) by {
            if m < k {
                assert(out@[m] == before[m]);
            }
        }
        k = k + 1;
    }
    assert(crate::tool_picker::tools_view(out@) =~= picker_entries(tv, nv));
    out
}

fn builtin_picker_categories(cats: &[(String, Vec<Tool>)], names: &Vec<String>) -> (r: Vec<
    (String, Vec<(String, String, bool)>),
>)
    ensures
        categories_view(r@) == builtin_categories(builtin_view(cats@), crate::text::strs_view(names@)),
{
    let ghost cv = builtin_view(cats@);
    let ghost nv = crate::text::strs_view(names@);
    let mut out: Vec<(String, Vec<(String, String, bool)>)> = Vec::new();
    let mut k: usize = 0;
    assert(cv.take(0) =~= seq![]);
    while k < cats.len()
        invariant
            k <= cats@.len(),
            cv == builtin_view(cats@),
            nv == crate::text::strs_view(names@),
            categories_view(out@) == builtin_categories(cv.take(k as int), nv),
        decreases cats@.len() - k,
    {
        assert(cv.take(k + 1).drop_last() =~= cv.take(k as int));
        let ghost before = categories_view(out@);
        if cats[k].1.len() > 0 {
            let tools = picker_tools_of(&cats[k].1, names);
            let ghost entry = (cats@[k as int].0@, crate::tool_picker::tools_view(tools@));
            out.push((cats[k].0.clone(), tools));
            assert(categories_view(out@) =~= before + seq![entry]);
        } else {
            assert(categories_view(out@) =~= before + seq![]);
        }
        k = k + 1;
    }
    assert(cv.take(cats@.len() as int) =~= cv);
    out
}

/// What the picker shows when it opens: the built-in categories that have
/// tools, then the MCP tools grouped by server, each tool selected when the
/// current tool mode names it.
pub open spec fn picker_opened(
    builtin: Seq<(Seq<char>, Seq<ToolView>)>,
    mcp_tools: Seq<ToolView>,
    names: Seq<Seq<char>>,
    cs: Seq<(Seq<char>, Seq<(Seq<char>, Seq<char>, bool)>)>,
) -> bool {
    let b = builtin_categories(builtin, names);
    &&& b.len() <= cs.len()
    &&& cs.take(b.len() as int) == b
    &&& mcp_categories_ok(mcp_tools, names, cs.skip(b.len() as int))
}

impl App {
    /// Opens the tool picker over the built-in categories and the MCP
    /// tools, with the tools of an explicit tool mode selected.
    pub fn open_tool_picker(&mut self, builtin: &[(String, Vec<Tool>)])
        ensures
            match final(self).tool_picker_state {
                Some(st) => {
                    &&& picker_opened(
                        builtin_view(builtin@),
                        tools_view(old(self).mcp_tools@),
                        mode_names(old(self).tool_mode@),
                        categories_view(st.categories@),
                    )
                    &&& st.selected_category == 0
                    &&& st.selected_tool is None
                    &&& st.scroll == 0
                    &&& st.filter_query@.len() == 0
                    &&& st.collapsed@.len() == 0
                },
                None => false,
            },
            final(self).mode == AppMode::ToolPicker,
            final(self).status@ == "Select tools (Space: toggle, Enter: confirm, A: all, N: none, Esc: cancel)"@,
            final(self).input@.len() == 0,
            final(self).tool_mode@ == old(self).tool_mode@,
            final(self).mcp_tools@ == old(self).mcp_tools@,
            final(self).tools@ == old(self).tools@,
    {
        let names: Vec<String> = match &self.tool_mode {
            ToolMode::Explicit(v) => crate::tool::clone_strings(v),
            _ => Vec::new(),
        };
        proof {
            assert(crate::text::strs_view(names@) =~= mode_names(self.tool_mode@));
        }
        let mut categories = builtin_picker_categories(builtin, &names);
        let ghost b = categories_view(categories@);
        let mut mcp = mcp_picker_categories(self.mcp_tools.as_slice(), &names);
        let ghost m = categories_view(mcp@);
        categories.append(&mut mcp);
        proof {
            let cs = categories_view(categories@);
            assert(cs =~= b + m);
            assert(cs.take(b.len() as int) =~= b);
            assert(cs.skip(b.len() as int) =~= m);
        }
        self.tool_picker_state = Some(ToolPickerState::new(categories));
        self.mode = AppMode::ToolPicker;
        self.status = "Select tools (Space: toggle, Enter: confirm, A: all, N: none, Esc: cancel)".to_string();
        self.input = String::new();
    }
}

} // verus!

verus! {

// ---------------------------------------------------------------------------
// Reporting the tool mode
// ---------------------------------------------------------------------------

/// How many of the names are MCP tools (`mcp_` prefix).
pub open spec fn count_mcp(names: Seq<Seq<char>>) -> nat
    decreases names.len(),
{
    if names.len() == 0 {
        0
    } else {
        count_mcp(names.drop_last()) + if crate::text::starts_with_seq(names.last(), "mcp_"@) {
            1nat
        } else {
            0nat
        }
    }
}

/// The line describing the current tool mode.
pub open spec fn mode_line(m: ToolModeView, builtin: nat, mcp: nat, active: nat) -> Seq<char> {
    match m {
        ToolModeView::Full => "full ("@ + decimal(builtin) + " built-in + "@ + decimal(mcp) + " MCP)"@,
        ToolModeView::Explicit(ns) => "explicit ("@ + decimal((ns.len() - count_mcp(ns)) as nat)
            + " built-in + "@ + decimal(count_mcp(ns)) + " MCP selected)"@,
        ToolModeView::Smart => "smart (auto-select based on query)"@,
        ToolModeView::Core => "core ("@ + decimal(active) + " essential tools)"@,
        ToolModeView::Disabled => "none (tools disabled)"@,
    }
}

/// The report of `/tools`: the current mode, the modes there are, and the
/// connected MCP servers.
pub open spec fn tool_mode_report_spec(
    m: ToolModeView,
    builtin: nat,
    mcp: nat,
    core: nat,
    active: nat,
    servers: Seq<Seq<char>>,
) -> Seq<char> {
    "Tool Mode: "@ + mode_line(m, builtin, mcp, active) + "\n\nAvailable modes:\n• /tools full     - All "@
        + decimal(builtin + mcp) + " tools ("@ + decimal(builtin) + " built-in + "@ + decimal(mcp)
        + " MCP)\n• /tools explicit - Pick specific tools\n• /tools smart    - Auto-select based on query (default)\n• /tools core     - Core "@
        + decimal(core) + " tools only\n• /tools none     - Disable all tools\n\nConnected MCP servers: "@
        + if servers.len() == 0 {
        "none"@
    } else {
        crate::text::join(servers, ", "@)
    }
}

fn count_mcp_names(names: &Vec<String>) -> (r: usize)
    ensures
        r == count_mcp(crate::text::strs_view(names@)),
        r <= names@.len(),
{
    let ghost nv = crate::text::strs_view(names@);
    let mut n: usize = 0;
    let mut i: usize = 0;
    assert(nv.take(0) =~= seq![]);
    while i < names.len()
        invariant
            i <= names@.len(),
            nv == crate::text::strs_view(names@),
            n == count_mcp(nv.take(i as int)),
            n <= i,
        decreases names@.len() - i,
    {
        assert(nv.take(i + 1).drop_last() =~= nv.take(i as int));
        let v = to_chars(names[i].as_str());
        let p = to_chars("mcp_");
        if crate::text::matches_at(v.as_slice(), p.as_slice(), 0) {
            n = n + 1;
        }
        i = i + 1;
    }
    assert(nv.take(names@.len() as int) =~= nv);
    n
}

/// The report of `/tools`.
pub fn tool_mode_report(
    mode: &ToolMode,
    builtin: usize,
    mcp: usize,
    core: usize,
    active: usize,
    servers: &[String],
) -> (r: String)
    requires
        builtin + mcp <= usize::MAX,
    ensures
        r@ == tool_mode_report_spec(
            mode@,
            builtin as nat,
            mcp as nat,
            core as nat,
            active as nat,
            crate::text::strs_view(servers@),
        ),
{
    let line: String = match mode {
        ToolMode::Full => {
            let mut s = "full (".to_string();
            push_str(&mut s, usize_to_string(builtin).as_str());
            push_str(&mut s, " built-in + ");
            push_str(&mut s, usize_to_string(mcp).as_str());
            push_str(&mut s, " MCP)");
            s
        },
        ToolMode::Explicit(names) => {
            let m = count_mcp_names(names);
            let mut s = "explicit (".to_string();
            push_str(&mut s, usize_to_string(names.len() - m).as_str());
            push_str(&mut s, " built-in + ");
            push_str(&mut s, usize_to_string(m).as_str());
            push_str(&mut s, " MCP selected)");
            s
        },
        ToolMode::Smart => "smart (auto-select based on query)".to_string(),
        ToolMode::Core => {
            let mut s = "core (".to_string();
            push_str(&mut s, usize_to_string(active).as_str());
            push_str(&mut s, " essential tools)");
            s
        },
        ToolMode::Disabled => "none (tools disabled)".to_string(),
    };
    proof {
        match mode {
            ToolMode::Explicit(names) => {
                assert(crate::text::strs_view(names@).len() == names@.len());
            },
            _ => {},
        }
    }
    assert(line@ == mode_line(mode@, builtin as nat, mcp as nat, active as nat));
    let mut s = "Tool Mode: ".to_string();
    push_str(&mut s, line.as_str());
    push_str(&mut s, "\n\nAvailable modes:\n• /tools full     - All ");
    push_str(&mut s, usize_to_string(builtin + mcp).as_str());
    push_str(&mut s, " tools (");
    push_str(&mut s, usize_to_string(builtin).as_str());
    push_str(&mut s, " built-in + ");
    push_str(&mut s, usize_to_string(mcp).as_str());
    push_str(
        &mut s,
        " MCP)\n• /tools explicit - Pick specific tools\n• /tools smart    - Auto-select based on query (default)\n• /tools core     - Core ",
    );
    push_str(&mut s, usize_to_string(core).as_str());
    push_str(&mut s, " tools only\n• /tools none     - Disable all tools\n\nConnected MCP servers: ");
    if servers.len() == 0 {
        push_str(&mut s, "none");
    } else {
        let joined = crate::text::join_strings(servers, ", ");
        push_str(&mut s, joined.as_str());
    }
    s
}

} // verus!
