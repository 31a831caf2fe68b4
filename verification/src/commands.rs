//! The slash commands that act on the interface's own state: clearing and
//! rewinding the conversation, the status message, leaving, the approval
//! mode, shell commands and their history, and the hotkey dialog. Commands
//! that need the model, the stores or the agents are run by the program
//! around the library.
use vstd::prelude::*;
use crate::app::{
    same_tasks, same_tools, App, AppMode, ApprovalMode, TuiMessage,
};
use crate::text::{decimal, push_str, str_eq, usize_to_string};

verus! {

broadcast use vstd::string::group_string_axioms;

/// A slash command that acts on the interface's own state.
#[derive(Debug, Clone, PartialEq, Eq)]
pub enum CommandAction {
    /// Clear the conversation and the shell history, keeping the
    /// conversation for `/resume`
    ClearHistory,
    /// Show the session, model and message count
    ShowStatus,
    /// Drop the last steps (a step is a message and its answer)
    Rewind(usize),
    /// Leave the program
    Exit,
    /// Set how much the tools may do without asking
    SetApprovalMode(String),
    /// Run a shell command (in the main loop, which owns the terminal)
    ExecCommand(String),
    /// Open the shell-command history
    ShowShellHistory,
    /// Open the hotkey dialog
    OpenHotkeyDialog,
}

/// What the program has still to do after a command.
#[derive(Debug, Clone, Copy, PartialEq, Eq, Structural)]
pub enum CommandEffect {
    /// Nothing
    Done,
    /// Create the hotkey dialog's widget state
    CreateHotkeyDialog,
}

/// The approval mode a name sets: `suggest`, `auto-edit` and `full-auto`;
/// any other name sets the safest, `suggest`.
pub open spec fn approval_mode_spec(name: Seq<char>) -> ApprovalMode {
    if name == "auto-edit"@ {
        ApprovalMode::AutoEdit
    } else if name == "full-auto"@ {
        ApprovalMode::FullAuto
    } else {
        ApprovalMode::Suggest
    }
}

/// The approval mode a name sets.
pub fn approval_mode_named(name: &str) -> (r: ApprovalMode)
    ensures
        r == approval_mode_spec(name@),
{
    proof {
        reveal_strlit("suggest");
        reveal_strlit("auto-edit");
        reveal_strlit("full-auto");
        assert("suggest"@[0] != "auto-edit"@[0]);
        assert("suggest"@[0] != "full-auto"@[0]);
    }
    if str_eq(name, "suggest") {
        ApprovalMode::Suggest
    } else if str_eq(name, "auto-edit") {
        ApprovalMode::AutoEdit
    } else if str_eq(name, "full-auto") {
        ApprovalMode::FullAuto
    } else {
        ApprovalMode::Suggest
    }
}

/// The text of the status message.
pub open spec fn status_text(session_id: Seq<char>, model: Seq<char>, messages: nat) -> Seq<char> {
    "Session: "@ + session_id + "\nModel: "@ + model + "\nMessages: "@ + decimal(messages)
}

/// `s` without its last `n` elements (all of them when it has fewer).
pub open spec fn drop_last_n<A>(s: Seq<A>, n: nat) -> Seq<A> {
    if n >= s.len() {
        seq![]
    } else {
        s.take(s.len() - n)
    }
}

/// The fields no command touches stay as they were.
pub open spec fn untouched(a: App, b: App) -> bool {
    &&& same_tools(a, b)
    &&& same_tasks(a, b)
    &&& a.console_messages@ == b.console_messages@
    &&& a.model@ == b.model@
    &&& a.mdap_k == b.mdap_k
    &&& a.suspend_dialog_state == b.suspend_dialog_state
    &&& a.exit_dialog_state == b.exit_dialog_state
    &&& a.pending_background == b.pending_background
    &&& a.pending_suspend == b.pending_suspend
    &&& a.exit_when_agent_done == b.exit_when_agent_done
    &&& a.last_preserve_chat_setting == b.last_preserve_chat_setting
    &&& a.preserve_chat_on_exit == b.preserve_chat_on_exit
    &&& a.plan_mode_state == b.plan_mode_state
    &&& a.plan_mode_saved_main == b.plan_mode_saved_main
    &&& a.scroll == b.scroll
    &&& a.session_id@ == b.session_id@
}

/// The conversation, its saved copy and the shell viewer stay as they were.
pub open spec fn same_history(a: App, b: App) -> bool {
    &&& a.messages@ == b.messages@
    &&& a.conversation_history@ == b.conversation_history@
    &&& a.cleared_messages == b.cleared_messages
    &&& a.cleared_conversation_history == b.cleared_conversation_history
    &&& a.shell_history@ == b.shell_history@
    &&& a.selected_shell_index == b.selected_shell_index
    &&& a.shell_viewer_scroll == b.shell_viewer_scroll
}

/// What a command leaves behind, for a state `o` becoming `n` at time `now`.
/// Every command clears the input.
pub open spec fn command_post(o: App, action: CommandAction, now: i64, n: App) -> bool {
    &&& untouched(o, n)
    &&& n.input@.len() == 0
    &&& match action {
        CommandAction::ClearHistory => {
            &&& n.cleared_messages == Some(o.messages)
            &&& n.cleared_conversation_history == Some(o.conversation_history)
            &&& n.messages@.len() == 0
            &&& n.conversation_history@.len() == 0
            &&& n.shell_history@.len() == 0
            &&& n.selected_shell_index == 0
            &&& n.shell_viewer_scroll == 0
            &&& n.status@ == "Conversation and shell history cleared (use /resume to restore)"@
            &&& n.mode == o.mode
            &&& n.should_quit == o.should_quit
            &&& n.approval_mode == o.approval_mode
            &&& n.pending_exec_command == o.pending_exec_command
        },
        CommandAction::ShowStatus => {
            &&& n.messages@.len() == o.messages@.len() + 1
            &&& n.messages@.take(o.messages@.len() as int) == o.messages@
            &&& n.messages@.last().role@ == "system"@
            &&& n.messages@.last().content@ == status_text(o.session_id@, o.model@, o.messages@.len())
            &&& n.messages@.last().created_at == now
            &&& n.conversation_history@ == o.conversation_history@
            &&& n.cleared_messages == o.cleared_messages
            &&& n.cleared_conversation_history == o.cleared_conversation_history
            &&& n.shell_history@ == o.shell_history@
            &&& n.selected_shell_index == o.selected_shell_index
            &&& n.shell_viewer_scroll == o.shell_viewer_scroll
            &&& n.status@ == o.status@
            &&& n.mode == o.mode
            &&& n.should_quit == o.should_quit
            &&& n.approval_mode == o.approval_mode
            &&& n.pending_exec_command == o.pending_exec_command
        },
        CommandAction::Rewind(steps) => {
            let k = if steps * 2 <= o.messages@.len() { steps * 2 } else { o.messages@.len() as int };
            &&& n.messages@ == drop_last_n(o.messages@, k as nat)
            &&& n.conversation_history@ == drop_last_n(o.conversation_history@, k as nat)
            &&& n.status@ == "Rewound "@ + decimal(steps as nat) + " steps"@
            &&& n.cleared_messages == o.cleared_messages
            &&& n.cleared_conversation_history == o.cleared_conversation_history
            &&& n.shell_history@ == o.shell_history@
            &&& n.selected_shell_index == o.selected_shell_index
            &&& n.shell_viewer_scroll == o.shell_viewer_scroll
            &&& n.mode == o.mode
            &&& n.should_quit == o.should_quit
            &&& n.approval_mode == o.approval_mode
            &&& n.pending_exec_command == o.pending_exec_command
        },
        CommandAction::Exit => {
            &&& n.should_quit
            &&& same_history(o, n)
            &&& n.status@ == o.status@
            &&& n.mode == o.mode
            &&& n.approval_mode == o.approval_mode
            &&& n.pending_exec_command == o.pending_exec_command
        },
        CommandAction::SetApprovalMode(name) => {
            &&& n.approval_mode == approval_mode_spec(name@)
            &&& n.status@ == "Approval mode set to: "@ + name@
            &&& same_history(o, n)
            &&& n.mode == o.mode
            &&& n.should_quit == o.should_quit
            &&& n.pending_exec_command == o.pending_exec_command
        },
        CommandAction::ExecCommand(c) => {
            &&& n.pending_exec_command == Some(c)
            &&& same_history(o, n)
            &&& n.status@ == o.status@
            &&& n.mode == o.mode
            &&& n.should_quit == o.should_quit
            &&& n.approval_mode == o.approval_mode
        },
        CommandAction::ShowShellHistory => {
            &&& n.mode == AppMode::ShellViewer
            &&& n.selected_shell_index == (if o.shell_history@.len() > 0 { o.shell_history@.len() - 1 } else { 0 })
            &&& n.shell_viewer_scroll == 0
            &&& n.messages@ == o.messages@
            &&& n.conversation_history@ == o.conversation_history@
            &&& n.cleared_messages == o.cleared_messages
            &&& n.cleared_conversation_history == o.cleared_conversation_history
            &&& n.shell_history@ == o.shell_history@
            &&& n.status@ == o.status@
            &&& n.should_quit == o.should_quit
            &&& n.approval_mode == o.approval_mode
            &&& n.pending_exec_command == o.pending_exec_command
        },
        CommandAction::OpenHotkeyDialog => {
            &&& n.mode == AppMode::HotkeyDialog
            &&& same_history(o, n)
            &&& n.status@ == o.status@
            &&& n.should_quit == o.should_quit
            &&& n.approval_mode == o.approval_mode
            &&& n.pending_exec_command == o.pending_exec_command
        },
    }
}

/// The work a command leaves for the program: creating the hotkey dialog's
/// widget state for `OpenHotkeyDialog`, nothing otherwise.
pub open spec fn command_effect_spec(action: CommandAction) -> CommandEffect {
    match action {
        CommandAction::OpenHotkeyDialog => CommandEffect::CreateHotkeyDialog,
        _ => CommandEffect::Done,
    }
}

/// Drops the last `n` elements of `v` (all of them when it has fewer).
fn pop_n(v: &mut Vec<TuiMessage>, n: usize)
    ensures
        final(v)@ == drop_last_n(old(v)@, n as nat),
{
    let mut i: usize = 0;
    while i < n
        invariant
            i <= n,
            v@ == drop_last_n(old(v)@, i as nat),
        decreases n - i,
    {
        if v.len() > 0 {
            let _ = v.pop();
        }
        proof {
            if (i as int) < old(v)@.len() {
                assert(v@ =~= drop_last_n(old(v)@, (i + 1) as nat));
            } else {
                assert(v@ =~= drop_last_n(old(v)@, (i + 1) as nat));
            }
        }
        i = i + 1;
    }
}

impl App {
    /// Runs a command on the interface's state (`now` stamps a message it
    /// adds) and returns what is left for the program to do.
    pub fn command_step(&mut self, action: &CommandAction, now: i64) -> (r: CommandEffect)
        requires
            action matches CommandAction::Rewind(steps) ==> steps * 2 <= usize::MAX,
        ensures
            command_post(*old(self), *action, now, *final(self)),
            r == command_effect_spec(*action),
    {
        match action {
            CommandAction::ClearHistory => {
                let mut m: Vec<TuiMessage> = Vec::new();
                std::mem::swap(&mut m, &mut self.messages);
                self.cleared_messages = Some(m);
                let mut h: Vec<TuiMessage> = Vec::new();
                std::mem::swap(&mut h, &mut self.conversation_history);
                self.cleared_conversation_history = Some(h);
                self.shell_history = Vec::new();
                self.selected_shell_index = 0;
                self.shell_viewer_scroll = 0;
                self.status = "Conversation and shell history cleared (use /resume to restore)".to_string();
            },
            CommandAction::ShowStatus => {
                let mut content = "Session: ".to_string();
                push_str(&mut content, self.session_id.as_str());
                push_str(&mut content, "\nModel: ");
                push_str(&mut content, self.model.as_str());
                push_str(&mut content, "\nMessages: ");
                let count = usize_to_string(self.messages.len());
                push_str(&mut content, count.as_str());
                let ghost before = self.messages@;
                self.messages.push(TuiMessage { role: "system".to_string(), content, created_at: now });
                assert(self.messages@.take(before.len() as int) =~= before);
            },
            CommandAction::Rewind(steps) => {
                let len = self.messages.len();
                let k = if *steps * 2 <= len { *steps * 2 } else { len };
                pop_n(&mut self.messages, k);
                pop_n(&mut self.conversation_history, k);
                let mut status = "Rewound ".to_string();
                let n = usize_to_string(*steps);
                push_str(&mut status, n.as_str());
                push_str(&mut status, " steps");
                self.status = status;
            },
            CommandAction::Exit => {
                self.should_quit = true;
            },
            CommandAction::SetApprovalMode(name) => {
                self.approval_mode = approval_mode_named(name.as_str());
                let mut status = "Approval mode set to: ".to_string();
                push_str(&mut status, name.as_str());
                self.status = status;
            },
            CommandAction::ExecCommand(c) => {
                self.pending_exec_command = Some(c.clone());
            },
            CommandAction::ShowShellHistory => {
                self.mode = AppMode::ShellViewer;
                self.selected_shell_index = self.shell_history.len().saturating_sub(1);
                self.shell_viewer_scroll = 0;
            },
            CommandAction::OpenHotkeyDialog => {
                self.mode = AppMode::HotkeyDialog;
            },
        }
        self.input = String::new();
        match action {
            CommandAction::OpenHotkeyDialog => CommandEffect::CreateHotkeyDialog,
            _ => CommandEffect::Done,
        }
    }
}

} // verus!
