use brainwires_cli::app::{App, AppMode, ApprovalMode, ShellExecution, TaskViewerState, ToolMode, TuiMessage};
use brainwires_cli::commands::{approval_mode_named, CommandAction, CommandEffect};

fn msg(role: &str, content: &str) -> TuiMessage {
    TuiMessage { role: role.to_string(), content: content.to_string(), created_at: 0 }
}

fn shell(cmd: &str) -> ShellExecution {
    ShellExecution { command: cmd.to_string(), output: String::new(), exit_code: 0, executed_at: 0 }
}

fn app() -> App {
    App {
        mode: AppMode::Normal,
        status: String::new(),
        console_messages: Vec::new(),
        input: "/cmd".to_string(),
        model: "model-a".to_string(),
        tools: Vec::new(),
        tool_mode: ToolMode::Smart,
        mcp_tools: Vec::new(),
        tool_picker_state: None,
        suspend_dialog_state: None,
        exit_dialog_state: None,
        pending_background: false,
        pending_suspend: false,
        should_quit: false,
        exit_when_agent_done: false,
        last_preserve_chat_setting: false,
        preserve_chat_on_exit: false,
        task_viewer_state: TaskViewerState { selected_index: 0, scroll: 0, visible_tasks: Vec::new(), collapsed: Vec::new() },
        task_tree_cache: String::new(),
        plan_mode_state: None,
        plan_mode_saved_main: None,
        messages: vec![msg("user", "a"), msg("assistant", "b"), msg("user", "c")],
        conversation_history: vec![msg("user", "a"), msg("assistant", "b"), msg("user", "c")],
        scroll: 0,
        mdap_k: None,
        session_id: "session-1".to_string(),
        cleared_messages: None,
        cleared_conversation_history: None,
        approval_mode: ApprovalMode::Suggest,
        pending_exec_command: None,
        shell_history: vec![shell("ls"), shell("pwd")],
        selected_shell_index: 0,
        shell_viewer_scroll: 4,
    }
}

#[test]
fn clear_keeps_a_copy_for_resume() {
    let mut a = app();
    assert_eq!(a.command_step(&CommandAction::ClearHistory, 5), CommandEffect::Done);
    assert!(a.messages.is_empty() && a.conversation_history.is_empty() && a.shell_history.is_empty());
    assert_eq!(a.cleared_messages.as_ref().unwrap().len(), 3);
    assert_eq!(a.cleared_conversation_history.as_ref().unwrap()[2].content, "c");
    assert_eq!(a.status, "Conversation and shell history cleared (use /resume to restore)");
    assert_eq!(a.shell_viewer_scroll, 0);
    assert!(a.input.is_empty());
}

#[test]
fn status_message_is_added() {
    let mut a = app();
    a.command_step(&CommandAction::ShowStatus, 42);
    assert_eq!(a.messages.len(), 4);
    assert_eq!(a.messages[3].role, "system");
    assert_eq!(a.messages[3].content, "Session: session-1\nModel: model-a\nMessages: 3");
    assert_eq!(a.messages[3].created_at, 42);
}

#[test]
fn rewind_drops_two_messages_per_step() {
    let mut a = app();
    a.command_step(&CommandAction::Rewind(1), 0);
    assert_eq!(a.messages.len(), 1);
    assert_eq!(a.conversation_history.len(), 1);
    assert_eq!(a.status, "Rewound 1 steps");
    a.command_step(&CommandAction::Rewind(5), 0);
    assert!(a.messages.is_empty());
    assert_eq!(a.status, "Rewound 5 steps");
}

#[test]
fn exit_approval_exec_and_viewers() {
    let mut a = app();
    a.command_step(&CommandAction::SetApprovalMode("full-auto".to_string()), 0);
    assert_eq!(a.approval_mode, ApprovalMode::FullAuto);
    assert_eq!(a.status, "Approval mode set to: full-auto");
    a.command_step(&CommandAction::SetApprovalMode("bogus".to_string()), 0);
    assert_eq!(a.approval_mode, ApprovalMode::Suggest);
    assert_eq!(approval_mode_named("auto-edit"), ApprovalMode::AutoEdit);
    a.command_step(&CommandAction::ExecCommand("make".to_string()), 0);
    assert_eq!(a.pending_exec_command.as_deref(), Some("make"));
    a.command_step(&CommandAction::ShowShellHistory, 0);
    assert_eq!(a.mode, AppMode::ShellViewer);
    assert_eq!(a.selected_shell_index, 1);
    assert_eq!(a.shell_viewer_scroll, 0);
    assert_eq!(a.command_step(&CommandAction::OpenHotkeyDialog, 0), CommandEffect::CreateHotkeyDialog);
    assert_eq!(a.mode, AppMode::HotkeyDialog);
    a.command_step(&CommandAction::Exit, 0);
    assert!(a.should_quit);
}
