use brainwires_cli::app::{App, AppMode, ApprovalMode, PlanModeState, ShellExecution, TaskViewerState, ToolMode, TuiMessage};
use brainwires_cli::plan_mode::PlanModeUpdate;

fn msg(role: &str, content: &str) -> TuiMessage {
    TuiMessage { role: role.to_string(), content: content.to_string(), created_at: 0 }
}

fn shell(cmd: &str) -> ShellExecution {
    ShellExecution { command: cmd.to_string(), output: String::new(), exit_code: 0, executed_at: 0 }
}

fn app() -> App {
    App {
        mode: AppMode::Normal,
        status: "Ready".to_string(),
        console_messages: Vec::new(),
        input: String::new(),
        model: "model-a".to_string(),
        tools: Vec::new(),
        tool_mode: ToolMode::Smart,
        mcp_tools: Vec::new(),
        tool_picker_state: None,
        suspend_dialog_state: None,
        exit_dialog_state: None,
        pending_background: false,
        pending_suspend: false,
        should_quit: false,
        exit_when_agent_done: false,
        last_preserve_chat_setting: false,
        preserve_chat_on_exit: false,
        task_viewer_state: TaskViewerState { selected_index: 0, scroll: 0, visible_tasks: Vec::new(), collapsed: Vec::new() },
        task_tree_cache: String::new(),
        plan_mode_state: None,
        plan_mode_saved_main: None,
        messages: vec![msg("user", "a"), msg("assistant", "b"), msg("user", "c")],
        conversation_history: vec![msg("user", "a"), msg("assistant", "b"), msg("user", "c")],
        scroll: 7,
        mdap_k: None,
        session_id: "session-1".to_string(),
        cleared_messages: None,
        cleared_conversation_history: None,
        approval_mode: ApprovalMode::Suggest,
        pending_exec_command: None,
        shell_history: vec![shell("ls"), shell("pwd")],
        selected_shell_index: 0,
        shell_viewer_scroll: 4,
    }
}

#[test]
fn entering_puts_the_main_conversation_aside() {
    let mut a = app();
    assert!(a.enter_plan_mode(Some("auth".to_string()), "plan-1".to_string()));
    assert_eq!(a.mode, AppMode::PlanMode);
    assert!(a.messages.is_empty() && a.conversation_history.is_empty());
    assert_eq!(a.scroll, 0);
    assert_eq!(a.status, "Plan Mode - Focus: auth (Ctrl+P to exit)");
    assert_eq!(a.console_messages.last().map(|s| s.as_str()), Some("Entered plan mode: auth"));
    let plan = a.plan_mode_state.as_ref().unwrap();
    assert!(plan.active);
    assert_eq!(plan.plan_session_id, "plan-1");
    assert_eq!(plan.focus.as_deref(), Some("auth"));
    let saved = a.plan_mode_saved_main.as_ref().unwrap();
    assert_eq!(saved.messages.len(), 3);
    assert_eq!(saved.scroll, 7);
    assert_eq!(saved.status, "Ready");
}

#[test]
fn entering_twice_only_notes_it() {
    let mut a = app();
    a.enter_plan_mode(None, "plan-1".to_string());
    assert_eq!(a.status, "Plan Mode - Focus: general planning (Ctrl+P to exit)");
    assert!(!a.enter_plan_mode(Some("x".to_string()), "plan-2".to_string()));
    assert_eq!(a.console_messages.last().map(|s| s.as_str()), Some("Already in plan mode"));
    assert_eq!(a.plan_mode_state.as_ref().unwrap().plan_session_id, "plan-1");
}

#[test]
fn leaving_restores_the_main_conversation() {
    let mut a = app();
    a.enter_plan_mode(None, "plan-1".to_string());
    a.messages.push(msg("user", "plan this"));
    assert!(a.exit_plan_mode());
    assert_eq!(a.mode, AppMode::Normal);
    assert_eq!(a.messages.len(), 3);
    assert_eq!(a.messages[2].content, "c");
    assert_eq!(a.scroll, 7);
    assert_eq!(a.status, "Ready");
    assert!(a.plan_mode_saved_main.is_none());
    let plan = a.plan_mode_state.as_ref().unwrap();
    assert!(!plan.active);
    assert_eq!(plan.messages.len(), 1);
    assert_eq!(a.console_messages.last().map(|s| s.as_str()), Some("Exited plan mode"));
    assert!(!a.exit_plan_mode());
}

#[test]
fn reentering_resumes_the_plan() {
    let mut a = app();
    a.enter_plan_mode(Some("db".to_string()), "plan-1".to_string());
    a.messages.push(msg("user", "step one"));
    a.exit_plan_mode();
    a.enter_plan_mode(None, "plan-2".to_string());
    let plan = a.plan_mode_state.as_ref().unwrap();
    assert!(plan.active);
    assert_eq!(plan.plan_session_id, "plan-1");
    assert_eq!(plan.focus.as_deref(), Some("db"));
    assert_eq!(a.messages.len(), 1);
    assert_eq!(a.messages[0].content, "step one");
}

#[test]
fn leaving_without_saved_context_names_the_model() {
    let mut a = app();
    a.mode = AppMode::PlanMode;
    a.exit_plan_mode();
    assert_eq!(a.status, "Ready - Model: model-a");
    assert_eq!(a.messages.len(), 3);
}

#[test]
fn session_updates_in_plan_mode() {
    let mut a = app();
    a.plan_mode_state = Some(PlanModeState {
        active: true,
        plan_session_id: "old".to_string(),
        focus: None,
        messages: Vec::new(),
        conversation_history: Vec::new(),
    });
    a.handle_plan_mode_ipc(
        PlanModeUpdate::Entered {
            plan_session_id: "p-9".to_string(),
            messages: vec![msg("user", "q")],
            status: "Planning".to_string(),
        },
        0,
    );
    assert_eq!(a.mode, AppMode::PlanMode);
    assert_eq!(a.status, "Planning");
    assert_eq!(a.messages.len(), 1);
    assert_eq!(a.plan_mode_state.as_ref().unwrap().plan_session_id, "p-9");

    a.handle_plan_mode_ipc(PlanModeUpdate::StreamChunk("ans".to_string()), 5);
    assert_eq!(a.messages.len(), 1);
    a.handle_plan_mode_ipc(PlanModeUpdate::MessageAdded(msg("assistant", "An")), 0);
    a.handle_plan_mode_ipc(PlanModeUpdate::StreamChunk("swer".to_string()), 5);
    assert_eq!(a.messages[1].content, "Answer");
    assert_eq!(a.plan_mode_state.as_ref().unwrap().messages.len(), 2);
    assert_eq!(a.plan_mode_state.as_ref().unwrap().messages[1].content, "An");
    a.handle_plan_mode_ipc(PlanModeUpdate::StreamEnd, 0);
    assert_eq!(a.plan_mode_state.as_ref().unwrap().messages[1].content, "Answer");

    a.handle_plan_mode_ipc(PlanModeUpdate::Exited { summary: Some("done".to_string()) }, 0);
    assert_eq!(a.mode, AppMode::Normal);
    assert_eq!(a.console_messages.last().map(|s| s.as_str()), Some("Plan mode summary: done"));
}

#[test]
fn stream_chunk_starts_a_message_when_none_is_shown() {
    let mut a = app();
    a.messages.clear();
    a.handle_plan_mode_ipc(PlanModeUpdate::StreamChunk("hi".to_string()), 77);
    assert_eq!(a.messages.len(), 1);
    assert_eq!(a.messages[0].role, "assistant");
    assert_eq!(a.messages[0].content, "hi");
    assert_eq!(a.messages[0].created_at, 77);
}

#[test]
fn sync_without_plan_state_only_shows_messages() {
    let mut a = app();
    a.handle_plan_mode_ipc(
        PlanModeUpdate::Sync { plan_session_id: "p".to_string(), messages: Vec::new(), status: "S".to_string() },
        0,
    );
    assert!(a.plan_mode_state.is_none());
    assert!(a.messages.is_empty());
    assert_eq!(a.status, "S");
    assert_eq!(a.mode, AppMode::Normal);
}
