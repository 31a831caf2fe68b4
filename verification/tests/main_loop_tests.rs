use brainwires_cli::app::{ApprovalMode, App, AppMode, TaskViewerState, ToolMode, TuiMessage};
use brainwires_cli::main_loop::{
    approval_request_note, background_args, event_wait_ms, exec_failure_message, exec_failure_output,
    exec_result_message, exec_status, exit_transcript, i32_to_string, mouse_capture_change, pty_scroll,
    should_process_queue, sudo_request_note, LoopInterrupt, FAST_POLL_MS,
};

fn app() -> App {
    App {
        mode: AppMode::SuspendDialog,
        status: String::new(),
        console_messages: Vec::new(),
        input: String::new(),
        model: "m".to_string(),
        tools: Vec::new(),
        tool_mode: ToolMode::Smart,
        mcp_tools: Vec::new(),
        tool_picker_state: None,
        suspend_dialog_state: None,
        exit_dialog_state: None,
        pending_background: false,
        pending_suspend: false,
        should_quit: false,
        exit_when_agent_done: false,
        last_preserve_chat_setting: false,
        preserve_chat_on_exit: false,
        task_viewer_state: TaskViewerState { selected_index: 0, scroll: 0, visible_tasks: Vec::new(), collapsed: Vec::new() },
        task_tree_cache: String::new(),
        plan_mode_state: None,
        plan_mode_saved_main: None,
        messages: Vec::new(),
        conversation_history: Vec::new(),
        scroll: 0,
        mdap_k: None,
        session_id: "session-1".to_string(),
        cleared_messages: None,
        cleared_conversation_history: None,
        approval_mode: ApprovalMode::Suggest,
        pending_exec_command: None,
        shell_history: Vec::new(),
        selected_shell_index: 0,
        shell_viewer_scroll: 0,
    }
}

fn msg(role: &str, content: &str) -> TuiMessage {
    TuiMessage { role: role.to_string(), content: content.to_string(), created_at: 0 }
}

#[test]
fn background_comes_before_suspend() {
    let mut a = app();
    a.pending_background = true;
    a.pending_suspend = true;
    assert_eq!(a.take_interrupt(), LoopInterrupt::Background);
    assert_eq!(a.mode, AppMode::Normal);
    assert!(!a.pending_background);
    assert!(a.pending_suspend);
    assert_eq!(a.take_interrupt(), LoopInterrupt::Suspend);
    assert!(!a.pending_suspend);
    assert_eq!(a.take_interrupt(), LoopInterrupt::Continue);
}

#[test]
fn taking_a_request_leaves_the_rest_alone() {
    let mut a = app();
    a.pending_suspend = true;
    a.status = "busy".to_string();
    a.input = "draft".to_string();
    a.scroll = 9;
    a.should_quit = false;
    assert_eq!(a.take_interrupt(), LoopInterrupt::Suspend);
    assert_eq!(a.mode, AppMode::Normal);
    assert_eq!(a.status, "busy");
    assert_eq!(a.input, "draft");
    assert_eq!(a.scroll, 9);
    assert!(!a.should_quit && !a.pending_background);
}

#[test]
fn nothing_pending_changes_nothing() {
    let mut a = app();
    assert_eq!(a.take_interrupt(), LoopInterrupt::Continue);
    assert_eq!(a.mode, AppMode::SuspendDialog);
}

#[test]
fn mouse_capture_follows_the_setting() {
    assert_eq!(mouse_capture_change(true, true), Some(false));
    assert_eq!(mouse_capture_change(false, false), Some(true));
    assert_eq!(mouse_capture_change(false, true), None);
    assert_eq!(mouse_capture_change(true, false), None);
}

#[test]
fn fast_polling_while_output_arrives() {
    assert_eq!(event_wait_ms(true, false), Some(FAST_POLL_MS));
    assert_eq!(event_wait_ms(false, true), Some(16));
    assert_eq!(event_wait_ms(false, false), None);
}

#[test]
fn queue_waits_for_normal_mode() {
    assert!(should_process_queue(AppMode::Normal, 2));
    assert!(!should_process_queue(AppMode::Normal, 0));
    assert!(!should_process_queue(AppMode::Waiting, 1));
}

#[test]
fn exec_messages() {
    assert_eq!(exec_result_message("ls", 0, "a\nb"), "Command: ls\nExit code: 0\n\nOutput:\na\nb");
    assert_eq!(exec_result_message("false", -1, ""), "Command: false\nExit code: -1\n\nOutput:\n");
    assert_eq!(exec_status(127), "Command executed (exit code: 127)");
    assert_eq!(exec_failure_message("no pty"), "Failed to execute command: no pty");
    assert_eq!(exec_failure_output("no pty"), "Error: no pty");
    assert_eq!(i32_to_string(i32::MIN), i32::MIN.to_string());
    assert_eq!(i32_to_string(i32::MAX), i32::MAX.to_string());
}

#[test]
fn approval_and_sudo_notes() {
    assert_eq!(approval_request_note(Some("write_file")), "\u{26a0}\u{fe0f} Tool approval requested: write_file");
    assert_eq!(approval_request_note(None), "\u{26a0}\u{fe0f} Tool approval requested: unknown");
    assert_eq!(sudo_request_note("apt update"), "\u{1f512} Sudo password requested for: apt update");
    let long = "x".repeat(45);
    assert_eq!(sudo_request_note(&long), format!("\u{1f512} Sudo password requested for: {}...", "x".repeat(40)));
}

#[test]
fn pty_scroll_keeps_last_page_visible() {
    assert_eq!(pty_scroll(100, Some(21)), 80);
    assert_eq!(pty_scroll(100, None), 80);
    assert_eq!(pty_scroll(5, Some(30)), 0);
    assert_eq!(pty_scroll(7, Some(0)), 7);
}

#[test]
fn background_arguments() {
    assert_eq!(background_args("s1", "gpt"), vec!["--session", "s1", "--pty-session", "--model", "gpt"]);
    assert_eq!(background_args("s1", ""), vec!["--session", "s1", "--pty-session"]);
}

#[test]
fn transcript_marks_user_messages() {
    let parts = exit_transcript(&[msg("user", "hi"), msg("assistant", "hello"), msg("system", "done")]);
    assert_eq!(parts.len(), 3);
    assert!(parts[0].prompt && !parts[1].prompt && !parts[2].prompt);
    assert_eq!(parts[1].content, "hello");
    assert!(parts[0].blank_after && parts[1].blank_after && !parts[2].blank_after);
    assert!(exit_transcript(&[]).is_empty());
}
