use brainwires_cli::app::{ApprovalMode, 
    extract_mcp_server_name, mcp_picker_categories, tool_mode_report, truncate_description, App, AppMode, ExitAction, ExitDialogState,
    PlanModeState, TaskViewerState, ToolMode, TuiMessage,
};
use brainwires_cli::suspend_dialog::{SuspendAction, SuspendDialogState};
use brainwires_cli::tool::{string_property, Tool};
use brainwires_cli::tool_picker::ToolPickerState;

fn tool(name: &str) -> Tool {
    Tool {
        name: name.to_string(),
        description: format!("{} description", name),
        properties: vec![string_property("path", "A path")],
        required: vec!["path".to_string()],
        requires_approval: false,
        defer_loading: false,
    }
}

fn app() -> App {
    App {
        mode: AppMode::Normal,
        status: String::new(),
        console_messages: Vec::new(),
        input: "typed".to_string(),
        model: "model-a".to_string(),
        tools: Vec::new(),
        tool_mode: ToolMode::Smart,
        mcp_tools: vec![tool("mcp_github_list"), tool("mcp_fs_read")],
        tool_picker_state: None,
        suspend_dialog_state: None,
        exit_dialog_state: None,
        pending_background: false,
        pending_suspend: false,
        should_quit: false,
        exit_when_agent_done: false,
        last_preserve_chat_setting: true,
        preserve_chat_on_exit: true,
        task_viewer_state: TaskViewerState {
            selected_index: 0,
            scroll: 0,
            visible_tasks: Vec::new(),
            collapsed: Vec::new(),
        },
        task_tree_cache: "a\nb\nc".to_string(),
        plan_mode_state: None,
        plan_mode_saved_main: None,
        messages: Vec::new(),
        conversation_history: Vec::new(),
        scroll: 0,
        mdap_k: None,
        session_id: "session-1".to_string(),
        cleared_messages: None,
        cleared_conversation_history: None,
        approval_mode: ApprovalMode::Suggest,
        pending_exec_command: None,
        shell_history: Vec::new(),
        selected_shell_index: 0,
        shell_viewer_scroll: 0,
    }
}

#[test]
fn confirm_tool_selection_applies_explicit_mode() {
    let mut a = app();
    a.mode = AppMode::ToolPicker;
    a.tool_picker_state = Some(ToolPickerState::new(vec![
        ("Files".to_string(), vec![("read".to_string(), "r".to_string(), true), ("nope".to_string(), "n".to_string(), true)]),
        ("MCP: github".to_string(), vec![("mcp_github_list".to_string(), "l".to_string(), true)]),
    ]));
    let registry = vec![tool("read"), tool("write")];
    a.confirm_tool_selection(&registry);
    let names: Vec<&str> = a.tools.iter().map(|t| t.name.as_str()).collect();
    assert_eq!(names, vec!["read", "mcp_github_list"]);
    match &a.tool_mode {
        ToolMode::Explicit(v) => assert_eq!(v, &vec!["read", "nope", "mcp_github_list"]),
        _ => panic!("expected explicit mode"),
    }
    assert_eq!(a.status, "Tool mode: explicit (2 tools selected)");
    assert_eq!(a.console_messages, vec!["✅ Selected 2 tools"]);
    assert!(a.tool_picker_state.is_none());
    assert_eq!(a.mode, AppMode::Normal);
}

#[test]
fn confirm_without_picker_only_closes() {
    let mut a = app();
    a.mode = AppMode::ToolPicker;
    a.confirm_tool_selection(&[]);
    assert!(a.tools.is_empty());
    assert!(a.console_messages.is_empty());
    assert_eq!(a.mode, AppMode::Normal);
}

#[test]
fn suspend_and_exit_actions() {
    let mut a = app();
    let mut d = SuspendDialogState::new();
    d.toggle_exit_when_done();
    a.suspend_dialog_state = Some(d);
    a.execute_suspend_action(SuspendAction::Background);
    assert!(a.pending_background && a.exit_when_agent_done && !a.pending_suspend);
    assert!(a.suspend_dialog_state.is_none());
    let mut b = app();
    b.execute_suspend_action(SuspendAction::Suspend);
    assert!(b.pending_suspend && !b.pending_background);

    let mut c = app();
    c.exit_dialog_state = Some(ExitDialogState { exit_when_done: false, preserve_chat: false });
    c.mode = AppMode::ExitDialog;
    c.execute_exit_action(ExitAction::Exit);
    assert!(c.should_quit);
    assert_eq!(c.mode, AppMode::Normal);
    assert!(!c.preserve_chat_on_exit && !c.last_preserve_chat_setting);
    let mut e = app();
    e.mode = AppMode::ExitDialog;
    e.execute_exit_action(ExitAction::Background);
    assert!(e.pending_background && !e.should_quit);
    assert_eq!(e.mode, AppMode::ExitDialog);
    assert!(e.preserve_chat_on_exit);
}

#[test]
fn task_viewer_moves() {
    let mut a = app();
    a.task_viewer_move_down();
    a.task_viewer_move_down();
    a.task_viewer_move_down();
    assert_eq!(a.task_viewer_state.selected_index, 2);
    a.task_viewer_state.scroll = 5;
    a.task_viewer_move_up();
    assert_eq!(a.task_viewer_state.selected_index, 1);
    assert_eq!(a.task_viewer_state.scroll, 1);
    a.task_viewer_state.visible_tasks = vec!["t1".to_string(), "t2".to_string()];
    a.task_viewer_toggle_collapse();
    assert_eq!(a.task_viewer_state.collapsed, vec!["t2"]);
    a.task_viewer_toggle_collapse();
    assert!(a.task_viewer_state.collapsed.is_empty());
    a.task_viewer_move_down();
    a.task_viewer_move_down();
    assert_eq!(a.task_viewer_state.selected_index, 1);
}

#[test]
fn plan_mode_status_and_clear() {
    let mut a = app();
    assert_eq!(a.plan_mode_status(), "Plan mode not initialized");
    a.plan_mode_state = Some(PlanModeState {
        active: true,
        plan_session_id: "plan-1".to_string(),
        focus: None,
        messages: vec![TuiMessage { role: "user".to_string(), content: "hi".to_string(), created_at: 0 }],
        conversation_history: Vec::new(),
    });
    assert_eq!(a.plan_mode_status(), "Plan Mode: active\nSession: plan-1\nFocus: general\nMessages: 1");
    a.mode = AppMode::PlanMode;
    a.messages.push(TuiMessage { role: "user".to_string(), content: "x".to_string(), created_at: 1 });
    a.scroll = 4;
    a.clear_plan_mode();
    assert_eq!(a.plan_mode_status(), "Plan Mode: active\nSession: plan-1\nFocus: general\nMessages: 0");
    assert!(a.messages.is_empty());
    assert_eq!(a.scroll, 0);
    assert_eq!(a.console_messages, vec!["Plan mode history cleared"]);
}

#[test]
fn mdap_switches() {
    let mut a = app();
    a.handle_mdap_disable();
    assert_eq!(a.console_messages.last().unwrap(), "ℹ️  MDAP mode is already disabled");
    a.handle_mdap_enable();
    assert_eq!(a.mdap_k, Some(3));
    assert_eq!(a.status, "Ready - Model: model-a [MDAP] (Ctrl+C to quit)");
    assert!(a.input.is_empty());
    a.handle_mdap_enable();
    assert_eq!(a.console_messages.last().unwrap(), "ℹ️  MDAP mode is already enabled");
    a.handle_mdap_set_k(7);
    assert_eq!(a.mdap_k, Some(7));
    assert_eq!(a.console_messages.last().unwrap(), "✅ MDAP vote margin set to k=7");
    a.handle_mdap_disable();
    assert_eq!(a.mdap_k, None);
    assert_eq!(a.status, "Ready - Model: model-a (Ctrl+C to quit)");
    a.handle_mdap_set_k(5);
    assert_eq!(a.console_messages.last().unwrap(), "✅ MDAP mode enabled with k=5");
}

#[test]
fn working_set_replies() {
    let mut a = app();
    a.handle_context_remove("/p/a.rs", true);
    a.handle_context_pin("/p/b.rs", false);
    a.handle_context_unpin("/p/c.rs", true);
    a.handle_context_clear(true, 5, 2);
    a.handle_context_clear(false, 5, 0);
    assert_eq!(
        a.console_messages,
        vec![
            "✅ Removed: /p/a.rs",
            "⚠️  Not in working set: /p/b.rs. Add it first with /context:add",
            "✅ Unpinned: /p/c.rs",
            "✅ Cleared 3 file(s), kept 2 pinned",
            "✅ Cleared 5 file(s) from working set"
        ]
    );
}

#[test]
fn mcp_names_and_descriptions() {
    assert_eq!(extract_mcp_server_name("mcp_github_list_issues").as_deref(), Some("github"));
    assert_eq!(extract_mcp_server_name("mcp_nounderscore"), None);
    assert_eq!(extract_mcp_server_name("read_file"), None);
    assert_eq!(truncate_description("short\nsecond line", 10), "short");
    assert_eq!(truncate_description("a long description", 10), "a long ...");
    assert_eq!(truncate_description("", 10), "");
}

#[test]
fn open_tool_picker_groups_mcp_tools_by_sorted_server() {
    let mut a = app();
    a.mcp_tools = vec![tool("mcp_zeta_a"), tool("mcp_alpha_x"), tool("not_mcp"), tool("mcp_zeta_b"), tool("mcp_alpha_y")];
    a.tool_mode = ToolMode::Explicit(vec!["read_file".to_string(), "mcp_zeta_b".to_string()]);
    let builtin = vec![
        ("File Operations".to_string(), vec![tool("read_file"), tool("write_file")]),
        ("Search".to_string(), Vec::new()),
        ("Git".to_string(), vec![tool("git_status")]),
    ];
    a.open_tool_picker(&builtin);
    assert_eq!(a.mode, AppMode::ToolPicker);
    assert_eq!(a.status, "Select tools (Space: toggle, Enter: confirm, A: all, N: none, Esc: cancel)");
    assert!(a.input.is_empty());
    let st = a.tool_picker_state.as_ref().unwrap();
    let names: Vec<&str> = st.categories.iter().map(|c| c.0.as_str()).collect();
    assert_eq!(names, vec!["File Operations", "Git", "MCP: alpha", "MCP: zeta"]);
    assert_eq!(st.categories[0].1[0], ("read_file".to_string(), "read_file description".to_string(), true));
    assert!(!st.categories[0].1[1].2);
    let zeta: Vec<(&str, bool)> = st.categories[3].1.iter().map(|t| (t.0.as_str(), t.2)).collect();
    assert_eq!(zeta, vec![("mcp_zeta_a", false), ("mcp_zeta_b", true)]);
    let alpha: Vec<&str> = st.categories[2].1.iter().map(|t| t.0.as_str()).collect();
    assert_eq!(alpha, vec!["mcp_alpha_x", "mcp_alpha_y"]);
}

#[test]
fn mcp_categories_without_servers_are_empty() {
    let cats = mcp_picker_categories(&[tool("plain"), tool("mcp_noserver")], &Vec::new());
    assert!(cats.is_empty());
    let cats = mcp_picker_categories(&[tool("mcp_b_x"), tool("mcp_a_y"), tool("mcp_b_z")], &Vec::new());
    let names: Vec<&str> = cats.iter().map(|c| c.0.as_str()).collect();
    assert_eq!(names, vec!["MCP: a", "MCP: b"]);
    assert_eq!(cats[1].1.len(), 2);
}

use brainwires_cli::session::{
    conversation_title, loaded_status, message_role, needs_resume, session_title, unsaved_indices, MessageRole,
};

fn msg(role: &str, content: &str) -> TuiMessage {
    TuiMessage { role: role.to_string(), content: content.to_string(), created_at: 0 }
}

#[test]
fn session_titles_are_cut_at_fifty_bytes() {
    assert_eq!(session_title("short"), "short");
    let fifty = "a".repeat(50);
    assert_eq!(session_title(&fifty), fifty);
    let long = "b".repeat(60);
    assert_eq!(session_title(&long), format!("{}...", "b".repeat(47)));
    assert_eq!(conversation_title(&[]), "Backgrounded session");
    assert_eq!(conversation_title(&[msg("user", "hello")]), "hello");
}

#[test]
fn unsaved_messages_skip_saved_and_streaming() {
    assert_eq!(unsaved_indices(5, 2, None), vec![2, 3, 4]);
    assert_eq!(unsaved_indices(5, 2, Some(4)), vec![2, 3]);
    assert_eq!(unsaved_indices(5, 2, Some(0)), vec![2, 3, 4]);
    assert!(unsaved_indices(2, 2, None).is_empty());
    assert!(unsaved_indices(1, 5, None).is_empty());
}

#[test]
fn loading_reports_short_id_and_counts() {
    assert_eq!(loaded_status("0123456789abcdef", 4, 0), "Loaded session: 01234567 (4 messages)");
    assert_eq!(loaded_status("abc", 1, 3), "Loaded session: abc (1 messages, 3 tasks)");
    assert_eq!(message_role("assistant"), MessageRole::Assistant);
    assert_eq!(message_role("tool"), MessageRole::Tool);
    assert_eq!(message_role("robot"), MessageRole::User);
    assert!(needs_resume(&[msg("assistant", "a"), msg("user", "b")]));
    assert!(!needs_resume(&[msg("user", "a"), msg("assistant", "b")]));
    assert!(!needs_resume(&[]));
}

#[test]
fn tool_mode_report_counts_selected_tools() {
    let mode = ToolMode::Explicit(vec!["read_file".to_string(), "mcp_fs_read".to_string(), "write_file".to_string()]);
    let r = tool_mode_report(&mode, 20, 4, 8, 3, &[]);
    assert!(r.starts_with("Tool Mode: explicit (2 built-in + 1 MCP selected)\n\nAvailable modes:\n• /tools full     - All 24 tools (20 built-in + 4 MCP)\n"));
    assert!(r.contains("• /tools core     - Core 8 tools only\n"));
    assert!(r.ends_with("Connected MCP servers: none"));
    let r = tool_mode_report(&ToolMode::Core, 20, 0, 8, 8, &["github".to_string(), "fs".to_string()]);
    assert!(r.starts_with("Tool Mode: core (8 essential tools)"));
    assert!(r.ends_with("Connected MCP servers: github, fs"));
    assert!(tool_mode_report(&ToolMode::Disabled, 1, 1, 1, 0, &[]).starts_with("Tool Mode: none (tools disabled)"));
}
