use brainwires_cli::agent_pool::{
    agent_failure_reply, agent_list_reply, agent_not_found, agent_pool_command, awaited_reply,
    file_locks_reply, parse_permission_mode, pool_stats_reply, spawn_request, spawned_reply,
    status_reply, stopped_reply, AgentPoolCommand, AgentPoolTool, AgentState, PermissionMode,
};
use brainwires_cli::task_manager::{
    completed_reply, created_reply, dependency_reply, empty_subtree_reply, failed_reply,
    parse_priority, ready_reply, started_reply, stats_reply, subtask_reply, task_command,
    task_failure_reply, TaskCommand, TaskManagerTool, TaskPriority,
};

#[test]
fn test_get_tools() {
    let tools = AgentPoolTool::get_tools();
    assert!(!tools.is_empty());
    let names: Vec<&str> = tools.iter().map(|t| t.name.as_str()).collect();
    assert!(names.contains(&"agent_spawn"));
    assert!(names.contains(&"agent_status"));
    assert!(names.contains(&"agent_list"));
    assert!(names.contains(&"agent_stop"));
    assert!(names.contains(&"agent_await"));
    assert!(names.contains(&"agent_pool_stats"));
    assert!(names.contains(&"agent_file_locks"));
}

#[test]
fn test_spawn_agent_tool_definition() {
    let tool = AgentPoolTool::spawn_agent_tool();
    assert_eq!(tool.name, "agent_spawn");
    assert!(tool.requires_approval);
}

#[test]
fn test_status_tool_definition() {
    let tool = AgentPoolTool::get_agent_status_tool();
    assert_eq!(tool.name, "agent_status");
    assert!(!tool.requires_approval);
}

#[test]
fn test_stop_tool_requires_approval() {
    let tool = AgentPoolTool::stop_agent_tool();
    assert_eq!(tool.name, "agent_stop");
    assert!(tool.requires_approval);
}

#[test]
fn spawn_tool_documents_defaults() {
    let tool = AgentPoolTool::spawn_agent_tool();
    assert!(tool.defer_loading);
    assert_eq!(tool.required, vec!["description".to_string()]);
    let prio = tool.properties.iter().find(|p| p.name == "priority").unwrap();
    assert_eq!(prio.allowed, vec!["low", "normal", "high", "urgent"]);
    assert_eq!(prio.default_text.as_deref(), Some("normal"));
    let iters = tool.properties.iter().find(|p| p.name == "max_iterations").unwrap();
    assert_eq!(iters.kind, "integer");
    assert_eq!(iters.default_number, Some(15));
}

#[test]
fn spawn_arguments_get_defaults_and_ignore_case() {
    let r = spawn_request("do it".to_string(), None, None, None);
    assert_eq!(r.priority, TaskPriority::Normal);
    assert_eq!(r.max_iterations, 15);
    assert_eq!(r.permission_mode, PermissionMode::Auto);
    let r = spawn_request("x".to_string(), Some("URGENT"), Some(3), Some("ReadOnly"));
    assert_eq!(r.priority, TaskPriority::Urgent);
    assert_eq!(r.max_iterations, 3);
    assert_eq!(r.permission_mode, PermissionMode::ReadOnly);
    assert_eq!(parse_permission_mode("read-only"), PermissionMode::ReadOnly);
    assert_eq!(parse_permission_mode("FULL"), PermissionMode::Full);
    assert_eq!(parse_permission_mode("whatever"), PermissionMode::Auto);
    assert_eq!(parse_priority("High"), TaskPriority::High);
    assert_eq!(parse_priority("soon"), TaskPriority::Normal);
}

#[test]
fn agent_tool_names() {
    assert_eq!(agent_pool_command("agent_spawn"), Ok(AgentPoolCommand::Spawn));
    assert_eq!(agent_pool_command("agent_file_locks"), Ok(AgentPoolCommand::FileLocks));
    assert_eq!(agent_pool_command("agent_x"), Err("Unknown agent pool tool: agent_x".to_string()));
}

#[test]
fn agent_replies() {
    assert_eq!(spawned_reply("a1", "fix bug"), "Spawned background agent 'a1' for task: fix bug");
    assert_eq!(status_reply("a1", "Working"), "Agent a1: Working");
    assert_eq!(agent_not_found("a9"), "Agent a9 not found");
    assert_eq!(stopped_reply("a1"), "Stopped agent a1");
    assert_eq!(awaited_reply("a1", true, 4, "done"), "Agent a1 succeeded after 4 iterations:\ndone");
    assert_eq!(awaited_reply("a2", false, 15, "gave up"), "Agent a2 failed after 15 iterations:\ngave up");
    assert_eq!(
        pool_stats_reply(5, 3, 1, 1, 1),
        "Agent Pool Statistics:\nMax agents: 5\nTotal agents: 3\nRunning: 1\nCompleted: 1\nFailed: 1"
    );
    assert_eq!(agent_list_reply(&[]), "No active background agents");
    assert_eq!(
        agent_list_reply(&[
            ("a1".to_string(), AgentState::Working, "Working: x".to_string()),
            ("a2".to_string(), AgentState::Failed, "Failed: y".to_string()),
        ]),
        "2 active agents:\n🔄 [a1] Working: x\n❌ [a2] Failed: y\n"
    );
    assert_eq!(file_locks_reply(&[]), "No file locks currently held");
    assert_eq!(
        file_locks_reply(&[("/a.rs".to_string(), true, "a1".to_string()), ("/b.rs".to_string(), false, "a2".to_string())]),
        "2 file locks:\n- /a.rs (write) by agent a1\n- /b.rs (read) by agent a2\n"
    );
    assert_eq!(agent_failure_reply("boom"), "Agent operation failed: boom");
}

#[test]
fn task_manager_tools() {
    let tools = TaskManagerTool::get_tools();
    let names: Vec<&str> = tools.iter().map(|t| t.name.as_str()).collect();
    assert_eq!(
        names,
        vec![
            "task_create", "task_add_subtask", "task_start", "task_complete", "task_fail",
            "task_add_dependency", "task_get_tree", "task_get_ready", "task_get_stats"
        ]
    );
    assert!(tools.iter().all(|t| t.defer_loading && !t.requires_approval));
    assert_eq!(TaskManagerTool::complete_task_tool().required, vec!["task_id".to_string(), "summary".to_string()]);
    assert_eq!(task_command("task_fail"), Ok(TaskCommand::Fail));
    assert_eq!(task_command("nope"), Err("Unknown task manager tool: nope".to_string()));
}

#[test]
fn task_replies() {
    assert_eq!(created_reply("Write docs", "t1"), "Created task 'Write docs' with ID: t1");
    assert_eq!(subtask_reply("Part", "t2", "t1"), "Created subtask 'Part' with ID: t2 under parent t1");
    assert_eq!(started_reply("t1"), "Started task t1");
    assert_eq!(completed_reply("t1", "ok"), "Completed task t1: ok");
    assert_eq!(failed_reply("t1", "bad"), "Failed task t1: bad");
    assert_eq!(dependency_reply("t2", "t1"), "Added dependency: t2 depends on t1");
    assert_eq!(empty_subtree_reply("t7"), "No tasks found under t7");
    assert_eq!(ready_reply(&[]), "No tasks ready to execute");
    assert_eq!(
        ready_reply(&[("t1".to_string(), "A".to_string(), TaskPriority::High)]),
        "1 tasks ready:\n- [t1] A (priority: High)\n"
    );
    assert_eq!(
        stats_reply(6, 1, 2, 1, 1, 1),
        "Task Statistics:\nTotal: 6\nPending: 1\nIn Progress: 2\nCompleted: 1\nFailed: 1\nBlocked: 1"
    );
    assert_eq!(task_failure_reply("x"), "Task operation failed: x");
}

use brainwires_cli::ask::{invalid_input_message, picked_options, prompt_kind, ui_multi_select, AskUserQuestionTool, PromptKind};

#[test]
fn ask_tool_definition() {
    let tools = AskUserQuestionTool::get_tools();
    assert_eq!(tools.len(), 1);
    let t = &tools[0];
    assert_eq!(t.name, "ask_user_question");
    assert_eq!(t.required, vec!["question".to_string()]);
    assert!(!t.requires_approval && !t.defer_loading);
    let opts = t.properties.iter().find(|p| p.name == "options").unwrap();
    assert_eq!(opts.kind, "array");
    assert_eq!(opts.item_kind.as_deref(), Some("string"));
}

#[test]
fn ask_prompt_choice_and_picks() {
    let opts = vec!["red".to_string(), "green".to_string(), "blue".to_string()];
    assert_eq!(prompt_kind(&[], true), PromptKind::FreeText);
    assert_eq!(prompt_kind(&opts, true), PromptKind::MultiChoice);
    assert_eq!(prompt_kind(&opts, false), PromptKind::SingleChoice);
    assert!(!ui_multi_select(&[], true));
    assert!(ui_multi_select(&opts, true));
    assert_eq!(picked_options(&opts, &[2, 0]), vec!["blue".to_string(), "red".to_string()]);
    assert_eq!(invalid_input_message("missing field"), "invalid ask_user_question input: missing field");
}
