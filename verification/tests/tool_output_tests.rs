use brainwires_cli::tool_output::{limit_tool_output, refreshes_task_cache, tool_result_note, MAX_TOOL_OUTPUT_CHARS};

#[test]
fn short_output_is_kept() {
    assert_eq!(limit_tool_output("all good"), "all good");
}

#[test]
fn long_output_is_cut_and_says_so() {
    let content = "a".repeat(10_001);
    let out = limit_tool_output(&content);
    let expected = format!("{}\n\n[Output truncated: 10000 of 10001 characters]", "a".repeat(MAX_TOOL_OUTPUT_CHARS));
    assert_eq!(out, expected);
}

#[test]
fn output_of_exactly_the_limit_is_kept() {
    let content = "b".repeat(10_000);
    assert_eq!(limit_tool_output(&content), content);
}

#[test]
fn failure_note_shows_start_of_error() {
    let err = "e".repeat(250);
    let note = tool_result_note("read_file", true, &err, "");
    assert_eq!(note, format!("\u{274c} Tool read_file failed: {}", "e".repeat(200)));
    assert_eq!(tool_result_note("x", true, "boom", ""), "\u{274c} Tool x failed: boom");
}

#[test]
fn success_note_previews_output() {
    let out = "o".repeat(201);
    assert_eq!(
        tool_result_note("search", false, "", &out),
        format!("\u{2705} Tool search completed: {}...", "o".repeat(200))
    );
    assert_eq!(tool_result_note("search", false, "", "3 hits"), "\u{2705} Tool search completed: 3 hits");
}

#[test]
fn only_successful_task_writes_refresh_tasks() {
    assert!(refreshes_task_cache("task_list_write", false));
    assert!(!refreshes_task_cache("task_list_write", true));
    assert!(!refreshes_task_cache("read_file", false));
}
