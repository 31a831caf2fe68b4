use brainwires_cli::monitor::{
    check_start_command, describe_status, format_monitor_id, monitor_command, read_limit,
    unknown_id_message, FinalStatus, LineBuffer, LineStream, MonitorCommand, MonitorTool,
    StateName, MAX_BUFFERED_LINES,
};

fn buffer_with(lines: &[&str]) -> LineBuffer {
    let mut b = LineBuffer::new();
    for l in lines {
        b.push_line(LineStream::Stdout, l.to_string());
    }
    b
}

#[test]
fn read_returns_lines_in_order_with_next_offset() {
    let b = buffer_with(&["hello", "world"]);
    let w = b.read(0, read_limit(None));
    assert_eq!(w.lines.len(), 2);
    assert_eq!(w.lines[0].text, "hello");
    assert_eq!(w.lines[1].text, "world");
    assert_eq!(w.next_offset, 2);
    assert!(!w.more_available);
}

#[test]
fn read_from_next_offset_resumes_after_seen_lines() {
    let b = buffer_with(&["one", "two", "three"]);
    let first = b.read(0, read_limit(Some(1)));
    assert_eq!(first.lines.len(), 1);
    assert_eq!(first.next_offset, 1);
    assert!(first.more_available);
    let rest = b.read(first.next_offset, read_limit(None));
    assert_eq!(rest.lines.len(), 2);
    assert_eq!(rest.lines[0].text, "two");
    assert_eq!(rest.lines[1].text, "three");
    assert_eq!(rest.next_offset, 3);
}

#[test]
fn read_past_the_end_keeps_since() {
    let b = buffer_with(&["a"]);
    let w = b.read(5, 10);
    assert!(w.lines.is_empty());
    assert_eq!(w.next_offset, 5);
    assert!(!w.more_available);
}

#[test]
fn overrun_evicts_oldest_and_counts_dropped() {
    let mut b = LineBuffer::new();
    let overrun = MAX_BUFFERED_LINES + 50;
    for i in 1..=overrun {
        b.push_line(LineStream::Stdout, format!("{}", i));
    }
    assert_eq!(b.len(), MAX_BUFFERED_LINES);
    assert_eq!(b.dropped(), 50);
    assert_eq!(b.next_offset(), overrun as u64);
    let w = b.read(0, read_limit(Some(1)));
    assert_eq!(w.lines.len(), 1);
    assert_eq!(w.lines[0].offset, 50);
    assert_eq!(w.lines[0].text, "51");
}

#[test]
fn stderr_lines_keep_their_stream() {
    let mut b = LineBuffer::new();
    b.push_line(LineStream::Stderr, "oops".to_string());
    let w = b.read(0, 10);
    assert_eq!(w.lines[0].stream, LineStream::Stderr);
    assert_eq!(w.lines[0].stream.as_str(), "stderr");
    assert_eq!(LineStream::Stdout.as_str(), "stdout");
}

#[test]
fn read_limit_defaults_and_clamps() {
    assert_eq!(read_limit(None), 200);
    assert_eq!(read_limit(Some(0)), 1);
    assert_eq!(read_limit(Some(5)), 5);
    assert_eq!(read_limit(Some(1_000_000)), 2000);
}

#[test]
fn status_names_follow_exit() {
    assert_eq!(describe_status(None).state, StateName::Running);
    assert_eq!(describe_status(None).exit_code, None);
    let ok = describe_status(Some(FinalStatus { exit_code: Some(0), killed: false }));
    assert_eq!(ok.state.as_str(), "exited_ok");
    let failed = describe_status(Some(FinalStatus { exit_code: Some(7), killed: false }));
    assert_eq!(failed.state.as_str(), "exited_error");
    assert_eq!(failed.exit_code, Some(Some(7)));
    let killed = describe_status(Some(FinalStatus { exit_code: None, killed: true }));
    assert_eq!(killed.state.as_str(), "killed");
    assert_eq!(killed.exit_code, Some(None));
    let unknown = describe_status(Some(FinalStatus { exit_code: None, killed: false }));
    assert_eq!(unknown.state.as_str(), "exited_unknown");
    assert_eq!(unknown.exit_code, None);
}

#[test]
fn monitor_ids_are_padded_hex() {
    assert_eq!(format_monitor_id(0, 0), "mon-000000000000");
    assert_eq!(format_monitor_id(255, 0), "mon-0000000000ff");
    let id = format_monitor_id(0x1234_5678_9abc_def0, 0);
    assert_eq!(id, "mon-123456789abcdef0");
    assert_ne!(format_monitor_id(1000, 1), format_monitor_id(1000, 2));
}

#[test]
fn tool_names_pick_commands() {
    assert_eq!(monitor_command("monitor_start"), Ok(MonitorCommand::Start));
    assert_eq!(monitor_command("monitor_read"), Ok(MonitorCommand::Read));
    assert_eq!(monitor_command("monitor_stop"), Ok(MonitorCommand::Stop));
    assert_eq!(monitor_command("monitor_list"), Ok(MonitorCommand::List));
    assert_eq!(monitor_command("monitor_x"), Err("Unknown monitor tool: monitor_x".to_string()));
}

#[test]
fn blank_command_is_refused() {
    assert_eq!(check_start_command("   "), Err("command must not be empty".to_string()));
    assert_eq!(check_start_command("echo hi"), Ok(()));
    assert_eq!(unknown_id_message("mon-nope"), "no monitor with id: mon-nope");
}

#[test]
fn monitor_tools_are_listed() {
    let _ = MonitorTool::new();
    let tools = MonitorTool::get_tools();
    let names: Vec<&str> = tools.iter().map(|t| t.name.as_str()).collect();
    assert_eq!(names, vec!["monitor_start", "monitor_read", "monitor_stop", "monitor_list"]);
}

#[test]
fn buffer_keeps_the_last_lines_and_counts_the_rest() {
    let mut b = LineBuffer::new();
    for i in 0..10_050u32 {
        b.push_line(LineStream::Stdout, format!("line {}", i));
    }
    assert_eq!(b.len(), 10_000);
    assert_eq!(b.next_offset(), 10_050);
    assert_eq!(b.dropped(), 50);
    let w = b.read(0, 1);
    assert_eq!(w.lines[0].offset, 50);
    assert_eq!(b.dropped() + b.len() as u64, b.next_offset());
}
