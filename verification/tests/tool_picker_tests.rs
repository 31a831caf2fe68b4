use brainwires_cli::tool_picker::{selected_tool_names, PickerCategory, ToolPickerState};

fn cat(name: &str, tools: &[(&str, bool)]) -> PickerCategory {
    (
        name.to_string(),
        tools.iter().map(|(n, s)| (n.to_string(), format!("{} tool", n), *s)).collect(),
    )
}

fn picker() -> ToolPickerState {
    ToolPickerState::new(vec![
        cat("Files", &[("read", false), ("write", true)]),
        cat("Empty", &[]),
        cat("Git", &[("git_status", false)]),
    ])
}

#[test]
fn cursor_walks_headers_and_tools() {
    let mut p = picker();
    p.move_down();
    assert_eq!((p.selected_category, p.selected_tool), (0, Some(0)));
    p.move_down();
    assert_eq!((p.selected_category, p.selected_tool), (0, Some(1)));
    p.move_down();
    assert_eq!((p.selected_category, p.selected_tool), (1, None));
    p.move_down();
    assert_eq!((p.selected_category, p.selected_tool), (2, None));
    p.move_down();
    assert_eq!((p.selected_category, p.selected_tool), (2, Some(0)));
    p.move_down();
    assert_eq!((p.selected_category, p.selected_tool), (2, Some(0)));
    p.move_up();
    assert_eq!((p.selected_category, p.selected_tool), (2, None));
    p.move_up();
    assert_eq!((p.selected_category, p.selected_tool), (1, None));
    p.move_up();
    assert_eq!((p.selected_category, p.selected_tool), (0, Some(1)));
}

#[test]
fn collapsed_categories_are_skipped() {
    let mut p = picker();
    p.collapse_current();
    p.move_down();
    assert_eq!((p.selected_category, p.selected_tool), (1, None));
    p.move_up();
    assert_eq!((p.selected_category, p.selected_tool), (0, None));
    p.expand_current();
    p.move_down();
    assert_eq!((p.selected_category, p.selected_tool), (0, Some(0)));
}

#[test]
fn toggling_tools_and_categories() {
    let mut p = picker();
    assert_eq!(selected_tool_names(&p.categories), vec!["write"]);
    p.toggle();
    assert_eq!(selected_tool_names(&p.categories), vec!["read", "write"]);
    p.toggle();
    assert!(selected_tool_names(&p.categories).is_empty());
    p.move_down();
    p.toggle();
    assert_eq!(selected_tool_names(&p.categories), vec!["read"]);
    p.select_all();
    assert_eq!(selected_tool_names(&p.categories), vec!["read", "write", "git_status"]);
    p.select_none();
    assert!(selected_tool_names(&p.categories).is_empty());
}
