use brainwires_cli::memory::{
    memory_command, note_file_name, parse_frontmatter, prepare_save, rebuild_index,
    render_memory_file, slugify, MemoryCommand, MemoryTool,
};

#[test]
fn slugify_handles_common_cases() {
    assert_eq!(slugify("user role"), "user_role");
    assert_eq!(slugify("Feedback/Testing"), "feedbacktesting");
    assert_eq!(slugify("AbC-123"), "abc-123");
    assert_eq!(slugify("!!!"), "");
}

#[test]
fn slugify_trims_underscores_and_is_stable() {
    assert_eq!(slugify("  __Hello World__ "), "hello_world");
    assert_eq!(slugify("tab\tsep"), "tab_sep");
    let once = slugify("Mixed Case/Name 2");
    assert_eq!(slugify(&once), once);
}

#[test]
fn memory_file_round_trips_front_matter() {
    let body = render_memory_file("user role", "backend engineer", "user", "content here\n\n  ");
    assert_eq!(
        body,
        "---\nname: user role\ndescription: backend engineer\ntype: user\n---\n\ncontent here\n"
    );
    let e = parse_frontmatter(&body).unwrap();
    assert_eq!(e.name, "user role");
    assert_eq!(e.description, "backend engineer");
    assert!(e.slug.is_empty());
}

#[test]
fn front_matter_needs_name_and_markers() {
    assert!(parse_frontmatter("no front matter").is_none());
    assert!(parse_frontmatter("---\nname: x\n").is_none());
    assert!(parse_frontmatter("---\ndescription: d\n---\n").is_none());
    let e = parse_frontmatter("  \n---\n name:  first \nname: second\n---\nbody").unwrap();
    assert_eq!(e.name, "second");
    assert_eq!(e.description, "");
}

#[test]
fn index_lists_notes_sorted_and_deduplicated() {
    let files = vec![
        ("zeta.md".to_string(), render_memory_file("Zeta", "last", "user", "z")),
        ("MEMORY.md".to_string(), "# Memory Index\n".to_string()),
        ("alpha.md".to_string(), render_memory_file("Alpha", "first", "user", "a")),
        ("notes.txt".to_string(), render_memory_file("Txt", "ignored", "user", "t")),
        ("broken.md".to_string(), "no header".to_string()),
    ];
    let index = rebuild_index(&files);
    assert_eq!(
        index,
        "# Memory Index\n\n- [Alpha](alpha.md) — first\n- [Zeta](zeta.md) — last\n"
    );
    let empty = rebuild_index(&[]);
    assert_eq!(
        empty,
        "# Memory Index\n\n_No memories stored yet. Agents can add entries via the `memory_save` tool._\n"
    );
}

#[test]
fn index_prunes_orphaned_manual_deletion() {
    let keeper = render_memory_file("keeper", "stays", "project", "body");
    let files = vec![("keeper.md".to_string(), keeper)];
    let index = rebuild_index(&files);
    assert!(index.contains("keeper"));
    assert!(!index.contains("goner"));
}

#[test]
fn invalid_type_is_error() {
    let r = prepare_save("x", "not-a-type", "d", "c");
    assert_eq!(
        r.err().unwrap(),
        "type must be one of [\"user\", \"feedback\", \"project\", \"reference\"], got 'not-a-type'"
    );
}

#[test]
fn save_needs_a_slug() {
    let r = prepare_save("!!!", "user", "d", "c");
    assert_eq!(r.err().unwrap(), "name must contain at least one alphanumeric character");
    let ok = prepare_save("User Role", "feedback", "desc", "body").ok().unwrap();
    assert_eq!(ok.slug, "user_role");
    assert_eq!(ok.file_name, "user_role.md");
    assert_eq!(ok.body, render_memory_file("User Role", "desc", "feedback", "body"));
    assert_eq!(note_file_name("ghost"), "ghost.md");
}

#[test]
fn tool_names_dispatch() {
    assert_eq!(memory_command("memory_save").ok(), Some(MemoryCommand::Save));
    assert_eq!(memory_command("memory_delete").ok(), Some(MemoryCommand::Delete));
    assert_eq!(memory_command("memory_list").ok(), Some(MemoryCommand::List));
    assert_eq!(memory_command("memory_other").err().unwrap(), "Unknown memory tool: memory_other");
}

#[test]
fn memory_tool_definitions() {
    let _tool = MemoryTool::new();
    let tools = MemoryTool::get_tools();
    let names: Vec<&str> = tools.iter().map(|t| t.name.as_str()).collect();
    assert_eq!(names, vec!["memory_save", "memory_delete", "memory_list"]);
    assert_eq!(tools[0].required, vec!["name", "type", "description", "content"]);
    assert_eq!(tools[0].properties[1].allowed, vec!["user", "feedback", "project", "reference"]);
    assert!(!tools[0].requires_approval);
    assert_eq!(tools[1].properties.len(), 1);
    assert!(tools[2].properties.is_empty());
}
