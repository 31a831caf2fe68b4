use brainwires_cli::file_explorer::{EntryType, FileEntry, FileExplorerMode, FileExplorerState};

fn file(name: &str) -> FileEntry {
    FileEntry {
        name: name.to_string(),
        path: format!("/home/me/p/{}", name),
        entry_type: EntryType::File { size: 1, extension: None },
    }
}

fn dir(name: &str) -> FileEntry {
    FileEntry { name: name.to_string(), path: format!("/home/me/p/{}", name), entry_type: EntryType::Directory }
}

fn listing() -> Vec<FileEntry> {
    vec![file("b.txt"), dir("src"), file(".hidden"), file("A.md"), dir("Docs"), file("a.rs"), dir(".git")]
}

fn explorer() -> FileExplorerState {
    let s = FileExplorerState::new(
        Some("/home/me/p".to_string()),
        "/home/me".to_string(),
        Some("/home/me".to_string()),
        Ok(listing()),
    );
    assert_eq!(s.parent_dir().as_deref(), Some("/home/me"));
    s
}

fn empty_home(start: Option<&str>) -> FileExplorerState {
    FileExplorerState::new(start.map(|s| s.to_string()), "/home/me".to_string(), None, Ok(Vec::new()))
}

fn names(s: &FileExplorerState) -> Vec<String> {
    s.entries.iter().map(|e| e.name.clone()).collect()
}

#[test]
fn test_new_file_explorer() {
    let state = empty_home(Some("/home/me/p"));
    assert_eq!(state.current_dir, "/home/me/p");
    assert_eq!(state.cursor_index, 0);
    assert!(state.selected_files.is_empty());
    assert_eq!(state.mode, FileExplorerMode::Browser);
}

#[test]
fn start_outside_the_jail_falls_back_to_home() {
    let s = empty_home(Some("/root/secret"));
    assert_eq!(s.current_dir, "/home/me");
    let t = empty_home(Some("/etc/ssh"));
    assert_eq!(t.current_dir, "/etc/ssh");
    let u = empty_home(None);
    assert_eq!(u.current_dir, "/home/me");
    assert!(FileExplorerState::is_allowed_path_static("/usr/share/doc", "/home/me"));
    assert!(!FileExplorerState::is_allowed_path_static("/usr/lib", "/home/me"));
    assert!(!FileExplorerState::is_allowed_path_static("/etcetera", "/home/me"));
}

#[test]
fn listing_puts_parent_then_dirs_then_files_sorted() {
    let s = explorer();
    assert_eq!(names(&s), vec!["..", "Docs", "src", "A.md", "a.rs", "b.txt"]);
    assert!(matches!(s.entries[0].entry_type, EntryType::ParentDir));
    assert_eq!(s.entries[0].path, "/home/me");
}

#[test]
fn test_toggle_hidden() {
    let mut s = explorer();
    let initial_show = s.show_hidden;
    s.toggle_hidden(Some("/home/me".to_string()), Ok(listing()));
    assert_ne!(s.show_hidden, initial_show);
    assert_eq!(names(&s), vec!["..", ".git", "Docs", "src", ".hidden", "A.md", "a.rs", "b.txt"]);
}

#[test]
fn test_cursor_navigation() {
    let mut state = explorer();
    assert!(!state.entries.is_empty());
    state.cursor_down();
    assert_eq!(state.cursor_index, 1);
    state.cursor_up();
    assert_eq!(state.cursor_index, 0);
    state.page_down(20);
    assert_eq!(state.cursor_index, 5);
    state.cursor_down();
    assert_eq!(state.cursor_index, 5);
    state.page_up(3);
    assert_eq!(state.cursor_index, 2);
}

#[test]
fn test_search_filter() {
    let project = vec![file("Cargo.toml"), dir("src"), file("Cargo.lock"), file("README.md"), dir("tests")];
    let mut state = FileExplorerState::new(
        Some("/home/me/p".to_string()),
        "/home/me".to_string(),
        Some("/home/me".to_string()),
        Ok(project),
    );

    state.start_search();
    assert_eq!(state.mode, FileExplorerMode::Search);

    state.update_search("Cargo");
    // Should filter entries containing "Cargo"
    let indices = state.filtered_indices.clone().unwrap();
    assert_eq!(indices.len(), 2);
    for &idx in &indices {
        assert!(state.entries[idx].name.to_lowercase().contains("cargo"));
    }

    state.exit_search();
    assert_eq!(state.mode, FileExplorerMode::Browser);
    assert!(state.filtered_indices.is_none());
}

#[test]
fn search_filter_is_case_insensitive() {
    let mut state = explorer();
    state.start_search();
    assert_eq!(state.mode, FileExplorerMode::Search);
    state.update_search("A");
    let indices = state.filtered_indices.clone().unwrap();
    assert_eq!(indices, vec![3, 4]);
    for &idx in &indices {
        assert!(state.entries[idx].name.to_lowercase().contains("a"));
    }
    assert_eq!(state.visible_count(), 2);
    state.cursor_down();
    assert_eq!(state.current_entry().unwrap().name, "a.rs");
    state.exit_search();
    assert_eq!(state.mode, FileExplorerMode::Browser);
    assert!(state.filtered_indices.is_none());
}

#[test]
fn selection_toggles_files_only() {
    let mut s = explorer();
    s.toggle_selection();
    assert!(s.selected_files.is_empty());
    s.cursor_index = 4;
    s.toggle_selection();
    assert!(s.is_selected("/home/me/p/a.rs"));
    s.toggle_selection();
    assert!(!s.is_selected("/home/me/p/a.rs"));
    s.select_all_files();
    let mut paths = s.get_selected_paths();
    paths.sort();
    assert_eq!(paths, vec!["/home/me/p/A.md", "/home/me/p/a.rs", "/home/me/p/b.txt"]);
    s.select_all_files();
    assert_eq!(s.get_selected_paths().len(), 3);
    s.clear_selection();
    assert!(s.get_selected_paths().is_empty());
}

#[test]
fn select_all_takes_only_visible_files() {
    let mut s = explorer();
    s.start_search();
    s.update_search("b");
    s.select_all_files();
    assert_eq!(s.get_selected_paths(), vec!["/home/me/p/b.txt"]);
    s.exit_search();
    s.select_all_files();
    assert_eq!(s.get_selected_paths().len(), 3);
}

#[test]
fn failed_read_on_entering_keeps_the_move() {
    let mut s = explorer();
    let r = s.enter_directory("/home/me/p/src".to_string(), true, Some("/home/me/p".to_string()), Err("denied".to_string()));
    assert_eq!(r, Err("denied".to_string()));
    assert_eq!(s.current_dir, "/home/me/p/src");
    assert_eq!(names(&s), vec![".."]);
}

#[test]
fn moving_around_the_jail() {
    let mut s = explorer();
    assert!(s.enter_directory("/var/log".to_string(), true, None, Ok(Vec::new())).is_ok());
    assert_eq!(s.error.as_deref(), Some("Cannot navigate to this location"));
    assert_eq!(s.current_dir, "/home/me/p");
    assert!(s.enter_directory("/home/me/p/a.rs".to_string(), false, None, Ok(Vec::new())).is_ok());
    assert_eq!(s.error.as_deref(), Some("Path is not a directory"));
    s.start_search();
    s.update_search("a");
    assert!(s.filtered_indices.is_some());
    let inner = vec![file("main.rs")];
    assert!(s.enter_directory("/home/me/p/src".to_string(), true, Some("/home/me/p".to_string()), Ok(inner)).is_ok());
    assert_eq!(s.current_dir, "/home/me/p/src");
    assert_eq!(s.history, vec!["/home/me/p"]);
    assert!(s.filtered_indices.is_none());
    assert!(s.search_query.is_empty());
    assert!(s.error.is_none());
    assert_eq!(names(&s), vec!["..", "main.rs"]);
    assert_eq!(s.entries[0].path, "/home/me/p");
    assert_eq!(s.previous_dir().as_deref(), Some("/home/me/p"));
    assert!(s.go_back(Some("/home/me/p".to_string()), Some("/home/me".to_string()), Ok(listing())));
    assert_eq!(s.current_dir, "/home/me/p");
    assert!(s.history.is_empty());
    assert_eq!(names(&s), vec!["..", "Docs", "src", "A.md", "a.rs", "b.txt"]);
    assert!(s.go_up(Some("/home/me".to_string()), Some("/home".to_string()), Ok(vec![dir("p")])).is_ok());
    assert_eq!(s.current_dir, "/home/me");
    assert_eq!(names(&s), vec!["p"]);
    let r = s.go_up(Some("/home".to_string()), None, Ok(Vec::new()));
    assert!(r.is_ok());
    assert_eq!(s.error.as_deref(), Some("Cannot navigate to parent directory"));
    assert_eq!(s.current_dir, "/home/me");
}

#[test]
fn failed_read_keeps_only_parent() {
    let mut s = explorer();
    let r = s.refresh(None, Err("Failed to read directory: /home/me/p".to_string()));
    assert_eq!(r.err().unwrap(), "Failed to read directory: /home/me/p");
    assert!(s.entries.is_empty());
    assert!(!s.is_within_jail(None));
}
