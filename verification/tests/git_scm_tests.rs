use brainwires_cli::git_scm::{
    parse_status_output, repo_root_from, status_output_sliceable, CommandOutcome, GitFileStatus, GitOperationMode,
    GitRefreshData, GitScmState, ScmPanel,
};

fn empty_state() -> GitScmState {
    GitScmState {
        repo_root: String::new(),
        current_branch: String::new(),
        upstream_branch: None,
        ahead: 0,
        behind: 0,
        staged_files: Vec::new(),
        changed_files: Vec::new(),
        untracked_files: Vec::new(),
        current_panel: ScmPanel::Staged,
        cursor_index: 0,
        scroll: 0,
        mode: GitOperationMode::Browse,
        commit_message: String::new(),
        status_message: None,
        error_message: None,
        last_refresh: std::time::Instant::now(),
    }
}

fn data(status: &str) -> GitRefreshData {
    GitRefreshData {
        branch_output: "main\n".to_string(),
        short_sha_output: String::new(),
        upstream_output: Some("origin/main\n".to_string()),
        counts_output: Some("1\t2\n".to_string()),
        status_output: status.to_string(),
    }
}

#[test]
fn test_git_file_status_indicator() {
    assert_eq!(GitFileStatus::Modified.indicator(), " M");
    assert_eq!(GitFileStatus::Staged.indicator(), "M ");
    assert_eq!(GitFileStatus::Untracked.indicator(), "??");
}

#[test]
fn test_git_file_status_description() {
    assert_eq!(GitFileStatus::Modified.description(), "Modified");
    assert_eq!(GitFileStatus::Staged.description(), "Staged");
    assert_eq!(GitFileStatus::Conflict.description(), "Conflict");
}

#[test]
fn test_scm_panel_cycle() {
    let mut state = empty_state();
    assert_eq!(state.current_panel, ScmPanel::Staged);
    state.next_panel();
    assert_eq!(state.current_panel, ScmPanel::Changes);
    state.next_panel();
    assert_eq!(state.current_panel, ScmPanel::Untracked);
    state.next_panel();
    assert_eq!(state.current_panel, ScmPanel::Staged);
}

#[test]
fn porcelain_lines_go_to_their_lists() {
    let out = "M  a.rs\n M b.rs\n?? c.rs\nMM d.rs\nR  old.rs -> new.rs\nUU e.rs\n!! f.rs\nx\n";
    let lists = parse_status_output(out);
    let staged: Vec<(&str, GitFileStatus)> =
        lists.staged.iter().map(|e| (e.path.as_str(), e.status)).collect();
    assert_eq!(
        staged,
        vec![
            ("a.rs", GitFileStatus::Staged),
            ("d.rs", GitFileStatus::StagedModified),
            ("new.rs", GitFileStatus::Renamed)
        ]
    );
    assert_eq!(lists.staged[2].original_path.as_deref(), Some("old.rs"));
    let changed: Vec<(&str, GitFileStatus)> =
        lists.changed.iter().map(|e| (e.path.as_str(), e.status)).collect();
    assert_eq!(
        changed,
        vec![
            ("b.rs", GitFileStatus::Modified),
            ("d.rs", GitFileStatus::Modified),
            ("e.rs", GitFileStatus::Conflict)
        ]
    );
    assert_eq!(lists.untracked.len(), 1);
    assert_eq!(lists.untracked[0].path, "c.rs");
}

#[test]
fn new_state_reads_branch_and_counts() {
    let s = GitScmState::new("/repo".to_string(), &data(" M b.rs\n?? c.rs\n"), std::time::Instant::now());
    assert_eq!(s.current_branch, "main");
    assert_eq!(s.upstream_branch.as_deref(), Some("origin/main"));
    assert_eq!(s.behind, 1);
    assert_eq!(s.ahead, 2);
    assert_eq!(s.current_panel, ScmPanel::Changes);
    assert_eq!(s.total_changes(), 2);
    assert!(s.has_uncommitted_changes());
    assert_eq!(s.current_entry().map(|e| e.path.as_str()), Some("b.rs"));
}

#[test]
fn detached_head_shows_short_sha() {
    let mut d = data("");
    d.branch_output = "\n".to_string();
    d.short_sha_output = "abc1234\n".to_string();
    let s = GitScmState::new("/repo".to_string(), &d, std::time::Instant::now());
    assert_eq!(s.current_branch, "HEAD:abc1234");
    assert!(!s.has_uncommitted_changes());
}

#[test]
fn selection_and_cursor() {
    let mut s = GitScmState::new("/r".to_string(), &data(" M a\n M b\n M c\n"), std::time::Instant::now());
    s.cursor_down();
    s.cursor_down();
    s.cursor_down();
    assert_eq!(s.cursor_index, 2);
    s.toggle_selection();
    assert!(s.changed_files[2].selected);
    s.toggle_selection();
    assert!(!s.changed_files[2].selected);
    s.select_all();
    assert!(s.changed_files.iter().all(|e| e.selected));
    s.clear_selection();
    assert!(s.changed_files.iter().all(|e| !e.selected));
    s.page_up(10);
    assert_eq!(s.cursor_index, 0);
    s.page_down(10);
    assert_eq!(s.cursor_index, 2);
}

#[test]
fn commit_flow_messages() {
    let mut e = empty_state();
    e.start_commit();
    assert_eq!(e.error_message.as_deref(), Some("Nothing staged to commit"));
    assert_eq!(e.mode, GitOperationMode::Browse);
    let mut s = GitScmState::new("/r".to_string(), &data("M  a.rs\n"), std::time::Instant::now());
    s.start_commit();
    assert_eq!(s.mode, GitOperationMode::CommitMessage);
    s.commit_message = "   ".to_string();
    assert!(s.commit_command().is_none());
    assert_eq!(s.error_message.as_deref(), Some("Commit message cannot be empty"));
    s.commit_message = "fix".to_string();
    assert_eq!(s.commit_command(), Some(vec!["commit".to_string(), "-m".to_string(), "fix".to_string()]));
    let ok = CommandOutcome { success: true, stdout: String::new(), stderr: String::new() };
    s.finish_commit(&ok);
    assert_eq!(s.status_message.as_deref(), Some("Committed successfully"));
    assert!(s.commit_message.is_empty());
    assert_eq!(s.mode, GitOperationMode::Browse);
    let bad = CommandOutcome { success: false, stdout: String::new(), stderr: "boom".to_string() };
    s.finish_push(&bad);
    assert_eq!(s.error_message.as_deref(), Some("Push failed: boom"));
    s.clear_messages();
    assert!(s.error_message.is_none() && s.status_message.is_none());
}

#[test]
fn repo_root_needs_success() {
    let ok = CommandOutcome { success: true, stdout: "/home/me/repo\n".to_string(), stderr: String::new() };
    assert_eq!(repo_root_from(&ok).unwrap(), "/home/me/repo");
    let bad = CommandOutcome { success: false, stdout: String::new(), stderr: "fatal".to_string() };
    assert!(repo_root_from(&bad).is_err());
}

#[test]
fn status_lines_are_measured_and_cut_in_bytes() {
    let out = "\u{e9}M x\nAM \u{e9}\nab\n";
    assert!(status_output_sliceable(out));
    let lists = parse_status_output(out);
    let changed: Vec<(&str, GitFileStatus)> =
        lists.changed.iter().map(|e| (e.path.as_str(), e.status)).collect();
    assert_eq!(changed, vec![(" x", GitFileStatus::Modified), ("\u{e9}", GitFileStatus::Modified)]);
    assert!(lists.staged.is_empty());
    assert!(lists.untracked.is_empty());
}

#[test]
fn lines_that_cannot_be_cut_after_three_bytes_are_reported() {
    assert!(status_output_sliceable("M  a.rs\n?? b\n"));
    assert!(status_output_sliceable("\u{e9}\n"));
    assert!(!status_output_sliceable("M  a.rs\n\u{e9}\u{e9}\u{e9}\n"));
    assert!(!status_output_sliceable("\u{1f600}"));
    assert!(!status_output_sliceable("A \u{e9}"));
}
