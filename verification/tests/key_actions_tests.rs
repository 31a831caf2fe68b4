use brainwires_cli::events::{Event, KeyCode, KeyEvent, KeyModifiers, MouseButton, MouseEvent, MouseEventKind};
use brainwires_cli::file_explorer::{EntryType, FileEntry, FileExplorerMode, FileExplorerState};
use brainwires_cli::git_scm::{GitAction, GitFileEntry, GitFileStatus, GitOperationMode, GitRefreshData, GitScmState, ScmPanel};
use brainwires_cli::help_dialog::{HelpDialogState, HelpFocus};
use brainwires_cli::key_actions::{
    file_explorer_key, git_scm_key, help_dialog_key, picked_of, suspend_dialog_key, task_viewer_key,
    tool_picker_key, ExplorerKey, GitKey, HelpKey, PickerKey, SuspendKey, TaskKey,
};
use brainwires_cli::suspend_dialog::{SuspendAction, SuspendDialogState, SuspendFocus};
use brainwires_cli::widgets::Rect;

fn key(code: KeyCode) -> Event {
    Event::Key(KeyEvent::new(code, KeyModifiers::none()))
}

fn ctrl(c: char) -> Event {
    Event::Key(KeyEvent::new(KeyCode::Char(c), KeyModifiers::control()))
}

fn click(column: u16, row: u16) -> Event {
    Event::Mouse(MouseEvent {
        kind: MouseEventKind::Down(MouseButton::Left),
        column,
        row,
        modifiers: KeyModifiers::none(),
    })
}

#[test]
fn help_keys_depend_on_focus() {
    let mut s = HelpDialogState::new();
    assert_eq!(help_dialog_key(&s, &key(KeyCode::Esc)), HelpKey::Close);
    assert_eq!(help_dialog_key(&s, &key(KeyCode::Tab)), HelpKey::FocusNext);
    assert_eq!(help_dialog_key(&s, &click(3, 4)), HelpKey::Click(3, 4));
    s.focus = HelpFocus::SearchInput;
    assert_eq!(help_dialog_key(&s, &key(KeyCode::Char('x'))), HelpKey::Insert('x'));
    s.search_query = "x".to_string();
    assert_eq!(help_dialog_key(&s, &key(KeyCode::Esc)), HelpKey::ClearSearch);
    s.focus = HelpFocus::ContentArea;
    assert_eq!(help_dialog_key(&s, &key(KeyCode::PageDown)), HelpKey::ScrollDown(10));
    s.focus = HelpFocus::CategoryList;
    assert_eq!(help_dialog_key(&s, &key(KeyCode::Up)), HelpKey::PrevCategory);
}

#[test]
fn suspend_keys_act_on_buttons() {
    let mut s = SuspendDialogState::new();
    assert_eq!(suspend_dialog_key(&s, &ctrl('c')), SuspendKey::ToExitDialog);
    assert_eq!(suspend_dialog_key(&s, &key(KeyCode::Char('s'))), SuspendKey::Execute(SuspendAction::Suspend));
    assert_eq!(suspend_dialog_key(&s, &key(KeyCode::Enter)), SuspendKey::Execute(SuspendAction::Background));
    assert_eq!(suspend_dialog_key(&s, &key(KeyCode::Char(' '))), SuspendKey::Nothing);
    s.focus = SuspendFocus::ExitWhenDoneCheckbox;
    assert_eq!(suspend_dialog_key(&s, &key(KeyCode::Char(' '))), SuspendKey::ToggleCheckbox);
    assert_eq!(suspend_dialog_key(&s, &key(KeyCode::Enter)), SuspendKey::Nothing);
    s.add_click_region(Rect::new(10, 5, 8, 1), SuspendFocus::SuspendButton);
    assert_eq!(suspend_dialog_key(&s, &click(12, 5)), SuspendKey::Click(SuspendFocus::SuspendButton));
    assert_eq!(suspend_dialog_key(&s, &click(0, 0)), SuspendKey::Nothing);
}

#[test]
fn picker_and_task_keys() {
    assert_eq!(tool_picker_key(&key(KeyCode::Char('A'))), PickerKey::SelectAll);
    assert_eq!(tool_picker_key(&key(KeyCode::Esc)), PickerKey::Cancel);
    assert_eq!(tool_picker_key(&key(KeyCode::Left)), PickerKey::Collapse);
    assert_eq!(task_viewer_key(&key(KeyCode::Right)), TaskKey::ToggleCollapse);
    assert_eq!(task_viewer_key(&key(KeyCode::Char(' '))), TaskKey::ToggleStatus);
    assert_eq!(task_viewer_key(&key(KeyCode::Char('q'))), TaskKey::Nothing);
}

fn explorer() -> FileExplorerState {
    let mut s = FileExplorerState::new(Some("/home/me/p".to_string()), "/home/me".to_string(), None, Ok(Vec::new()));
    let listing = vec![
        FileEntry { name: "src".to_string(), path: "/home/me/p/src".to_string(), entry_type: EntryType::Directory },
        FileEntry {
            name: "a.rs".to_string(),
            path: "/home/me/p/a.rs".to_string(),
            entry_type: EntryType::File { size: 3, extension: Some("rs".to_string()) },
        },
        FileEntry {
            name: "link".to_string(),
            path: "/home/me/p/link".to_string(),
            entry_type: EntryType::Symlink { target: "/home/me/q".to_string() },
        },
    ];
    s.refresh(Some("/home/me".to_string()), Ok(listing)).unwrap();
    s
}

#[test]
fn explorer_enter_depends_on_entry() {
    let mut s = explorer();
    // "..", "src", "a.rs", "link"
    assert!(matches!(file_explorer_key(&s, &key(KeyCode::Enter)), ExplorerKey::EnterDirectory(p) if p == "/home/me"));
    s.cursor_index = 1;
    assert!(matches!(file_explorer_key(&s, &key(KeyCode::Right)), ExplorerKey::EnterDirectory(p) if p == "/home/me/p/src"));
    assert!(matches!(file_explorer_key(&s, &key(KeyCode::Char('e'))), ExplorerKey::Nothing));
    s.cursor_index = 2;
    assert!(matches!(file_explorer_key(&s, &key(KeyCode::Enter)), ExplorerKey::OpenFile(p) if p == "/home/me/p/a.rs"));
    assert!(matches!(file_explorer_key(&s, &key(KeyCode::Char('e'))), ExplorerKey::OpenFile(_)));
    assert!(matches!(file_explorer_key(&s, &key(KeyCode::Right)), ExplorerKey::Nothing));
    s.cursor_index = 3;
    assert!(matches!(file_explorer_key(&s, &key(KeyCode::Enter)), ExplorerKey::FollowLink(t) if t == "/home/me/q"));
    s.cursor_index = 9;
    assert!(matches!(file_explorer_key(&s, &key(KeyCode::Enter)), ExplorerKey::Nothing));
}

#[test]
fn explorer_browse_keys() {
    let s = explorer();
    assert!(matches!(file_explorer_key(&s, &key(KeyCode::Esc)), ExplorerKey::Close));
    assert!(matches!(file_explorer_key(&s, &key(KeyCode::Backspace)), ExplorerKey::GoUp));
    assert!(matches!(file_explorer_key(&s, &key(KeyCode::Left)), ExplorerKey::GoUp));
    assert!(matches!(file_explorer_key(&s, &key(KeyCode::PageDown)), ExplorerKey::PageDown(20)));
    assert!(matches!(file_explorer_key(&s, &key(KeyCode::Char('/'))), ExplorerKey::StartSearch));
    assert!(matches!(file_explorer_key(&s, &key(KeyCode::Char('i'))), ExplorerKey::AddSelected));
    assert!(matches!(file_explorer_key(&s, &key(KeyCode::Char('.'))), ExplorerKey::ToggleHidden));
    assert!(matches!(file_explorer_key(&s, &key(KeyCode::Char('z'))), ExplorerKey::Nothing));
}

#[test]
fn explorer_search_edits_query() {
    let mut s = explorer();
    s.start_search();
    assert_eq!(s.mode, FileExplorerMode::Search);
    match file_explorer_key(&s, &key(KeyCode::Char('a'))) {
        ExplorerKey::SetQuery(q) => s.update_search(&q),
        other => panic!("unexpected {:?}", other),
    }
    assert_eq!(s.search_query, "a");
    match file_explorer_key(&s, &Event::Key(KeyEvent::new(KeyCode::Char('B'), KeyModifiers::shift()))) {
        ExplorerKey::SetQuery(q) => assert_eq!(q, "aB"),
        other => panic!("unexpected {:?}", other),
    }
    assert!(matches!(file_explorer_key(&s, &ctrl('b')), ExplorerKey::Nothing));
    match file_explorer_key(&s, &key(KeyCode::Backspace)) {
        ExplorerKey::SetQuery(q) => assert_eq!(q, ""),
        other => panic!("unexpected {:?}", other),
    }
    assert!(matches!(file_explorer_key(&s, &key(KeyCode::Enter)), ExplorerKey::ExitSearch));
    s.search_query = String::new();
    assert!(matches!(file_explorer_key(&s, &key(KeyCode::Backspace)), ExplorerKey::SetQuery(q) if q.is_empty()));
}

fn entry(path: &str, selected: bool) -> GitFileEntry {
    GitFileEntry { path: path.to_string(), status: GitFileStatus::Modified, original_path: None, selected }
}

fn git_state() -> GitScmState {
    let data = GitRefreshData {
        branch_output: "main\n".to_string(),
        short_sha_output: String::new(),
        upstream_output: None,
        counts_output: None,
        status_output: String::new(),
    };
    let mut s = GitScmState::new("/repo".to_string(), &data, std::time::Instant::now());
    s.changed_files = vec![entry("a", false), entry("b", true), entry("c", false)];
    s.staged_files = vec![entry("s", false)];
    s
}

#[test]
fn picked_files_are_selected_plus_cursor() {
    let list = vec![entry("a", false), entry("b", true), entry("c", false)];
    assert_eq!(picked_of(&list, 0), vec!["a".to_string(), "b".to_string()]);
    assert_eq!(picked_of(&list, 1), vec!["b".to_string()]);
    assert_eq!(picked_of(&list, 7), vec!["b".to_string()]);
    let dup = vec![entry("x", false), entry("y", false), entry("x", false)];
    assert_eq!(picked_of(&dup, 0), vec!["x".to_string(), "x".to_string()]);
    assert!(picked_of(&dup, 2).is_empty());
}

#[test]
fn git_browse_keys() {
    let mut s = git_state();
    assert_eq!(s.current_panel, ScmPanel::Changes);
    match git_scm_key(&s, &key(KeyCode::Char('s'))) {
        GitKey::Stage(files) => assert_eq!(files, vec!["a".to_string(), "b".to_string()]),
        other => panic!("unexpected {:?}", other),
    }
    match git_scm_key(&s, &key(KeyCode::Char('d'))) {
        GitKey::AskDiscard(files) => {
            s.ask_discard(files);
        },
        other => panic!("unexpected {:?}", other),
    }
    match &s.mode {
        GitOperationMode::Confirm { message, action } => {
            assert_eq!(message, "Discard changes to 2 file(s)? (y/n)");
            assert_eq!(action, &GitAction::Discard(vec!["a".to_string(), "b".to_string()]));
        },
        other => panic!("unexpected {:?}", other),
    }
    assert!(matches!(git_scm_key(&s, &key(KeyCode::Char('Y'))), GitKey::Confirm));
    assert!(matches!(git_scm_key(&s, &key(KeyCode::Esc)), GitKey::Decline));
    assert!(matches!(git_scm_key(&s, &key(KeyCode::Char('q'))), GitKey::Nothing));
    s.mode = GitOperationMode::Browse;
    assert!(matches!(git_scm_key(&s, &key(KeyCode::Char('u'))), GitKey::Nothing));
    assert!(matches!(git_scm_key(&s, &key(KeyCode::Char('c'))), GitKey::StartCommit));
    assert!(matches!(git_scm_key(&s, &key(KeyCode::Char('P'))), GitKey::Push));
    assert!(matches!(git_scm_key(&s, &key(KeyCode::Char('p'))), GitKey::Pull));
    assert!(matches!(git_scm_key(&s, &key(KeyCode::Tab)), GitKey::NextPanel));
    assert!(matches!(git_scm_key(&s, &key(KeyCode::PageUp)), GitKey::PageUp(10)));
    s.current_panel = ScmPanel::Staged;
    s.cursor_index = 0;
    assert!(matches!(git_scm_key(&s, &key(KeyCode::Enter)), GitKey::Nothing));
    match git_scm_key(&s, &key(KeyCode::Char('u'))) {
        GitKey::Unstage(files) => assert_eq!(files, vec!["s".to_string()]),
        other => panic!("unexpected {:?}", other),
    }
    s.staged_files.clear();
    assert!(matches!(git_scm_key(&s, &key(KeyCode::Char('c'))), GitKey::NothingStaged));
    assert!(matches!(git_scm_key(&s, &key(KeyCode::Esc)), GitKey::Close));
}

#[test]
fn git_commit_message_keys() {
    let mut s = git_state();
    s.mode = GitOperationMode::CommitMessage;
    assert!(matches!(git_scm_key(&s, &key(KeyCode::Enter)), GitKey::Nothing));
    assert!(matches!(git_scm_key(&s, &key(KeyCode::Char('x'))), GitKey::TypeChar('x')));
    s.commit_message = "fix".to_string();
    assert!(matches!(git_scm_key(&s, &key(KeyCode::Enter)), GitKey::Commit));
    assert!(matches!(git_scm_key(&s, &key(KeyCode::Backspace)), GitKey::DeleteChar));
    assert!(matches!(git_scm_key(&s, &key(KeyCode::Esc)), GitKey::CancelCommit));
    assert!(matches!(git_scm_key(&s, &click(1, 1)), GitKey::Nothing));
}
