use brainwires_cli::approval_dialog::{
    approval_key, approval_note, ApprovalDialogState, ApprovalResponse, PendingApproval,
};
use brainwires_cli::events::{Event, KeyCode, KeyEvent, KeyModifiers};

fn key(c: KeyCode) -> Event {
    Event::Key(KeyEvent::new(c, KeyModifiers::none()))
}

#[test]
fn test_approval_dialog_state() {
    let state = ApprovalDialogState::new();
    assert!(!state.has_pending_request());
    assert!(state.get_session_decision("write_file").is_none());
}

#[test]
fn test_session_decisions() {
    let mut state = ApprovalDialogState::new();

    // Record session approval
    state.record_session_decision("write_file", ApprovalResponse::ApproveForSession);
    assert_eq!(
        state.get_session_decision("write_file"),
        Some(ApprovalResponse::ApproveForSession)
    );

    // Non-session response shouldn't be recorded
    state.record_session_decision("delete_file", ApprovalResponse::Approve);
    assert!(state.get_session_decision("delete_file").is_none());
}

#[test]
fn respond_takes_the_request_and_records_lasting_answers() {
    let mut state = ApprovalDialogState::new();
    assert!(!state.respond(ApprovalResponse::Deny));
    state.set_request(PendingApproval { id: "r1".to_string(), tool_name: "bash".to_string() });
    assert!(state.has_pending_request());
    assert!(state.respond(ApprovalResponse::DenyForSession));
    assert!(!state.has_pending_request());
    assert_eq!(state.get_session_decision("bash"), Some(ApprovalResponse::DenyForSession));
    state.record_session_decision("bash", ApprovalResponse::ApproveForSession);
    assert_eq!(state.get_session_decision("bash"), Some(ApprovalResponse::ApproveForSession));
    state.clear_session_decisions();
    assert!(state.get_session_decision("bash").is_none());
}

#[test]
fn approval_keys_and_notes() {
    assert_eq!(approval_key(&key(KeyCode::Esc)), Some(ApprovalResponse::Deny));
    assert_eq!(approval_key(&key(KeyCode::Char('Y'))), Some(ApprovalResponse::Approve));
    assert_eq!(approval_key(&key(KeyCode::Char('a'))), Some(ApprovalResponse::ApproveForSession));
    assert_eq!(approval_key(&key(KeyCode::Char('D'))), Some(ApprovalResponse::DenyForSession));
    assert_eq!(approval_key(&key(KeyCode::Char('x'))), None);
    assert_eq!(approval_note("bash", ApprovalResponse::Approve, false), "\u{2705} Tool 'bash' approved");
    assert_eq!(approval_note("bash", ApprovalResponse::DenyForSession, false), "\u{274c} Tool 'bash' denied for session");
    assert_eq!(approval_note("bash", ApprovalResponse::Deny, true), "\u{274c} Tool approval denied");
}
