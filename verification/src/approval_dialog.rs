//! The tool approval dialog: the request waiting for an answer, the
//! answers the user gave for the rest of the session, and what a key does.
//! The reply to the waiting tool is sent by the program that keeps the
//! request's channel.
use vstd::prelude::*;
use crate::events::{is_escape_spec, Event, KeyCode};
use crate::paths::PathSet;
use crate::text::push_str;

verus! {

/// The user's answer to an approval request.
#[derive(Debug, Clone, Copy, PartialEq, Eq, Structural)]
pub enum ApprovalResponse {
    /// Run the tool this once
    Approve,
    /// Refuse this once
    Deny,
    /// Run the tool, and do not ask again this session
    ApproveForSession,
    /// Refuse, and refuse without asking for the rest of the session
    DenyForSession,
}

impl ApprovalResponse {
    /// Answers that hold for the rest of the session.
    pub open spec fn is_session_persistent_spec(self) -> bool {
        self == ApprovalResponse::ApproveForSession || self == ApprovalResponse::DenyForSession
    }

    /// Whether the answer holds for the rest of the session.
    pub fn is_session_persistent(&self) -> (r: bool)
        ensures
            r == self.is_session_persistent_spec(),
    {
        match self {
            ApprovalResponse::ApproveForSession | ApprovalResponse::DenyForSession => true,
            _ => false,
        }
    }
}

/// A request waiting for the user's answer.
#[derive(Debug, Clone)]
pub struct PendingApproval {
    /// Request ID
    pub id: String,
    /// Tool name
    pub tool_name: String,
}

/// The abstract value of an [`ApprovalDialogState`]: the request waiting
/// (its id and tool) and the answer recorded for each tool this session.
pub struct ApprovalDialogView {
    pub current: Option<(Seq<char>, Seq<char>)>,
    pub decisions: Map<Seq<char>, ApprovalResponse>,
}

/// State for the approval dialog.
#[derive(Debug)]
pub struct ApprovalDialogState {
    /// Current pending approval request
    pub current_request: Option<PendingApproval>,
    /// Tools approved for the session
    approved: PathSet,
    /// Tools refused for the session
    denied: PathSet,
}

impl View for ApprovalDialogState {
    type V = ApprovalDialogView;

    closed spec fn view(&self) -> ApprovalDialogView {
        ApprovalDialogView {
            current: match self.current_request {
                Some(p) => Some((p.id@, p.tool_name@)),
                None => None,
            },
            decisions: Map::new(
                |k: Seq<char>| self.approved@.contains(k) || self.denied@.contains(k),
                |k: Seq<char>| if self.approved@.contains(k) {
                    ApprovalResponse::ApproveForSession
                } else {
                    ApprovalResponse::DenyForSession
                },
            ),
        }
    }
}

impl ApprovalDialogState {
    #[verifier::type_invariant]
    spec fn one_answer_per_tool(self) -> bool {
        self.approved@.disjoint(self.denied@)
    }

    /// No request and no decisions.
    pub fn new() -> (r: ApprovalDialogState)
        ensures
            r@.current is None,
            r@.decisions == Map::<Seq<char>, ApprovalResponse>::empty(),
    {
        let r = ApprovalDialogState { current_request: None, approved: PathSet::new(), denied: PathSet::new() };
        assert(r@.decisions =~= Map::<Seq<char>, ApprovalResponse>::empty());
        r
    }

    /// Check if there's a pending approval request.
    pub fn has_pending_request(&self) -> (r: bool)
        ensures
            r == (self@.current is Some),
    {
        self.current_request.is_some()
    }

    /// Set the current pending request (a waiting one is replaced).
    pub fn set_request(&mut self, request: PendingApproval)
        ensures
            final(self)@.current == Some((request.id@, request.tool_name@)),
            final(self)@.decisions == old(self)@.decisions,
    {
        proof {
            use_type_invariant(&*self);
        }
        self.current_request = Some(request);
        assert(self@.decisions =~= old(self)@.decisions);
    }

    /// The answer recorded for a tool this session, if any.
    pub fn get_session_decision(&self, tool_name: &str) -> (r: Option<ApprovalResponse>)
        ensures
            r == (if self@.decisions.contains_key(tool_name@) {
                Some(self@.decisions[tool_name@])
            } else {
                None::<ApprovalResponse>
            }),
    {
        if self.approved.contains(tool_name) {
            Some(ApprovalResponse::ApproveForSession)
        } else if self.denied.contains(tool_name) {
            Some(ApprovalResponse::DenyForSession)
        } else {
            None
        }
    }

    /// Records an answer for the rest of the session when it is one that
    /// holds that long (replacing an earlier one for the same tool).
    pub fn record_session_decision(&mut self, tool_name: &str, response: ApprovalResponse)
        ensures
            final(self)@.current == old(self)@.current,
            response.is_session_persistent_spec() ==> final(self)@.decisions == old(self)@.decisions.insert(
                tool_name@,
                response,
            ),
            !response.is_session_persistent_spec() ==> final(self)@.decisions == old(self)@.decisions,
    {
        proof {
            use_type_invariant(&*self);
        }
        let ghost d0 = self@.decisions;
        match response {
            ApprovalResponse::ApproveForSession => {
                let mut approved = PathSet::new();
                std::mem::swap(&mut approved, &mut self.approved);
                let mut denied = PathSet::new();
                std::mem::swap(&mut denied, &mut self.denied);
                approved.insert(tool_name.to_string());
                denied.remove(tool_name);
                self.approved = approved;
                self.denied = denied;
                assert(self@.decisions =~= d0.insert(tool_name@, response));
            },
            ApprovalResponse::DenyForSession => {
                let mut approved = PathSet::new();
                std::mem::swap(&mut approved, &mut self.approved);
                let mut denied = PathSet::new();
                std::mem::swap(&mut denied, &mut self.denied);
                approved.remove(tool_name);
                denied.insert(tool_name.to_string());
                self.approved = approved;
                self.denied = denied;
                assert(self@.decisions =~= d0.insert(tool_name@, response));
            },
            _ => {},
        }
    }

    /// Answers the waiting request: the answer is recorded for the session
    /// when it holds that long and the request is taken. Returns whether a
    /// request was waiting (the reply is then sent to it).
    pub fn respond(&mut self, response: ApprovalResponse) -> (r: bool)
        ensures
            r == (old(self)@.current is Some),
            final(self)@.current is None,
            (r && response.is_session_persistent_spec()) ==> final(self)@.decisions == old(self)@.decisions.insert(
                old(self)@.current.unwrap().1,
                response,
            ),
            !(r && response.is_session_persistent_spec()) ==> final(self)@.decisions == old(self)@.decisions,
    {
        proof {
            use_type_invariant(&*self);
        }
        let mut taken: Option<PendingApproval> = None;
        std::mem::swap(&mut taken, &mut self.current_request);
        match taken {
            Some(pending) => {
                assert(self@.decisions =~= old(self)@.decisions);
                self.record_session_decision(pending.tool_name.as_str(), response);
                true
            },
            None => false,
        }
    }

    /// Forget every answer given for the session.
    pub fn clear_session_decisions(&mut self)
        ensures
            final(self)@.current == old(self)@.current,
            final(self)@.decisions == Map::<Seq<char>, ApprovalResponse>::empty(),
    {
        let mut approved = PathSet::new();
        std::mem::swap(&mut approved, &mut self.approved);
        let mut denied = PathSet::new();
        std::mem::swap(&mut denied, &mut self.denied);
        self.approved = PathSet::new();
        self.denied = PathSet::new();
        assert(self@.decisions =~= Map::<Seq<char>, ApprovalResponse>::empty());
    }
}

impl Default for ApprovalDialogState {
    fn default() -> (r: ApprovalDialogState)
        ensures
            r@.current is None,
            r@.decisions == Map::<Seq<char>, ApprovalResponse>::empty(),
    {
        ApprovalDialogState::new()
    }
}

/// What a key does in the approval dialog: Escape or `n` refuses once,
/// `y` approves once, `a` approves for the session, `d` refuses for the
/// session (either case of the letters); other input does nothing.
pub open spec fn approval_key_spec(e: Event) -> Option<ApprovalResponse> {
    match e {
        Event::Key(k) => if is_escape_spec(k) {
            Some(ApprovalResponse::Deny)
        } else {
            match k.code {
                KeyCode::Char('y') => Some(ApprovalResponse::Approve),
                KeyCode::Char('Y') => Some(ApprovalResponse::Approve),
                KeyCode::Char('n') => Some(ApprovalResponse::Deny),
                KeyCode::Char('N') => Some(ApprovalResponse::Deny),
                KeyCode::Char('a') => Some(ApprovalResponse::ApproveForSession),
                KeyCode::Char('A') => Some(ApprovalResponse::ApproveForSession),
                KeyCode::Char('d') => Some(ApprovalResponse::DenyForSession),
                KeyCode::Char('D') => Some(ApprovalResponse::DenyForSession),
                _ => None,
            }
        },
        _ => None,
    }
}

/// The answer an event gives in the approval dialog, if any.
pub fn approval_key(event: &Event) -> (r: Option<ApprovalResponse>)
    ensures
        r == approval_key_spec(*event),
{
    match event {
        Event::Key(k) => if event.is_escape() {
            Some(ApprovalResponse::Deny)
        } else {
            match k.code {
                KeyCode::Char('y') | KeyCode::Char('Y') => Some(ApprovalResponse::Approve),
                KeyCode::Char('n') | KeyCode::Char('N') => Some(ApprovalResponse::Deny),
                KeyCode::Char('a') | KeyCode::Char('A') => Some(ApprovalResponse::ApproveForSession),
                KeyCode::Char('d') | KeyCode::Char('D') => Some(ApprovalResponse::DenyForSession),
                _ => None,
            }
        },
        _ => None,
    }
}

/// The console note after answering: the tool's name and the answer
/// (Escape refuses without naming the tool).
pub open spec fn approval_note_spec(tool_name: Seq<char>, response: ApprovalResponse, by_escape: bool) -> Seq<char> {
    if by_escape {
        "\u{274c} Tool approval denied"@
    } else {
        match response {
            ApprovalResponse::Approve => "\u{2705} Tool '"@ + tool_name + "' approved"@,
            ApprovalResponse::Deny => "\u{274c} Tool '"@ + tool_name + "' denied"@,
            ApprovalResponse::ApproveForSession => "\u{2705} Tool '"@ + tool_name + "' approved for session"@,
            ApprovalResponse::DenyForSession => "\u{274c} Tool '"@ + tool_name + "' denied for session"@,
        }
    }
}

/// The console note after answering.
pub fn approval_note(tool_name: &str, response: ApprovalResponse, by_escape: bool) -> (r: String)
    ensures
        r@ == approval_note_spec(tool_name@, response, by_escape),
{
    if by_escape {
        return "\u{274c} Tool approval denied".to_string();
    }
    let (head, tail) = match response {
        ApprovalResponse::Approve => ("\u{2705} Tool '", "' approved"),
        ApprovalResponse::Deny => ("\u{274c} Tool '", "' denied"),
        ApprovalResponse::ApproveForSession => ("\u{2705} Tool '", "' approved for session"),
        ApprovalResponse::DenyForSession => ("\u{274c} Tool '", "' denied for session"),
    };
    let mut m = head.to_string();
    push_str(&mut m, tool_name);
    push_str(&mut m, tail);
    m
}

} // verus!
