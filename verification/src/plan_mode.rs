//! Plan mode: an isolated planning conversation. Entering puts the main
//! conversation aside and shows the plan's; leaving stores the plan's and
//! brings the main one back. What the session reports about plan mode is
//! applied here too; the messages to and from the session are carried by
//! the program around the library.
use vstd::prelude::*;
use crate::app::{App, AppMode, PlanModeState, SavedMainContext, TuiMessage, same_dialogs, same_tasks, same_tools};
use crate::text::{push_str, str_eq, strs_view};

verus! {

/// A copy of a message.
pub fn copy_message(m: &TuiMessage) -> (r: TuiMessage)
    ensures
        r == *m,
{
    TuiMessage { role: m.role.clone(), content: m.content.clone(), created_at: m.created_at }
}

/// A copy of a list of messages.
pub fn copy_messages(v: &[TuiMessage]) -> (r: Vec<TuiMessage>)
    ensures
        r@ == v@,
{
    let mut out: Vec<TuiMessage> = Vec::new();
    let mut i: usize = 0;
    while i < v.len()
        invariant
            i <= v@.len(),
            out@ == v@.take(i as int),
        decreases v@.len() - i,
    {
        out.push(copy_message(&v[i]));
        i = i + 1;
        assert(out@ =~= v@.take(i as int));
    }
    assert(v@.take(v@.len() as int) =~= v@);
    out
}

/// What the plan is about, as the status line and the console name it.
pub open spec fn focus_text(focus: Option<String>) -> Seq<char> {
    match focus {
        Some(f) => f@,
        None => "general planning"@,
    }
}

/// The status line in plan mode.
pub open spec fn plan_status(focus: Option<String>) -> Seq<char> {
    "Plan Mode - Focus: "@ + focus_text(focus) + " (Ctrl+P to exit)"@
}

/// The fields that plan mode does not touch stay as they were.
pub open spec fn plan_frame(a: App, b: App) -> bool {
    &&& same_tools(a, b)
    &&& same_dialogs(a, b)
    &&& same_tasks(a, b)
    &&& a.input@ == b.input@
    &&& a.model@ == b.model@
    &&& a.mdap_k == b.mdap_k
    &&& a.session_id@ == b.session_id@
    &&& a.cleared_messages == b.cleared_messages
    &&& a.cleared_conversation_history == b.cleared_conversation_history
    &&& a.shell_history@ == b.shell_history@
    &&& a.selected_shell_index == b.selected_shell_index
    &&& a.shell_viewer_scroll == b.shell_viewer_scroll
}

/// The plan state after entering: the one kept from before, active again
/// (with the new focus when one is given), or a new one.
pub open spec fn entered_plan(
    before: Option<PlanModeState>,
    focus: Option<String>,
    plan_session_id: Seq<char>,
    p: PlanModeState,
) -> bool {
    &&& p.active
    &&& match before {
        Some(e) => {
            &&& p.plan_session_id == e.plan_session_id
            &&& p.messages@ == e.messages@
            &&& p.conversation_history@ == e.conversation_history@
            &&& p.focus == if focus is Some { focus } else { e.focus }
        },
        None => {
            &&& p.plan_session_id@ == plan_session_id
            &&& p.messages@.len() == 0
            &&& p.conversation_history@.len() == 0
            &&& p.focus == focus
        },
    }
}

/// What entering plan mode does: outside plan mode, the main conversation,
/// scroll and status are put aside, the plan state is resumed or made
/// (with `plan_session_id` when it is new), its conversation is shown from
/// the top, and the status and console say so; in plan mode, only the
/// console says so.
pub open spec fn enter_plan_post(
    o: App,
    focus: Option<String>,
    plan_session_id: Seq<char>,
    n: App,
    entered: bool,
) -> bool {
    if o.mode == AppMode::PlanMode {
        &&& !entered
        &&& strs_view(n.console_messages@) == strs_view(o.console_messages@).push("Already in plan mode"@)
        &&& n.mode == o.mode
        &&& n.status@ == o.status@
        &&& n.plan_mode_state == o.plan_mode_state
        &&& n.plan_mode_saved_main == o.plan_mode_saved_main
        &&& n.messages@ == o.messages@
        &&& n.conversation_history@ == o.conversation_history@
        &&& n.scroll == o.scroll
    } else {
        &&& entered
        &&& n.plan_mode_saved_main matches Some(s) && s.messages@ == o.messages@ && s.conversation_history@
            == o.conversation_history@ && s.scroll == o.scroll && s.status@ == o.status@
        &&& n.plan_mode_state matches Some(p) && entered_plan(o.plan_mode_state, focus, plan_session_id, p)
            && n.messages@ == p.messages@ && n.conversation_history@ == p.conversation_history@
        &&& n.mode == AppMode::PlanMode
        &&& n.scroll == 0
        &&& n.status@ == plan_status(focus)
        &&& strs_view(n.console_messages@) == strs_view(o.console_messages@).push(
            "Entered plan mode: "@ + focus_text(focus),
        )
    }
}

/// What leaving plan mode does: in plan mode, the conversation shown is
/// stored in the plan state, which goes inactive; the main conversation,
/// scroll and status come back (without a saved one, the status names the
/// model); the mode is normal again and the console says so. Outside plan
/// mode nothing changes.
pub open spec fn exit_plan_post(o: App, n: App, left: bool) -> bool {
    if o.mode != AppMode::PlanMode {
        &&& !left
        &&& n == o
    } else {
        &&& left
        &&& match o.plan_mode_state {
            Some(s) => n.plan_mode_state matches Some(t) && !t.active && t.plan_session_id == s.plan_session_id
                && t.focus == s.focus && t.messages@ == o.messages@ && t.conversation_history@
                == o.conversation_history@,
            None => n.plan_mode_state is None,
        }
        &&& n.plan_mode_saved_main is None
        &&& match o.plan_mode_saved_main {
            Some(s) => {
                &&& n.messages@ == s.messages@
                &&& n.conversation_history@ == s.conversation_history@
                &&& n.scroll == s.scroll
                &&& n.status@ == s.status@
            },
            None => {
                &&& n.messages@ == o.messages@
                &&& n.conversation_history@ == o.conversation_history@
                &&& n.scroll == o.scroll
                &&& n.status@ == "Ready - Model: "@ + o.model@
            },
        }
        &&& n.mode == AppMode::Normal
        &&& strs_view(n.console_messages@) == strs_view(o.console_messages@).push("Exited plan mode"@)
    }
}

/// Leaving plan mode gives back what entering put aside: after
/// [`App::enter_plan_mode`] from outside plan mode and then
/// [`App::exit_plan_mode`], the main conversation, its history, the scroll
/// and the status are as they were, nothing stays put aside, and the plan
/// is kept, inactive, for the next time.
pub proof fn lemma_exit_restores_main(
    before: App,
    planning: App,
    after: App,
    focus: Option<String>,
    plan_session_id: Seq<char>,
    entered: bool,
    left: bool,
)
    requires
        before.mode != AppMode::PlanMode,
        enter_plan_post(before, focus, plan_session_id, planning, entered),
        exit_plan_post(planning, after, left),
    ensures
        entered && left,
        after.messages@ == before.messages@,
        after.conversation_history@ == before.conversation_history@,
        after.scroll == before.scroll,
        after.status@ == before.status@,
        after.mode == AppMode::Normal,
        after.plan_mode_saved_main is None,
        after.plan_mode_state matches Some(p) && !p.active,
{
}

/// What the session reports about plan mode.
#[derive(Debug)]
pub enum PlanModeUpdate {
    /// The session entered plan mode, with this plan and conversation
    Entered { plan_session_id: String, messages: Vec<TuiMessage>, status: String },
    /// The session left plan mode, with a summary of the plan if any
    Exited { summary: Option<String> },
    /// The plan and its conversation as the session has them
    Sync { plan_session_id: String, messages: Vec<TuiMessage>, status: String },
    /// A message was added to the plan's conversation
    MessageAdded(TuiMessage),
    /// More text of the answer being streamed
    StreamChunk(String),
    /// The streamed answer is complete
    StreamEnd,
}

/// The plan state with the session's plan id and conversation, when there
/// is one.
pub open spec fn synced_plan(o: Option<PlanModeState>, id: Seq<char>, messages: Seq<TuiMessage>, n: Option<PlanModeState>) -> bool {
    match o {
        Some(s) => n matches Some(t) && t.plan_session_id@ == id && t.messages@ == messages && t.active == s.active
            && t.focus == s.focus && t.conversation_history@ == s.conversation_history@,
        None => n is None,
    }
}

/// What an update from the session does to the interface: entering or a
/// sync shows the session's plan conversation and status (entering also
/// switches to plan mode); leaving notes the summary, brings the main
/// conversation back when one was put aside, and returns to normal mode;
/// an added message is shown and kept in the plan; a streamed chunk
/// extends the last message when it is the assistant's (or starts one,
/// stamped `now`, when there is none); the end of a stream stores the
/// conversation shown in the plan.
pub open spec fn plan_update_post(o: App, u: PlanModeUpdate, now: i64, n: App) -> bool {
    match u {
        PlanModeUpdate::Entered { plan_session_id, messages, status } => {
            &&& synced_plan(o.plan_mode_state, plan_session_id@, messages@, n.plan_mode_state)
            &&& n.messages@ == messages@
            &&& n.status@ == status@
            &&& n.mode == AppMode::PlanMode
            &&& n.console_messages@ == o.console_messages@
            &&& n.plan_mode_saved_main == o.plan_mode_saved_main
            &&& n.conversation_history@ == o.conversation_history@
            &&& n.scroll == o.scroll
        },
        PlanModeUpdate::Sync { plan_session_id, messages, status } => {
            &&& synced_plan(o.plan_mode_state, plan_session_id@, messages@, n.plan_mode_state)
            &&& n.messages@ == messages@
            &&& n.status@ == status@
            &&& n.mode == o.mode
            &&& n.console_messages@ == o.console_messages@
            &&& n.plan_mode_saved_main == o.plan_mode_saved_main
            &&& n.conversation_history@ == o.conversation_history@
            &&& n.scroll == o.scroll
        },
        PlanModeUpdate::Exited { summary } => {
            &&& strs_view(n.console_messages@) == match summary {
                Some(s) => strs_view(o.console_messages@).push("Plan mode summary: "@ + s@),
                None => strs_view(o.console_messages@),
            }
            &&& n.plan_mode_state == o.plan_mode_state
            &&& n.plan_mode_saved_main is None
            &&& match o.plan_mode_saved_main {
                Some(s) => {
                    &&& n.messages@ == s.messages@
                    &&& n.conversation_history@ == s.conversation_history@
                    &&& n.scroll == s.scroll
                    &&& n.status@ == s.status@
                },
                None => {
                    &&& n.messages@ == o.messages@
                    &&& n.conversation_history@ == o.conversation_history@
                    &&& n.scroll == o.scroll
                    &&& n.status@ == o.status@
                },
            }
            &&& n.mode == AppMode::Normal
        },
        PlanModeUpdate::MessageAdded(m) => {
            &&& n.messages@ == o.messages@.push(m)
            &&& match o.plan_mode_state {
                Some(s) => n.plan_mode_state matches Some(t) && t.messages@ == s.messages@.push(m) && t.active
                    == s.active && t.plan_session_id == s.plan_session_id && t.focus == s.focus
                    && t.conversation_history@ == s.conversation_history@,
                None => n.plan_mode_state is None,
            }
            &&& n.status@ == o.status@
            &&& n.mode == o.mode
            &&& n.console_messages@ == o.console_messages@
            &&& n.plan_mode_saved_main == o.plan_mode_saved_main
            &&& n.conversation_history@ == o.conversation_history@
            &&& n.scroll == o.scroll
        },
        PlanModeUpdate::StreamChunk(text) => {
            &&& if o.messages@.len() == 0 {
                &&& n.messages@.len() == 1
                &&& n.messages@[0].role@ == "assistant"@
                &&& n.messages@[0].content@ == text@
                &&& n.messages@[0].created_at == now
            } else if o.messages@.last().role@ == "assistant"@ {
                &&& n.messages@.len() == o.messages@.len()
                &&& n.messages@.drop_last() == o.messages@.drop_last()
                &&& n.messages@.last().role == o.messages@.last().role
                &&& n.messages@.last().created_at == o.messages@.last().created_at
                &&& n.messages@.last().content@ == o.messages@.last().content@ + text@
            } else {
                n.messages@ == o.messages@
            }
            &&& n.plan_mode_state == o.plan_mode_state
            &&& n.status@ == o.status@
            &&& n.mode == o.mode
            &&& n.console_messages@ == o.console_messages@
            &&& n.plan_mode_saved_main == o.plan_mode_saved_main
            &&& n.conversation_history@ == o.conversation_history@
            &&& n.scroll == o.scroll
        },
        PlanModeUpdate::StreamEnd => {
            &&& match o.plan_mode_state {
                Some(s) => n.plan_mode_state matches Some(t) && t.messages@ == o.messages@ && t.active == s.active
                    && t.plan_session_id == s.plan_session_id && t.focus == s.focus && t.conversation_history@
                    == s.conversation_history@,
                None => n.plan_mode_state is None,
            }
            &&& n.messages@ == o.messages@
            &&& n.status@ == o.status@
            &&& n.mode == o.mode
            &&& n.console_messages@ == o.console_messages@
            &&& n.plan_mode_saved_main == o.plan_mode_saved_main
            &&& n.conversation_history@ == o.conversation_history@
            &&& n.scroll == o.scroll
        },
    }
}

impl App {
    /// Enters plan mode, about `focus` if given; `plan_session_id` names
    /// the plan when none was made before. Returns whether the mode
    /// changed (the session is then told, with the plan's focus).
    pub fn enter_plan_mode(&mut self, focus: Option<String>, plan_session_id: String) -> (r: bool)
        ensures
            enter_plan_post(*old(self), focus, plan_session_id@, *final(self), r),
            plan_frame(*final(self), *old(self)),
    {
        if self.mode == AppMode::PlanMode {
            let ghost before = self.console_messages@;
            let m = "Already in plan mode".to_string();
            let ghost mv = m@;
            self.console_messages.push(m);
            assert(strs_view(self.console_messages@) =~= strs_view(before).push(mv));
            return false;
        }
        let ghost o = *self;
        let focus_str: String = match &focus {
            Some(f) => f.clone(),
            None => "general planning".to_string(),
        };
        let mut messages: Vec<TuiMessage> = Vec::new();
        std::mem::swap(&mut messages, &mut self.messages);
        let mut history: Vec<TuiMessage> = Vec::new();
        std::mem::swap(&mut history, &mut self.conversation_history);
        let mut status = String::new();
        std::mem::swap(&mut status, &mut self.status);
        self.plan_mode_saved_main = Some(
            SavedMainContext { messages, conversation_history: history, scroll: self.scroll, status },
        );
        let plan = match self.plan_mode_state.take() {
            Some(existing) => {
                let mut state = existing;
                state.active = true;
                if focus.is_some() {
                    state.focus = focus;
                }
                state
            },
            None => PlanModeState {
                active: true,
                plan_session_id,
                focus,
                messages: Vec::new(),
                conversation_history: Vec::new(),
            },
        };
        self.messages = copy_messages(plan.messages.as_slice());
        self.conversation_history = copy_messages(plan.conversation_history.as_slice());
        self.plan_mode_state = Some(plan);
        self.mode = AppMode::PlanMode;
        self.scroll = 0;
        let mut st = "Plan Mode - Focus: ".to_string();
        push_str(&mut st, focus_str.as_str());
        push_str(&mut st, " (Ctrl+P to exit)");
        self.status = st;
        let ghost before = self.console_messages@;
        let mut note = "Entered plan mode: ".to_string();
        push_str(&mut note, focus_str.as_str());
        let ghost nv = note@;
        self.console_messages.push(note);
        assert(strs_view(self.console_messages@) =~= strs_view(before).push(nv));
        true
    }

    /// Leaves plan mode for the main conversation. Returns whether the
    /// mode changed (the session is then told).
    pub fn exit_plan_mode(&mut self) -> (r: bool)
        ensures
            exit_plan_post(*old(self), *final(self), r),
            final(self).mode != old(self).mode ==> plan_frame(*final(self), *old(self)),
    {
        if self.mode != AppMode::PlanMode {
            return false;
        }
        let mut plan = self.plan_mode_state.take();
        match &mut plan {
            Some(state) => {
                state.messages = copy_messages(self.messages.as_slice());
                state.conversation_history = copy_messages(self.conversation_history.as_slice());
                state.active = false;
            },
            None => {},
        }
        self.plan_mode_state = plan;
        match self.plan_mode_saved_main.take() {
            Some(saved) => {
                let SavedMainContext { messages, conversation_history, scroll, status } = saved;
                self.messages = messages;
                self.conversation_history = conversation_history;
                self.scroll = scroll;
                self.status = status;
            },
            None => {
                let mut st = "Ready - Model: ".to_string();
                push_str(&mut st, self.model.as_str());
                self.status = st;
            },
        }
        self.mode = AppMode::Normal;
        let ghost before = self.console_messages@;
        let m = "Exited plan mode".to_string();
        let ghost mv = m@;
        self.console_messages.push(m);
        assert(strs_view(self.console_messages@) =~= strs_view(before).push(mv));
        true
    }

    /// Applies an update about plan mode from the session; `now` stamps an
    /// answer that starts streaming with no message shown.
    pub fn handle_plan_mode_ipc(&mut self, update: PlanModeUpdate, now: i64)
        ensures
            plan_update_post(*old(self), update, now, *final(self)),
            plan_frame(*final(self), *old(self)),
    {
        match update {
            PlanModeUpdate::Entered { plan_session_id, messages, status } => {
                self.sync_plan(plan_session_id, messages, status);
                self.mode = AppMode::PlanMode;
            },
            PlanModeUpdate::Sync { plan_session_id, messages, status } => {
                self.sync_plan(plan_session_id, messages, status);
            },
            PlanModeUpdate::Exited { summary } => {
                match summary {
                    Some(s) => {
                        let ghost before = self.console_messages@;
                        let mut m = "Plan mode summary: ".to_string();
                        push_str(&mut m, s.as_str());
                        let ghost mv = m@;
                        self.console_messages.push(m);
                        assert(strs_view(self.console_messages@) =~= strs_view(before).push(mv));
                    },
                    None => {},
                }
                match self.plan_mode_saved_main.take() {
                    Some(saved) => {
                        let SavedMainContext { messages, conversation_history, scroll, status } = saved;
                        self.messages = messages;
                        self.conversation_history = conversation_history;
                        self.scroll = scroll;
                        self.status = status;
                    },
                    None => {},
                }
                self.mode = AppMode::Normal;
            },
            PlanModeUpdate::MessageAdded(message) => {
                let kept = copy_message(&message);
                self.messages.push(message);
                let mut plan = self.plan_mode_state.take();
                match &mut plan {
                    Some(state) => state.messages.push(kept),
                    None => {},
                }
                self.plan_mode_state = plan;
            },
            PlanModeUpdate::StreamChunk(text) => {
                let n = self.messages.len();
                if n == 0 {
                    self.messages.push(TuiMessage { role: "assistant".to_string(), content: text, created_at: now });
                } else if str_eq(self.messages[n - 1].role.as_str(), "assistant") {
                    let ghost before = self.messages@;
                    let mut last = self.messages.pop().unwrap();
                    push_str(&mut last.content, text.as_str());
                    self.messages.push(last);
                    assert(self.messages@.drop_last() =~= before.drop_last());
                }
            },
            PlanModeUpdate::StreamEnd => {
                let mut plan = self.plan_mode_state.take();
                match &mut plan {
                    Some(state) => {
                        state.messages = copy_messages(self.messages.as_slice());
                    },
                    None => {},
                }
                self.plan_mode_state = plan;
            },
        }
    }

    /// Takes the session's plan id and conversation into the plan state
    /// (when there is one), shows the conversation and sets the status.
    fn sync_plan(&mut self, plan_session_id: String, messages: Vec<TuiMessage>, status: String)
        ensures
            synced_plan(old(self).plan_mode_state, plan_session_id@, messages@, final(self).plan_mode_state),
            final(self).messages@ == messages@,
            final(self).status@ == status@,
            final(self).mode == old(self).mode,
            final(self).console_messages@ == old(self).console_messages@,
            final(self).plan_mode_saved_main == old(self).plan_mode_saved_main,
            final(self).conversation_history@ == old(self).conversation_history@,
            final(self).scroll == old(self).scroll,
            plan_frame(*final(self), *old(self)),
    {
        let mut plan = self.plan_mode_state.take();
        match &mut plan {
            Some(state) => {
                state.plan_session_id = plan_session_id;
                state.messages = copy_messages(messages.as_slice());
            },
            None => {},
        }
        self.plan_mode_state = plan;
        self.messages = messages;
        self.status = status;
    }
}

} // verus!
