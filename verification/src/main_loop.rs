//! The decisions of the interface's main loop: which pending request is
//! served before the next frame, how long to wait for input, and what the
//! loop reports about the work it ran (shell commands, approval and sudo
//! requests, the transcript printed on exit). The terminal program runs
//! the loop and performs each step.
use vstd::prelude::*;
use vstd::utf8::encode_utf8;
use crate::app::{App, AppMode, TuiMessage};
use crate::text::{decimal, owned, push_str, str_eq, to_chars, usize_to_string, utf8_len_at_most};
use crate::tool_output::{cuttable, head_bytes};

verus! {

broadcast use vstd::string::group_string_axioms;

/// While a response streams or a tool runs, input is awaited at most this
/// many milliseconds, so that the screen keeps up with the output.
pub const FAST_POLL_MS: u64 = 16;

/// The sudo request note shows at most this many bytes of the command.
pub const SUDO_COMMAND_PREVIEW: usize = 40;

/// A request that ends the current turn of the loop before it draws.
#[derive(Debug, Clone, Copy, PartialEq, Eq, Structural)]
pub enum LoopInterrupt {
    /// Hand the session to a background server and leave
    Background,
    /// Stop the process until the shell resumes it
    Suspend,
    /// Nothing pending: go on with this turn
    Continue,
}

impl App {
    /// Takes the pending background or suspend request, background first;
    /// a taken request puts the interface back in normal mode.
    pub fn take_interrupt(&mut self) -> (r: LoopInterrupt)
        ensures
            old(self).pending_background ==> r == LoopInterrupt::Background && *final(self) == (App {
                pending_background: false,
                mode: AppMode::Normal,
                ..*old(self)
            }),
            !old(self).pending_background && old(self).pending_suspend ==> r == LoopInterrupt::Suspend
                && *final(self) == (App { pending_suspend: false, mode: AppMode::Normal, ..*old(self) }),
            !old(self).pending_background && !old(self).pending_suspend ==> r == LoopInterrupt::Continue
                && *final(self) == *old(self),
    {
        if self.pending_background {
            self.pending_background = false;
            self.mode = AppMode::Normal;
            LoopInterrupt::Background
        } else if self.pending_suspend {
            self.pending_suspend = false;
            self.mode = AppMode::Normal;
            LoopInterrupt::Suspend
        } else {
            LoopInterrupt::Continue
        }
    }
}

/// The change to make to mouse capture: capture is wanted unless the user
/// turned it off; `Some(on)` when that differs from what is in force.
pub fn mouse_capture_change(capture_disabled: bool, capture_enabled: bool) -> (r: Option<bool>)
    ensures
        r == (if !capture_disabled != capture_enabled { Some(!capture_disabled) } else { None::<bool> }),
{
    let wanted = !capture_disabled;
    if wanted != capture_enabled {
        Some(wanted)
    } else {
        None
    }
}

/// How long to wait for input: at most [`FAST_POLL_MS`] while output
/// arrives, else until an event comes (`None`).
pub fn event_wait_ms(is_streaming: bool, is_tool_executing: bool) -> (r: Option<u64>)
    ensures
        r == (if is_streaming || is_tool_executing { Some(FAST_POLL_MS) } else { None::<u64> }),
{
    if is_streaming || is_tool_executing {
        Some(FAST_POLL_MS)
    } else {
        None
    }
}

/// Queued messages are sent once the interface is back in normal mode.
pub fn should_process_queue(mode: AppMode, queued: usize) -> (r: bool)
    ensures
        r == (mode == AppMode::Normal && queued > 0),
{
    mode == AppMode::Normal && queued > 0
}

/// An integer in decimal, with a minus sign when negative.
pub open spec fn signed_decimal(i: int) -> Seq<char> {
    if i < 0 {
        "-"@ + decimal((-i) as nat)
    } else {
        decimal(i as nat)
    }
}

/// `i32` in decimal (`to_string`).
pub fn i32_to_string(x: i32) -> (r: String)
    ensures
        r@ == signed_decimal(x as int),
{
    if x < 0 {
        let m: i64 = -(x as i64);
        let digits = usize_to_string(m as usize);
        let mut out = "-".to_string();
        push_str(&mut out, digits.as_str());
        out
    } else {
        usize_to_string(x as usize)
    }
}

/// The conversation message recording a shell command that ran.
pub open spec fn exec_result_spec(command: Seq<char>, exit_code: int, output: Seq<char>) -> Seq<char> {
    "Command: "@ + command + "\nExit code: "@ + signed_decimal(exit_code) + "\n\nOutput:\n"@ + output
}

/// The conversation message recording a shell command that ran.
pub fn exec_result_message(command: &str, exit_code: i32, output: &str) -> (r: String)
    ensures
        r@ == exec_result_spec(command@, exit_code as int, output@),
{
    let mut m = "Command: ".to_string();
    push_str(&mut m, command);
    push_str(&mut m, "\nExit code: ");
    let code = i32_to_string(exit_code);
    push_str(&mut m, code.as_str());
    push_str(&mut m, "\n\nOutput:\n");
    push_str(&mut m, output);
    m
}

/// The status line after a shell command ran.
pub fn exec_status(exit_code: i32) -> (r: String)
    ensures
        r@ == "Command executed (exit code: "@ + signed_decimal(exit_code as int) + ")"@,
{
    let mut m = "Command executed (exit code: ".to_string();
    let code = i32_to_string(exit_code);
    push_str(&mut m, code.as_str());
    push_str(&mut m, ")");
    m
}

/// The conversation message for a shell command that could not run.
pub fn exec_failure_message(error: &str) -> (r: String)
    ensures
        r@ == "Failed to execute command: "@ + error@,
{
    let mut m = "Failed to execute command: ".to_string();
    push_str(&mut m, error);
    m
}

/// What the shell history keeps as the output of a command that could
/// not run; its exit code is recorded as -1.
pub fn exec_failure_output(error: &str) -> (r: String)
    ensures
        r@ == "Error: "@ + error@,
{
    let mut m = "Error: ".to_string();
    push_str(&mut m, error);
    m
}

/// The console note on a tool waiting for approval (`unknown` when the
/// request names no tool).
pub fn approval_request_note(tool_name: Option<&str>) -> (r: String)
    ensures
        r@ == "\u{26a0}\u{fe0f} Tool approval requested: "@ + match tool_name {
            Some(n) => n@,
            None => "unknown"@,
        },
{
    let mut m = "\u{26a0}\u{fe0f} Tool approval requested: ".to_string();
    match tool_name {
        Some(n) => push_str(&mut m, n),
        None => push_str(&mut m, "unknown"),
    }
    m
}

/// The console note on a command asking for the sudo password: the
/// command, cut after [`SUDO_COMMAND_PREVIEW`] bytes with `...` when longer.
pub open spec fn sudo_note_spec(command: Seq<char>) -> Seq<char> {
    "\u{1f512} Sudo password requested for: "@ + if encode_utf8(command).len() > SUDO_COMMAND_PREVIEW {
        head_bytes(command, SUDO_COMMAND_PREVIEW as nat) + "..."@
    } else {
        command
    }
}

/// The console note on a command asking for the sudo password.
pub fn sudo_request_note(command: &str) -> (r: String)
    requires
        cuttable(command@, SUDO_COMMAND_PREVIEW as nat),
    ensures
        r@ == sudo_note_spec(command@),
{
    let mut m = "\u{1f512} Sudo password requested for: ".to_string();
    let chars = to_chars(command);
    if utf8_len_at_most(chars.as_slice(), SUDO_COMMAND_PREVIEW) {
        push_str(&mut m, command);
    } else {
        let head = crate::tool_output::cut_at(command, SUDO_COMMAND_PREVIEW);
        push_str(&mut m, head.as_str());
        push_str(&mut m, "...");
    }
    m
}

/// The scroll position of a session shown in a pseudo-terminal after it
/// was loaded: the bottom, less the visible rows of the conversation (all
/// but one row of its area; 20 before it was ever drawn).
pub fn pty_scroll(max_scroll: u16, area_height: Option<u16>) -> (r: u16)
    ensures
        ({
            let visible: int = match area_height {
                Some(h) => if h >= 1 { h - 1 } else { 0 },
                None => 20,
            };
            r == if max_scroll >= visible { max_scroll - visible } else { 0 }
        }),
{
    let visible: u16 = match area_height {
        Some(h) => if h >= 1 { h - 1 } else { 0 },
        None => 20,
    };
    if max_scroll >= visible {
        max_scroll - visible
    } else {
        0
    }
}

/// The arguments of the interface restarted inside the background session
/// server: the session, the pseudo-terminal flag, and the model when set.
pub open spec fn background_args_spec(session_id: Seq<char>, model: Seq<char>) -> Seq<Seq<char>> {
    seq!["--session"@, session_id, "--pty-session"@] + if model.len() > 0 {
        seq!["--model"@, model]
    } else {
        seq![]
    }
}

/// The arguments of the interface restarted in the background.
pub fn background_args(session_id: &str, model: &str) -> (r: Vec<String>)
    ensures
        crate::text::strs_view(r@) == background_args_spec(session_id@, model@),
{
    let mut v: Vec<String> = Vec::new();
    v.push("--session".to_string());
    v.push(owned(session_id));
    v.push("--pty-session".to_string());
    let model_chars = to_chars(model);
    if model_chars.len() > 0 {
        v.push("--model".to_string());
        v.push(owned(model));
    }
    assert(crate::text::strs_view(v@) =~= background_args_spec(session_id@, model@));
    v
}

/// One message of the transcript printed on exit.
#[derive(Debug, Clone)]
pub struct TranscriptPart {
    /// Whether the `> ` prompt (in the user's colour) comes first
    pub prompt: bool,
    pub content: String,
    /// Whether a blank line follows (between messages, not after the last)
    pub blank_after: bool,
}

/// The transcript printed on exit when the chat is kept: every message in
/// order, the user's after a prompt, with blank lines between them.
pub fn exit_transcript(messages: &[TuiMessage]) -> (r: Vec<TranscriptPart>)
    ensures
        r@.len() == messages@.len(),
        forall|i: int| 0 <= i < r@.len() ==> {
            &&& (#[trigger] r@[i]).prompt == (messages@[i].role@ == "user"@)
            &&& r@[i].content@ == messages@[i].content@
            &&& r@[i].blank_after == (i < messages@.len() - 1)
        },
{
    let n = messages.len();
    let mut out: Vec<TranscriptPart> = Vec::new();
    let mut i: usize = 0;
    while i < n
        invariant
            n == messages@.len(),
            i <= n,
            out@.len() == i,
            forall|j: int| 0 <= j < i ==> {
                &&& (#[trigger] out@[j]).prompt == (messages@[j].role@ == "user"@)
                &&& out@[j].content@ == messages@[j].content@
                &&& out@[j].blank_after == (j < n - 1)
            },
        decreases n - i,
    {
        let m = &messages[i];
        out.push(TranscriptPart {
            prompt: str_eq(m.role.as_str(), "user"),
            content: m.content.clone(),
            blank_after: i + 1 < n,
        });
        i = i + 1;
    }
    out
}

} // verus!
