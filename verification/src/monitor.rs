//! Watching long-running shell processes: the buffer of output lines each
//! watched process keeps, the window a read returns, the status reported,
//! the ids handed out and the tool definitions.
//!
//! Spawning, the output pumps and the process table live at the edge; they
//! hand lines and results in here.
use vstd::prelude::*;
use crate::text::{decimal, is_blank, push_str, string_push, trim};
use crate::tool::{integer_property, string_property, Tool, ToolPropertyView, ToolView};

verus! {

broadcast use vstd::string::group_string_axioms;

/// Lines kept per watched process; older lines are evicted first.
pub const MAX_BUFFERED_LINES: usize = 10000;

/// Lines a read returns when it does not say.
pub const DEFAULT_READ_LIMIT: usize = 200;

/// The most lines a read returns.
pub const MAX_READ_LIMIT: usize = 2000;

/// Which output stream a line came from.
#[derive(Debug, Clone, Copy, PartialEq, Eq, Structural)]
pub enum LineStream {
    Stdout,
    Stderr,
}

impl LineStream {
    pub open spec fn name_spec(self) -> Seq<char> {
        match self {
            LineStream::Stdout => "stdout"@,
            LineStream::Stderr => "stderr"@,
        }
    }

    /// The stream's name.
    pub fn as_str(&self) -> (r: &'static str)
        ensures
            r@ == self.name_spec(),
    {
        match self {
            LineStream::Stdout => "stdout",
            LineStream::Stderr => "stderr",
        }
    }
}

/// One buffered output line with its offset.
#[derive(Debug, Clone)]
pub struct Line {
    pub offset: u64,
    pub stream: LineStream,
    pub text: String,
}

/// The abstract value of a [`Line`].
pub struct LineView {
    pub offset: u64,
    pub stream: LineStream,
    pub text: Seq<char>,
}

impl View for Line {
    type V = LineView;

    open spec fn view(&self) -> LineView {
        LineView { offset: self.offset, stream: self.stream, text: self.text@ }
    }
}

pub open spec fn lines_view(s: Seq<Line>) -> Seq<LineView> {
    s.map_values(|l: Line| l@)
}

/// The output buffer of a watched process: the last lines, the offset
/// the next line gets, and how many lines were evicted unread.
#[derive(Debug)]
pub struct LineBuffer {
    lines: Vec<Line>,
    next_offset: u64,
    dropped: u64,
}

/// The abstract value of a [`LineBuffer`].
pub struct LineBufferView {
    pub lines: Seq<LineView>,
    pub next_offset: u64,
    pub dropped: u64,
}

impl View for LineBuffer {
    type V = LineBufferView;

    closed spec fn view(&self) -> LineBufferView {
        LineBufferView { lines: lines_view(self.lines@), next_offset: self.next_offset, dropped: self.dropped }
    }
}

/// The buffered lines carry consecutive offsets ending just below the next
/// offset, and there are no more of them than the cap; every line ever
/// pushed is either buffered or counted as dropped, and lines are dropped
/// only from a full buffer.
pub open spec fn buffer_ok(b: LineBufferView) -> bool {
    &&& b.lines.len() <= MAX_BUFFERED_LINES
    &&& b.lines.len() <= b.next_offset
    &&& b.dropped + b.lines.len() == b.next_offset
    &&& b.dropped > 0 ==> b.lines.len() == MAX_BUFFERED_LINES
    &&& forall|i: int| 0 <= i < b.lines.len() ==> (#[trigger] b.lines[i]).offset == b.next_offset - b.lines.len() + i
}

impl LineBuffer {
    #[verifier::type_invariant]
    spec fn inv(self) -> bool {
        buffer_ok(self@)
    }

    /// An empty buffer; the first line gets offset 0.
    pub fn new() -> (r: LineBuffer)
        ensures
            buffer_ok(r@),
            r@.lines.len() == 0,
            r@.next_offset == 0,
            r@.dropped == 0,
    {
        LineBuffer { lines: Vec::new(), next_offset: 0, dropped: 0 }
    }

    /// The offset the next line gets.
    pub fn next_offset(&self) -> (r: u64)
        ensures
            r == self@.next_offset,
    {
        self.next_offset
    }

    /// How many lines were evicted unread.
    pub fn dropped(&self) -> (r: u64)
        ensures
            r == self@.dropped,
    {
        self.dropped
    }

    /// How many lines are buffered.
    pub fn len(&self) -> (r: usize)
        ensures
            r == self@.lines.len(),
    {
        self.lines.len()
    }

    /// Appends a line with the next offset; when that makes more lines than
    /// the cap, the oldest is evicted and counted as dropped.
    pub fn push_line(&mut self, stream: LineStream, text: String)
        requires
            old(self)@.next_offset < u64::MAX,
            old(self)@.dropped < u64::MAX,
        ensures
            buffer_ok(final(self)@),
            ({
                let l = LineView { offset: old(self)@.next_offset, stream, text: text@ };
                let grown = old(self)@.lines.push(l);
                &&& final(self)@.next_offset == old(self)@.next_offset + 1
                &&& if grown.len() > MAX_BUFFERED_LINES {
                    final(self)@.lines == grown.drop_first() && final(self)@.dropped == old(self)@.dropped + 1
                } else {
                    final(self)@.lines == grown && final(self)@.dropped == old(self)@.dropped
                }
            }),
    {
        proof {
            use_type_invariant(&*self);
        }
        let mut current = LineBuffer::new();
        std::mem::swap(&mut current, self);
        proof {
            use_type_invariant(&current);
        }
        let LineBuffer { lines, next_offset: offset, dropped } = current;
        let mut lines = lines;
        let ghost before = lines_view(lines@);
        lines.push(Line { offset, stream, text });
        assert(lines_view(lines@) =~= before.push(LineView { offset, stream, text: text@ }));
        let mut dropped = dropped;
        if lines.len() > MAX_BUFFERED_LINES {
            let _ = lines.remove(0);
            assert(lines_view(lines@) =~= before.push(LineView { offset, stream, text: text@ }).drop_first());
            dropped = dropped + 1;
        }
        let ghost lv = lines_view(lines@);
        assert forall|i: int| 0 <= i < lv.len() implies (#[trigger] lv[i]).offset == (offset + 1) - lv.len() + i by {
            if before.len() + 1 > MAX_BUFFERED_LINES {
                assert(lv[i] == before.push(LineView { offset, stream, text: text@ })[i + 1]);
            } else {
                assert(lv[i] == before.push(LineView { offset, stream, text: text@ })[i]);
            }
        }
        *self = LineBuffer { lines, next_offset: offset + 1, dropped };
    }
}

/// After `n` lines were pushed into a new buffer (`n` is its next
/// offset), it holds the last `min(n, cap)` of them and counts the others
/// as dropped.
pub proof fn lemma_buffer_accounts(b: LineBufferView)
    requires
        buffer_ok(b),
    ensures
        b.lines.len() == if b.next_offset <= MAX_BUFFERED_LINES {
            b.next_offset as int
        } else {
            MAX_BUFFERED_LINES as int
        },
        b.dropped == b.next_offset - b.lines.len(),
{
}

// ---------------------------------------------------------------------------
// Reading a window of lines
// ---------------------------------------------------------------------------

/// The lines from the first one whose offset is at least `since`.
pub open spec fn skip_below(s: Seq<LineView>, since: u64) -> Seq<LineView>
    decreases s.len(),
{
    if s.len() > 0 && s[0].offset < since {
        skip_below(s.drop_first(), since)
    } else {
        s
    }
}

/// How many lines a read returns: the number asked for (200 when not
/// given), kept within 1 and 2000.
pub open spec fn read_limit_spec(max_lines: Option<usize>) -> usize {
    let m = match max_lines {
        Some(m) => m,
        None => DEFAULT_READ_LIMIT,
    };
    if m < 1 {
        1
    } else if m > MAX_READ_LIMIT {
        MAX_READ_LIMIT
    } else {
        m
    }
}

pub fn read_limit(max_lines: Option<usize>) -> (r: usize)
    ensures
        r == read_limit_spec(max_lines),
{
    let m = match max_lines {
        Some(m) => m,
        None => DEFAULT_READ_LIMIT,
    };
    if m < 1 {
        1
    } else if m > MAX_READ_LIMIT {
        MAX_READ_LIMIT
    } else {
        m
    }
}

/// What a read returns.
#[derive(Debug)]
pub struct ReadWindow {
    /// The lines, oldest first
    pub lines: Vec<Line>,
    /// The offset to read from next time
    pub next_offset: u64,
    /// Whether more lines at or after `since` are buffered than were returned
    pub more_available: bool,
}

/// The window a read from `since` of at most `max` lines returns.
pub open spec fn window_lines(b: LineBufferView, since: u64, max: usize) -> Seq<LineView> {
    let rest = skip_below(b.lines, since);
    if rest.len() <= max {
        rest
    } else {
        rest.take(max as int)
    }
}

impl LineBuffer {
    /// The buffered lines from the first with offset at least `since`, at
    /// most `max` of them; the offset after the last returned (or `since`
    /// when none is); and whether more were left.
    pub fn read(&self, since: u64, max: usize) -> (r: ReadWindow)
        ensures
            lines_view(r.lines@) == window_lines(self@, since, max),
            r.next_offset == if window_lines(self@, since, max).len() > 0 {
                (window_lines(self@, since, max).last().offset + 1) as u64
            } else {
                since
            },
            r.more_available == (skip_below(self@.lines, since).len() > window_lines(self@, since, max).len()),
    {
        proof {
            use_type_invariant(self);
        }
        let ghost all = lines_view(self.lines@);
        let n = self.lines.len();
        let mut start: usize = 0;
        assert(all.skip(0) =~= all);
        while start < n && self.lines[start].offset < since
            invariant
                start <= n == self.lines@.len(),
                all == lines_view(self.lines@),
                skip_below(all, since) == skip_below(all.skip(start as int), since),
            decreases n - start,
        {
            assert(all.skip(start as int)[0] == all[start as int]);
            assert(all.skip(start as int).drop_first() =~= all.skip(start + 1));
            start = start + 1;
        }
        proof {
            if start < n {
                assert(all.skip(start as int)[0] == all[start as int]);
            }
        }
        let ghost rest = all.skip(start as int);
        assert(skip_below(all, since) == rest);
        let avail = n - start;
        let count = if avail <= max {
            avail
        } else {
            max
        };
        let mut out: Vec<Line> = Vec::new();
        let mut i: usize = 0;
        while i < count
            invariant
                count <= avail == n - start,
                start <= n == self.lines@.len(),
                all == lines_view(self.lines@),
                rest == all.skip(start as int),
                i <= count,
                out@.len() == i,
                forall|j: int| 0 <= j < i ==> (#[trigger] out@[j])@ == rest[j],
            decreases count - i,
        {
            let l = &self.lines[start + i];
            let copy = Line { offset: l.offset, stream: l.stream, text: l.text.clone() };
            assert(copy@ == rest[i as int]);
            out.push(copy);
            i = i + 1;
        }
        assert(lines_view(out@) =~= rest.take(count as int));
        assert(rest.len() <= max ==> rest.take(count as int) =~= rest);
        let next_offset = if count > 0 {
            assert(rest[count - 1] == all[start + count - 1]);
            self.lines[start + count - 1].offset + 1
        } else {
            since
        };
        ReadWindow { lines: out, next_offset, more_available: avail > count }
    }
}

// ---------------------------------------------------------------------------
// The status of a watched process
// ---------------------------------------------------------------------------

/// How a watched process ended.
#[derive(Debug, Clone, Copy, PartialEq, Eq, Structural)]
pub struct FinalStatus {
    pub exit_code: Option<i32>,
    /// Stopped by `monitor_stop` rather than exiting by itself
    pub killed: bool,
}

/// The reported state of a process: its name, and the exit code field
/// (absent, or present with a code or none).
#[derive(Debug, Clone, Copy, PartialEq, Eq, Structural)]
pub struct StatusReport {
    pub state: StateName,
    /// `None`: no exit code field; `Some(c)`: the field, with the code or null
    pub exit_code: Option<Option<i32>>,
}

/// The names of the states.
#[derive(Debug, Clone, Copy, PartialEq, Eq, Structural)]
pub enum StateName {
    Running,
    Killed,
    ExitedOk,
    ExitedError,
    ExitedUnknown,
}

impl StateName {
    pub open spec fn name_spec(self) -> Seq<char> {
        match self {
            StateName::Running => "running"@,
            StateName::Killed => "killed"@,
            StateName::ExitedOk => "exited_ok"@,
            StateName::ExitedError => "exited_error"@,
            StateName::ExitedUnknown => "exited_unknown"@,
        }
    }

    pub fn as_str(&self) -> (r: &'static str)
        ensures
            r@ == self.name_spec(),
    {
        match self {
            StateName::Running => "running",
            StateName::Killed => "killed",
            StateName::ExitedOk => "exited_ok",
            StateName::ExitedError => "exited_error",
            StateName::ExitedUnknown => "exited_unknown",
        }
    }
}

/// The status reported for a process: running until it ended; killed (with
/// whatever code) when stopped; exited ok or with an error by its code; or
/// exited with no code known.
pub open spec fn status_spec(f: Option<FinalStatus>) -> StatusReport {
    match f {
        None => StatusReport { state: StateName::Running, exit_code: None },
        Some(s) => if s.killed {
            StatusReport { state: StateName::Killed, exit_code: Some(s.exit_code) }
        } else {
            match s.exit_code {
                Some(c) => StatusReport {
                    state: if c == 0 {
                        StateName::ExitedOk
                    } else {
                        StateName::ExitedError
                    },
                    exit_code: Some(Some(c)),
                },
                None => StatusReport { state: StateName::ExitedUnknown, exit_code: None },
            }
        },
    }
}

pub fn describe_status(f: Option<FinalStatus>) -> (r: StatusReport)
    ensures
        r == status_spec(f),
{
    match f {
        None => StatusReport { state: StateName::Running, exit_code: None },
        Some(s) => if s.killed {
            StatusReport { state: StateName::Killed, exit_code: Some(s.exit_code) }
        } else {
            match s.exit_code {
                Some(c) => StatusReport {
                    state: if c == 0 {
                        StateName::ExitedOk
                    } else {
                        StateName::ExitedError
                    },
                    exit_code: Some(Some(c)),
                },
                None => StatusReport { state: StateName::ExitedUnknown, exit_code: None },
            }
        },
    }
}

} // verus!

verus! {

// ---------------------------------------------------------------------------
// Ids
// ---------------------------------------------------------------------------

/// The lower-case hexadecimal digit for `d < 16`.
pub open spec fn hex_char(d: nat) -> char {
    if d < 10 {
        ((48 as u32) + d) as char
    } else {
        ((87 as u32) + d) as char
    }
}

/// The lower-case hexadecimal representation of `n`, without leading zeros.
pub open spec fn hex(n: nat) -> Seq<char>
    decreases n,
{
    if n < 16 {
        seq![hex_char(n)]
    } else {
        hex(n / 16).push(hex_char(n % 16))
    }
}

/// `s` with zeros in front up to `width` characters.
pub open spec fn zero_pad(s: Seq<char>, width: nat) -> Seq<char> {
    if s.len() >= width {
        s
    } else {
        Seq::new((width - s.len()) as nat, |i: int| '0') + s
    }
}

/// The multiplier that spreads the counter over the id bits.
pub open spec fn id_mix() -> u64 {
    0x9E37_79B9_7F4A_7C15
}

/// The id for a start at `nanos` nanoseconds with start counter `counter`:
/// `mon-` and at least twelve hex digits of the time mixed with the
/// counter.
pub open spec fn monitor_id_spec(nanos: u64, counter: u64) -> Seq<char> {
    "mon-"@ + zero_pad(hex((nanos ^ counter.wrapping_mul(id_mix())) as nat), 12)
}

fn hex_digit(d: u64) -> (r: char)
    requires
        d < 16,
    ensures
        r == hex_char(d as nat),
{
    let u: u8 = if d < 10 {
        48 + (d as u8)
    } else {
        87 + (d as u8)
    };
    u as char
}

fn hex_string(n: u64) -> (r: String)
    ensures
        r@ == hex(n as nat),
    decreases n,
{
    if n < 16 {
        let mut s = String::new();
        string_push(&mut s, hex_digit(n));
        assert(s@ =~= seq![hex_char(n as nat)]);
        s
    } else {
        let mut s = hex_string(n / 16);
        string_push(&mut s, hex_digit(n % 16));
        s
    }
}

/// The id of a newly started watch: `mon-` and the hex digits, at least
/// twelve, of the start time in nanoseconds mixed with a start counter.
pub fn format_monitor_id(nanos: u64, counter: u64) -> (r: String)
    ensures
        r@ == monitor_id_spec(nanos, counter),
{
    let v = nanos ^ counter.wrapping_mul(0x9E37_79B9_7F4A_7C15);
    let h = hex_string(v);
    let n = crate::text::to_chars(h.as_str()).len();
    let mut s = "mon-".to_string();
    let mut i = n;
    let ghost zeros: Seq<char> = seq![];
    while i < 12
        invariant
            n <= 12 ==> n <= i <= 12,
            n > 12 ==> i == n,
            s@ == "mon-"@ + Seq::new((i - n) as nat, |k: int| '0'),
        decreases 12 - i,
    {
        string_push(&mut s, '0');
        assert(s@ =~= "mon-"@ + Seq::new((i + 1 - n) as nat, |k: int| '0'));
        i = i + 1;
    }
    push_str(&mut s, h.as_str());
    proof {
        if n >= 12 {
            assert(Seq::new((i - n) as nat, |k: int| '0') =~= Seq::<char>::empty());
            assert(s@ =~= "mon-"@ + hex(v as nat));
        } else {
            assert(s@ =~= "mon-"@ + (Seq::new((12 - n) as nat, |k: int| '0') + hex(v as nat)));
        }
    }
    s
}

// ---------------------------------------------------------------------------
// The tools
// ---------------------------------------------------------------------------

/// Which monitor tool a call names.
#[derive(Debug, Clone, Copy, PartialEq, Eq, Structural)]
pub enum MonitorCommand {
    Start,
    Read,
    Stop,
    List,
}

/// Picks the tool a call names, or the error it is answered with.
pub fn monitor_command(tool_name: &str) -> (r: Result<MonitorCommand, String>)
    ensures
        tool_name@ == "monitor_start"@ <==> r == Ok::<MonitorCommand, String>(MonitorCommand::Start),
        tool_name@ == "monitor_read"@ <==> r == Ok::<MonitorCommand, String>(MonitorCommand::Read),
        tool_name@ == "monitor_stop"@ <==> r == Ok::<MonitorCommand, String>(MonitorCommand::Stop),
        tool_name@ == "monitor_list"@ <==> r == Ok::<MonitorCommand, String>(MonitorCommand::List),
        r is Err ==> r->Err_0@ == "Unknown monitor tool: "@ + tool_name@,
{
    proof {
        reveal_strlit("monitor_start");
        reveal_strlit("monitor_read");
        reveal_strlit("monitor_stop");
        reveal_strlit("monitor_list");
        assert("monitor_start"@[9] != "monitor_read"@[9]);
        assert("monitor_start"@[10] != "monitor_stop"@[10]);
        assert("monitor_start"@[9] != "monitor_list"@[9]);
        assert("monitor_read"@[9] != "monitor_stop"@[9]);
        assert("monitor_read"@[9] != "monitor_list"@[9]);
        assert("monitor_stop"@[9] != "monitor_list"@[9]);
    }
    if crate::text::str_eq(tool_name, "monitor_start") {
        Ok(MonitorCommand::Start)
    } else if crate::text::str_eq(tool_name, "monitor_read") {
        Ok(MonitorCommand::Read)
    } else if crate::text::str_eq(tool_name, "monitor_stop") {
        Ok(MonitorCommand::Stop)
    } else if crate::text::str_eq(tool_name, "monitor_list") {
        Ok(MonitorCommand::List)
    } else {
        let mut m = "Unknown monitor tool: ".to_string();
        push_str(&mut m, tool_name);
        Err(m)
    }
}

/// A start needs a command that is not blank.
pub fn check_start_command(command: &str) -> (r: Result<(), String>)
    ensures
        r is Ok <==> trim(command@).len() > 0,
        r is Err ==> r->Err_0@ == "command must not be empty"@,
{
    if is_blank(command) {
        Err("command must not be empty".to_string())
    } else {
        Ok(())
    }
}

/// The message for a read or stop of an id that is not watched.
pub fn unknown_id_message(id: &str) -> (r: String)
    ensures
        r@ == "no monitor with id: "@ + id@,
{
    let mut m = "no monitor with id: ".to_string();
    push_str(&mut m, id);
    m
}

pub open spec fn start_tool_view() -> ToolView {
    ToolView {
        name: "monitor_start"@,
        description: "Start a long-running shell command in the background and return an opaque id. Use monitor_read to poll its stdout/stderr, monitor_stop to terminate. Useful for dev servers, watchers, tailing logs, or any command that streams output over time."@,
        properties: seq![
            ToolPropertyView {
                name: "command"@,
                kind: "string"@,
                description: "Shell command to start. Runs through `bash -c`. The process runs until it exits or monitor_stop is called."@,
                allowed: seq![],
                minimum: None,
                maximum: None,
                default_text: None,
                default_number: None,
                item_kind: None,
            },
            ToolPropertyView {
                name: "cwd"@,
                kind: "string"@,
                description: "Working directory (absolute path). Defaults to the agent's current working directory."@,
                allowed: seq![],
                minimum: None,
                maximum: None,
                default_text: None,
                default_number: None,
                item_kind: None,
            },
        ],
        required: seq!["command"@],
        requires_approval: true,
        defer_loading: false,
    }
}

pub open spec fn read_tool_view() -> ToolView {
    ToolView {
        name: "monitor_read"@,
        description: "Read new stdout/stderr lines from a monitored process. Returns up to `max_lines` lines at or after `since_offset`, plus `next_offset`, `dropped_lines` (count of lines the ring buffer evicted before you read them), and status. Non-blocking — returns immediately with whatever is buffered."@,
        properties: seq![
            ToolPropertyView {
                name: "id"@,
                kind: "string"@,
                description: "Monitor id returned by monitor_start"@,
                allowed: seq![],
                minimum: None,
                maximum: None,
                default_text: None,
                default_number: None,
                item_kind: None,
            },
            ToolPropertyView {
                name: "since_offset"@,
                kind: "integer"@,
                description: "Only return lines with offset >= this value. Pass the `next_offset` from the previous read to resume exactly where you left off. Omit to get all buffered lines."@,
                allowed: seq![],
                minimum: Some(0u64),
                maximum: None,
                default_text: None,
                default_number: None,
                item_kind: None,
            },
            ToolPropertyView {
                name: "max_lines"@,
                kind: "integer"@,
                description: "Maximum number of lines to return (default 200, max 2000)."@,
                allowed: seq![],
                minimum: Some(1u64),
                maximum: Some(2000u64),
                default_text: None,
                default_number: None,
                item_kind: None,
            },
        ],
        required: seq!["id"@],
        requires_approval: false,
        defer_loading: false,
    }
}

pub open spec fn stop_tool_view() -> ToolView {
    ToolView {
        name: "monitor_stop"@,
        description: "Terminate a monitored process. Sends SIGKILL on Unix / TerminateProcess on Windows. Safe to call on an already-exited process. Returns the final exit status."@,
        properties: seq![
            ToolPropertyView {
                name: "id"@,
                kind: "string"@,
                description: "Monitor id returned by monitor_start"@,
                allowed: seq![],
                minimum: None,
                maximum: None,
                default_text: None,
                default_number: None,
                item_kind: None,
            },
        ],
        required: seq!["id"@],
        requires_approval: false,
        defer_loading: false,
    }
}

pub open spec fn list_tool_view() -> ToolView {
    ToolView {
        name: "monitor_list"@,
        description: "List all active monitored processes for this session with their ids, commands, status, and buffered-line counts."@,
        properties: seq![],
        required: seq![],
        requires_approval: false,
        defer_loading: false,
    }
}

/// The monitor tools. The watched processes are kept at the edge.
#[derive(Debug, Clone, Copy)]
pub struct MonitorTool;

impl MonitorTool {
    pub fn new() -> (r: MonitorTool) {
        MonitorTool
    }

    /// The definitions of `monitor_start`, `monitor_read`, `monitor_stop`
    /// and `monitor_list`.
    pub fn get_tools() -> (r: Vec<Tool>)
        ensures
            r@.map_values(|t: Tool| t@) == seq![start_tool_view(), read_tool_view(), stop_tool_view(), list_tool_view()],
    {
        let v = vec![Self::start_tool(), Self::read_tool(), Self::stop_tool(), Self::list_tool()];
        assert(v@.map_values(|t: Tool| t@) =~= seq![
            start_tool_view(),
            read_tool_view(),
            stop_tool_view(),
            list_tool_view(),
        ]);
        v
    }

    fn start_tool() -> (r: Tool)
        ensures
            r@ == start_tool_view(),
    {
        let properties = vec![
            string_property(
                "command",
                "Shell command to start. Runs through `bash -c`. The process runs until it exits or monitor_stop is called.",
            ),
            string_property(
                "cwd",
                "Working directory (absolute path). Defaults to the agent's current working directory.",
            ),
        ];
        let t = Tool {
            name: "monitor_start".to_string(),
            description: "Start a long-running shell command in the background and return an opaque id. Use monitor_read to poll its stdout/stderr, monitor_stop to terminate. Useful for dev servers, watchers, tailing logs, or any command that streams output over time.".to_string(),
            properties,
            required: vec!["command".to_string()],
            requires_approval: true,
            defer_loading: false,
        };
        assert(t@.properties =~= start_tool_view().properties);
        assert(t@.required =~= start_tool_view().required);
        t
    }

    fn read_tool() -> (r: Tool)
        ensures
            r@ == read_tool_view(),
    {
        let properties = vec![
            string_property("id", "Monitor id returned by monitor_start"),
            integer_property(
                "since_offset",
                "Only return lines with offset >= this value. Pass the `next_offset` from the previous read to resume exactly where you left off. Omit to get all buffered lines.",
                Some(0),
                None,
            ),
            integer_property(
                "max_lines",
                "Maximum number of lines to return (default 200, max 2000).",
                Some(1),
                Some(2000),
            ),
        ];
        let t = Tool {
            name: "monitor_read".to_string(),
            description: "Read new stdout/stderr lines from a monitored process. Returns up to `max_lines` lines at or after `since_offset`, plus `next_offset`, `dropped_lines` (count of lines the ring buffer evicted before you read them), and status. Non-blocking — returns immediately with whatever is buffered.".to_string(),
            properties,
            required: vec!["id".to_string()],
            requires_approval: false,
            defer_loading: false,
        };
        assert(t@.properties =~= read_tool_view().properties);
        assert(t@.required =~= read_tool_view().required);
        t
    }

    fn stop_tool() -> (r: Tool)
        ensures
            r@ == stop_tool_view(),
    {
        let properties = vec![string_property("id", "Monitor id returned by monitor_start")];
        let t = Tool {
            name: "monitor_stop".to_string(),
            description: "Terminate a monitored process. Sends SIGKILL on Unix / TerminateProcess on Windows. Safe to call on an already-exited process. Returns the final exit status.".to_string(),
            properties,
            required: vec!["id".to_string()],
            requires_approval: false,
            defer_loading: false,
        };
        assert(t@.properties =~= stop_tool_view().properties);
        assert(t@.required =~= stop_tool_view().required);
        t
    }

    fn list_tool() -> (r: Tool)
        ensures
            r@ == list_tool_view(),
    {
        let t = Tool {
            name: "monitor_list".to_string(),
            description: "List all active monitored processes for this session with their ids, commands, status, and buffered-line counts.".to_string(),
            properties: Vec::new(),
            required: Vec::new(),
            requires_approval: false,
            defer_loading: false,
        };
        assert(t@.properties =~= list_tool_view().properties);
        assert(t@.required =~= list_tool_view().required);
        t
    }
}

} // verus!

verus! {

/// The lines of a buffer carry strictly increasing offsets, all below the
/// offset the next line gets.
pub proof fn lemma_offsets_increase(b: LineBufferView)
    requires
        buffer_ok(b),
    ensures
        forall|i: int, j: int| 0 <= i < j < b.lines.len() ==> #[trigger] b.lines[i].offset < #[trigger] b.lines[j].offset,
        forall|i: int| 0 <= i < b.lines.len() ==> #[trigger] b.lines[i].offset < b.next_offset,
{
}

proof fn lemma_skip_below_consecutive(s: Seq<LineView>, base: int, x: u64)
    requires
        base >= 0,
        forall|i: int| 0 <= i < s.len() ==> (#[trigger] s[i]).offset == base + i,
    ensures
        skip_below(s, x) == s.skip(
            if x <= base {
                0
            } else if x - base >= s.len() {
                s.len() as int
            } else {
                x - base
            },
        ),
    decreases s.len(),
{
    if s.len() > 0 && s[0].offset < x {
        let d = s.drop_first();
        assert forall|i: int| 0 <= i < d.len() implies (#[trigger] d[i]).offset == (base + 1) + i by {
            assert(d[i] == s[i + 1]);
        }
        lemma_skip_below_consecutive(d, base + 1, x);
        let k = if x <= base + 1 {
            0
        } else if x - (base + 1) >= d.len() {
            d.len() as int
        } else {
            x - (base + 1)
        };
        assert(d.skip(k) =~= s.skip(k + 1));
    } else {
        assert(s.skip(0) =~= s);
        if s.len() > 0 {
            assert(s[0].offset == base);
        }
    }
}

/// Reading again from the `next_offset` a read returned resumes exactly
/// after the lines it returned: nothing is returned twice and nothing
/// buffered is skipped.
pub proof fn lemma_read_resumes(b: LineBufferView, since: u64, max: usize)
    requires
        buffer_ok(b),
        window_lines(b, since, max).len() > 0,
    ensures
        skip_below(b.lines, (window_lines(b, since, max).last().offset + 1) as u64) == skip_below(
            b.lines,
            since,
        ).skip(window_lines(b, since, max).len() as int),
{
    let base = b.next_offset - b.lines.len();
    let s = b.lines;
    lemma_skip_below_consecutive(s, base, since);
    let w = window_lines(b, since, max);
    let k = if since <= base {
        0
    } else if since - base >= s.len() {
        s.len() as int
    } else {
        since - base
    };
    let rest = skip_below(s, since);
    assert(rest == s.skip(k));
    assert(w.last() == rest[w.len() - 1]);
    assert(rest[w.len() - 1] == s[k + w.len() - 1]);
    let next = (w.last().offset + 1) as u64;
    assert(next == base + k + w.len());
    lemma_skip_below_consecutive(s, base, next);
    assert(s.skip(k).skip(w.len() as int) =~= s.skip(k + w.len()));
}

} // verus!

verus! {

// ---------------------------------------------------------------------------
// Ids started in the same nanosecond differ
// ---------------------------------------------------------------------------

/// The value of a hexadecimal digit.
pub open spec fn hex_digit_value(c: char) -> nat {
    if (c as u32) < 58 {
        ((c as u32) - 48) as nat
    } else {
        ((c as u32) - 87) as nat
    }
}

/// The value of a string of hexadecimal digits.
pub open spec fn hex_value(s: Seq<char>) -> nat
    decreases s.len(),
{
    if s.len() == 0 {
        0
    } else {
        hex_value(s.drop_last()) * 16 + hex_digit_value(s.last())
    }
}

proof fn lemma_hex_value_of_hex(n: nat)
    ensures
        hex_value(hex(n)) == n,
    decreases n,
{
    if n < 16 {
        let c = hex_char(n);
        assert(hex(n) == seq![c]);
        assert(seq![c].drop_last() =~= Seq::<char>::empty());
        assert(seq![c].last() == c);
        assert(hex_digit_value(c) == n);
        assert(hex_value(seq![c]) == hex_value(Seq::<char>::empty()) * 16 + hex_digit_value(c));
    } else {
        lemma_hex_value_of_hex(n / 16);
        let c = hex_char(n % 16);
        assert(hex(n) == hex(n / 16).push(c));
        assert(hex(n).drop_last() =~= hex(n / 16));
        assert(hex(n).last() == c);
        assert(hex_digit_value(c) == n % 16);
        assert(hex_value(hex(n)) == hex_value(hex(n / 16)) * 16 + hex_digit_value(c));
        assert((n / 16) * 16 + n % 16 == n) by (nonlinear_arith);
    }
}

proof fn lemma_hex_value_zeros(k: nat)
    ensures
        hex_value(Seq::new(k, |i: int| '0')) == 0,
    decreases k,
{
    if k > 0 {
        assert(Seq::new(k, |i: int| '0').drop_last() =~= Seq::new((k - 1) as nat, |i: int| '0'));
        lemma_hex_value_zeros((k - 1) as nat);
    }
}

proof fn lemma_hex_value_leading_zeros(k: nat, s: Seq<char>)
    ensures
        hex_value(Seq::new(k, |i: int| '0') + s) == hex_value(s),
    decreases s.len(),
{
    let z = Seq::new(k, |i: int| '0');
    if s.len() == 0 {
        assert(z + s =~= z);
        lemma_hex_value_zeros(k);
    } else {
        assert((z + s).drop_last() =~= z + s.drop_last());
        lemma_hex_value_leading_zeros(k, s.drop_last());
    }
}

proof fn lemma_hex_value_padded(n: nat, width: nat)
    ensures
        hex_value(zero_pad(hex(n), width)) == n,
{
    lemma_hex_value_of_hex(n);
    if hex(n).len() < width {
        lemma_hex_value_leading_zeros((width - hex(n).len()) as nat, hex(n));
    }
}

/// Multiplying by the odd mixing constant loses nothing: multiplying the
/// product by the constant's inverse gives the counter back.
proof fn lemma_mix_undone(c: u64)
    ensures
        ((c as nat * id_mix() as nat) % 0x1_0000_0000_0000_0000) * 0xf1de_83e1_9937_733d
            % 0x1_0000_0000_0000_0000 == c,
{
    let m: int = 0x1_0000_0000_0000_0000;
    let k: int = 0x9E37_79B9_7F4A_7C15;
    let ki: int = 0xf1de_83e1_9937_733d;
    let q: int = 10771413168148108919;
    assert(k * ki == 1 + q * m);
    let x: int = c as int * k;
    vstd::arithmetic::div_mod::lemma_mul_mod_noop_left(x, ki, m);
    assert(x * ki == c + m * (c * q)) by (nonlinear_arith)
        requires
            x == c as int * k,
            k * ki == 1 + q * m,
    ;
    vstd::arithmetic::div_mod::lemma_mod_multiples_vanish(c * q, c as int, m);
    vstd::arithmetic::div_mod::lemma_small_mod(c as nat, m as nat);
}

/// Two watches started in the same nanosecond get different ids: the
/// start counter is mixed into the time by a multiplication that loses
/// nothing.
pub proof fn lemma_monitor_ids_differ(nanos: u64, c1: u64, c2: u64)
    requires
        c1 != c2,
    ensures
        monitor_id_spec(nanos, c1) != monitor_id_spec(nanos, c2),
{
    let a1 = c1.wrapping_mul(id_mix());
    let a2 = c2.wrapping_mul(id_mix());
    lemma_mix_undone(c1);
    lemma_mix_undone(c2);
    assert(a1 != a2);
    let x1 = nanos ^ a1;
    let x2 = nanos ^ a2;
    assert(x1 != x2) by (bit_vector)
        requires
            a1 != a2,
            x1 == nanos ^ a1,
            x2 == nanos ^ a2,
    ;
    reveal_strlit("mon-");
    if monitor_id_spec(nanos, c1) == monitor_id_spec(nanos, c2) {
        let p1 = zero_pad(hex(x1 as nat), 12);
        let p2 = zero_pad(hex(x2 as nat), 12);
        assert(monitor_id_spec(nanos, c1).skip(4) =~= p1);
        assert(monitor_id_spec(nanos, c2).skip(4) =~= p2);
        lemma_hex_value_padded(x1 as nat, 12);
        lemma_hex_value_padded(x2 as nat, 12);
    }
}

} // verus!
