//! The agent pool tools: their definitions, which tool a call names, how
//! its arguments are read, and the replies. The pool of background agents
//! itself runs at the edge; the replies are built here from what it
//! reports.
use vstd::prelude::*;
use crate::task_manager::{parse_priority, priority_spec, TaskPriority};
use crate::text::{decimal, lowercase, push_str, str_eq, strs_view, to_lowercase, usize_to_string};
use crate::tool::{Tool, ToolProperty, ToolPropertyView, ToolView};

verus! {

broadcast use vstd::string::group_string_axioms;

// ---------------------------------------------------------------------------
// Tool definitions
// ---------------------------------------------------------------------------

pub open spec fn spawn_agent_tool_view() -> ToolView {
    ToolView {
        name: "agent_spawn"@,
        description: "Spawn a background task agent to execute a task autonomously. Returns the agent ID."@,
        properties: seq![
            ToolPropertyView {
                name: "description"@,
                kind: "string"@,
                description: "Description of the task for the agent to execute"@,
                allowed: seq![],
                minimum: None,
                maximum: None,
                default_text: None,
                default_number: None,
                item_kind: None,
            },
            ToolPropertyView {
                name: "priority"@,
                kind: "string"@,
                description: "Task priority (default: normal)"@,
                allowed: seq!["low"@, "normal"@, "high"@, "urgent"@],
                minimum: None,
                maximum: None,
                default_text: Some("normal"@),
                default_number: None,
                item_kind: None,
            },
            ToolPropertyView {
                name: "max_iterations"@,
                kind: "integer"@,
                description: "Maximum iterations before the agent gives up (default: 15)"@,
                allowed: seq![],
                minimum: None,
                maximum: None,
                default_text: None,
                default_number: Some(15),
                item_kind: None,
            },
            ToolPropertyView {
                name: "permission_mode"@,
                kind: "string"@,
                description: "Permission mode for tool execution (default: auto)"@,
                allowed: seq!["read-only"@, "auto"@, "full"@],
                minimum: None,
                maximum: None,
                default_text: Some("auto"@),
                default_number: None,
                item_kind: None,
            },
        ],
        required: seq!["description"@],
        requires_approval: true,
        defer_loading: true,
    }
}

pub open spec fn get_agent_status_tool_view() -> ToolView {
    ToolView {
        name: "agent_status"@,
        description: "Get the current status of a background agent"@,
        properties: seq![
            ToolPropertyView {
                name: "agent_id"@,
                kind: "string"@,
                description: "ID of the agent to check"@,
                allowed: seq![],
                minimum: None,
                maximum: None,
                default_text: None,
                default_number: None,
                item_kind: None,
            },
        ],
        required: seq!["agent_id"@],
        requires_approval: false,
        defer_loading: true,
    }
}

pub open spec fn list_agents_tool_view() -> ToolView {
    ToolView {
        name: "agent_list"@,
        description: "List all active background agents with their status"@,
        properties: seq![
        ],
        required: seq![],
        requires_approval: false,
        defer_loading: true,
    }
}

pub open spec fn stop_agent_tool_view() -> ToolView {
    ToolView {
        name: "agent_stop"@,
        description: "Stop a running background agent"@,
        properties: seq![
            ToolPropertyView {
                name: "agent_id"@,
                kind: "string"@,
                description: "ID of the agent to stop"@,
                allowed: seq![],
                minimum: None,
                maximum: None,
                default_text: None,
                default_number: None,
                item_kind: None,
            },
        ],
        required: seq!["agent_id"@],
        requires_approval: true,
        defer_loading: true,
    }
}

pub open spec fn await_agent_tool_view() -> ToolView {
    ToolView {
        name: "agent_await"@,
        description: "Wait for a background agent to complete and get its result"@,
        properties: seq![
            ToolPropertyView {
                name: "agent_id"@,
                kind: "string"@,
                description: "ID of the agent to wait for"@,
                allowed: seq![],
                minimum: None,
                maximum: None,
                default_text: None,
                default_number: None,
                item_kind: None,
            },
        ],
        required: seq!["agent_id"@],
        requires_approval: false,
        defer_loading: true,
    }
}

pub open spec fn get_pool_stats_tool_view() -> ToolView {
    ToolView {
        name: "agent_pool_stats"@,
        description: "Get statistics about the agent pool"@,
        properties: seq![
        ],
        required: seq![],
        requires_approval: false,
        defer_loading: true,
    }
}

pub open spec fn get_file_locks_tool_view() -> ToolView {
    ToolView {
        name: "agent_file_locks"@,
        description: "List all currently held file locks by agents"@,
        properties: seq![
        ],
        required: seq![],
        requires_approval: false,
        defer_loading: true,
    }
}

/// The agent pool tools.
#[derive(Debug, Clone, Copy)]
pub struct AgentPoolTool;

impl AgentPoolTool {
    /// The definitions of the agent pool tools.
    pub fn get_tools() -> (r: Vec<Tool>)
        ensures
            r@.map_values(|t: Tool| t@) == seq![spawn_agent_tool_view(), get_agent_status_tool_view(), list_agents_tool_view(), stop_agent_tool_view(), await_agent_tool_view(), get_pool_stats_tool_view(), get_file_locks_tool_view()],
    {
        let v = vec![
            Self::spawn_agent_tool(),
            Self::get_agent_status_tool(),
            Self::list_agents_tool(),
            Self::stop_agent_tool(),
            Self::await_agent_tool(),
            Self::get_pool_stats_tool(),
            Self::get_file_locks_tool(),
        ];
        assert(v@.map_values(|t: Tool| t@) =~= seq![spawn_agent_tool_view(), get_agent_status_tool_view(), list_agents_tool_view(), stop_agent_tool_view(), await_agent_tool_view(), get_pool_stats_tool_view(), get_file_locks_tool_view()]);
        v
    }

    /// The `agent_spawn` tool.
    pub fn spawn_agent_tool() -> (r: Tool)
        ensures
            r@ == spawn_agent_tool_view(),
    {
        let p0 = ToolProperty {
            name: "description".to_string(),
            kind: "string".to_string(),
            description: "Description of the task for the agent to execute".to_string(),
            allowed: Vec::new(),
            minimum: None,
            maximum: None,
            default_text: None,
            default_number: None,
            item_kind: None,
        };
        assert(strs_view(p0.allowed@) =~= seq![]);
        let p1 = ToolProperty {
            name: "priority".to_string(),
            kind: "string".to_string(),
            description: "Task priority (default: normal)".to_string(),
            allowed: vec!["low".to_string(), "normal".to_string(), "high".to_string(), "urgent".to_string()],
            minimum: None,
            maximum: None,
            default_text: Some("normal".to_string()),
            default_number: None,
            item_kind: None,
        };
        assert(strs_view(p1.allowed@) =~= seq!["low"@, "normal"@, "high"@, "urgent"@]);
        let p2 = ToolProperty {
            name: "max_iterations".to_string(),
            kind: "integer".to_string(),
            description: "Maximum iterations before the agent gives up (default: 15)".to_string(),
            allowed: Vec::new(),
            minimum: None,
            maximum: None,
            default_text: None,
            default_number: Some(15),
            item_kind: None,
        };
        assert(strs_view(p2.allowed@) =~= seq![]);
        let p3 = ToolProperty {
            name: "permission_mode".to_string(),
            kind: "string".to_string(),
            description: "Permission mode for tool execution (default: auto)".to_string(),
            allowed: vec!["read-only".to_string(), "auto".to_string(), "full".to_string()],
            minimum: None,
            maximum: None,
            default_text: Some("auto".to_string()),
            default_number: None,
            item_kind: None,
        };
        assert(strs_view(p3.allowed@) =~= seq!["read-only"@, "auto"@, "full"@]);
        let t = Tool {
            name: "agent_spawn".to_string(),
            description: "Spawn a background task agent to execute a task autonomously. Returns the agent ID.".to_string(),
            properties: vec![p0, p1, p2, p3],
            required: vec!["description".to_string()],
            requires_approval: true,
            defer_loading: true,
        };
        assert(t@.properties =~= spawn_agent_tool_view().properties);
        assert(t@.required =~= spawn_agent_tool_view().required);
        t
    }

    /// The `agent_status` tool.
    pub fn get_agent_status_tool() -> (r: Tool)
        ensures
            r@ == get_agent_status_tool_view(),
    {
        let p0 = ToolProperty {
            name: "agent_id".to_string(),
            kind: "string".to_string(),
            description: "ID of the agent to check".to_string(),
            allowed: Vec::new(),
            minimum: None,
            maximum: None,
            default_text: None,
            default_number: None,
            item_kind: None,
        };
        assert(strs_view(p0.allowed@) =~= seq![]);
        let t = Tool {
            name: "agent_status".to_string(),
            description: "Get the current status of a background agent".to_string(),
            properties: vec![p0],
            required: vec!["agent_id".to_string()],
            requires_approval: false,
            defer_loading: true,
        };
        assert(t@.properties =~= get_agent_status_tool_view().properties);
        assert(t@.required =~= get_agent_status_tool_view().required);
        t
    }

    /// The `agent_list` tool.
    pub fn list_agents_tool() -> (r: Tool)
        ensures
            r@ == list_agents_tool_view(),
    {

        let t = Tool {
            name: "agent_list".to_string(),
            description: "List all active background agents with their status".to_string(),
            properties: vec![],
            required: Vec::new(),
            requires_approval: false,
            defer_loading: true,
        };
        assert(t@.properties =~= list_agents_tool_view().properties);
        assert(t@.required =~= list_agents_tool_view().required);
        t
    }

    /// The `agent_stop` tool.
    pub fn stop_agent_tool() -> (r: Tool)
        ensures
            r@ == stop_agent_tool_view(),
    {
        let p0 = ToolProperty {
            name: "agent_id".to_string(),
            kind: "string".to_string(),
            description: "ID of the agent to stop".to_string(),
            allowed: Vec::new(),
            minimum: None,
            maximum: None,
            default_text: None,
            default_number: None,
            item_kind: None,
        };
        assert(strs_view(p0.allowed@) =~= seq![]);
        let t = Tool {
            name: "agent_stop".to_string(),
            description: "Stop a running background agent".to_string(),
            properties: vec![p0],
            required: vec!["agent_id".to_string()],
            requires_approval: true,
            defer_loading: true,
        };
        assert(t@.properties =~= stop_agent_tool_view().properties);
        assert(t@.required =~= stop_agent_tool_view().required);
        t
    }

    /// The `agent_await` tool.
    pub fn await_agent_tool() -> (r: Tool)
        ensures
            r@ == await_agent_tool_view(),
    {
        let p0 = ToolProperty {
            name: "agent_id".to_string(),
            kind: "string".to_string(),
            description: "ID of the agent to wait for".to_string(),
            allowed: Vec::new(),
            minimum: None,
            maximum: None,
            default_text: None,
            default_number: None,
            item_kind: None,
        };
        assert(strs_view(p0.allowed@) =~= seq![]);
        let t = Tool {
            name: "agent_await".to_string(),
            description: "Wait for a background agent to complete and get its result".to_string(),
            properties: vec![p0],
            required: vec!["agent_id".to_string()],
            requires_approval: false,
            defer_loading: true,
        };
        assert(t@.properties =~= await_agent_tool_view().properties);
        assert(t@.required =~= await_agent_tool_view().required);
        t
    }

    /// The `agent_pool_stats` tool.
    pub fn get_pool_stats_tool() -> (r: Tool)
        ensures
            r@ == get_pool_stats_tool_view(),
    {

        let t = Tool {
            name: "agent_pool_stats".to_string(),
            description: "Get statistics about the agent pool".to_string(),
            properties: vec![],
            required: Vec::new(),
            requires_approval: false,
            defer_loading: true,
        };
        assert(t@.properties =~= get_pool_stats_tool_view().properties);
        assert(t@.required =~= get_pool_stats_tool_view().required);
        t
    }

    /// The `agent_file_locks` tool.
    pub fn get_file_locks_tool() -> (r: Tool)
        ensures
            r@ == get_file_locks_tool_view(),
    {

        let t = Tool {
            name: "agent_file_locks".to_string(),
            description: "List all currently held file locks by agents".to_string(),
            properties: vec![],
            required: Vec::new(),
            requires_approval: false,
            defer_loading: true,
        };
        assert(t@.properties =~= get_file_locks_tool_view().properties);
        assert(t@.required =~= get_file_locks_tool_view().required);
        t
    }
}

} // verus!

verus! {

// ---------------------------------------------------------------------------
// Which tool a call names, and its arguments
// ---------------------------------------------------------------------------

/// An agent pool tool.
#[derive(Debug, Clone, Copy, PartialEq, Eq, Structural)]
pub enum AgentPoolCommand {
    Spawn,
    Status,
    List,
    Stop,
    Await,
    PoolStats,
    FileLocks,
}

/// The tool a name picks, or the error for an unknown name.
pub open spec fn agent_pool_command_spec(name: Seq<char>) -> Result<AgentPoolCommand, Seq<char>> {
    if name == "agent_spawn"@ {
        Ok(AgentPoolCommand::Spawn)
    } else if name == "agent_status"@ {
        Ok(AgentPoolCommand::Status)
    } else if name == "agent_list"@ {
        Ok(AgentPoolCommand::List)
    } else if name == "agent_stop"@ {
        Ok(AgentPoolCommand::Stop)
    } else if name == "agent_await"@ {
        Ok(AgentPoolCommand::Await)
    } else if name == "agent_pool_stats"@ {
        Ok(AgentPoolCommand::PoolStats)
    } else if name == "agent_file_locks"@ {
        Ok(AgentPoolCommand::FileLocks)
    } else {
        Err("Unknown agent pool tool: "@ + name)
    }
}

/// Picks the tool a call names, or the error it is answered with.
pub fn agent_pool_command(name: &str) -> (r: Result<AgentPoolCommand, String>)
    ensures
        match (r, agent_pool_command_spec(name@)) {
            (Ok(c), Ok(d)) => c == d,
            (Err(e), Err(f)) => e@ == f,
            _ => false,
        },
{
    if str_eq(name, "agent_spawn") {
        Ok(AgentPoolCommand::Spawn)
    } else if str_eq(name, "agent_status") {
        Ok(AgentPoolCommand::Status)
    } else if str_eq(name, "agent_list") {
        Ok(AgentPoolCommand::List)
    } else if str_eq(name, "agent_stop") {
        Ok(AgentPoolCommand::Stop)
    } else if str_eq(name, "agent_await") {
        Ok(AgentPoolCommand::Await)
    } else if str_eq(name, "agent_pool_stats") {
        Ok(AgentPoolCommand::PoolStats)
    } else if str_eq(name, "agent_file_locks") {
        Ok(AgentPoolCommand::FileLocks)
    } else {
        let mut m = "Unknown agent pool tool: ".to_string();
        push_str(&mut m, name);
        Err(m)
    }
}

/// What a spawned agent may do with tools.
#[derive(Debug, Clone, Copy, PartialEq, Eq, Structural)]
pub enum PermissionMode {
    ReadOnly,
    Auto,
    Full,
}

/// The mode a `permission_mode` argument names, ignoring case; anything
/// else is automatic.
pub open spec fn permission_mode_spec(s: Seq<char>) -> PermissionMode {
    let l = lowercase(s);
    if l == "read-only"@ || l == "readonly"@ {
        PermissionMode::ReadOnly
    } else if l == "auto"@ {
        PermissionMode::Auto
    } else if l == "full"@ {
        PermissionMode::Full
    } else {
        PermissionMode::Auto
    }
}

/// Reads a `permission_mode` argument.
pub fn parse_permission_mode(s: &str) -> (r: PermissionMode)
    ensures
        r == permission_mode_spec(s@),
{
    let l = to_lowercase(s);
    if str_eq(l.as_str(), "read-only") || str_eq(l.as_str(), "readonly") {
        PermissionMode::ReadOnly
    } else if str_eq(l.as_str(), "auto") {
        PermissionMode::Auto
    } else if str_eq(l.as_str(), "full") {
        PermissionMode::Full
    } else {
        PermissionMode::Auto
    }
}

/// The arguments of `agent_spawn` with their defaults filled in.
#[derive(Debug, Clone)]
pub struct SpawnRequest {
    pub description: String,
    pub priority: TaskPriority,
    pub max_iterations: u32,
    pub permission_mode: PermissionMode,
}

/// Reads the arguments of `agent_spawn`: priority `normal`, 15 iterations
/// and mode `auto` when not given.
pub fn spawn_request(
    description: String,
    priority: Option<&str>,
    max_iterations: Option<u32>,
    permission_mode: Option<&str>,
) -> (r: SpawnRequest)
    ensures
        r.description@ == description@,
        r.priority == priority_spec(
            match priority {
                Some(p) => p@,
                None => "normal"@,
            },
        ),
        r.max_iterations == match max_iterations {
            Some(m) => m,
            None => 15,
        },
        r.permission_mode == permission_mode_spec(
            match permission_mode {
                Some(p) => p@,
                None => "auto"@,
            },
        ),
{
    let priority = match priority {
        Some(p) => parse_priority(p),
        None => parse_priority("normal"),
    };
    let permission_mode = match permission_mode {
        Some(p) => parse_permission_mode(p),
        None => parse_permission_mode("auto"),
    };
    let max_iterations = match max_iterations {
        Some(m) => m,
        None => 15,
    };
    SpawnRequest { description, priority, max_iterations, permission_mode }
}

// ---------------------------------------------------------------------------
// Replies
// ---------------------------------------------------------------------------

/// `Spawned background agent '<id>' for task: <description>`.
pub fn spawned_reply(agent_id: &str, description: &str) -> (r: String)
    ensures
        r@ == "Spawned background agent '"@ + agent_id@ + "' for task: "@ + description@,
{
    let mut s = "Spawned background agent '".to_string();
    push_str(&mut s, agent_id);
    push_str(&mut s, "' for task: ");
    push_str(&mut s, description);
    s
}

/// `Agent <id>: <status>`.
pub fn status_reply(agent_id: &str, status: &str) -> (r: String)
    ensures
        r@ == "Agent "@ + agent_id@ + ": "@ + status@,
{
    let mut s = "Agent ".to_string();
    push_str(&mut s, agent_id);
    push_str(&mut s, ": ");
    push_str(&mut s, status);
    s
}

/// `Agent <id> not found`.
pub fn agent_not_found(agent_id: &str) -> (r: String)
    ensures
        r@ == "Agent "@ + agent_id@ + " not found"@,
{
    let mut s = "Agent ".to_string();
    push_str(&mut s, agent_id);
    push_str(&mut s, " not found");
    s
}

/// `Stopped agent <id>`.
pub fn stopped_reply(agent_id: &str) -> (r: String)
    ensures
        r@ == "Stopped agent "@ + agent_id@,
{
    let mut s = "Stopped agent ".to_string();
    push_str(&mut s, agent_id);
    s
}

/// How a finished agent's run is reported.
pub open spec fn awaited_spec(agent_id: Seq<char>, success: bool, iterations: nat, summary: Seq<char>) -> Seq<char> {
    "Agent "@ + agent_id + " "@ + (if success {
        "succeeded"@
    } else {
        "failed"@
    }) + " after "@ + decimal(iterations) + " iterations:\n"@ + summary
}

/// Reports a finished agent: whether it succeeded, after how many
/// iterations, and its summary.
pub fn awaited_reply(agent_id: &str, success: bool, iterations: u32, summary: &str) -> (r: String)
    ensures
        r@ == awaited_spec(agent_id@, success, iterations as nat, summary@),
{
    let mut s = "Agent ".to_string();
    push_str(&mut s, agent_id);
    push_str(&mut s, " ");
    push_str(&mut s, if success { "succeeded" } else { "failed" });
    push_str(&mut s, " after ");
    push_str(&mut s, usize_to_string(iterations as usize).as_str());
    push_str(&mut s, " iterations:\n");
    push_str(&mut s, summary);
    s
}

/// The reply with the pool's counts.
pub open spec fn pool_stats_spec(max_agents: nat, total: nat, running: nat, completed: nat, failed: nat) -> Seq<char> {
    "Agent Pool Statistics:\nMax agents: "@ + decimal(max_agents) + "\nTotal agents: "@ + decimal(total)
        + "\nRunning: "@ + decimal(running) + "\nCompleted: "@ + decimal(completed) + "\nFailed: "@
        + decimal(failed)
}

/// Reports the pool's counts.
pub fn pool_stats_reply(max_agents: usize, total: usize, running: usize, completed: usize, failed: usize) -> (r: String)
    ensures
        r@ == pool_stats_spec(max_agents as nat, total as nat, running as nat, completed as nat, failed as nat),
{
    let mut s = "Agent Pool Statistics:\nMax agents: ".to_string();
    push_str(&mut s, usize_to_string(max_agents).as_str());
    push_str(&mut s, "\nTotal agents: ");
    push_str(&mut s, usize_to_string(total).as_str());
    push_str(&mut s, "\nRunning: ");
    push_str(&mut s, usize_to_string(running).as_str());
    push_str(&mut s, "\nCompleted: ");
    push_str(&mut s, usize_to_string(completed).as_str());
    push_str(&mut s, "\nFailed: ");
    push_str(&mut s, usize_to_string(failed).as_str());
    s
}

/// What an agent is doing, as far as its icon goes.
#[derive(Debug, Clone, Copy, PartialEq, Eq, Structural)]
pub enum AgentState {
    Idle,
    Working,
    WaitingForLock,
    Paused,
    Completed,
    Failed,
}

impl AgentState {
    pub open spec fn icon_spec(self) -> Seq<char> {
        match self {
            AgentState::Idle => "⏸️"@,
            AgentState::Working => "🔄"@,
            AgentState::WaitingForLock => "🔒"@,
            AgentState::Paused => "⏸️"@,
            AgentState::Completed => "✅"@,
            AgentState::Failed => "❌"@,
        }
    }

    /// The icon shown before an agent in the list.
    pub fn icon(&self) -> (r: &'static str)
        ensures
            r@ == self.icon_spec(),
    {
        match self {
            AgentState::Idle => "⏸️",
            AgentState::Working => "🔄",
            AgentState::WaitingForLock => "🔒",
            AgentState::Paused => "⏸️",
            AgentState::Completed => "✅",
            AgentState::Failed => "❌",
        }
    }
}

/// An agent in the list: id, state, and its status as text.
pub type AgentEntry = (String, AgentState, String);

pub open spec fn agents_view(v: Seq<AgentEntry>) -> Seq<(Seq<char>, AgentState, Seq<char>)> {
    v.map_values(|a: AgentEntry| (a.0@, a.1, a.2@))
}

/// The lines listing agents, in order.
pub open spec fn agent_lines(v: Seq<(Seq<char>, AgentState, Seq<char>)>) -> Seq<char>
    decreases v.len(),
{
    if v.len() == 0 {
        seq![]
    } else {
        agent_lines(v.drop_last()) + v.last().1.icon_spec() + " ["@ + v.last().0 + "] "@ + v.last().2
            + "\n"@
    }
}

/// The list of active agents, or a note that there is none.
pub open spec fn agent_list_spec(v: Seq<(Seq<char>, AgentState, Seq<char>)>) -> Seq<char> {
    if v.len() == 0 {
        "No active background agents"@
    } else {
        decimal(v.len()) + " active agents:\n"@ + agent_lines(v)
    }
}

/// Lists the active agents.
pub fn agent_list_reply(agents: &[AgentEntry]) -> (r: String)
    ensures
        r@ == agent_list_spec(agents_view(agents@)),
{
    let ghost av = agents_view(agents@);
    if agents.len() == 0 {
        return "No active background agents".to_string();
    }
    let mut s = usize_to_string(agents.len());
    push_str(&mut s, " active agents:\n");
    let ghost head = s@;
    let mut i: usize = 0;
    assert(av.take(0) =~= seq![]);
    while i < agents.len()
        invariant
            i <= agents@.len(),
            av == agents_view(agents@),
            s@ == head + agent_lines(av.take(i as int)),
        decreases agents@.len() - i,
    {
        assert(av.take(i + 1).drop_last() =~= av.take(i as int));
        push_str(&mut s, agents[i].1.icon());
        push_str(&mut s, " [");
        push_str(&mut s, agents[i].0.as_str());
        push_str(&mut s, "] ");
        push_str(&mut s, agents[i].2.as_str());
        push_str(&mut s, "\n");
        assert(s@ =~= head + agent_lines(av.take(i + 1)));
        i = i + 1;
    }
    assert(av.take(agents@.len() as int) =~= av);
    s
}

/// A held file lock: path, whether it is a write lock, and the agent.
pub type FileLock = (String, bool, String);

pub open spec fn locks_view(v: Seq<FileLock>) -> Seq<(Seq<char>, bool, Seq<char>)> {
    v.map_values(|l: FileLock| (l.0@, l.1, l.2@))
}

/// The lines listing file locks, in order.
pub open spec fn lock_lines(v: Seq<(Seq<char>, bool, Seq<char>)>) -> Seq<char>
    decreases v.len(),
{
    if v.len() == 0 {
        seq![]
    } else {
        lock_lines(v.drop_last()) + "- "@ + v.last().0 + " ("@ + (if v.last().1 {
            "write"@
        } else {
            "read"@
        }) + ") by agent "@ + v.last().2 + "\n"@
    }
}

/// The list of held file locks, or a note that there is none.
pub open spec fn lock_list_spec(v: Seq<(Seq<char>, bool, Seq<char>)>) -> Seq<char> {
    if v.len() == 0 {
        "No file locks currently held"@
    } else {
        decimal(v.len()) + " file locks:\n"@ + lock_lines(v)
    }
}

/// Lists the held file locks.
pub fn file_locks_reply(locks: &[FileLock]) -> (r: String)
    ensures
        r@ == lock_list_spec(locks_view(locks@)),
{
    let ghost lv = locks_view(locks@);
    if locks.len() == 0 {
        return "No file locks currently held".to_string();
    }
    let mut s = usize_to_string(locks.len());
    push_str(&mut s, " file locks:\n");
    let ghost head = s@;
    let mut i: usize = 0;
    assert(lv.take(0) =~= seq![]);
    while i < locks.len()
        invariant
            i <= locks@.len(),
            lv == locks_view(locks@),
            s@ == head + lock_lines(lv.take(i as int)),
        decreases locks@.len() - i,
    {
        assert(lv.take(i + 1).drop_last() =~= lv.take(i as int));
        push_str(&mut s, "- ");
        push_str(&mut s, locks[i].0.as_str());
        push_str(&mut s, " (");
        push_str(&mut s, if locks[i].1 { "write" } else { "read" });
        push_str(&mut s, ") by agent ");
        push_str(&mut s, locks[i].2.as_str());
        push_str(&mut s, "\n");
        assert(s@ =~= head + lock_lines(lv.take(i + 1)));
        i = i + 1;
    }
    assert(lv.take(locks@.len() as int) =~= lv);
    s
}

/// The error reply for a failed operation.
pub fn agent_failure_reply(error: &str) -> (r: String)
    ensures
        r@ == "Agent operation failed: "@ + error@,
{
    let mut s = "Agent operation failed: ".to_string();
    push_str(&mut s, error);
    s
}

} // verus!
