//! The task manager tools: their definitions, which tool a call names, how
//! a priority is read, and the replies. The task tree itself is kept at
//! the edge; the replies are built here from what it reports.
use vstd::prelude::*;
use crate::text::{decimal, lowercase, push_str, str_eq, strs_view, to_lowercase, usize_to_string};
use crate::tool::{Tool, ToolProperty, ToolPropertyView, ToolView};

verus! {

broadcast use vstd::string::group_string_axioms;

// ---------------------------------------------------------------------------
// Tool definitions
// ---------------------------------------------------------------------------

pub open spec fn create_task_tool_view() -> ToolView {
    ToolView {
        name: "task_create"@,
        description: "Create a new task. Returns the task ID. Use parent_id to create subtasks."@,
        properties: seq![
            ToolPropertyView {
                name: "description"@,
                kind: "string"@,
                description: "Description of the task to create"@,
                allowed: seq![],
                minimum: None,
                maximum: None,
                default_text: None,
                default_number: None,
                item_kind: None,
            },
            ToolPropertyView {
                name: "parent_id"@,
                kind: "string"@,
                description: "Optional parent task ID to create a subtask"@,
                allowed: seq![],
                minimum: None,
                maximum: None,
                default_text: None,
                default_number: None,
                item_kind: None,
            },
            ToolPropertyView {
                name: "priority"@,
                kind: "string"@,
                description: "Task priority (default: normal)"@,
                allowed: seq!["low"@, "normal"@, "high"@, "urgent"@],
                minimum: None,
                maximum: None,
                default_text: Some("normal"@),
                default_number: None,
                item_kind: None,
            },
        ],
        required: seq!["description"@],
        requires_approval: false,
        defer_loading: true,
    }
}

pub open spec fn add_subtask_tool_view() -> ToolView {
    ToolView {
        name: "task_add_subtask"@,
        description: "Add a subtask to an existing task. Returns the new task ID."@,
        properties: seq![
            ToolPropertyView {
                name: "parent_id"@,
                kind: "string"@,
                description: "ID of the parent task"@,
                allowed: seq![],
                minimum: None,
                maximum: None,
                default_text: None,
                default_number: None,
                item_kind: None,
            },
            ToolPropertyView {
                name: "description"@,
                kind: "string"@,
                description: "Description of the subtask"@,
                allowed: seq![],
                minimum: None,
                maximum: None,
                default_text: None,
                default_number: None,
                item_kind: None,
            },
        ],
        required: seq!["parent_id"@, "description"@],
        requires_approval: false,
        defer_loading: true,
    }
}

pub open spec fn start_task_tool_view() -> ToolView {
    ToolView {
        name: "task_start"@,
        description: "Mark a task as in progress"@,
        properties: seq![
            ToolPropertyView {
                name: "task_id"@,
                kind: "string"@,
                description: "ID of the task to start"@,
                allowed: seq![],
                minimum: None,
                maximum: None,
                default_text: None,
                default_number: None,
                item_kind: None,
            },
        ],
        required: seq!["task_id"@],
        requires_approval: false,
        defer_loading: true,
    }
}

pub open spec fn complete_task_tool_view() -> ToolView {
    ToolView {
        name: "task_complete"@,
        description: "Mark a task as completed with a summary"@,
        properties: seq![
            ToolPropertyView {
                name: "task_id"@,
                kind: "string"@,
                description: "ID of the task to complete"@,
                allowed: seq![],
                minimum: None,
                maximum: None,
                default_text: None,
                default_number: None,
                item_kind: None,
            },
            ToolPropertyView {
                name: "summary"@,
                kind: "string"@,
                description: "Summary of what was accomplished"@,
                allowed: seq![],
                minimum: None,
                maximum: None,
                default_text: None,
                default_number: None,
                item_kind: None,
            },
        ],
        required: seq!["task_id"@, "summary"@],
        requires_approval: false,
        defer_loading: true,
    }
}

pub open spec fn fail_task_tool_view() -> ToolView {
    ToolView {
        name: "task_fail"@,
        description: "Mark a task as failed with an error message"@,
        properties: seq![
            ToolPropertyView {
                name: "task_id"@,
                kind: "string"@,
                description: "ID of the task that failed"@,
                allowed: seq![],
                minimum: None,
                maximum: None,
                default_text: None,
                default_number: None,
                item_kind: None,
            },
            ToolPropertyView {
                name: "error"@,
                kind: "string"@,
                description: "Error message explaining the failure"@,
                allowed: seq![],
                minimum: None,
                maximum: None,
                default_text: None,
                default_number: None,
                item_kind: None,
            },
        ],
        required: seq!["task_id"@, "error"@],
        requires_approval: false,
        defer_loading: true,
    }
}

pub open spec fn add_dependency_tool_view() -> ToolView {
    ToolView {
        name: "task_add_dependency"@,
        description: "Add a dependency between tasks. The first task will be blocked until the second completes."@,
        properties: seq![
            ToolPropertyView {
                name: "task_id"@,
                kind: "string"@,
                description: "ID of the task that has the dependency"@,
                allowed: seq![],
                minimum: None,
                maximum: None,
                default_text: None,
                default_number: None,
                item_kind: None,
            },
            ToolPropertyView {
                name: "depends_on"@,
                kind: "string"@,
                description: "ID of the task that must complete first"@,
                allowed: seq![],
                minimum: None,
                maximum: None,
                default_text: None,
                default_number: None,
                item_kind: None,
            },
        ],
        required: seq!["task_id"@, "depends_on"@],
        requires_approval: false,
        defer_loading: true,
    }
}

pub open spec fn get_task_tree_tool_view() -> ToolView {
    ToolView {
        name: "task_get_tree"@,
        description: "Get the task tree as formatted text. Shows hierarchy with status indicators."@,
        properties: seq![
            ToolPropertyView {
                name: "root_id"@,
                kind: "string"@,
                description: "Optional root task ID to get subtree (omit for all tasks)"@,
                allowed: seq![],
                minimum: None,
                maximum: None,
                default_text: None,
                default_number: None,
                item_kind: None,
            },
        ],
        required: seq![],
        requires_approval: false,
        defer_loading: true,
    }
}

pub open spec fn get_ready_tasks_tool_view() -> ToolView {
    ToolView {
        name: "task_get_ready"@,
        description: "Get all tasks that are ready to execute (no incomplete dependencies)"@,
        properties: seq![
        ],
        required: seq![],
        requires_approval: false,
        defer_loading: true,
    }
}

pub open spec fn get_task_stats_tool_view() -> ToolView {
    ToolView {
        name: "task_get_stats"@,
        description: "Get summary statistics about all tasks"@,
        properties: seq![
        ],
        required: seq![],
        requires_approval: false,
        defer_loading: true,
    }
}

/// The task manager tools.
#[derive(Debug, Clone, Copy)]
pub struct TaskManagerTool;

impl TaskManagerTool {
    /// The definitions of the task manager tools.
    pub fn get_tools() -> (r: Vec<Tool>)
        ensures
            r@.map_values(|t: Tool| t@) == seq![create_task_tool_view(), add_subtask_tool_view(), start_task_tool_view(), complete_task_tool_view(), fail_task_tool_view(), add_dependency_tool_view(), get_task_tree_tool_view(), get_ready_tasks_tool_view(), get_task_stats_tool_view()],
    {
        let v = vec![
            Self::create_task_tool(),
            Self::add_subtask_tool(),
            Self::start_task_tool(),
            Self::complete_task_tool(),
            Self::fail_task_tool(),
            Self::add_dependency_tool(),
            Self::get_task_tree_tool(),
            Self::get_ready_tasks_tool(),
            Self::get_task_stats_tool(),
        ];
        assert(v@.map_values(|t: Tool| t@) =~= seq![create_task_tool_view(), add_subtask_tool_view(), start_task_tool_view(), complete_task_tool_view(), fail_task_tool_view(), add_dependency_tool_view(), get_task_tree_tool_view(), get_ready_tasks_tool_view(), get_task_stats_tool_view()]);
        v
    }

    /// The `task_create` tool.
    pub fn create_task_tool() -> (r: Tool)
        ensures
            r@ == create_task_tool_view(),
    {
        let p0 = ToolProperty {
            name: "description".to_string(),
            kind: "string".to_string(),
            description: "Description of the task to create".to_string(),
            allowed: Vec::new(),
            minimum: None,
            maximum: None,
            default_text: None,
            default_number: None,
            item_kind: None,
        };
        assert(strs_view(p0.allowed@) =~= seq![]);
        let p1 = ToolProperty {
            name: "parent_id".to_string(),
            kind: "string".to_string(),
            description: "Optional parent task ID to create a subtask".to_string(),
            allowed: Vec::new(),
            minimum: None,
            maximum: None,
            default_text: None,
            default_number: None,
            item_kind: None,
        };
        assert(strs_view(p1.allowed@) =~= seq![]);
        let p2 = ToolProperty {
            name: "priority".to_string(),
            kind: "string".to_string(),
            description: "Task priority (default: normal)".to_string(),
            allowed: vec!["low".to_string(), "normal".to_string(), "high".to_string(), "urgent".to_string()],
            minimum: None,
            maximum: None,
            default_text: Some("normal".to_string()),
            default_number: None,
            item_kind: None,
        };
        assert(strs_view(p2.allowed@) =~= seq!["low"@, "normal"@, "high"@, "urgent"@]);
        let t = Tool {
            name: "task_create".to_string(),
            description: "Create a new task. Returns the task ID. Use parent_id to create subtasks.".to_string(),
            properties: vec![p0, p1, p2],
            required: vec!["description".to_string()],
            requires_approval: false,
            defer_loading: true,
        };
        assert(t@.properties =~= create_task_tool_view().properties);
        assert(t@.required =~= create_task_tool_view().required);
        t
    }

    /// The `task_add_subtask` tool.
    pub fn add_subtask_tool() -> (r: Tool)
        ensures
            r@ == add_subtask_tool_view(),
    {
        let p0 = ToolProperty {
            name: "parent_id".to_string(),
            kind: "string".to_string(),
            description: "ID of the parent task".to_string(),
            allowed: Vec::new(),
            minimum: None,
            maximum: None,
            default_text: None,
            default_number: None,
            item_kind: None,
        };
        assert(strs_view(p0.allowed@) =~= seq![]);
        let p1 = ToolProperty {
            name: "description".to_string(),
            kind: "string".to_string(),
            description: "Description of the subtask".to_string(),
            allowed: Vec::new(),
            minimum: None,
            maximum: None,
            default_text: None,
            default_number: None,
            item_kind: None,
        };
        assert(strs_view(p1.allowed@) =~= seq![]);
        let t = Tool {
            name: "task_add_subtask".to_string(),
            description: "Add a subtask to an existing task. Returns the new task ID.".to_string(),
            properties: vec![p0, p1],
            required: vec!["parent_id".to_string(), "description".to_string()],
            requires_approval: false,
            defer_loading: true,
        };
        assert(t@.properties =~= add_subtask_tool_view().properties);
        assert(t@.required =~= add_subtask_tool_view().required);
        t
    }

    /// The `task_start` tool.
    pub fn start_task_tool() -> (r: Tool)
        ensures
            r@ == start_task_tool_view(),
    {
        let p0 = ToolProperty {
            name: "task_id".to_string(),
            kind: "string".to_string(),
            description: "ID of the task to start".to_string(),
            allowed: Vec::new(),
            minimum: None,
            maximum: None,
            default_text: None,
            default_number: None,
            item_kind: None,
        };
        assert(strs_view(p0.allowed@) =~= seq![]);
        let t = Tool {
            name: "task_start".to_string(),
            description: "Mark a task as in progress".to_string(),
            properties: vec![p0],
            required: vec!["task_id".to_string()],
            requires_approval: false,
            defer_loading: true,
        };
        assert(t@.properties =~= start_task_tool_view().properties);
        assert(t@.required =~= start_task_tool_view().required);
        t
    }

    /// The `task_complete` tool.
    pub fn complete_task_tool() -> (r: Tool)
        ensures
            r@ == complete_task_tool_view(),
    {
        let p0 = ToolProperty {
            name: "task_id".to_string(),
            kind: "string".to_string(),
            description: "ID of the task to complete".to_string(),
            allowed: Vec::new(),
            minimum: None,
            maximum: None,
            default_text: None,
            default_number: None,
            item_kind: None,
        };
        assert(strs_view(p0.allowed@) =~= seq![]);
        let p1 = ToolProperty {
            name: "summary".to_string(),
            kind: "string".to_string(),
            description: "Summary of what was accomplished".to_string(),
            allowed: Vec::new(),
            minimum: None,
            maximum: None,
            default_text: None,
            default_number: None,
            item_kind: None,
        };
        assert(strs_view(p1.allowed@) =~= seq![]);
        let t = Tool {
            name: "task_complete".to_string(),
            description: "Mark a task as completed with a summary".to_string(),
            properties: vec![p0, p1],
            required: vec!["task_id".to_string(), "summary".to_string()],
            requires_approval: false,
            defer_loading: true,
        };
        assert(t@.properties =~= complete_task_tool_view().properties);
        assert(t@.required =~= complete_task_tool_view().required);
        t
    }

    /// The `task_fail` tool.
    pub fn fail_task_tool() -> (r: Tool)
        ensures
            r@ == fail_task_tool_view(),
    {
        let p0 = ToolProperty {
            name: "task_id".to_string(),
            kind: "string".to_string(),
            description: "ID of the task that failed".to_string(),
            allowed: Vec::new(),
            minimum: None,
            maximum: None,
            default_text: None,
            default_number: None,
            item_kind: None,
        };
        assert(strs_view(p0.allowed@) =~= seq![]);
        let p1 = ToolProperty {
            name: "error".to_string(),
            kind: "string".to_string(),
            description: "Error message explaining the failure".to_string(),
            allowed: Vec::new(),
            minimum: None,
            maximum: None,
            default_text: None,
            default_number: None,
            item_kind: None,
        };
        assert(strs_view(p1.allowed@) =~= seq![]);
        let t = Tool {
            name: "task_fail".to_string(),
            description: "Mark a task as failed with an error message".to_string(),
            properties: vec![p0, p1],
            required: vec!["task_id".to_string(), "error".to_string()],
            requires_approval: false,
            defer_loading: true,
        };
        assert(t@.properties =~= fail_task_tool_view().properties);
        assert(t@.required =~= fail_task_tool_view().required);
        t
    }

    /// The `task_add_dependency` tool.
    pub fn add_dependency_tool() -> (r: Tool)
        ensures
            r@ == add_dependency_tool_view(),
    {
        let p0 = ToolProperty {
            name: "task_id".to_string(),
            kind: "string".to_string(),
            description: "ID of the task that has the dependency".to_string(),
            allowed: Vec::new(),
            minimum: None,
            maximum: None,
            default_text: None,
            default_number: None,
            item_kind: None,
        };
        assert(strs_view(p0.allowed@) =~= seq![]);
        let p1 = ToolProperty {
            name: "depends_on".to_string(),
            kind: "string".to_string(),
            description: "ID of the task that must complete first".to_string(),
            allowed: Vec::new(),
            minimum: None,
            maximum: None,
            default_text: None,
            default_number: None,
            item_kind: None,
        };
        assert(strs_view(p1.allowed@) =~= seq![]);
        let t = Tool {
            name: "task_add_dependency".to_string(),
            description: "Add a dependency between tasks. The first task will be blocked until the second completes.".to_string(),
            properties: vec![p0, p1],
            required: vec!["task_id".to_string(), "depends_on".to_string()],
            requires_approval: false,
            defer_loading: true,
        };
        assert(t@.properties =~= add_dependency_tool_view().properties);
        assert(t@.required =~= add_dependency_tool_view().required);
        t
    }

    /// The `task_get_tree` tool.
    pub fn get_task_tree_tool() -> (r: Tool)
        ensures
            r@ == get_task_tree_tool_view(),
    {
        let p0 = ToolProperty {
            name: "root_id".to_string(),
            kind: "string".to_string(),
            description: "Optional root task ID to get subtree (omit for all tasks)".to_string(),
            allowed: Vec::new(),
            minimum: None,
            maximum: None,
            default_text: None,
            default_number: None,
            item_kind: None,
        };
        assert(strs_view(p0.allowed@) =~= seq![]);
        let t = Tool {
            name: "task_get_tree".to_string(),
            description: "Get the task tree as formatted text. Shows hierarchy with status indicators.".to_string(),
            properties: vec![p0],
            required: Vec::new(),
            requires_approval: false,
            defer_loading: true,
        };
        assert(t@.properties =~= get_task_tree_tool_view().properties);
        assert(t@.required =~= get_task_tree_tool_view().required);
        t
    }

    /// The `task_get_ready` tool.
    pub fn get_ready_tasks_tool() -> (r: Tool)
        ensures
            r@ == get_ready_tasks_tool_view(),
    {

        let t = Tool {
            name: "task_get_ready".to_string(),
            description: "Get all tasks that are ready to execute (no incomplete dependencies)".to_string(),
            properties: vec![],
            required: Vec::new(),
            requires_approval: false,
            defer_loading: true,
        };
        assert(t@.properties =~= get_ready_tasks_tool_view().properties);
        assert(t@.required =~= get_ready_tasks_tool_view().required);
        t
    }

    /// The `task_get_stats` tool.
    pub fn get_task_stats_tool() -> (r: Tool)
        ensures
            r@ == get_task_stats_tool_view(),
    {

        let t = Tool {
            name: "task_get_stats".to_string(),
            description: "Get summary statistics about all tasks".to_string(),
            properties: vec![],
            required: Vec::new(),
            requires_approval: false,
            defer_loading: true,
        };
        assert(t@.properties =~= get_task_stats_tool_view().properties);
        assert(t@.required =~= get_task_stats_tool_view().required);
        t
    }
}

} // verus!

verus! {

// ---------------------------------------------------------------------------
// Priorities
// ---------------------------------------------------------------------------

/// How urgent a task is.
#[derive(Debug, Clone, Copy, PartialEq, Eq, Structural)]
pub enum TaskPriority {
    Low,
    Normal,
    High,
    Urgent,
}

/// The priority a `priority` argument names, ignoring case; anything else
/// is normal.
pub open spec fn priority_spec(s: Seq<char>) -> TaskPriority {
    let l = lowercase(s);
    if l == "low"@ {
        TaskPriority::Low
    } else if l == "normal"@ {
        TaskPriority::Normal
    } else if l == "high"@ {
        TaskPriority::High
    } else if l == "urgent"@ {
        TaskPriority::Urgent
    } else {
        TaskPriority::Normal
    }
}

/// Reads a `priority` argument.
pub fn parse_priority(s: &str) -> (r: TaskPriority)
    ensures
        r == priority_spec(s@),
{
    let l = to_lowercase(s);
    if str_eq(l.as_str(), "low") {
        TaskPriority::Low
    } else if str_eq(l.as_str(), "normal") {
        TaskPriority::Normal
    } else if str_eq(l.as_str(), "high") {
        TaskPriority::High
    } else if str_eq(l.as_str(), "urgent") {
        TaskPriority::Urgent
    } else {
        TaskPriority::Normal
    }
}

impl TaskPriority {
    pub open spec fn name_spec(self) -> Seq<char> {
        match self {
            TaskPriority::Low => "Low"@,
            TaskPriority::Normal => "Normal"@,
            TaskPriority::High => "High"@,
            TaskPriority::Urgent => "Urgent"@,
        }
    }

    /// The priority's name, as listed in replies.
    pub fn name(&self) -> (r: &'static str)
        ensures
            r@ == self.name_spec(),
    {
        match self {
            TaskPriority::Low => "Low",
            TaskPriority::Normal => "Normal",
            TaskPriority::High => "High",
            TaskPriority::Urgent => "Urgent",
        }
    }
}

// ---------------------------------------------------------------------------
// Which tool a call names
// ---------------------------------------------------------------------------

/// A task manager tool.
#[derive(Debug, Clone, Copy, PartialEq, Eq, Structural)]
pub enum TaskCommand {
    Create,
    AddSubtask,
    Start,
    Complete,
    Fail,
    AddDependency,
    GetTree,
    GetReady,
    GetStats,
}

/// The tool a name picks, or the error for an unknown name.
pub open spec fn task_command_spec(name: Seq<char>) -> Result<TaskCommand, Seq<char>> {
    if name == "task_create"@ {
        Ok(TaskCommand::Create)
    } else if name == "task_add_subtask"@ {
        Ok(TaskCommand::AddSubtask)
    } else if name == "task_start"@ {
        Ok(TaskCommand::Start)
    } else if name == "task_complete"@ {
        Ok(TaskCommand::Complete)
    } else if name == "task_fail"@ {
        Ok(TaskCommand::Fail)
    } else if name == "task_add_dependency"@ {
        Ok(TaskCommand::AddDependency)
    } else if name == "task_get_tree"@ {
        Ok(TaskCommand::GetTree)
    } else if name == "task_get_ready"@ {
        Ok(TaskCommand::GetReady)
    } else if name == "task_get_stats"@ {
        Ok(TaskCommand::GetStats)
    } else {
        Err("Unknown task manager tool: "@ + name)
    }
}

/// Picks the tool a call names, or the error it is answered with.
pub fn task_command(name: &str) -> (r: Result<TaskCommand, String>)
    ensures
        match (r, task_command_spec(name@)) {
            (Ok(c), Ok(d)) => c == d,
            (Err(e), Err(f)) => e@ == f,
            _ => false,
        },
{
    if str_eq(name, "task_create") {
        Ok(TaskCommand::Create)
    } else if str_eq(name, "task_add_subtask") {
        Ok(TaskCommand::AddSubtask)
    } else if str_eq(name, "task_start") {
        Ok(TaskCommand::Start)
    } else if str_eq(name, "task_complete") {
        Ok(TaskCommand::Complete)
    } else if str_eq(name, "task_fail") {
        Ok(TaskCommand::Fail)
    } else if str_eq(name, "task_add_dependency") {
        Ok(TaskCommand::AddDependency)
    } else if str_eq(name, "task_get_tree") {
        Ok(TaskCommand::GetTree)
    } else if str_eq(name, "task_get_ready") {
        Ok(TaskCommand::GetReady)
    } else if str_eq(name, "task_get_stats") {
        Ok(TaskCommand::GetStats)
    } else {
        let mut m = "Unknown task manager tool: ".to_string();
        push_str(&mut m, name);
        Err(m)
    }
}

} // verus!

verus! {

// ---------------------------------------------------------------------------
// Replies
// ---------------------------------------------------------------------------

/// `Created task '<description>' with ID: <id>`.
pub fn created_reply(description: &str, task_id: &str) -> (r: String)
    ensures
        r@ == "Created task '"@ + description@ + "' with ID: "@ + task_id@,
{
    let mut s = "Created task '".to_string();
    push_str(&mut s, description);
    push_str(&mut s, "' with ID: ");
    push_str(&mut s, task_id);
    s
}

/// `Created subtask '<description>' with ID: <id> under parent <parent>`.
pub fn subtask_reply(description: &str, task_id: &str, parent_id: &str) -> (r: String)
    ensures
        r@ == "Created subtask '"@ + description@ + "' with ID: "@ + task_id@ + " under parent "@
            + parent_id@,
{
    let mut s = "Created subtask '".to_string();
    push_str(&mut s, description);
    push_str(&mut s, "' with ID: ");
    push_str(&mut s, task_id);
    push_str(&mut s, " under parent ");
    push_str(&mut s, parent_id);
    s
}

/// `Started task <id>`.
pub fn started_reply(task_id: &str) -> (r: String)
    ensures
        r@ == "Started task "@ + task_id@,
{
    let mut s = "Started task ".to_string();
    push_str(&mut s, task_id);
    s
}

/// `Completed task <id>: <summary>`.
pub fn completed_reply(task_id: &str, summary: &str) -> (r: String)
    ensures
        r@ == "Completed task "@ + task_id@ + ": "@ + summary@,
{
    let mut s = "Completed task ".to_string();
    push_str(&mut s, task_id);
    push_str(&mut s, ": ");
    push_str(&mut s, summary);
    s
}

/// `Failed task <id>: <error>`.
pub fn failed_reply(task_id: &str, error: &str) -> (r: String)
    ensures
        r@ == "Failed task "@ + task_id@ + ": "@ + error@,
{
    let mut s = "Failed task ".to_string();
    push_str(&mut s, task_id);
    push_str(&mut s, ": ");
    push_str(&mut s, error);
    s
}

/// `Added dependency: <id> depends on <other>`.
pub fn dependency_reply(task_id: &str, depends_on: &str) -> (r: String)
    ensures
        r@ == "Added dependency: "@ + task_id@ + " depends on "@ + depends_on@,
{
    let mut s = "Added dependency: ".to_string();
    push_str(&mut s, task_id);
    push_str(&mut s, " depends on ");
    push_str(&mut s, depends_on);
    s
}

/// The reply for a subtree that holds no task.
pub fn empty_subtree_reply(root_id: &str) -> (r: String)
    ensures
        r@ == "No tasks found under "@ + root_id@,
{
    let mut s = "No tasks found under ".to_string();
    push_str(&mut s, root_id);
    s
}

/// A task ready to run: id, description, priority.
pub type ReadyTask = (String, String, TaskPriority);

/// The line listing a ready task.
pub open spec fn ready_line(t: (Seq<char>, Seq<char>, TaskPriority)) -> Seq<char> {
    "- ["@ + t.0 + "] "@ + t.1 + " (priority: "@ + t.2.name_spec() + ")\n"@
}

/// The lines listing ready tasks, in order.
pub open spec fn ready_lines(ts: Seq<(Seq<char>, Seq<char>, TaskPriority)>) -> Seq<char>
    decreases ts.len(),
{
    if ts.len() == 0 {
        seq![]
    } else {
        ready_lines(ts.drop_last()) + ready_line(ts.last())
    }
}

pub open spec fn ready_view(ts: Seq<ReadyTask>) -> Seq<(Seq<char>, Seq<char>, TaskPriority)> {
    ts.map_values(|t: ReadyTask| (t.0@, t.1@, t.2))
}

/// The reply listing the tasks ready to run: a count line and one line per
/// task, or a note that none is ready.
pub open spec fn ready_reply_spec(ts: Seq<(Seq<char>, Seq<char>, TaskPriority)>) -> Seq<char> {
    if ts.len() == 0 {
        "No tasks ready to execute"@
    } else {
        decimal(ts.len()) + " tasks ready:\n"@ + ready_lines(ts)
    }
}

/// Lists the tasks ready to run.
pub fn ready_reply(tasks: &[ReadyTask]) -> (r: String)
    ensures
        r@ == ready_reply_spec(ready_view(tasks@)),
{
    let ghost tv = ready_view(tasks@);
    if tasks.len() == 0 {
        return "No tasks ready to execute".to_string();
    }
    let mut s = usize_to_string(tasks.len());
    push_str(&mut s, " tasks ready:\n");
    let ghost head = s@;
    let mut i: usize = 0;
    assert(tv.take(0) =~= seq![]);
    while i < tasks.len()
        invariant
            i <= tasks@.len(),
            tv == ready_view(tasks@),
            s@ == head + ready_lines(tv.take(i as int)),
        decreases tasks@.len() - i,
    {
        assert(tv.take(i + 1).drop_last() =~= tv.take(i as int));
        push_str(&mut s, "- [");
        push_str(&mut s, tasks[i].0.as_str());
        push_str(&mut s, "] ");
        push_str(&mut s, tasks[i].1.as_str());
        push_str(&mut s, " (priority: ");
        push_str(&mut s, tasks[i].2.name());
        push_str(&mut s, ")\n");
        assert(s@ =~= head + ready_lines(tv.take(i + 1)));
        i = i + 1;
    }
    assert(tv.take(tasks@.len() as int) =~= tv);
    s
}

/// The reply with the task counts.
pub open spec fn stats_reply_spec(
    total: nat,
    pending: nat,
    in_progress: nat,
    completed: nat,
    failed: nat,
    blocked: nat,
) -> Seq<char> {
    "Task Statistics:\nTotal: "@ + decimal(total) + "\nPending: "@ + decimal(pending)
        + "\nIn Progress: "@ + decimal(in_progress) + "\nCompleted: "@ + decimal(completed)
        + "\nFailed: "@ + decimal(failed) + "\nBlocked: "@ + decimal(blocked)
}

/// Reports the task counts.
pub fn stats_reply(
    total: usize,
    pending: usize,
    in_progress: usize,
    completed: usize,
    failed: usize,
    blocked: usize,
) -> (r: String)
    ensures
        r@ == stats_reply_spec(
            total as nat,
            pending as nat,
            in_progress as nat,
            completed as nat,
            failed as nat,
            blocked as nat,
        ),
{
    let mut s = "Task Statistics:\nTotal: ".to_string();
    push_str(&mut s, usize_to_string(total).as_str());
    push_str(&mut s, "\nPending: ");
    push_str(&mut s, usize_to_string(pending).as_str());
    push_str(&mut s, "\nIn Progress: ");
    push_str(&mut s, usize_to_string(in_progress).as_str());
    push_str(&mut s, "\nCompleted: ");
    push_str(&mut s, usize_to_string(completed).as_str());
    push_str(&mut s, "\nFailed: ");
    push_str(&mut s, usize_to_string(failed).as_str());
    push_str(&mut s, "\nBlocked: ");
    push_str(&mut s, usize_to_string(blocked).as_str());
    s
}

/// The error reply for a failed operation.
pub fn task_failure_reply(error: &str) -> (r: String)
    ensures
        r@ == "Task operation failed: "@ + error@,
{
    let mut s = "Task operation failed: ".to_string();
    push_str(&mut s, error);
    s
}

} // verus!
