//! The `ask_user_question` tool: its definition, how the question is put
//! to the user, and the answer it returns. Asking (in the terminal UI or
//! on the console) happens at the edge.
use vstd::prelude::*;
use crate::text::{push_str, strs_view};
use crate::tool::{Tool, ToolProperty, ToolPropertyView, ToolView};

verus! {

broadcast use vstd::string::group_string_axioms;

pub open spec fn ask_tool_view() -> ToolView {
    ToolView {
        name: "ask_user_question"@,
        description: "Pause and ask the user a question. Returns `{answer}` for free-text or single-select, `{selected}` for multi-select, or `{cancelled}` if the user declined. Prefer this over rephrasing as text — a structured prompt is more reliable."@,
        properties: seq![
            ToolPropertyView {
                name: "question"@,
                kind: "string"@,
                description: "The question to ask the user. Keep it short — one sentence is usually enough."@,
                allowed: seq![],
                minimum: None,
                maximum: None,
                default_text: None,
                default_number: None,
                item_kind: None,
            },
            ToolPropertyView {
                name: "options"@,
                kind: "array"@,
                description: "Optional choices. When provided, the user picks from this list instead of typing free text."@,
                allowed: seq![],
                minimum: None,
                maximum: None,
                default_text: None,
                default_number: None,
                item_kind: Some("string"@),
            },
            ToolPropertyView {
                name: "multi_select"@,
                kind: "boolean"@,
                description: "When true and `options` is non-empty, the user may choose multiple answers. Defaults to false."@,
                allowed: seq![],
                minimum: None,
                maximum: None,
                default_text: None,
                default_number: None,
                item_kind: None,
            },
        ],
        required: seq!["question"@],
        requires_approval: false,
        defer_loading: false,
    }
}

/// The question tool.
#[derive(Debug, Clone, Copy)]
pub struct AskUserQuestionTool;

impl AskUserQuestionTool {
    /// The tool's definition, alone in a list.
    pub fn get_tools() -> (r: Vec<Tool>)
        ensures
            r@.map_values(|t: Tool| t@) == seq![ask_tool_view()],
    {
        let v = vec![Self::tool_def()];
        assert(v@.map_values(|t: Tool| t@) =~= seq![ask_tool_view()]);
        v
    }

    /// The `ask_user_question` tool.
    pub fn tool_def() -> (r: Tool)
        ensures
            r@ == ask_tool_view(),
    {
        let p0 = ToolProperty {
            name: "question".to_string(),
            kind: "string".to_string(),
            description: "The question to ask the user. Keep it short — one sentence is usually enough.".to_string(),
            allowed: Vec::new(),
            minimum: None,
            maximum: None,
            default_text: None,
            default_number: None,
            item_kind: None,
        };
        assert(strs_view(p0.allowed@) =~= seq![]);
        let p1 = ToolProperty {
            name: "options".to_string(),
            kind: "array".to_string(),
            description: "Optional choices. When provided, the user picks from this list instead of typing free text.".to_string(),
            allowed: Vec::new(),
            minimum: None,
            maximum: None,
            default_text: None,
            default_number: None,
            item_kind: Some("string".to_string()),
        };
        assert(strs_view(p1.allowed@) =~= seq![]);
        let p2 = ToolProperty {
            name: "multi_select".to_string(),
            kind: "boolean".to_string(),
            description: "When true and `options` is non-empty, the user may choose multiple answers. Defaults to false.".to_string(),
            allowed: Vec::new(),
            minimum: None,
            maximum: None,
            default_text: None,
            default_number: None,
            item_kind: None,
        };
        assert(strs_view(p2.allowed@) =~= seq![]);
        let t = Tool {
            name: "ask_user_question".to_string(),
            description: "Pause and ask the user a question. Returns `{answer}` for free-text or single-select, `{selected}` for multi-select, or `{cancelled}` if the user declined. Prefer this over rephrasing as text — a structured prompt is more reliable.".to_string(),
            properties: vec![p0, p1, p2],
            required: vec!["question".to_string()],
            requires_approval: false,
            defer_loading: false,
        };
        assert(t@.properties =~= ask_tool_view().properties);
        assert(t@.required =~= ask_tool_view().required);
        t
    }
}

} // verus!

verus! {

/// How the question is put to the user on the console.
#[derive(Debug, Clone, Copy, PartialEq, Eq, Structural)]
pub enum PromptKind {
    /// Type an answer (no choices given)
    FreeText,
    /// Pick any number of the choices
    MultiChoice,
    /// Pick one of the choices
    SingleChoice,
}

/// Free text without choices; several choices when asked for; else one.
pub open spec fn prompt_kind_spec(option_count: nat, multi_select: bool) -> PromptKind {
    if option_count == 0 {
        PromptKind::FreeText
    } else if multi_select {
        PromptKind::MultiChoice
    } else {
        PromptKind::SingleChoice
    }
}

/// How the question is put to the user on the console.
pub fn prompt_kind(options: &[String], multi_select: bool) -> (r: PromptKind)
    ensures
        r == prompt_kind_spec(options@.len(), multi_select),
{
    if options.len() == 0 {
        PromptKind::FreeText
    } else if multi_select {
        PromptKind::MultiChoice
    } else {
        PromptKind::SingleChoice
    }
}

/// Whether the terminal UI lets the user pick several answers: only when
/// asked for and there are choices.
pub fn ui_multi_select(options: &[String], multi_select: bool) -> (r: bool)
    ensures
        r == (multi_select && options@.len() > 0),
{
    multi_select && options.len() > 0
}

/// The choices the user picked, in the order of the picks.
pub fn picked_options(options: &[String], picks: &[usize]) -> (r: Vec<String>)
    requires
        forall|i: int| 0 <= i < picks@.len() ==> (#[trigger] picks@[i]) < options@.len(),
    ensures
        strs_view(r@) == picks@.map_values(|i: usize| options@[i as int]@),
{
    let mut out: Vec<String> = Vec::new();
    let mut k: usize = 0;
    while k < picks.len()
        invariant
            k <= picks@.len(),
            forall|i: int| 0 <= i < picks@.len() ==> (#[trigger] picks@[i]) < options@.len(),
            out@.len() == k,
            forall|j: int| 0 <= j < k ==> (#[trigger] out@[j])@ == options@[picks@[j] as int]@,
        decreases picks@.len() - k,
    {
        let s = options[picks[k]].clone();
        out.push(s);
        k = k + 1;
    }
    assert(strs_view(out@) =~= picks@.map_values(|i: usize| options@[i as int]@));
    out
}

/// The user's answer.
#[derive(Debug, Clone, PartialEq, Eq)]
pub enum QuestionResponse {
    /// A typed answer, or the one choice picked
    Answer(String),
    /// The choices picked
    Selected(Vec<String>),
    /// The user declined, or no one could be asked
    Cancelled,
}

/// The error reply for arguments that could not be read.
pub fn invalid_input_message(error: &str) -> (r: String)
    ensures
        r@ == "invalid ask_user_question input: "@ + error@,
{
    let mut s = "invalid ask_user_question input: ".to_string();
    push_str(&mut s, error);
    s
}

} // verus!
