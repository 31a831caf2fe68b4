//! Tool definitions offered to the model: name, description and the
//! parameters of the JSON input schema.
use vstd::prelude::*;
use crate::text::strs_view;

verus! {

/// One parameter of a tool's input schema.
#[derive(Debug, Clone)]
pub struct ToolProperty {
    /// Parameter name
    pub name: String,
    /// JSON type (`"string"`, `"integer"`, `"boolean"`, ...)
    pub kind: String,
    /// What the parameter means
    pub description: String,
    /// Allowed values, when the parameter is an enumeration
    pub allowed: Vec<String>,
    /// Least value, for a number
    pub minimum: Option<u64>,
    /// Greatest value, for a number
    pub maximum: Option<u64>,
    /// The default value, for a string
    pub default_text: Option<String>,
    /// The default value, for a number
    pub default_number: Option<u64>,
    /// The JSON type of the items, for an array
    pub item_kind: Option<String>,
}

/// The abstract value of a [`ToolProperty`].
pub struct ToolPropertyView {
    pub name: Seq<char>,
    pub kind: Seq<char>,
    pub description: Seq<char>,
    pub allowed: Seq<Seq<char>>,
    pub minimum: Option<u64>,
    pub maximum: Option<u64>,
    pub default_text: Option<Seq<char>>,
    pub default_number: Option<u64>,
    pub item_kind: Option<Seq<char>>,
}

impl View for ToolProperty {
    type V = ToolPropertyView;

    open spec fn view(&self) -> ToolPropertyView {
        ToolPropertyView {
            name: self.name@,
            kind: self.kind@,
            description: self.description@,
            allowed: strs_view(self.allowed@),
            minimum: self.minimum,
            maximum: self.maximum,
            default_text: match self.default_text {
                Some(d) => Some(d@),
                None => None,
            },
            default_number: self.default_number,
            item_kind: match self.item_kind {
                Some(d) => Some(d@),
                None => None,
            },
        }
    }
}

/// A tool definition.
#[derive(Debug, Clone)]
pub struct Tool {
    pub name: String,
    pub description: String,
    /// The parameters of the object the tool takes
    pub properties: Vec<ToolProperty>,
    /// Names of the required parameters
    pub required: Vec<String>,
    /// Whether a call needs the user's approval
    pub requires_approval: bool,
    /// Whether the definition is loaded only on demand
    pub defer_loading: bool,
}

/// The abstract value of a [`Tool`].
pub struct ToolView {
    pub name: Seq<char>,
    pub description: Seq<char>,
    pub properties: Seq<ToolPropertyView>,
    pub required: Seq<Seq<char>>,
    pub requires_approval: bool,
    pub defer_loading: bool,
}

impl View for Tool {
    type V = ToolView;

    open spec fn view(&self) -> ToolView {
        ToolView {
            name: self.name@,
            description: self.description@,
            properties: self.properties@.map_values(|p: ToolProperty| p@),
            required: strs_view(self.required@),
            requires_approval: self.requires_approval,
            defer_loading: self.defer_loading,
        }
    }
}

/// A string parameter.
pub fn string_property(name: &str, description: &str) -> (r: ToolProperty)
    ensures
        r@ == (ToolPropertyView {
            name: name@,
            kind: "string"@,
            description: description@,
            allowed: seq![],
            minimum: None,
            maximum: None,
            default_text: None,
            default_number: None,
            item_kind: None,
        }),
{
    let p = ToolProperty {
        name: name.to_string(),
        kind: "string".to_string(),
        description: description.to_string(),
        allowed: Vec::new(),
        minimum: None,
        maximum: None,
        default_text: None,
        default_number: None,
        item_kind: None,
    };
    assert(strs_view(p.allowed@) =~= seq![]);
    p
}

/// A number parameter with optional bounds.
pub fn integer_property(name: &str, description: &str, minimum: Option<u64>, maximum: Option<u64>) -> (r: ToolProperty)
    ensures
        r@ == (ToolPropertyView {
            name: name@,
            kind: "integer"@,
            description: description@,
            allowed: seq![],
            minimum,
            maximum,
            default_text: None,
            default_number: None,
            item_kind: None,
        }),
{
    let p = ToolProperty {
        name: name.to_string(),
        kind: "integer".to_string(),
        description: description.to_string(),
        allowed: Vec::new(),
        minimum,
        maximum,
        default_text: None,
        default_number: None,
        item_kind: None,
    };
    assert(strs_view(p.allowed@) =~= seq![]);
    p
}

} // verus!

verus! {

pub(crate) fn clone_strings(v: &Vec<String>) -> (r: Vec<String>)
    ensures
        r@ == v@,
{
    let mut out: Vec<String> = Vec::new();
    let mut i: usize = 0;
    while i < v.len()
        invariant
            i <= v@.len(),
            out@ == v@.take(i as int),
        decreases v@.len() - i,
    {
        out.push(v[i].clone());
        assert(out@ =~= v@.take(i + 1));
        i = i + 1;
    }
    assert(v@.take(v@.len() as int) =~= v@);
    out
}

impl ToolProperty {
    /// A copy of the property.
    pub fn clone_property(&self) -> (r: ToolProperty)
        ensures
            r@ == self@,
    {
        ToolProperty {
            name: self.name.clone(),
            kind: self.kind.clone(),
            description: self.description.clone(),
            allowed: clone_strings(&self.allowed),
            minimum: self.minimum,
            maximum: self.maximum,
            default_text: match &self.default_text {
                Some(d) => Some(d.clone()),
                None => None,
            },
            default_number: self.default_number,
            item_kind: match &self.item_kind {
                Some(d) => Some(d.clone()),
                None => None,
            },
        }
    }
}

impl Tool {
    /// A copy of the definition.
    pub fn clone_tool(&self) -> (r: Tool)
        ensures
            r@ == self@,
    {
        let mut props: Vec<ToolProperty> = Vec::new();
        let mut i: usize = 0;
        while i < self.properties.len()
            invariant
                i <= self.properties@.len(),
                props@.len() == i,
                forall|j: int| 0 <= j < i ==> (#[trigger] props@[j])@ == self.properties@[j]@,
            decreases self.properties@.len() - i,
        {
            props.push(self.properties[i].clone_property());
            i = i + 1;
        }
        let r = Tool {
            name: self.name.clone(),
            description: self.description.clone(),
            properties: props,
            required: clone_strings(&self.required),
            requires_approval: self.requires_approval,
            defer_loading: self.defer_loading,
        };
        assert(r@.properties =~= self@.properties);
        r
    }
}

} // verus!
