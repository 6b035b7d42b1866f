//! Actions, namespaces of actions, their storage requirements, and the
//! registry that resolves an action name against the enabled namespaces.
use vstd::prelude::*;
use vstd::string::*;

verus! {

/// The update-retention policy of a named key/value store.
#[derive(Clone, Copy, Debug, PartialEq, Eq, Default)]
pub enum StorageType {
    #[default]
    Untagged,
    Tagged,
    CurrentPrevious,
    Completion,
    Time,
}

/// A storage that a namespace needs, with optional predefined contents.
#[derive(Debug, Default)]
pub struct StorageDescriptor {
    pub name: String,
    pub type_: StorageType,
    pub predefined: Option<std::collections::HashMap<String, String>>,
}

impl StorageDescriptor {
    fn of_type(name: &str, type_: StorageType) -> (r: Self)
        ensures
            r.name@ == name@,
            r.type_ == type_,
            r.predefined is None,
    {
        StorageDescriptor { name: String::from_str(name), type_, predefined: None }
    }

    pub fn tagged(name: &str) -> (r: Self)
        ensures
            r.name@ == name@,
            r.type_ == StorageType::Tagged,
            r.predefined is None,
    {
        Self::of_type(name, StorageType::Tagged)
    }

    pub fn untagged(name: &str) -> (r: Self)
        ensures
            r.name@ == name@,
            r.type_ == StorageType::Untagged,
            r.predefined is None,
    {
        Self::of_type(name, StorageType::Untagged)
    }

    pub fn previous_current(name: &str) -> (r: Self)
        ensures
            r.name@ == name@,
            r.type_ == StorageType::CurrentPrevious,
            r.predefined is None,
    {
        Self::of_type(name, StorageType::CurrentPrevious)
    }

    pub fn completion(name: &str) -> (r: Self)
        ensures
            r.name@ == name@,
            r.type_ == StorageType::Completion,
            r.predefined is None,
    {
        Self::of_type(name, StorageType::Completion)
    }

    pub fn time(name: &str) -> (r: Self)
        ensures
            r.name@ == name@,
            r.type_ == StorageType::Time,
            r.predefined is None,
    {
        Self::of_type(name, StorageType::Time)
    }

    /// The same descriptor, seeded with `what`.
    pub fn predefine(self, what: std::collections::HashMap<String, String>) -> (r: Self)
        ensures
            r.name == self.name,
            r.type_ == self.type_,
            r.predefined == Some(what),
    {
        StorageDescriptor { name: self.name, type_: self.type_, predefined: Some(what) }
    }
}

/// Textual or visual result of an action.
#[derive(Debug, Clone, PartialEq)]
pub enum ActionOutput {
    Text(String),
    Image { data: String, mime_type: String },
}

impl ActionOutput {
    pub fn text(text: String) -> (r: Self)
        ensures
            r == ActionOutput::Text(text),
    {
        ActionOutput::Text(text)
    }

    pub fn image(data: String, mime_type: String) -> (r: Self)
        ensures
            r == (ActionOutput::Image { data, mime_type }),
    {
        ActionOutput::Image { data, mime_type }
    }
}

impl From<String> for ActionOutput {
    fn from(text: String) -> (r: ActionOutput) {
        ActionOutput::Text(text)
    }
}

impl vstd::std_specs::convert::FromSpecImpl<String> for ActionOutput {
    open spec fn obeys_from_spec() -> bool {
        true
    }

    open spec fn from_spec(text: String) -> ActionOutput {
        ActionOutput::Text(text)
    }
}

/// The text of an action output as shown to the model.
pub open spec fn output_text(o: ActionOutput) -> Seq<char> {
    match o {
        ActionOutput::Text(t) => t@,
        ActionOutput::Image { data, mime_type } => "image: "@ + data@ + " ("@ + mime_type@ + ")"@,
    }
}

impl ActionOutput {
    /// The text of this output: the text itself, or `image: <data> (<mime type>)`.
    pub fn to_display_string(&self) -> (r: String)
        ensures
            r@ == output_text(*self),
    {
        match self {
            ActionOutput::Text(t) => t.clone(),
            ActionOutput::Image { data, mime_type } => {
                let mut s = String::from_str("image: ");
                s.append(data.as_str());
                s.append(" (");
                s.append(mime_type.as_str());
                s.append(")");
                s
            },
        }
    }
}

/// What the dispatch engine and the schema synthesis know of an action: its
/// name and description and its policy hooks. Running it is the host's part.
#[derive(Debug)]
pub struct Action {
    pub name: String,
    pub description: String,
    /// Execution deadline in milliseconds.
    pub timeout_ms: Option<u64>,
    pub example_attributes: Option<Vec<(String, String)>>,
    pub example_payload: Option<String>,
    /// Names that must exist among the state's variables before a run.
    pub required_variables: Option<Vec<String>>,
    pub requires_user_confirmation: bool,
    /// A successful run of this action ends the current task.
    pub complete_task: bool,
}

/// A named group of actions, with the storages it needs; a namespace that is
/// not `default` is visible only once activated.
#[derive(Debug)]
pub struct Namespace {
    pub name: String,
    pub description: String,
    pub actions: Vec<Action>,
    pub storages: Option<Vec<StorageDescriptor>>,
    pub default: bool,
}

impl Namespace {
    pub fn new_non_default(
        name: String,
        description: String,
        actions: Vec<Action>,
        storages: Option<Vec<StorageDescriptor>>,
    ) -> (r: Self)
        ensures
            r.name == name,
            r.description == description,
            r.actions == actions,
            r.storages == storages,
            !r.default,
    {
        Namespace { name, description, actions, storages, default: false }
    }

    pub fn new_default(
        name: String,
        description: String,
        actions: Vec<Action>,
        storages: Option<Vec<StorageDescriptor>>,
    ) -> (r: Self)
        ensures
            r.name == name,
            r.description == description,
            r.actions == actions,
            r.storages == storages,
            r.default,
    {
        Namespace { name, description, actions, storages, default: true }
    }
}

impl Action {
    /// An action with no timeout, examples or required variables, that asks
    /// for no confirmation and does not complete the task.
    pub fn new(name: String, description: String) -> (r: Action)
        ensures
            r.name == name,
            r.description == description,
            r.timeout_ms is None,
            r.example_attributes is None,
            r.example_payload is None,
            r.required_variables is None,
            !r.requires_user_confirmation,
            !r.complete_task,
    {
        Action {
            name,
            description,
            timeout_ms: None,
            example_attributes: None,
            example_payload: None,
            required_variables: None,
            requires_user_confirmation: false,
            complete_task: false,
        }
    }

    pub fn name(&self) -> (r: &String)
        ensures
            r == &self.name,
    {
        &self.name
    }

    pub fn description(&self) -> (r: &String)
        ensures
            r == &self.description,
    {
        &self.description
    }

    pub fn timeout(&self) -> (r: Option<u64>)
        ensures
            r == self.timeout_ms,
    {
        self.timeout_ms
    }

    pub fn example_payload(&self) -> (r: &Option<String>)
        ensures
            r == &self.example_payload,
    {
        &self.example_payload
    }

    pub fn example_attributes(&self) -> (r: &Option<Vec<(String, String)>>)
        ensures
            r == &self.example_attributes,
    {
        &self.example_attributes
    }

    pub fn required_variables(&self) -> (r: &Option<Vec<String>>)
        ensures
            r == &self.required_variables,
    {
        &self.required_variables
    }

    pub fn requires_user_confirmation(&self) -> (r: bool)
        ensures
            r == self.requires_user_confirmation,
    {
        self.requires_user_confirmation
    }

    pub fn complete_task(&self) -> (r: bool)
        ensures
            r == self.complete_task,
    {
        self.complete_task
    }
}

fn copy_strings(v: &Vec<String>) -> (r: Vec<String>)
    ensures
        r@ == v@,
{
    let mut out: Vec<String> = Vec::new();
    let mut i: usize = 0;
    while i < v.len()
        invariant
            i <= v.len(),
            out@ == v@.take(i as int),
        decreases v.len() - i,
    {
        out.push(v[i].clone());
        assert(out@ =~= v@.take(i + 1));
        i = i + 1;
    }
    assert(v@.take(v.len() as int) =~= v@);
    out
}

fn copy_pairs(v: &Vec<(String, String)>) -> (r: Vec<(String, String)>)
    ensures
        r@ == v@,
{
    let mut out: Vec<(String, String)> = Vec::new();
    let mut i: usize = 0;
    while i < v.len()
        invariant
            i <= v.len(),
            out@ == v@.take(i as int),
        decreases v.len() - i,
    {
        out.push((v[i].0.clone(), v[i].1.clone()));
        assert(out@ =~= v@.take(i + 1));
        i = i + 1;
    }
    assert(v@.take(v.len() as int) =~= v@);
    out
}

pub open spec fn opt_seq<T>(o: Option<Vec<T>>) -> Option<Seq<T>> {
    match o {
        Some(v) => Some(v@),
        None => None,
    }
}

/// Whether two actions have the same contents.
pub open spec fn same_action(a: Action, b: Action) -> bool {
    &&& a.name == b.name
    &&& a.description == b.description
    &&& a.timeout_ms == b.timeout_ms
    &&& opt_seq(a.example_attributes) == opt_seq(b.example_attributes)
    &&& a.example_payload == b.example_payload
    &&& opt_seq(a.required_variables) == opt_seq(b.required_variables)
    &&& a.requires_user_confirmation == b.requires_user_confirmation
    &&& a.complete_task == b.complete_task
}

/// Duplication of an action as a value.
pub trait ActionClone {
    fn clone_box(&self) -> Action;
}

impl ActionClone for Action {
    /// An independent copy with the same contents.
    fn clone_box(&self) -> (r: Action)
        ensures
            same_action(r, *self),
    {
        Action {
            name: self.name.clone(),
            description: self.description.clone(),
            timeout_ms: self.timeout_ms,
            example_attributes: match &self.example_attributes {
                Some(v) => Some(copy_pairs(v)),
                None => None,
            },
            example_payload: match &self.example_payload {
                Some(p) => Some(p.clone()),
                None => None,
            },
            required_variables: match &self.required_variables {
                Some(v) => Some(copy_strings(v)),
                None => None,
            },
            requires_user_confirmation: self.requires_user_confirmation,
            complete_task: self.complete_task,
        }
    }
}

} // verus!
