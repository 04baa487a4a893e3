//! Reading a model's reply: the body between the tool-call tags, the tool
//! call that the body names, and the task list of a plan.

use crate::json::JsonTree;
use crate::json::JsonValue;
use crate::json::json_document;
use crate::json::json_text;
use crate::json::parse_json;
use crate::llama::ParseError;
use crate::llama::ParseFailure;
use crate::llama::Task;
use crate::llama::TaskView;
use crate::llama::ToolCall;
use crate::llama::ToolCallView;
use crate::pattern::Groups;
use crate::pattern::first_match;
use crate::pattern::group;
use crate::pattern::group_text;
use crate::pattern::groups_view;
use crate::pattern::regex_compiles;
use crate::pattern::regex_first_match;
use crate::text::chars_of;
use crate::text::ends_with;
use crate::text::is_whitespace;
use crate::text::join2;
use crate::text::lemma_trimmed_fixed;
use crate::text::starts_with;
use crate::text::trim;
use crate::text::trimmed;
use vstd::prelude::*;

verus! {

/// The tag that opens a tool call.
pub const TOOL_CALL_START: &'static str = "<tool_call>";

/// The tag that closes a tool call.
pub const TOOL_CALL_END: &'static str = "</tool_call>";

/// Reads a tool call whose arguments stand before its name, from text that
/// is no JSON.
pub const TOOL_CALL_PATTERN: &'static str =
    r#"(?i)\{"arguments":\s*(?P<arguments>\{.*\}),\s*"name":\s*"(?P<name>[^"]+)"\}"#;

/// Finds the `"tasks"` array of a plan.
pub const TASKS_PATTERN: &'static str = r#""tasks":\s*(\[[^\]]*\])"#;

/// The reply is not wrapped in the pair of tool-call tags.
#[derive(Clone, Copy, Debug, PartialEq, Eq)]
pub struct XmlParseError;

impl XmlParseError {
    /// The message of this error.
    pub fn message(&self) -> (text: String)
        ensures
            text@ == "Invalid XML format: missing or mismatched tool_call tags"@,
    {
        "Invalid XML format: missing or mismatched tool_call tags".to_owned()
    }
}

/// `body` between the two tags.
pub open spec fn wrap_in_tags(body: Seq<char>) -> Seq<char> {
    TOOL_CALL_START@ + body + TOOL_CALL_END@
}

/// The trimmed text between the tags of a reply that, once trimmed,
/// starts with the opening tag and ends with the closing tag; `None` for
/// any other reply.
pub open spec fn tagged_body(data: Seq<char>) -> Option<Seq<char>> {
    let t = trimmed(data);
    if TOOL_CALL_START@.is_prefix_of(t) && TOOL_CALL_END@.is_suffix_of(t) {
        Some(trimmed(t.subrange(TOOL_CALL_START@.len() as int, t.len() - TOOL_CALL_END@.len())))
    } else {
        None
    }
}

/// A text that starts with the opening tag and ends with the closing tag
/// holds both in full: the tags cannot share characters.
pub proof fn lemma_tags_do_not_overlap(t: Seq<char>)
    requires
        TOOL_CALL_START@.is_prefix_of(t),
        TOOL_CALL_END@.is_suffix_of(t),
    ensures
        TOOL_CALL_START@.len() + TOOL_CALL_END@.len() <= t.len(),
{
    reveal_strlit("<tool_call>");
    reveal_strlit("</tool_call>");
    let start = TOOL_CALL_START@;
    let end = TOOL_CALL_END@;
    assert(start.len() == 11 && end.len() == 12);
    if t.len() < 23 {
        let shift = t.len() - 12;
        assert(0 <= shift < 11);
        // the closing tag begins inside the opening tag
        assert(t.subrange(shift, t.len() as int)[0] == end[0]);
        assert(t[shift] == '<');
        assert(t.subrange(0, 11)[shift] == start[shift]);
        assert(t.subrange(shift, t.len() as int)[1] == end[1]);
        assert(t[shift + 1] == '/');
        if shift + 1 < 11 {
            assert(t.subrange(0, 11)[shift + 1] == start[shift + 1]);
        } else {
            assert(shift == 10);
            assert(t.subrange(0, 11)[10] == start[10]);
        }
    }
}

/// The JSON text of a reply that is wrapped in the tool-call tags.
pub fn extract_json_from_xml_like(xml_like_data: &str) -> (r: Result<String, XmlParseError>)
    ensures
        match r {
            Ok(body) => tagged_body(xml_like_data@) == Some(body@),
            Err(_) => tagged_body(xml_like_data@) is None,
        },
{
    let trimmed_data = trim(xml_like_data);
    let text = chars_of(trimmed_data);
    let start_tag = chars_of(TOOL_CALL_START);
    let end_tag = chars_of(TOOL_CALL_END);
    if starts_with(&text, &start_tag) && ends_with(&text, &end_tag) {
        proof {
            lemma_tags_do_not_overlap(text@);
        }
        let start_pos = start_tag.len();
        let end_pos = text.len() - end_tag.len();
        let body = trimmed_data.substring_char(start_pos, end_pos);
        Ok(trim(body).to_owned())
    } else {
        Err(XmlParseError)
    }
}

/// Wrapping a text in the tags and extracting it again gives the text
/// back, for every text that neither starts nor ends with white space and
/// holds neither tag.
pub proof fn lemma_tag_round_trip(j: Seq<char>)
    requires
        !crate::text::contains(j, TOOL_CALL_START@),
        !crate::text::contains(j, TOOL_CALL_END@),
        trimmed(j) == j,
    ensures
        tagged_body(wrap_in_tags(j)) == Some(j),
{
    lemma_wrapped_body(j);
}

/// Extracting from a wrapped text gives the trimmed text, whatever the
/// text holds.
pub proof fn lemma_wrapped_body(j: Seq<char>)
    ensures
        tagged_body(wrap_in_tags(j)) == Some(trimmed(j)),
{
    reveal_strlit("<tool_call>");
    reveal_strlit("</tool_call>");
    let start = TOOL_CALL_START@;
    let end = TOOL_CALL_END@;
    let w = wrap_in_tags(j);
    assert(w.len() == 23 + j.len());
    assert(w[0] == start[0]);
    assert(w.last() == end[11]);
    assert(!is_whitespace('<') && !is_whitespace('>'));
    lemma_trimmed_fixed(w);
    assert(w.subrange(0, 11) =~= start);
    assert(w.subrange(w.len() - 12, w.len() as int) =~= end);
    assert(w.subrange(11, w.len() - 12) =~= j);
}

/// Why the external repair of a JSON text failed.
#[derive(Clone, Debug, PartialEq)]
pub enum RepairError {
    /// The repair tool ended with a failure; what it wrote to its error
    /// stream.
    RepairToolError(String),
    /// The repair tool wrote bytes that are no UTF-8.
    Utf8Error(String),
    /// The repair tool could not be run.
    Io(String),
}

impl RepairError {
    /// The message of this error.
    pub fn message(&self) -> (text: String)
        ensures
            text@ == match *self {
                RepairError::RepairToolError(e) => "Repair tool failed with error: "@ + e@,
                RepairError::Utf8Error(e) => "Invalid UTF-8 in repair tool output: "@ + e@,
                RepairError::Io(e) => "IO error: "@ + e@,
            },
    {
        match self {
            RepairError::RepairToolError(e) => join2("Repair tool failed with error: ", e.as_str()),
            RepairError::Utf8Error(e) => join2("Invalid UTF-8 in repair tool output: ", e.as_str()),
            RepairError::Io(e) => join2("IO error: ", e.as_str()),
        }
    }
}

/// What the run of the repair tool amounts to: its output where it ended
/// with success and wrote UTF-8, else the error.
pub fn repair_outcome(
    success: bool,
    output: Result<String, String>,
    errors: String,
) -> (r: Result<String, RepairError>)
    ensures
        r == (if !success {
            Err::<String, RepairError>(RepairError::RepairToolError(errors))
        } else {
            match output {
                Ok(text) => Ok(text),
                Err(e) => Err(RepairError::Utf8Error(e)),
            }
        }),
{
    if !success {
        return Err(RepairError::RepairToolError(errors));
    }
    match output {
        Ok(text) => Ok(text),
        Err(e) => Err(RepairError::Utf8Error(e)),
    }
}

/// Why no tool call could be read from a text.
#[derive(Clone, Debug, PartialEq)]
pub enum ExtractError {
    RepairError(RepairError),
    RegexError(String),
    JsonError(String),
    NoArguments,
    NoName,
    InvalidInput,
}

/// The kinds of `ExtractError`, without their messages.
pub enum ExtractFailure {
    Repair,
    Regex,
    Json,
    NoArguments,
    NoName,
    InvalidInput,
}

impl ExtractError {
    pub open spec fn failure(self) -> ExtractFailure {
        match self {
            ExtractError::RepairError(_) => ExtractFailure::Repair,
            ExtractError::RegexError(_) => ExtractFailure::Regex,
            ExtractError::JsonError(_) => ExtractFailure::Json,
            ExtractError::NoArguments => ExtractFailure::NoArguments,
            ExtractError::NoName => ExtractFailure::NoName,
            ExtractError::InvalidInput => ExtractFailure::InvalidInput,
        }
    }

    /// The message of this error.
    pub fn message(&self) -> (text: String)
        ensures
            text@ == match *self {
                ExtractError::RepairError(e) => "JSON repair failed: "@ + match e {
                    RepairError::RepairToolError(e) => "Repair tool failed with error: "@ + e@,
                    RepairError::Utf8Error(e) => "Invalid UTF-8 in repair tool output: "@ + e@,
                    RepairError::Io(e) => "IO error: "@ + e@,
                },
                ExtractError::RegexError(e) => "Regex creation failed: "@ + e@,
                ExtractError::JsonError(e) => "JSON parsing failed: "@ + e@,
                ExtractError::NoArguments => "No arguments found in tool call"@,
                ExtractError::NoName => "No name found in tool call"@,
                ExtractError::InvalidInput =>
                    "Invalid input: neither valid JSON nor matching tool-call pattern"@,
            },
    {
        match self {
            ExtractError::RepairError(e) => {
                let inner = e.message();
                join2("JSON repair failed: ", inner.as_str())
            },
            ExtractError::RegexError(e) => join2("Regex creation failed: ", e.as_str()),
            ExtractError::JsonError(e) => join2("JSON parsing failed: ", e.as_str()),
            ExtractError::NoArguments => "No arguments found in tool call".to_owned(),
            ExtractError::NoName => "No name found in tool call".to_owned(),
            ExtractError::InvalidInput =>
                "Invalid input: neither valid JSON nor matching tool-call pattern".to_owned(),
        }
    }
}

/// The result of a reading, with texts for strings and kinds for errors.
pub open spec fn tool_call_result(r: Result<ToolCall, ExtractError>) -> Result<
    ToolCallView,
    ExtractFailure,
> {
    match r {
        Ok(call) => Ok(call@),
        Err(e) => Err(e.failure()),
    }
}

/// The arguments of the tool call that a document holds: the compact
/// JSON text of its member `arguments`, whole; none where it has no such
/// member.
pub open spec fn arguments_of_document(doc: JsonTree) -> Option<Seq<char>> {
    match doc.get("arguments"@) {
        Some(arguments) => Some(json_text(arguments)),
        None => None,
    }
}

/// What `first_match` hands back, with texts for strings.
pub open spec fn match_result(found: Result<Option<Groups>, String>) -> Result<
    Option<Seq<Option<Seq<char>>>>,
    (),
> {
    match found {
        Ok(Some(groups)) => Ok(Some(groups_view(groups@))),
        Ok(None) => Ok(None),
        Err(_) => Err(()),
    }
}

/// What the `regex` crate finds for `pattern` in `haystack`.
pub open spec fn match_of(pattern: Seq<char>, haystack: Seq<char>) -> Result<
    Option<Seq<Option<Seq<char>>>>,
    (),
> {
    if regex_compiles(pattern) {
        Ok(regex_first_match(pattern, haystack))
    } else {
        Err(())
    }
}

/// The tool call that a match of the tool-call pattern holds: group 2 is
/// the name, group 1 the arguments.
pub open spec fn capture_outcome(found: Result<Option<Seq<Option<Seq<char>>>>, ()>) -> Result<
    ToolCallView,
    ExtractFailure,
> {
    match found {
        Err(_) => Err(ExtractFailure::Regex),
        Ok(None) => Err(ExtractFailure::InvalidInput),
        Ok(Some(groups)) => match group_text(groups, 2) {
            None => Err(ExtractFailure::NoName),
            Some(name) => match group_text(groups, 1) {
                None => Err(ExtractFailure::NoArguments),
                Some(arguments) => Ok(ToolCallView { name, arguments: Some(arguments) }),
            },
        },
    }
}

/// The tool call that a repaired document names. A document without a
/// member `name` that is a string names none; one whose name is empty
/// falls back to the match of the tool-call pattern in the raw text.
pub open spec fn document_outcome(
    doc: JsonTree,
    fallback: Result<Option<Seq<Option<Seq<char>>>>, ()>,
) -> Result<ToolCallView, ExtractFailure> {
    match doc.get_str("name"@) {
        None => Err(ExtractFailure::NoName),
        Some(name) => if name.len() > 0 {
            Ok(ToolCallView { name, arguments: arguments_of_document(doc) })
        } else {
            capture_outcome(fallback)
        },
    }
}

/// The tool call read from `input`, given what the repair of `input`
/// produced.
pub open spec fn tool_call_outcome(input: Seq<char>, repaired: Result<String, RepairError>) -> Result<
    ToolCallView,
    ExtractFailure,
> {
    match repaired {
        Err(_) => Err(ExtractFailure::Repair),
        Ok(text) => match json_document(text@) {
            None => Err(ExtractFailure::Json),
            Some(doc) => document_outcome(doc, match_of(TOOL_CALL_PATTERN@, input)),
        },
    }
}

/// The tool call that a match of the tool-call pattern holds.
pub fn tool_call_from_capture(found: Result<Option<Groups>, String>) -> (r: Result<
    ToolCall,
    ExtractError,
>)
    ensures
        tool_call_result(r) == capture_outcome(match_result(found)),
{
    match found {
        Err(e) => Err(ExtractError::RegexError(e)),
        Ok(None) => Err(ExtractError::InvalidInput),
        Ok(Some(groups)) => {
            let name = match group(&groups, 2) {
                Some(name) => name.clone(),
                None => {
                    return Err(ExtractError::NoName);
                },
            };
            let arguments = match group(&groups, 1) {
                Some(arguments) => arguments.clone(),
                None => {
                    return Err(ExtractError::NoArguments);
                },
            };
            Ok(ToolCall { name, arguments: Some(arguments) })
        },
    }
}

/// The name of the tool that a document calls, where it names one.
pub fn tool_call_name(doc: &JsonValue) -> (r: Option<String>)
    ensures
        crate::text::option_text(r) == doc@.get_str("name"@),
{
    match doc.get("name") {
        Some(value) => match value.as_str() {
            Some(name) => Some(name.to_owned()),
            None => None,
        },
        None => None,
    }
}

/// The arguments of the tool call that a document holds.
pub fn tool_call_arguments(doc: &JsonValue) -> (r: Option<String>)
    ensures
        crate::text::option_text(r) == arguments_of_document(doc@),
{
    match doc.get("arguments") {
        Some(arguments) => Some(arguments.to_json_string()),
        None => None,
    }
}

/// Reads the tool call that a reply's body names.
///
/// `repaired` is what the external repair made of `input`. The repaired
/// text is read as JSON; its member `name` is the tool, and its member
/// `arguments`, whole and in compact form, the arguments. Where the name
/// is empty, the raw input is matched against the tool-call pattern
/// instead.
pub fn extract_tool_call_json(input: &str, repaired: &Result<String, RepairError>) -> (r: Result<
    ToolCall,
    ExtractError,
>)
    ensures
        tool_call_result(r) == tool_call_outcome(input@, *repaired),
{
    let repaired_input = match repaired {
        Ok(text) => text,
        Err(e) => {
            return Err(ExtractError::RepairError(e.clone()));
        },
    };
    let parsed = match parse_json(repaired_input.as_str()) {
        Ok(doc) => doc,
        Err(e) => {
            return Err(ExtractError::JsonError(e));
        },
    };
    let name = match tool_call_name(&parsed) {
        Some(name) => name,
        None => {
            return Err(ExtractError::NoName);
        },
    };
    if name.as_str().unicode_len() > 0 {
        let arguments = tool_call_arguments(&parsed);
        return Ok(ToolCall { name, arguments });
    }
    tool_call_from_capture(first_match(TOOL_CALL_PATTERN, input))
}

/// A member that may be missing: absent or `null` is no text, a string is
/// its text, anything else is an error (`None`).
pub open spec fn optional_text(member: Option<JsonTree>) -> Option<Option<Seq<char>>> {
    match member {
        None => Some(None),
        Some(JsonTree::Null) => Some(None),
        Some(JsonTree::String(text)) => Some(Some(text)),
        Some(_) => None,
    }
}

/// The task that a JSON object describes: its members `name` and
/// `description` are strings, its member `tool` a string, `null` or
/// missing. Other members are ignored.
pub open spec fn task_of(tree: JsonTree) -> Option<TaskView> {
    match (tree.get_str("name"@), tree.get_str("description"@), optional_text(tree.get("tool"@))) {
        (Some(name), Some(description), Some(tool)) => Some(TaskView { name, description, tool }),
        _ => None,
    }
}

/// The tasks that a JSON array of task objects describes, in order.
pub open spec fn tasks_of(tree: JsonTree) -> Option<Seq<TaskView>> {
    match tree {
        JsonTree::Array(items) => if forall|i: int|
            0 <= i < items.len() ==> (#[trigger] task_of(items[i])) is Some {
            Some(Seq::new(items.len(), |i: int| task_of(items[i])->Some_0))
        } else {
            None
        },
        _ => None,
    }
}

/// The tasks that the text of a JSON document describes.
pub open spec fn tasks_of_text(text: Seq<char>) -> Result<Seq<TaskView>, ParseFailure> {
    match json_document(text) {
        None => Err(ParseFailure::Json),
        Some(doc) => match tasks_of(doc) {
            None => Err(ParseFailure::Json),
            Some(tasks) => Ok(tasks),
        },
    }
}

/// The task list of a plan: the first `"tasks"` array in the text, read
/// as JSON.
pub open spec fn plan_outcome(input: Seq<char>) -> Result<Seq<TaskView>, ParseFailure> {
    match match_of(TASKS_PATTERN@, input) {
        Err(_) => Err(ParseFailure::Regex),
        Ok(None) => Err(ParseFailure::Capture),
        Ok(Some(groups)) => match group_text(groups, 1) {
            None => Err(ParseFailure::Capture),
            Some(text) => tasks_of_text(text),
        },
    }
}

/// The member `key` of `doc`, where it may be missing.
pub fn member_text(doc: &JsonValue, key: &str) -> (r: Option<Option<String>>)
    ensures
        match r {
            Some(text) => optional_text(doc@.get(key@)) == Some(crate::text::option_text(text)),
            None => optional_text(doc@.get(key@)) is None,
        },
{
    match doc.get(key) {
        None => Some(None),
        Some(JsonValue::Null) => Some(None),
        Some(JsonValue::String(text)) => Some(Some(text.clone())),
        Some(_) => None,
    }
}

/// The task that a JSON object describes.
pub fn task_from_json(doc: &JsonValue) -> (r: Option<Task>)
    ensures
        match r {
            Some(task) => task_of(doc@) == Some(task@),
            None => task_of(doc@) is None,
        },
{
    let name = match doc.get("name") {
        Some(value) => match value.as_str() {
            Some(name) => name.to_owned(),
            None => {
                return None;
            },
        },
        None => {
            return None;
        },
    };
    let description = match doc.get("description") {
        Some(value) => match value.as_str() {
            Some(description) => description.to_owned(),
            None => {
                return None;
            },
        },
        None => {
            return None;
        },
    };
    match member_text(doc, "tool") {
        Some(tool) => Some(Task { name, description, tool }),
        None => None,
    }
}

/// The tasks that a JSON array of task objects describes.
pub fn tasks_from_json(doc: &JsonValue) -> (r: Option<Vec<Task>>)
    ensures
        match r {
            Some(tasks) => tasks_of(doc@) == Some(crate::llama::tasks_view(tasks@)),
            None => tasks_of(doc@) is None,
        },
{
    let items = match doc.as_array() {
        Some(items) => items,
        None => {
            return None;
        },
    };
    let ghost trees = doc@->Array_0;
    let mut tasks: Vec<Task> = Vec::new();
    let mut i: usize = 0;
    while i < items.len()
        invariant
            i <= items@.len(),
            doc@ == JsonTree::Array(trees),
            trees == crate::json::items_tree(items@),
            tasks@.len() == i,
            forall|k: int| 0 <= k < i ==> (#[trigger] task_of(trees[k])) == Some(tasks@[k]@),
        decreases items@.len() - i,
    {
        match task_from_json(&items[i]) {
            Some(task) => {
                tasks.push(task);
            },
            None => {
                assert(task_of(trees[i as int]) is None);
                return None;
            },
        }
        i += 1;
    }
    assert(tasks_of(doc@)->Some_0 =~= crate::llama::tasks_view(tasks@));
    Some(tasks)
}

/// Reads the task list of a plan: the first `"tasks"` array in the text is
/// cut out and read as JSON. Every failure is an error: a plan never
/// falls back to plain text.
pub fn parse_planning_tasks(input: &str) -> (r: Result<Vec<Task>, ParseError>)
    ensures
        crate::llama::tasks_result(r) == plan_outcome(input@),
{
    let found = match first_match(TASKS_PATTERN, input) {
        Ok(found) => found,
        Err(e) => {
            return Err(ParseError::RegexError(e));
        },
    };
    let groups = match found {
        Some(groups) => groups,
        None => {
            return Err(ParseError::CaptureError);
        },
    };
    let tasks_str = match group(&groups, 1) {
        Some(text) => text,
        None => {
            return Err(ParseError::CaptureError);
        },
    };
    let doc = match parse_json(tasks_str.as_str()) {
        Ok(doc) => doc,
        Err(e) => {
            return Err(ParseError::JsonError(e));
        },
    };
    match tasks_from_json(&doc) {
        Some(tasks) => Ok(tasks),
        None => Err(ParseError::JsonError("the tasks array does not hold task records".to_owned())),
    }
}

/// One step of a plan, with an identity of its own.
#[derive(Debug, PartialEq)]
pub struct PlanningTask {
    pub id: String,
    pub name: String,
    pub description: String,
    pub tool: Option<String>,
}

pub struct PlanningTaskView {
    pub id: Seq<char>,
    pub name: Seq<char>,
    pub description: Seq<char>,
    pub tool: Option<Seq<char>>,
}

impl View for PlanningTask {
    type V = PlanningTaskView;

    open spec fn view(&self) -> PlanningTaskView {
        PlanningTaskView {
            id: self.id@,
            name: self.name@,
            description: self.description@,
            tool: crate::text::option_text(self.tool),
        }
    }
}

/// The planning task that a JSON object describes: a task whose member
/// `id` is a string.
pub open spec fn planning_task_of(tree: JsonTree) -> Option<PlanningTaskView> {
    match (tree.get_str("id"@), task_of(tree)) {
        (Some(id), Some(task)) => Some(
            PlanningTaskView { id, name: task.name, description: task.description, tool: task.tool },
        ),
        _ => None,
    }
}

impl PlanningTask {
    /// The planning task that a JSON object describes.
    pub fn from_json(doc: &JsonValue) -> (r: Option<PlanningTask>)
        ensures
            match r {
                Some(task) => planning_task_of(doc@) == Some(task@),
                None => planning_task_of(doc@) is None,
            },
    {
        let id = match doc.get("id") {
            Some(value) => match value.as_str() {
                Some(id) => id.to_owned(),
                None => {
                    return None;
                },
            },
            None => {
                return None;
            },
        };
        match task_from_json(doc) {
            Some(task) => Some(
                PlanningTask {
                    id,
                    name: task.name,
                    description: task.description,
                    tool: task.tool,
                },
            ),
            None => None,
        }
    }

    /// The task without its identity.
    pub fn into_task(self) -> (task: Task)
        ensures
            task@ == (TaskView {
                name: self.name@,
                description: self.description@,
                tool: crate::text::option_text(self.tool),
            }),
    {
        Task { name: self.name, description: self.description, tool: self.tool }
    }
}

} // verus!
