//! What a model's reply can hold: plain text, a call of a tool, or a list
//! of planned tasks; and the errors of reading a reply.

pub mod llama_utils;

use crate::llama::llama_utils::ExtractError;
use crate::llama::llama_utils::RepairError;
use crate::llama::llama_utils::extract_tool_call_json;
use crate::llama::llama_utils::parse_planning_tasks;
use crate::llama::llama_utils::plan_outcome;
use crate::llama::llama_utils::tool_call_outcome;
use crate::llama::llama_utils::tool_call_result;
use crate::text::debug_option;
use crate::text::debug_option_text;
use crate::text::join2;
use crate::text::join4;
use crate::text::option_text;
use vstd::prelude::*;

verus! {

/// Who wrote a message.
#[derive(Clone, Copy, Debug, PartialEq, Eq)]
pub enum Role {
    System,
    User,
    Assistant,
    Tool,
    Function,
}

/// The token counts that the completion service reports for one call.
#[derive(Clone, Copy, Debug, PartialEq, Eq)]
pub struct CompletionUsage {
    pub prompt_tokens: u32,
    pub completion_tokens: u32,
    pub total_tokens: u32,
}

impl CompletionUsage {
    /// The usage of a call that reported none.
    pub fn zero() -> (usage: Self)
        ensures
            usage == (CompletionUsage { prompt_tokens: 0, completion_tokens: 0, total_tokens: 0 }),
    {
        CompletionUsage { prompt_tokens: 0, completion_tokens: 0, total_tokens: 0 }
    }
}

/// A request of the model to run a tool: the tool's name and, where the
/// reply gave any, the text of its JSON arguments.
#[derive(Debug, PartialEq)]
pub struct ToolCall {
    pub name: String,
    pub arguments: Option<String>,
}

pub struct ToolCallView {
    pub name: Seq<char>,
    pub arguments: Option<Seq<char>>,
}

impl View for ToolCall {
    type V = ToolCallView;

    open spec fn view(&self) -> ToolCallView {
        ToolCallView { name: self.name@, arguments: option_text(self.arguments) }
    }
}

impl Clone for ToolCall {
    fn clone(&self) -> (r: Self)
        ensures
            r@ == self@,
    {
        ToolCall { name: self.name.clone(), arguments: crate::text::clone_option(&self.arguments) }
    }
}

/// One step of a plan.
#[derive(Debug, PartialEq)]
pub struct Task {
    pub name: String,
    pub description: String,
    pub tool: Option<String>,
}

pub struct TaskView {
    pub name: Seq<char>,
    pub description: Seq<char>,
    pub tool: Option<Seq<char>>,
}

impl View for Task {
    type V = TaskView;

    open spec fn view(&self) -> TaskView {
        TaskView { name: self.name@, description: self.description@, tool: option_text(self.tool) }
    }
}

impl Clone for Task {
    fn clone(&self) -> (r: Self)
        ensures
            r@ == self@,
    {
        Task {
            name: self.name.clone(),
            description: self.description.clone(),
            tool: crate::text::clone_option(&self.tool),
        }
    }
}

/// The views of a list of tasks.
pub open spec fn tasks_view(tasks: Seq<Task>) -> Seq<TaskView> {
    Seq::new(tasks.len(), |i: int| tasks[i]@)
}

/// A copy of a list of tasks.
pub fn clone_tasks(tasks: &Vec<Task>) -> (r: Vec<Task>)
    ensures
        tasks_view(r@) == tasks_view(tasks@),
{
    let mut copy: Vec<Task> = Vec::new();
    let mut i: usize = 0;
    while i < tasks.len()
        invariant
            i <= tasks@.len(),
            copy@.len() == i,
            forall|k: int| 0 <= k < i ==> copy@[k]@ == tasks@[k]@,
        decreases tasks@.len() - i,
    {
        copy.push(tasks[i].clone());
        i += 1;
    }
    assert(tasks_view(copy@) =~= tasks_view(tasks@));
    copy
}

/// Why the text of a plan could not be read.
#[derive(Clone, Debug, PartialEq)]
pub enum ParseError {
    /// The `regex` crate refused a pattern; its message.
    RegexError(String),
    /// The text holds no `"tasks"` array.
    CaptureError,
    /// The array is no JSON, or not a list of tasks; the message.
    JsonError(String),
    /// The delimiting tags are missing or do not match.
    XmlParseError,
}

/// The kinds of `ParseError`, without their messages.
pub enum ParseFailure {
    Regex,
    Capture,
    Json,
    Xml,
}

impl ParseError {
    pub open spec fn failure(self) -> ParseFailure {
        match self {
            ParseError::RegexError(_) => ParseFailure::Regex,
            ParseError::CaptureError => ParseFailure::Capture,
            ParseError::JsonError(_) => ParseFailure::Json,
            ParseError::XmlParseError => ParseFailure::Xml,
        }
    }

    /// The message of this error.
    pub open spec fn text(self) -> Seq<char> {
        match self {
            ParseError::RegexError(e) => "Regex creation failed: "@ + e@,
            ParseError::CaptureError => "Failed to find required pattern in input"@,
            ParseError::JsonError(e) => "JSON parsing failed: "@ + e@,
            ParseError::XmlParseError => "XML structure invalid"@,
        }
    }

    /// The message of this error.
    pub fn message(&self) -> (text: String)
        ensures
            text@ == self.text(),
            text@ == match *self {
                ParseError::RegexError(e) => "Regex creation failed: "@ + e@,
                ParseError::CaptureError => "Failed to find required pattern in input"@,
                ParseError::JsonError(e) => "JSON parsing failed: "@ + e@,
                ParseError::XmlParseError => "XML structure invalid"@,
            },
    {
        match self {
            ParseError::RegexError(e) => join2("Regex creation failed: ", e.as_str()),
            ParseError::CaptureError => "Failed to find required pattern in input".to_owned(),
            ParseError::JsonError(e) => join2("JSON parsing failed: ", e.as_str()),
            ParseError::XmlParseError => "XML structure invalid".to_owned(),
        }
    }
}

/// The structured forms of a reply.
#[derive(Debug, PartialEq)]
pub enum StructuredText {
    ToolCall(ToolCall),
    Tasks(Vec<Task>),
    Expanded(String),
}

pub enum StructuredTextView {
    ToolCall(ToolCallView),
    Tasks(Seq<TaskView>),
    Expanded(Seq<char>),
}

impl View for StructuredText {
    type V = StructuredTextView;

    open spec fn view(&self) -> StructuredTextView {
        match self {
            StructuredText::ToolCall(tc) => StructuredTextView::ToolCall(tc@),
            StructuredText::Tasks(tasks) => StructuredTextView::Tasks(tasks_view(tasks@)),
            StructuredText::Expanded(text) => StructuredTextView::Expanded(text@),
        }
    }
}

impl Clone for StructuredText {
    fn clone(&self) -> (r: Self)
        ensures
            r@ == self@,
    {
        match self {
            StructuredText::ToolCall(tc) => StructuredText::ToolCall(tc.clone()),
            StructuredText::Tasks(tasks) => StructuredText::Tasks(clone_tasks(tasks)),
            StructuredText::Expanded(text) => StructuredText::Expanded(text.clone()),
        }
    }
}

/// The payload of a message.
#[derive(Debug, PartialEq)]
pub enum Content {
    Text(String),
    Structured(StructuredText),
}

pub enum ContentView {
    Text(Seq<char>),
    Structured(StructuredTextView),
}

impl View for Content {
    type V = ContentView;

    open spec fn view(&self) -> ContentView {
        match self {
            Content::Text(text) => ContentView::Text(text@),
            Content::Structured(s) => ContentView::Structured(s@),
        }
    }
}

impl Clone for Content {
    fn clone(&self) -> (r: Self)
        ensures
            r@ == self@,
    {
        match self {
            Content::Text(text) => Content::Text(text.clone()),
            Content::Structured(s) => Content::Structured(s.clone()),
        }
    }
}

/// The result of reading a plan, with texts for strings and kinds for
/// errors.
pub open spec fn tasks_result(r: Result<Vec<Task>, ParseError>) -> Result<
    Seq<TaskView>,
    ParseFailure,
> {
    match r {
        Ok(tasks) => Ok(tasks_view(tasks@)),
        Err(e) => Err(e.failure()),
    }
}

/// What a text is read as, for the form that is desired. A text is
/// always its own expanded form. A desired tool call that cannot be read
/// is read as a plan instead, and kept as text where it is no plan either.
/// A desired plan that cannot be read is an error: a plan never falls
/// back to another form.
pub open spec fn structured_outcome(
    input: Seq<char>,
    desired: StructuredTextView,
    repaired: Result<String, RepairError>,
) -> Result<StructuredTextView, ParseFailure> {
    match desired {
        StructuredTextView::Expanded(_) => Ok(StructuredTextView::Expanded(input)),
        StructuredTextView::ToolCall(_) => match (
            tool_call_outcome(input, repaired),
            plan_outcome(input),
        ) {
            (Ok(call), _) => Ok(StructuredTextView::ToolCall(call)),
            (Err(_), Ok(tasks)) => Ok(StructuredTextView::Tasks(tasks)),
            (Err(_), Err(_)) => Ok(StructuredTextView::Expanded(input)),
        },
        StructuredTextView::Tasks(_) => match plan_outcome(input) {
            Ok(tasks) => Ok(StructuredTextView::Tasks(tasks)),
            Err(failure) => Err(failure),
        },
    }
}

/// The result of a reading, with views for values and kinds for errors.
pub open spec fn structured_result(r: Result<StructuredText, ParseError>) -> Result<
    StructuredTextView,
    ParseFailure,
> {
    match r {
        Ok(s) => Ok(s@),
        Err(e) => Err(e.failure()),
    }
}

impl StructuredText {
    /// Reads `input` as the form that `desired_variant` is of. `repaired`
    /// is what the external repair made of `input`.
    ///
    /// A desired tool call that cannot be read is read as a plan, and kept
    /// as text where it is no plan either. A desired plan that cannot be
    /// read is an error.
    pub fn from_str(
        input: &str,
        desired_variant: StructuredText,
        repaired: &Result<String, RepairError>,
    ) -> (r: Result<Self, ParseError>)
        ensures
            structured_result(r) == structured_outcome(input@, desired_variant@, *repaired),
    {
        match desired_variant {
            StructuredText::ToolCall(_) => {
                match Self::parse_tool_call(input, repaired) {
                    Ok(tc) => {
                        return Ok(StructuredText::ToolCall(tc));
                    },
                    Err(_) => {},
                }
                match Self::parse_tasks(input) {
                    Ok(tasks) => Ok(StructuredText::Tasks(tasks)),
                    Err(_) => Ok(StructuredText::Expanded(input.to_owned())),
                }
            },
            StructuredText::Tasks(_) => match Self::parse_tasks(input) {
                Ok(tasks) => Ok(StructuredText::Tasks(tasks)),
                Err(e) => Err(e),
            },
            StructuredText::Expanded(_) => Ok(StructuredText::Expanded(input.to_owned())),
        }
    }

    /// Reads the tool call that `input` names, given what the external
    /// repair made of `input`.
    pub fn parse_tool_call(input: &str, repaired: &Result<String, RepairError>) -> (r: Result<
        ToolCall,
        ExtractError,
    >)
        ensures
            tool_call_result(r) == tool_call_outcome(input@, *repaired),
    {
        extract_tool_call_json(input, repaired)
    }

    /// Reads the task list of a plan.
    pub fn parse_tasks(input: &str) -> (r: Result<Vec<Task>, ParseError>)
        ensures
            tasks_result(r) == plan_outcome(input@),
    {
        parse_planning_tasks(input)
    }
}

/// A reply of the model, with the role it speaks in and the usage that
/// the service reported.
#[derive(Debug, PartialEq)]
pub struct LlamaResponseMessage {
    pub content: Content,
    pub role: Role,
    pub usage: CompletionUsage,
}

impl LlamaResponseMessage {
    /// The content as one text.
    pub fn content_to_string(&self) -> (text: String)
        ensures
            text@ == content_text(self.content@),
    {
        self.content.content_to_string()
    }
}

/// The lines `[name] description` of a list of tasks, joined by line
/// feeds.
pub open spec fn tasks_text(tasks: Seq<TaskView>) -> Seq<char>
    decreases tasks.len(),
{
    if tasks.len() == 0 {
        Seq::empty()
    } else if tasks.len() == 1 {
        task_line(tasks[0])
    } else {
        tasks_text(tasks.drop_last()) + "\n"@ + task_line(tasks.last())
    }
}

/// The line of one task.
pub open spec fn task_line(task: TaskView) -> Seq<char> {
    "["@ + task.name + "] "@ + task.description
}

/// A content as one text.
pub open spec fn content_text(content: ContentView) -> Seq<char> {
    match content {
        ContentView::Text(text) => text,
        ContentView::Structured(StructuredTextView::ToolCall(tc)) => "ToolCall: "@ + tc.name + " ("@
            + debug_option_text(tc.arguments) + ")"@,
        ContentView::Structured(StructuredTextView::Tasks(tasks)) => tasks_text(tasks),
        ContentView::Structured(StructuredTextView::Expanded(text)) => text,
    }
}

impl Content {
    /// The content as one text: a text as it is, a tool call by its name
    /// and arguments, a plan as one line for each task.
    pub fn content_to_string(&self) -> (text: String)
        ensures
            text@ == content_text(self@),
    {
        match self {
            Content::Text(text) => text.clone(),
            Content::Structured(structured) => match structured {
                StructuredText::ToolCall(tc) => {
                    let arguments = debug_option(&tc.arguments);
                    join4("ToolCall: ", tc.name.as_str(), " (", arguments.as_str()).concat(")")
                },
                StructuredText::Tasks(tasks) => {
                    let mut text = String::new();
                    let mut i: usize = 0;
                    while i < tasks.len()
                        invariant
                            i <= tasks@.len(),
                            text@ == tasks_text(tasks_view(tasks@).take(i as int)),
                        decreases tasks@.len() - i,
                    {
                        let ghost before = tasks_view(tasks@).take(i as int);
                        let ghost after = tasks_view(tasks@).take(i + 1);
                        assert(after.drop_last() =~= before);
                        assert(after.last() == tasks@[i as int]@);
                        if i > 0 {
                            text.append("\n");
                        }
                        let line = join4(
                            "[",
                            tasks[i].name.as_str(),
                            "] ",
                            tasks[i].description.as_str(),
                        );
                        text.append(line.as_str());
                        assert(text@ =~= tasks_text(after)) by {
                            if i == 0 {
                                assert(before.len() == 0);
                            }
                        }
                        i += 1;
                    }
                    assert(tasks_view(tasks@).take(i as int) =~= tasks_view(tasks@));
                    text
                },
                StructuredText::Expanded(text) => text.clone(),
            },
        }
    }
}

/// Why a reply of the completion service could not be used.
#[derive(Clone, Debug, PartialEq)]
pub enum LlamaResponseError {
    NoChoices,
    MissingMessageContent,
    MissingUsageData,
    MissingRole,
    JsonExtractionError(String),
    JsonFormatError(String),
    ToolCallParseError(String),
}

impl LlamaResponseError {
    /// The message of this error.
    pub open spec fn text(self) -> Seq<char> {
        match self {
            LlamaResponseError::NoChoices => "No choices available in response"@,
            LlamaResponseError::MissingMessageContent => "Message content missing in choice"@,
            LlamaResponseError::MissingUsageData => "Usage data missing in response"@,
            LlamaResponseError::MissingRole => "Role information missing"@,
            LlamaResponseError::JsonExtractionError(e) => "JSON extraction from XML failed: "@ + e@,
            LlamaResponseError::JsonFormatError(e) => "JSON pretty print formatting failed: "@ + e@,
            LlamaResponseError::ToolCallParseError(e) => "Tool call parsing error: "@ + e@,
        }
    }

    /// The message of this error.
    pub fn message(&self) -> (text: String)
        ensures
            text@ == self.text(),
            text@ == match *self {
                LlamaResponseError::NoChoices => "No choices available in response"@,
                LlamaResponseError::MissingMessageContent => "Message content missing in choice"@,
                LlamaResponseError::MissingUsageData => "Usage data missing in response"@,
                LlamaResponseError::MissingRole => "Role information missing"@,
                LlamaResponseError::JsonExtractionError(e) => "JSON extraction from XML failed: "@
                    + e@,
                LlamaResponseError::JsonFormatError(e) => "JSON pretty print formatting failed: "@
                    + e@,
                LlamaResponseError::ToolCallParseError(e) => "Tool call parsing error: "@ + e@,
            },
    {
        match self {
            LlamaResponseError::NoChoices => "No choices available in response".to_owned(),
            LlamaResponseError::MissingMessageContent =>
                "Message content missing in choice".to_owned(),
            LlamaResponseError::MissingUsageData => "Usage data missing in response".to_owned(),
            LlamaResponseError::MissingRole => "Role information missing".to_owned(),
            LlamaResponseError::JsonExtractionError(e) => join2(
                "JSON extraction from XML failed: ",
                e.as_str(),
            ),
            LlamaResponseError::JsonFormatError(e) => join2(
                "JSON pretty print formatting failed: ",
                e.as_str(),
            ),
            LlamaResponseError::ToolCallParseError(e) => join2(
                "Tool call parsing error: ",
                e.as_str(),
            ),
        }
    }
}

/// Why a call of the completion service gave no text.
#[derive(Clone, Debug, PartialEq)]
pub enum ChatInnerError {
    MissingApiKey(String),
    InvalidAuthHeader(String),
    SerializationError(String),
    ClientBuildError(String),
    EmptyChoices,
    MissingMessageContent,
    LlamaResponseProcessingError(String),
}

impl ChatInnerError {
    /// The message of this error.
    pub open spec fn text(self) -> Seq<char> {
        match self {
            ChatInnerError::MissingApiKey(e) => "API key retrieval failed: "@ + e@,
            ChatInnerError::InvalidAuthHeader(e) => "Invalid authorization header: "@ + e@,
            ChatInnerError::SerializationError(e) => "JSON serialization failed: "@ + e@,
            ChatInnerError::ClientBuildError(e) => "HTTP client build failed: "@ + e@,
            ChatInnerError::EmptyChoices => "Empty choices in response"@,
            ChatInnerError::MissingMessageContent => "Missing message content"@,
            ChatInnerError::LlamaResponseProcessingError(e) => "LLama response processing failed: "@
                + e@,
        }
    }

    /// The message of this error.
    pub fn message(&self) -> (text: String)
        ensures
            text@ == self.text(),
            text@ == match *self {
                ChatInnerError::MissingApiKey(e) => "API key retrieval failed: "@ + e@,
                ChatInnerError::InvalidAuthHeader(e) => "Invalid authorization header: "@ + e@,
                ChatInnerError::SerializationError(e) => "JSON serialization failed: "@ + e@,
                ChatInnerError::ClientBuildError(e) => "HTTP client build failed: "@ + e@,
                ChatInnerError::EmptyChoices => "Empty choices in response"@,
                ChatInnerError::MissingMessageContent => "Missing message content"@,
                ChatInnerError::LlamaResponseProcessingError(e) =>
                    "LLama response processing failed: "@ + e@,
            },
    {
        match self {
            ChatInnerError::MissingApiKey(e) => join2("API key retrieval failed: ", e.as_str()),
            ChatInnerError::InvalidAuthHeader(e) => join2(
                "Invalid authorization header: ",
                e.as_str(),
            ),
            ChatInnerError::SerializationError(e) => join2(
                "JSON serialization failed: ",
                e.as_str(),
            ),
            ChatInnerError::ClientBuildError(e) => join2("HTTP client build failed: ", e.as_str()),
            ChatInnerError::EmptyChoices => "Empty choices in response".to_owned(),
            ChatInnerError::MissingMessageContent => "Missing message content".to_owned(),
            ChatInnerError::LlamaResponseProcessingError(e) => join2(
                "LLama response processing failed: ",
                e.as_str(),
            ),
        }
    }
}

/// The text of the first choice of a completion response and the usage it
/// reports. `choices` holds, for each choice of the response in order, the
/// content of its message where it has one. A response without usage
/// counts as one that used nothing.
pub fn completion_text(usage: Option<CompletionUsage>, choices: Vec<Option<String>>) -> (r: Result<
    (String, CompletionUsage),
    ChatInnerError,
>)
    ensures
        r == (if choices@.len() == 0 {
            Err::<(String, CompletionUsage), ChatInnerError>(ChatInnerError::EmptyChoices)
        } else {
            match choices@[0] {
                None => Err(ChatInnerError::MissingMessageContent),
                Some(text) => Ok(
                    (
                        text,
                        match usage {
                            Some(u) => u,
                            None => CompletionUsage {
                                prompt_tokens: 0,
                                completion_tokens: 0,
                                total_tokens: 0,
                            },
                        },
                    ),
                ),
            }
        }),
{
    let usage = match usage {
        Some(u) => u,
        None => CompletionUsage::zero(),
    };
    let mut choices = choices;
    if choices.len() == 0 {
        return Err(ChatInnerError::EmptyChoices);
    }
    let first = choices.swap_remove(0);
    match first {
        Some(text) => Ok((text, usage)),
        None => Err(ChatInnerError::MissingMessageContent),
    }
}

} // verus!
