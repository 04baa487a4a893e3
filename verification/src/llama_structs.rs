//! The one-pass reading of a completion response: the reply must be
//! tagged; what the tags hold is read as a tool call or kept as JSON, and
//! a body that cannot be read leaves the reply as plain text.

use crate::json::JsonTree;
use crate::json::JsonValue;
use crate::json::json_document;
use crate::json::json_text;
use crate::json::parse_json;
use crate::llama::CompletionUsage;
use crate::llama::LlamaResponseError;
use crate::llama::Role;
use crate::llama::ToolCall;
use crate::llama::ToolCallView;
use crate::llama::llama_utils::ExtractError;
use crate::llama::llama_utils::ExtractFailure;
use crate::llama::llama_utils::RepairError;
use crate::llama::llama_utils::TOOL_CALL_PATTERN;
use crate::llama::llama_utils::arguments_of_document;
use crate::llama::llama_utils::extract_json_from_xml_like;
use crate::llama::llama_utils::match_of;
use crate::llama::llama_utils::match_result;
use crate::llama::llama_utils::tagged_body;
use crate::llama::llama_utils::tool_call_arguments;
use crate::pattern::Groups;
use crate::pattern::first_match;
use crate::pattern::group;
use crate::pattern::group_text;
use crate::text::debug_option;
use crate::text::debug_option_text;
use crate::text::join2;
use crate::text::join4;
use vstd::prelude::*;

verus! {

/// What the tags of a reply hold: a tool call, or some other JSON.
#[derive(Debug)]
pub enum JsonStr {
    ToolCall(ToolCall),
    JsonLoad(JsonValue),
}

pub enum JsonStrView {
    ToolCall(ToolCallView),
    JsonLoad(JsonTree),
}

impl View for JsonStr {
    type V = JsonStrView;

    open spec fn view(&self) -> JsonStrView {
        match self {
            JsonStr::ToolCall(call) => JsonStrView::ToolCall(call@),
            JsonStr::JsonLoad(value) => JsonStrView::JsonLoad(value@),
        }
    }
}

/// The content of a reply.
#[derive(Debug)]
pub enum Content {
    Text(String),
    JsonStr(JsonStr),
}

pub enum ContentView {
    Text(Seq<char>),
    JsonStr(JsonStrView),
}

impl View for Content {
    type V = ContentView;

    open spec fn view(&self) -> ContentView {
        match self {
            Content::Text(text) => ContentView::Text(text@),
            Content::JsonStr(json) => ContentView::JsonStr(json@),
        }
    }
}

/// A content as one text.
pub open spec fn content_text(content: ContentView) -> Seq<char> {
    match content {
        ContentView::Text(text) => text,
        ContentView::JsonStr(JsonStrView::ToolCall(call)) => "tool_call: "@ + call.name
            + ", arguments: "@ + debug_option_text(call.arguments),
        ContentView::JsonStr(JsonStrView::JsonLoad(value)) => "json_load: "@ + json_text(value),
    }
}

/// What a text holds, read without any repair: a tool call where it is a
/// JSON document with a member `name` that is a string, the document
/// where it is another JSON document, and the text itself where it is no
/// JSON.
pub open spec fn content_of(input: Seq<char>) -> ContentView {
    match json_document(input) {
        Some(doc) => match doc.get_str("name"@) {
            Some(name) => ContentView::JsonStr(
                JsonStrView::ToolCall(
                    ToolCallView {
                        name,
                        arguments: match doc.get("arguments"@) {
                            Some(arguments) => Some(json_text(arguments)),
                            None => None,
                        },
                    },
                ),
            ),
            None => ContentView::JsonStr(JsonStrView::JsonLoad(doc)),
        },
        None => ContentView::Text(input),
    }
}

impl Content {
    /// The content as one text.
    pub fn content_to_string(&self) -> (text: String)
        ensures
            text@ == content_text(self@),
    {
        match self {
            Content::Text(text) => text.clone(),
            Content::JsonStr(JsonStr::ToolCall(call)) => {
                let arguments = debug_option(&call.arguments);
                join4("tool_call: ", call.name.as_str(), ", arguments: ", arguments.as_str())
            },
            Content::JsonStr(JsonStr::JsonLoad(value)) => {
                let json = value.to_json_string();
                join2("json_load: ", json.as_str())
            },
        }
    }

    /// Reads a text without any repair.
    pub fn from_str(input: &str) -> (content: Content)
        ensures
            content@ == content_of(input@),
    {
        match parse_json(input) {
            Ok(value) => {
                let name = match value.get("name") {
                    Some(name) => match name.as_str() {
                        Some(name) => Some(name.to_owned()),
                        None => None,
                    },
                    None => None,
                };
                match name {
                    Some(name) => {
                        let arguments = match value.get("arguments") {
                            Some(arguments) => Some(arguments.to_json_string()),
                            None => None,
                        };
                        Content::JsonStr(JsonStr::ToolCall(ToolCall { name, arguments }))
                    },
                    None => Content::JsonStr(JsonStr::JsonLoad(value)),
                }
            },
            Err(_) => Content::Text(input.to_owned()),
        }
    }
}

/// A reply of the model, with the role it speaks in and the usage that
/// the service reported.
#[derive(Debug)]
pub struct LlamaResponseMessage {
    pub content: Content,
    pub role: Role,
    pub usage: CompletionUsage,
}

impl LlamaResponseMessage {
    /// The content as one text.
    pub fn content_to_string(&self) -> (text: String)
        ensures
            text@ == content_text(self.content@),
    {
        self.content.content_to_string()
    }
}

/// The result of a reading, with views for values and kinds for errors.
pub open spec fn json_str_result(r: Result<JsonStr, ExtractError>) -> Result<
    JsonStrView,
    ExtractFailure,
> {
    match r {
        Ok(json) => Ok(json@),
        Err(e) => Err(e.failure()),
    }
}

/// The tool call that a match of the tool-call pattern holds: group 1 is
/// the arguments, group 2 the name.
pub open spec fn capture_outcome(found: Result<Option<Seq<Option<Seq<char>>>>, ()>) -> Result<
    JsonStrView,
    ExtractFailure,
> {
    match found {
        Err(_) => Err(ExtractFailure::Regex),
        Ok(None) => Err(ExtractFailure::InvalidInput),
        Ok(Some(groups)) => match group_text(groups, 1) {
            None => Err(ExtractFailure::NoArguments),
            Some(arguments) => match group_text(groups, 2) {
                None => Err(ExtractFailure::NoName),
                Some(name) => Ok(
                    JsonStrView::ToolCall(ToolCallView { name, arguments: Some(arguments) }),
                ),
            },
        },
    }
}

/// What a repaired document holds. A document without a member `name`
/// names no tool, which is an error; one whose name is a string is a tool
/// call, with its member `arguments`, whole and in compact form, as the
/// arguments; one whose name is anything else falls back to the match of
/// the tool-call pattern in the raw text.
pub open spec fn document_outcome(
    doc: JsonTree,
    fallback: Result<Option<Seq<Option<Seq<char>>>>, ()>,
) -> Result<JsonStrView, ExtractFailure> {
    match doc.get("name"@) {
        None => Err(ExtractFailure::NoName),
        Some(JsonTree::String(name)) => Ok(
            JsonStrView::ToolCall(
                ToolCallView { name, arguments: arguments_of_document(doc) },
            ),
        ),
        Some(_) => capture_outcome(fallback),
    }
}

/// What is read from `input`, given what the repair of `input` produced.
pub open spec fn json_str_outcome(input: Seq<char>, repaired: Result<String, RepairError>) -> Result<
    JsonStrView,
    ExtractFailure,
> {
    match repaired {
        Err(_) => Err(ExtractFailure::Repair),
        Ok(text) => match json_document(text@) {
            None => Err(ExtractFailure::Json),
            Some(doc) => document_outcome(doc, match_of(TOOL_CALL_PATTERN@, input)),
        },
    }
}

/// The tool call that a match of the tool-call pattern holds.
pub fn json_str_from_capture(found: Result<Option<Groups>, String>) -> (r: Result<
    JsonStr,
    ExtractError,
>)
    ensures
        json_str_result(r) == capture_outcome(match_result(found)),
{
    match found {
        Err(e) => Err(ExtractError::RegexError(e)),
        Ok(None) => Err(ExtractError::InvalidInput),
        Ok(Some(groups)) => {
            let arguments = match group(&groups, 1) {
                Some(arguments) => arguments.clone(),
                None => {
                    return Err(ExtractError::NoArguments);
                },
            };
            let name = match group(&groups, 2) {
                Some(name) => name.clone(),
                None => {
                    return Err(ExtractError::NoName);
                },
            };
            Ok(JsonStr::ToolCall(ToolCall { name, arguments: Some(arguments) }))
        },
    }
}

/// Reads the tool call that a reply's body holds, given what the external
/// repair made of the body.
pub fn extract_tool_call_json(input: &str, repaired: &Result<String, RepairError>) -> (r: Result<
    JsonStr,
    ExtractError,
>)
    ensures
        json_str_result(r) == json_str_outcome(input@, *repaired),
{
    let repaired_input = match repaired {
        Ok(text) => text,
        Err(e) => {
            return Err(ExtractError::RepairError(e.clone()));
        },
    };
    let parsed = match parse_json(repaired_input.as_str()) {
        Ok(doc) => doc,
        Err(e) => {
            return Err(ExtractError::JsonError(e));
        },
    };
    let name = match parsed.get("name") {
        None => {
            return Err(ExtractError::NoName);
        },
        Some(name) => match name.as_str() {
            Some(name) => Some(name.to_owned()),
            None => None,
        },
    };
    match name {
        Some(name) => {
            let arguments = tool_call_arguments(&parsed);
            Ok(JsonStr::ToolCall(ToolCall { name, arguments }))
        },
        None => json_str_from_capture(first_match(TOOL_CALL_PATTERN, input)),
    }
}

/// The pretty form of a JSON text as `jsonxf::pretty_print` writes it, or
/// the message of its error.
pub uninterp spec fn pretty_json(text: Seq<char>) -> Result<Seq<char>, Seq<char>>;

/// `jsonxf::pretty_print`: it reformats the text byte by byte, so that its
/// result, the pretty text or the message of an error, depends on the
/// text alone.
#[verifier::external_body]
fn jsonxf_pretty_print(text: &str) -> (r: Result<String, String>)
    ensures
        match r {
            Ok(pretty) => pretty_json(text@) == Ok::<Seq<char>, Seq<char>>(pretty@),
            Err(e) => pretty_json(text@) == Err::<Seq<char>, Seq<char>>(e@),
        },
{
    jsonxf::pretty_print(text)
}

/// The pretty form of a JSON text.
pub fn pretty_print(text: &str) -> (r: Result<String, String>)
    ensures
        match r {
            Ok(pretty) => pretty_json(text@) == Ok::<Seq<char>, Seq<char>>(pretty@),
            Err(e) => pretty_json(text@) == Err::<Seq<char>, Seq<char>>(e@),
        },
{
    jsonxf_pretty_print(text)
}

/// The first choice of a completion response: the role of its message and
/// the content of the message, where it has one.
pub struct Choice {
    pub role: Role,
    pub content: Option<String>,
}

/// The kinds of `LlamaResponseError`, without their messages.
pub enum ResponseFailure {
    NoChoices,
    MissingMessageContent,
    MissingUsageData,
    JsonExtraction,
    JsonFormat,
}

/// Why a response has no body to read; `None` where it has one. The
/// response must report its usage, have a choice with a content, and the
/// content must be tagged and hold what can be printed as JSON.
pub open spec fn response_failure(usage: Option<CompletionUsage>, first: Option<Choice>) -> Option<
    ResponseFailure,
> {
    if usage is None {
        Some(ResponseFailure::MissingUsageData)
    } else {
        match first {
            None => Some(ResponseFailure::NoChoices),
            Some(choice) => match choice.content {
                None => Some(ResponseFailure::MissingMessageContent),
                Some(data) => match tagged_body(data@) {
                    None => Some(ResponseFailure::JsonExtraction),
                    Some(body) => if pretty_json(body) is Err {
                        Some(ResponseFailure::JsonFormat)
                    } else {
                        None
                    },
                },
            },
        }
    }
}

/// The kind of an error of a response.
pub open spec fn response_error_kind(e: LlamaResponseError) -> Option<ResponseFailure> {
    match e {
        LlamaResponseError::NoChoices => Some(ResponseFailure::NoChoices),
        LlamaResponseError::MissingMessageContent => Some(ResponseFailure::MissingMessageContent),
        LlamaResponseError::MissingUsageData => Some(ResponseFailure::MissingUsageData),
        LlamaResponseError::JsonExtractionError(_) => Some(ResponseFailure::JsonExtraction),
        LlamaResponseError::JsonFormatError(_) => Some(ResponseFailure::JsonFormat),
        _ => None,
    }
}

/// Reads a completion response in one pass.
///
/// `repair` is the external repair of a JSON text. The reply must be
/// tagged: a reply without tags is an error. The body between the tags is
/// repaired and read; where that fails, the reply is kept as plain text.
pub fn output_llama_response<R: Fn(&str) -> Result<String, RepairError>>(
    usage: Option<CompletionUsage>,
    first_choice: Option<Choice>,
    repair: R,
) -> (r: Result<LlamaResponseMessage, LlamaResponseError>)
    requires
        forall|text: &str| call_requires(repair, (text,)),
    ensures
        match r {
            Err(e) => response_error_kind(e) == response_failure(usage, first_choice)
                && response_failure(usage, first_choice) is Some,
            Ok(message) => {
                &&& response_failure(usage, first_choice) is None
                &&& message.usage == usage->Some_0
                &&& message.role == first_choice->Some_0.role
                &&& exists|body: &str, repaired: Result<String, RepairError>|
                    {
                        &&& Some(body@) == tagged_body(first_choice->Some_0.content->Some_0@)
                        &&& call_ensures(repair, (body,), repaired)
                        &&& message.content@ == #[trigger] degraded(
                            first_choice->Some_0.content->Some_0@,
                            json_str_outcome(body@, repaired),
                        )
                    }
            },
        },
{
    let usage = match usage {
        Some(usage) => usage,
        None => {
            return Err(LlamaResponseError::MissingUsageData);
        },
    };
    let choice = match first_choice {
        Some(choice) => choice,
        None => {
            return Err(LlamaResponseError::NoChoices);
        },
    };
    let role = choice.role;
    let data = match choice.content {
        Some(data) => data,
        None => {
            return Err(LlamaResponseError::MissingMessageContent);
        },
    };
    let json_str = match extract_json_from_xml_like(data.as_str()) {
        Ok(body) => body,
        Err(e) => {
            return Err(LlamaResponseError::JsonExtractionError(e.message()));
        },
    };
    match pretty_print(json_str.as_str()) {
        Ok(_) => {},
        Err(e) => {
            return Err(LlamaResponseError::JsonFormatError(e));
        },
    }
    let body = json_str.as_str();
    let repaired = repair(body);
    let content = match extract_tool_call_json(body, &repaired) {
        Ok(json_data) => Content::JsonStr(json_data),
        Err(_) => Content::Text(data),
    };
    assert(content@ == degraded(data@, json_str_outcome(body@, repaired)));
    Ok(LlamaResponseMessage { content, role, usage })
}

/// The content of a tagged reply: what its body holds, or the whole reply
/// as plain text where the body cannot be read.
pub open spec fn degraded(data: Seq<char>, read: Result<JsonStrView, ExtractFailure>) -> ContentView {
    match read {
        Ok(json) => ContentView::JsonStr(json),
        Err(_) => ContentView::Text(data),
    }
}

} // verus!
