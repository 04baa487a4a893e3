//! A pool of cooperating language-model agents: a router that owns the agent
//! directory and the topic subscriptions, the worker protocol of one agent,
//! the interpretation of raw model replies, and the registry of tools that a
//! reply may call.
//!
//! The library decides and computes; it does no input or output. Whoever
//! runs it makes the calls of the completion service, runs the external
//! repair of JSON texts and moves the messages between the mailboxes, as the
//! functions here ask for it, and hands the outcomes back.
//!
//! Every function carries a contract, and Verus proves the contracts from
//! the code. The exceptions are the calls into `serde_json`, `regex`, `uuid`,
//! `jsonxf`, `urlencoding` and a few functions of `std`: each stands in a
//! small private function of its own whose contract is stated and taken on
//! trust.

pub mod agent_runtime;
pub mod convert;
pub mod envelope;
pub mod exec_python;
pub mod immutable_agent;
pub mod json;
pub mod llama;
pub mod llama_structs;
pub mod ordered;
pub mod pattern;
pub mod task_ledger;
pub mod text;
pub mod use_tool;
pub mod utils;
pub mod webscraper_hook;

use vstd::prelude::*;

verus! {

/// Where and how to reach a completion service.
#[derive(Clone, Copy, Debug, PartialEq)]
pub struct LlmConfig {
    pub model: &'static str,
    pub base_url: &'static str,
    pub context_size: usize,
    /// The name of the environment variable that holds the API key.
    pub api_key_str: &'static str,
}

impl LlmConfig {
    /// The service that an agent uses where it is configured with none.
    pub open spec fn spec_together() -> LlmConfig {
        LlmConfig {
            model: "google/gemma-2-9b-it",
            context_size: 8192,
            base_url: "https://api.together.xyz/v1/chat/completions",
            api_key_str: "TOGETHER_API_KEY",
        }
    }

    /// The service that an agent uses where it is configured with none.
    #[verifier::when_used_as_spec(spec_together)]
    pub fn together() -> (config: LlmConfig)
        ensures
            config == Self::spec_together(),
    {
        LlmConfig {
            model: "google/gemma-2-9b-it",
            context_size: 8192,
            base_url: "https://api.together.xyz/v1/chat/completions",
            api_key_str: "TOGETHER_API_KEY",
        }
    }
}

/// The system prompt of every agent that has tools.
pub const TEMPLATE_SYSTEM_PROMPT_TOOL_USE: &'static str =
    "You are an AI assistant that can use tools to help users. Think step-by-step about which tool is most appropriate for each task.";

/// The call of a function as a model asks for it: the JSON object of its
/// arguments, its name, and the type that it returns.
#[derive(Debug)]
pub struct FunctionCallInput {
    pub arguments_obj: crate::json::JsonValue,
    pub function_name: String,
    pub return_type: String,
}

/// The kind of an agent, by name.
#[derive(Debug, PartialEq)]
pub struct AgentType(pub String);

/// The weather report for a place whose name holds `New`; the same words
/// without a temperature, as an error, for any other place.
pub open spec fn weather_report(location: Seq<char>, unit: Seq<char>) -> Result<
    Seq<char>,
    Seq<char>,
> {
    if crate::text::contains(location, "New"@) {
        Ok("Weather for "@ + location + " in 25 "@ + unit + " "@)
    } else {
        Err("Weather for "@ + location + " in "@ + unit)
    }
}

/// A tool for trying the registry out: the current weather in a place.
pub fn get_current_weather(location: String, unit: String) -> (r: Result<
    String,
    crate::use_tool::FunctionToolError,
>)
    ensures
        match r {
            Ok(report) => weather_report(location@, unit@) == Ok::<Seq<char>, Seq<char>>(report@),
            Err(e) => weather_report(location@, unit@) == Err::<Seq<char>, Seq<char>>(e.0@),
        },
{
    let place = crate::text::chars_of(location.as_str());
    let wanted = crate::text::chars_of("New");
    if crate::text::contains_chars(&place, &wanted) {
        Ok(
            crate::text::join4("Weather for ", location.as_str(), " in 25 ", unit.as_str()).concat(
                " ",
            ),
        )
    } else {
        Err(
            crate::use_tool::FunctionToolError(
                crate::text::join4("Weather for ", location.as_str(), " in ", unit.as_str()),
            ),
        )
    }
}

/// What the user asks for with a line typed at the terminal.
#[derive(Debug, PartialEq)]
pub enum UserFeedback {
    /// End the program.
    Stop,
    /// Go back: no instruction is given.
    Back,
    /// The next instruction.
    Instruction(String),
}

/// A line without the line feed at its end and, behind that, without the
/// carriage return at its end.
pub open spec fn line_text(line: Seq<char>) -> Seq<char> {
    let cut = if line.len() > 0 && line.last() == '\n' {
        line.drop_last()
    } else {
        line
    };
    if cut.len() > 0 && cut.last() == '\r' {
        cut.drop_last()
    } else {
        cut
    }
}

/// What a line that the user typed asks for: `stop` ends the program,
/// `back` gives no instruction, and any other line is the instruction.
pub fn user_feedback(line: &str) -> (r: UserFeedback)
    ensures
        match r {
            UserFeedback::Stop => line_text(line@) == "stop"@,
            UserFeedback::Back => line_text(line@) == "back"@,
            UserFeedback::Instruction(text) => text@ == line_text(line@) && text@ != "stop"@
                && text@ != "back"@,
        },
{
    let chars = crate::text::chars_of(line);
    let mut end = chars.len();
    if end > 0 && chars[end - 1] == '\n' {
        end -= 1;
    }
    assert(chars@.take(end as int) =~= if line@.len() > 0 && line@.last() == '\n' {
        line@.drop_last()
    } else {
        line@
    });
    let ghost cut = chars@.take(end as int);
    if end > 0 && chars[end - 1] == '\r' {
        end -= 1;
        assert(chars@.take(end as int) =~= cut.drop_last());
    }
    let text = line.substring_char(0, end);
    assert(text@ =~= line_text(line@));
    if crate::text::str_equal(text, "stop") {
        UserFeedback::Stop
    } else if crate::text::str_equal(text, "back") {
        UserFeedback::Back
    } else {
        UserFeedback::Instruction(text.to_owned())
    }
}

} // verus!
