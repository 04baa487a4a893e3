use autogen_rust::LlmConfig;
use autogen_rust::TEMPLATE_SYSTEM_PROMPT_TOOL_USE;
use autogen_rust::get_current_weather;
use autogen_rust::immutable_agent::Answer;
use autogen_rust::immutable_agent::BuilderError;
use autogen_rust::immutable_agent::CompletionError;
use autogen_rust::immutable_agent::DEFAULT_ATTEMPTS;
use autogen_rust::immutable_agent::LlmAgent;
use autogen_rust::immutable_agent::Message;
use autogen_rust::immutable_agent::Next;
use autogen_rust::immutable_agent::TaskOutput;
use autogen_rust::immutable_agent::dispatch;
use autogen_rust::immutable_agent::settle;
use autogen_rust::json::parse_json;
use autogen_rust::llama::ChatInnerError;
use autogen_rust::llama::CompletionUsage;
use autogen_rust::llama::Content;
use autogen_rust::llama::LlamaResponseError;
use autogen_rust::llama::LlamaResponseMessage;
use autogen_rust::llama::ParseError;
use autogen_rust::llama::Role;
use autogen_rust::llama::StructuredText;
use autogen_rust::llama::Task;
use autogen_rust::llama::ToolCall;
use autogen_rust::llama::completion_text;
use autogen_rust::llama::llama_utils::RepairError;
use autogen_rust::use_tool::FunctionToolError;
use autogen_rust::use_tool::Tool;
use autogen_rust::use_tool::ToolStore;

type Formatter = fn(&str, &str) -> String;
type ToolFn = fn(&Vec<String>) -> Result<String, FunctionToolError>;

const WEATHER_META: &str = "[{\"type\": \"function\", \"function\": {\"name\": \"get_current_weather\", \"description\": \"Get the current weather in a given location\"}}]";
const WEATHER_CALL: &str = "<tool_call>{\"name\":\"get_current_weather\",\"arguments\":{\"location\":\"New York\",\"unit\":\"celsius\"}}</tool_call>";

fn weather(args: &Vec<String>) -> Result<String, FunctionToolError> {
    get_current_weather(args[0].clone(), args[1].clone())
}

fn store() -> ToolStore<ToolFn> {
    let mut store: ToolStore<ToolFn> = ToolStore::new();
    store.register(Tool {
        name: "get_current_weather".to_string(),
        function: weather,
        tool_def_obj: WEATHER_META.to_string(),
        arg_names: vec!["location".to_string(), "unit".to_string()],
        arg_types: vec!["String".to_string(), "String".to_string()],
    });
    store
}

fn tool_agent() -> LlmAgent<Formatter> {
    LlmAgent::build(
        "ignored".to_string(),
        None,
        None,
        Some(parse_json(WEATHER_META).unwrap()),
        "weather agent".to_string(),
    )
    .ok()
    .unwrap()
}

fn plan_prompt(task: &str, tools: &str) -> String {
    format!("plan {} with {}", task, tools)
}

fn usage(n: u32) -> CompletionUsage {
    CompletionUsage { prompt_tokens: n, completion_tokens: n, total_tokens: 2 * n }
}

fn reply(text: &str) -> Result<(String, CompletionUsage), ChatInnerError> {
    Ok((text.to_string(), usage(1)))
}

/// Feeds the replies to a completion one after the other, repairing each
/// body to itself, and gives the outcome and the number of calls made.
fn run(
    agent: &LlmAgent<Formatter>,
    attempts: usize,
    replies: &[Result<(String, CompletionUsage), ChatInnerError>],
) -> (Result<LlamaResponseMessage, CompletionError>, usize) {
    let mut next = agent.start("task", attempts);
    let mut calls = 0;
    loop {
        next = match next {
            Next::Done(outcome) => return (outcome, calls),
            Next::Call(pending) => {
                let r = replies[calls].clone();
                calls += 1;
                pending.reply(r)
            },
            Next::Repair(pending) => {
                let body = pending.text().clone();
                pending.repaired(Ok(body))
            },
        }
    }
}

#[test]
fn agent_without_tools_keeps_its_prompt() {
    let agent: LlmAgent<Formatter> =
        LlmAgent::build("prompt".to_string(), None, None, None, "d".to_string()).ok().unwrap();
    assert_eq!(agent.system_prompt, "prompt");
    assert!(agent.tool_names().is_empty());
    assert_eq!(agent.task_type(), TaskOutput::text);
    assert_eq!(agent.user_prompt("do it"), "here is your task: do it");
    assert_eq!(agent.tools_json(), "\"\"");
}

#[test]
fn agent_with_tools_gets_the_tool_prompt_and_the_names() {
    let meta = parse_json(
        "[{\"name\": \"a\"}, {\"function\": {\"name\": \"b\"}}, {\"name\": 5, \"function\": {\"name\": \"c\"}}]",
    )
    .unwrap();
    let agent: LlmAgent<Formatter> =
        LlmAgent::build("prompt".to_string(), None, None, Some(meta), "d".to_string()).ok().unwrap();
    assert_eq!(agent.system_prompt, TEMPLATE_SYSTEM_PROMPT_TOOL_USE);
    assert_eq!(agent.tool_names(), &vec!["a".to_string(), "b".to_string(), "c".to_string()]);
    assert_eq!(agent.task_type(), TaskOutput::tool_call);
}

#[test]
fn metadata_that_is_no_array_lists_no_tools() {
    let meta = parse_json("{\"name\": \"a\"}").unwrap();
    let agent: LlmAgent<Formatter> =
        LlmAgent::build("prompt".to_string(), None, None, Some(meta), "d".to_string()).ok().unwrap();
    assert!(agent.tool_names().is_empty());
    assert_eq!(agent.system_prompt, TEMPLATE_SYSTEM_PROMPT_TOOL_USE);
    assert_eq!(agent.task_type(), TaskOutput::text);
    assert_eq!(agent.tools_json(), "{\"name\":\"a\"}");
}

#[test]
fn tool_entry_without_name_is_an_error() {
    let meta = parse_json("[{\"name\": \"a\"}, {\"function\": {\"nom\": \"b\"}}, {}]").unwrap();
    let r: Result<LlmAgent<Formatter>, BuilderError> =
        LlmAgent::build("prompt".to_string(), None, None, Some(meta), "d".to_string());
    let e = r.err().unwrap();
    assert_eq!(
        e,
        BuilderError::ToolNameNotFound { index: 1, data: "{\"function\":{\"nom\":\"b\"}}".to_string() }
    );
    assert_eq!(
        e.message(),
        "Tool name not found in metadata at index 1: {\"function\":{\"nom\":\"b\"}}"
    );
    assert_eq!(
        BuilderError::MetaSerializationFailure("x".to_string()).message(),
        "Failed to serialize tools metadata: x"
    );
}

#[test]
fn planner_is_an_agent_that_formats_its_prompt_and_speaks_of_a_plan() {
    let planner: LlmAgent<Formatter> = LlmAgent::build(
        "p".to_string(),
        Some(plan_prompt as Formatter),
        None,
        None,
        "Planner agent".to_string(),
    )
    .ok()
    .unwrap();
    assert_eq!(planner.task_type(), TaskOutput::tasks);
    assert_eq!(planner.user_prompt("x"), "plan x with \"\"");
    let no_formatter: LlmAgent<Formatter> =
        LlmAgent::build("p".to_string(), None, None, None, "planner".to_string()).ok().unwrap();
    assert_eq!(no_formatter.task_type(), TaskOutput::text);
    let no_plan: LlmAgent<Formatter> = LlmAgent::build(
        "p".to_string(),
        Some(plan_prompt as Formatter),
        None,
        None,
        "assistant".to_string(),
    )
    .ok()
    .unwrap();
    assert_eq!(no_plan.task_type(), TaskOutput::text);
}

#[test]
fn completion_starts_with_the_call_to_make() {
    let agent = tool_agent();
    match agent.start("task", DEFAULT_ATTEMPTS) {
        Next::Call(pending) => {
            let call = pending.call();
            assert_eq!(call.config, LlmConfig::together());
            assert_eq!(call.system_prompt, TEMPLATE_SYSTEM_PROMPT_TOOL_USE);
            assert_eq!(call.user_prompt, "here is your task: task");
            assert_eq!(call.max_token, 1000);
        },
        _ => panic!("the completion should start with a call"),
    }
    let own = LlmConfig { model: "m", base_url: "u", context_size: 1, api_key_str: "K" };
    let configured: LlmAgent<Formatter> = LlmAgent::build(
        "p".to_string(),
        None,
        Some(own),
        Some(parse_json(WEATHER_META).unwrap()),
        "d".to_string(),
    )
    .ok()
    .unwrap();
    match configured.start("task", DEFAULT_ATTEMPTS) {
        Next::Call(pending) => assert_eq!(pending.call().config, own),
        _ => panic!("the completion should start with a call"),
    }
}

#[test]
fn plain_text_reply_is_the_content() {
    let agent: LlmAgent<Formatter> =
        LlmAgent::build("prompt".to_string(), None, None, None, "d".to_string()).ok().unwrap();
    let (outcome, calls) = run(&agent, DEFAULT_ATTEMPTS, &[reply("3")]);
    assert_eq!(calls, 1);
    assert_eq!(
        outcome,
        Ok(LlamaResponseMessage {
            content: Content::Text("3".to_string()),
            role: Role::Assistant,
            usage: usage(1),
        })
    );
}

#[test]
fn plain_text_agent_calls_once_even_where_the_call_fails() {
    let agent: LlmAgent<Formatter> =
        LlmAgent::build("prompt".to_string(), None, None, None, "d".to_string()).ok().unwrap();
    let failure = ChatInnerError::ClientBuildError("down".to_string());
    let (outcome, calls) = run(&agent, 5, &[Err(failure.clone()), reply("late")]);
    assert_eq!(calls, 1);
    assert_eq!(outcome, Err(CompletionError::Chat(failure)));
}

#[test]
fn tool_dispatch_scenario() {
    let agent = tool_agent();
    let (outcome, calls) = run(&agent, DEFAULT_ATTEMPTS, &[reply(WEATHER_CALL)]);
    assert_eq!(calls, 1);
    let message = outcome.unwrap();
    assert_eq!(
        message.content,
        Content::Structured(StructuredText::ToolCall(ToolCall {
            name: "get_current_weather".to_string(),
            arguments: Some("{\"location\":\"New York\",\"unit\":\"celsius\"}".to_string()),
        }))
    );
    let published = dispatch(message, &store());
    assert_eq!(published.content, Content::Text("Weather for New York in 25 celsius ".to_string()));
    assert_eq!(published.role, Role::Assistant);
    assert_eq!(published.usage, usage(1));
}

#[test]
fn last_attempt_succeeds_after_unparsable_attempts() {
    let agent = tool_agent();
    for budget in 1..=4usize {
        let mut replies = vec![reply("no tags here"); budget - 1];
        replies.push(reply(WEATHER_CALL));
        replies.push(reply("never asked for"));
        let (outcome, calls) = run(&agent, budget, &replies);
        assert_eq!(calls, budget);
        let published = dispatch(outcome.unwrap(), &store());
        assert_eq!(
            published.content,
            Content::Text("Weather for New York in 25 celsius ".to_string())
        );
    }
}

#[test]
fn exhausted_attempts_end_with_the_last_error() {
    let agent = tool_agent();
    let replies = [
        reply("no tags"),
        Err(ChatInnerError::EmptyChoices),
        reply("<tool_call>{\"arguments\": {}}</tool_call>"),
        reply(WEATHER_CALL),
    ];
    let (outcome, calls) = run(&agent, 3, &replies);
    assert_eq!(calls, 3);
    assert_eq!(
        outcome,
        Err(CompletionError::Response(LlamaResponseError::ToolCallParseError(
            "No name found in tool call".to_string()
        )))
    );
    let (outcome, calls) = run(&agent, 2, &replies);
    assert_eq!(calls, 2);
    assert_eq!(outcome, Err(CompletionError::Chat(ChatInnerError::EmptyChoices)));
    let (outcome, calls) = run(&agent, 1, &replies);
    assert_eq!(calls, 1);
    let e = outcome.unwrap_err();
    assert_eq!(
        e,
        CompletionError::Response(LlamaResponseError::JsonExtractionError(
            "Invalid XML format: missing or mismatched tool_call tags".to_string()
        ))
    );
    assert_eq!(
        e.message(),
        "JSON extraction from XML failed: Invalid XML format: missing or mismatched tool_call tags"
    );
}

#[test]
fn default_budget_is_three_attempts() {
    let agent = tool_agent();
    assert_eq!(DEFAULT_ATTEMPTS, 3);
    let mut next = agent.default_method("task");
    let mut calls = 0;
    let outcome = loop {
        next = match next {
            Next::Done(outcome) => break outcome,
            Next::Call(pending) => {
                assert_eq!(pending.call().user_prompt, "here is your task: task");
                calls += 1;
                pending.reply(reply("never a tool call"))
            },
            Next::Repair(pending) => pending.repaired(Err(RepairError::Io("unused".to_string()))),
        }
    };
    assert_eq!(calls, 3);
    assert!(matches!(
        outcome,
        Err(CompletionError::Response(LlamaResponseError::JsonExtractionError(_)))
    ));
}

fn answer(text: &str) -> Answer {
    let body = text.trim().trim_start_matches("<tool_call>").trim_end_matches("</tool_call>");
    Answer { reply: reply(text), repaired: Ok(body.trim().to_string()) }
}

#[test]
fn replay_calls_the_service_once_for_each_attempt_of_the_budget() {
    let agent = tool_agent();
    for budget in 1..=6usize {
        let mut answers: Vec<Answer> = (1..budget).map(|_| answer("no tags here")).collect();
        answers.push(answer(WEATHER_CALL));
        answers.push(answer("never asked for"));
        let pending = match agent.start("task", budget) {
            Next::Call(pending) => pending,
            _ => panic!("the completion should start with a call"),
        };
        let (outcome, calls) = pending.replay(answers);
        assert_eq!(calls, budget);
        let settled = settle(outcome.unwrap(), &store()).unwrap();
        assert_eq!(
            settled.content,
            Content::Text("Weather for New York in 25 celsius ".to_string())
        );
        assert_eq!(settled.role, Role::Assistant);

        let failing: Vec<Answer> = (0..budget + 2).map(|_| answer("no tags here")).collect();
        let pending = match agent.start("task", budget) {
            Next::Call(pending) => pending,
            _ => panic!("the completion should start with a call"),
        };
        let (outcome, calls) = pending.replay(failing);
        assert_eq!(calls, budget);
        let failure = outcome.unwrap().unwrap_err();
        assert!(matches!(
            failure,
            CompletionError::Response(LlamaResponseError::JsonExtractionError(_))
        ));
        assert_eq!(settle(Err(failure.clone()), &store()), Err(failure));
    }
}

#[test]
fn replay_waits_where_the_answers_are_used_up() {
    let agent = tool_agent();
    let pending = match agent.start("task", 3) {
        Next::Call(pending) => pending,
        _ => panic!("the completion should start with a call"),
    };
    let (outcome, calls) = pending.replay(vec![answer("no tags"), answer("none either")]);
    assert_eq!(calls, 2);
    assert!(outcome.is_none());
    let pending = match agent.start("task", 3) {
        Next::Call(pending) => pending,
        _ => panic!("the completion should start with a call"),
    };
    let (outcome, calls) = pending.replay(vec![]);
    assert_eq!(calls, 0);
    assert!(outcome.is_none());
}

#[test]
fn budget_of_zero_makes_one_attempt() {
    let agent = tool_agent();
    let (outcome, calls) = run(&agent, 0, &[reply("no tags"), reply(WEATHER_CALL)]);
    assert_eq!(calls, 1);
    assert!(outcome.is_err());
}

#[test]
fn first_success_ends_the_completion() {
    let agent = tool_agent();
    let (outcome, calls) = run(&agent, 3, &[reply("x"), reply(WEATHER_CALL), reply("y")]);
    assert_eq!(calls, 2);
    assert!(outcome.is_ok());
}

#[test]
fn failed_repair_counts_as_a_failed_attempt() {
    let agent = tool_agent();
    let next = match agent.start("task", 2) {
        Next::Call(pending) => pending.reply(reply(WEATHER_CALL)),
        _ => panic!("the completion should start with a call"),
    };
    let next = match next {
        Next::Repair(pending) => {
            assert_eq!(
                pending.text(),
                "{\"name\":\"get_current_weather\",\"arguments\":{\"location\":\"New York\",\"unit\":\"celsius\"}}"
            );
            pending.repaired(Err(RepairError::Io("no repair tool".to_string())))
        },
        _ => panic!("the body should go to the repair"),
    };
    let next = match next {
        Next::Call(pending) => pending.reply(reply(WEATHER_CALL)),
        _ => panic!("one attempt should be left"),
    };
    let next = match next {
        Next::Repair(pending) => pending.repaired(Err(RepairError::Io("still none".to_string()))),
        _ => panic!("the body should go to the repair"),
    };
    match next {
        Next::Done(Err(e)) => assert_eq!(
            e.message(),
            "Tool call parsing error: JSON repair failed: IO error: still none"
        ),
        _ => panic!("the completion should end with the error"),
    }
}

#[test]
fn planner_reads_the_task_list_and_retries() {
    let planner: LlmAgent<Formatter> = LlmAgent::build(
        "p".to_string(),
        Some(plan_prompt as Formatter),
        None,
        None,
        "planner".to_string(),
    )
    .ok()
    .unwrap();
    let plan = "{\"tasks\": [{\"name\": \"a\", \"description\": \"first\", \"tool\": null}]}";
    let (outcome, calls) = run(&planner, 3, &[reply("sorry"), reply(plan)]);
    assert_eq!(calls, 2);
    assert_eq!(
        outcome.unwrap().content,
        Content::Structured(StructuredText::Tasks(vec![Task {
            name: "a".to_string(),
            description: "first".to_string(),
            tool: None
        }]))
    );
    let (outcome, calls) = run(&planner, 3, &[reply("sorry"), reply("no"), reply("never")]);
    assert_eq!(calls, 3);
    let e = outcome.unwrap_err();
    assert_eq!(e, CompletionError::Planning(ParseError::CaptureError));
    assert_eq!(
        e.message(),
        "Failed to parse planning tasks: Failed to find required pattern in input"
    );
}

#[test]
fn user_feedback_agent_calls_its_tool_without_the_model() {
    let meta = parse_json("[{\"name\": \"get_user_feedback\"}]").unwrap();
    let agent: LlmAgent<Formatter> =
        LlmAgent::build("p".to_string(), None, None, Some(meta), "user proxy".to_string())
            .ok()
            .unwrap();
    let (outcome, calls) = run(&agent, 3, &[]);
    assert_eq!(calls, 0);
    let message = outcome.unwrap();
    assert_eq!(
        message.content,
        Content::Structured(StructuredText::ToolCall(ToolCall {
            name: "get_user_feedback".to_string(),
            arguments: None
        }))
    );
    let published = dispatch(message, &store());
    assert_eq!(published.content, Content::Text("Tool get_user_feedback not found".to_string()));
}

#[test]
fn dispatch_reports_tool_failures_as_text() {
    let failing = LlamaResponseMessage {
        content: Content::Structured(StructuredText::ToolCall(ToolCall {
            name: "get_current_weather".to_string(),
            arguments: Some("{\"location\":\"Paris\",\"unit\":\"celsius\"}".to_string()),
        })),
        role: Role::Assistant,
        usage: usage(2),
    };
    assert_eq!(
        dispatch(failing, &store()).content,
        Content::Text(
            "Error executing tool get_current_weather: Weather for Paris in celsius".to_string()
        )
    );
    let unknown = LlamaResponseMessage {
        content: Content::Structured(StructuredText::ToolCall(ToolCall {
            name: "nothing".to_string(),
            arguments: None,
        })),
        role: Role::Assistant,
        usage: usage(2),
    };
    assert_eq!(dispatch(unknown, &store()).content, Content::Text("Tool nothing not found".to_string()));
    let missing = LlamaResponseMessage {
        content: Content::Structured(StructuredText::ToolCall(ToolCall {
            name: "get_current_weather".to_string(),
            arguments: Some("{\"location\":\"New York\"}".to_string()),
        })),
        role: Role::Assistant,
        usage: usage(2),
    };
    assert_eq!(
        dispatch(missing, &store()).content,
        Content::Text("Error executing tool get_current_weather: Missing argument: unit".to_string())
    );
    let plain = LlamaResponseMessage {
        content: Content::Text("as it is".to_string()),
        role: Role::User,
        usage: usage(3),
    };
    let same = dispatch(plain, &store());
    assert_eq!(same.content, Content::Text("as it is".to_string()));
    assert_eq!(same.role, Role::User);
    assert_eq!(same.usage, usage(3));
}

#[test]
fn first_choice_of_a_response_is_its_text() {
    assert_eq!(
        completion_text(Some(usage(4)), vec![Some("a".to_string()), Some("b".to_string())]),
        Ok(("a".to_string(), usage(4)))
    );
    assert_eq!(
        completion_text(None, vec![Some("a".to_string())]),
        Ok(("a".to_string(), CompletionUsage::zero()))
    );
    assert_eq!(completion_text(Some(usage(4)), vec![]), Err(ChatInnerError::EmptyChoices));
    assert_eq!(
        completion_text(Some(usage(4)), vec![None, Some("b".to_string())]),
        Err(ChatInnerError::MissingMessageContent)
    );
}

#[test]
fn chat_and_response_error_messages() {
    assert_eq!(ChatInnerError::MissingApiKey("k".to_string()).message(), "API key retrieval failed: k");
    assert_eq!(
        ChatInnerError::InvalidAuthHeader("k".to_string()).message(),
        "Invalid authorization header: k"
    );
    assert_eq!(
        ChatInnerError::SerializationError("k".to_string()).message(),
        "JSON serialization failed: k"
    );
    assert_eq!(
        ChatInnerError::ClientBuildError("k".to_string()).message(),
        "HTTP client build failed: k"
    );
    assert_eq!(ChatInnerError::EmptyChoices.message(), "Empty choices in response");
    assert_eq!(ChatInnerError::MissingMessageContent.message(), "Missing message content");
    assert_eq!(
        ChatInnerError::LlamaResponseProcessingError("k".to_string()).message(),
        "LLama response processing failed: k"
    );
    assert_eq!(LlamaResponseError::NoChoices.message(), "No choices available in response");
    assert_eq!(
        LlamaResponseError::MissingMessageContent.message(),
        "Message content missing in choice"
    );
    assert_eq!(LlamaResponseError::MissingUsageData.message(), "Usage data missing in response");
    assert_eq!(LlamaResponseError::MissingRole.message(), "Role information missing");
    assert_eq!(
        LlamaResponseError::JsonFormatError("k".to_string()).message(),
        "JSON pretty print formatting failed: k"
    );
}

#[test]
fn default_message_is_a_placeholder() {
    assert_eq!(
        Message::default(),
        Message::new(Content::Text("placeholder".to_string()), None, Role::User)
    );
}
