//! An agent's configuration, and the bounded retry of one completion:
//! call the model, read its reply as the agent's kind of task asks, and
//! call again while the reply cannot be read and attempts are left.

use crate::LlmConfig;
use crate::TEMPLATE_SYSTEM_PROMPT_TOOL_USE;
use crate::json::JsonTree;
use crate::json::JsonValue;
use crate::json::json_text;
use crate::llama::ChatInnerError;
use crate::llama::CompletionUsage;
use crate::llama::Content;
use crate::llama::ContentView;
use crate::llama::LlamaResponseError;
use crate::llama::LlamaResponseMessage;
use crate::llama::ParseError;
use crate::llama::ParseFailure;
use crate::llama::Role;
use crate::llama::StructuredText;
use crate::llama::StructuredTextView;
use crate::llama::ToolCall;
use crate::llama::ToolCallView;
use crate::llama::llama_utils::RepairError;
use crate::llama::llama_utils::extract_json_from_xml_like;
use crate::llama::llama_utils::extract_tool_call_json;
use crate::llama::llama_utils::parse_planning_tasks;
use crate::llama::llama_utils::plan_outcome;
use crate::llama::llama_utils::tagged_body;
use crate::llama::llama_utils::tool_call_outcome;
use crate::text::contains;
use crate::text::join2;
use crate::text::lowercase;
use crate::text::lowercase_contains;
use crate::text::option_text;
use crate::text::str_equal;
use crate::text::texts;
use crate::use_tool::FunctionToolError;
use crate::use_tool::ToolStore;
use crate::use_tool::tool_report;
use vstd::prelude::*;

verus! {

/// How many times a completion is attempted where the caller does not
/// say: the first call and two more.
pub const DEFAULT_ATTEMPTS: usize = 3;

/// The length limit of one reply, in tokens.
pub const MAX_TOKENS: u16 = 1000;

/// The tool that hands the turn to the user.
pub const USER_FEEDBACK_TOOL: &'static str = "get_user_feedback";

/// One message of a conversation.
#[derive(Debug, PartialEq)]
pub struct Message {
    pub content: Content,
    pub name: Option<String>,
    pub role: Role,
}

pub struct MessageView {
    pub content: ContentView,
    pub name: Option<Seq<char>>,
    pub role: Role,
}

impl View for Message {
    type V = MessageView;

    open spec fn view(&self) -> MessageView {
        MessageView { content: self.content@, name: option_text(self.name), role: self.role }
    }
}

impl Clone for Message {
    fn clone(&self) -> (r: Self)
        ensures
            r@ == self@,
    {
        Message {
            content: self.content.clone(),
            name: crate::text::clone_option(&self.name),
            role: self.role,
        }
    }
}

impl Default for Message {
    fn default() -> (r: Self)
        ensures
            r@ == (MessageView {
                content: ContentView::Text("placeholder"@),
                name: None,
                role: Role::User,
            }),
    {
        Message { content: Content::Text("placeholder".to_owned()), name: None, role: Role::User }
    }
}

impl Message {
    pub fn new(content: Content, name: Option<String>, role: Role) -> (r: Self)
        ensures
            r == (Message { content, name, role }),
    {
        Message { content, name, role }
    }
}

/// Why an agent could not be configured.
#[derive(Debug, PartialEq)]
pub enum BuilderError {
    MetaSerializationFailure(String),
    /// The entry at `index` of the tools metadata names no tool; `data` is
    /// the entry's JSON text.
    ToolNameNotFound { index: usize, data: String },
}

impl BuilderError {
    /// The message of this error.
    pub fn message(&self) -> (text: String)
        ensures
            match *self {
                BuilderError::MetaSerializationFailure(e) => text@
                    == "Failed to serialize tools metadata: "@ + e@,
                BuilderError::ToolNameNotFound { index, data } => text@
                    == "Tool name not found in metadata at index "@ + crate::text::decimal(
                    index as nat,
                ) + ": "@ + data@,
            },
    {
        match self {
            BuilderError::MetaSerializationFailure(e) => join2(
                "Failed to serialize tools metadata: ",
                e.as_str(),
            ),
            BuilderError::ToolNameNotFound { index, data } => {
                let number = crate::text::decimal_string(*index);
                crate::text::join4(
                    "Tool name not found in metadata at index ",
                    number.as_str(),
                    ": ",
                    data.as_str(),
                )
            },
        }
    }
}

/// The kinds of task that an agent can be configured for.
#[allow(non_camel_case_types)]
#[derive(Clone, Copy, Debug, PartialEq, Eq)]
pub enum TaskOutput {
    /// The reply is taken as plain text.
    text,
    /// The reply must call a tool.
    tool_call,
    /// The reply must hold a plan.
    tasks,
}

/// The configuration of one agent. `P` is the function that formats the
/// user prompt from the task text and the JSON text of the tools.
pub struct LlmAgent<P> {
    pub system_prompt: String,
    pub user_prompt_formatter: Option<P>,
    pub llm_config: Option<LlmConfig>,
    pub tools_map_meta: Option<JsonValue>,
    pub description: String,
    tool_names: Vec<String>,
}

pub struct LlmAgentView {
    pub system_prompt: Seq<char>,
    pub has_formatter: bool,
    pub llm_config: Option<LlmConfig>,
    pub tools_map_meta: Option<JsonTree>,
    pub description: Seq<char>,
    pub tool_names: Seq<Seq<char>>,
}

impl<P> View for LlmAgent<P> {
    type V = LlmAgentView;

    closed spec fn view(&self) -> LlmAgentView {
        LlmAgentView {
            system_prompt: self.system_prompt@,
            has_formatter: self.user_prompt_formatter is Some,
            llm_config: self.llm_config,
            tools_map_meta: match self.tools_map_meta {
                Some(meta) => Some(meta@),
                None => None,
            },
            description: self.description@,
            tool_names: texts(self.tool_names@),
        }
    }
}

/// The name of the tool that one entry of the tools metadata describes:
/// its member `name`, or the member `name` of its member `function`.
pub open spec fn tool_name_of(tool: JsonTree) -> Option<Seq<char>> {
    match tool.get_str("name"@) {
        Some(name) => Some(name),
        None => match tool.get("function"@) {
            Some(function) => function.get_str("name"@),
            None => None,
        },
    }
}

/// The names of the tools that a list of entries describes, in order; or
/// the index of the first entry that names none.
pub open spec fn tool_names_of(items: Seq<JsonTree>) -> Result<Seq<Seq<char>>, int>
    decreases items.len(),
{
    if items.len() == 0 {
        Ok(Seq::empty())
    } else {
        match tool_names_of(items.drop_last()) {
            Err(index) => Err(index),
            Ok(names) => match tool_name_of(items.last()) {
                Some(name) => Ok(names.push(name)),
                None => Err(items.len() - 1),
            },
        }
    }
}

/// Once a prefix of the entries fails, the whole list fails at the same
/// entry.
pub proof fn lemma_tool_names_fail(items: Seq<JsonTree>, n: int)
    requires
        0 <= n < items.len(),
        tool_names_of(items.take(n + 1)) is Err,
    ensures
        tool_names_of(items) == tool_names_of(items.take(n + 1)),
    decreases items.len() - n,
{
    if n + 1 == items.len() {
        assert(items.take(n + 1) =~= items);
    } else {
        assert(items.take(n + 2).drop_last() =~= items.take(n + 1));
        lemma_tool_names_fail(items, n + 1);
    }
}

/// The tool names of the metadata of an agent: those of its entries where
/// it is an array, none where it is anything else.
pub open spec fn meta_tool_names(meta: JsonTree) -> Result<Seq<Seq<char>>, int> {
    match meta {
        JsonTree::Array(items) => tool_names_of(items),
        _ => Ok(Seq::empty()),
    }
}

/// The kind of task of an agent: a planner where it formats its prompt and
/// its description speaks of a plan; else a tool caller where it has
/// tools; else plain text.
pub open spec fn classification(agent: LlmAgentView) -> TaskOutput {
    if agent.has_formatter && contains(lowercase(agent.description), "plan"@) {
        TaskOutput::tasks
    } else if agent.tool_names.len() > 0 {
        TaskOutput::tool_call
    } else {
        TaskOutput::text
    }
}

/// The JSON text of the tools that is handed to the prompt formatter: that
/// of the metadata, or of the empty string where the agent has none.
pub open spec fn tools_text(agent: LlmAgentView) -> Seq<char> {
    match agent.tools_map_meta {
        Some(meta) => json_text(meta),
        None => json_text(JsonTree::String(Seq::empty())),
    }
}

/// What `LlmAgent::build` makes of its arguments.
pub open spec fn build_outcome<P>(
    system_prompt: Seq<char>,
    user_prompt_formatter: Option<P>,
    llm_config: Option<LlmConfig>,
    tools_map_meta: Option<JsonTree>,
    description: Seq<char>,
    r: Result<LlmAgent<P>, BuilderError>,
) -> bool {
    match tools_map_meta {
        None => r matches Ok(agent) && agent.formatter() == user_prompt_formatter && agent@
            == (LlmAgentView {
            system_prompt,
            has_formatter: user_prompt_formatter is Some,
            llm_config,
            tools_map_meta: None,
            description,
            tool_names: Seq::empty(),
        }),
        Some(meta) => match meta_tool_names(meta) {
            Ok(names) => r matches Ok(agent) && agent.formatter() == user_prompt_formatter && agent@
                == (LlmAgentView {
                system_prompt: TEMPLATE_SYSTEM_PROMPT_TOOL_USE@,
                has_formatter: user_prompt_formatter is Some,
                llm_config,
                tools_map_meta: Some(meta),
                description,
                tool_names: names,
            }),
            Err(at) => r matches Err(BuilderError::ToolNameNotFound { index, data }) && index == at
                && 0 <= at < meta->Array_0.len() && data@ == json_text(meta->Array_0[at]),
        },
    }
}

/// Whether an agent can be configured with the given tools metadata:
/// every entry of it names a tool.
pub open spec fn buildable(tools_map_meta: Option<JsonTree>) -> bool {
    match tools_map_meta {
        Some(meta) => meta_tool_names(meta) is Ok,
        None => true,
    }
}

/// The name of the tool that one entry of the tools metadata describes.
pub fn tool_name(tool: &JsonValue) -> (r: Option<String>)
    ensures
        option_text(r) == tool_name_of(tool@),
{
    match tool.get("name") {
        Some(name) => match name.as_str() {
            Some(name) => {
                return Some(name.to_owned());
            },
            None => {},
        },
        None => {},
    }
    match tool.get("function") {
        Some(function) => match function.get("name") {
            Some(name) => match name.as_str() {
                Some(name) => Some(name.to_owned()),
                None => None,
            },
            None => None,
        },
        None => None,
    }
}

impl<P> LlmAgent<P> {
    /// The function that formats the user prompt.
    pub closed spec fn formatter(&self) -> Option<P> {
        self.user_prompt_formatter
    }

    /// Configures an agent.
    ///
    /// With tools metadata the agent gets the system prompt for tool use in
    /// place of the one given, and the names of the tools that the metadata
    /// lists. An entry without a name is an error.
    pub fn build(
        system_prompt: String,
        user_prompt_formatter: Option<P>,
        llm_config: Option<LlmConfig>,
        tools_map_meta: Option<JsonValue>,
        description: String,
    ) -> (r: Result<Self, BuilderError>)
        ensures
            build_outcome(
                system_prompt@,
                user_prompt_formatter,
                llm_config,
                match tools_map_meta {
                    Some(meta) => Some(meta@),
                    None => None,
                },
                description@,
                r,
            ),
    {
        let meta = match tools_map_meta {
            Some(meta) => meta,
            None => {
                let tool_names: Vec<String> = Vec::new();
                assert(texts(tool_names@) =~= Seq::<Seq<char>>::empty());
                return Ok(
                    LlmAgent {
                        system_prompt,
                        user_prompt_formatter,
                        llm_config,
                        tools_map_meta: None,
                        description,
                        tool_names,
                    },
                );
            },
        };
        let mut tool_names: Vec<String> = Vec::new();
        assert(texts(tool_names@) =~= Seq::<Seq<char>>::empty());
        match meta.as_array() {
            Some(items) => {
                let ghost trees = crate::json::items_tree(items@);
                let mut index: usize = 0;
                while index < items.len()
                    invariant
                        index <= items@.len(),
                        trees == crate::json::items_tree(items@),
                        tools_map_meta == Some(meta),
                        meta@ == JsonTree::Array(trees),
                        tool_names_of(trees.take(index as int)) == Ok::<Seq<Seq<char>>, int>(
                            texts(tool_names@),
                        ),
                    decreases items@.len() - index,
                {
                    let ghost before = texts(tool_names@);
                    assert(trees.take(index + 1).drop_last() =~= trees.take(index as int));
                    assert(trees.take(index + 1).last() == items@[index as int]@);
                    match tool_name(&items[index]) {
                        Some(name) => {
                            tool_names.push(name);
                            assert(texts(tool_names@) =~= before.push(name@));
                        },
                        None => {
                            proof {
                                assert(tool_names_of(trees.take(index + 1)) == Err::<
                                    Seq<Seq<char>>,
                                    int,
                                >(index as int));
                                lemma_tool_names_fail(trees, index as int);
                            }
                            let data = items[index].to_json_string();
                            return Err(BuilderError::ToolNameNotFound { index, data });
                        },
                    }
                    index += 1;
                }
                assert(trees.take(index as int) =~= trees);
            },
            None => {},
        }
        Ok(
            LlmAgent {
                system_prompt: TEMPLATE_SYSTEM_PROMPT_TOOL_USE.to_owned(),
                user_prompt_formatter,
                llm_config,
                tools_map_meta: Some(meta),
                description,
                tool_names,
            },
        )
    }

    /// The names of the agent's tools, in order.
    pub fn tool_names(&self) -> (names: &Vec<String>)
        ensures
            texts(names@) == self@.tool_names,
    {
        &self.tool_names
    }

    /// The kind of task that the agent is configured for.
    pub fn task_type(&self) -> (kind: TaskOutput)
        ensures
            kind == classification(self@),
    {
        if self.user_prompt_formatter.is_some() && lowercase_contains(
            self.description.as_str(),
            "plan",
        ) {
            TaskOutput::tasks
        } else if self.tool_names.len() > 0 {
            assert(texts(self.tool_names@).len() > 0);
            TaskOutput::tool_call
        } else {
            assert(texts(self.tool_names@).len() == 0);
            TaskOutput::text
        }
    }

    /// The JSON text of the tools that is handed to the prompt formatter.
    pub fn tools_json(&self) -> (text: String)
        ensures
            text@ == tools_text(self@),
    {
        match &self.tools_map_meta {
            Some(meta) => meta.to_json_string(),
            None => {
                let empty = JsonValue::String(String::new());
                assert(empty@ == JsonTree::String(Seq::<char>::empty()));
                empty.to_json_string()
            },
        }
    }
}

impl<P: Fn(&str, &str) -> String> LlmAgent<P> {
    /// The user prompt for the task `input`: what the formatter makes of
    /// the task and the tools, or a plain sentence where the agent has no
    /// formatter.
    pub fn user_prompt(&self, input: &str) -> (prompt: String)
        requires
            self.formatter() matches Some(f) ==> forall|task: &str, tools: &str|
                call_requires(f, (task, tools)),
        ensures
            match self.formatter() {
                None => prompt@ == "here is your task: "@ + input@,
                Some(f) => exists|tools: &str|
                    tools@ == tools_text(self@) && call_ensures(f, (input, tools), prompt),
            },
    {
        match &self.user_prompt_formatter {
            None => join2("here is your task: ", input),
            Some(f) => {
                let tools = self.tools_json();
                let tools_str = tools.as_str();
                let prompt = f(input, tools_str);
                assert(tools_str@ == tools_text(self@) && call_ensures(
                    *f,
                    (input, tools_str),
                    prompt,
                ));
                prompt
            },
        }
    }
}

/// Why a completion gave no content.
#[derive(Clone, Debug, PartialEq)]
pub enum CompletionError {
    /// The call of the service failed.
    Chat(ChatInnerError),
    /// The reply of a planner holds no task list.
    Planning(ParseError),
    /// The reply of a tool caller is not tagged, or names no tool.
    Response(LlamaResponseError),
}

/// The kinds of `CompletionError`, without their messages.
pub enum CompletionFailure {
    Chat,
    Planning(ParseFailure),
    JsonExtraction,
    ToolCallParse,
    Other,
}

impl CompletionError {
    pub open spec fn failure(self) -> CompletionFailure {
        match self {
            CompletionError::Chat(_) => CompletionFailure::Chat,
            CompletionError::Planning(e) => CompletionFailure::Planning(e.failure()),
            CompletionError::Response(LlamaResponseError::JsonExtractionError(_)) =>
                CompletionFailure::JsonExtraction,
            CompletionError::Response(LlamaResponseError::ToolCallParseError(_)) =>
                CompletionFailure::ToolCallParse,
            CompletionError::Response(_) => CompletionFailure::Other,
        }
    }

    /// The message of this error.
    pub open spec fn text(self) -> Seq<char> {
        match self {
            CompletionError::Chat(e) => e.text(),
            CompletionError::Planning(e) => "Failed to parse planning tasks: "@ + e.text(),
            CompletionError::Response(e) => e.text(),
        }
    }

    /// The message of this error.
    pub fn message(&self) -> (text: String)
        ensures
            text@ == self.text(),
    {
        match self {
            CompletionError::Chat(e) => e.message(),
            CompletionError::Planning(e) => {
                let inner = e.message();
                join2("Failed to parse planning tasks: ", inner.as_str())
            },
            CompletionError::Response(e) => e.message(),
        }
    }
}

/// What one attempt got from outside: the reply of the service and, where
/// the reply was handed to the external repair, what the repair made of
/// its body.
pub struct Attempt {
    pub reply: Result<(String, CompletionUsage), ChatInnerError>,
    pub repaired: Option<Result<String, RepairError>>,
}

/// What one attempt amounts to for an agent of the given kind: the
/// content read from the reply, or why none could be read. Plain text is
/// the reply as it is; a plan is the task list in the reply; a tool call
/// is read from the repaired body between the tags.
pub open spec fn attempt_outcome(kind: TaskOutput, attempt: Attempt) -> Result<
    (ContentView, CompletionUsage),
    CompletionFailure,
> {
    match attempt.reply {
        Err(_) => Err(CompletionFailure::Chat),
        Ok((text, usage)) => match kind {
            TaskOutput::text => Ok((ContentView::Text(text@), usage)),
            TaskOutput::tasks => match plan_outcome(text@) {
                Ok(tasks) => Ok(
                    (ContentView::Structured(StructuredTextView::Tasks(tasks)), usage),
                ),
                Err(f) => Err(CompletionFailure::Planning(f)),
            },
            TaskOutput::tool_call => match tagged_body(text@) {
                None => Err(CompletionFailure::JsonExtraction),
                Some(body) => match attempt.repaired {
                    None => Err(CompletionFailure::ToolCallParse),
                    Some(repaired) => match tool_call_outcome(body, repaired) {
                        Ok(call) => Ok(
                            (ContentView::Structured(StructuredTextView::ToolCall(call)), usage),
                        ),
                        Err(_) => Err(CompletionFailure::ToolCallParse),
                    },
                },
            },
        },
    }
}

/// What a completion with a budget of `budget` attempts has come to
/// after the given attempts, taken in order: the content of the first
/// attempt that gave one; the failure of the last attempt of the budget
/// where none did; and `None` while it still waits for a reply. Attempts
/// behind the end of the completion are not looked at.
pub open spec fn completion_outcome(kind: TaskOutput, budget: nat, attempts: Seq<Attempt>) -> Option<
    Result<(ContentView, CompletionUsage), CompletionFailure>,
>
    decreases attempts.len(),
{
    if attempts.len() == 0 || budget == 0 {
        None
    } else {
        match attempt_outcome(kind, attempts[0]) {
            Ok(content) => Some(Ok(content)),
            Err(failure) => if budget == 1 {
                Some(Err(failure))
            } else {
                completion_outcome(kind, (budget - 1) as nat, attempts.drop_first())
            },
        }
    }
}

/// One more attempt after attempts that all failed and did not use up
/// the budget: the completion ends with its content where it gives one,
/// ends with its failure where it is the last of the budget, and goes on
/// waiting else.
pub proof fn lemma_next_attempt(
    kind: TaskOutput,
    budget: nat,
    failed: Seq<Attempt>,
    attempt: Attempt,
)
    requires
        failed.len() < budget,
        forall|i: int| 0 <= i < failed.len() ==> attempt_outcome(kind, failed[i]) is Err,
    ensures
        completion_outcome(kind, budget, failed.push(attempt)) == match attempt_outcome(
            kind,
            attempt,
        ) {
            Ok(content) => Some(
                Ok::<(ContentView, CompletionUsage), CompletionFailure>(content),
            ),
            Err(failure) => if failed.len() + 1 == budget {
                Some(Err(failure))
            } else {
                None
            },
        },
    decreases failed.len(),
{
    let attempts = failed.push(attempt);
    if failed.len() == 0 {
        assert(attempts[0] == attempt);
        assert(attempts.drop_first().len() == 0);
    } else {
        assert(attempts[0] == failed[0]);
        let rest = failed.drop_first();
        assert(attempts.drop_first() =~= rest.push(attempt));
        assert forall|i: int| 0 <= i < rest.len() implies attempt_outcome(kind, rest[i]) is Err by {
            assert(rest[i] == failed[i + 1]);
        }
        lemma_next_attempt(kind, (budget - 1) as nat, rest, attempt);
    }
}

/// A completion with a budget of `budget` attempts whose attempts all
/// fail but the last of the budget ends with that last attempt: with its
/// content where it gives one, with its failure where it does not.
pub proof fn lemma_retry_exhaustion(kind: TaskOutput, budget: nat, attempts: Seq<Attempt>)
    requires
        budget >= 1,
        attempts.len() == budget,
        forall|i: int| 0 <= i < budget - 1 ==> attempt_outcome(kind, attempts[i]) is Err,
    ensures
        completion_outcome(kind, budget, attempts) == Some(
            attempt_outcome(kind, attempts.last()),
        ),
{
    let failed = attempts.drop_last();
    assert(failed.push(attempts.last()) =~= attempts);
    lemma_next_attempt(kind, budget, failed, attempts.last());
}

/// A completion does not end before its budget is used up while its
/// attempts fail: after fewer failed attempts than the budget it still
/// waits for a reply.
pub proof fn lemma_retry_goes_on(kind: TaskOutput, budget: nat, attempts: Seq<Attempt>)
    requires
        attempts.len() < budget,
        forall|i: int| 0 <= i < attempts.len() ==> attempt_outcome(kind, attempts[i]) is Err,
    ensures
        completion_outcome(kind, budget, attempts) is None,
{
    if attempts.len() > 0 {
        let failed = attempts.drop_last();
        assert(failed.push(attempts.last()) =~= attempts);
        lemma_next_attempt(kind, budget, failed, attempts.last());
    }
}

/// One call of the completion service, as the caller has to make it.
#[derive(Debug, PartialEq)]
pub struct ModelCall {
    pub config: LlmConfig,
    pub system_prompt: String,
    pub user_prompt: String,
    pub max_token: u16,
}

pub struct ModelCallView {
    pub config: LlmConfig,
    pub system_prompt: Seq<char>,
    pub user_prompt: Seq<char>,
    pub max_token: u16,
}

impl View for ModelCall {
    type V = ModelCallView;

    open spec fn view(&self) -> ModelCallView {
        ModelCallView {
            config: self.config,
            system_prompt: self.system_prompt@,
            user_prompt: self.user_prompt@,
            max_token: self.max_token,
        }
    }
}

/// A completion that waits for the reply of the service.
pub struct PendingReply {
    kind: TaskOutput,
    call: ModelCall,
    attempts_left: usize,
    history: Ghost<Seq<Attempt>>,
}

/// A completion that waits for the external repair of a reply's body.
pub struct PendingRepair {
    pending: PendingReply,
    reply_text: String,
    usage: CompletionUsage,
    body: String,
}

/// What the caller of a completion has to do next.
pub enum Next {
    /// Make the call `call()` and hand its result to `reply`.
    Call(PendingReply),
    /// Repair the text `body()` and hand the result to `repaired`.
    Repair(PendingRepair),
    /// The completion has ended.
    Done(Result<LlamaResponseMessage, CompletionError>),
}

/// The result of a completion, with views for contents and kinds for
/// errors.
pub open spec fn completion_result(r: Result<LlamaResponseMessage, CompletionError>) -> Result<
    (ContentView, CompletionUsage),
    CompletionFailure,
> {
    match r {
        Ok(message) => Ok((message.content@, message.usage)),
        Err(e) => Err(e.failure()),
    }
}

impl PendingReply {
    /// The kind of task of the agent.
    pub closed spec fn kind(&self) -> TaskOutput {
        self.kind
    }

    /// The call to make; the same for every attempt.
    pub closed spec fn model_call(&self) -> ModelCallView {
        self.call@
    }

    /// How many attempts are left, the one waited for included.
    pub closed spec fn attempts_left(&self) -> nat {
        self.attempts_left as nat
    }

    /// The attempts made so far.
    pub closed spec fn history(&self) -> Seq<Attempt> {
        self.history@
    }

    /// The budget of the completion: the attempts made and those left.
    pub open spec fn budget(&self) -> nat {
        self.history().len() + self.attempts_left()
    }

    /// At least one attempt is left, and every attempt so far has failed.
    #[verifier::type_invariant]
    closed spec fn wf(&self) -> bool {
        &&& self.attempts_left >= 1
        &&& forall|i: int|
            0 <= i < self.history@.len() ==> attempt_outcome(self.kind, #[trigger] self.history@[i]) is Err
    }

    /// The call to make.
    pub fn call(&self) -> (call: &ModelCall)
        ensures
            call@ == self.model_call(),
    {
        &self.call
    }

    /// The next step after an attempt has failed with `error`: one more
    /// call where attempts are left, else the end with that error.
    fn failed(self, error: CompletionError, Ghost(attempt): Ghost<Attempt>) -> (next: Next)
        requires
            attempt_outcome(self.kind(), attempt) == Err::<
                (ContentView, CompletionUsage),
                CompletionFailure,
            >(error.failure()),
        ensures
            step_after(self, attempt, next),
    {
        proof {
            use_type_invariant(&self);
            lemma_next_attempt(
                self.kind,
                self.budget(),
                self.history@,
                attempt,
            );
        }
        if self.attempts_left > 1 {
            let next = PendingReply {
                kind: self.kind,
                call: self.call,
                attempts_left: self.attempts_left - 1,
                history: Ghost(self.history@.push(attempt)),
            };
            Next::Call(next)
        } else {
            Next::Done(Err(error))
        }
    }

    /// Takes the result of the call.
    ///
    /// A reply that can be read ends the completion with its content; the
    /// tagged reply of a tool caller goes to the repair first. A failed
    /// call or a reply that cannot be read leads to one more call of the
    /// same prompt while attempts are left, and ends the completion with
    /// that failure once none is.
    pub fn reply(self, reply: Result<(String, CompletionUsage), ChatInnerError>) -> (next: Next)
        ensures
            match tag_of(self.kind(), reply) {
                Some(body) => next matches Next::Repair(repair) && repair.pending() == self
                    && repair.body() == body && repair.reply() == reply,
                None => step_after(self, Attempt { reply, repaired: None }, next),
            },
    {
        proof {
            use_type_invariant(&self);
        }
        let ghost attempt = Attempt { reply, repaired: None };
        let (text, usage) = match reply {
            Ok(pair) => pair,
            Err(e) => {
                return self.failed(CompletionError::Chat(e), Ghost(attempt));
            },
        };
        match self.kind {
            TaskOutput::text => {
                proof {
                    lemma_next_attempt(
                self.kind,
                self.budget(),
                self.history@,
                attempt,
            );
                }
                Next::Done(
                    Ok(
                        LlamaResponseMessage {
                            content: Content::Text(text),
                            role: Role::Assistant,
                            usage,
                        },
                    ),
                )
            },
            TaskOutput::tasks => match parse_planning_tasks(text.as_str()) {
                Ok(tasks) => {
                    proof {
                        lemma_next_attempt(
                self.kind,
                self.budget(),
                self.history@,
                attempt,
            );
                    }
                    Next::Done(
                        Ok(
                            LlamaResponseMessage {
                                content: Content::Structured(StructuredText::Tasks(tasks)),
                                role: Role::Assistant,
                                usage,
                            },
                        ),
                    )
                },
                Err(e) => self.failed(CompletionError::Planning(e), Ghost(attempt)),
            },
            TaskOutput::tool_call => match extract_json_from_xml_like(text.as_str()) {
                Ok(body) => Next::Repair(
                    PendingRepair { pending: self, reply_text: text, usage, body },
                ),
                Err(e) => self.failed(
                    CompletionError::Response(LlamaResponseError::JsonExtractionError(e.message())),
                    Ghost(attempt),
                ),
            },
        }
    }
}

/// The body that goes to the repair: that of the tagged reply of a tool
/// caller; `None` for every other reply.
pub open spec fn tag_of(kind: TaskOutput, reply: Result<(String, CompletionUsage), ChatInnerError>) -> Option<
    Seq<char>,
> {
    match reply {
        Ok((text, _)) => if kind == TaskOutput::tool_call {
            tagged_body(text@)
        } else {
            None
        },
        Err(_) => None,
    }
}

/// The step that follows the attempt `attempt` of the completion `before`.
///
/// Where the attempt gave a content, the completion ends with it. Where
/// it failed and it was not the last of the budget, the same call is to
/// be made again, with one attempt less. Where the last attempt of the
/// budget failed, the completion ends with its failure. Either way the
/// step is what `completion_outcome` says of all attempts so far.
pub open spec fn step_after(before: PendingReply, attempt: Attempt, next: Next) -> bool {
    let outcome = attempt_outcome(before.kind(), attempt);
    let attempts = before.history().push(attempt);
    if outcome is Err && before.attempts_left() > 1 {
        &&& next matches Next::Call(after)
        &&& after.kind() == before.kind()
        &&& after.model_call() == before.model_call()
        &&& after.attempts_left() == before.attempts_left() - 1
        &&& after.history() == attempts
        &&& completion_outcome(before.kind(), before.budget(), attempts) is None
    } else {
        &&& next matches Next::Done(result)
        &&& completion_result(result) == outcome
        &&& completion_outcome(before.kind(), before.budget(), attempts) == Some(
            completion_result(result),
        )
        &&& result matches Ok(message) ==> message.role == Role::Assistant
    }
}

impl PendingRepair {
    /// The completion that goes on where the repaired body names no tool.
    pub closed spec fn pending(&self) -> PendingReply {
        self.pending
    }

    /// The text to repair.
    pub closed spec fn body(&self) -> Seq<char> {
        self.body@
    }

    /// The reply that the body was taken from.
    pub closed spec fn reply(&self) -> Result<(String, CompletionUsage), ChatInnerError> {
        Ok((self.reply_text, self.usage))
    }

    /// The completion is a tool caller's, and the body is that of the
    /// reply.
    #[verifier::type_invariant]
    closed spec fn wf(&self) -> bool {
        &&& self.pending.wf()
        &&& self.pending.kind == TaskOutput::tool_call
        &&& tagged_body(self.reply_text@) == Some(self.body@)
    }

    /// The text to repair.
    pub fn text(&self) -> (body: &String)
        ensures
            body@ == self.body(),
    {
        &self.body
    }

    /// Takes what the external repair made of the body, and reads the
    /// tool call from it.
    pub fn repaired(self, repaired: Result<String, RepairError>) -> (next: Next)
        ensures
            step_after(
                self.pending(),
                Attempt { reply: self.reply(), repaired: Some(repaired) },
                next,
            ),
    {
        proof {
            use_type_invariant(&self);
            use_type_invariant(&self.pending);
        }
        let ghost attempt = Attempt {
            reply: Ok((self.reply_text, self.usage)),
            repaired: Some(repaired),
        };
        match extract_tool_call_json(self.body.as_str(), &repaired) {
            Ok(call) => {
                proof {
                    lemma_next_attempt(
                        self.pending.kind,
                        self.pending.budget(),
                        self.pending.history@,
                        attempt,
                    );
                }
                Next::Done(
                    Ok(
                        LlamaResponseMessage {
                            content: Content::Structured(StructuredText::ToolCall(call)),
                            role: Role::Assistant,
                            usage: self.usage,
                        },
                    ),
                )
            },
            Err(e) => self.pending.failed(
                CompletionError::Response(LlamaResponseError::ToolCallParseError(e.message())),
                Ghost(attempt),
            ),
        }
    }
}

/// What comes back from outside for one attempt: the result of the call
/// of the service and, for the case that the reply goes to the repair,
/// what the repair makes of its body.
pub struct Answer {
    pub reply: Result<(String, CompletionUsage), ChatInnerError>,
    pub repaired: Result<String, RepairError>,
}

/// The attempt that an answer makes for an agent of the given kind: the
/// repair is run, and its result counts, only for the tagged reply of a
/// tool caller.
pub open spec fn attempt_of(kind: TaskOutput, answer: Answer) -> Attempt {
    Attempt {
        reply: answer.reply,
        repaired: if tag_of(kind, answer.reply) is Some {
            Some(answer.repaired)
        } else {
            None
        },
    }
}

/// The attempts that a list of answers makes, in order.
pub open spec fn attempts_of(kind: TaskOutput, answers: Seq<Answer>) -> Seq<Attempt> {
    Seq::new(answers.len(), |i: int| attempt_of(kind, answers[i]))
}

/// How many calls of the service a completion with a budget of `budget`
/// attempts makes where the given attempts are what comes back, in
/// order: one for each attempt up to the first that gives a content, and
/// never more than the budget nor than there are attempts.
pub open spec fn calls_made(kind: TaskOutput, budget: nat, attempts: Seq<Attempt>) -> nat
    decreases attempts.len(),
{
    if attempts.len() == 0 || budget == 0 {
        0
    } else if attempt_outcome(kind, attempts[0]) is Ok || budget == 1 {
        1
    } else {
        1 + calls_made(kind, (budget - 1) as nat, attempts.drop_first())
    }
}

/// A completion with a budget of `budget` attempts whose attempts all
/// fail but the last of the budget calls the service exactly `budget`
/// times.
pub proof fn lemma_retry_calls(kind: TaskOutput, budget: nat, attempts: Seq<Attempt>)
    requires
        budget >= 1,
        attempts.len() == budget,
        forall|i: int| 0 <= i < budget - 1 ==> attempt_outcome(kind, attempts[i]) is Err,
    ensures
        calls_made(kind, budget, attempts) == budget,
    decreases budget,
{
    if budget > 1 {
        let rest = attempts.drop_first();
        assert forall|i: int| 0 <= i < budget - 2 implies attempt_outcome(kind, rest[i]) is Err by {
            assert(rest[i] == attempts[i + 1]);
        }
        lemma_retry_calls(kind, (budget - 1) as nat, rest);
    }
}

/// A completion never calls the service more often than its budget
/// allows, nor more often than answers come back.
pub proof fn lemma_calls_bounded(kind: TaskOutput, budget: nat, attempts: Seq<Attempt>)
    ensures
        calls_made(kind, budget, attempts) <= budget,
        calls_made(kind, budget, attempts) <= attempts.len(),
    decreases attempts.len(),
{
    if attempts.len() > 0 && budget > 1 && attempt_outcome(kind, attempts[0]) is Err {
        lemma_calls_bounded(kind, (budget - 1) as nat, attempts.drop_first());
    }
}

/// What a completion with `budget` attempts left has come to once the
/// given attempts have been fed to it: the calls that it made, and its
/// result where it has ended.
pub open spec fn replayed(
    kind: TaskOutput,
    budget: nat,
    attempts: Seq<Attempt>,
    outcome: Option<Result<LlamaResponseMessage, CompletionError>>,
    calls: nat,
) -> bool {
    &&& calls == calls_made(kind, budget, attempts)
    &&& match outcome {
        Some(result) => completion_outcome(kind, budget, attempts) == Some(
            completion_result(result),
        ),
        None => completion_outcome(kind, budget, attempts) is None,
    }
    &&& outcome matches Some(Ok(message)) ==> message.role == Role::Assistant
}

impl PendingReply {
    /// Runs the completion on answers that are at hand: each call is
    /// answered by the next answer of the list, and each repair by the
    /// repair of that answer. The result is that of the completion where
    /// it ends on these answers, and `None` where it still waits for a
    /// reply when the answers are used up; with it comes the number of
    /// calls that were answered.
    pub fn replay(self, answers: Vec<Answer>) -> (r: (
        Option<Result<LlamaResponseMessage, CompletionError>>,
        usize,
    ))
        ensures
            replayed(
                self.kind(),
                self.attempts_left(),
                attempts_of(self.kind(), answers@),
                r.0,
                r.1 as nat,
            ),
    {
        let ghost kind = self.kind;
        let ghost budget = self.attempts_left as nat;
        let ghost all = attempts_of(kind, answers@);
        let count = answers.len();
        let mut waiting = answers;
        let mut pending = self;
        let mut calls: usize = 0;
        assert(all.skip(0) =~= all);
        loop
            invariant
                kind == self.kind(),
                budget == self.attempts_left(),
                all == attempts_of(kind, answers@),
                all.len() == count,
                pending.kind() == kind,
                calls + waiting@.len() == all.len(),
                attempts_of(kind, waiting@) == all.skip(calls as int),
                completion_outcome(kind, budget, all) == completion_outcome(
                    kind,
                    pending.attempts_left(),
                    all.skip(calls as int),
                ),
                calls_made(kind, budget, all) == calls + calls_made(
                    kind,
                    pending.attempts_left(),
                    all.skip(calls as int),
                ),
            decreases waiting@.len(),
        {
            proof {
                use_type_invariant(&pending);
            }
            if waiting.len() == 0 {
                assert(all.skip(calls as int).len() == 0);
                return (None, calls);
            }
            let ghost rest = all.skip(calls as int);
            let ghost first = waiting@[0];
            let ghost before = pending;
            assert(rest[0] == attempt_of(kind, first)) by {
                assert(attempts_of(kind, waiting@)[0] == attempt_of(kind, first));
            }
            let answer = waiting.remove(0);
            assert(attempts_of(kind, waiting@) =~= rest.drop_first());
            assert(rest.drop_first() =~= all.skip(calls + 1));
            let Answer { reply, repaired } = answer;
            let next = match pending.reply(reply) {
                Next::Repair(repair) => repair.repaired(repaired),
                other => other,
            };
            assert(step_after(before, attempt_of(kind, first), next));
            calls += 1;
            match next {
                Next::Call(after) => {
                    pending = after;
                },
                Next::Done(result) => {
                    return (Some(result), calls);
                },
                Next::Repair(_) => {
                    return (None, calls);
                },
            }
        }
    }
}

/// Ends a completion: the tool that a reply calls is run, and its report
/// takes the place of the call. A completion that failed stays as it is,
/// and no tool is run for it.
pub fn settle<F: Fn(&Vec<String>) -> Result<String, FunctionToolError>>(
    outcome: Result<LlamaResponseMessage, CompletionError>,
    store: &ToolStore<F>,
) -> (r: Result<LlamaResponseMessage, CompletionError>)
    requires
        store.callable(),
    ensures
        match outcome {
            Ok(message) => r matches Ok(settled) && dispatched(message, *store, settled),
            Err(e) => r == Err::<LlamaResponseMessage, CompletionError>(e),
        },
{
    match outcome {
        Ok(message) => Ok(dispatch(message, store)),
        Err(e) => Err(e),
    }
}

/// Whether the first tool of an agent hands the turn to the user.
pub open spec fn asks_user_first(agent: LlmAgentView) -> bool {
    agent.tool_names.len() > 0 && agent.tool_names[0] == USER_FEEDBACK_TOOL@
}

/// The step of an agent that hands the turn to the user: the completion
/// is done, and its content is the call of the tool that asks the user.
pub open spec fn user_step(next: Next) -> bool {
    &&& next matches Next::Done(Ok(message))
    &&& message.content@ == ContentView::Structured(
        StructuredTextView::ToolCall(ToolCallView { name: USER_FEEDBACK_TOOL@, arguments: None }),
    )
    &&& message.role == Role::Assistant
    &&& message.usage == (CompletionUsage {
        prompt_tokens: 0,
        completion_tokens: 0,
        total_tokens: 0,
    })
}

/// The first step of a completion that asks the model: the call to make,
/// with the prompt `user_prompt`, and the budget of attempts. A plain-text
/// agent has one attempt and calls the default service; a planner or a
/// tool caller has `attempts` attempts, and at least one, and calls the
/// service that it is configured with.
pub open spec fn first_step(agent: LlmAgentView, user_prompt: Seq<char>, attempts: nat, next: Next) -> bool {
    let kind = classification(agent);
    &&& next matches Next::Call(pending)
    &&& pending.kind() == kind
    &&& pending.history() == Seq::<Attempt>::empty()
    &&& pending.attempts_left() == (if kind == TaskOutput::text || attempts == 0 {
        1
    } else {
        attempts
    })
    &&& pending.model_call() == (ModelCallView {
        config: if kind == TaskOutput::text {
            LlmConfig::together()
        } else {
            match agent.llm_config {
                Some(config) => config,
                None => LlmConfig::together(),
            }
        },
        system_prompt: agent.system_prompt,
        user_prompt,
        max_token: MAX_TOKENS,
    })
}

impl<P: Fn(&str, &str) -> String> LlmAgent<P> {
    /// Begins the completion of the task `input` with the default budget
    /// of attempts: the first call of the service and two more.
    pub fn default_method(&self, input: &str) -> (next: Next)
        requires
            self.formatter() matches Some(f) ==> forall|task: &str, tools: &str|
                call_requires(f, (task, tools)),
        ensures
            if asks_user_first(self@) {
                user_step(next)
            } else {
                exists|user_prompt: String|
                    #[trigger] first_step(self@, user_prompt@, DEFAULT_ATTEMPTS as nat, next)
                        && match self.formatter() {
                        None => user_prompt@ == "here is your task: "@ + input@,
                        Some(f) => exists|tools: &str|
                            tools@ == tools_text(self@) && call_ensures(
                                f,
                                (input, tools),
                                user_prompt,
                            ),
                    }
            },
    {
        self.start(input, DEFAULT_ATTEMPTS)
    }

    /// Begins the completion of the task `input`, with at most `attempts`
    /// calls of the service.
    ///
    /// An agent whose first tool hands the turn to the user calls that
    /// tool without asking the model. A plain-text agent makes one call; a
    /// planner or a tool caller makes up to `attempts` calls, and at least
    /// one.
    pub fn start(&self, input: &str, attempts: usize) -> (next: Next)
        requires
            self.formatter() matches Some(f) ==> forall|task: &str, tools: &str|
                call_requires(f, (task, tools)),
        ensures
            if asks_user_first(self@) {
                user_step(next)
            } else {
                exists|user_prompt: String|
                    #[trigger] first_step(self@, user_prompt@, attempts as nat, next)
                        && match self.formatter() {
                        None => user_prompt@ == "here is your task: "@ + input@,
                        Some(f) => exists|tools: &str|
                            tools@ == tools_text(self@) && call_ensures(
                                f,
                                (input, tools),
                                user_prompt,
                            ),
                    }
            },
    {
        if self.tool_names.len() > 0 && str_equal(self.tool_names[0].as_str(), USER_FEEDBACK_TOOL) {
            return Next::Done(
                Ok(
                    LlamaResponseMessage {
                        content: Content::Structured(
                            StructuredText::ToolCall(
                                ToolCall { name: USER_FEEDBACK_TOOL.to_owned(), arguments: None },
                            ),
                        ),
                        role: Role::Assistant,
                        usage: CompletionUsage::zero(),
                    },
                ),
            );
        }
        let kind = self.task_type();
        let user_prompt = self.user_prompt(input);
        let config = match kind {
            TaskOutput::text => LlmConfig::together(),
            _ => match self.llm_config {
                Some(config) => config,
                None => LlmConfig::together(),
            },
        };
        let attempts_left = match kind {
            TaskOutput::text => 1,
            _ => if attempts == 0 {
                1
            } else {
                attempts
            },
        };
        let ghost prompt = user_prompt;
        let next = Next::Call(
            PendingReply {
                kind,
                call: ModelCall {
                    config,
                    system_prompt: self.system_prompt.clone(),
                    user_prompt,
                    max_token: MAX_TOKENS,
                },
                attempts_left,
                history: Ghost(Seq::empty()),
            },
        );
        assert(first_step(self@, prompt@, attempts as nat, next));
        next
    }
}

/// What a reply becomes once its tool call has been run: the report of
/// the tool for a tool call, the reply itself for anything else.
pub open spec fn dispatched<F: Fn(&Vec<String>) -> Result<String, FunctionToolError>>(
    message: LlamaResponseMessage,
    store: ToolStore<F>,
    r: LlamaResponseMessage,
) -> bool {
    match message.content {
        Content::Structured(StructuredText::ToolCall(call)) => {
            let arguments = match call.arguments {
                Some(a) => a@,
                None => Seq::<char>::empty(),
            };
            &&& r.role == message.role
            &&& r.usage == message.usage
            &&& exists|outcome: Option<Result<String, FunctionToolError>>|
                {
                    &&& outcome is Some == store@.contains_key(call.name@)
                    &&& outcome matches Some(o) ==> crate::use_tool::run_outcome(
                        store@[call.name@],
                        arguments,
                        o,
                    )
                    &&& r.content@ == ContentView::Text(#[trigger] tool_report(call.name@, outcome))
                }
        },
        _ => r == message,
    }
}

/// Runs the tool that a reply calls, and puts the tool's report in the
/// place of the call.
///
/// The report is the tool's output; where the tool fails or no tool has
/// the name, a text that says so. A reply that calls no tool comes back
/// as it is.
pub fn dispatch<F: Fn(&Vec<String>) -> Result<String, FunctionToolError>>(
    message: LlamaResponseMessage,
    store: &ToolStore<F>,
) -> (r: LlamaResponseMessage)
    requires
        store.callable(),
    ensures
        dispatched(message, *store, r),
{
    match message.content {
        Content::Structured(StructuredText::ToolCall(call)) => {
            let arguments = match call.arguments {
                Some(a) => a,
                None => String::new(),
            };
            let outcome = store.run(call.name.as_str(), arguments);
            let report = match &outcome {
                None => crate::text::join3("Tool ", call.name.as_str(), " not found"),
                Some(Ok(output)) => output.clone(),
                Some(Err(e)) => crate::text::join4(
                    "Error executing tool ",
                    call.name.as_str(),
                    ": ",
                    e.0.as_str(),
                ),
            };
            assert(report@ == tool_report(call.name@, outcome));
            LlamaResponseMessage {
                content: Content::Text(report),
                role: message.role,
                usage: message.usage,
            }
        },
        content => LlamaResponseMessage { content, role: message.role, usage: message.usage },
    }
}

} // verus!
