//! The worker of one agent: its states, the topics it listens to, and
//! what it does with each command that reaches it.

use crate::agent_runtime::ActorContext;
use crate::agent_runtime::AgentId;
use crate::agent_runtime::ContextView;
use crate::agent_runtime::RouterCommand;
use crate::agent_runtime::TopicId;
use crate::agent_runtime::agent_id_text;
use crate::agent_runtime::uuid_text;
use crate::immutable_agent::CompletionError;
use crate::immutable_agent::LlmAgent;
use crate::immutable_agent::Message;
use crate::immutable_agent::MessageView;
use crate::llama::Content;
use crate::llama::ContentView;
use crate::llama::LlamaResponseMessage;
use crate::llama::Role;
use crate::llama::content_text;
use crate::ordered::remove_text;
use crate::ordered::without;
use crate::text::join2;
use crate::text::str_equal;
use crate::text::texts;
use vstd::prelude::*;

verus! {

/// The states of a worker. A worker is `Ready` until a message arrives,
/// `Processing` until the result is out, and `Off` once it is shut down.
#[derive(Clone, Copy, Debug, PartialEq, Eq)]
pub enum ProcessingState {
    Ready,
    Processing,
    Off,
}

/// What the router and the worker keep of one agent.
#[derive(Debug)]
pub struct AgentState {
    processing_state: ProcessingState,
    subscribed_topics: Vec<TopicId>,
    context: ActorContext,
}

pub struct AgentStateView {
    pub processing_state: ProcessingState,
    pub subscribed_topics: Seq<Seq<char>>,
    pub context: ContextView,
}

impl View for AgentState {
    type V = AgentStateView;

    closed spec fn view(&self) -> AgentStateView {
        AgentStateView {
            processing_state: self.processing_state,
            subscribed_topics: texts(self.subscribed_topics@),
            context: self.context@,
        }
    }
}

/// The topic of the context after `topic` has been removed from the
/// list: where it was the context's topic, the last topic that is left
/// (the empty name where none is) takes its place.
pub open spec fn topic_after_removal(state: AgentStateView, topic: Seq<char>) -> Option<Seq<char>> {
    let left = without(state.subscribed_topics, topic);
    if state.context.topic_id == Some(topic) {
        if left.len() > 0 {
            Some(left.last())
        } else {
            Some(Seq::empty())
        }
    } else {
        state.context.topic_id
    }
}

/// The state of a new agent whose context was made at `made_at`: ready,
/// without topics, its context signed with its identity.
pub open spec fn initial_state(agent_id: AgentId, made_at: std::time::SystemTime) -> AgentStateView {
    AgentStateView {
        processing_state: ProcessingState::Ready,
        subscribed_topics: Seq::empty(),
        context: ContextView { sender: Some(agent_id), topic_id: None, timestamp: made_at },
    }
}

impl AgentState {
    /// The state of a new agent: ready, without topics, its context signed
    /// with its identity and made now.
    pub fn new(agent_id: AgentId) -> (state: Self)
        ensures
            state@ == initial_state(agent_id, state@.context.timestamp),
    {
        let state = AgentState {
            processing_state: ProcessingState::Ready,
            subscribed_topics: Vec::new(),
            context: ActorContext::new().with_sender(agent_id),
        };
        assert(texts(state.subscribed_topics@) =~= Seq::<Seq<char>>::empty());
        state
    }

    /// Adds `topic` at the end of the list and makes it the topic of the
    /// context.
    pub fn add_topic(&mut self, topic: TopicId)
        ensures
            final(self)@ == (AgentStateView {
                subscribed_topics: old(self)@.subscribed_topics.push(topic@),
                context: ContextView { topic_id: Some(topic@), ..old(self)@.context },
                ..old(self)@
            }),
    {
        let ghost before = texts(self.subscribed_topics@);
        self.subscribed_topics.push(topic.clone());
        assert(texts(self.subscribed_topics@) =~= before.push(topic@));
        let context = self.context.clone();
        self.context = context.with_topic(topic);
    }

    /// Removes `topic` from the list. Where it was the topic of the
    /// context, the last topic left takes its place.
    pub fn remove_topic(&mut self, topic: &TopicId)
        ensures
            final(self)@ == (AgentStateView {
                subscribed_topics: without(old(self)@.subscribed_topics, topic@),
                context: ContextView {
                    topic_id: topic_after_removal(old(self)@, topic@),
                    ..old(self)@.context
                },
                ..old(self)@
            }),
    {
        let kept = remove_text(&self.subscribed_topics, topic.as_str());
        self.subscribed_topics = kept;
        let is_current = match self.context.topic_id() {
            Some(current) => str_equal(current.as_str(), topic.as_str()),
            None => false,
        };
        if is_current {
            let n = self.subscribed_topics.len();
            let next = if n > 0 {
                self.subscribed_topics[n - 1].clone()
            } else {
                String::new()
            };
            let context = self.context.clone();
            self.context = context.with_topic(next);
        }
    }

    /// The context that the agent signs its messages with.
    pub fn get_context(&self) -> (context: ActorContext)
        ensures
            context@ == self@.context,
    {
        self.context.clone()
    }

    /// The state of the worker.
    pub fn processing_state(&self) -> (state: ProcessingState)
        ensures
            state == self@.processing_state,
    {
        self.processing_state
    }
}

/// Why a worker refused a command.
#[derive(Clone, Debug, PartialEq)]
pub enum AgentActorError {
    /// The router could not be reached; the reason.
    RouterCommunication(String),
    /// The completion failed; the reason.
    LlmProcessing(String),
    /// The shutdown is not for this agent, or the agent is off already;
    /// the identity that the command names.
    ShutdownFailure(String),
}

impl AgentActorError {
    /// The message of this error.
    pub fn message(&self) -> (text: String)
        ensures
            text@ == match *self {
                AgentActorError::RouterCommunication(e) => "Router communication failure: "@ + e@,
                AgentActorError::LlmProcessing(e) => "LLM processing error: "@ + e@,
                AgentActorError::ShutdownFailure(e) => "Shutdown failed: "@ + e@,
            },
    {
        match self {
            AgentActorError::RouterCommunication(e) => join2(
                "Router communication failure: ",
                e.as_str(),
            ),
            AgentActorError::LlmProcessing(e) => join2("LLM processing error: ", e.as_str()),
            AgentActorError::ShutdownFailure(e) => join2("Shutdown failed: ", e.as_str()),
        }
    }
}

/// What the caller of a worker has to do after a command.
#[derive(Debug, PartialEq)]
pub enum AgentAction {
    /// Nothing.
    Nothing,
    /// Run the completion of the task `input`, and hand its outcome to
    /// `publish` with this topic.
    Process { input: String, topic: TopicId },
}

/// The worker of one agent: its identity and its configuration.
pub struct AgentActor<P> {
    agent_id: AgentId,
    llm: LlmAgent<P>,
}

/// What a worker does with a command: its state after it, and what it
/// answers.
///
/// A message from another sender sets a ready worker to processing; a
/// message that the worker sent itself is ignored. A shutdown, or the
/// command `Off`, turns the worker off, and off it stays: a second
/// shutdown fails, and so does a shutdown that names another agent. The
/// subscription commands keep the worker's list of topics.
pub open spec fn worked<P>(
    agent_id: AgentId,
    before: AgentStateView,
    msg: RouterCommand<P>,
    after: AgentStateView,
    r: Result<AgentAction, AgentActorError>,
) -> bool {
    match msg {
        RouterCommand::Off => r == Ok::<AgentAction, AgentActorError>(AgentAction::Nothing)
            && after == (AgentStateView { processing_state: ProcessingState::Off, ..before }),
        RouterCommand::RouteMessage { topic, message, context } => if before.processing_state
            == ProcessingState::Ready && context@.sender != Some(agent_id) {
            &&& after == (AgentStateView { processing_state: ProcessingState::Processing, ..before })
            &&& r matches Ok(AgentAction::Process { input, topic: t })
            &&& input@ == content_text(message.content@)
            &&& t@ == topic@
        } else {
            after == before && r == Ok::<AgentAction, AgentActorError>(AgentAction::Nothing)
        },
        RouterCommand::ShutdownAgent { agent_id: named } => if named == agent_id
            && before.processing_state != ProcessingState::Off {
            after == (AgentStateView { processing_state: ProcessingState::Off, ..before }) && r
                == Ok::<AgentAction, AgentActorError>(AgentAction::Nothing)
        } else {
            &&& after == before
            &&& r matches Err(AgentActorError::ShutdownFailure(text))
            &&& text@ == uuid_text(named)
        },
        RouterCommand::SubscribeAgent { topic, .. } => r == Ok::<AgentAction, AgentActorError>(
            AgentAction::Nothing,
        ) && after == (AgentStateView {
            subscribed_topics: before.subscribed_topics.push(topic@),
            context: ContextView { topic_id: Some(topic@), ..before.context },
            ..before
        }),
        RouterCommand::UnsubscribeAgent { topic, .. } => r == Ok::<AgentAction, AgentActorError>(
            AgentAction::Nothing,
        ) && after == (AgentStateView {
            subscribed_topics: without(before.subscribed_topics, topic@),
            context: ContextView { topic_id: topic_after_removal(before, topic@), ..before.context },
            ..before
        }),
        _ => after == before && r == Ok::<AgentAction, AgentActorError>(AgentAction::Nothing),
    }
}

/// The text that a worker publishes for the outcome of a completion: the
/// content of the reply, or the message of the error.
pub open spec fn outcome_text(outcome: Result<LlamaResponseMessage, CompletionError>) -> Seq<char> {
    match outcome {
        Ok(reply) => content_text(reply.content@),
        Err(e) => e.text(),
    }
}

impl<P> AgentActor<P> {
    /// The identity of the agent.
    pub closed spec fn id(&self) -> AgentId {
        self.agent_id
    }

    /// The configuration of the agent.
    pub closed spec fn config(&self) -> LlmAgent<P> {
        self.llm
    }

    pub fn new(agent_id: AgentId, llm: LlmAgent<P>) -> (actor: Self)
        ensures
            actor.id() == agent_id,
            actor.config() == llm,
    {
        AgentActor { agent_id, llm }
    }

    /// The identity of the agent.
    pub fn agent_id(&self) -> (id: AgentId)
        ensures
            id == self.id(),
    {
        self.agent_id
    }

    /// The configuration of the agent.
    pub fn llm(&self) -> (llm: &LlmAgent<P>)
        ensures
            *llm == self.config(),
    {
        &self.llm
    }

    /// The state that the worker starts with.
    pub fn pre_start(&self) -> (state: AgentState)
        ensures
            state@ == initial_state(self.id(), state@.context.timestamp),
    {
        AgentState::new(self.agent_id)
    }

    /// Takes one command of the worker's mailbox.
    pub fn handle(&self, msg: RouterCommand<P>, state: &mut AgentState) -> (r: Result<
        AgentAction,
        AgentActorError,
    >)
        ensures
            worked(self.id(), old(state)@, msg, final(state)@, r),
    {
        match msg {
            RouterCommand::Off => {
                state.processing_state = ProcessingState::Off;
                Ok(AgentAction::Nothing)
            },
            RouterCommand::RouteMessage { topic, message, context } => {
                let ready = match state.processing_state {
                    ProcessingState::Ready => true,
                    _ => false,
                };
                let own = match context.sender() {
                    Some(sender) => sender == self.agent_id,
                    None => false,
                };
                if !ready || own {
                    return Ok(AgentAction::Nothing);
                }
                state.processing_state = ProcessingState::Processing;
                let input = message.content.content_to_string();
                Ok(AgentAction::Process { input, topic })
            },
            RouterCommand::ShutdownAgent { agent_id } => {
                let off = match state.processing_state {
                    ProcessingState::Off => true,
                    _ => false,
                };
                if agent_id != self.agent_id || off {
                    return Err(AgentActorError::ShutdownFailure(agent_id_text(agent_id)));
                }
                state.processing_state = ProcessingState::Off;
                Ok(AgentAction::Nothing)
            },
            RouterCommand::SubscribeAgent { agent_id: _, topic } => {
                state.add_topic(topic);
                Ok(AgentAction::Nothing)
            },
            RouterCommand::UnsubscribeAgent { agent_id: _, topic } => {
                state.remove_topic(&topic);
                Ok(AgentAction::Nothing)
            },
            _ => Ok(AgentAction::Nothing),
        }
    }

    /// Ends the processing of a task: the worker is ready again, and the
    /// outcome goes back to the router as a message on the same topic,
    /// signed with the worker's own identity as its sender, so that the
    /// router does not deliver it back to the worker.
    ///
    /// An outcome that is an error is published as the text of the error.
    /// A worker that was turned off meanwhile stays off.
    pub fn publish(
        &self,
        topic: TopicId,
        outcome: Result<LlamaResponseMessage, CompletionError>,
        state: &mut AgentState,
    ) -> (command: RouterCommand<P>)
        ensures
            final(state)@ == (AgentStateView {
                processing_state: if old(state)@.processing_state == ProcessingState::Processing {
                    ProcessingState::Ready
                } else {
                    old(state)@.processing_state
                },
                ..old(state)@
            }),
            command matches RouterCommand::RouteMessage { topic: t, message, context } && t == topic
                && context@ == (ContextView { sender: Some(self.id()), ..old(state)@.context })
                && message@ == (MessageView {
                content: ContentView::Text(outcome_text(outcome)),
                name: None,
                role: Role::Assistant,
            }),
    {
        let text = match &outcome {
            Ok(reply) => reply.content.content_to_string(),
            Err(e) => e.message(),
        };
        match state.processing_state {
            ProcessingState::Processing => {
                state.processing_state = ProcessingState::Ready;
            },
            _ => {},
        }
        RouterCommand::RouteMessage {
            topic,
            message: Message::new(Content::Text(text), None, Role::Assistant),
            context: state.get_context().with_sender(self.agent_id),
        }
    }
}

} // verus!
