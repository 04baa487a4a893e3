//! The runtime of the agents: the router that owns the directory and the
//! subscriptions, the worker of one agent, and the commands that go
//! between them.

pub mod agent;
pub mod router;

use crate::immutable_agent::Message;
use crate::json::JsonValue;
use crate::text::option_text;
use std::marker::PhantomData;
use std::time::SystemTime;
use vstd::prelude::*;

verus! {

/// The identity of an agent: the 128 bits of its UUID.
pub type AgentId = u128;

/// The name of a topic.
pub type TopicId = String;

#[verifier::external_type_specification]
#[verifier::external_body]
pub struct ExSystemTime(SystemTime);

/// `Uuid::new_v4`, as its 128 bits. The bits are random but for those of
/// the version and the variant, which `new_v4` sets on every number it
/// makes: the version is 4, and the variant is the one of RFC 4122.
#[verifier::external_body]
pub(crate) fn random_uuid() -> (r: u128)
    ensures
        is_random_uuid(r),
{
    uuid::Uuid::new_v4().as_u128()
}

/// `SystemTime::now`: the time of the call. Nothing is promised of its
/// value.
#[verifier::external_body]
pub(crate) fn system_now() -> SystemTime {
    SystemTime::now()
}

/// `Clone` for `SystemTime`: the copy is the time itself.
pub assume_specification[ <SystemTime as Clone>::clone ](t: &SystemTime) -> (r: SystemTime)
    ensures
        r == *t,
;

/// The hexadecimal digit of a value below sixteen, in lower case.
pub open spec fn hex_lower(digit: int) -> char {
    if digit < 10 {
        (0x30 + digit) as char
    } else {
        (0x61 + digit - 10) as char
    }
}

/// Sixteen to the power `n`.
pub open spec fn sixteen_to(n: nat) -> int
    decreases n,
{
    if n == 0 {
        1
    } else {
        16 * sixteen_to((n - 1) as nat)
    }
}

/// The digit at position `k` of the 32 hexadecimal digits of `id`, the
/// highest digit at position 0.
pub open spec fn uuid_digit(id: AgentId, k: int) -> int {
    (id as int / sixteen_to((31 - k) as nat)) % 16
}

/// How many hyphens stand before position `i` of the text of a UUID.
pub open spec fn hyphens_before(i: int) -> int {
    if i < 8 {
        0
    } else if i < 13 {
        1
    } else if i < 18 {
        2
    } else if i < 23 {
        3
    } else {
        4
    }
}

/// The text of the UUID with the given bits: its 32 hexadecimal digits in
/// lower case, in groups of 8, 4, 4, 4 and 12 with a hyphen between the
/// groups.
pub open spec fn uuid_text(id: AgentId) -> Seq<char> {
    Seq::new(
        36,
        |i: int|
            if i == 8 || i == 13 || i == 18 || i == 23 {
                '-'
            } else {
                hex_lower(uuid_digit(id, i - hyphens_before(i)))
            },
    )
}

/// `Display` of the `Uuid` that `Uuid::from_u128` makes: the hyphenated
/// form in lower case.
#[verifier::external_body]
fn uuid_string(id: AgentId) -> (r: String)
    ensures
        r@ == uuid_text(id),
{
    uuid::Uuid::from_u128(id).to_string()
}

/// The identity of an agent as text.
pub fn agent_id_text(id: AgentId) -> (r: String)
    ensures
        r@ == uuid_text(id),
{
    uuid_string(id)
}

/// Whether `id` has the form of a random UUID: the digit at position 12
/// of its 32 hexadecimal digits, the version, is 4, and the two highest
/// bits of the digit at position 16, the variant, are 1 and 0.
pub open spec fn is_random_uuid(id: AgentId) -> bool {
    uuid_digit(id, 12) == 4 && 8 <= uuid_digit(id, 16) < 12
}

/// A new identity for an agent: a random UUID of version 4. Its other
/// bits are random: two calls may give any two such values.
pub fn new_agent_id() -> (id: AgentId)
    ensures
        is_random_uuid(id),
{
    random_uuid()
}

/// Who sent a message, on which topic, and when the context was made.
/// `M` marks what the context belongs to.
#[derive(Debug)]
pub struct Context<M> {
    sender: Option<AgentId>,
    topic_id: Option<TopicId>,
    timestamp: SystemTime,
    marker: PhantomData<M>,
}

pub struct ContextView {
    pub sender: Option<AgentId>,
    pub topic_id: Option<Seq<char>>,
    pub timestamp: SystemTime,
}

impl<M> View for Context<M> {
    type V = ContextView;

    closed spec fn view(&self) -> ContextView {
        ContextView {
            sender: self.sender,
            topic_id: option_text(self.topic_id),
            timestamp: self.timestamp,
        }
    }
}

impl<M> Clone for Context<M> {
    fn clone(&self) -> (r: Self)
        ensures
            r@ == self@,
    {
        Context {
            sender: self.sender,
            topic_id: crate::text::clone_option(&self.topic_id),
            timestamp: self.timestamp.clone(),
            marker: PhantomData,
        }
    }
}

impl<M> Context<M> {
    /// A context without sender and topic, made at the time `timestamp`.
    pub fn at(timestamp: SystemTime) -> (r: Self)
        ensures
            r@ == (ContextView { sender: None, topic_id: None, timestamp }),
    {
        Context { sender: None, topic_id: None, timestamp, marker: PhantomData }
    }

    /// A context without sender and topic, made now.
    pub fn new() -> (r: Self)
        ensures
            r@.sender is None,
            r@.topic_id is None,
    {
        Self::at(system_now())
    }

    /// The same context with `sender` as its sender.
    pub fn with_sender(self, sender: AgentId) -> (r: Self)
        ensures
            r@ == (ContextView { sender: Some(sender), ..self@ }),
    {
        let mut context = self;
        context.sender = Some(sender);
        context
    }

    /// The same context with `topic` as its topic.
    pub fn with_topic(self, topic: TopicId) -> (r: Self)
        ensures
            r@ == (ContextView { topic_id: Some(topic@), ..self@ }),
    {
        let mut context = self;
        context.topic_id = Some(topic);
        context
    }

    /// The sender of the message.
    pub fn sender(&self) -> (r: Option<AgentId>)
        ensures
            r == self@.sender,
    {
        self.sender
    }

    /// The topic of the message.
    pub fn topic_id(&self) -> (r: &Option<TopicId>)
        ensures
            option_text(*r) == self@.topic_id,
    {
        &self.topic_id
    }
}

/// Marks the context of an actor.
#[derive(Clone, Copy, Debug)]
pub struct ActorMarker;

/// Marks the context of a message.
#[derive(Clone, Copy, Debug)]
pub struct MessageMarker;

pub type ActorContext = Context<ActorMarker>;

pub type MessageContext = Context<MessageMarker>;

/// What the router answers to a spawn: the new agent's identity, or a
/// text that says why there is none.
pub type SpawnAgentResponse = Result<AgentId, String>;

/// The commands of the router and of its agents. `P` is the type of the
/// functions that format user prompts.
pub enum RouterCommand<P> {
    Off,
    Ready,
    RouteMessage { topic: TopicId, message: Message, context: ActorContext },
    ShutdownAgent { agent_id: AgentId },
    SubscribeAgent { agent_id: AgentId, topic: TopicId },
    UnsubscribeAgent { agent_id: AgentId, topic: TopicId },
    SpawnAgent {
        system_prompt: String,
        user_prompt_formatter: Option<P>,
        topic: TopicId,
        tools_map_meta: Option<JsonValue>,
        description: String,
    },
}

impl<P> Default for RouterCommand<P> {
    fn default() -> (r: Self)
        ensures
            r is Off,
    {
        RouterCommand::Off
    }
}

} // verus!
