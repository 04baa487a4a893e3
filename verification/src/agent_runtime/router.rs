//! The router: the directory of agents, the subscribers of each topic,
//! and the commands that change them.

use crate::agent_runtime::ActorContext;
use crate::agent_runtime::AgentId;
use crate::agent_runtime::ContextView;
use crate::agent_runtime::RouterCommand;
use crate::agent_runtime::SpawnAgentResponse;
use crate::agent_runtime::TopicId;
use crate::agent_runtime::agent::AgentState;
use crate::agent_runtime::agent::AgentStateView;
use crate::agent_runtime::agent::initial_state;
use crate::agent_runtime::agent_id_text;
use crate::agent_runtime::new_agent_id;
use crate::agent_runtime::uuid_text;
use crate::immutable_agent::LlmAgent;
use crate::immutable_agent::Message;
use crate::immutable_agent::MessageView;
use crate::immutable_agent::build_outcome;
use crate::immutable_agent::buildable;
use crate::json::JsonTree;
use crate::json::JsonValue;
use crate::ordered::contains_id;
use crate::ordered::copy_ids;
use crate::ordered::lemma_push_contains;
use crate::ordered::lemma_push_no_duplicates;
use crate::ordered::lemma_without_absent;
use crate::ordered::lemma_without_members;
use crate::ordered::lemma_without_no_duplicates;
use crate::ordered::lemma_without_pushed;
use crate::ordered::remove_id;
use crate::ordered::remove_text;
use crate::ordered::without;
use crate::text::join2;
use crate::text::join3;
use crate::text::texts;
use std::time::SystemTime;
use vstd::hash_map::HashMapWithView;
use vstd::hash_map::StringHashMap;
use vstd::prelude::*;

verus! {

/// The mode of the router: it routes and changes subscriptions only while
/// it is `Ready`.
#[derive(Clone, Copy, Debug, PartialEq, Eq)]
pub enum RouterStatus {
    Ready,
    Off,
}

impl Default for RouterStatus {
    fn default() -> (status: Self)
        ensures
            status == RouterStatus::Off,
    {
        RouterStatus::Off
    }
}

/// Why the router refused a command.
#[derive(Clone, Debug, PartialEq)]
pub enum RouterError {
    NotReady,
    AgentNotFound(AgentId),
    AgentBuildFailed(AgentId),
    SpawnFailed(String),
    TopicNotFound(TopicId),
    InvalidState(String),
}

/// The errors of the router, with texts for strings and without the
/// messages of outside failures.
pub enum RouterFailure {
    NotReady,
    AgentNotFound(AgentId),
    AgentBuildFailed(AgentId),
    SpawnFailed,
    TopicNotFound(Seq<char>),
    InvalidState,
}

impl RouterError {
    pub open spec fn failure(self) -> RouterFailure {
        match self {
            RouterError::NotReady => RouterFailure::NotReady,
            RouterError::AgentNotFound(id) => RouterFailure::AgentNotFound(id),
            RouterError::AgentBuildFailed(id) => RouterFailure::AgentBuildFailed(id),
            RouterError::SpawnFailed(_) => RouterFailure::SpawnFailed,
            RouterError::TopicNotFound(topic) => RouterFailure::TopicNotFound(topic@),
            RouterError::InvalidState(_) => RouterFailure::InvalidState,
        }
    }
}

impl RouterError {
    /// The message of this error.
    pub fn message(&self) -> (text: String)
        ensures
            text@ == match *self {
                RouterError::NotReady => "Router is not in ready state"@,
                RouterError::AgentNotFound(id) => "Agent "@ + uuid_text(id) + " not found"@,
                RouterError::AgentBuildFailed(id) => "Agent "@ + uuid_text(id) + " build failed"@,
                RouterError::SpawnFailed(e) => "Failed to spawn agent: "@ + e@,
                RouterError::TopicNotFound(topic) => "Topic "@ + topic@ + " not found"@,
                RouterError::InvalidState(e) => "Invalid state: "@ + e@,
            },
    {
        match self {
            RouterError::NotReady => "Router is not in ready state".to_owned(),
            RouterError::AgentNotFound(id) => {
                let id = agent_id_text(*id);
                join3("Agent ", id.as_str(), " not found")
            },
            RouterError::AgentBuildFailed(id) => {
                let id = agent_id_text(*id);
                join3("Agent ", id.as_str(), " build failed")
            },
            RouterError::SpawnFailed(e) => join2("Failed to spawn agent: ", e.as_str()),
            RouterError::TopicNotFound(topic) => join3("Topic ", topic.as_str(), " not found"),
            RouterError::InvalidState(e) => join2("Invalid state: ", e.as_str()),
        }
    }
}

/// The result of a command, with the kinds of its errors.
pub open spec fn outcome<T>(r: Result<T, RouterError>) -> Result<T, RouterFailure> {
    match r {
        Ok(value) => Ok(value),
        Err(e) => Err(e.failure()),
    }
}

/// What the router holds, as mathematical values: its mode, whether it
/// knows its own mailbox, the agents of the directory, the state that it
/// keeps of each agent, the subscribers of each topic in the order in
/// which they subscribed, and the topics of each agent in the order in
/// which it subscribed to them.
pub struct RouterView {
    pub status: RouterStatus,
    pub router: bool,
    pub agents: Set<AgentId>,
    pub states: Map<AgentId, AgentStateView>,
    pub topics: Map<Seq<char>, Seq<AgentId>>,
    pub subscriptions: Map<AgentId, Seq<Seq<char>>>,
}

impl RouterView {
    /// The subscribers of `topic`, in order; none for a topic that the
    /// router does not know.
    pub open spec fn subscribers(self, topic: Seq<char>) -> Seq<AgentId> {
        if self.topics.contains_key(topic) {
            self.topics[topic]
        } else {
            Seq::empty()
        }
    }

    /// The topics of `agent`, in order; none for an agent that the router
    /// does not know.
    pub open spec fn topics_of(self, agent: AgentId) -> Seq<Seq<char>> {
        if self.subscriptions.contains_key(agent) {
            self.subscriptions[agent]
        } else {
            Seq::empty()
        }
    }

    /// Whether `agent` is a subscriber of `topic`.
    pub open spec fn subscribed(self, agent: AgentId, topic: Seq<char>) -> bool {
        self.subscribers(topic).contains(agent)
    }

    /// The invariant of the router: every agent of the directory has its
    /// state and its list of topics and no other has one; every subscriber is in the
    /// directory; no list holds a member twice; and an agent is among the
    /// subscribers of a topic exactly where the topic is among the agent's
    /// topics.
    pub open spec fn wf(self) -> bool {
        &&& self.subscriptions.dom() =~= self.agents
        &&& self.states.dom() =~= self.agents
        &&& forall|a: AgentId, t: Seq<char>| #[trigger]
            self.subscribed(a, t) ==> self.agents.contains(a)
        &&& forall|t: Seq<char>| (#[trigger] self.subscribers(t)).no_duplicates()
        &&& forall|a: AgentId| (#[trigger] self.topics_of(a)).no_duplicates()
        &&& forall|a: AgentId, t: Seq<char>|
            #![trigger self.topics_of(a).contains(t)]
            #![trigger self.subscribed(a, t)]
            self.topics_of(a).contains(t) <==> self.subscribed(a, t)
    }

    /// The router after the mode has been set.
    pub open spec fn with_status(self, status: RouterStatus) -> RouterView {
        RouterView { status, ..self }
    }

    /// What `subscribe_agent` answers.
    pub open spec fn subscribe_result(self, agent: AgentId) -> Result<(), RouterFailure> {
        if self.status != RouterStatus::Ready {
            Err(RouterFailure::NotReady)
        } else if !self.agents.contains(agent) {
            Err(RouterFailure::AgentNotFound(agent))
        } else {
            Ok(())
        }
    }

    /// The router after `subscribe_agent`: a known agent that is not yet a
    /// subscriber of the topic becomes its last subscriber, and the topic
    /// the agent's last topic. Nothing changes where the command is
    /// refused or the agent is a subscriber already.
    pub open spec fn subscribe(self, agent: AgentId, topic: Seq<char>) -> RouterView {
        if self.subscribe_result(agent) is Ok && !self.subscribed(agent, topic) {
            RouterView {
                topics: self.topics.insert(topic, self.subscribers(topic).push(agent)),
                subscriptions: self.subscriptions.insert(agent, self.topics_of(agent).push(topic)),
                ..self
            }
        } else {
            self
        }
    }

    /// The router after `unsubscribe_agent`: the agent leaves the
    /// subscribers of the topic, and the topic the agent's topics. Nothing
    /// changes where the command is refused.
    pub open spec fn unsubscribe(self, agent: AgentId, topic: Seq<char>) -> RouterView {
        if self.subscribe_result(agent) is Ok {
            RouterView {
                topics: if self.topics.contains_key(topic) {
                    self.topics.insert(topic, without(self.topics[topic], agent))
                } else {
                    self.topics
                },
                subscriptions: self.subscriptions.insert(
                    agent,
                    without(self.topics_of(agent), topic),
                ),
                ..self
            }
        } else {
            self
        }
    }

    /// What `shutdown_agent` answers.
    pub open spec fn shutdown_result(self, agent: AgentId) -> Result<(), RouterFailure> {
        if self.agents.contains(agent) {
            Ok(())
        } else {
            Err(RouterFailure::AgentNotFound(agent))
        }
    }

    /// The router after `shutdown_agent`: the agent leaves the directory,
    /// the subscribers of every topic, and the table of the agents'
    /// topics. Nothing changes for an agent that the router does not know.
    pub open spec fn shutdown(self, agent: AgentId) -> RouterView {
        if self.agents.contains(agent) {
            RouterView {
                agents: self.agents.remove(agent),
                states: self.states.remove(agent),
                topics: Map::new(
                    |t: Seq<char>| self.topics.contains_key(t),
                    |t: Seq<char>| without(self.topics[t], agent),
                ),
                subscriptions: self.subscriptions.remove(agent),
                ..self
            }
        } else {
            self
        }
    }

    /// The agents that a message on `topic` is delivered to: every
    /// subscriber of the topic but the sender, in the order in which they
    /// subscribed.
    pub open spec fn recipients(self, topic: Seq<char>, sender: Option<AgentId>) -> Seq<AgentId> {
        match sender {
            Some(s) => without(self.subscribers(topic), s),
            None => self.subscribers(topic),
        }
    }

    /// What `route_message` answers: the recipients, or why the message is
    /// not delivered to anyone.
    pub open spec fn route_result(self, topic: Seq<char>, sender: Option<AgentId>) -> Result<
        Seq<AgentId>,
        RouterFailure,
    > {
        if self.status != RouterStatus::Ready {
            Err(RouterFailure::NotReady)
        } else if self.subscribers(topic).len() == 0 {
            Err(RouterFailure::TopicNotFound(topic))
        } else {
            Ok(self.recipients(topic, sender))
        }
    }

    /// The router after a new agent has been taken into the directory at
    /// the time `made_at`, in its initial state and with no topic yet.
    pub open spec fn enrol(self, agent: AgentId, made_at: SystemTime) -> RouterView {
        RouterView {
            agents: self.agents.insert(agent),
            states: self.states.insert(agent, initial_state(agent, made_at)),
            subscriptions: self.subscriptions.insert(agent, Seq::empty()),
            ..self
        }
    }

    /// The invariant does not depend on the mode, nor on whether the
    /// router knows its mailbox.
    pub proof fn lemma_tables_wf(self, other: RouterView)
        requires
            self.wf(),
            other.agents == self.agents,
            other.states == self.states,
            other.topics == self.topics,
            other.subscriptions == self.subscriptions,
        ensures
            other.wf(),
    {
        assert forall|t: Seq<char>| #[trigger] other.subscribers(t) == self.subscribers(t) by {}
        assert forall|a: AgentId| #[trigger] other.topics_of(a) == self.topics_of(a) by {}
        assert forall|a: AgentId, t: Seq<char>| #[trigger]
            other.subscribed(a, t) implies other.agents.contains(a) by {
            assert(self.subscribed(a, t));
        }
        assert forall|a: AgentId, t: Seq<char>|
            #![trigger other.topics_of(a).contains(t)]
            #![trigger other.subscribed(a, t)]
            other.topics_of(a).contains(t) <==> other.subscribed(a, t) by {
            assert(self.topics_of(a).contains(t) <==> self.subscribed(a, t));
        }
    }

    /// `subscribe` keeps the invariant.
    pub proof fn lemma_subscribe_wf(self, agent: AgentId, topic: Seq<char>)
        requires
            self.wf(),
        ensures
            self.subscribe(agent, topic).wf(),
    {
        let after = self.subscribe(agent, topic);
        if after != self {
            let subs = self.subscribers(topic);
            let mine = self.topics_of(agent);
            assert(self.subscriptions.contains_key(agent));
            assert(!mine.contains(topic)) by {
                assert(self.topics_of(agent).contains(topic) <==> self.subscribed(agent, topic));
            }
            lemma_push_no_duplicates(subs, agent);
            lemma_push_no_duplicates(mine, topic);
            assert forall|t: Seq<char>| (#[trigger] after.subscribers(t)).no_duplicates() by {
                if t != topic {
                    assert(after.subscribers(t) == self.subscribers(t));
                }
            }
            assert forall|a: AgentId| (#[trigger] after.topics_of(a)).no_duplicates() by {
                if a != agent {
                    assert(after.topics_of(a) == self.topics_of(a));
                }
            }
            assert forall|a: AgentId, t: Seq<char>| #[trigger]
                after.subscribed(a, t) implies after.agents.contains(a) by {
                if t == topic {
                    lemma_push_contains(subs, agent, a);
                    if a != agent {
                        assert(self.subscribed(a, t));
                    }
                } else {
                    assert(self.subscribed(a, t));
                }
            }
            assert forall|a: AgentId, t: Seq<char>|
                #![trigger after.topics_of(a).contains(t)]
                #![trigger after.subscribed(a, t)]
                after.topics_of(a).contains(t) <==> after.subscribed(a, t) by {
                assert(self.topics_of(a).contains(t) <==> self.subscribed(a, t));
                if a == agent {
                    lemma_push_contains(mine, topic, t);
                }
                if t == topic {
                    lemma_push_contains(subs, agent, a);
                }
            }
        }
    }

    /// `unsubscribe` keeps the invariant.
    pub proof fn lemma_unsubscribe_wf(self, agent: AgentId, topic: Seq<char>)
        requires
            self.wf(),
        ensures
            self.unsubscribe(agent, topic).wf(),
    {
        let after = self.unsubscribe(agent, topic);
        if self.subscribe_result(agent) is Ok {
            let subs = self.subscribers(topic);
            let mine = self.topics_of(agent);
            assert(self.subscriptions.contains_key(agent));
            lemma_without_members(subs, agent);
            lemma_without_members(mine, topic);
            lemma_without_no_duplicates(subs, agent);
            lemma_without_no_duplicates(mine, topic);
            assert(after.subscribers(topic) == without(subs, agent)) by {
                if !self.topics.contains_key(topic) {
                    assert(without(subs, agent) =~= subs);
                }
            }
            assert(after.topics_of(agent) == without(mine, topic));
            assert forall|t: Seq<char>| (#[trigger] after.subscribers(t)).no_duplicates() by {
                if t != topic {
                    assert(after.subscribers(t) == self.subscribers(t));
                }
            }
            assert forall|a: AgentId| (#[trigger] after.topics_of(a)).no_duplicates() by {
                if a != agent {
                    assert(after.topics_of(a) == self.topics_of(a));
                }
            }
            assert forall|a: AgentId, t: Seq<char>| #[trigger]
                after.subscribed(a, t) implies after.agents.contains(a) by {
                if t != topic {
                    assert(after.subscribers(t) == self.subscribers(t));
                }
                assert(self.subscribed(a, t));
            }
            assert forall|a: AgentId, t: Seq<char>|
                #![trigger after.topics_of(a).contains(t)]
                #![trigger after.subscribed(a, t)]
                after.topics_of(a).contains(t) <==> after.subscribed(a, t) by {
                assert(self.topics_of(a).contains(t) <==> self.subscribed(a, t));
                if t != topic {
                    assert(after.subscribers(t) == self.subscribers(t));
                }
                if a != agent {
                    assert(after.topics_of(a) == self.topics_of(a));
                }
            }
        }
    }

    /// `shutdown` keeps the invariant.
    pub proof fn lemma_shutdown_wf(self, agent: AgentId)
        requires
            self.wf(),
        ensures
            self.shutdown(agent).wf(),
    {
        let after = self.shutdown(agent);
        if self.agents.contains(agent) {
            assert forall|t: Seq<char>| #[trigger]
                after.subscribers(t) == without(self.subscribers(t), agent) by {
                if !self.topics.contains_key(t) {
                    assert(without(self.subscribers(t), agent) =~= self.subscribers(t));
                }
            }
            assert forall|t: Seq<char>| (#[trigger] after.subscribers(t)).no_duplicates() by {
                assert(self.subscribers(t).no_duplicates());
                lemma_without_no_duplicates(self.subscribers(t), agent);
            }
            assert forall|a: AgentId| (#[trigger] after.topics_of(a)).no_duplicates() by {
                if a != agent {
                    assert(after.topics_of(a) == self.topics_of(a));
                } else {
                    assert(after.topics_of(a) =~= Seq::<Seq<char>>::empty());
                }
            }
            assert forall|a: AgentId, t: Seq<char>| #[trigger]
                after.subscribed(a, t) implies after.agents.contains(a) by {
                lemma_without_members(self.subscribers(t), agent);
                assert(self.subscribed(a, t));
            }
            assert forall|a: AgentId, t: Seq<char>|
                #![trigger after.topics_of(a).contains(t)]
                #![trigger after.subscribed(a, t)]
                after.topics_of(a).contains(t) <==> after.subscribed(a, t) by {
                lemma_without_members(self.subscribers(t), agent);
                assert(self.topics_of(a).contains(t) <==> self.subscribed(a, t));
                if a != agent {
                    assert(after.topics_of(a) == self.topics_of(a));
                } else {
                    assert(after.topics_of(a) =~= Seq::<Seq<char>>::empty());
                }
            }
        }
    }

    /// `enrol` keeps the invariant for an identity that is new to the
    /// directory.
    pub proof fn lemma_enrol_wf(self, agent: AgentId, made_at: SystemTime)
        requires
            self.wf(),
            !self.agents.contains(agent),
        ensures
            self.enrol(agent, made_at).wf(),
    {
        let after = self.enrol(agent, made_at);
        assert(!self.subscriptions.contains_key(agent));
        assert forall|t: Seq<char>| #[trigger] after.subscribers(t) == self.subscribers(t) by {}
        assert forall|a: AgentId| (#[trigger] after.topics_of(a)).no_duplicates() by {
            if a != agent {
                assert(after.topics_of(a) == self.topics_of(a));
            }
        }
        assert forall|a: AgentId, t: Seq<char>| #[trigger]
            after.subscribed(a, t) implies after.agents.contains(a) by {
            assert(self.subscribed(a, t));
        }
        assert forall|a: AgentId, t: Seq<char>|
            #![trigger after.topics_of(a).contains(t)]
            #![trigger after.subscribed(a, t)]
            after.topics_of(a).contains(t) <==> after.subscribed(a, t) by {
            assert(self.topics_of(a).contains(t) <==> self.subscribed(a, t));
            if a == agent {
                assert(!self.subscribed(a, t)) by {
                    if self.subscribed(a, t) {
                        assert(self.agents.contains(a));
                    }
                }
            } else {
                assert(after.topics_of(a) == self.topics_of(a));
            }
        }
    }
}

/// A message is delivered to every subscriber of its topic but the
/// sender, once to each, and never to the sender.
pub proof fn lemma_self_exclusion(router: RouterView, topic: Seq<char>, sender: AgentId)
    requires
        router.wf(),
        router.status == RouterStatus::Ready,
        router.subscribed(sender, topic),
    ensures
        router.route_result(topic, Some(sender)) matches Ok(recipients) && {
            &&& !recipients.contains(sender)
            &&& recipients.no_duplicates()
            &&& forall|agent: AgentId| #[trigger]
                recipients.contains(agent) <==> (router.subscribed(agent, topic) && agent
                    != sender)
        },
{
    let subs = router.subscribers(topic);
    assert(subs.len() > 0) by {
        let i = choose|i: int| 0 <= i < subs.len() && subs[i] == sender;
    }
    assert(subs.no_duplicates());
    lemma_without_members(subs, sender);
    lemma_without_no_duplicates(subs, sender);
}

/// To subscribe an agent to a topic and to unsubscribe it at once leaves
/// the subscribers of every topic and the topics of every agent as they
/// were, where the agent was no subscriber of the topic before.
pub proof fn lemma_subscription_round_trip(router: RouterView, agent: AgentId, topic: Seq<char>)
    requires
        router.wf(),
        !router.subscribed(agent, topic),
    ensures
        ({
            let after = router.subscribe(agent, topic).unsubscribe(agent, topic);
            &&& after.wf()
            &&& after.subscribers(topic) == router.subscribers(topic)
            &&& after.topics_of(agent) == router.topics_of(agent)
            &&& forall|t: Seq<char>| #[trigger] after.subscribers(t) == router.subscribers(t)
            &&& forall|a: AgentId| #[trigger] after.topics_of(a) == router.topics_of(a)
            &&& after.agents == router.agents
            &&& after.states == router.states
            &&& after.status == router.status
        }),
{
    let between = router.subscribe(agent, topic);
    let after = between.unsubscribe(agent, topic);
    router.lemma_subscribe_wf(agent, topic);
    between.lemma_unsubscribe_wf(agent, topic);
    if router.subscribe_result(agent) is Ok {
        let subs = router.subscribers(topic);
        let mine = router.topics_of(agent);
        assert(router.subscriptions.contains_key(agent));
        assert(!mine.contains(topic)) by {
            assert(router.topics_of(agent).contains(topic) <==> router.subscribed(agent, topic));
        }
        lemma_without_pushed(subs, agent);
        lemma_without_pushed(mine, topic);
        lemma_without_absent(subs, agent);
        lemma_without_absent(mine, topic);
        assert(after.subscribers(topic) == subs);
        assert(after.topics_of(agent) == mine);
        assert forall|t: Seq<char>| #[trigger] after.subscribers(t) == router.subscribers(t) by {
            if t != topic {
                assert(between.subscribers(t) == router.subscribers(t));
            }
        }
        assert forall|a: AgentId| #[trigger] after.topics_of(a) == router.topics_of(a) by {
            if a != agent {
                assert(between.topics_of(a) == router.topics_of(a));
            }
        }
    }
}

/// After the shutdown of an agent, the agent is in the directory no more,
/// among the subscribers of no topic, and without a list of topics; and a
/// second shutdown of it finds no such agent.
pub proof fn lemma_shutdown_purge(router: RouterView, agent: AgentId)
    requires
        router.wf(),
    ensures
        ({
            let after = router.shutdown(agent);
            &&& after.wf()
            &&& !after.agents.contains(agent)
            &&& forall|t: Seq<char>| !(#[trigger] after.subscribed(agent, t))
            &&& !after.subscriptions.contains_key(agent)
            &&& !after.states.contains_key(agent)
            &&& after.shutdown_result(agent) == Err::<(), RouterFailure>(
                RouterFailure::AgentNotFound(agent),
            )
            &&& after.shutdown(agent) == after
        }),
{
    let after = router.shutdown(agent);
    router.lemma_shutdown_wf(agent);
    assert forall|t: Seq<char>| !(#[trigger] after.subscribed(agent, t)) by {
        if after.subscribed(agent, t) {
            assert(after.agents.contains(agent));
        }
    }
}

/// While the router is off no message is routed, whatever the topic and
/// the sender; and the mode can be set from either mode.
pub proof fn lemma_mode_gating(
    router: RouterView,
    status: RouterStatus,
    topic: Seq<char>,
    sender: Option<AgentId>,
)
    ensures
        router.with_status(status).status == status,
        router.with_status(RouterStatus::Off).route_result(topic, sender) == Err::<
            Seq<AgentId>,
            RouterFailure,
        >(RouterFailure::NotReady),
        router.status == RouterStatus::Off ==> router.route_result(topic, sender) == Err::<
            Seq<AgentId>,
            RouterFailure,
        >(RouterFailure::NotReady),
        router.status == RouterStatus::Off ==> router.subscribe(agent_of(sender), topic) == router
            && router.unsubscribe(agent_of(sender), topic) == router,
{
}

/// The identity of a sender; 0 where there is none.
pub open spec fn agent_of(sender: Option<AgentId>) -> AgentId {
    match sender {
        Some(agent) => agent,
        None => 0,
    }
}

/// The state of the router.
pub struct RouterState {
    topic_subscriptions: StringHashMap<Vec<AgentId>>,
    agent_subscriptions: HashMapWithView<AgentId, Vec<TopicId>>,
    agent_states: HashMapWithView<AgentId, AgentState>,
    state: RouterStatus,
    router: bool,
}

impl View for RouterState {
    type V = RouterView;

    closed spec fn view(&self) -> RouterView {
        RouterView {
            status: self.state,
            router: self.router,
            agents: self.agent_states@.dom(),
            states: Map::new(
                |a: AgentId| self.agent_states@.contains_key(a),
                |a: AgentId| self.agent_states@[a]@,
            ),
            topics: Map::new(
                |t: Seq<char>| self.topic_subscriptions@.contains_key(t),
                |t: Seq<char>| self.topic_subscriptions@[t]@,
            ),
            subscriptions: Map::new(
                |a: AgentId| self.agent_subscriptions@.contains_key(a),
                |a: AgentId| texts(self.agent_subscriptions@[a]@),
            ),
        }
    }
}

impl Default for RouterState {
    fn default() -> (state: Self)
        ensures
            state.wf(),
            state@ == RouterView::initial(),
    {
        RouterState::new()
    }
}

impl RouterView {
    /// The router at its start: off, without agents and topics.
    pub open spec fn initial() -> RouterView {
        RouterView {
            status: RouterStatus::Off,
            router: false,
            agents: Set::empty(),
            states: Map::empty(),
            topics: Map::empty(),
            subscriptions: Map::empty(),
        }
    }
}

impl RouterState {
    /// The invariant of the router holds.
    pub open spec fn wf(&self) -> bool {
        self@.wf()
    }

    /// A router at its start.
    pub fn new() -> (state: Self)
        ensures
            state.wf(),
            state@ == RouterView::initial(),
    {
        broadcast use vstd::std_specs::hash::group_hash_axioms;

        let state = RouterState {
            topic_subscriptions: StringHashMap::new(),
            agent_subscriptions: HashMapWithView::new(),
            agent_states: HashMapWithView::new(),
            state: RouterStatus::Off,
            router: false,
        };
        assert(state@.topics =~= Map::<Seq<char>, Seq<AgentId>>::empty());
        assert(state@.subscriptions =~= Map::<AgentId, Seq<Seq<char>>>::empty());
        assert(state@.agents =~= Set::<AgentId>::empty());
        assert(state@.states =~= Map::<AgentId, AgentStateView>::empty());
        state
    }

    /// Notes that the router knows its own mailbox: from then on it can
    /// link the workers it spawns.
    pub fn set_router(&mut self)
        ensures
            final(self)@ == (RouterView { router: true, ..old(self)@ }),
            old(self).wf() ==> final(self).wf(),
    {
        self.router = true;
        proof {
            if old(self).wf() {
                old(self)@.lemma_tables_wf(self@);
            }
        }
    }

    /// Sets the mode.
    pub fn set_status(&mut self, status: RouterStatus)
        ensures
            final(self)@ == old(self)@.with_status(status),
            old(self).wf() ==> final(self).wf(),
    {
        self.state = status;
        proof {
            if old(self).wf() {
                old(self)@.lemma_tables_wf(self@);
            }
        }
    }

    pub fn is_ready(&self) -> (ready: bool)
        ensures
            ready == (self@.status == RouterStatus::Ready),
    {
        match self.state {
            RouterStatus::Ready => true,
            RouterStatus::Off => false,
        }
    }

    fn ensure_ready(&self) -> (r: Result<(), RouterError>)
        ensures
            r == (if self@.status == RouterStatus::Ready {
                Ok::<(), RouterError>(())
            } else {
                Err(RouterError::NotReady)
            }),
    {
        if !self.is_ready() {
            Err(RouterError::NotReady)
        } else {
            Ok(())
        }
    }
}

/// One delivery of a routed message: the command that goes to the
/// mailbox of `recipient`.
pub struct Delivery {
    pub recipient: AgentId,
    pub topic: TopicId,
    pub message: Message,
    pub context: ActorContext,
}

pub struct DeliveryView {
    pub recipient: AgentId,
    pub topic: Seq<char>,
    pub message: MessageView,
    pub context: ContextView,
}

impl View for Delivery {
    type V = DeliveryView;

    open spec fn view(&self) -> DeliveryView {
        DeliveryView {
            recipient: self.recipient,
            topic: self.topic@,
            message: self.message@,
            context: self.context@,
        }
    }
}

/// The deliveries of one message to the given recipients, in order.
pub open spec fn deliveries_to(
    recipients: Seq<AgentId>,
    topic: Seq<char>,
    message: MessageView,
    context: ContextView,
) -> Seq<DeliveryView> {
    Seq::new(
        recipients.len(),
        |i: int| DeliveryView { recipient: recipients[i], topic, message, context },
    )
}

/// The views of a list of deliveries.
pub open spec fn deliveries_view(list: Seq<Delivery>) -> Seq<DeliveryView> {
    Seq::new(list.len(), |i: int| list[i]@)
}

impl RouterState {
    /// Makes `agent_id` a subscriber of `topic`.
    ///
    /// The router must be ready and know the agent. An agent that is a
    /// subscriber of the topic already stays where it is in the order.
    pub fn subscribe_agent(&mut self, agent_id: AgentId, topic: TopicId) -> (r: Result<
        (),
        RouterError,
    >)
        requires
            old(self).wf(),
        ensures
            final(self).wf(),
            final(self)@ == old(self)@.subscribe(agent_id, topic@),
            outcome(r) == old(self)@.subscribe_result(agent_id),
    {
        proof {
            old(self)@.lemma_subscribe_wf(agent_id, topic@);
        }
        match self.ensure_ready() {
            Err(e) => {
                return Err(e);
            },
            Ok(_) => {},
        }
        if !self.agent_states.contains_key(&agent_id) {
            return Err(RouterError::AgentNotFound(agent_id));
        }
        let mut subscribers = match self.topic_subscriptions.get(topic.as_str()) {
            Some(list) => copy_ids(list),
            None => Vec::new(),
        };
        assert(subscribers@ =~= old(self)@.subscribers(topic@));
        if contains_id(&subscribers, agent_id) {
            return Ok(());
        }
        subscribers.push(agent_id);
        self.topic_subscriptions.insert(topic.clone(), subscribers);
        assert(self.agent_subscriptions@.contains_key(agent_id)) by {
            assert(old(self)@.subscriptions.dom().contains(agent_id));
        }
        let mut topics = match self.agent_subscriptions.remove(&agent_id) {
            Some(list) => list,
            None => Vec::new(),
        };
        let ghost mine = texts(topics@);
        topics.push(topic);
        assert(texts(topics@) =~= mine.push(topic@));
        self.agent_subscriptions.insert(agent_id, topics);
        assert(self@.topics =~= old(self)@.subscribe(agent_id, topic@).topics);
        assert(self@.subscriptions =~= old(self)@.subscribe(agent_id, topic@).subscriptions);
        Ok(())
    }

    /// Takes `agent_id` from the subscribers of `topic`.
    ///
    /// The router must be ready and know the agent. Nothing changes, and
    /// no error is reported, where the agent was no subscriber.
    pub fn unsubscribe_agent(&mut self, agent_id: AgentId, topic: &TopicId) -> (r: Result<
        (),
        RouterError,
    >)
        requires
            old(self).wf(),
        ensures
            final(self).wf(),
            final(self)@ == old(self)@.unsubscribe(agent_id, topic@),
            outcome(r) == old(self)@.subscribe_result(agent_id),
    {
        proof {
            old(self)@.lemma_unsubscribe_wf(agent_id, topic@);
        }
        match self.ensure_ready() {
            Err(e) => {
                return Err(e);
            },
            Ok(_) => {},
        }
        if !self.agent_states.contains_key(&agent_id) {
            return Err(RouterError::AgentNotFound(agent_id));
        }
        let kept = match self.topic_subscriptions.get(topic.as_str()) {
            Some(list) => Some(remove_id(list, agent_id)),
            None => None,
        };
        match kept {
            Some(list) => {
                self.topic_subscriptions.insert(topic.clone(), list);
            },
            None => {},
        }
        assert(self.agent_subscriptions@.contains_key(agent_id)) by {
            assert(old(self)@.subscriptions.dom().contains(agent_id));
        }
        let topics = match self.agent_subscriptions.remove(&agent_id) {
            Some(list) => list,
            None => Vec::new(),
        };
        let left = remove_text(&topics, topic.as_str());
        self.agent_subscriptions.insert(agent_id, left);
        assert(self@.topics =~= old(self)@.unsubscribe(agent_id, topic@).topics);
        assert(self@.subscriptions =~= old(self)@.unsubscribe(agent_id, topic@).subscriptions);
        Ok(())
    }

    /// The state that the router keeps of an agent.
    pub fn get_agent_state(&self, agent_id: &AgentId) -> (r: Option<&AgentState>)
        ensures
            match r {
                Some(state) => self@.states.contains_key(*agent_id) && state@
                    == self@.states[*agent_id],
                None => !self@.states.contains_key(*agent_id),
            },
    {
        self.agent_states.get(agent_id)
    }

    /// The topics of an agent, in the order in which it subscribed.
    pub fn get_agent_topics(&self, agent_id: &AgentId) -> (r: Result<Vec<TopicId>, RouterError>)
        requires
            self.wf(),
        ensures
            match r {
                Ok(topics) => self@.subscribe_result(*agent_id) is Ok && texts(topics@)
                    == self@.topics_of(*agent_id),
                Err(e) => self@.subscribe_result(*agent_id) == Err::<(), RouterFailure>(
                    e.failure(),
                ),
            },
    {
        match self.ensure_ready() {
            Err(e) => {
                return Err(e);
            },
            Ok(_) => {},
        }
        match self.agent_subscriptions.get(agent_id) {
            Some(topics) => {
                assert(self@.subscriptions.dom().contains(*agent_id));
                Ok(crate::text::clone_strings(topics))
            },
            None => {
                assert(!self@.subscriptions.dom().contains(*agent_id));
                Err(RouterError::AgentNotFound(*agent_id))
            },
        }
    }

    /// The subscribers of a topic, in the order in which they subscribed.
    pub fn get_topic_subscribers(&self, topic: &TopicId) -> (r: Result<Vec<AgentId>, RouterError>)
        ensures
            match r {
                Ok(subscribers) => self@.status == RouterStatus::Ready && self@.topics.contains_key(
                    topic@,
                ) && subscribers@ == self@.subscribers(topic@),
                Err(e) => e.failure() == (if self@.status != RouterStatus::Ready {
                    RouterFailure::NotReady
                } else {
                    RouterFailure::TopicNotFound(topic@)
                }) && (self@.status != RouterStatus::Ready || !self@.topics.contains_key(topic@)),
            },
    {
        match self.ensure_ready() {
            Err(e) => {
                return Err(e);
            },
            Ok(_) => {},
        }
        match self.topic_subscriptions.get(topic.as_str()) {
            Some(subscribers) => Ok(copy_ids(subscribers)),
            None => Err(RouterError::TopicNotFound(topic.clone())),
        }
    }

    /// The deliveries of a message on `topic`: one for every subscriber of
    /// the topic but the sender that the context names, in the order in
    /// which they subscribed.
    ///
    /// The router must be ready, and the topic must have a subscriber.
    pub fn route_message(&self, topic: TopicId, message: Message, context: ActorContext) -> (r:
        Result<Vec<Delivery>, RouterError>)
        ensures
            match r {
                Ok(deliveries) => self@.route_result(topic@, context@.sender) matches Ok(recipients)
                    && deliveries_view(deliveries@) == deliveries_to(
                    recipients,
                    topic@,
                    message@,
                    context@,
                ),
                Err(e) => self@.route_result(topic@, context@.sender) == Err::<
                    Seq<AgentId>,
                    RouterFailure,
                >(e.failure()),
            },
    {
        match self.ensure_ready() {
            Err(e) => {
                return Err(e);
            },
            Ok(_) => {},
        }
        let agent_ids = match self.topic_subscriptions.get(topic.as_str()) {
            Some(list) => list,
            None => {
                return Err(RouterError::TopicNotFound(topic));
            },
        };
        if agent_ids.len() == 0 {
            return Err(RouterError::TopicNotFound(topic));
        }
        let recipients = match context.sender() {
            Some(sender) => remove_id(agent_ids, sender),
            None => copy_ids(agent_ids),
        };
        let mut deliveries: Vec<Delivery> = Vec::new();
        let mut i: usize = 0;
        while i < recipients.len()
            invariant
                i <= recipients@.len(),
                deliveries@.len() == i,
                forall|k: int|
                    0 <= k < i ==> deliveries@[k]@ == (DeliveryView {
                        recipient: recipients@[k],
                        topic: topic@,
                        message: message@,
                        context: context@,
                    }),
            decreases recipients@.len() - i,
        {
            deliveries.push(
                Delivery {
                    recipient: recipients[i],
                    topic: topic.clone(),
                    message: message.clone(),
                    context: context.clone(),
                },
            );
            i += 1;
        }
        assert(deliveries_view(deliveries@) =~= deliveries_to(
            recipients@,
            topic@,
            message@,
            context@,
        ));
        Ok(deliveries)
    }

    /// Takes an agent out of the router: out of the directory, out of the
    /// subscribers of every topic, and out of the table of topics.
    ///
    /// The agent must be in the directory; the mode does not matter.
    pub fn shutdown_agent(&mut self, agent_id: AgentId) -> (r: Result<(), RouterError>)
        requires
            old(self).wf(),
        ensures
            final(self).wf(),
            final(self)@ == old(self)@.shutdown(agent_id),
            outcome(r) == old(self)@.shutdown_result(agent_id),
    {
        proof {
            old(self)@.lemma_shutdown_wf(agent_id);
        }
        if self.agent_states.remove(&agent_id).is_none() {
            return Err(RouterError::AgentNotFound(agent_id));
        }
        assert(old(self)@.subscriptions.dom().contains(agent_id));
        let topics = match self.agent_subscriptions.remove(&agent_id) {
            Some(list) => list,
            None => Vec::new(),
        };
        let ghost before = old(self)@;
        let ghost mine = texts(topics@);
        assert(mine == before.topics_of(agent_id));
        let mut i: usize = 0;
        while i < topics.len()
            invariant
                i <= topics@.len(),
                mine == texts(topics@),
                before == old(self)@,
                before.wf(),
                mine == before.topics_of(agent_id),
                self.state == old(self).state,
                self.router == old(self).router,
                self.agent_states@ == old(self).agent_states@.remove(agent_id),
                self.agent_subscriptions@ == old(self).agent_subscriptions@.remove(agent_id),
                self.topic_subscriptions@.dom() == old(self).topic_subscriptions@.dom(),
                forall|t: Seq<char>| #[trigger]
                    self.topic_subscriptions@.contains_key(t) ==> self.topic_subscriptions@[t]@
                        == (if mine.take(i as int).contains(t) {
                        without(before.topics[t], agent_id)
                    } else {
                        before.topics[t]
                    }),
            decreases topics@.len() - i,
        {
            let ghost done = mine.take(i as int);
            let ghost name = topics@[i as int]@;
            assert(mine.take(i + 1) =~= done.push(name));
            let kept = match self.topic_subscriptions.get(topics[i].as_str()) {
                Some(list) => Some(remove_id(list, agent_id)),
                None => None,
            };
            match kept {
                Some(list) => {
                    proof {
                        lemma_without_members(before.topics[name], agent_id);
                        if done.contains(name) {
                            lemma_without_absent(without(before.topics[name], agent_id), agent_id);
                        }
                    }
                    self.topic_subscriptions.insert(topics[i].clone(), list);
                    assert(self.topic_subscriptions@.dom() =~= old(
                        self,
                    ).topic_subscriptions@.dom());
                },
                None => {},
            }
            assert forall|t: Seq<char>| #[trigger]
                self.topic_subscriptions@.contains_key(t) implies self.topic_subscriptions@[t]@
                == (if mine.take(i + 1).contains(t) {
                without(before.topics[t], agent_id)
            } else {
                before.topics[t]
            }) by {
                lemma_push_contains(done, name, t);
            }
            i += 1;
        }
        proof {
            assert(mine.take(i as int) =~= mine);
            let after = before.shutdown(agent_id);
            assert forall|t: Seq<char>| #[trigger]
                self@.topics.contains_key(t) implies self@.topics[t] == after.topics[t] by {
                if !mine.contains(t) {
                    assert(before.topics_of(agent_id).contains(t) <==> before.subscribed(
                        agent_id,
                        t,
                    ));
                    lemma_without_absent(before.topics[t], agent_id);
                }
            }
            assert(self@.topics =~= after.topics);
            assert(self@.subscriptions =~= after.subscriptions);
            assert(self@.agents =~= after.agents);
            assert(self@.states =~= after.states);
        }
        Ok(())
    }
}

/// An agent that is ready to be linked: its new identity, its
/// configuration, and the topic it will listen to.
pub struct SpawnPlan<P> {
    pub agent_id: AgentId,
    pub agent: LlmAgent<P>,
    pub topic: TopicId,
}

impl RouterView {
    /// Whether an agent with the identity `agent` can be spawned: the
    /// router is ready, the identity is new, the agent can be configured,
    /// and the router knows its own mailbox.
    pub open spec fn spawn_check(self, agent: AgentId, buildable: bool) -> Result<
        (),
        RouterFailure,
    > {
        if self.status != RouterStatus::Ready {
            Err(RouterFailure::NotReady)
        } else if self.agents.contains(agent) {
            Err(RouterFailure::InvalidState)
        } else if !buildable {
            Err(RouterFailure::AgentBuildFailed(agent))
        } else if !self.router {
            Err(RouterFailure::InvalidState)
        } else {
            Ok(())
        }
    }

    /// What `complete_spawn` answers once the worker of `agent` has been
    /// linked, or could not be.
    pub open spec fn complete_result(self, agent: AgentId, linked: bool) -> Result<
        AgentId,
        RouterFailure,
    > {
        if self.status != RouterStatus::Ready {
            Err(RouterFailure::NotReady)
        } else if !linked {
            Err(RouterFailure::SpawnFailed)
        } else if self.agents.contains(agent) {
            Err(RouterFailure::InvalidState)
        } else {
            Ok(agent)
        }
    }

    /// The router after a spawn at the time `made_at`: the agent is in the
    /// directory in its initial state, and is the last subscriber of its
    /// topic. Nothing changes where the spawn is refused.
    pub open spec fn spawned(
        self,
        agent: AgentId,
        topic: Seq<char>,
        linked: bool,
        made_at: SystemTime,
    ) -> RouterView {
        if self.complete_result(agent, linked) is Ok {
            self.enrol(agent, made_at).subscribe(agent, topic)
        } else {
            self
        }
    }

    /// `spawned` keeps the invariant.
    pub proof fn lemma_spawned_wf(
        self,
        agent: AgentId,
        topic: Seq<char>,
        linked: bool,
        made_at: SystemTime,
    )
        requires
            self.wf(),
        ensures
            self.spawned(agent, topic, linked, made_at).wf(),
    {
        if self.complete_result(agent, linked) is Ok {
            self.lemma_enrol_wf(agent, made_at);
            self.enrol(agent, made_at).lemma_subscribe_wf(agent, topic);
        }
    }
}

impl RouterState {
    /// Prepares the spawn of an agent with the identity `agent_id`:
    /// checks that the router can take it, and configures it.
    ///
    /// Nothing is inserted yet: the worker has to be linked first, and
    /// `complete_spawn` called with the outcome.
    pub fn plan_spawn<P>(
        &self,
        agent_id: AgentId,
        system_prompt: &str,
        user_prompt_formatter: Option<P>,
        topic: TopicId,
        tools_map_meta: Option<JsonValue>,
        description: String,
    ) -> (r: Result<SpawnPlan<P>, RouterError>)
        ensures
            match r {
                Ok(plan) => {
                    &&& self@.spawn_check(agent_id, buildable(tools_tree(tools_map_meta))) is Ok
                    &&& plan.agent_id == agent_id
                    &&& plan.topic == topic
                    &&& build_outcome(
                        system_prompt@,
                        user_prompt_formatter,
                        None,
                        tools_tree(tools_map_meta),
                        description@,
                        Ok(plan.agent),
                    )
                },
                Err(e) => self@.spawn_check(agent_id, buildable(tools_tree(tools_map_meta)))
                    == Err::<(), RouterFailure>(e.failure()),
            },
    {
        match self.ensure_ready() {
            Err(e) => {
                return Err(e);
            },
            Ok(_) => {},
        }
        if self.agent_states.contains_key(&agent_id) {
            return Err(RouterError::InvalidState("Agent identity is already in use".to_owned()));
        }
        let agent = match LlmAgent::build(
            system_prompt.to_owned(),
            user_prompt_formatter,
            None,
            tools_map_meta,
            description,
        ) {
            Ok(agent) => agent,
            Err(_) => {
                return Err(RouterError::AgentBuildFailed(agent_id));
            },
        };
        if !self.router {
            return Err(RouterError::InvalidState("Router reference missing".to_owned()));
        }
        Ok(SpawnPlan { agent_id, agent, topic })
    }

    /// Prepares the spawn of an agent under a new, random identity.
    ///
    /// The outcome is that of `plan_spawn` for the identity drawn.
    pub fn spawn_agent_w_actor<P>(
        &self,
        system_prompt: &str,
        user_prompt_formatter: Option<P>,
        topic: TopicId,
        tools_map_meta: Option<JsonValue>,
        description: String,
    ) -> (r: Result<SpawnPlan<P>, RouterError>)
        ensures
            match r {
                Ok(plan) => {
                    &&& self@.spawn_check(plan.agent_id, buildable(tools_tree(tools_map_meta))) is Ok
                    &&& plan.topic == topic
                    &&& build_outcome(
                        system_prompt@,
                        user_prompt_formatter,
                        None,
                        tools_tree(tools_map_meta),
                        description@,
                        Ok(plan.agent),
                    )
                },
                Err(e) => exists|agent_id: AgentId| #[trigger]
                    self@.spawn_check(agent_id, buildable(tools_tree(tools_map_meta))) == Err::<
                        (),
                        RouterFailure,
                    >(e.failure()),
            },
    {
        let new_agent_id = new_agent_id();
        self.plan_spawn(
            new_agent_id,
            system_prompt,
            user_prompt_formatter,
            topic,
            tools_map_meta,
            description,
        )
    }

    /// Takes the agent into the router once its worker has been linked:
    /// into the directory, and among the subscribers of its topic.
    ///
    /// `linked` is the outcome of linking the worker. Where it failed, or
    /// the router is not ready, or the identity is in use, nothing is
    /// inserted. The state that the router keeps of the new agent is the
    /// initial one: ready, without topics, signed with the agent's
    /// identity, and made at the time of the call.
    pub fn complete_spawn(&mut self, agent_id: AgentId, topic: TopicId, linked: Result<(), String>)
        -> (r: Result<AgentId, RouterError>)
        requires
            old(self).wf(),
        ensures
            final(self).wf(),
            outcome(r) == old(self)@.complete_result(agent_id, linked is Ok),
            exists|made_at: SystemTime|
                final(self)@ == #[trigger] old(self)@.spawned(
                    agent_id,
                    topic@,
                    linked is Ok,
                    made_at,
                ),
    {
        let ghost before = old(self)@;
        match self.ensure_ready() {
            Err(e) => {
                assert(self@ == before.spawned(agent_id, topic@, linked is Ok, arbitrary()));
                return Err(e);
            },
            Ok(_) => {},
        }
        match linked {
            Err(e) => {
                assert(self@ == before.spawned(agent_id, topic@, false, arbitrary()));
                return Err(RouterError::SpawnFailed(e));
            },
            Ok(_) => {},
        }
        if self.agent_states.contains_key(&agent_id) {
            assert(self@ == before.spawned(agent_id, topic@, true, arbitrary()));
            return Err(RouterError::InvalidState("Agent identity is already in use".to_owned()));
        }
        let state = AgentState::new(agent_id);
        let ghost made_at = state@.context.timestamp;
        proof {
            before.lemma_enrol_wf(agent_id, made_at);
            before.lemma_spawned_wf(agent_id, topic@, true, made_at);
        }
        self.agent_states.insert(agent_id, state);
        let none: Vec<TopicId> = Vec::new();
        assert(texts(none@) =~= Seq::<Seq<char>>::empty());
        self.agent_subscriptions.insert(agent_id, none);
        assert(self@.subscriptions =~= before.enrol(agent_id, made_at).subscriptions);
        assert(self@.topics =~= before.enrol(agent_id, made_at).topics);
        assert(self@.agents =~= before.enrol(agent_id, made_at).agents);
        assert(self@.states =~= before.enrol(agent_id, made_at).states);
        assert(self@ == before.enrol(agent_id, made_at));
        let r = match self.subscribe_agent(agent_id, topic) {
            Ok(_) => Ok(agent_id),
            Err(e) => Err(e),
        };
        assert(self@ == before.spawned(agent_id, topic@, true, made_at));
        r
    }
}

/// The tree of optional tools metadata.
pub open spec fn tools_tree(tools_map_meta: Option<JsonValue>) -> Option<JsonTree> {
    match tools_map_meta {
        Some(meta) => Some(meta@),
        None => None,
    }
}

/// What the router answers to the caller of a spawn.
pub fn spawn_response(topic: &TopicId, result: &Result<AgentId, RouterError>) -> (r:
    SpawnAgentResponse)
    ensures
        match *result {
            Ok(agent_id) => r == Ok::<AgentId, String>(agent_id),
            Err(_) => r matches Err(text) && text@ == "spawn agent on topic: "@ + topic@
                + " failed"@,
        },
{
    match result {
        Ok(agent_id) => Ok(*agent_id),
        Err(_) => Err(join3("spawn agent on topic: ", topic.as_str(), " failed")),
    }
}

/// What the caller of the router has to do after a command.
pub enum RouterAction<P> {
    /// Nothing.
    Nothing,
    /// Link the worker of the planned agent, then call `complete_spawn`.
    Link(SpawnPlan<P>),
    /// Put each delivery into the mailbox of its recipient.
    Deliver(Vec<Delivery>),
    /// Signal the cancellation of the agent and stop its worker.
    Stop(AgentId),
}

/// What `RouterActor::handle` does with a command: the router after it,
/// and what it answers.
pub open spec fn handled<P>(
    before: RouterView,
    msg: RouterCommand<P>,
    after: RouterView,
    r: Result<RouterAction<P>, RouterError>,
) -> bool {
    match msg {
        RouterCommand::Off => after == before.with_status(RouterStatus::Off) && r matches Ok(
            RouterAction::Nothing,
        ),
        RouterCommand::Ready => after == before.with_status(RouterStatus::Ready) && r matches Ok(
            RouterAction::Nothing,
        ),
        RouterCommand::RouteMessage { topic, message, context } => after == before && match r {
            Ok(action) => action matches RouterAction::Deliver(deliveries) && before.route_result(
                topic@,
                context@.sender,
            ) matches Ok(recipients) && deliveries_view(deliveries@) == deliveries_to(
                recipients,
                topic@,
                message@,
                context@,
            ),
            Err(e) => before.route_result(topic@, context@.sender) == Err::<
                Seq<AgentId>,
                RouterFailure,
            >(e.failure()),
        },
        RouterCommand::ShutdownAgent { agent_id } => after == before.shutdown(agent_id) && match r {
            Ok(action) => before.agents.contains(agent_id) && action == RouterAction::<P>::Stop(
                agent_id,
            ),
            Err(e) => !before.agents.contains(agent_id) && e.failure()
                == RouterFailure::AgentNotFound(agent_id),
        },
        RouterCommand::SubscribeAgent { agent_id, topic } => after == before.subscribe(
            agent_id,
            topic@,
        ) && match r {
            Ok(action) => before.subscribe_result(agent_id) is Ok && action is Nothing,
            Err(e) => before.subscribe_result(agent_id) == Err::<(), RouterFailure>(e.failure()),
        },
        RouterCommand::UnsubscribeAgent { agent_id, topic } => after == before.unsubscribe(
            agent_id,
            topic@,
        ) && match r {
            Ok(action) => before.subscribe_result(agent_id) is Ok && action is Nothing,
            Err(e) => before.subscribe_result(agent_id) == Err::<(), RouterFailure>(e.failure()),
        },
        RouterCommand::SpawnAgent {
            system_prompt,
            user_prompt_formatter,
            topic,
            tools_map_meta,
            description,
        } => after == before && match r {
            Ok(action) => {
                &&& action matches RouterAction::Link(plan)
                &&& before.spawn_check(plan.agent_id, buildable(tools_tree(tools_map_meta))) is Ok
                &&& plan.topic == topic
                &&& build_outcome(
                    system_prompt@,
                    user_prompt_formatter,
                    None,
                    tools_tree(tools_map_meta),
                    description@,
                    Ok(plan.agent),
                )
            },
            Err(e) => exists|agent_id: AgentId| #[trigger]
                before.spawn_check(agent_id, buildable(tools_tree(tools_map_meta))) == Err::<
                    (),
                    RouterFailure,
                >(e.failure()),
        },
    }
}

/// The actor of the router: it takes the commands of the router's
/// mailbox one after the other.
#[derive(Clone, Copy, Debug)]
pub struct RouterActor;

impl Default for RouterActor {
    fn default() -> Self {
        RouterActor
    }
}

impl RouterActor {
    /// The state that the actor starts with: off, empty, and knowing its
    /// own mailbox.
    pub fn pre_start(&self) -> (state: RouterState)
        ensures
            state.wf(),
            state@ == (RouterView { router: true, ..RouterView::initial() }),
    {
        let mut state = RouterState::new();
        state.set_router();
        state
    }

    /// Takes one command.
    ///
    /// The mode commands always succeed. A refused command leaves the
    /// router as it was and is answered with its error; the router goes on
    /// with the next command.
    pub fn handle<P>(&self, msg: RouterCommand<P>, state: &mut RouterState) -> (r: Result<
        RouterAction<P>,
        RouterError,
    >)
        requires
            old(state).wf(),
        ensures
            final(state).wf(),
            handled(old(state)@, msg, final(state)@, r),
    {
        match msg {
            RouterCommand::SpawnAgent {
                system_prompt,
                user_prompt_formatter,
                topic,
                tools_map_meta,
                description,
            } => match state.spawn_agent_w_actor(
                system_prompt.as_str(),
                user_prompt_formatter,
                topic,
                tools_map_meta,
                description,
            ) {
                Ok(plan) => Ok(RouterAction::Link(plan)),
                Err(e) => Err(e),
            },
            RouterCommand::RouteMessage { topic, message, context } => match state.route_message(
                topic,
                message,
                context,
            ) {
                Ok(deliveries) => Ok(RouterAction::Deliver(deliveries)),
                Err(e) => Err(e),
            },
            RouterCommand::ShutdownAgent { agent_id } => match state.shutdown_agent(agent_id) {
                Ok(_) => Ok(RouterAction::Stop(agent_id)),
                Err(e) => Err(e),
            },
            RouterCommand::Off => {
                state.set_status(RouterStatus::Off);
                Ok(RouterAction::Nothing)
            },
            RouterCommand::Ready => {
                state.set_status(RouterStatus::Ready);
                Ok(RouterAction::Nothing)
            },
            RouterCommand::SubscribeAgent { agent_id, topic } => match state.subscribe_agent(
                agent_id,
                topic,
            ) {
                Ok(_) => Ok(RouterAction::Nothing),
                Err(e) => Err(e),
            },
            RouterCommand::UnsubscribeAgent { agent_id, topic } => match state.unsubscribe_agent(
                agent_id,
                &topic,
            ) {
                Ok(_) => Ok(RouterAction::Nothing),
                Err(e) => Err(e),
            },
        }
    }
}

} // verus!
