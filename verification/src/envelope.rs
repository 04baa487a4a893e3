//! Messages with their context: who sent them, when, under which trace,
//! and with which notes.

use crate::agent_runtime::AgentId;
use crate::agent_runtime::random_uuid;
use crate::agent_runtime::system_now;
use std::time::SystemTime;
use vstd::hash_map::StringHashMap;
use vstd::prelude::*;

verus! {

/// The context of a message.
pub struct ActorContext {
    pub sender: AgentId,
    pub timestamp: SystemTime,
    pub trace_id: u128,
    pub metadata: StringHashMap<String>,
}

impl ActorContext {
    /// The context of a message of `sender` that was made at `timestamp`
    /// and is traced by `trace_id`, without notes.
    pub fn with(sender: AgentId, timestamp: SystemTime, trace_id: u128) -> (context: Self)
        ensures
            context.sender == sender,
            context.timestamp == timestamp,
            context.trace_id == trace_id,
            context.metadata@ == Map::<Seq<char>, String>::empty(),
    {
        ActorContext { sender, timestamp, trace_id, metadata: StringHashMap::new() }
    }

    /// The context of a message that `sender` sends now, under a new
    /// trace, without notes.
    pub fn new(sender: AgentId) -> (context: Self)
        ensures
            context.sender == sender,
            context.metadata@ == Map::<Seq<char>, String>::empty(),
    {
        Self::with(sender, system_now(), random_uuid())
    }

    /// The same context with the note `value` under `key`; a note that
    /// stood under the key before is replaced.
    pub fn with_metadata(self, key: &str, value: &str) -> (context: Self)
        ensures
            context.sender == self.sender,
            context.timestamp == self.timestamp,
            context.trace_id == self.trace_id,
            context.metadata@.dom() == self.metadata@.dom().insert(key@),
            context.metadata@[key@]@ == value@,
            forall|k: Seq<char>|
                k != key@ && self.metadata@.contains_key(k) ==> context.metadata@[k]
                    == self.metadata@[k],
    {
        let mut context = self;
        context.metadata.insert(key.to_owned(), value.to_owned());
        context
    }
}

/// A payload with the context it travels in.
pub struct MessageEnvelope<T> {
    pub context: ActorContext,
    pub payload: T,
}

impl<T> MessageEnvelope<T> {
    pub fn new(context: ActorContext, payload: T) -> (envelope: Self)
        ensures
            envelope.context == context,
            envelope.payload == payload,
    {
        MessageEnvelope { context, payload }
    }
}

} // verus!
