//! Cognitive checkpoints: snapshots of an agent's conversation and tools.
use crate::clock::{Id, Timestamp, new_id, now, uuid_layout_mask, uuid_v4_layout};
use crate::agent::is_clock_reading;
use vstd::prelude::*;

verus! {

/// The author of a message in a conversation.
#[derive(Clone, Copy, Debug, PartialEq, Eq, Structural)]
pub enum MessageRole {
    System,
    User,
    Assistant,
    Tool,
}

/// One message in an agent's context window.
#[derive(Debug)]
pub struct Message {
    pub role: MessageRole,
    pub content: String,
    pub timestamp: Timestamp,
}

/// The state of a tool at checkpoint time.
#[derive(Debug)]
pub struct ToolState {
    pub name: String,
    pub status: String,
}

/// A complete snapshot of an agent's cognitive state.
#[derive(Debug)]
pub struct Checkpoint {
    /// Identifier of this checkpoint.
    pub id: Id,
    /// The agent that the checkpoint belongs to.
    pub agent_id: Id,
    /// The conversation at this moment.
    pub messages: Vec<Message>,
    /// The state of the tools connected to the agent.
    pub tools: Vec<ToolState>,
    /// When the checkpoint was taken.
    pub created_at: Timestamp,
}

/// The role and text of each message, in order.
pub open spec fn transcript(ms: Seq<Message>) -> Seq<(MessageRole, Seq<char>)> {
    ms.map_values(|m: Message| (m.role, m.content@))
}

/// Every message of `ms` from position `from` on carries a clock reading.
pub open spec fn stamped_from(ms: Seq<Message>, from: int) -> bool {
    forall|i: int| from <= i < ms.len() ==> is_clock_reading(#[trigger] ms[i].timestamp)
}

impl Message {
    /// A message with the given role and text, stamped with the current
    /// time.
    pub fn now(role: MessageRole, content: String) -> (m: Message)
        ensures
            m.role == role,
            m.content == content,
            is_clock_reading(m.timestamp),
    {
        Message { role, content, timestamp: now() }
    }
}

impl Checkpoint {
    /// A new checkpoint of `messages` and `tools` for the agent, with a
    /// fresh identifier, taken now.
    pub fn new(agent_id: Id, messages: Vec<Message>, tools: Vec<ToolState>) -> (c: Checkpoint)
        ensures
            c.id & uuid_layout_mask() == uuid_v4_layout(),
            c.agent_id == agent_id,
            c.messages@ == messages@,
            c.tools@ == tools@,
            is_clock_reading(c.created_at),
    {
        Checkpoint { id: new_id(), agent_id, messages, tools, created_at: now() }
    }
}

} // verus!
