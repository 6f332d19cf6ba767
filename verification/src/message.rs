//! Canonical messages.
use std::sync::Arc;

use vstd::prelude::*;

use crate::clock::Timestamp;
use crate::identity::{MessageId, ToolCallId, ToolId};
use crate::tool::{ToolCall, ToolExecutionResult};

verus! {

/// The place of one block in a message.
#[derive(Debug, Clone, Copy, PartialEq, Eq, Structural)]
pub struct ContentBlockIndex {
    pub value: u32,
}

impl ContentBlockIndex {
    pub fn new(value: u32) -> (index: Self)
        ensures
            index.value == value,
    {
        ContentBlockIndex { value }
    }

    pub fn get(&self) -> (value: u32)
        ensures
            value == self.value,
    {
        self.value
    }
}

#[derive(Debug, Clone, PartialEq, Eq)]
pub struct TextBlock {
    pub text: String,
}

#[derive(Debug, Clone, PartialEq, Eq)]
pub enum UserContentBlock {
    Text(TextBlock),
    Image { media_type: String, reference: String },
}

#[derive(Debug, Clone, PartialEq, Eq)]
pub enum AssistantContentBlock {
    Text(TextBlock),
    Reasoning(TextBlock),
    Refusal(TextBlock),
    ToolCall(ToolCall),
}

/// Who wrote a user message.
#[derive(Debug, Clone, Copy, PartialEq, Eq, Structural)]
pub enum UserSource {
    Human,
    Runtime,
}

/// What a user message is for.
#[derive(Debug, Clone, Copy, PartialEq, Eq, Structural)]
pub enum InboundKind {
    /// An ordinary turn of the conversation.
    Message,
    /// A fact for the model that the transcript does not show.
    Context,
    /// The summary that stands for a compacted span.
    CompactionSummary,
}

#[derive(Debug, Clone, PartialEq, Eq)]
pub struct UserMessageBlock {
    pub id: MessageId,
    pub content: Vec<UserContentBlock>,
    pub source: UserSource,
    pub kind: InboundKind,
    pub timestamp: Option<Timestamp>,
}

#[derive(Debug, Clone, PartialEq, Eq)]
pub struct AssistantMessageBlock {
    pub id: MessageId,
    pub content: Vec<AssistantContentBlock>,
}

/// The place of a tool call in the conversation.
#[derive(Debug, Clone, PartialEq, Eq)]
pub struct ToolOccurrence {
    /// The message that made the call.
    pub assistant_message_id: MessageId,
}

#[derive(Debug, Clone, PartialEq, Eq)]
pub struct ToolMessageBlock {
    pub id: MessageId,
    pub tool_call_id: ToolCallId,
    pub tool_id: ToolId,
    pub occurrence: ToolOccurrence,
    pub result: Arc<ToolExecutionResult>,
}

/// One canonical message.
#[derive(Debug, Clone, PartialEq, Eq)]
pub enum MessageBlock {
    User(UserMessageBlock),
    Assistant(AssistantMessageBlock),
    Tool(ToolMessageBlock),
}

impl MessageBlock {
    /// The identity of the message.
    pub open spec fn spec_id(self) -> MessageId {
        match self {
            MessageBlock::User(message) => message.id,
            MessageBlock::Assistant(message) => message.id,
            MessageBlock::Tool(message) => message.id,
        }
    }
}

/// The identity of a message.
pub fn message_id_of(message: &MessageBlock) -> (id: MessageId)
    ensures
        id == message.spec_id(),
{
    match message {
        MessageBlock::User(message) => message.id.clone(),
        MessageBlock::Assistant(message) => message.id.clone(),
        MessageBlock::Tool(message) => message.id.clone(),
    }
}

} // verus!
