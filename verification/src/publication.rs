//! The stream of a message that is still being written.
use vstd::prelude::*;

use crate::identity::{AttemptId, MessageId, PublicationStreamId, RequestId, ToolCallId, TurnId};
use crate::message::ContentBlockIndex;
use crate::tool::{ToolCall, ToolCallStart};

verus! {

/// The identities of a stream that opens.
#[derive(Debug, Clone, PartialEq, Eq)]
pub struct PublicationStreamStart {
    pub stream_id: PublicationStreamId,
    pub attempt_id: AttemptId,
    pub turn_id: TurnId,
    pub request_id: RequestId,
    pub message_id: MessageId,
}

/// What one frame adds to the message.
#[derive(Debug, Clone, PartialEq, Eq)]
pub enum PublicationPayload {
    TextSuffix { block_index: ContentBlockIndex, suffix: String },
    ReasoningSuffix { block_index: ContentBlockIndex, suffix: String },
    RefusalSuffix { block_index: ContentBlockIndex, suffix: String },
    /// The model proposes a call. Nothing has been started.
    ProposedToolCallStarted { block_index: ContentBlockIndex, call: ToolCallStart },
    ProposedToolCallArgumentsSuffix {
        block_index: ContentBlockIndex,
        call_id: ToolCallId,
        suffix: String,
    },
    ProposedToolCallCompleted { block_index: ContentBlockIndex, call: ToolCall },
    /// The end of the stream, with nothing to show.
    TerminalOnly,
}

/// One committed frame of a stream.
#[derive(Debug, Clone, PartialEq, Eq)]
pub struct PublicationFrame {
    pub stream_id: PublicationStreamId,
    pub message_id: MessageId,
    pub sequence: u64,
    pub payload: PublicationPayload,
}

/// One block of what was committed for release.
#[derive(Debug, Clone, PartialEq, Eq)]
pub enum PublicationAuditBlock {
    Text { text: String },
    Reasoning { text: String },
    Refusal { text: String },
    /// A call that the model proposed and that was never carried out.
    ProposedToolCall { name: String, arguments: String },
}

/// What was committed for release of a stream that never became a message.
#[derive(Debug, Clone, PartialEq, Eq)]
pub struct PublicationAudit {
    pub stream_id: PublicationStreamId,
    pub message_id: MessageId,
    pub blocks: Vec<PublicationAuditBlock>,
}

} // verus!
