//! The facts of the event journal.
use std::sync::Arc;

use vstd::prelude::*;

use crate::clock::Timestamp;
use crate::identity::{
    AttemptId, ConversationId, EventId, InteractionId, MessageId, RequestId, SubagentId, ToolCallId,
    ToolExecutionId, ToolId, TurnId,
};
use crate::model::{
    AttemptFailure, AttemptLimit, GenerationEvidence, ModelError, ModelFinishReason, ModelUsage,
    TokenMeasurement,
};
use crate::tool::{CancellationReason, ToolError, ToolExecutionResult, ToolProgress};

verus! {

/// The version of the canonical message sequence that a model sees.
#[derive(Debug, Clone, Copy, PartialEq, Eq, Structural)]
pub struct SurfaceRevision {
    pub value: u64,
}

impl SurfaceRevision {
    pub fn new(value: u64) -> (revision: Self)
        ensures
            revision.value == value,
    {
        SurfaceRevision { value }
    }
}

/// One execution fact.
///
/// The vocabulary of the journal is the runtime's own. What a client sees of a fact is
/// decided by the projection, for each kind of fact.
#[derive(Debug, Clone, PartialEq, Eq)]
pub enum RuntimeEvent {
    AttemptStarted { attempt_id: AttemptId },
    AttemptCompleted { attempt_id: AttemptId, finish_reason: ModelFinishReason },
    AttemptCancelled { attempt_id: AttemptId, reason: CancellationReason },
    AttemptTimedOut { attempt_id: AttemptId },
    AttemptLimitExceeded { attempt_id: AttemptId, limit: AttemptLimit },
    AttemptFailed { attempt_id: AttemptId, error: AttemptFailure },
    TurnStarted,
    TurnCompleted,
    ModelRequestStarted { request_id: RequestId, model: String },
    ModelRequestCompleted {
        request_id: RequestId,
        finish_reason: ModelFinishReason,
        usage: Option<ModelUsage>,
        generation: Option<GenerationEvidence>,
    },
    ModelRequestFailed {
        request_id: RequestId,
        error: ModelError,
        usage: Option<ModelUsage>,
        generation: Option<GenerationEvidence>,
    },
    ModelRetryScheduled {
        failed_request_id: RequestId,
        retry_number: u32,
        retry_delay_ms: Option<u64>,
    },
    AgentStatusEmitted { status_message_id: MessageId },
    AssistantMessageCommitted { message_id: MessageId },
    ToolMessageCommitted { message_id: MessageId },
    InboundTurnAdopted { message_id: MessageId },
    ToolExecutionStarted { tool_call_id: ToolCallId, tool_id: ToolId },
    ToolExecutionProgress {
        tool_call_id: ToolCallId,
        tool_id: ToolId,
        execution_id: Option<ToolExecutionId>,
        progress: ToolProgress,
    },
    ToolExecutionCompleted {
        tool_call_id: ToolCallId,
        tool_id: ToolId,
        result: Arc<ToolExecutionResult>,
    },
    ToolExecutionFailed { tool_call_id: ToolCallId, tool_id: ToolId, error: ToolError },
    CompactionStarted,
    CompactionCompleted {
        generation: u64,
        summary_message_id: MessageId,
        surface_revision: SurfaceRevision,
        tokens_before: TokenMeasurement,
        estimated_tokens_after: u64,
    },
    CompactionFailed { error: String },
    BackgroundExecutionCommitted { execution_id: ToolExecutionId },
    BackgroundTerminalPublished { execution_id: ToolExecutionId },
    SubagentOwnershipCommitted { subagent_id: SubagentId },
    SubagentTerminalPublished { subagent_id: SubagentId },
    SubagentTerminalSettled { subagent_id: SubagentId },
    SubagentWorkspaceDisposalStarted { subagent_id: SubagentId },
    SubagentWorkspaceDisposalSettled { subagent_id: SubagentId },
    InteractionRequested { interaction_id: InteractionId },
    InteractionSettled { interaction_id: InteractionId },
    WorkflowStarted { workflow: String },
    WorkflowAgentAdmitted { workflow: String },
    WorkflowAgentOutputCommitted { workflow: String },
    WorkflowBranchSelected { workflow: String },
    WorkflowParallelAdmitted { workflow: String },
    WorkflowParallelSettled { workflow: String },
    WorkflowCompleted { workflow: String },
    WorkflowFailed { workflow: String },
    WorkflowCancelled { workflow: String },
}

impl RuntimeEvent {
    /// Whether the fact belongs to the life of a context compaction.
    pub open spec fn is_compaction(self) -> bool {
        self is CompactionStarted || self is CompactionCompleted || self is CompactionFailed
    }
}

/// One fact with its place in the journal.
#[derive(Debug, Clone, PartialEq, Eq)]
pub struct RuntimeEventEnvelope {
    pub schema_version: u32,
    pub event_id: EventId,
    pub sequence: u64,
    pub conversation_id: ConversationId,
    pub attempt_id: Option<AttemptId>,
    pub turn_id: Option<TurnId>,
    pub timestamp: Timestamp,
    pub event: RuntimeEvent,
}

} // verus!
