//! The events that a client observes.
//!
//! The vocabulary is the client's, not the runtime's: no provider object, no process
//! identity and no error code of a provider appears in it, and every event that belongs
//! to an attempt names the attempt.
use std::sync::Arc;

use vstd::prelude::*;

use crate::identity::{AttemptId, MessageId, ToolCallId, ToolExecutionId, ToolId};
use crate::interaction::{InteractionOutcome, InteractionRef, RoutedInteraction};
use crate::message::{ContentBlockIndex, MessageBlock, UserMessageBlock};
use crate::model::{
    AttemptLimit, AttemptModelView, ModelErrorKind, ModelFinishReason, ModelUsage, RuntimeError,
    SessionModelView,
};
use crate::observation::{ApprovalMode, InboundSequence};
use crate::publication::PublicationAudit;
#[allow(unused_imports)]
use crate::snapshot::{CapabilityModel, ResourcesModel, StatusModel};
use crate::snapshot::{
    AgentStatusView, CapabilityView, RuntimeClientBackgroundExecution, RuntimeClientContextView,
    RuntimeClientResourcesView, RuntimeClientSubagent, RuntimeClientTranscriptCursor,
    RuntimeClientTranscriptInteractionRequested, RuntimeClientTranscriptInteractionSettled,
};
#[allow(unused_imports)]
use crate::tool::ToolResultModel;
use crate::tool::{CancellationReason, ToolCall, ToolCallStart, ToolExecutionResult, ToolProgress};

verus! {

/// One observation of the conversation by a client.
#[derive(Debug, PartialEq, Eq)]
pub enum RuntimeClientEvent {
    /// An attempt started. The event carries the model that the attempt froze at its
    /// admission, which is not the session's desired model.
    AttemptStarted { attempt_id: AttemptId, model: Arc<AttemptModelView> },
    /// The attempt ended.
    AttemptSettled { attempt_id: AttemptId, outcome: RuntimeClientOutcome },
    /// A turn of the attempt completed.
    AttemptTurnUpdated {
        attempt_id: AttemptId,
        /// The exact number of completed turns.
        turn: u32,
    },
    AttemptUsageUpdated { attempt_id: AttemptId, usage: ModelUsage },
    /// A prompt waits for an answer.
    InteractionPending { interaction: Arc<RoutedInteraction> },
    InteractionSettled { interaction: InteractionRef, outcome: InteractionOutcome },
    /// A prompt is gone without an outcome of its own.
    InteractionRemoved { interaction: InteractionRef },
    /// The durable record that a prompt was put. It is history, not a second prompt.
    InteractionAuditRequested {
        audit: Arc<RuntimeClientTranscriptInteractionRequested>,
        transcript_cursor: RuntimeClientTranscriptCursor,
    },
    InteractionAuditSettled {
        audit: Arc<RuntimeClientTranscriptInteractionSettled>,
        transcript_cursor: RuntimeClientTranscriptCursor,
    },
    ApprovalModeChanged {
        effective_approval_mode: ApprovalMode,
        pending_approval_mode: Option<ApprovalMode>,
        revision: u64,
    },
    /// A compaction began; without an attempt it is manual maintenance.
    ContextCompactionStarted { attempt_id: Option<AttemptId> },
    ContextCompactionFailed { attempt_id: Option<AttemptId>, error: String },
    /// A compaction is committed. The summary's text is not shown.
    ContextCompacted { attempt_id: Option<AttemptId>, context: RuntimeClientContextView },
    AssistantMessageStarted { attempt_id: AttemptId, message_id: MessageId },
    AssistantTextDelta {
        attempt_id: AttemptId,
        message_id: MessageId,
        block_index: ContentBlockIndex,
        delta: String,
    },
    AssistantReasoningDelta {
        attempt_id: AttemptId,
        message_id: MessageId,
        block_index: ContentBlockIndex,
        delta: String,
    },
    AssistantRefusalDelta {
        attempt_id: AttemptId,
        message_id: MessageId,
        block_index: ContentBlockIndex,
        delta: String,
    },
    ToolCallStarted {
        attempt_id: AttemptId,
        message_id: MessageId,
        block_index: ContentBlockIndex,
        call: ToolCallStart,
    },
    ToolCallArgumentsDelta {
        attempt_id: AttemptId,
        message_id: MessageId,
        block_index: ContentBlockIndex,
        call_id: ToolCallId,
        arguments_delta: String,
    },
    ToolCallAssembled {
        attempt_id: AttemptId,
        message_id: MessageId,
        block_index: ContentBlockIndex,
        call: ToolCall,
    },
    /// A stream ended without becoming a message. The audit is what was committed for
    /// release, at most what a client can have shown.
    AssistantPublicationSettled {
        attempt_id: AttemptId,
        audit: Arc<PublicationAudit>,
        transcript_cursor: RuntimeClientTranscriptCursor,
    },
    ToolExecutionStarted { attempt_id: AttemptId, tool_call_id: ToolCallId, tool_id: ToolId },
    /// The progress of a tool; only detached work has an execution identity.
    ToolExecutionProgress {
        attempt_id: AttemptId,
        tool_call_id: ToolCallId,
        tool_id: ToolId,
        execution_id: Option<ToolExecutionId>,
        progress: ToolProgress,
    },
    /// A tool call ended, in whatever way.
    ToolExecutionSettled {
        attempt_id: AttemptId,
        tool_call_id: ToolCallId,
        tool_id: ToolId,
        result: Arc<ToolExecutionResult>,
    },
    /// A message became canonical; between attempts it belongs to none.
    MessageCommitted {
        attempt_id: Option<AttemptId>,
        message: Arc<MessageBlock>,
        transcript_cursor: Option<RuntimeClientTranscriptCursor>,
    },
    /// A status was composed. The event names the composition that it displaced, so
    /// that a client keeps the runtime's window without a rule of its own.
    AgentStatusComposed {
        attempt_id: AttemptId,
        turn: u32,
        status: Arc<AgentStatusView>,
        evicted_status_message_id: Option<MessageId>,
    },
    InboundEnqueued {
        sequence: InboundSequence,
        message: Arc<UserMessageBlock>,
        transcript_cursor: Option<RuntimeClientTranscriptCursor>,
    },
    /// Everything up to the watermark was taken from the mailbox at once. What arrives
    /// later waits for the next drain.
    InboundDrained { watermark: InboundSequence, count: usize, message_ids: Vec<MessageId> },
    BackgroundExecutionUpdated { execution: Arc<RuntimeClientBackgroundExecution> },
    SubagentUpdated { subagent: Arc<RuntimeClientSubagent> },
    CapabilityUpdated { capabilities: Arc<CapabilityView> },
    /// A reload moved the resources and the capabilities built on them, together.
    ResourceGenerationUpdated {
        capabilities: Arc<CapabilityView>,
        resources: Arc<RuntimeClientResourcesView>,
    },
    SessionModelChanged { model: Arc<SessionModelView> },
    /// The runtime admits no further work.
    RuntimeShutdown,
    /// The durable authority failed for good.
    RuntimeDurabilityFailed { operation: String, diagnostic: String },
}

/// The value of an event: an event that holds a list, or something that holds one, is
/// its parts; every other event is itself.
#[verifier::ext_equal]
pub enum EventModel {
    Plain(RuntimeClientEvent),
    ToolSettled {
        attempt_id: AttemptId,
        tool_call_id: ToolCallId,
        tool_id: ToolId,
        result: ToolResultModel,
    },
    StatusComposed {
        attempt_id: AttemptId,
        turn: u32,
        status: StatusModel,
        evicted_status_message_id: Option<MessageId>,
    },
    Drained { watermark: InboundSequence, count: usize, message_ids: Seq<MessageId> },
    Capabilities { capabilities: CapabilityModel },
    Generation { capabilities: CapabilityModel, resources: ResourcesModel },
}

impl View for RuntimeClientEvent {
    type V = EventModel;

    open spec fn view(&self) -> EventModel {
        match self {
            RuntimeClientEvent::ToolExecutionSettled {
                attempt_id,
                tool_call_id,
                tool_id,
                result,
            } => EventModel::ToolSettled {
                attempt_id: *attempt_id,
                tool_call_id: *tool_call_id,
                tool_id: *tool_id,
                result: result@,
            },
            RuntimeClientEvent::AgentStatusComposed {
                attempt_id,
                turn,
                status,
                evicted_status_message_id,
            } => EventModel::StatusComposed {
                attempt_id: *attempt_id,
                turn: *turn,
                status: status@,
                evicted_status_message_id: *evicted_status_message_id,
            },
            RuntimeClientEvent::InboundDrained {
                watermark,
                count,
                message_ids,
            } => EventModel::Drained {
                watermark: *watermark,
                count: *count,
                message_ids: message_ids@,
            },
            RuntimeClientEvent::CapabilityUpdated { capabilities } => EventModel::Capabilities {
                capabilities: capabilities@,
            },
            RuntimeClientEvent::ResourceGenerationUpdated {
                capabilities,
                resources,
            } => EventModel::Generation { capabilities: capabilities@, resources: resources@ },
            _ => EventModel::Plain(*self),
        }
    }
}

/// The values of events.
pub open spec fn event_models(events: Seq<RuntimeClientEvent>) -> Seq<EventModel> {
    Seq::new(events.len(), |i: int| events[i]@)
}

/// How an attempt ended.
#[derive(Debug, PartialEq, Eq)]
pub enum RuntimeClientOutcome {
    Completed { finish_reason: ModelFinishReason },
    Cancelled { reason: CancellationReason },
    TimedOut,
    LimitExceeded { limit: AttemptLimit },
    Failed { error: RuntimeClientAttemptFailure },
}

impl Clone for RuntimeClientOutcome {
    fn clone(&self) -> (copy: Self)
        ensures
            copy == *self,
    {
        match self {
            RuntimeClientOutcome::Completed { finish_reason } => RuntimeClientOutcome::Completed {
                finish_reason: finish_reason.clone(),
            },
            RuntimeClientOutcome::Cancelled { reason } => RuntimeClientOutcome::Cancelled {
                reason: *reason,
            },
            RuntimeClientOutcome::TimedOut => RuntimeClientOutcome::TimedOut,
            RuntimeClientOutcome::LimitExceeded { limit } => RuntimeClientOutcome::LimitExceeded {
                limit: *limit,
            },
            RuntimeClientOutcome::Failed { error } => RuntimeClientOutcome::Failed {
                error: error.clone(),
            },
        }
    }
}

/// Why an attempt failed, without anything that only a provider would say.
#[derive(Debug, PartialEq, Eq)]
pub enum RuntimeClientAttemptFailure {
    Model { kind: ModelErrorKind, message: String, retry_after_ms: Option<u64> },
    Runtime { error: RuntimeError },
}

impl Clone for RuntimeClientAttemptFailure {
    fn clone(&self) -> (copy: Self)
        ensures
            copy == *self,
    {
        match self {
            RuntimeClientAttemptFailure::Model {
                kind,
                message,
                retry_after_ms,
            } => RuntimeClientAttemptFailure::Model {
                kind: *kind,
                message: message.clone(),
                retry_after_ms: *retry_after_ms,
            },
            RuntimeClientAttemptFailure::Runtime { error } => RuntimeClientAttemptFailure::Runtime {
                error: error.clone(),
            },
        }
    }
}

} // verus!
