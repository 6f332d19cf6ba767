//! What a client asks of the conversation runtime, and how it is told what came of it.
//!
//! The runtime is not part of this crate. A request that concerns it becomes a
//! [`RuntimeCall`]; whoever owns the runtime makes the call and hands the reply back.
use std::sync::Arc;

use vstd::prelude::*;
use vstd::string::StringExecFns;

use crate::identity::{AttemptId, MessageId, SubagentId, ToolExecutionId};
use crate::interaction::{InteractionRef, InteractionResponse};
use crate::json::JsonText;
use crate::message::UserContentBlock;
use crate::model::{ModelCatalog, SessionModelConfig, SessionModelView};
use crate::observation::{BackgroundExecutionSnapshot, InboundSequence};
#[allow(unused_imports)]
use crate::protocol::{ErrorModel, ResultModel};
use crate::protocol::{RuntimeClientError, RuntimeClientResult, SessionRequest};
use crate::snapshot::RuntimeClientTranscriptCursor;
use crate::views::background_view;

verus! {

/// A call of the conversation runtime.
#[derive(Debug, Clone, PartialEq, Eq)]
pub enum RuntimeCall {
    SubmitInbound { content: Vec<UserContentBlock> },
    /// Cancel this attempt, if it is still the current one.
    CancelAttempt { attempt_id: AttemptId },
    ModelSet { config: SessionModelConfig },
    BackgroundStatus { execution_id: ToolExecutionId },
    BackgroundCancel { execution_id: ToolExecutionId },
    Goal { control: JsonText },
    TranscriptPage { before_cursor: Option<RuntimeClientTranscriptCursor>, limit: usize },
    /// A page of the trace, behind a place that the trace itself named.
    TracePage { before: Option<JsonText>, limit: usize },
    SubagentStatus { subagent_id: SubagentId },
    /// A page of the transcript of a subagent's own conversation.
    SubagentTranscriptPage {
        subagent_id: SubagentId,
        before_cursor: Option<RuntimeClientTranscriptCursor>,
        limit: usize,
    },
    SubagentCancel { subagent_id: SubagentId },
    CompactContext,
    RespondInteraction { interaction: InteractionRef, response: InteractionResponse },
    CancelInteraction { interaction: InteractionRef },
    DisposeWorkspace { subagent_id: SubagentId },
    Session { request: SessionRequest },
    Shutdown,
    ModelCatalog,
}

impl RuntimeCall {
    /// Whether the call asks for a change.
    pub open spec fn is_write_spec(self) -> bool {
        match self {
            RuntimeCall::BackgroundStatus { .. }
            | RuntimeCall::TranscriptPage { .. }
            | RuntimeCall::TracePage { .. }
            | RuntimeCall::SubagentStatus { .. }
            | RuntimeCall::SubagentTranscriptPage { .. }
            | RuntimeCall::ModelCatalog => false,
            RuntimeCall::Session { request } => request.is_mutating_spec(),
            _ => true,
        }
    }

    /// Whether the call asks for a change.
    pub fn is_write(&self) -> (write: bool)
        ensures
            write == self.is_write_spec(),
    {
        match self {
            RuntimeCall::BackgroundStatus { .. }
            | RuntimeCall::TranscriptPage { .. }
            | RuntimeCall::TracePage { .. }
            | RuntimeCall::SubagentStatus { .. }
            | RuntimeCall::SubagentTranscriptPage { .. }
            | RuntimeCall::ModelCatalog => false,
            RuntimeCall::Session { request } => request.is_mutating(),
            _ => true,
        }
    }
}

/// A message that the mailbox accepted.
#[derive(Debug, Clone, PartialEq, Eq)]
pub struct InboundAdmission {
    pub message_id: MessageId,
    pub inbound_sequence: InboundSequence,
}

/// Why the mailbox refused a message.
#[derive(Debug, Clone, PartialEq, Eq)]
pub enum InboundAdmissionError {
    Shutdown,
    Inactive,
    EmptyContent,
    DurabilityFailed { message: String },
    /// The mailbox's own reason.
    Mailbox { message: String },
}

/// Why an attempt was not cancelled.
#[derive(Debug, Clone, Copy, PartialEq, Eq, Structural)]
pub enum CancelAttemptError {
    NoCurrentAttempt,
}

/// Why the session keeps its model.
#[derive(Debug, Clone, PartialEq, Eq)]
pub enum ModelUpdateError {
    Inactive,
    InvalidConfiguration(String),
    DurabilityFailed { message: String },
}

/// Why the runtime did not shut down.
#[derive(Debug, Clone, PartialEq, Eq)]
pub enum ShutdownError {
    Inactive,
    RuntimeOwnedSettlement { detail: String },
}

/// What the runtime replied to a call.
#[derive(Debug, PartialEq, Eq)]
pub enum RuntimeReply {
    Inbound { outcome: Result<InboundAdmission, InboundAdmissionError> },
    Cancellation { outcome: Result<AttemptId, CancelAttemptError> },
    ModelSet { outcome: Result<Arc<SessionModelView>, ModelUpdateError> },
    /// The registry's record of the execution that was asked for, if it has one.
    BackgroundStatus {
        execution_id: ToolExecutionId,
        record: Option<BackgroundExecutionSnapshot>,
    },
    BackgroundCancel {
        execution_id: ToolExecutionId,
        record: Option<BackgroundExecutionSnapshot>,
    },
    Shutdown { outcome: Result<(), ShutdownError> },
    ModelCatalog { catalog: Arc<ModelCatalog> },
    /// What another owner of the runtime made of the call.
    Native { outcome: Result<RuntimeClientResult, RuntimeClientError> },
}

/// What a client is told of a runtime that is not active yet.
pub open spec fn inactive() -> ErrorModel {
    ErrorModel::InvalidState { message: "the conversation runtime is not activated"@ }
}

fn inactive_error() -> (error: RuntimeClientError)
    ensures
        error@ == inactive(),
{
    RuntimeClientError::InvalidState {
        message: "the conversation runtime is not activated".to_string(),
    }
}

/// What a client is told of a message that it submitted.
pub open spec fn inbound_outcome(
    outcome: Result<InboundAdmission, InboundAdmissionError>,
) -> Result<ResultModel, ErrorModel> {
    match outcome {
        Ok(admission) => Ok(
            ResultModel::InboundAccepted {
                message_id: admission.message_id,
                inbound_sequence: admission.inbound_sequence,
            },
        ),
        Err(InboundAdmissionError::Shutdown) => Err(ErrorModel::RuntimeShutdown),
        Err(InboundAdmissionError::Inactive) => Err(inactive()),
        Err(InboundAdmissionError::EmptyContent) => Err(
            ErrorModel::InvalidRequest { message: "inbound content must not be empty"@ },
        ),
        Err(InboundAdmissionError::DurabilityFailed { message }) => Err(
            ErrorModel::InvalidState { message: message@ },
        ),
        Err(InboundAdmissionError::Mailbox { message }) => Err(
            ErrorModel::InvalidState { message: message@ },
        ),
    }
}

/// What a client is told of a message that it submitted. To be accepted is not to be
/// answered.
fn submit_inbound(outcome: Result<InboundAdmission, InboundAdmissionError>) -> (result: Result<
    RuntimeClientResult,
    RuntimeClientError,
>)
    ensures
        crate::protocol::outcome_model(result) == inbound_outcome(outcome),
{
    match outcome {
        Ok(admission) => Ok(
            RuntimeClientResult::InboundAccepted {
                message_id: admission.message_id,
                inbound_sequence: admission.inbound_sequence,
            },
        ),
        Err(error) => Err(
            match error {
                InboundAdmissionError::Shutdown => RuntimeClientError::RuntimeShutdown,
                InboundAdmissionError::Inactive => inactive_error(),
                InboundAdmissionError::EmptyContent => RuntimeClientError::InvalidRequest {
                    message: "inbound content must not be empty".to_string(),
                },
                InboundAdmissionError::DurabilityFailed {
                    message,
                } => RuntimeClientError::InvalidState { message },
                InboundAdmissionError::Mailbox { message } => RuntimeClientError::InvalidState {
                    message,
                },
            },
        ),
    }
}

/// What a client is told of a change of the session's model.
pub open spec fn model_outcome(
    outcome: Result<Arc<SessionModelView>, ModelUpdateError>,
) -> Result<ResultModel, ErrorModel> {
    match outcome {
        Ok(model) => Ok(ResultModel::ModelSet { model }),
        Err(ModelUpdateError::Inactive) => Err(inactive()),
        Err(ModelUpdateError::InvalidConfiguration(message)) => Err(
            ErrorModel::InvalidModelConfiguration { message: message@ },
        ),
        Err(ModelUpdateError::DurabilityFailed { message }) => Err(
            ErrorModel::InvalidState { message: message@ },
        ),
    }
}

fn model_set(outcome: Result<Arc<SessionModelView>, ModelUpdateError>) -> (result: Result<
    RuntimeClientResult,
    RuntimeClientError,
>)
    ensures
        crate::protocol::outcome_model(result) == model_outcome(outcome),
{
    match outcome {
        Ok(model) => Ok(RuntimeClientResult::ModelSet { model }),
        Err(error) => Err(
            match error {
                ModelUpdateError::Inactive => inactive_error(),
                ModelUpdateError::InvalidConfiguration(message) => RuntimeClientError::InvalidModelConfiguration { message },
                ModelUpdateError::DurabilityFailed { message } => RuntimeClientError::InvalidState {
                    message,
                },
            },
        ),
    }
}

/// What a client is told of the end of the runtime.
pub open spec fn shutdown_outcome(outcome: Result<(), ShutdownError>) -> Result<
    ResultModel,
    ErrorModel,
> {
    match outcome {
        Ok(()) => Ok(ResultModel::ShutdownCompleted),
        Err(ShutdownError::Inactive) => Err(inactive()),
        Err(ShutdownError::RuntimeOwnedSettlement { detail }) => Err(
            ErrorModel::RuntimeFailure {
                message: "runtime-owned shutdown settlement failed: "@ + detail@,
            },
        ),
    }
}

fn shutdown(outcome: Result<(), ShutdownError>) -> (result: Result<
    RuntimeClientResult,
    RuntimeClientError,
>)
    ensures
        crate::protocol::outcome_model(result) == shutdown_outcome(outcome),
{
    match outcome {
        Ok(()) => Ok(RuntimeClientResult::ShutdownCompleted),
        Err(ShutdownError::Inactive) => Err(inactive_error()),
        Err(ShutdownError::RuntimeOwnedSettlement { detail }) => {
            let mut message = "runtime-owned shutdown settlement failed: ".to_string();
            message.append(detail.as_str());
            Err(RuntimeClientError::RuntimeFailure { message })
        },
    }
}

/// What a client is told of a reply of the runtime.
pub open spec fn settled(reply: RuntimeReply) -> Result<ResultModel, ErrorModel> {
    match reply {
        RuntimeReply::Inbound { outcome } => inbound_outcome(outcome),
        RuntimeReply::Cancellation { outcome } => match outcome {
            Ok(attempt_id) => Ok(ResultModel::AttemptCancellationAccepted { attempt_id }),
            Err(CancelAttemptError::NoCurrentAttempt) => Err(ErrorModel::NoCurrentAttempt),
        },
        RuntimeReply::ModelSet { outcome } => model_outcome(outcome),
        RuntimeReply::BackgroundStatus { execution_id, record } => match record {
            Some(record) => Ok(
                ResultModel::BackgroundStatus {
                    execution: crate::views::background_view_spec(record),
                },
            ),
            None => Err(ErrorModel::UnknownBackgroundExecution { execution_id }),
        },
        RuntimeReply::BackgroundCancel { execution_id, record } => match record {
            Some(record) => Ok(
                ResultModel::BackgroundCancelAccepted {
                    execution: crate::views::background_view_spec(record),
                },
            ),
            None => Err(ErrorModel::UnknownBackgroundExecution { execution_id }),
        },
        RuntimeReply::Shutdown { outcome } => shutdown_outcome(outcome),
        RuntimeReply::ModelCatalog { catalog } => Ok(ResultModel::ModelCatalog { catalog }),
        RuntimeReply::Native { outcome } => crate::protocol::outcome_model(outcome),
    }
}

/// What a client is told of a reply of the runtime.
pub fn settle(reply: RuntimeReply) -> (result: Result<RuntimeClientResult, RuntimeClientError>)
    ensures
        crate::protocol::outcome_model(result) == settled(reply),
{
    match reply {
        RuntimeReply::Inbound { outcome } => submit_inbound(outcome),
        RuntimeReply::Cancellation { outcome } => match outcome {
            Ok(attempt_id) => Ok(RuntimeClientResult::AttemptCancellationAccepted { attempt_id }),
            Err(CancelAttemptError::NoCurrentAttempt) => Err(RuntimeClientError::NoCurrentAttempt),
        },
        RuntimeReply::ModelSet { outcome } => model_set(outcome),
        RuntimeReply::BackgroundStatus { execution_id, record } => match record {
            Some(record) => Ok(
                RuntimeClientResult::BackgroundStatus { execution: background_view(&record) },
            ),
            None => Err(RuntimeClientError::UnknownBackgroundExecution { execution_id }),
        },
        RuntimeReply::BackgroundCancel { execution_id, record } => match record {
            Some(record) => Ok(
                RuntimeClientResult::BackgroundCancelAccepted {
                    execution: background_view(&record),
                },
            ),
            None => Err(RuntimeClientError::UnknownBackgroundExecution { execution_id }),
        },
        RuntimeReply::Shutdown { outcome } => shutdown(outcome),
        RuntimeReply::ModelCatalog { catalog } => Ok(RuntimeClientResult::ModelCatalog { catalog }),
        RuntimeReply::Native { outcome } => outcome,
    }
}

} // verus!
