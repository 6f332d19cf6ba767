//! The vocabulary of requests, responses and deliveries.
use std::sync::Arc;

use vstd::prelude::*;

use crate::event::RuntimeClientEvent;
use crate::identity::{
    AgentId, AttachmentId, AttemptId, ConversationId, MessageId, SessionId, SubagentId,
    ToolExecutionId,
};
use crate::interaction::{InteractionRef, InteractionResponse};
use crate::json::JsonText;
use crate::message::UserContentBlock;
use crate::model::{ModelCatalog, SessionModelConfig, SessionModelView};
use crate::observation::InboundSequence;
#[allow(unused_imports)]
use crate::snapshot::{CapabilityModel, SnapshotModel};
use crate::snapshot::{
    CapabilityView, RuntimeClientBackgroundExecution, RuntimeClientSnapshot,
    RuntimeClientTranscriptCursor,
};

verus! {

/// A position in the stream of published events; nothing is published at zero.
#[derive(Debug, Clone, Copy, PartialEq, Eq, Structural)]
pub struct RuntimeClientCursor {
    pub value: u64,
}

impl RuntimeClientCursor {
    pub fn new(value: u64) -> (cursor: Self)
        ensures
            cursor.value == value,
    {
        RuntimeClientCursor { value }
    }

    pub fn get(&self) -> (value: u64)
        ensures
            value == self.value,
    {
        self.value
    }
}

/// An event with its position.
#[derive(Debug, Clone, PartialEq, Eq)]
pub struct RuntimeClientProtocolEvent {
    pub cursor: RuntimeClientCursor,
    pub event: Arc<RuntimeClientEvent>,
}

/// Why a request failed.
#[derive(Debug, PartialEq, Eq)]
pub enum RuntimeClientError {
    /// The client holds no attachment.
    NotAttached,
    /// Another client holds the control attachment.
    AttachmentInUse { existing_attachment_id: AttachmentId },
    UnsupportedProtocolVersion { supported: u16, requested: u16 },
    InvalidRequest { message: String },
    InvalidState { message: String },
    InvalidModelConfiguration { message: String },
    NoCurrentAttempt,
    UnknownBackgroundExecution { execution_id: ToolExecutionId },
    /// The events after the cursor are not all at hand; a fresh snapshot repairs that.
    ResyncRequired {
        after_cursor: RuntimeClientCursor,
        earliest_serviceable: RuntimeClientCursor,
    },
    /// The stream has no cursor left.
    ProjectionExhausted,
    RuntimeShutdown,
    RuntimeFailure { message: String },
}

/// The value of an error.
#[verifier::ext_equal]
pub enum ErrorModel {
    NotAttached,
    AttachmentInUse { existing_attachment_id: Seq<char> },
    UnsupportedProtocolVersion { supported: u16, requested: u16 },
    InvalidRequest { message: Seq<char> },
    InvalidState { message: Seq<char> },
    InvalidModelConfiguration { message: Seq<char> },
    NoCurrentAttempt,
    UnknownBackgroundExecution { execution_id: ToolExecutionId },
    ResyncRequired {
        after_cursor: RuntimeClientCursor,
        earliest_serviceable: RuntimeClientCursor,
    },
    ProjectionExhausted,
    RuntimeShutdown,
    RuntimeFailure { message: Seq<char> },
}

impl View for RuntimeClientError {
    type V = ErrorModel;

    open spec fn view(&self) -> ErrorModel {
        match self {
            RuntimeClientError::NotAttached => ErrorModel::NotAttached,
            RuntimeClientError::AttachmentInUse {
                existing_attachment_id,
            } => ErrorModel::AttachmentInUse { existing_attachment_id: existing_attachment_id@ },
            RuntimeClientError::UnsupportedProtocolVersion {
                supported,
                requested,
            } => ErrorModel::UnsupportedProtocolVersion {
                supported: *supported,
                requested: *requested,
            },
            RuntimeClientError::InvalidRequest { message } => ErrorModel::InvalidRequest {
                message: message@,
            },
            RuntimeClientError::InvalidState { message } => ErrorModel::InvalidState {
                message: message@,
            },
            RuntimeClientError::InvalidModelConfiguration {
                message,
            } => ErrorModel::InvalidModelConfiguration { message: message@ },
            RuntimeClientError::NoCurrentAttempt => ErrorModel::NoCurrentAttempt,
            RuntimeClientError::UnknownBackgroundExecution {
                execution_id,
            } => ErrorModel::UnknownBackgroundExecution { execution_id: *execution_id },
            RuntimeClientError::ResyncRequired {
                after_cursor,
                earliest_serviceable,
            } => ErrorModel::ResyncRequired {
                after_cursor: *after_cursor,
                earliest_serviceable: *earliest_serviceable,
            },
            RuntimeClientError::ProjectionExhausted => ErrorModel::ProjectionExhausted,
            RuntimeClientError::RuntimeShutdown => ErrorModel::RuntimeShutdown,
            RuntimeClientError::RuntimeFailure { message } => ErrorModel::RuntimeFailure {
                message: message@,
            },
        }
    }
}

/// The version of the protocol.
pub const RUNTIME_CLIENT_PROTOCOL_VERSION: u16 = 1;

/// What a client calls one of its requests. The response carries it back.
#[derive(Debug, Clone, Copy, PartialEq, Eq, Structural)]
pub struct RequestId {
    pub value: u64,
}

impl RequestId {
    pub fn new(value: u64) -> (id: Self)
        ensures
            id.value == value,
    {
        RequestId { value }
    }

    pub fn get(&self) -> (value: u64)
        ensures
            value == self.value,
    {
        self.value
    }
}

/// A request about sessions.
#[derive(Debug, Clone, PartialEq, Eq)]
pub enum SessionRequest {
    DeletePreview { session_id: SessionId },
    List,
    Get { session_id: SessionId },
    TreeGet { session_id: SessionId },
    Name { session_id: SessionId, name: String },
    New,
    Select { session_id: SessionId },
    Clone { session_id: SessionId },
    Fork { session_id: SessionId },
    TreeBranch { session_id: SessionId },
}

/// A request of a client.
#[derive(Debug, Clone, PartialEq, Eq)]
pub enum RuntimeClientRequest {
    Initialize { id: RequestId, protocol_version: u16 },
    SubmitInbound { id: RequestId, content: Vec<UserContentBlock> },
    CancelCurrentAttempt { id: RequestId },
    CompactContext { id: RequestId },
    InteractionRespond {
        id: RequestId,
        interaction: InteractionRef,
        response: InteractionResponse,
    },
    Goal { id: RequestId, control: JsonText },
    SnapshotGet { id: RequestId },
    TranscriptPageGet {
        id: RequestId,
        before_cursor: Option<RuntimeClientTranscriptCursor>,
        limit: usize,
    },
    SubscribeEvents { id: RequestId, after_cursor: RuntimeClientCursor },
    CapabilityGet { id: RequestId },
    ModelCatalogGet { id: RequestId },
    ModelGet { id: RequestId },
    ModelSet { id: RequestId, config: SessionModelConfig },
    Session { id: RequestId, request: SessionRequest },
    BackgroundStatus { id: RequestId, execution_id: ToolExecutionId },
    BackgroundCancel { id: RequestId, execution_id: ToolExecutionId },
    SubagentStatus { id: RequestId, subagent_id: SubagentId },
    SubagentCancel { id: RequestId, subagent_id: SubagentId },
    SubagentWorkspaceDispose { id: RequestId, subagent_id: SubagentId },
    Detach { id: RequestId },
    Shutdown { id: RequestId },
}

impl SessionRequest {
    /// Whether the request asks for a change.
    pub open spec fn is_mutating_spec(self) -> bool {
        self is Name || self is New || self is Select || self is Clone || self is Fork
            || self is TreeBranch
    }

    /// Whether the request asks for a change.
    pub fn is_mutating(&self) -> (mutating: bool)
        ensures
            mutating == self.is_mutating_spec(),
    {
        match self {
            SessionRequest::Name { .. }
            | SessionRequest::New
            | SessionRequest::Select { .. }
            | SessionRequest::Clone { .. }
            | SessionRequest::Fork { .. }
            | SessionRequest::TreeBranch { .. } => true,
            _ => false,
        }
    }
}

impl RuntimeClientRequest {
    /// What the client calls the request.
    pub open spec fn id_spec(self) -> RequestId {
        match self {
            RuntimeClientRequest::Initialize { id, .. } => id,
            RuntimeClientRequest::SubmitInbound { id, .. } => id,
            RuntimeClientRequest::CancelCurrentAttempt { id } => id,
            RuntimeClientRequest::CompactContext { id } => id,
            RuntimeClientRequest::InteractionRespond { id, .. } => id,
            RuntimeClientRequest::Goal { id, .. } => id,
            RuntimeClientRequest::SnapshotGet { id } => id,
            RuntimeClientRequest::TranscriptPageGet { id, .. } => id,
            RuntimeClientRequest::SubscribeEvents { id, .. } => id,
            RuntimeClientRequest::CapabilityGet { id } => id,
            RuntimeClientRequest::ModelCatalogGet { id } => id,
            RuntimeClientRequest::ModelGet { id } => id,
            RuntimeClientRequest::ModelSet { id, .. } => id,
            RuntimeClientRequest::Session { id, .. } => id,
            RuntimeClientRequest::BackgroundStatus { id, .. } => id,
            RuntimeClientRequest::BackgroundCancel { id, .. } => id,
            RuntimeClientRequest::SubagentStatus { id, .. } => id,
            RuntimeClientRequest::SubagentCancel { id, .. } => id,
            RuntimeClientRequest::SubagentWorkspaceDispose { id, .. } => id,
            RuntimeClientRequest::Detach { id } => id,
            RuntimeClientRequest::Shutdown { id } => id,
        }
    }

    /// What the client calls the request.
    pub fn id(&self) -> (id: RequestId)
        ensures
            id == self.id_spec(),
    {
        match self {
            RuntimeClientRequest::Initialize { id, .. } => *id,
            RuntimeClientRequest::SubmitInbound { id, .. } => *id,
            RuntimeClientRequest::CancelCurrentAttempt { id } => *id,
            RuntimeClientRequest::CompactContext { id } => *id,
            RuntimeClientRequest::InteractionRespond { id, .. } => *id,
            RuntimeClientRequest::Goal { id, .. } => *id,
            RuntimeClientRequest::SnapshotGet { id } => *id,
            RuntimeClientRequest::TranscriptPageGet { id, .. } => *id,
            RuntimeClientRequest::SubscribeEvents { id, .. } => *id,
            RuntimeClientRequest::CapabilityGet { id } => *id,
            RuntimeClientRequest::ModelCatalogGet { id } => *id,
            RuntimeClientRequest::ModelGet { id } => *id,
            RuntimeClientRequest::ModelSet { id, .. } => *id,
            RuntimeClientRequest::Session { id, .. } => *id,
            RuntimeClientRequest::BackgroundStatus { id, .. } => *id,
            RuntimeClientRequest::BackgroundCancel { id, .. } => *id,
            RuntimeClientRequest::SubagentStatus { id, .. } => *id,
            RuntimeClientRequest::SubagentCancel { id, .. } => *id,
            RuntimeClientRequest::SubagentWorkspaceDispose { id, .. } => *id,
            RuntimeClientRequest::Detach { id } => *id,
            RuntimeClientRequest::Shutdown { id } => *id,
        }
    }

    /// Whether the request asks for a change of the conversation or its sessions.
    /// To subscribe and to detach concern the client alone.
    pub open spec fn is_mutating_spec(self) -> bool {
        match self {
            RuntimeClientRequest::SubmitInbound { .. }
            | RuntimeClientRequest::CancelCurrentAttempt { .. }
            | RuntimeClientRequest::CompactContext { .. }
            | RuntimeClientRequest::InteractionRespond { .. }
            | RuntimeClientRequest::Goal { .. }
            | RuntimeClientRequest::ModelSet { .. }
            | RuntimeClientRequest::BackgroundCancel { .. }
            | RuntimeClientRequest::SubagentCancel { .. }
            | RuntimeClientRequest::SubagentWorkspaceDispose { .. }
            | RuntimeClientRequest::Shutdown { .. } => true,
            RuntimeClientRequest::Session { request, .. } => request.is_mutating_spec(),
            _ => false,
        }
    }

    /// Whether the request asks for a change of the conversation or its sessions.
    pub fn is_mutating(&self) -> (mutating: bool)
        ensures
            mutating == self.is_mutating_spec(),
    {
        match self {
            RuntimeClientRequest::SubmitInbound { .. }
            | RuntimeClientRequest::CancelCurrentAttempt { .. }
            | RuntimeClientRequest::CompactContext { .. }
            | RuntimeClientRequest::InteractionRespond { .. }
            | RuntimeClientRequest::Goal { .. }
            | RuntimeClientRequest::ModelSet { .. }
            | RuntimeClientRequest::BackgroundCancel { .. }
            | RuntimeClientRequest::SubagentCancel { .. }
            | RuntimeClientRequest::SubagentWorkspaceDispose { .. }
            | RuntimeClientRequest::Shutdown { .. } => true,
            RuntimeClientRequest::Session { request, .. } => request.is_mutating(),
            _ => false,
        }
    }

    /// Whether the response has to wait for the runtime to settle something.
    pub open spec fn requires_async_spec(self) -> bool {
        self is CompactContext || self is InteractionRespond || self is Session
            || self is SubagentWorkspaceDispose || self is Shutdown
    }

    /// Whether the response has to wait for the runtime to settle something.
    pub fn requires_async(&self) -> (requires_async: bool)
        ensures
            requires_async == self.requires_async_spec(),
    {
        match self {
            RuntimeClientRequest::CompactContext { .. }
            | RuntimeClientRequest::InteractionRespond { .. }
            | RuntimeClientRequest::Session { .. }
            | RuntimeClientRequest::SubagentWorkspaceDispose { .. }
            | RuntimeClientRequest::Shutdown { .. } => true,
            _ => false,
        }
    }
}

/// What a request that succeeds gives.
#[derive(Debug, PartialEq, Eq)]
pub enum RuntimeClientResult {
    Initialized {
        attachment_id: AttachmentId,
        conversation_id: ConversationId,
        agent_id: AgentId,
        snapshot: RuntimeClientSnapshot,
        cursor: RuntimeClientCursor,
    },
    InboundAccepted { message_id: MessageId, inbound_sequence: InboundSequence },
    AttemptCancellationAccepted { attempt_id: AttemptId },
    Snapshot { snapshot: RuntimeClientSnapshot, cursor: RuntimeClientCursor },
    Subscribed { after_cursor: RuntimeClientCursor },
    Capability { capabilities: Arc<CapabilityView> },
    ModelCatalog { catalog: Arc<ModelCatalog> },
    Model { model: Arc<SessionModelView> },
    ModelSet { model: Arc<SessionModelView> },
    BackgroundStatus { execution: RuntimeClientBackgroundExecution },
    BackgroundCancelAccepted { execution: RuntimeClientBackgroundExecution },
    Detached,
    ShutdownCompleted,
    /// What another owner of the runtime answered.
    Native { answer: JsonText },
}

/// The value of a result.
#[verifier::ext_equal]
pub enum ResultModel {
    Initialized {
        attachment_id: Seq<char>,
        conversation_id: ConversationId,
        agent_id: AgentId,
        snapshot: SnapshotModel,
        cursor: u64,
    },
    InboundAccepted { message_id: MessageId, inbound_sequence: InboundSequence },
    AttemptCancellationAccepted { attempt_id: AttemptId },
    Snapshot { snapshot: SnapshotModel, cursor: u64 },
    Subscribed { after_cursor: u64 },
    Capability { capabilities: CapabilityModel },
    ModelCatalog { catalog: Arc<ModelCatalog> },
    Model { model: Arc<SessionModelView> },
    ModelSet { model: Arc<SessionModelView> },
    BackgroundStatus { execution: RuntimeClientBackgroundExecution },
    BackgroundCancelAccepted { execution: RuntimeClientBackgroundExecution },
    Detached,
    ShutdownCompleted,
    Native { answer: JsonText },
}

impl View for RuntimeClientResult {
    type V = ResultModel;

    open spec fn view(&self) -> ResultModel {
        match *self {
            RuntimeClientResult::Initialized {
                attachment_id,
                conversation_id,
                agent_id,
                snapshot,
                cursor,
            } => ResultModel::Initialized {
                attachment_id: attachment_id@,
                conversation_id,
                agent_id,
                snapshot: snapshot@,
                cursor: cursor.value,
            },
            RuntimeClientResult::InboundAccepted {
                message_id,
                inbound_sequence,
            } => ResultModel::InboundAccepted { message_id, inbound_sequence },
            RuntimeClientResult::AttemptCancellationAccepted {
                attempt_id,
            } => ResultModel::AttemptCancellationAccepted { attempt_id },
            RuntimeClientResult::Snapshot { snapshot, cursor } => ResultModel::Snapshot {
                snapshot: snapshot@,
                cursor: cursor.value,
            },
            RuntimeClientResult::Subscribed { after_cursor } => ResultModel::Subscribed {
                after_cursor: after_cursor.value,
            },
            RuntimeClientResult::Capability { capabilities } => ResultModel::Capability {
                capabilities: capabilities@,
            },
            RuntimeClientResult::ModelCatalog { catalog } => ResultModel::ModelCatalog { catalog },
            RuntimeClientResult::Model { model } => ResultModel::Model { model },
            RuntimeClientResult::ModelSet { model } => ResultModel::ModelSet { model },
            RuntimeClientResult::BackgroundStatus { execution } => ResultModel::BackgroundStatus {
                execution,
            },
            RuntimeClientResult::BackgroundCancelAccepted {
                execution,
            } => ResultModel::BackgroundCancelAccepted { execution },
            RuntimeClientResult::Detached => ResultModel::Detached,
            RuntimeClientResult::ShutdownCompleted => ResultModel::ShutdownCompleted,
            RuntimeClientResult::Native { answer } => ResultModel::Native { answer },
        }
    }
}

/// The value of an outcome.
pub open spec fn outcome_model(
    outcome: Result<RuntimeClientResult, RuntimeClientError>,
) -> Result<ResultModel, ErrorModel> {
    match outcome {
        Ok(result) => Ok(result@),
        Err(error) => Err(error@),
    }
}

/// The response to a request: its result or its error, under the request's own name.
#[derive(Debug, PartialEq, Eq)]
pub struct RuntimeClientResponse {
    pub id: RequestId,
    pub result: Option<RuntimeClientResult>,
    pub error: Option<RuntimeClientError>,
}

/// The value of a response.
#[verifier::ext_equal]
pub struct AnswerModel {
    pub id: RequestId,
    pub result: Option<ResultModel>,
    pub error: Option<ErrorModel>,
}

impl View for RuntimeClientResponse {
    type V = AnswerModel;

    open spec fn view(&self) -> AnswerModel {
        AnswerModel {
            id: self.id,
            result: match self.result {
                Some(result) => Some(result@),
                None => None,
            },
            error: match self.error {
                Some(error) => Some(error@),
                None => None,
            },
        }
    }
}

impl AnswerModel {
    /// The response to a request with an outcome.
    pub open spec fn of(id: RequestId, outcome: Result<ResultModel, ErrorModel>) -> Self {
        match outcome {
            Ok(result) => AnswerModel { id, result: Some(result), error: None },
            Err(error) => AnswerModel { id, result: None, error: Some(error) },
        }
    }
}

impl RuntimeClientResponse {
    /// The response to a request with an outcome.
    pub fn of(
        id: RequestId,
        outcome: Result<RuntimeClientResult, RuntimeClientError>,
    ) -> (response: Self)
        ensures
            response@ == AnswerModel::of(id, outcome_model(outcome)),
    {
        match outcome {
            Ok(result) => RuntimeClientResponse { id, result: Some(result), error: None },
            Err(error) => RuntimeClientResponse { id, result: None, error: Some(error) },
        }
    }

    /// The response to a request that failed.
    pub fn error(id: RequestId, error: RuntimeClientError) -> (response: Self)
        ensures
            response@ == AnswerModel::of(id, Err(error@)),
    {
        RuntimeClientResponse { id, result: None, error: Some(error) }
    }
}

} // verus!
