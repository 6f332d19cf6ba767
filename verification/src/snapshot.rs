//! The read model that a client sees, and its value in the contracts.
//!
//! A `..Model` type is the value of the type it is named after: lists are sequences,
//! text that grows is a sequence of characters, and a shared part is the part itself.
use std::sync::Arc;

use vstd::prelude::*;

use crate::clock::Timestamp;
use crate::event::RuntimeClientOutcome;
use crate::identity::{
    AgentId, AttemptId, ConversationId, MessageId, ServerId, SkillId, SkillVersionId, SubagentId,
    ToolCallId, ToolExecutionId, ToolId,
};
use crate::interaction::RoutedInteraction;
use crate::journal::SurfaceRevision;
use crate::json::JsonText;
use crate::message::{ContentBlockIndex, MessageBlock, UserMessageBlock};
use crate::model::{AttemptModelView, ModelUsage, SessionModelView, TokenMeasurement};
use crate::observation::{
    ApprovalMode, BackgroundLifecycle, InboundSequence, SubagentExecutionProfile,
    SubagentObservation, SubagentState, SubagentWorkspaceResourceState, TodoSnapshot,
    TodoTaskStatus, TranscriptCursor, UtcOffset,
};
use crate::publication::PublicationAudit;
use crate::response::{CompletedProcessView, CompletedResponseView, ConversationStatistics};
use crate::share::{share, share_all, share_optional};
use crate::tool::{
    ToolApprovalPolicy, ToolConcurrencyPolicy, ToolExecutionPolicy, ToolExecutionResult, ToolOrigin,
    ToolProgress, ToolReplayPolicy,
};
#[allow(unused_imports)]
use crate::tool::ToolResultModel;

verus! {

/// How many composed statuses the read model keeps.
pub const AGENT_STATUS_WINDOW: usize = 64;

/// A client's position in the durable transcript.
#[derive(Debug, Clone, Copy, PartialEq, Eq, Structural)]
pub struct RuntimeClientTranscriptCursor {
    pub value: u64,
}

impl RuntimeClientTranscriptCursor {
    pub fn new(value: u64) -> (cursor: Self)
        ensures
            cursor.value == value,
    {
        RuntimeClientTranscriptCursor { value }
    }

    pub fn get(&self) -> (value: u64)
        ensures
            value == self.value,
    {
        self.value
    }

    /// The client's name for a durable position.
    pub open spec fn of_spec(cursor: TranscriptCursor) -> Self {
        RuntimeClientTranscriptCursor { value: cursor.value }
    }

    /// The client's name for a durable position.
    pub fn of(cursor: TranscriptCursor) -> (named: Self)
        ensures
            named == Self::of_spec(cursor),
    {
        RuntimeClientTranscriptCursor { value: cursor.value }
    }

    /// The client's name for a durable position, where there is one.
    pub open spec fn of_optional_spec(cursor: Option<TranscriptCursor>) -> Option<Self> {
        match cursor {
            Some(cursor) => Some(Self::of_spec(cursor)),
            None => None,
        }
    }

    /// The client's name for a durable position, where there is one.
    pub fn of_optional(cursor: Option<TranscriptCursor>) -> (named: Option<Self>)
        ensures
            named == Self::of_optional_spec(cursor),
    {
        match cursor {
            Some(cursor) => Some(Self::of(cursor)),
            None => None,
        }
    }
}

/// A tool that the client may see.
#[derive(Debug, Clone, PartialEq, Eq)]
pub struct RuntimeClientTool {
    pub id: ToolId,
    pub name: String,
    pub description: String,
    pub input_schema: JsonText,
    pub execution_policy: ToolExecutionPolicy,
    pub concurrency_policy: ToolConcurrencyPolicy,
    pub approval_policy: ToolApprovalPolicy,
    pub replay_policy: ToolReplayPolicy,
    pub origin: ToolOrigin,
}

/// A skill that the client may see.
#[derive(Debug, Clone, PartialEq, Eq)]
pub struct RuntimeClientSkill {
    pub id: SkillId,
    pub version_id: SkillVersionId,
    pub name: String,
    pub description: String,
    pub location: String,
}

/// A source of capabilities.
#[derive(Debug, Clone, PartialEq, Eq)]
pub enum CapabilitySourceDescriptor {
    Mcp { server_id: ServerId },
}

/// Whether a source of capabilities can be used.
#[derive(Debug, Clone, PartialEq, Eq)]
pub enum CapabilitySourceStateView {
    Ready,
    Unavailable { reason: String },
}

#[derive(Debug, Clone, PartialEq, Eq)]
pub struct CapabilitySourceView {
    pub source: CapabilitySourceDescriptor,
    pub state: CapabilitySourceStateView,
}

/// The version of the executable capabilities.
#[derive(Debug, Clone, Copy, PartialEq, Eq, Structural)]
pub struct CapabilityRevision {
    pub value: u64,
}

impl CapabilityRevision {
    pub fn new(value: u64) -> (revision: Self)
        ensures
            revision.value == value,
    {
        CapabilityRevision { value }
    }
}

/// What the conversation can do.
#[derive(Debug, Clone, PartialEq, Eq)]
pub struct CapabilityView {
    pub revision: CapabilityRevision,
    pub tools: Vec<RuntimeClientTool>,
    pub available_tools: Vec<RuntimeClientTool>,
    pub skills: Vec<RuntimeClientSkill>,
    pub sources: Vec<CapabilitySourceView>,
}

#[verifier::ext_equal]
pub struct CapabilityModel {
    pub revision: CapabilityRevision,
    pub tools: Seq<RuntimeClientTool>,
    pub available_tools: Seq<RuntimeClientTool>,
    pub skills: Seq<RuntimeClientSkill>,
    pub sources: Seq<CapabilitySourceView>,
}

impl View for CapabilityView {
    type V = CapabilityModel;

    open spec fn view(&self) -> CapabilityModel {
        CapabilityModel {
            revision: self.revision,
            tools: self.tools@,
            available_tools: self.available_tools@,
            skills: self.skills@,
            sources: self.sources@,
        }
    }
}

/// The version of the runtime's resources.
#[derive(Debug, Clone, Copy, PartialEq, Eq, Structural)]
pub struct RuntimeResourceRevision {
    pub value: u64,
}

/// A file whose content the runtime loaded; the content stays with the runtime.
#[derive(Debug, Clone, PartialEq, Eq)]
pub struct RuntimeClientContextFile {
    pub path: String,
    pub bytes: u64,
}

/// Which resources the runtime loaded.
#[derive(Debug, Clone, PartialEq, Eq)]
pub struct RuntimeClientResourcesView {
    pub revision: RuntimeResourceRevision,
    pub context_files: Vec<RuntimeClientContextFile>,
    pub agent_profile: bool,
}

#[verifier::ext_equal]
pub struct ResourcesModel {
    pub revision: RuntimeResourceRevision,
    pub context_files: Seq<RuntimeClientContextFile>,
    pub agent_profile: bool,
}

impl View for RuntimeClientResourcesView {
    type V = ResourcesModel;

    open spec fn view(&self) -> ResourcesModel {
        ResourcesModel {
            revision: self.revision,
            context_files: self.context_files@,
            agent_profile: self.agent_profile,
        }
    }
}

impl ResourcesModel {
    /// No resources at all.
    pub open spec fn none() -> Self {
        ResourcesModel {
            revision: RuntimeResourceRevision { value: 0 },
            context_files: Seq::empty(),
            agent_profile: false,
        }
    }
}

impl Default for RuntimeClientResourcesView {
    fn default() -> (resources: Self)
        ensures
            resources@ == ResourcesModel::none(),
    {
        RuntimeClientResourcesView {
            revision: RuntimeResourceRevision { value: 0 },
            context_files: Vec::new(),
            agent_profile: false,
        }
    }
}

/// How far one proposed tool call has come.
#[derive(Debug, PartialEq, Eq)]
pub enum ForegroundToolState {
    /// The model proposes the call; nothing runs.
    Assembled { arguments: String },
    Running { arguments: String, progress: Option<ToolProgress> },
    Settled { arguments: String, result: Arc<ToolExecutionResult> },
}

#[verifier::ext_equal]
pub enum ForegroundStateModel {
    Assembled { arguments: Seq<char> },
    Running { arguments: Seq<char>, progress: Option<ToolProgress> },
    Settled { arguments: Seq<char>, result: ToolResultModel },
}

impl View for ForegroundToolState {
    type V = ForegroundStateModel;

    open spec fn view(&self) -> ForegroundStateModel {
        match self {
            ForegroundToolState::Assembled { arguments } => ForegroundStateModel::Assembled {
                arguments: arguments@,
            },
            ForegroundToolState::Running { arguments, progress } => ForegroundStateModel::Running {
                arguments: arguments@,
                progress: *progress,
            },
            ForegroundToolState::Settled { arguments, result } => ForegroundStateModel::Settled {
                arguments: arguments@,
                result: result@,
            },
        }
    }
}

impl ForegroundStateModel {
    /// The arguments of the call, as far as they are known.
    pub open spec fn arguments(self) -> Seq<char> {
        match self {
            ForegroundStateModel::Assembled { arguments } => arguments,
            ForegroundStateModel::Running { arguments, .. } => arguments,
            ForegroundStateModel::Settled { arguments, .. } => arguments,
        }
    }

    /// The same state with other arguments.
    pub open spec fn with_arguments(self, arguments: Seq<char>) -> Self {
        match self {
            ForegroundStateModel::Assembled { .. } => ForegroundStateModel::Assembled { arguments },
            ForegroundStateModel::Running { progress, .. } => ForegroundStateModel::Running {
                arguments,
                progress,
            },
            ForegroundStateModel::Settled { result, .. } => ForegroundStateModel::Settled {
                arguments,
                result,
            },
        }
    }
}

impl Clone for ForegroundToolState {
    fn clone(&self) -> (copy: Self)
        ensures
            copy == *self,
    {
        match self {
            ForegroundToolState::Assembled { arguments } => ForegroundToolState::Assembled {
                arguments: arguments.clone(),
            },
            ForegroundToolState::Running { arguments, progress } => ForegroundToolState::Running {
                arguments: arguments.clone(),
                progress: match progress {
                    Some(progress) => Some(progress.clone()),
                    None => None,
                },
            },
            ForegroundToolState::Settled { arguments, result } => ForegroundToolState::Settled {
                arguments: arguments.clone(),
                result: share(result),
            },
        }
    }
}

/// One logical tool call of the current attempt.
#[derive(Debug, PartialEq, Eq)]
pub struct ForegroundToolExecution {
    pub call_id: ToolCallId,
    pub tool_id: ToolId,
    pub name: String,
    pub state: ForegroundToolState,
}

#[verifier::ext_equal]
pub struct ForegroundModel {
    pub call_id: ToolCallId,
    pub tool_id: ToolId,
    pub name: String,
    pub state: ForegroundStateModel,
}

impl View for ForegroundToolExecution {
    type V = ForegroundModel;

    open spec fn view(&self) -> ForegroundModel {
        ForegroundModel {
            call_id: self.call_id,
            tool_id: self.tool_id,
            name: self.name,
            state: self.state@,
        }
    }
}

impl Clone for ForegroundToolExecution {
    fn clone(&self) -> (copy: Self)
        ensures
            copy == *self,
    {
        ForegroundToolExecution {
            call_id: self.call_id.clone(),
            tool_id: self.tool_id.clone(),
            name: self.name.clone(),
            state: self.state.clone(),
        }
    }
}

/// One block of the message that is being written.
#[derive(Debug, PartialEq, Eq)]
pub enum InFlightBlock {
    Text { block_index: ContentBlockIndex, text: String },
    Reasoning { block_index: ContentBlockIndex, text: String },
    Refusal { block_index: ContentBlockIndex, text: String },
    ToolCall {
        block_index: ContentBlockIndex,
        call_id: ToolCallId,
        tool_id: ToolId,
        name: String,
        arguments: String,
    },
}

#[verifier::ext_equal]
pub enum InFlightBlockModel {
    Text { block_index: ContentBlockIndex, text: Seq<char> },
    Reasoning { block_index: ContentBlockIndex, text: Seq<char> },
    Refusal { block_index: ContentBlockIndex, text: Seq<char> },
    ToolCall {
        block_index: ContentBlockIndex,
        call_id: ToolCallId,
        tool_id: ToolId,
        name: String,
        arguments: Seq<char>,
    },
}

impl View for InFlightBlock {
    type V = InFlightBlockModel;

    open spec fn view(&self) -> InFlightBlockModel {
        match self {
            InFlightBlock::Text { block_index, text } => InFlightBlockModel::Text {
                block_index: *block_index,
                text: text@,
            },
            InFlightBlock::Reasoning { block_index, text } => InFlightBlockModel::Reasoning {
                block_index: *block_index,
                text: text@,
            },
            InFlightBlock::Refusal { block_index, text } => InFlightBlockModel::Refusal {
                block_index: *block_index,
                text: text@,
            },
            InFlightBlock::ToolCall {
                block_index,
                call_id,
                tool_id,
                name,
                arguments,
            } => InFlightBlockModel::ToolCall {
                block_index: *block_index,
                call_id: *call_id,
                tool_id: *tool_id,
                name: *name,
                arguments: arguments@,
            },
        }
    }
}

impl InFlightBlockModel {
    /// The place of the block in the message.
    pub open spec fn index(self) -> ContentBlockIndex {
        match self {
            InFlightBlockModel::Text { block_index, .. } => block_index,
            InFlightBlockModel::Reasoning { block_index, .. } => block_index,
            InFlightBlockModel::Refusal { block_index, .. } => block_index,
            InFlightBlockModel::ToolCall { block_index, .. } => block_index,
        }
    }

    /// The block with text behind what it shows. A tool call shows no text.
    pub open spec fn with_more_text(self, delta: Seq<char>) -> Self {
        match self {
            InFlightBlockModel::Text { block_index, text } => InFlightBlockModel::Text {
                block_index,
                text: text + delta,
            },
            InFlightBlockModel::Reasoning { block_index, text } => InFlightBlockModel::Reasoning {
                block_index,
                text: text + delta,
            },
            InFlightBlockModel::Refusal { block_index, text } => InFlightBlockModel::Refusal {
                block_index,
                text: text + delta,
            },
            InFlightBlockModel::ToolCall { .. } => self,
        }
    }

    /// The arguments of a tool call; of another block, nothing.
    pub open spec fn call_arguments(self) -> Seq<char> {
        match self {
            InFlightBlockModel::ToolCall { arguments, .. } => arguments,
            _ => Seq::empty(),
        }
    }

    /// The block with other arguments, where it is a tool call.
    pub open spec fn with_call_arguments(self, arguments: Seq<char>) -> Self {
        match self {
            InFlightBlockModel::ToolCall {
                block_index,
                call_id,
                tool_id,
                name,
                ..
            } => InFlightBlockModel::ToolCall { block_index, call_id, tool_id, name, arguments },
            _ => self,
        }
    }
}

impl Clone for InFlightBlock {
    fn clone(&self) -> (copy: Self)
        ensures
            copy == *self,
    {
        match self {
            InFlightBlock::Text { block_index, text } => InFlightBlock::Text {
                block_index: *block_index,
                text: text.clone(),
            },
            InFlightBlock::Reasoning { block_index, text } => InFlightBlock::Reasoning {
                block_index: *block_index,
                text: text.clone(),
            },
            InFlightBlock::Refusal { block_index, text } => InFlightBlock::Refusal {
                block_index: *block_index,
                text: text.clone(),
            },
            InFlightBlock::ToolCall {
                block_index,
                call_id,
                tool_id,
                name,
                arguments,
            } => InFlightBlock::ToolCall {
                block_index: *block_index,
                call_id: call_id.clone(),
                tool_id: tool_id.clone(),
                name: name.clone(),
                arguments: arguments.clone(),
            },
        }
    }
}

/// The message that is being written.
#[derive(Debug, PartialEq, Eq)]
pub struct InFlightAssistantMessage {
    pub message_id: MessageId,
    pub blocks: Vec<InFlightBlock>,
}

#[verifier::ext_equal]
pub struct InFlightModel {
    pub message_id: MessageId,
    pub blocks: Seq<InFlightBlockModel>,
}

/// The values of blocks.
pub open spec fn block_models(blocks: Seq<InFlightBlock>) -> Seq<InFlightBlockModel> {
    Seq::new(blocks.len(), |i: int| blocks[i]@)
}

/// The values of tool calls.
pub open spec fn foreground_models(slots: Seq<ForegroundToolExecution>) -> Seq<ForegroundModel> {
    Seq::new(slots.len(), |i: int| slots[i]@)
}

impl View for InFlightAssistantMessage {
    type V = InFlightModel;

    open spec fn view(&self) -> InFlightModel {
        InFlightModel { message_id: self.message_id, blocks: block_models(self.blocks@) }
    }
}

impl Clone for InFlightAssistantMessage {
    fn clone(&self) -> (copy: Self)
        ensures
            copy@ == self@,
    {
        let blocks = self.blocks.clone();
        assert(blocks@ =~= self.blocks@);
        InFlightAssistantMessage { message_id: self.message_id.clone(), blocks }
    }
}

/// Where an attempt stands.
#[derive(Debug, PartialEq, Eq)]
pub enum RuntimeClientAttemptPhase {
    Admitted,
    Running,
    Settled { outcome: RuntimeClientOutcome },
}

impl Clone for RuntimeClientAttemptPhase {
    fn clone(&self) -> (copy: Self)
        ensures
            copy == *self,
    {
        match self {
            RuntimeClientAttemptPhase::Admitted => RuntimeClientAttemptPhase::Admitted,
            RuntimeClientAttemptPhase::Running => RuntimeClientAttemptPhase::Running,
            RuntimeClientAttemptPhase::Settled { outcome } => RuntimeClientAttemptPhase::Settled {
                outcome: outcome.clone(),
            },
        }
    }
}

/// The current attempt, or the one that settled last.
#[derive(Debug, PartialEq, Eq)]
pub struct RuntimeClientAttempt {
    pub attempt_id: AttemptId,
    pub phase: RuntimeClientAttemptPhase,
    /// How many turns have completed.
    pub turn: u32,
    pub last_usage: Option<ModelUsage>,
    pub in_flight: Option<InFlightAssistantMessage>,
    pub foreground: Vec<ForegroundToolExecution>,
    /// The model that the attempt froze at its admission.
    pub model: Arc<AttemptModelView>,
}

#[verifier::ext_equal]
pub struct AttemptModel {
    pub attempt_id: AttemptId,
    pub phase: RuntimeClientAttemptPhase,
    pub turn: u32,
    pub last_usage: Option<ModelUsage>,
    pub in_flight: Option<InFlightModel>,
    pub foreground: Seq<ForegroundModel>,
    pub model: Arc<AttemptModelView>,
}

impl AttemptModel {
    /// An attempt of which nothing is known yet.
    pub open spec fn fresh(
        attempt_id: AttemptId,
        phase: RuntimeClientAttemptPhase,
        model: Arc<AttemptModelView>,
    ) -> Self {
        AttemptModel {
            attempt_id,
            phase,
            turn: 0,
            last_usage: None,
            in_flight: None,
            foreground: Seq::empty(),
            model,
        }
    }
}

/// The value of a message that is being written, where there is one.
pub open spec fn in_flight_model(message: Option<InFlightAssistantMessage>) -> Option<
    InFlightModel,
> {
    match message {
        Some(message) => Some(message@),
        None => None,
    }
}

impl View for RuntimeClientAttempt {
    type V = AttemptModel;

    open spec fn view(&self) -> AttemptModel {
        AttemptModel {
            attempt_id: self.attempt_id,
            phase: self.phase,
            turn: self.turn,
            last_usage: self.last_usage,
            in_flight: in_flight_model(self.in_flight),
            foreground: foreground_models(self.foreground@),
            model: self.model,
        }
    }
}

impl RuntimeClientAttempt {
    /// An attempt of which nothing is known yet.
    pub fn fresh(
        attempt_id: AttemptId,
        phase: RuntimeClientAttemptPhase,
        model: Arc<AttemptModelView>,
    ) -> (attempt: Self)
        ensures
            attempt@ == AttemptModel::fresh(attempt_id, phase, model),
    {
        RuntimeClientAttempt {
            attempt_id,
            phase,
            turn: 0,
            last_usage: None,
            in_flight: None,
            foreground: Vec::new(),
            model,
        }
    }
}

impl Clone for RuntimeClientAttempt {
    fn clone(&self) -> (copy: Self)
        ensures
            copy@ == self@,
    {
        let foreground = self.foreground.clone();
        assert(foreground@ =~= self.foreground@);
        RuntimeClientAttempt {
            attempt_id: self.attempt_id.clone(),
            phase: self.phase.clone(),
            turn: self.turn,
            last_usage: self.last_usage,
            in_flight: match &self.in_flight {
                Some(message) => Some(message.clone()),
                None => None,
            },
            foreground,
            model: share(&self.model),
        }
    }
}

/// One piece of work that outlives its attempt.
#[derive(Debug, PartialEq, Eq)]
pub struct RuntimeClientBackgroundExecution {
    pub execution_id: ToolExecutionId,
    pub tool_id: ToolId,
    pub tool_name: String,
    pub state: BackgroundLifecycle,
    pub progress: Option<ToolProgress>,
    pub result: Option<Arc<ToolExecutionResult>>,
}

impl Clone for RuntimeClientBackgroundExecution {
    fn clone(&self) -> (copy: Self)
        ensures
            copy == *self,
    {
        RuntimeClientBackgroundExecution {
            execution_id: self.execution_id.clone(),
            tool_id: self.tool_id.clone(),
            tool_name: self.tool_name.clone(),
            state: self.state,
            progress: match &self.progress {
                Some(progress) => Some(progress.clone()),
                None => None,
            },
            result: share_optional(&self.result),
        }
    }
}

/// How a subagent's workspace is kept apart.
#[derive(Debug, Clone, PartialEq, Eq)]
pub enum RuntimeClientWorkspaceIsolation {
    Shared,
    GitWorktree {
        source_repository_root: String,
        repository_relative_workspace: String,
        physical_worktree_root: String,
        base_commit: String,
        branch: String,
        parent_had_uncommitted_changes: bool,
    },
}

/// What a subagent leaves in its workspace.
#[derive(Debug, Clone, PartialEq, Eq)]
pub struct RuntimeClientWorkspaceHandoff {
    pub logical_workspace: String,
    pub physical_worktree_root: String,
    pub branch: String,
    pub base_commit: String,
    pub head_commit: String,
    pub dirty: bool,
}

#[derive(Debug, Clone, PartialEq, Eq)]
pub struct RuntimeClientSubagentWorkspace {
    pub logical_workspace: String,
    pub isolation: RuntimeClientWorkspaceIsolation,
    pub resource_state: SubagentWorkspaceResourceState,
    pub handoff: Option<RuntimeClientWorkspaceHandoff>,
}

/// One subagent of the conversation.
#[derive(Debug, Clone, PartialEq, Eq)]
pub struct RuntimeClientSubagent {
    pub subagent_id: SubagentId,
    pub child_agent_id: AgentId,
    pub child_conversation_id: ConversationId,
    pub agent: String,
    pub definition_digest: String,
    pub state: SubagentState,
    pub detail: Option<String>,
    pub observation: Arc<SubagentObservation>,
    pub execution_profile: Option<Arc<SubagentExecutionProfile>>,
    pub started_at: Timestamp,
    pub workspace: RuntimeClientSubagentWorkspace,
}

/// One task of a composed status.
#[derive(Debug, PartialEq, Eq)]
pub struct RuntimeClientTodoStatusTask {
    pub id: u64,
    pub subject: String,
    pub active_form: Option<String>,
    pub status: TodoTaskStatus,
    pub blocked: bool,
}

/// One section of a composed status.
#[derive(Debug, PartialEq, Eq)]
pub enum RuntimeClientStatusSection {
    Temporal { current_time: Timestamp, timezone: UtcOffset },
    BackgroundExecutions { executions: Vec<RuntimeClientBackgroundExecution>, omitted_count: u64 },
    Todo {
        current: Option<RuntimeClientTodoStatusTask>,
        tasks: Vec<RuntimeClientTodoStatusTask>,
        active_count: u64,
        blocked_count: u64,
        completed_count: u64,
        deleted_count: u64,
        omitted_count: u64,
    },
}

#[verifier::ext_equal]
pub enum StatusSectionModel {
    Temporal { current_time: Timestamp, timezone: UtcOffset },
    BackgroundExecutions { executions: Seq<RuntimeClientBackgroundExecution>, omitted_count: u64 },
    Todo {
        current: Option<RuntimeClientTodoStatusTask>,
        tasks: Seq<RuntimeClientTodoStatusTask>,
        active_count: u64,
        blocked_count: u64,
        completed_count: u64,
        deleted_count: u64,
        omitted_count: u64,
    },
}

impl View for RuntimeClientStatusSection {
    type V = StatusSectionModel;

    open spec fn view(&self) -> StatusSectionModel {
        match self {
            RuntimeClientStatusSection::Temporal {
                current_time,
                timezone,
            } => StatusSectionModel::Temporal { current_time: *current_time, timezone: *timezone },
            RuntimeClientStatusSection::BackgroundExecutions {
                executions,
                omitted_count,
            } => StatusSectionModel::BackgroundExecutions {
                executions: executions@,
                omitted_count: *omitted_count,
            },
            RuntimeClientStatusSection::Todo {
                current,
                tasks,
                active_count,
                blocked_count,
                completed_count,
                deleted_count,
                omitted_count,
            } => StatusSectionModel::Todo {
                current: *current,
                tasks: tasks@,
                active_count: *active_count,
                blocked_count: *blocked_count,
                completed_count: *completed_count,
                deleted_count: *deleted_count,
                omitted_count: *omitted_count,
            },
        }
    }
}

/// A status that answers a new message.
#[derive(Debug, PartialEq, Eq)]
pub struct FreshInboundStatusOpportunityView {
    pub target_message_id: MessageId,
}

/// A status that follows a batch of tool results.
#[derive(Debug, Clone, Copy, PartialEq, Eq)]
pub struct PostToolBatchStatusOpportunityView {
    /// The transcript position that the batch froze.
    pub transcript_anchor: Option<RuntimeClientTranscriptCursor>,
}

/// What caused a status, which is also where it is shown.
#[derive(Debug, PartialEq, Eq)]
pub struct AgentStatusOpportunityView {
    pub fresh_inbound: Option<FreshInboundStatusOpportunityView>,
    pub post_tool_batch: Option<PostToolBatchStatusOpportunityView>,
}

/// One composed status.
#[derive(Debug, PartialEq, Eq)]
pub struct AgentStatusView {
    pub attempt_id: AttemptId,
    pub turn: u32,
    /// The identity of the composition.
    pub status_message_id: MessageId,
    pub opportunities: AgentStatusOpportunityView,
    pub rendered: String,
    pub sections: Vec<RuntimeClientStatusSection>,
}

#[verifier::ext_equal]
pub struct StatusModel {
    pub attempt_id: AttemptId,
    pub turn: u32,
    pub status_message_id: MessageId,
    pub opportunities: AgentStatusOpportunityView,
    pub rendered: String,
    pub sections: Seq<StatusSectionModel>,
}

impl View for AgentStatusView {
    type V = StatusModel;

    open spec fn view(&self) -> StatusModel {
        StatusModel {
            attempt_id: self.attempt_id,
            turn: self.turn,
            status_message_id: self.status_message_id,
            opportunities: self.opportunities,
            rendered: self.rendered,
            sections: Seq::new(self.sections@.len(), |i: int| self.sections@[i]@),
        }
    }
}

/// The values of composed statuses.
pub open spec fn status_models(statuses: Seq<Arc<AgentStatusView>>) -> Seq<StatusModel> {
    Seq::new(statuses.len(), |i: int| statuses[i]@)
}

/// One committed compaction.
#[derive(Debug, PartialEq, Eq)]
pub struct RuntimeClientCompactionView {
    pub generation: u64,
    pub summary_message_id: MessageId,
    pub surface_revision: SurfaceRevision,
    pub tokens_before: TokenMeasurement,
    pub estimated_tokens_after: u64,
}

impl Clone for RuntimeClientCompactionView {
    fn clone(&self) -> (copy: Self)
        ensures
            copy == *self,
    {
        RuntimeClientCompactionView {
            generation: self.generation,
            summary_message_id: self.summary_message_id.clone(),
            surface_revision: self.surface_revision,
            tokens_before: self.tokens_before,
            estimated_tokens_after: self.estimated_tokens_after,
        }
    }
}

/// What is known of the context's compaction.
#[derive(Debug, PartialEq, Eq)]
pub struct RuntimeClientContextView {
    pub compaction_in_progress: bool,
    pub compaction_count: u64,
    pub latest_compaction: Option<RuntimeClientCompactionView>,
}

impl RuntimeClientContextView {
    /// The context of a conversation that was never compacted.
    pub open spec fn initial() -> Self {
        RuntimeClientContextView {
            compaction_in_progress: false,
            compaction_count: 0,
            latest_compaction: None,
        }
    }
}

impl Default for RuntimeClientContextView {
    fn default() -> (context: Self)
        ensures
            context == Self::initial(),
    {
        RuntimeClientContextView {
            compaction_in_progress: false,
            compaction_count: 0,
            latest_compaction: None,
        }
    }
}

impl Clone for RuntimeClientContextView {
    fn clone(&self) -> (copy: Self)
        ensures
            copy == *self,
    {
        RuntimeClientContextView {
            compaction_in_progress: self.compaction_in_progress,
            compaction_count: self.compaction_count,
            latest_compaction: match &self.latest_compaction {
                Some(compaction) => Some(compaction.clone()),
                None => None,
            },
        }
    }
}

/// One message that waits in the mailbox.
#[derive(Debug, PartialEq, Eq)]
pub struct InboundItemView {
    pub sequence: InboundSequence,
    pub message: Arc<UserMessageBlock>,
}

impl Clone for InboundItemView {
    fn clone(&self) -> (copy: Self)
        ensures
            copy == *self,
    {
        InboundItemView { sequence: self.sequence, message: share(&self.message) }
    }
}

/// One drain of the mailbox.
#[derive(Debug, Clone, Copy, PartialEq, Eq)]
pub struct InboundDrainView {
    pub watermark: InboundSequence,
    pub count: usize,
}

/// The state of the mailbox.
#[derive(Debug, PartialEq, Eq)]
pub struct InboundDiagnostics {
    pub pending: Vec<InboundItemView>,
    pub last_drain: Option<InboundDrainView>,
}

/// A persistent failure of the durable authority.
#[derive(Debug, PartialEq, Eq)]
pub struct RuntimeDurabilityFailure {
    pub operation: String,
    pub diagnostic: String,
}

impl Clone for RuntimeDurabilityFailure {
    fn clone(&self) -> (copy: Self)
        ensures
            copy == *self,
    {
        RuntimeDurabilityFailure {
            operation: self.operation.clone(),
            diagnostic: self.diagnostic.clone(),
        }
    }
}

/// The durable record that an interaction was asked for.
#[derive(Debug, Clone, PartialEq, Eq)]
pub struct RuntimeClientTranscriptInteractionRequested {
    pub interaction_id: crate::identity::InteractionId,
    pub attempt_id: AttemptId,
    pub subject: String,
}

/// The durable record of how an interaction ended.
#[derive(Debug, Clone, PartialEq, Eq)]
pub struct RuntimeClientTranscriptInteractionSettled {
    pub interaction_id: crate::identity::InteractionId,
    pub attempt_id: AttemptId,
    pub settlement: String,
}

/// One item of the transcript.
#[derive(Debug, Clone, PartialEq, Eq)]
pub enum RuntimeClientTranscriptItem {
    Message { message: Arc<MessageBlock> },
    PublicationAudit { audit: Arc<PublicationAudit> },
    InteractionRequested { audit: Arc<RuntimeClientTranscriptInteractionRequested> },
    InteractionSettled { audit: Arc<RuntimeClientTranscriptInteractionSettled> },
}

/// One entry of the transcript, with what is known of the response it belongs to.
#[derive(Debug, Clone, PartialEq, Eq)]
pub struct RuntimeClientTranscriptEntry {
    pub cursor: RuntimeClientTranscriptCursor,
    pub item: RuntimeClientTranscriptItem,
    pub completed_response: Option<CompletedResponseView>,
    pub completed_process: Option<CompletedProcessView>,
    pub response_pending: bool,
}

/// One window of the transcript.
#[derive(Debug, Clone, PartialEq, Eq)]
pub struct RuntimeClientTranscriptPage {
    pub entries: Vec<RuntimeClientTranscriptEntry>,
    pub next_cursor: Option<RuntimeClientTranscriptCursor>,
    pub statistics: Option<ConversationStatistics>,
}

#[verifier::ext_equal]
pub struct TranscriptPageModel {
    pub entries: Seq<RuntimeClientTranscriptEntry>,
    pub next_cursor: Option<RuntimeClientTranscriptCursor>,
    pub statistics: Option<ConversationStatistics>,
}

impl View for RuntimeClientTranscriptPage {
    type V = TranscriptPageModel;

    open spec fn view(&self) -> TranscriptPageModel {
        TranscriptPageModel {
            entries: self.entries@,
            next_cursor: self.next_cursor,
            statistics: self.statistics,
        }
    }
}

impl TranscriptPageModel {
    /// A window on nothing.
    pub open spec fn empty() -> Self {
        TranscriptPageModel { entries: Seq::empty(), next_cursor: None, statistics: None }
    }
}

impl Default for RuntimeClientTranscriptPage {
    fn default() -> (page: Self)
        ensures
            page@ == TranscriptPageModel::empty(),
    {
        RuntimeClientTranscriptPage { entries: Vec::new(), next_cursor: None, statistics: None }
    }
}

/// Everything that a client sees of a conversation.
#[derive(Debug, PartialEq, Eq)]
pub struct RuntimeClientSnapshot {
    pub conversation_id: ConversationId,
    pub shutting_down: bool,
    pub effective_approval_mode: ApprovalMode,
    pub pending_approval_mode: Option<ApprovalMode>,
    pub approval_mode_revision: u64,
    pub durability_failure: Option<RuntimeDurabilityFailure>,
    pub messages: Vec<Arc<MessageBlock>>,
    pub transcript: Arc<RuntimeClientTranscriptPage>,
    pub attempt: Option<RuntimeClientAttempt>,
    pub inbound: InboundDiagnostics,
    pub pending_interactions: Vec<Arc<RoutedInteraction>>,
    pub background: Vec<Arc<RuntimeClientBackgroundExecution>>,
    pub subagents: Vec<Arc<RuntimeClientSubagent>>,
    pub statuses: Vec<Arc<AgentStatusView>>,
    pub context: RuntimeClientContextView,
    pub capabilities: Arc<CapabilityView>,
    pub resources: Arc<RuntimeClientResourcesView>,
    pub model: Arc<SessionModelView>,
    pub todos: Arc<TodoSnapshot>,
}

#[verifier::ext_equal]
pub struct SnapshotModel {
    pub conversation_id: ConversationId,
    pub shutting_down: bool,
    pub effective_approval_mode: ApprovalMode,
    pub pending_approval_mode: Option<ApprovalMode>,
    pub approval_mode_revision: u64,
    pub durability_failure: Option<RuntimeDurabilityFailure>,
    pub messages: Seq<Arc<MessageBlock>>,
    pub transcript: TranscriptPageModel,
    pub attempt: Option<AttemptModel>,
    pub inbound_pending: Seq<InboundItemView>,
    pub last_drain: Option<InboundDrainView>,
    pub pending_interactions: Seq<Arc<RoutedInteraction>>,
    pub background: Seq<Arc<RuntimeClientBackgroundExecution>>,
    pub subagents: Seq<Arc<RuntimeClientSubagent>>,
    pub statuses: Seq<StatusModel>,
    pub context: RuntimeClientContextView,
    pub capabilities: CapabilityModel,
    pub resources: ResourcesModel,
    pub model: Arc<SessionModelView>,
    pub todos: Seq<crate::observation::TodoTask>,
}

/// The value of an attempt, where there is one.
pub open spec fn attempt_model(attempt: Option<RuntimeClientAttempt>) -> Option<AttemptModel> {
    match attempt {
        Some(attempt) => Some(attempt@),
        None => None,
    }
}

impl View for RuntimeClientSnapshot {
    type V = SnapshotModel;

    open spec fn view(&self) -> SnapshotModel {
        SnapshotModel {
            conversation_id: self.conversation_id,
            shutting_down: self.shutting_down,
            effective_approval_mode: self.effective_approval_mode,
            pending_approval_mode: self.pending_approval_mode,
            approval_mode_revision: self.approval_mode_revision,
            durability_failure: self.durability_failure,
            messages: self.messages@,
            transcript: self.transcript@,
            attempt: attempt_model(self.attempt),
            inbound_pending: self.inbound.pending@,
            last_drain: self.inbound.last_drain,
            pending_interactions: self.pending_interactions@,
            background: self.background@,
            subagents: self.subagents@,
            statuses: status_models(self.statuses@),
            context: self.context,
            capabilities: self.capabilities@,
            resources: self.resources@,
            model: self.model,
            todos: self.todos@,
        }
    }
}

impl Clone for RuntimeClientSnapshot {
    fn clone(&self) -> (copy: Self)
        ensures
            copy@ == self@,
    {
        let pending = self.inbound.pending.clone();
        assert(pending@ =~= self.inbound.pending@);
        RuntimeClientSnapshot {
            conversation_id: self.conversation_id.clone(),
            shutting_down: self.shutting_down,
            effective_approval_mode: self.effective_approval_mode,
            pending_approval_mode: self.pending_approval_mode,
            approval_mode_revision: self.approval_mode_revision,
            durability_failure: match &self.durability_failure {
                Some(failure) => Some(failure.clone()),
                None => None,
            },
            messages: share_all(&self.messages),
            transcript: share(&self.transcript),
            attempt: match &self.attempt {
                Some(attempt) => Some(attempt.clone()),
                None => None,
            },
            inbound: InboundDiagnostics { pending, last_drain: self.inbound.last_drain },
            pending_interactions: share_all(&self.pending_interactions),
            background: share_all(&self.background),
            subagents: share_all(&self.subagents),
            statuses: share_all(&self.statuses),
            context: self.context.clone(),
            capabilities: share(&self.capabilities),
            resources: share(&self.resources),
            model: share(&self.model),
            todos: share(&self.todos),
        }
    }
}

} // verus!
