//! What the conversation runtime reports.
use std::sync::Arc;

use vstd::prelude::*;

use crate::clock::Timestamp;
use crate::identity::{
    AgentId, AttemptId, ConversationId, MessageId, ServerId, SkillId, SkillVersionId, SubagentId,
    ToolCallId, ToolExecutionId, ToolId,
};
use crate::interaction::{InteractionOutcome, InteractionRef, RoutedInteraction};
use crate::journal::RuntimeEvent;
use crate::message::{MessageBlock, UserMessageBlock};
use crate::model::{AttemptModelView, SessionModelView};
use crate::publication::{PublicationAudit, PublicationFrame, PublicationStreamStart};
use crate::snapshot::{
    CapabilityRevision, RuntimeClientTranscriptInteractionRequested,
    RuntimeClientTranscriptInteractionSettled, RuntimeClientTranscriptPage, RuntimeResourceRevision,
};
use crate::tool::{ToolDefinition, ToolExecutionResult, ToolProgress};

verus! {

/// A position in the durable transcript.
#[derive(Debug, Clone, Copy, PartialEq, Eq, Structural)]
pub struct TranscriptCursor {
    pub value: u64,
}

impl TranscriptCursor {
    pub fn new(value: u64) -> (cursor: Self)
        ensures
            cursor.value == value,
    {
        TranscriptCursor { value }
    }
}

/// A place in the mailbox.
#[derive(Debug, Clone, Copy, PartialEq, Eq, Structural)]
pub struct InboundSequence {
    pub value: u64,
}

impl InboundSequence {
    pub fn new(value: u64) -> (sequence: Self)
        ensures
            sequence.value == value,
    {
        InboundSequence { value }
    }

    pub fn get(&self) -> (value: u64)
        ensures
            value == self.value,
    {
        self.value
    }
}

/// An offset from universal time.
#[derive(Debug, Clone, Copy, PartialEq, Eq, Structural)]
pub struct UtcOffset {
    pub seconds: i32,
}

/// Whether tools ask before they run.
#[derive(Debug, Clone, Copy, PartialEq, Eq, Structural)]
pub enum ApprovalMode {
    Policy,
    AutoApprove,
    AlwaysAsk,
}

/// The state of the approval control.
#[derive(Debug, Clone, Copy, PartialEq, Eq, Structural)]
pub struct ApprovalModeState {
    pub effective: ApprovalMode,
    pub desired: ApprovalMode,
    pub revision: u64,
}

/// Where detached work stands.
#[derive(Debug, Clone, Copy, PartialEq, Eq, Structural)]
pub enum BackgroundLifecycle {
    Starting,
    Running,
    Cancelling,
    Succeeded,
    Failed,
    Cancelled,
    TimedOut,
    OutcomeUnknown,
}

/// The registry's record of one piece of detached work.
#[derive(Debug, Clone, PartialEq, Eq)]
pub struct BackgroundExecutionSnapshot {
    pub execution_id: ToolExecutionId,
    pub tool_id: ToolId,
    pub tool_name: String,
    pub state: BackgroundLifecycle,
    pub progress: Option<ToolProgress>,
    pub result: Option<Arc<ToolExecutionResult>>,
}

/// Where a subagent stands.
#[derive(Debug, Clone, Copy, PartialEq, Eq, Structural)]
pub enum SubagentState {
    Starting,
    Running,
    Succeeded,
    Failed,
    Cancelled,
}

impl SubagentState {
    /// Whether the subagent has ended.
    pub open spec fn is_terminal_spec(self) -> bool {
        self is Succeeded || self is Failed || self is Cancelled
    }

    /// Whether the subagent has ended.
    pub fn is_terminal(&self) -> (terminal: bool)
        ensures
            terminal == self.is_terminal_spec(),
    {
        match self {
            SubagentState::Starting | SubagentState::Running => false,
            SubagentState::Succeeded | SubagentState::Failed | SubagentState::Cancelled => true,
        }
    }
}

/// What became of the workspace of a subagent.
#[derive(Debug, Clone, Copy, PartialEq, Eq, Structural)]
pub enum SubagentWorkspaceResourceState {
    Absent,
    Active,
    Retained,
    Disposed,
}

/// What a subagent is doing.
#[derive(Debug, Clone, PartialEq, Eq)]
pub enum SubagentActivity {
    Idle,
    Thinking,
    Tool { tool_call_id: ToolCallId, tool_id: ToolId, progress: Option<ToolProgress> },
}

/// A summary of what a subagent does.
#[derive(Debug, Clone, PartialEq, Eq)]
pub struct SubagentObservation {
    pub revision: u64,
    pub activity: SubagentActivity,
    pub tool_executions: u64,
    pub model_requests: u64,
}

/// The model that a subagent runs on, without credentials.
#[derive(Debug, Clone, PartialEq, Eq)]
pub struct SubagentExecutionProfile {
    pub model: String,
    pub reasoning_profile: Option<String>,
    pub reasoning_enabled: bool,
}

/// A worktree of a repository.
#[derive(Debug, Clone, PartialEq, Eq)]
pub struct GitWorktree {
    pub source_repository_root: String,
    pub repository_relative_workspace: String,
    pub physical_worktree_root: String,
    pub base_commit: String,
    pub branch: String,
    pub parent_had_uncommitted_changes: bool,
}

#[derive(Debug, Clone, PartialEq, Eq)]
pub enum WorkspaceIsolation {
    Shared,
    GitWorktree(GitWorktree),
}

#[derive(Debug, Clone, PartialEq, Eq)]
pub struct WorkspaceSnapshot {
    pub logical_workspace: String,
    pub isolation: WorkspaceIsolation,
}

#[derive(Debug, Clone, PartialEq, Eq)]
pub struct WorkspaceHandoff {
    pub logical_workspace: String,
    pub physical_worktree_root: String,
    pub branch: String,
    pub base_commit: String,
    pub head_commit: String,
    pub dirty: bool,
}

/// The registry's record of one subagent.
#[derive(Debug, Clone, PartialEq, Eq)]
pub struct SubagentSnapshot {
    pub subagent_id: SubagentId,
    pub child_agent_id: AgentId,
    pub child_conversation_id: ConversationId,
    pub tool_call_id: ToolCallId,
    pub agent: String,
    pub definition_digest: String,
    pub workspace: WorkspaceSnapshot,
    pub handoff: Option<WorkspaceHandoff>,
    pub workspace_resource_state: SubagentWorkspaceResourceState,
    pub state: SubagentState,
    pub detail: Option<String>,
    pub observation: Arc<SubagentObservation>,
    pub profile: Option<Arc<SubagentExecutionProfile>>,
    pub started_at: Timestamp,
}

/// Where a task stands.
#[derive(Debug, Clone, Copy, PartialEq, Eq, Structural)]
pub enum TodoTaskStatus {
    Pending,
    InProgress,
    Completed,
    Deleted,
}

/// One task of the conversation's list.
#[derive(Debug, Clone, PartialEq, Eq)]
pub struct TodoTask {
    pub id: u64,
    pub subject: String,
    pub status: TodoTaskStatus,
}

/// The conversation's list of tasks.
#[derive(Debug, Clone, PartialEq, Eq)]
pub struct TodoSnapshot {
    pub tasks: Vec<TodoTask>,
}

impl View for TodoSnapshot {
    type V = Seq<TodoTask>;

    open spec fn view(&self) -> Seq<TodoTask> {
        self.tasks@
    }
}

impl TodoSnapshot {
    /// The list without tasks.
    pub fn empty() -> (todos: Self)
        ensures
            todos@ == Seq::<TodoTask>::empty(),
    {
        TodoSnapshot { tasks: Vec::new() }
    }
}

/// One message that was accepted into the mailbox.
#[derive(Debug, Clone, PartialEq, Eq)]
pub struct InboundItem {
    pub sequence: InboundSequence,
    pub message: Arc<UserMessageBlock>,
    /// The transcript position, which a hidden message does not have.
    pub transcript_cursor: Option<TranscriptCursor>,
}

/// What one drain took from the mailbox.
#[derive(Debug, Clone, PartialEq, Eq)]
pub struct InboundBatch {
    pub watermark: InboundSequence,
    pub items: Vec<InboundItem>,
}

/// One skill of the catalog.
#[derive(Debug, Clone, PartialEq, Eq)]
pub struct SkillCatalogEntry {
    pub name: String,
    pub description: String,
    pub location: String,
}

/// The identity of a visible skill.
#[derive(Debug, Clone, PartialEq, Eq)]
pub struct SkillBinding {
    pub skill_id: SkillId,
    pub version_id: SkillVersionId,
}

/// The executable capabilities, in the order of their registries.
#[derive(Debug, Clone, PartialEq, Eq)]
pub struct CapabilitySnapshot {
    pub revision: CapabilityRevision,
    pub tool_registry: Vec<ToolDefinition>,
    pub available_tools: Vec<ToolDefinition>,
    pub skill_entries: Vec<SkillCatalogEntry>,
    pub skill_bindings: Vec<SkillBinding>,
}

/// A source of capabilities.
#[derive(Debug, Clone, PartialEq, Eq)]
pub enum CapabilitySourceId {
    Mcp(ServerId),
}

/// Whether a source of capabilities can be used.
#[derive(Debug, Clone, PartialEq, Eq)]
pub enum CapabilitySourceState {
    Ready,
    Unavailable { reason: String },
}

/// The state of one source.
#[derive(Debug, Clone, PartialEq, Eq)]
pub struct CapabilitySourceAvailability {
    pub source: CapabilitySourceId,
    pub state: CapabilitySourceState,
}

/// The state of every source, in the order of the sources' identities.
#[derive(Debug, Clone, PartialEq, Eq)]
pub struct CapabilityAvailability {
    pub sources: Vec<CapabilitySourceAvailability>,
}

/// A file that the runtime loaded.
#[derive(Debug, Clone, PartialEq, Eq)]
pub struct ContextFile {
    pub path: String,
    pub content: String,
}

/// One generation of the runtime's resources.
#[derive(Debug, Clone, PartialEq, Eq)]
pub struct RuntimeResourceSnapshot {
    pub revision: RuntimeResourceRevision,
    pub project_context_files: Vec<ContextFile>,
    pub agent_profile: Option<String>,
    /// The capabilities that were built against this generation.
    pub capability: CapabilitySnapshot,
}

/// A task as a status shows it.
#[derive(Debug, Clone, PartialEq, Eq)]
pub struct TodoStatusTask {
    pub id: u64,
    pub subject: String,
    pub active_form: Option<String>,
    pub status: TodoTaskStatus,
    pub blocked: bool,
}

/// The list of tasks as a status shows it.
#[derive(Debug, Clone, PartialEq, Eq)]
pub struct TodoStatusPresentation {
    pub current: Option<TodoStatusTask>,
    pub tasks: Vec<TodoStatusTask>,
    pub active_count: u64,
    pub blocked_count: u64,
    pub completed_count: u64,
    pub deleted_count: u64,
    pub omitted_count: u64,
}

/// What one section of a status says.
#[derive(Debug, Clone, PartialEq, Eq)]
pub enum AgentStatusSectionData {
    Temporal { current_time: Timestamp, timezone: UtcOffset },
    BackgroundExecution { executions: Vec<BackgroundExecutionSnapshot>, omitted_count: u64 },
    Todo { presentation: TodoStatusPresentation },
}

/// A status as it was composed, with the text that the model gets.
#[derive(Debug, Clone, PartialEq, Eq)]
pub struct AgentStatus {
    pub generated_at: Timestamp,
    pub sections: Vec<AgentStatusSectionData>,
    pub rendered: String,
}

#[derive(Debug, Clone, PartialEq, Eq)]
pub struct FreshInboundStatusOpportunity {
    pub target_message_id: MessageId,
}

#[derive(Debug, Clone, Copy, PartialEq, Eq)]
pub struct PostToolBatchStatusOpportunity;

/// What a status was composed for.
#[derive(Debug, Clone, PartialEq, Eq)]
pub struct AgentStatusOpportunitySet {
    pub fresh_inbound: Option<FreshInboundStatusOpportunity>,
    pub post_tool_batch: Option<PostToolBatchStatusOpportunity>,
}

/// One composition of a status.
#[derive(Debug, Clone, PartialEq, Eq)]
pub struct AgentStatusObservation {
    pub attempt_id: AttemptId,
    pub turn: u32,
    pub status_message_id: MessageId,
    pub opportunities: AgentStatusOpportunitySet,
    /// The transcript position that the tool batch froze when it was committed.
    pub post_tool_batch_anchor: Option<TranscriptCursor>,
    pub status: AgentStatus,
}

/// One report of the runtime.
#[derive(Debug, Clone, PartialEq, Eq)]
pub enum ConversationObservation {
    Event { attempt_id: AttemptId, event: RuntimeEvent },
    ManualCompactionEvent { event: RuntimeEvent },
    /// A message became canonical. A message that publishes a list of tasks comes with
    /// the list, if it could be read.
    Committed {
        attempt_id: Option<AttemptId>,
        block: Arc<MessageBlock>,
        published_todos: Option<Arc<TodoSnapshot>>,
        transcript_cursor: Option<TranscriptCursor>,
    },
    PublicationOpened { attempt_id: AttemptId, start: PublicationStreamStart },
    Publication { attempt_id: AttemptId, frame: PublicationFrame },
    PublicationSettled {
        attempt_id: AttemptId,
        audit: Arc<PublicationAudit>,
        transcript_cursor: TranscriptCursor,
    },
    Status(AgentStatusObservation),
    InboundEnqueued(InboundItem),
    InboundDrained(InboundBatch),
    InteractionPending {
        interaction: Arc<RoutedInteraction>,
        audit: Option<(Arc<RuntimeClientTranscriptInteractionRequested>, TranscriptCursor)>,
    },
    InteractionSettled {
        interaction: InteractionRef,
        outcome: InteractionOutcome,
        audit: Option<(Arc<RuntimeClientTranscriptInteractionSettled>, TranscriptCursor)>,
    },
    InteractionRemoved { interaction: InteractionRef },
    Background(BackgroundExecutionSnapshot),
    ToolProgress {
        attempt_id: AttemptId,
        tool_call_id: ToolCallId,
        tool_id: ToolId,
        progress: ToolProgress,
    },
    SubagentLifecycle(SubagentSnapshot),
    SubagentWorkspace(SubagentSnapshot),
    SubagentActivity(SubagentSnapshot),
    Capability { snapshot: CapabilitySnapshot, availability: CapabilityAvailability },
    Resources { snapshot: RuntimeResourceSnapshot, availability: CapabilityAvailability },
    AttemptAdmitted { attempt_id: AttemptId },
    AttemptModelFrozen { attempt_id: AttemptId, model: Arc<AttemptModelView> },
    SessionModelChanged { model: Arc<SessionModelView> },
    ApprovalModeChanged { effective: ApprovalMode, pending: Option<ApprovalMode>, revision: u64 },
    Shutdown,
    /// A failure of the durable authority that is tried again.
    DurableFailure { operation: String, diagnostic: String },
    /// A failure of the durable authority that stays.
    DurabilityFailed { operation: String, diagnostic: String },
}

/// Everything that is true of a runtime at the moment before it is activated.
#[derive(Debug, Clone, PartialEq, Eq)]
pub struct RuntimeBootstrapSnapshot {
    pub conversation_id: ConversationId,
    pub messages: Vec<Arc<MessageBlock>>,
    pub transcript: Arc<RuntimeClientTranscriptPage>,
    pub shutting_down: bool,
    pub approval_mode: ApprovalModeState,
    pub inbound_pending: Vec<InboundItem>,
    pub pending_interactions: Vec<Arc<RoutedInteraction>>,
    pub background: Vec<BackgroundExecutionSnapshot>,
    pub subagents: Vec<SubagentSnapshot>,
    pub capabilities: CapabilitySnapshot,
    pub availability: CapabilityAvailability,
    pub resources: RuntimeResourceSnapshot,
    pub model: Arc<SessionModelView>,
    pub todos: Arc<TodoSnapshot>,
}

} // verus!
