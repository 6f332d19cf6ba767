//! What a client sees of the runtime's own records.
use vstd::prelude::*;

use crate::event::RuntimeClientAttemptFailure;
use crate::message::ContentBlockIndex;
use crate::model::AttemptFailure;
use crate::observation::{
    AgentStatusObservation, AgentStatusSectionData, BackgroundExecutionSnapshot,
    CapabilityAvailability, CapabilitySnapshot, CapabilitySourceAvailability, CapabilitySourceId,
    CapabilitySourceState, InboundItem, RuntimeResourceSnapshot, SkillBinding, SkillCatalogEntry,
    SubagentSnapshot, TodoStatusTask, WorkspaceHandoff, WorkspaceIsolation,
};
use crate::share::{share, share_optional};
#[allow(unused_imports)]
use crate::snapshot::{CapabilityModel, ResourcesModel, StatusModel, StatusSectionModel};
use crate::snapshot::{
    AgentStatusOpportunityView, AgentStatusView, CapabilitySourceDescriptor,
    CapabilitySourceStateView, CapabilitySourceView, CapabilityView, ForegroundToolState,
    FreshInboundStatusOpportunityView, InFlightBlock, InboundItemView,
    PostToolBatchStatusOpportunityView, RuntimeClientBackgroundExecution, RuntimeClientContextFile,
    RuntimeClientResourcesView, RuntimeClientSkill, RuntimeClientStatusSection,
    RuntimeClientSubagent, RuntimeClientSubagentWorkspace, RuntimeClientTodoStatusTask,
    RuntimeClientTool, RuntimeClientTranscriptCursor, RuntimeClientWorkspaceHandoff,
    RuntimeClientWorkspaceIsolation,
};
use crate::tool::{ToolDefinition, ToolProgress};

verus! {

/// A copy of an optional text.
fn copy_text(text: &Option<String>) -> (copy: Option<String>)
    ensures
        copy == *text,
{
    match text {
        Some(text) => Some(text.clone()),
        None => None,
    }
}

/// A copy of an optional report.
pub(crate) fn copy_progress(progress: &Option<ToolProgress>) -> (copy: Option<ToolProgress>)
    ensures
        copy == *progress,
{
    match progress {
        Some(progress) => Some(progress.clone()),
        None => None,
    }
}

/// The place of a block in the message that is being written.
pub fn block_index_of(block: &InFlightBlock) -> (index: ContentBlockIndex)
    ensures
        index == block@.index(),
{
    match block {
        InFlightBlock::Text { block_index, .. } => *block_index,
        InFlightBlock::Reasoning { block_index, .. } => *block_index,
        InFlightBlock::Refusal { block_index, .. } => *block_index,
        InFlightBlock::ToolCall { block_index, .. } => *block_index,
    }
}

/// The arguments of a tool call, as far as they are known.
pub fn arguments_of(state: &ForegroundToolState) -> (arguments: String)
    ensures
        arguments@ == state@.arguments(),
{
    match state {
        ForegroundToolState::Assembled { arguments } => arguments.clone(),
        ForegroundToolState::Running { arguments, .. } => arguments.clone(),
        ForegroundToolState::Settled { arguments, .. } => arguments.clone(),
    }
}

/// What a client is told of a failure: of a model's failure its kind, its message and
/// when to try again, of a runtime's failure all of it.
pub open spec fn client_failure_spec(failure: AttemptFailure) -> RuntimeClientAttemptFailure {
    match failure {
        AttemptFailure::Model { error } => RuntimeClientAttemptFailure::Model {
            kind: error.kind,
            message: error.message,
            retry_after_ms: error.retry_after_ms,
        },
        AttemptFailure::Runtime { error } => RuntimeClientAttemptFailure::Runtime { error },
    }
}

/// What a client is told of a failure, without what only the provider would say.
pub fn client_failure(failure: &AttemptFailure) -> (shown: RuntimeClientAttemptFailure)
    ensures
        shown == client_failure_spec(*failure),
{
    match failure {
        AttemptFailure::Model { error } => RuntimeClientAttemptFailure::Model {
            kind: error.kind,
            message: error.message.clone(),
            retry_after_ms: error.retry_after_ms,
        },
        AttemptFailure::Runtime { error } => RuntimeClientAttemptFailure::Runtime {
            error: error.clone(),
        },
    }
}

/// A message of the mailbox as a client sees it.
pub open spec fn inbound_item_view_spec(item: InboundItem) -> InboundItemView {
    InboundItemView { sequence: item.sequence, message: item.message }
}

/// A message of the mailbox as a client sees it.
pub fn inbound_item_view(item: &InboundItem) -> (view: InboundItemView)
    ensures
        view == inbound_item_view_spec(*item),
{
    InboundItemView { sequence: item.sequence, message: share(&item.message) }
}

/// Detached work as a client sees it: all that the registry records of it.
pub open spec fn background_view_spec(
    snapshot: BackgroundExecutionSnapshot,
) -> RuntimeClientBackgroundExecution {
    RuntimeClientBackgroundExecution {
        execution_id: snapshot.execution_id,
        tool_id: snapshot.tool_id,
        tool_name: snapshot.tool_name,
        state: snapshot.state,
        progress: snapshot.progress,
        result: snapshot.result,
    }
}

/// Detached work as a client sees it.
pub fn background_view(
    snapshot: &BackgroundExecutionSnapshot,
) -> (view: RuntimeClientBackgroundExecution)
    ensures
        view == background_view_spec(*snapshot),
{
    RuntimeClientBackgroundExecution {
        execution_id: snapshot.execution_id.clone(),
        tool_id: snapshot.tool_id.clone(),
        tool_name: snapshot.tool_name.clone(),
        state: snapshot.state,
        progress: copy_progress(&snapshot.progress),
        result: share_optional(&snapshot.result),
    }
}

/// A tool as a client sees it.
pub open spec fn tool_view_spec(definition: ToolDefinition) -> RuntimeClientTool {
    RuntimeClientTool {
        id: definition.id,
        name: definition.name,
        description: definition.description,
        input_schema: definition.input_schema,
        execution_policy: definition.execution_policy,
        concurrency_policy: definition.concurrency_policy,
        approval_policy: definition.approval_policy,
        replay_policy: definition.replay_policy,
        origin: definition.origin,
    }
}

/// Tools as a client sees them, in the order of their registry.
pub open spec fn tool_views_spec(definitions: Seq<ToolDefinition>) -> Seq<RuntimeClientTool> {
    Seq::new(definitions.len(), |i: int| tool_view_spec(definitions[i]))
}

fn tool_view(definition: &ToolDefinition) -> (view: RuntimeClientTool)
    ensures
        view == tool_view_spec(*definition),
{
    RuntimeClientTool {
        id: definition.id.clone(),
        name: definition.name.clone(),
        description: definition.description.clone(),
        input_schema: definition.input_schema.clone(),
        execution_policy: definition.execution_policy,
        concurrency_policy: definition.concurrency_policy,
        approval_policy: definition.approval_policy,
        replay_policy: definition.replay_policy,
        origin: definition.origin.clone(),
    }
}

fn tool_views(definitions: &Vec<ToolDefinition>) -> (views: Vec<RuntimeClientTool>)
    ensures
        views@ == tool_views_spec(definitions@),
{
    let mut views: Vec<RuntimeClientTool> = Vec::new();
    let mut i: usize = 0;
    while i < definitions.len()
        invariant
            i <= definitions.len(),
            views@ =~= tool_views_spec(definitions@.take(i as int)),
        decreases definitions.len() - i,
    {
        views.push(tool_view(&definitions[i]));
        i += 1;
    }
    assert(definitions@.take(i as int) =~= definitions@);
    views
}

/// A skill as a client sees it: its identity from the binding, the rest from the
/// catalog.
pub open spec fn skill_view_spec(
    entry: SkillCatalogEntry,
    binding: SkillBinding,
) -> RuntimeClientSkill {
    RuntimeClientSkill {
        id: binding.skill_id,
        version_id: binding.version_id,
        name: entry.name,
        description: entry.description,
        location: entry.location,
    }
}

/// Skills as a client sees them: entry and binding by place, as far as both go.
pub open spec fn skill_views_spec(
    entries: Seq<SkillCatalogEntry>,
    bindings: Seq<SkillBinding>,
) -> Seq<RuntimeClientSkill> {
    Seq::new(
        if entries.len() < bindings.len() {
            entries.len()
        } else {
            bindings.len()
        },
        |i: int| skill_view_spec(entries[i], bindings[i]),
    )
}

fn skill_views(
    entries: &Vec<SkillCatalogEntry>,
    bindings: &Vec<SkillBinding>,
) -> (views: Vec<RuntimeClientSkill>)
    ensures
        views@ == skill_views_spec(entries@, bindings@),
{
    let mut views: Vec<RuntimeClientSkill> = Vec::new();
    let mut i: usize = 0;
    while i < entries.len() && i < bindings.len()
        invariant
            i <= entries.len(),
            i <= bindings.len(),
            views@ =~= skill_views_spec(entries@.take(i as int), bindings@.take(i as int)),
        decreases entries.len() - i,
    {
        views.push(
            RuntimeClientSkill {
                id: bindings[i].skill_id.clone(),
                version_id: bindings[i].version_id.clone(),
                name: entries[i].name.clone(),
                description: entries[i].description.clone(),
                location: entries[i].location.clone(),
            },
        );
        i += 1;
    }
    assert(views@ =~= skill_views_spec(entries@, bindings@));
    views
}

/// A source of capabilities as a client sees it.
pub open spec fn source_view_spec(availability: CapabilitySourceAvailability) -> CapabilitySourceView {
    CapabilitySourceView {
        source: match availability.source {
            CapabilitySourceId::Mcp(server_id) => CapabilitySourceDescriptor::Mcp { server_id },
        },
        state: match availability.state {
            CapabilitySourceState::Ready => CapabilitySourceStateView::Ready,
            CapabilitySourceState::Unavailable { reason } => CapabilitySourceStateView::Unavailable {
                reason,
            },
        },
    }
}

/// The sources of capabilities as a client sees them, in their order.
pub open spec fn source_views_spec(sources: Seq<CapabilitySourceAvailability>) -> Seq<
    CapabilitySourceView,
> {
    Seq::new(sources.len(), |i: int| source_view_spec(sources[i]))
}

fn source_view(availability: &CapabilitySourceAvailability) -> (view: CapabilitySourceView)
    ensures
        view == source_view_spec(*availability),
{
    CapabilitySourceView {
        source: match &availability.source {
            CapabilitySourceId::Mcp(server_id) => CapabilitySourceDescriptor::Mcp {
                server_id: server_id.clone(),
            },
        },
        state: match &availability.state {
            CapabilitySourceState::Ready => CapabilitySourceStateView::Ready,
            CapabilitySourceState::Unavailable { reason } => CapabilitySourceStateView::Unavailable {
                reason: reason.clone(),
            },
        },
    }
}

fn source_views(sources: &Vec<CapabilitySourceAvailability>) -> (views: Vec<CapabilitySourceView>)
    ensures
        views@ == source_views_spec(sources@),
{
    let mut views: Vec<CapabilitySourceView> = Vec::new();
    let mut i: usize = 0;
    while i < sources.len()
        invariant
            i <= sources.len(),
            views@ =~= source_views_spec(sources@.take(i as int)),
        decreases sources.len() - i,
    {
        views.push(source_view(&sources[i]));
        i += 1;
    }
    assert(sources@.take(i as int) =~= sources@);
    views
}

/// The capabilities as a client sees them.
pub open spec fn capability_view_spec(
    snapshot: CapabilitySnapshot,
    availability: CapabilityAvailability,
) -> CapabilityModel {
    CapabilityModel {
        revision: snapshot.revision,
        tools: tool_views_spec(snapshot.tool_registry@),
        available_tools: tool_views_spec(snapshot.available_tools@),
        skills: skill_views_spec(snapshot.skill_entries@, snapshot.skill_bindings@),
        sources: source_views_spec(availability.sources@),
    }
}

/// The capabilities as a client sees them.
///
/// Tools keep the order of their registry, skills that of their catalog, and sources
/// the order of the sources' identities. No executor and no path of a file system
/// appears.
pub fn capability_view(
    snapshot: &CapabilitySnapshot,
    availability: &CapabilityAvailability,
) -> (view: CapabilityView)
    ensures
        view@ == capability_view_spec(*snapshot, *availability),
{
    CapabilityView {
        revision: snapshot.revision,
        tools: tool_views(&snapshot.tool_registry),
        available_tools: tool_views(&snapshot.available_tools),
        skills: skill_views(&snapshot.skill_entries, &snapshot.skill_bindings),
        sources: source_views(&availability.sources),
    }
}

/// The length of a text in bytes.
pub open spec fn byte_length(text: Seq<char>) -> u64 {
    vstd::utf8::encode_utf8(text).len() as usize as u64
}

/// The resources as a client sees them: paths and lengths, never content.
pub open spec fn resources_view_spec(resources: RuntimeResourceSnapshot) -> ResourcesModel {
    ResourcesModel {
        revision: resources.revision,
        context_files: Seq::new(
            resources.project_context_files@.len(),
            |i: int|
                RuntimeClientContextFile {
                    path: resources.project_context_files@[i].path,
                    bytes: byte_length(resources.project_context_files@[i].content@),
                },
        ),
        agent_profile: resources.agent_profile is Some,
    }
}

/// The resources as a client sees them: paths and lengths, never content.
pub fn resources_view(resources: &RuntimeResourceSnapshot) -> (view: RuntimeClientResourcesView)
    ensures
        view@ == resources_view_spec(*resources),
{
    let files = &resources.project_context_files;
    let mut context_files: Vec<RuntimeClientContextFile> = Vec::new();
    let mut i: usize = 0;
    while i < files.len()
        invariant
            i <= files.len(),
            files == &resources.project_context_files,
            context_files@.len() == i,
            forall|k: int|
                0 <= k < i ==> context_files@[k] == #[trigger] resources_view_spec(
                    *resources,
                ).context_files[k],
        decreases files.len() - i,
    {
        let length: usize = files[i].content.as_str().len();
        context_files.push(
            RuntimeClientContextFile { path: files[i].path.clone(), bytes: length as u64 },
        );
        i += 1;
    }
    assert(context_files@ =~= resources_view_spec(*resources).context_files);
    RuntimeClientResourcesView {
        revision: resources.revision,
        context_files,
        agent_profile: resources.agent_profile.is_some(),
    }
}

/// What a subagent leaves in its workspace, as a client sees it.
pub open spec fn handoff_view_spec(handoff: WorkspaceHandoff) -> RuntimeClientWorkspaceHandoff {
    RuntimeClientWorkspaceHandoff {
        logical_workspace: handoff.logical_workspace,
        physical_worktree_root: handoff.physical_worktree_root,
        branch: handoff.branch,
        base_commit: handoff.base_commit,
        head_commit: handoff.head_commit,
        dirty: handoff.dirty,
    }
}

/// How a workspace is kept apart, as a client sees it.
pub open spec fn isolation_view_spec(
    isolation: WorkspaceIsolation,
) -> RuntimeClientWorkspaceIsolation {
    match isolation {
        WorkspaceIsolation::Shared => RuntimeClientWorkspaceIsolation::Shared,
        WorkspaceIsolation::GitWorktree(
            worktree,
        ) => RuntimeClientWorkspaceIsolation::GitWorktree {
            source_repository_root: worktree.source_repository_root,
            repository_relative_workspace: worktree.repository_relative_workspace,
            physical_worktree_root: worktree.physical_worktree_root,
            base_commit: worktree.base_commit,
            branch: worktree.branch,
            parent_had_uncommitted_changes: worktree.parent_had_uncommitted_changes,
        },
    }
}

/// A subagent as a client sees it. The call that made it is not shown.
pub open spec fn subagent_view_spec(snapshot: SubagentSnapshot) -> RuntimeClientSubagent {
    RuntimeClientSubagent {
        subagent_id: snapshot.subagent_id,
        child_agent_id: snapshot.child_agent_id,
        child_conversation_id: snapshot.child_conversation_id,
        agent: snapshot.agent,
        definition_digest: snapshot.definition_digest,
        state: snapshot.state,
        detail: snapshot.detail,
        observation: snapshot.observation,
        execution_profile: snapshot.profile,
        started_at: snapshot.started_at,
        workspace: RuntimeClientSubagentWorkspace {
            logical_workspace: snapshot.workspace.logical_workspace,
            isolation: isolation_view_spec(snapshot.workspace.isolation),
            resource_state: snapshot.workspace_resource_state,
            handoff: match snapshot.handoff {
                Some(handoff) => Some(handoff_view_spec(handoff)),
                None => None,
            },
        },
    }
}

/// A subagent as a client sees it.
pub fn subagent_view(snapshot: &SubagentSnapshot) -> (view: RuntimeClientSubagent)
    ensures
        view == subagent_view_spec(*snapshot),
{
    let isolation = match &snapshot.workspace.isolation {
        WorkspaceIsolation::Shared => RuntimeClientWorkspaceIsolation::Shared,
        WorkspaceIsolation::GitWorktree(
            worktree,
        ) => RuntimeClientWorkspaceIsolation::GitWorktree {
            source_repository_root: worktree.source_repository_root.clone(),
            repository_relative_workspace: worktree.repository_relative_workspace.clone(),
            physical_worktree_root: worktree.physical_worktree_root.clone(),
            base_commit: worktree.base_commit.clone(),
            branch: worktree.branch.clone(),
            parent_had_uncommitted_changes: worktree.parent_had_uncommitted_changes,
        },
    };
    let handoff = match &snapshot.handoff {
        Some(handoff) => Some(
            RuntimeClientWorkspaceHandoff {
                logical_workspace: handoff.logical_workspace.clone(),
                physical_worktree_root: handoff.physical_worktree_root.clone(),
                branch: handoff.branch.clone(),
                base_commit: handoff.base_commit.clone(),
                head_commit: handoff.head_commit.clone(),
                dirty: handoff.dirty,
            },
        ),
        None => None,
    };
    RuntimeClientSubagent {
        subagent_id: snapshot.subagent_id.clone(),
        child_agent_id: snapshot.child_agent_id.clone(),
        child_conversation_id: snapshot.child_conversation_id.clone(),
        agent: snapshot.agent.clone(),
        definition_digest: snapshot.definition_digest.clone(),
        state: snapshot.state,
        detail: copy_text(&snapshot.detail),
        observation: share(&snapshot.observation),
        execution_profile: share_optional(&snapshot.profile),
        started_at: snapshot.started_at,
        workspace: RuntimeClientSubagentWorkspace {
            logical_workspace: snapshot.workspace.logical_workspace.clone(),
            isolation,
            resource_state: snapshot.workspace_resource_state,
            handoff,
        },
    }
}

/// A task of a status as a client sees it.
pub open spec fn todo_status_task_view_spec(task: TodoStatusTask) -> RuntimeClientTodoStatusTask {
    RuntimeClientTodoStatusTask {
        id: task.id,
        subject: task.subject,
        active_form: task.active_form,
        status: task.status,
        blocked: task.blocked,
    }
}

/// A task of a status as a client sees it.
pub fn todo_status_task_view(task: &TodoStatusTask) -> (view: RuntimeClientTodoStatusTask)
    ensures
        view == todo_status_task_view_spec(*task),
{
    RuntimeClientTodoStatusTask {
        id: task.id,
        subject: task.subject.clone(),
        active_form: copy_text(&task.active_form),
        status: task.status,
        blocked: task.blocked,
    }
}

/// A section of a status as a client sees it.
pub open spec fn section_view_spec(section: AgentStatusSectionData) -> StatusSectionModel {
    match section {
        AgentStatusSectionData::Temporal {
            current_time,
            timezone,
        } => StatusSectionModel::Temporal { current_time, timezone },
        AgentStatusSectionData::BackgroundExecution {
            executions,
            omitted_count,
        } => StatusSectionModel::BackgroundExecutions {
            executions: Seq::new(
                executions@.len(),
                |i: int| background_view_spec(executions@[i]),
            ),
            omitted_count,
        },
        AgentStatusSectionData::Todo { presentation } => StatusSectionModel::Todo {
            current: match presentation.current {
                Some(task) => Some(todo_status_task_view_spec(task)),
                None => None,
            },
            tasks: Seq::new(
                presentation.tasks@.len(),
                |i: int| todo_status_task_view_spec(presentation.tasks@[i]),
            ),
            active_count: presentation.active_count,
            blocked_count: presentation.blocked_count,
            completed_count: presentation.completed_count,
            deleted_count: presentation.deleted_count,
            omitted_count: presentation.omitted_count,
        },
    }
}

fn background_views(
    executions: &Vec<BackgroundExecutionSnapshot>,
) -> (views: Vec<RuntimeClientBackgroundExecution>)
    ensures
        views@ == Seq::new(executions@.len(), |i: int| background_view_spec(executions@[i])),
{
    let mut views: Vec<RuntimeClientBackgroundExecution> = Vec::new();
    let mut i: usize = 0;
    while i < executions.len()
        invariant
            i <= executions.len(),
            views@ =~= Seq::new(i as nat, |k: int| background_view_spec(executions@[k])),
        decreases executions.len() - i,
    {
        views.push(background_view(&executions[i]));
        i += 1;
    }
    views
}

fn task_views(tasks: &Vec<TodoStatusTask>) -> (views: Vec<RuntimeClientTodoStatusTask>)
    ensures
        views@ == Seq::new(tasks@.len(), |i: int| todo_status_task_view_spec(tasks@[i])),
{
    let mut views: Vec<RuntimeClientTodoStatusTask> = Vec::new();
    let mut i: usize = 0;
    while i < tasks.len()
        invariant
            i <= tasks.len(),
            views@ =~= Seq::new(i as nat, |k: int| todo_status_task_view_spec(tasks@[k])),
        decreases tasks.len() - i,
    {
        views.push(todo_status_task_view(&tasks[i]));
        i += 1;
    }
    views
}

fn section_view(section: &AgentStatusSectionData) -> (view: RuntimeClientStatusSection)
    ensures
        view@ == section_view_spec(*section),
{
    match section {
        AgentStatusSectionData::Temporal {
            current_time,
            timezone,
        } => RuntimeClientStatusSection::Temporal {
            current_time: *current_time,
            timezone: *timezone,
        },
        AgentStatusSectionData::BackgroundExecution {
            executions,
            omitted_count,
        } => RuntimeClientStatusSection::BackgroundExecutions {
            executions: background_views(executions),
            omitted_count: *omitted_count,
        },
        AgentStatusSectionData::Todo { presentation } => RuntimeClientStatusSection::Todo {
            current: match &presentation.current {
                Some(task) => Some(todo_status_task_view(task)),
                None => None,
            },
            tasks: task_views(&presentation.tasks),
            active_count: presentation.active_count,
            blocked_count: presentation.blocked_count,
            completed_count: presentation.completed_count,
            deleted_count: presentation.deleted_count,
            omitted_count: presentation.omitted_count,
        },
    }
}

/// What a status was composed for, as a client sees it: a fresh message by its
/// identity, a tool batch by the position that the batch itself froze.
pub open spec fn opportunities_view_spec(
    observation: AgentStatusObservation,
) -> AgentStatusOpportunityView {
    AgentStatusOpportunityView {
        fresh_inbound: match observation.opportunities.fresh_inbound {
            Some(fresh) => Some(
                FreshInboundStatusOpportunityView { target_message_id: fresh.target_message_id },
            ),
            None => None,
        },
        post_tool_batch: match observation.opportunities.post_tool_batch {
            Some(_) => Some(
                PostToolBatchStatusOpportunityView {
                    transcript_anchor: RuntimeClientTranscriptCursor::of_optional_spec(
                        observation.post_tool_batch_anchor,
                    ),
                },
            ),
            None => None,
        },
    }
}

/// A composed status as a client sees it. It rests on the observation alone: nothing of
/// where the conversation stands when the status is seen enters it.
pub open spec fn status_view_spec(observation: AgentStatusObservation) -> StatusModel {
    StatusModel {
        attempt_id: observation.attempt_id,
        turn: observation.turn,
        status_message_id: observation.status_message_id,
        opportunities: opportunities_view_spec(observation),
        rendered: observation.status.rendered,
        sections: Seq::new(
            observation.status.sections@.len(),
            |i: int| section_view_spec(observation.status.sections@[i]),
        ),
    }
}

/// A composed status as a client sees it.
pub fn status_view(observation: &AgentStatusObservation) -> (view: AgentStatusView)
    ensures
        view@ == status_view_spec(*observation),
{
    let source = &observation.status.sections;
    let mut sections: Vec<RuntimeClientStatusSection> = Vec::new();
    let mut i: usize = 0;
    while i < source.len()
        invariant
            i <= source.len(),
            sections@.len() == i,
            forall|k: int| 0 <= k < i ==> (#[trigger] sections@[k])@ == section_view_spec(source@[k]),
        decreases source.len() - i,
    {
        sections.push(section_view(&source[i]));
        i += 1;
    }
    let fresh_inbound = match &observation.opportunities.fresh_inbound {
        Some(fresh) => Some(
            FreshInboundStatusOpportunityView {
                target_message_id: fresh.target_message_id.clone(),
            },
        ),
        None => None,
    };
    let post_tool_batch = match &observation.opportunities.post_tool_batch {
        Some(_) => Some(
            PostToolBatchStatusOpportunityView {
                transcript_anchor: RuntimeClientTranscriptCursor::of_optional(
                    observation.post_tool_batch_anchor,
                ),
            },
        ),
        None => None,
    };
    let view = AgentStatusView {
        attempt_id: observation.attempt_id.clone(),
        turn: observation.turn,
        status_message_id: observation.status_message_id.clone(),
        opportunities: AgentStatusOpportunityView { fresh_inbound, post_tool_batch },
        rendered: observation.status.rendered.clone(),
        sections,
    };
    assert(view@.sections =~= status_view_spec(*observation).sections);
    view
}

} // verus!
