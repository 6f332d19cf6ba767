//! Laws of what a client is shown: nothing that is recorded is lost or mixed up on the way.

use vstd::prelude::*;

#[allow(unused_imports)]
use crate::event::{EventModel, RuntimeClientEvent};
#[allow(unused_imports)]
use crate::observation::{
    AgentStatusObservation, AgentStatusSectionData, BackgroundExecutionSnapshot,
    CapabilityAvailability, CapabilitySnapshot, CapabilitySourceAvailability, CapabilitySourceId,
    CapabilitySourceState, ConversationObservation, RuntimeResourceSnapshot, SubagentSnapshot,
    TodoStatusTask, WorkspaceIsolation,
};
#[allow(unused_imports)]
use crate::snapshot::{
    CapabilityModel, CapabilitySourceDescriptor, CapabilitySourceStateView, CapabilitySourceView,
    ResourcesModel, RuntimeClientBackgroundExecution, RuntimeClientSubagent,
    RuntimeClientTodoStatusTask, RuntimeClientTool, RuntimeClientWorkspaceIsolation, SnapshotModel,
    StatusModel, StatusSectionModel,
};
#[allow(unused_imports)]
use crate::tool::ToolDefinition;

verus! {

/// Whether detached work is shown with everything that is recorded of it.
pub open spec fn shows_execution(
    shown: RuntimeClientBackgroundExecution,
    record: BackgroundExecutionSnapshot,
) -> bool {
    &&& shown.execution_id == record.execution_id
    &&& shown.tool_id == record.tool_id
    &&& shown.tool_name == record.tool_name
    &&& shown.state == record.state
    &&& shown.progress == record.progress
    &&& shown.result == record.result
}

/// A record of detached work is told and shown with everything in it, in the place of the
/// record of the same work that is there, and else behind the others. No other work changes.
pub proof fn law_detached_work_is_shown_as_recorded(
    state: SnapshotModel,
    record: BackgroundExecutionSnapshot,
    place: int,
)
    ensures
        ({
            let step = state.reported(ConversationObservation::Background(record));
            let before = state.background;
            let after = step.state.background;
            &&& step.state == SnapshotModel { background: after, ..state }
            &&& step.events.len() == 1
            &&& step.events[0] matches EventModel::Plain(
                RuntimeClientEvent::BackgroundExecutionUpdated { execution },
            ) && {
                &&& shows_execution(*execution, record)
                &&& 0 <= place < before.len() && before[place].execution_id@
                    == record.execution_id@ && (forall|i: int|
                    0 <= i < place ==> (#[trigger] before[i]).execution_id@
                        != record.execution_id@) ==> after == before.update(place, execution)
                &&& (forall|i: int|
                    0 <= i < before.len() ==> (#[trigger] before[i]).execution_id@
                        != record.execution_id@) ==> after == before.push(execution)
            }
        }),
{
    reveal(SnapshotModel::reported);
    let before = state.background;
    let test = crate::lists::is_execution(record.execution_id@);
    crate::search::lemma_position(before, test);
    if 0 <= place < before.len() && before[place].execution_id@ == record.execution_id@ && (
    forall|i: int|
        0 <= i < place ==> (#[trigger] before[i]).execution_id@ != record.execution_id@) {
        assert forall|i: int| 0 <= i < place implies !test(#[trigger] before[i]) by {}
        crate::search::lemma_position_at(before, test, place);
    }
    if forall|i: int|
        0 <= i < before.len() ==> (#[trigger] before[i]).execution_id@ != record.execution_id@ {
        assert forall|i: int| 0 <= i < before.len() implies !test(#[trigger] before[i]) by {}
        crate::search::lemma_position_none(before, test);
    }
}

/// Whether a workspace is shown to be kept apart exactly as it is: shared where it is shared,
/// and else a worktree with every one of its facts.
pub open spec fn shows_isolation(
    shown: RuntimeClientWorkspaceIsolation,
    isolation: WorkspaceIsolation,
) -> bool {
    match (shown, isolation) {
        (RuntimeClientWorkspaceIsolation::Shared, WorkspaceIsolation::Shared) => true,
        (
            RuntimeClientWorkspaceIsolation::GitWorktree {
                source_repository_root,
                repository_relative_workspace,
                physical_worktree_root,
                base_commit,
                branch,
                parent_had_uncommitted_changes,
            },
            WorkspaceIsolation::GitWorktree(worktree),
        ) => {
            &&& source_repository_root == worktree.source_repository_root
            &&& repository_relative_workspace == worktree.repository_relative_workspace
            &&& physical_worktree_root == worktree.physical_worktree_root
            &&& base_commit == worktree.base_commit
            &&& branch == worktree.branch
            &&& parent_had_uncommitted_changes == worktree.parent_had_uncommitted_changes
        },
        _ => false,
    }
}

/// Whether a subagent is shown with everything that is recorded of it, but for the call that
/// made it.
pub open spec fn shows_subagent(shown: RuntimeClientSubagent, record: SubagentSnapshot) -> bool {
    &&& shown.subagent_id == record.subagent_id
    &&& shown.child_agent_id == record.child_agent_id
    &&& shown.child_conversation_id == record.child_conversation_id
    &&& shown.agent == record.agent
    &&& shown.definition_digest == record.definition_digest
    &&& shown.state == record.state
    &&& shown.detail == record.detail
    &&& shown.observation == record.observation
    &&& shown.execution_profile == record.profile
    &&& shown.started_at == record.started_at
    &&& shown.workspace.logical_workspace == record.workspace.logical_workspace
    &&& shows_isolation(shown.workspace.isolation, record.workspace.isolation)
    &&& shown.workspace.resource_state == record.workspace_resource_state
    &&& match (shown.workspace.handoff, record.handoff) {
        (None, None) => true,
        (Some(left), Some(handoff)) => {
            &&& left.logical_workspace == handoff.logical_workspace
            &&& left.physical_worktree_root == handoff.physical_worktree_root
            &&& left.branch == handoff.branch
            &&& left.base_commit == handoff.base_commit
            &&& left.head_commit == handoff.head_commit
            &&& left.dirty == handoff.dirty
        },
        _ => false,
    }
}

/// A record of a subagent, of whatever kind the report is, is told and shown with everything
/// in it, in the place of the record of the same subagent that is there, and else behind the
/// others. No other subagent changes.
pub proof fn law_a_subagent_is_shown_as_recorded(
    state: SnapshotModel,
    record: SubagentSnapshot,
    place: int,
)
    ensures
        ({
            let step = state.reported(ConversationObservation::SubagentActivity(record));
            let before = state.subagents;
            let after = step.state.subagents;
            &&& step.state == SnapshotModel { subagents: after, ..state }
            &&& step.events.len() == 1
            &&& step.events[0] matches EventModel::Plain(
                RuntimeClientEvent::SubagentUpdated { subagent },
            ) && {
                &&& shows_subagent(*subagent, record)
                &&& 0 <= place < before.len() && before[place].subagent_id@ == record.subagent_id@
                    && (forall|i: int|
                    0 <= i < place ==> (#[trigger] before[i]).subagent_id@ != record.subagent_id@)
                    ==> after == before.update(place, subagent)
                &&& (forall|i: int|
                    0 <= i < before.len() ==> (#[trigger] before[i]).subagent_id@
                        != record.subagent_id@) ==> after == before.push(subagent)
            }
        }),
        state.reported(ConversationObservation::SubagentWorkspace(record)) == state.reported(
            ConversationObservation::SubagentActivity(record),
        ),
        ({
            let lifecycle = state.reported(ConversationObservation::SubagentLifecycle(record));
            let activity = state.reported(ConversationObservation::SubagentActivity(record));
            &&& lifecycle.state.subagents == activity.state.subagents
            &&& lifecycle.events.len() > 0
            &&& lifecycle.events[0] == activity.events[0]
        }),
{
    crate::fold_laws::lemma_subagent_activity(state, record);
    crate::fold_laws::lemma_subagent_workspace(state, record);
    crate::fold_laws::lemma_subagent_lifecycle(state, record);
    let before = state.subagents;
    let test = crate::lists::is_subagent(record.subagent_id@);
    crate::search::lemma_position(before, test);
    if 0 <= place < before.len() && before[place].subagent_id@ == record.subagent_id@ && (forall|
        i: int,
    |
        0 <= i < place ==> (#[trigger] before[i]).subagent_id@ != record.subagent_id@) {
        assert forall|i: int| 0 <= i < place implies !test(#[trigger] before[i]) by {}
        crate::search::lemma_position_at(before, test, place);
    }
    if forall|i: int|
        0 <= i < before.len() ==> (#[trigger] before[i]).subagent_id@ != record.subagent_id@ {
        assert forall|i: int| 0 <= i < before.len() implies !test(#[trigger] before[i]) by {}
        crate::search::lemma_position_none(before, test);
    }
}

/// Two records of subagents that are shown alike are alike, but for the call that made the
/// subagent: in particular two workspaces that are kept apart in different ways are shown
/// differently.
pub proof fn law_subagents_that_look_alike_are_alike(a: SubagentSnapshot, b: SubagentSnapshot)
    requires
        crate::views::subagent_view_spec(a) == crate::views::subagent_view_spec(b),
    ensures
        a.workspace == b.workspace,
        a.handoff == b.handoff,
        a == (SubagentSnapshot { tool_call_id: a.tool_call_id, ..b }),
{
    assert(shows_subagent(crate::views::subagent_view_spec(a), a));
    assert(shows_subagent(crate::views::subagent_view_spec(b), b));
    match (a.workspace.isolation, b.workspace.isolation) {
        (WorkspaceIsolation::GitWorktree(left), WorkspaceIsolation::GitWorktree(right)) => {
            assert(left == right);
        },
        _ => {},
    }
    match (a.handoff, b.handoff) {
        (Some(left), Some(right)) => {
            assert(left == right);
        },
        _ => {},
    }
}

/// Whether a tool is shown with its whole definition.
pub open spec fn shows_tool(shown: RuntimeClientTool, definition: ToolDefinition) -> bool {
    &&& shown.id == definition.id
    &&& shown.name == definition.name
    &&& shown.description == definition.description
    &&& shown.input_schema == definition.input_schema
    &&& shown.execution_policy == definition.execution_policy
    &&& shown.concurrency_policy == definition.concurrency_policy
    &&& shown.approval_policy == definition.approval_policy
    &&& shown.replay_policy == definition.replay_policy
    &&& shown.origin == definition.origin
}

/// Whether tools are shown, each with its whole definition and in the order of the registry.
pub open spec fn shows_tools(
    shown: Seq<RuntimeClientTool>,
    definitions: Seq<ToolDefinition>,
) -> bool {
    &&& shown.len() == definitions.len()
    &&& forall|i: int| 0 <= i < shown.len() ==> shows_tool(#[trigger] shown[i], definitions[i])
}

/// Whether a source of capabilities is shown as it stands.
pub open spec fn shows_source(
    shown: CapabilitySourceView,
    availability: CapabilitySourceAvailability,
) -> bool {
    &&& match (shown.source, availability.source) {
        (CapabilitySourceDescriptor::Mcp { server_id }, CapabilitySourceId::Mcp(id)) => server_id
            == id,
    }
    &&& match (shown.state, availability.state) {
        (CapabilitySourceStateView::Ready, CapabilitySourceState::Ready) => true,
        (
            CapabilitySourceStateView::Unavailable { reason: told },
            CapabilitySourceState::Unavailable { reason },
        ) => told == reason,
        _ => false,
    }
}

/// Whether the capabilities are shown as they stand: the tools of the registry, the tools that
/// are available, the skills with the identities that are bound to them, and the sources.
pub open spec fn shows_capabilities(
    shown: CapabilityModel,
    snapshot: CapabilitySnapshot,
    availability: CapabilityAvailability,
) -> bool {
    let entries = snapshot.skill_entries@;
    let bindings = snapshot.skill_bindings@;
    &&& shown.revision == snapshot.revision
    &&& shows_tools(shown.tools, snapshot.tool_registry@)
    &&& shows_tools(shown.available_tools, snapshot.available_tools@)
    &&& shown.skills.len() <= entries.len()
    &&& shown.skills.len() <= bindings.len()
    &&& shown.skills.len() == entries.len() || shown.skills.len() == bindings.len()
    &&& forall|i: int|
        0 <= i < shown.skills.len() ==> {
            &&& (#[trigger] shown.skills[i]).id == bindings[i].skill_id
            &&& shown.skills[i].version_id == bindings[i].version_id
            &&& shown.skills[i].name == entries[i].name
            &&& shown.skills[i].description == entries[i].description
            &&& shown.skills[i].location == entries[i].location
        }
    &&& shown.sources.len() == availability.sources@.len()
    &&& forall|i: int|
        0 <= i < shown.sources.len() ==> shows_source(
            #[trigger] shown.sources[i],
            availability.sources@[i],
        )
}

/// Whether the resources are shown as they stand: the path and the length in bytes of every
/// file, in their order, and whether there is a profile of the agent.
pub open spec fn shows_resources(shown: ResourcesModel, resources: RuntimeResourceSnapshot) -> bool {
    let files = resources.project_context_files@;
    &&& shown.revision == resources.revision
    &&& shown.agent_profile <==> resources.agent_profile is Some
    &&& shown.context_files.len() == files.len()
    &&& forall|i: int|
        0 <= i < files.len() ==> (#[trigger] shown.context_files[i]).path == files[i].path
            && shown.context_files[i].bytes == vstd::utf8::encode_utf8(
            files[i].content@,
        ).len() as usize as u64
}

/// The capabilities are told and shown as they stand, and nothing else changes.
pub proof fn law_capabilities_are_shown_as_they_stand(
    state: SnapshotModel,
    snapshot: CapabilitySnapshot,
    availability: CapabilityAvailability,
)
    ensures
        ({
            let step = state.reported(
                ConversationObservation::Capability { snapshot, availability },
            );
            let shown = step.state.capabilities;
            &&& step.state == SnapshotModel { capabilities: shown, ..state }
            &&& shows_capabilities(shown, snapshot, availability)
            &&& step.events == seq![EventModel::Capabilities { capabilities: shown }]
        }),
{
    reveal(SnapshotModel::reported);
}

/// The resources and the capabilities that were built on them are told and shown together, as
/// they stand, and nothing else changes.
pub proof fn law_resources_are_shown_as_they_stand(
    state: SnapshotModel,
    snapshot: RuntimeResourceSnapshot,
    availability: CapabilityAvailability,
)
    ensures
        ({
            let step = state.reported(
                ConversationObservation::Resources { snapshot, availability },
            );
            let capabilities = step.state.capabilities;
            let resources = step.state.resources;
            &&& step.state == SnapshotModel { capabilities, resources, ..state }
            &&& shows_capabilities(capabilities, snapshot.capability, availability)
            &&& shows_resources(resources, snapshot)
            &&& step.events == seq![EventModel::Generation { capabilities, resources }]
        }),
{
    reveal(SnapshotModel::reported);
}

/// Whether a task of a status is shown with everything in it.
pub open spec fn shows_task(shown: RuntimeClientTodoStatusTask, task: TodoStatusTask) -> bool {
    &&& shown.id == task.id
    &&& shown.subject == task.subject
    &&& shown.active_form == task.active_form
    &&& shown.status == task.status
    &&& shown.blocked == task.blocked
}

/// Whether a section of a status is shown with everything in it.
pub open spec fn shows_section(shown: StatusSectionModel, section: AgentStatusSectionData) -> bool {
    match (shown, section) {
        (
            StatusSectionModel::Temporal { current_time: time, timezone: zone },
            AgentStatusSectionData::Temporal { current_time, timezone },
        ) => time == current_time && zone == timezone,
        (
            StatusSectionModel::BackgroundExecutions { executions: work, omitted_count: omitted },
            AgentStatusSectionData::BackgroundExecution { executions, omitted_count },
        ) => {
            &&& omitted == omitted_count
            &&& work.len() == executions@.len()
            &&& forall|i: int|
                0 <= i < work.len() ==> shows_execution(#[trigger] work[i], executions@[i])
        },
        (
            StatusSectionModel::Todo {
                current,
                tasks,
                active_count,
                blocked_count,
                completed_count,
                deleted_count,
                omitted_count,
            },
            AgentStatusSectionData::Todo { presentation },
        ) => {
            &&& match (current, presentation.current) {
                (None, None) => true,
                (Some(shown), Some(task)) => shows_task(shown, task),
                _ => false,
            }
            &&& tasks.len() == presentation.tasks@.len()
            &&& forall|i: int|
                0 <= i < tasks.len() ==> shows_task(#[trigger] tasks[i], presentation.tasks@[i])
            &&& active_count == presentation.active_count
            &&& blocked_count == presentation.blocked_count
            &&& completed_count == presentation.completed_count
            &&& deleted_count == presentation.deleted_count
            &&& omitted_count == presentation.omitted_count
        },
        _ => false,
    }
}

/// Whether a composed status is shown as it was composed: with its identity, its text and all
/// of its sections in their order, at the message that it answers, and behind the tool batch
/// that it follows, where the batch itself froze that place.
pub open spec fn shows_status(shown: StatusModel, composed: AgentStatusObservation) -> bool {
    &&& shown.attempt_id == composed.attempt_id
    &&& shown.turn == composed.turn
    &&& shown.status_message_id == composed.status_message_id
    &&& shown.rendered == composed.status.rendered
    &&& match (shown.opportunities.fresh_inbound, composed.opportunities.fresh_inbound) {
        (None, None) => true,
        (Some(shown), Some(fresh)) => shown.target_message_id == fresh.target_message_id,
        _ => false,
    }
    &&& match (shown.opportunities.post_tool_batch, composed.opportunities.post_tool_batch) {
        (None, None) => true,
        (Some(shown), Some(_)) => match (
            shown.transcript_anchor,
            composed.post_tool_batch_anchor,
        ) {
            (None, None) => true,
            (Some(anchor), Some(cursor)) => anchor.value == cursor.value,
            _ => false,
        },
        _ => false,
    }
    &&& shown.sections.len() == composed.status.sections@.len()
    &&& forall|i: int|
        0 <= i < shown.sections.len() ==> shows_section(
            #[trigger] shown.sections[i],
            composed.status.sections@[i],
        )
}

/// A composed status is told as it was composed, under its attempt and its turn. Where it is
/// new, it comes last in the window as it is told. Nothing but the window changes.
pub proof fn law_a_status_is_shown_as_composed(
    state: SnapshotModel,
    composed: AgentStatusObservation,
)
    ensures
        ({
            let step = state.reported(ConversationObservation::Status(composed));
            let after = step.state.statuses;
            &&& step.state == SnapshotModel { statuses: after, ..state }
            &&& step.events.len() == 1
            &&& step.events[0] matches EventModel::StatusComposed {
                attempt_id,
                turn,
                status,
                ..
            } && {
                &&& attempt_id == composed.attempt_id
                &&& turn == composed.turn
                &&& shows_status(status, composed)
                &&& (forall|i: int|
                    0 <= i < state.statuses.len() ==> (
                    #[trigger] state.statuses[i]).status_message_id@
                        != composed.status_message_id@) ==> after.len() > 0 && after.last()
                    == status
            }
        }),
{
    reveal(SnapshotModel::reported);
}

/// A status that is new comes behind the others. In a full window it takes the room of the oldest
/// one, which the event names; while there is room none is displaced. A status that is there
/// already changes nothing.
pub proof fn law_a_status_displaces_the_oldest(
    state: SnapshotModel,
    composed: AgentStatusObservation,
)
    requires
        state.statuses.len() <= 64,
    ensures
        ({
            let step = state.reported(ConversationObservation::Status(composed));
            let before = state.statuses;
            let after = step.state.statuses;
            let evicted = step.events[0]->evicted_status_message_id;
            let known = exists|i: int|
                0 <= i < before.len() && (#[trigger] before[i]).status_message_id@
                    == composed.status_message_id@;
            let displaced = if before.len() == 64 {
                1int
            } else {
                0
            };
            &&& step.events[0] is StatusComposed
            &&& known ==> after == before && evicted is None
            &&& !known ==> {
                &&& after.len() == before.len() + 1 - displaced
                &&& forall|i: int|
                    0 <= i < after.len() - 1 ==> #[trigger] after[i] == before[i + displaced]
                &&& evicted is Some <==> displaced == 1
                &&& evicted is Some ==> evicted == Some(before[0].status_message_id)
            }
        }),
{
    reveal(SnapshotModel::reported);
}

} // verus!
