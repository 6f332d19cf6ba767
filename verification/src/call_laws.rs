//! Laws of tool calls and of commits: what becomes of a call, and what a client is told.
use std::sync::Arc;

use vstd::prelude::*;

#[allow(unused_imports)]
use crate::event::{EventModel, RuntimeClientEvent};
#[allow(unused_imports)]
use crate::identity::{AttemptId, ToolCallId, ToolExecutionId, ToolId};
#[allow(unused_imports)]
use crate::journal::RuntimeEvent;
#[allow(unused_imports)]
use crate::message::{MessageBlock, ToolMessageBlock};
#[allow(unused_imports)]
use crate::observation::{ConversationObservation, TodoSnapshot, TranscriptCursor};
#[allow(unused_imports)]
use crate::snapshot::{
    AttemptModel, ForegroundModel, ForegroundStateModel, RuntimeClientTranscriptCursor,
    SnapshotModel,
};
#[allow(unused_imports)]
use crate::tool::{ToolError, ToolExecutionResult, ToolExecutionStatus, ToolProgress};

verus! {

/// Whether the read model shows an attempt.
pub open spec fn is_shown(state: SnapshotModel, attempt_id: AttemptId) -> bool {
    state.attempt matches Some(attempt) && attempt.attempt_id@ == attempt_id@
}

/// Whether the first call with an identity, among calls, stands at a place.
pub open spec fn call_stands_at(calls: Seq<ForegroundModel>, id: ToolCallId, slot: int) -> bool {
    &&& 0 <= slot < calls.len()
    &&& calls[slot].call_id@ == id@
    &&& forall|i: int| 0 <= i < slot ==> (#[trigger] calls[i]).call_id@ != id@
}

/// Whether no call has an identity.
pub open spec fn no_call_is(calls: Seq<ForegroundModel>, id: ToolCallId) -> bool {
    forall|i: int| 0 <= i < calls.len() ==> (#[trigger] calls[i]).call_id@ != id@
}

/// The arguments that a call was proposed with, whatever became of it.
pub open spec fn proposed_arguments(call: ForegroundModel) -> Seq<char> {
    match call.state {
        ForegroundStateModel::Assembled { arguments } => arguments,
        ForegroundStateModel::Running { arguments, .. } => arguments,
        ForegroundStateModel::Settled { arguments, .. } => arguments,
    }
}

/// The read model with one call of the attempt in another state, and nothing else changed.
pub open spec fn with_call_in(
    state: SnapshotModel,
    slot: int,
    becomes: ForegroundStateModel,
) -> SnapshotModel {
    let attempt = state.attempt->Some_0;
    SnapshotModel {
        attempt: Some(
            AttemptModel {
                foreground: attempt.foreground.update(
                    slot,
                    ForegroundModel { state: becomes, ..attempt.foreground[slot] },
                ),
                ..attempt
            },
        ),
        ..state
    }
}

pub(crate) proof fn lemma_call_found(calls: Seq<ForegroundModel>, id: ToolCallId, slot: int)
    requires
        call_stands_at(calls, id, slot),
    ensures
        crate::search::position(calls, crate::lists::is_call(id@)) == Some(slot),
{
    let test = crate::lists::is_call(id@);
    assert forall|i: int| 0 <= i < slot implies !test(#[trigger] calls[i]) by {}
    crate::search::lemma_position_at(calls, test, slot);
}

pub(crate) proof fn lemma_call_missing(calls: Seq<ForegroundModel>, id: ToolCallId)
    requires
        no_call_is(calls, id),
    ensures
        crate::search::position(calls, crate::lists::is_call(id@)) is None,
{
    let test = crate::lists::is_call(id@);
    assert forall|i: int| 0 <= i < calls.len() implies !test(#[trigger] calls[i]) by {}
    crate::search::lemma_position_none(calls, test);
}

pub(crate) proof fn lemma_fact(state: SnapshotModel, attempt_id: AttemptId, event: RuntimeEvent)
    ensures
        state.reported(ConversationObservation::Event { attempt_id, event }) == state.journal_fact(
            attempt_id,
            event,
        ),
{
    reveal(SnapshotModel::reported);
}

pub(crate) proof fn lemma_commit(
    state: SnapshotModel,
    attempt_id: Option<AttemptId>,
    block: Arc<MessageBlock>,
    published_todos: Option<Arc<TodoSnapshot>>,
    transcript_cursor: Option<TranscriptCursor>,
)
    ensures
        state.reported(
            ConversationObservation::Committed {
                attempt_id,
                block,
                published_todos,
                transcript_cursor,
            },
        ) == state.committed(attempt_id, block, published_todos, transcript_cursor),
{
    reveal(SnapshotModel::reported);
}

proof fn lemma_progress(
    state: SnapshotModel,
    attempt_id: AttemptId,
    tool_call_id: ToolCallId,
    tool_id: ToolId,
    progress: ToolProgress,
)
    ensures
        ({
            let fact = state.journal_fact(
                attempt_id,
                RuntimeEvent::ToolExecutionProgress {
                    tool_call_id,
                    tool_id,
                    execution_id: None,
                    progress,
                },
            );
            state.reported(
                ConversationObservation::ToolProgress {
                    attempt_id,
                    tool_call_id,
                    tool_id,
                    progress,
                },
            ) == fact
        }),
{
    reveal(SnapshotModel::reported);
}

/// A tool execution that completes settles its call with the very result that is reported,
/// and says so once, to everyone. The call keeps its place and its arguments.
pub proof fn law_a_completion_settles_its_call(
    state: SnapshotModel,
    attempt_id: AttemptId,
    tool_call_id: ToolCallId,
    tool_id: ToolId,
    result: Arc<ToolExecutionResult>,
    slot: int,
)
    requires
        is_shown(state, attempt_id),
        call_stands_at(state.attempt->Some_0.foreground, tool_call_id, slot),
        !(state.attempt->Some_0.foreground[slot].state is Settled),
    ensures
        ({
            let step = state.reported(
                ConversationObservation::Event {
                    attempt_id,
                    event: RuntimeEvent::ToolExecutionCompleted { tool_call_id, tool_id, result },
                },
            );
            &&& step.state == with_call_in(
                state,
                slot,
                ForegroundStateModel::Settled {
                    arguments: proposed_arguments(state.attempt->Some_0.foreground[slot]),
                    result: result@,
                },
            )
            &&& step.events == seq![
                EventModel::ToolSettled { attempt_id, tool_call_id, tool_id, result: result@ },
            ]
        }),
{
    lemma_fact(
        state,
        attempt_id,
        RuntimeEvent::ToolExecutionCompleted { tool_call_id, tool_id, result },
    );
    lemma_call_found(state.attempt->Some_0.foreground, tool_call_id, slot);
}

/// A tool execution that fails settles its call as failed, with the very error that is
/// reported and with nothing produced, and says so once, to everyone.
pub proof fn law_a_failure_settles_its_call(
    state: SnapshotModel,
    attempt_id: AttemptId,
    tool_call_id: ToolCallId,
    tool_id: ToolId,
    error: ToolError,
    slot: int,
)
    requires
        is_shown(state, attempt_id),
        call_stands_at(state.attempt->Some_0.foreground, tool_call_id, slot),
        !(state.attempt->Some_0.foreground[slot].state is Settled),
    ensures
        ({
            let step = state.reported(
                ConversationObservation::Event {
                    attempt_id,
                    event: RuntimeEvent::ToolExecutionFailed { tool_call_id, tool_id, error },
                },
            );
            &&& step.events.len() == 1
            &&& step.events[0] matches EventModel::ToolSettled {
                attempt_id: attempt,
                tool_call_id: call,
                tool_id: tool,
                result,
            } && {
                &&& attempt == attempt_id
                &&& call == tool_call_id
                &&& tool == tool_id
                &&& result.status == ToolExecutionStatus::Failed { error }
                &&& result.content.len() == 0
                &&& result.artifacts.len() == 0
                &&& result.duration_ms == 0
                &&& result.exit_code is None
                &&& result.truncation is None
                &&& result.managed_output is None
                &&& step.state == with_call_in(
                    state,
                    slot,
                    ForegroundStateModel::Settled {
                        arguments: proposed_arguments(state.attempt->Some_0.foreground[slot]),
                        result,
                    },
                )
            }
        }),
{
    lemma_fact(
        state,
        attempt_id,
        RuntimeEvent::ToolExecutionFailed { tool_call_id, tool_id, error },
    );
    lemma_call_found(state.attempt->Some_0.foreground, tool_call_id, slot);
}

/// The end of a tool execution whose call is not shown is told all the same, and changes
/// nothing.
pub proof fn law_the_end_of_an_unknown_call_is_told(
    state: SnapshotModel,
    attempt_id: AttemptId,
    tool_call_id: ToolCallId,
    tool_id: ToolId,
    result: Arc<ToolExecutionResult>,
    error: ToolError,
)
    requires
        is_shown(state, attempt_id) ==> no_call_is(
            state.attempt->Some_0.foreground,
            tool_call_id,
        ),
    ensures
        ({
            let completed = state.reported(
                ConversationObservation::Event {
                    attempt_id,
                    event: RuntimeEvent::ToolExecutionCompleted { tool_call_id, tool_id, result },
                },
            );
            let failed = state.reported(
                ConversationObservation::Event {
                    attempt_id,
                    event: RuntimeEvent::ToolExecutionFailed { tool_call_id, tool_id, error },
                },
            );
            &&& completed.state == state
            &&& completed.events == seq![
                EventModel::ToolSettled { attempt_id, tool_call_id, tool_id, result: result@ },
            ]
            &&& failed.state == state
            &&& failed.events.len() == 1
            &&& failed.events[0] matches EventModel::ToolSettled { result: told, .. }
                && told.status == ToolExecutionStatus::Failed { error }
        }),
{
    lemma_fact(
        state,
        attempt_id,
        RuntimeEvent::ToolExecutionCompleted { tool_call_id, tool_id, result },
    );
    lemma_fact(
        state,
        attempt_id,
        RuntimeEvent::ToolExecutionFailed { tool_call_id, tool_id, error },
    );
    if is_shown(state, attempt_id) {
        lemma_call_missing(state.attempt->Some_0.foreground, tool_call_id);
    }
}

/// A tool execution that starts shows its call as running, with its arguments and without
/// progress; a call that has settled stays as it is. The start is told either way.
pub proof fn law_a_start_runs_its_call(
    state: SnapshotModel,
    attempt_id: AttemptId,
    tool_call_id: ToolCallId,
    tool_id: ToolId,
    slot: int,
)
    requires
        is_shown(state, attempt_id),
        call_stands_at(state.attempt->Some_0.foreground, tool_call_id, slot),
    ensures
        ({
            let call = state.attempt->Some_0.foreground[slot];
            let step = state.reported(
                ConversationObservation::Event {
                    attempt_id,
                    event: RuntimeEvent::ToolExecutionStarted { tool_call_id, tool_id },
                },
            );
            &&& call.state is Settled ==> step.state == state
            &&& !(call.state is Settled) ==> step.state == with_call_in(
                state,
                slot,
                ForegroundStateModel::Running {
                    arguments: proposed_arguments(call),
                    progress: None,
                },
            )
            &&& step.events == seq![
                EventModel::Plain(
                    RuntimeClientEvent::ToolExecutionStarted { attempt_id, tool_call_id, tool_id },
                ),
            ]
        }),
{
    lemma_fact(
        state,
        attempt_id,
        RuntimeEvent::ToolExecutionStarted { tool_call_id, tool_id },
    );
    let calls = state.attempt->Some_0.foreground;
    lemma_call_found(calls, tool_call_id, slot);
    assert(calls.update(slot, calls[slot]) =~= calls);
}

/// The progress of a tool shows at its call as long as the call runs, the newest in the
/// place of the one before. The progress is told either way, and whichever way it came.
pub proof fn law_progress_shows_at_a_running_call(
    state: SnapshotModel,
    attempt_id: AttemptId,
    tool_call_id: ToolCallId,
    tool_id: ToolId,
    execution_id: Option<ToolExecutionId>,
    progress: ToolProgress,
    slot: int,
)
    requires
        is_shown(state, attempt_id),
        call_stands_at(state.attempt->Some_0.foreground, tool_call_id, slot),
    ensures
        ({
            let call = state.attempt->Some_0.foreground[slot];
            let fact = state.reported(
                ConversationObservation::Event {
                    attempt_id,
                    event: RuntimeEvent::ToolExecutionProgress {
                        tool_call_id,
                        tool_id,
                        execution_id,
                        progress,
                    },
                },
            );
            let live = state.reported(
                ConversationObservation::ToolProgress {
                    attempt_id,
                    tool_call_id,
                    tool_id,
                    progress,
                },
            );
            &&& fact.state == live.state
            &&& !(call.state is Running) ==> fact.state == state
            &&& call.state is Running ==> fact.state == with_call_in(
                state,
                slot,
                ForegroundStateModel::Running {
                    arguments: proposed_arguments(call),
                    progress: Some(progress),
                },
            )
            &&& fact.events == seq![
                EventModel::Plain(
                    RuntimeClientEvent::ToolExecutionProgress {
                        attempt_id,
                        tool_call_id,
                        tool_id,
                        execution_id,
                        progress,
                    },
                ),
            ]
            &&& live.events == seq![
                EventModel::Plain(
                    RuntimeClientEvent::ToolExecutionProgress {
                        attempt_id,
                        tool_call_id,
                        tool_id,
                        execution_id: None,
                        progress,
                    },
                ),
            ]
        }),
{
    lemma_fact(
        state,
        attempt_id,
        RuntimeEvent::ToolExecutionProgress { tool_call_id, tool_id, execution_id, progress },
    );
    lemma_progress(state, attempt_id, tool_call_id, tool_id, progress);
    let calls = state.attempt->Some_0.foreground;
    lemma_call_found(calls, tool_call_id, slot);
    assert(calls.update(slot, calls[slot]) =~= calls);
}

/// What a tool does for a call that is not shown changes nothing that is.
pub proof fn law_a_call_that_is_not_shown_changes_nothing(
    state: SnapshotModel,
    attempt_id: AttemptId,
    tool_call_id: ToolCallId,
    tool_id: ToolId,
    execution_id: Option<ToolExecutionId>,
    progress: ToolProgress,
)
    requires
        is_shown(state, attempt_id) ==> no_call_is(
            state.attempt->Some_0.foreground,
            tool_call_id,
        ),
    ensures
        state.reported(
            ConversationObservation::Event {
                attempt_id,
                event: RuntimeEvent::ToolExecutionStarted { tool_call_id, tool_id },
            },
        ).state == state,
        state.reported(
            ConversationObservation::Event {
                attempt_id,
                event: RuntimeEvent::ToolExecutionProgress {
                    tool_call_id,
                    tool_id,
                    execution_id,
                    progress,
                },
            },
        ).state == state,
        state.reported(
            ConversationObservation::ToolProgress { attempt_id, tool_call_id, tool_id, progress },
        ).state == state,
{
    lemma_fact(
        state,
        attempt_id,
        RuntimeEvent::ToolExecutionStarted { tool_call_id, tool_id },
    );
    lemma_fact(
        state,
        attempt_id,
        RuntimeEvent::ToolExecutionProgress { tool_call_id, tool_id, execution_id, progress },
    );
    lemma_progress(state, attempt_id, tool_call_id, tool_id, progress);
    if is_shown(state, attempt_id) {
        lemma_call_missing(state.attempt->Some_0.foreground, tool_call_id);
    }
}

/// The list of tasks is what was published last: a commit that publishes a list makes it
/// exactly that list, and nothing else that is reported touches it.
pub proof fn law_the_task_list_is_the_one_published_last(
    state: SnapshotModel,
    observation: ConversationObservation,
)
    ensures
        match observation {
            ConversationObservation::Committed {
                published_todos: Some(todos),
                ..
            } => state.reported(observation).state.todos == todos.tasks@,
            _ => state.reported(observation).state.todos == state.todos,
        },
{
    reveal(SnapshotModel::reported);
}

/// A commit puts the message behind the canonical ones and tells it last, with its place in
/// the transcript. The message that was being written is gone with an assistant's message,
/// and with no other.
pub proof fn law_a_commit_makes_a_message_canonical(
    state: SnapshotModel,
    attempt_id: Option<AttemptId>,
    block: Arc<MessageBlock>,
    published_todos: Option<Arc<TodoSnapshot>>,
    transcript_cursor: Option<TranscriptCursor>,
)
    ensures
        ({
            let step = state.reported(
                ConversationObservation::Committed {
                    attempt_id,
                    block,
                    published_todos,
                    transcript_cursor,
                },
            );
            &&& step.state == SnapshotModel {
                messages: state.messages.push(block),
                attempt: step.state.attempt,
                todos: step.state.todos,
                ..state
            }
            &&& step.events.len() > 0
            &&& step.events.last() == EventModel::Plain(
                RuntimeClientEvent::MessageCommitted {
                    attempt_id,
                    message: block,
                    transcript_cursor: match transcript_cursor {
                        Some(cursor) => Some(RuntimeClientTranscriptCursor { value: cursor.value }),
                        None => None,
                    },
                },
            )
            &&& step.state.attempt is Some <==> state.attempt is Some
            &&& state.attempt matches Some(before) ==> {
                let after = step.state.attempt->Some_0;
                &&& after == AttemptModel {
                    in_flight: after.in_flight,
                    foreground: after.foreground,
                    ..before
                }
                &&& *block is Assistant ==> after.in_flight is None
                &&& !(*block is Assistant) ==> after.in_flight == before.in_flight
                &&& !(*block is Tool) ==> after.foreground == before.foreground
            }
            &&& !(*block is Tool) ==> step.events.len() == 1
        }),
{
    lemma_commit(state, attempt_id, block, published_todos, transcript_cursor);
}

/// The canonical message of a tool settles the call that it answers, where nothing settled
/// the call before: with the result that the message holds, told once, ahead of the message.
/// A call that has settled keeps its result, and of a call that is not shown nothing is said.
pub proof fn law_a_tool_message_settles_what_has_not_settled(
    state: SnapshotModel,
    attempt_id: AttemptId,
    block: Arc<MessageBlock>,
    tool: ToolMessageBlock,
    published_todos: Option<Arc<TodoSnapshot>>,
    transcript_cursor: Option<TranscriptCursor>,
    slot: int,
)
    requires
        *block == MessageBlock::Tool(tool),
    ensures
        ({
            let step = state.reported(
                ConversationObservation::Committed {
                    attempt_id: Some(attempt_id),
                    block,
                    published_todos,
                    transcript_cursor,
                },
            );
            let calls = state.attempt->Some_0.foreground;
            &&& is_shown(state, attempt_id) && call_stands_at(calls, tool.tool_call_id, slot)
                && !(calls[slot].state is Settled) ==> {
                &&& step.state.attempt == with_call_in(
                    state,
                    slot,
                    ForegroundStateModel::Settled {
                        arguments: proposed_arguments(calls[slot]),
                        result: tool.result@,
                    },
                ).attempt
                &&& step.events.len() == 2
                &&& step.events[0] == EventModel::ToolSettled {
                    attempt_id,
                    tool_call_id: tool.tool_call_id,
                    tool_id: tool.tool_id,
                    result: tool.result@,
                }
            }
            &&& is_shown(state, attempt_id) && call_stands_at(calls, tool.tool_call_id, slot)
                && calls[slot].state is Settled ==> step.state.attempt == state.attempt
                && step.events.len() == 1
            &&& (is_shown(state, attempt_id) ==> no_call_is(calls, tool.tool_call_id))
                ==> step.state.attempt == state.attempt && step.events.len() == 1
        }),
{
    lemma_commit(state, Some(attempt_id), block, published_todos, transcript_cursor);
    if is_shown(state, attempt_id) {
        let calls = state.attempt->Some_0.foreground;
        if call_stands_at(calls, tool.tool_call_id, slot) {
            lemma_call_found(calls, tool.tool_call_id, slot);
            assert(calls.update(slot, calls[slot]) =~= calls);
        }
        if no_call_is(calls, tool.tool_call_id) {
            lemma_call_missing(calls, tool.tool_call_id);
        }
    }
}

} // verus!
