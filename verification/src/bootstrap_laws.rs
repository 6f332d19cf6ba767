//! Laws of the read model before the first event: it shows the runtime as it was, and what the
//! journal holds as if it had just been reported.
use std::sync::Arc;

use vstd::prelude::*;

#[allow(unused_imports)]
use crate::identity::AttemptId;
#[allow(unused_imports)]
use crate::journal::{RuntimeEvent, RuntimeEventEnvelope};
#[allow(unused_imports)]
use crate::message::{AssistantContentBlock, AssistantMessageBlock, MessageBlock, ToolMessageBlock};
#[allow(unused_imports)]
use crate::observation::{
    BackgroundExecutionSnapshot, ConversationObservation, RuntimeBootstrapSnapshot,
    SubagentSnapshot,
};
#[allow(unused_imports)]
use crate::snapshot::{
    AttemptModel, ForegroundModel, ForegroundStateModel, RuntimeClientBackgroundExecution, RuntimeClientSubagent,
    SnapshotModel,
};
#[allow(unused_imports)]
use crate::tool::ToolCall;

verus! {

/// Whether an item of one sequence is there, and every other item of it comes from another.
spec fn joins<T>(items: Seq<T>, item: T, after: Seq<T>) -> bool {
    &&& after.contains(item)
    &&& forall|i: int|
        0 <= i < after.len() ==> #[trigger] after[i] == item || items.contains(after[i])
}

proof fn lemma_upsert<T>(items: Seq<T>, test: spec_fn(T) -> bool, item: T)
    ensures
        joins(items, item, crate::search::upsert(items, test, item)),
        forall|i: int|
            0 <= i < items.len() && !test(#[trigger] items[i]) ==> crate::search::upsert(
                items,
                test,
                item,
            ).contains(items[i]),
{
    let after = crate::search::upsert(items, test, item);
    crate::search::lemma_position(items, test);
    match crate::search::position(items, test) {
        Some(index) => {
            assert(after[index] == item);
            assert forall|i: int| 0 <= i < items.len() && !test(
                #[trigger] items[i],
            ) implies after.contains(items[i]) by {
                assert(after[i] == items[i]);
            }
            assert forall|i: int| 0 <= i < after.len() implies #[trigger] after[i] == item
                || items.contains(after[i]) by {
                if i != index {
                    assert(items[i] == after[i]);
                }
            }
        },
        None => {
            assert(after[items.len() as int] == item);
            assert forall|i: int| 0 <= i < items.len() implies after.contains(
                #[trigger] items[i],
            ) by {
                assert(after[i] == items[i]);
            }
            assert forall|i: int| 0 <= i < after.len() implies #[trigger] after[i] == item
                || items.contains(after[i]) by {
                if i < items.len() {
                    assert(items[i] == after[i]);
                }
            }
        },
    }
}

/// Whether a record is the last one of its work.
pub open spec fn is_last_of_its_work(records: Seq<BackgroundExecutionSnapshot>, i: int) -> bool {
    forall|j: int|
        i < j < records.len() ==> (#[trigger] records[j]).execution_id@ != records[i].execution_id@
}

/// Whether work is shown as a record has it.
pub open spec fn is_work_shown(
    shown: Seq<Arc<RuntimeClientBackgroundExecution>>,
    record: BackgroundExecutionSnapshot,
) -> bool {
    exists|k: int|
        0 <= k < shown.len() && crate::view_laws::shows_execution(*(#[trigger] shown[k]), record)
}

proof fn lemma_work_is_recorded(
    before: Seq<Arc<RuntimeClientBackgroundExecution>>,
    records: Seq<BackgroundExecutionSnapshot>,
)
    ensures
        forall|i: int|
            0 <= i < records.len() && is_last_of_its_work(records, i) ==> is_work_shown(
                crate::bootstrap::background_recorded(before, records),
                #[trigger] records[i],
            ),
    decreases records.len(),
{
    if records.len() > 0 {
        let front = records.drop_last();
        let last = records.last();
        let shown = crate::bootstrap::background_recorded(before, front);
        let after = crate::bootstrap::background_recorded(before, records);
        let test = crate::lists::is_execution(last.execution_id@);
        let item = Arc::new(crate::views::background_view_spec(last));
        lemma_work_is_recorded(before, front);
        lemma_upsert(shown, test, item);
        assert forall|i: int|
            0 <= i < records.len() && is_last_of_its_work(records, i) implies is_work_shown(
            after,
            #[trigger] records[i],
        ) by {
            if i == records.len() - 1 {
                let k = choose|k: int| 0 <= k < after.len() && after[k] == item;
                assert(crate::view_laws::shows_execution(*after[k], last));
            } else {
                assert(front[i] == records[i]);
                assert(records[records.len() - 1] == last);
                assert(records[i].execution_id@ != last.execution_id@);
                assert forall|j: int| i < j < front.len() implies (#[trigger] front[j]).execution_id@
                    != front[i].execution_id@ by {
                    assert(front[j] == records[j]);
                }
                assert(is_last_of_its_work(front, i));
                let k = choose|k: int|
                    0 <= k < shown.len() && crate::view_laws::shows_execution(
                        *(#[trigger] shown[k]),
                        front[i],
                    );
                assert(!test(shown[k]));
                assert(after.contains(shown[k]));
                let m = choose|m: int| 0 <= m < after.len() && after[m] == shown[k];
                assert(crate::view_laws::shows_execution(*after[m], records[i]));
            }
        }
    }
}

/// Whether a record is the last one of its subagent.
pub open spec fn is_last_of_its_subagent(records: Seq<SubagentSnapshot>, i: int) -> bool {
    forall|j: int|
        i < j < records.len() ==> (#[trigger] records[j]).subagent_id@ != records[i].subagent_id@
}

/// Whether a subagent is shown as a record has it.
pub open spec fn is_subagent_shown(
    shown: Seq<Arc<RuntimeClientSubagent>>,
    record: SubagentSnapshot,
) -> bool {
    exists|k: int|
        0 <= k < shown.len() && crate::view_laws::shows_subagent(*(#[trigger] shown[k]), record)
}

proof fn lemma_subagents_are_recorded(
    before: Seq<Arc<RuntimeClientSubagent>>,
    records: Seq<SubagentSnapshot>,
)
    ensures
        forall|i: int|
            0 <= i < records.len() && is_last_of_its_subagent(records, i) ==> is_subagent_shown(
                crate::bootstrap::subagents_recorded(before, records),
                #[trigger] records[i],
            ),
    decreases records.len(),
{
    if records.len() > 0 {
        let front = records.drop_last();
        let last = records.last();
        let shown = crate::bootstrap::subagents_recorded(before, front);
        let after = crate::bootstrap::subagents_recorded(before, records);
        let test = crate::lists::is_subagent(last.subagent_id@);
        let item = Arc::new(crate::views::subagent_view_spec(last));
        lemma_subagents_are_recorded(before, front);
        lemma_upsert(shown, test, item);
        assert forall|i: int|
            0 <= i < records.len() && is_last_of_its_subagent(
                records,
                i,
            ) implies is_subagent_shown(after, #[trigger] records[i]) by {
            if i == records.len() - 1 {
                let k = choose|k: int| 0 <= k < after.len() && after[k] == item;
                assert(crate::view_laws::shows_subagent(*after[k], last));
            } else {
                assert(front[i] == records[i]);
                assert(records[records.len() - 1] == last);
                assert(records[i].subagent_id@ != last.subagent_id@);
                assert forall|j: int| i < j < front.len() implies (#[trigger] front[j]).subagent_id@
                    != front[i].subagent_id@ by {
                    assert(front[j] == records[j]);
                }
                assert(is_last_of_its_subagent(front, i));
                let k = choose|k: int|
                    0 <= k < shown.len() && crate::view_laws::shows_subagent(
                        *(#[trigger] shown[k]),
                        front[i],
                    );
                assert(!test(shown[k]));
                assert(after.contains(shown[k]));
                let m = choose|m: int| 0 <= m < after.len() && after[m] == shown[k];
                assert(crate::view_laws::shows_subagent(*after[m], records[i]));
            }
        }
    }
}

/// A runtime is shown as it was before its activation: the newest page of its transcript,
/// whether it is ending, its approval mode and the one that waits, the messages that wait in
/// their order, the prompts, every piece of detached work and every subagent as last recorded,
/// its resources and its list of tasks. Nothing else changes.
pub proof fn law_a_runtime_is_shown_as_it_was(state: SnapshotModel, seed: RuntimeBootstrapSnapshot)
    ensures
        ({
            let after = state.seeded(seed);
            &&& after.transcript == seed.transcript@
            &&& after.shutting_down == seed.shutting_down
            &&& after.effective_approval_mode == seed.approval_mode.effective
            &&& after.pending_approval_mode is Some <==> seed.approval_mode.effective
                != seed.approval_mode.desired
            &&& after.pending_approval_mode matches Some(mode) ==> mode
                == seed.approval_mode.desired
            &&& after.approval_mode_revision == seed.approval_mode.revision
            &&& after.inbound_pending.len() == seed.inbound_pending@.len()
            &&& forall|i: int|
                0 <= i < seed.inbound_pending@.len() ==> (#[trigger] after.inbound_pending[i]).sequence
                    == seed.inbound_pending@[i].sequence && after.inbound_pending[i].message
                    == seed.inbound_pending@[i].message
            &&& after.pending_interactions == seed.pending_interactions@
            &&& forall|i: int|
                0 <= i < seed.background@.len() && is_last_of_its_work(seed.background@, i)
                    ==> is_work_shown(after.background, #[trigger] seed.background@[i])
            &&& forall|i: int|
                0 <= i < seed.subagents@.len() && is_last_of_its_subagent(seed.subagents@, i)
                    ==> is_subagent_shown(after.subagents, #[trigger] seed.subagents@[i])
            &&& crate::view_laws::shows_resources(after.resources, seed.resources)
            &&& after.todos == seed.todos@
            &&& after.conversation_id == state.conversation_id
            &&& after.messages == state.messages
            &&& after.attempt == state.attempt
            &&& after.model == state.model
            &&& after.capabilities == state.capabilities
            &&& after.context == state.context
            &&& after.statuses == state.statuses
            &&& after.last_drain == state.last_drain
            &&& after.durability_failure == state.durability_failure
        }),
{
    lemma_work_is_recorded(state.background, seed.background@);
    lemma_subagents_are_recorded(state.subagents, seed.subagents@);
}

/// A fact that is read from the journal leaves the read model as the report of that fact would
/// have. A fact that is filed under no attempt is taken for the attempt whose start or end it
/// tells of, and a compaction of its own for a manual one. Any other fact without an attempt
/// says nothing.
pub proof fn law_the_journal_is_shown_as_if_reported(
    state: SnapshotModel,
    envelope: RuntimeEventEnvelope,
)
    ensures
        envelope.attempt_id matches Some(attempt_id) ==> state.with_journal_fact(envelope)
            == state.reported(
            ConversationObservation::Event { attempt_id, event: envelope.event },
        ).state,
        envelope.attempt_id is None ==> match envelope.event {
            RuntimeEvent::AttemptStarted { attempt_id }
            | RuntimeEvent::AttemptTimedOut { attempt_id } => state.with_journal_fact(envelope)
                == state.reported(
                ConversationObservation::Event { attempt_id, event: envelope.event },
            ).state,
            RuntimeEvent::AttemptCompleted { attempt_id, .. } => state.with_journal_fact(envelope)
                == state.reported(
                ConversationObservation::Event { attempt_id, event: envelope.event },
            ).state,
            RuntimeEvent::AttemptCancelled { attempt_id, .. } => state.with_journal_fact(envelope)
                == state.reported(
                ConversationObservation::Event { attempt_id, event: envelope.event },
            ).state,
            RuntimeEvent::AttemptLimitExceeded { attempt_id, .. } => state.with_journal_fact(
                envelope,
            ) == state.reported(
                ConversationObservation::Event { attempt_id, event: envelope.event },
            ).state,
            RuntimeEvent::AttemptFailed { attempt_id, .. } => state.with_journal_fact(envelope)
                == state.reported(
                ConversationObservation::Event { attempt_id, event: envelope.event },
            ).state,
            RuntimeEvent::CompactionStarted
            | RuntimeEvent::CompactionCompleted { .. }
            | RuntimeEvent::CompactionFailed { .. } => state.with_journal_fact(envelope)
                == state.reported(
                ConversationObservation::ManualCompactionEvent { event: envelope.event },
            ).state,
            _ => state.with_journal_fact(envelope) == state,
        },
{
    match envelope.attempt_id {
        Some(attempt_id) => {
            crate::call_laws::lemma_fact(state, attempt_id, envelope.event);
        },
        None => {
            if let Some(attempt_id) = crate::bootstrap::attempt_of(envelope) {
                crate::call_laws::lemma_fact(state, attempt_id, envelope.event);
            }
            if envelope.event.is_compaction() {
                crate::report_laws::lemma_manual(state, envelope.event);
            }
        },
    }
}

/// Whether a call is shown under an identity.
pub open spec fn is_call_shown(shown: Seq<ForegroundModel>, id: Seq<char>) -> bool {
    exists|k: int| 0 <= k < shown.len() && (#[trigger] shown[k]).call_id@ == id
}

/// Every call of a message that was read is shown, those that were shown before stay as they
/// are, and a new one is shown whole and not run.
pub proof fn law_the_calls_of_a_message_are_shown(
    before: Seq<ForegroundModel>,
    content: Seq<AssistantContentBlock>,
)
    ensures
        ({
            let after = crate::bootstrap::calls_shown(before, content);
            &&& before.len() <= after.len() <= before.len() + content.len()
            &&& forall|k: int| 0 <= k < before.len() ==> #[trigger] after[k] == before[k]
            &&& forall|i: int|
                0 <= i < content.len() ==> ((#[trigger] content[i]) matches
                    AssistantContentBlock::ToolCall(call) ==> is_call_shown(after, call.id@))
            &&& forall|k: int|
                before.len() <= k < after.len() ==> is_from_a_call(#[trigger] after[k], content)
        }),
    decreases content.len(),
{
    if content.len() > 0 {
        let front = content.drop_last();
        law_the_calls_of_a_message_are_shown(before, front);
        let shown = crate::bootstrap::calls_shown(before, front);
        let after = crate::bootstrap::calls_shown(before, content);
        let last = content.len() - 1;
        assert(content[last] == content.last());
        if let AssistantContentBlock::ToolCall(call) = content.last() {
            let own = crate::lists::is_call(call.id@);
            crate::search::lemma_position(shown, own);
            match crate::search::position(shown, own) {
                Some(index) => {
                    assert(after[index].call_id@ == call.id@);
                },
                None => {
                    assert(after[shown.len() as int].call_id@ == call.id@);
                },
            }
        }
        assert forall|i: int| 0 <= i < content.len() implies ((#[trigger] content[i]) matches
            AssistantContentBlock::ToolCall(call) ==> is_call_shown(after, call.id@)) by {
            if i < last {
                assert(front[i] == content[i]);
                if let AssistantContentBlock::ToolCall(call) = content[i] {
                    let k = choose|k: int|
                        0 <= k < shown.len() && (#[trigger] shown[k]).call_id@ == call.id@;
                    assert(after[k] == shown[k]);
                }
            }
        }
        assert forall|k: int| before.len() <= k < after.len() implies is_from_a_call(
            #[trigger] after[k],
            content,
        ) by {
            if k < shown.len() {
                assert(after[k] == shown[k]);
                let i = choose|i: int|
                    0 <= i < front.len() && ((#[trigger] front[i]) matches
                        AssistantContentBlock::ToolCall(call) && shows_call(shown[k], call));
                assert(content[i] == front[i]);
            } else {
                assert(content[last] is ToolCall);
            }
        }
    }
}

/// Whether a call is shown whole and not run.
pub open spec fn shows_call(shown: ForegroundModel, call: ToolCall) -> bool {
    &&& shown.call_id == call.id
    &&& shown.tool_id == call.tool_id
    &&& shown.name == call.name
    &&& shown.state matches ForegroundStateModel::Assembled { arguments } && arguments
        == call.arguments@
}

/// Whether a call is shown as a message makes it.
pub open spec fn is_from_a_call(
    shown: ForegroundModel,
    content: Seq<AssistantContentBlock>,
) -> bool {
    exists|i: int|
        0 <= i < content.len() && ((#[trigger] content[i]) matches AssistantContentBlock::ToolCall(
            call,
        ) && shows_call(shown, call))
}

/// A tool's message that is read from the record settles its call as its commit would have.
pub proof fn law_a_tool_message_is_shown_as_if_committed(
    state: SnapshotModel,
    attempt_id: AttemptId,
    block: Arc<MessageBlock>,
    tool: ToolMessageBlock,
)
    requires
        *block == MessageBlock::Tool(tool),
    ensures
        state.with_message_of(attempt_id, MessageBlock::Tool(tool)).attempt == state.reported(
            ConversationObservation::Committed {
                attempt_id: Some(attempt_id),
                block,
                published_todos: None,
                transcript_cursor: None,
            },
        ).state.attempt,
        (SnapshotModel {
            attempt: state.attempt,
            ..state.with_message_of(attempt_id, MessageBlock::Tool(tool))
        }) == state,
{
    crate::call_laws::lemma_commit(state, Some(attempt_id), block, None, None);
}

/// An assistant's message that is read from the record shows its calls at its attempt. Where
/// that attempt is shown, its other calls and all else of it stay; else it is shown anew.
pub proof fn law_an_assistant_message_shows_its_calls(
    state: SnapshotModel,
    attempt_id: AttemptId,
    assistant: AssistantMessageBlock,
)
    ensures
        ({
            let after = state.with_message_of(attempt_id, MessageBlock::Assistant(assistant));
            &&& (SnapshotModel { attempt: state.attempt, ..after }) == state
            &&& after.attempt is Some
            &&& after.attempt->Some_0.attempt_id@ == attempt_id@
            &&& forall|i: int|
                0 <= i < assistant.content@.len() ==> ((#[trigger] assistant.content@[i]) matches
                    AssistantContentBlock::ToolCall(call) ==> is_call_shown(
                    after.attempt->Some_0.foreground,
                    call.id@,
                ))
            &&& state.attempt is Some && state.attempt->Some_0.attempt_id@ == attempt_id@ ==> {
                let before = state.attempt->Some_0;
                &&& after.attempt->Some_0 == AttemptModel {
                    foreground: after.attempt->Some_0.foreground,
                    ..before
                }
                &&& before.foreground.len() <= after.attempt->Some_0.foreground.len()
                &&& forall|k: int|
                    0 <= k < before.foreground.len()
                        ==> #[trigger] after.attempt->Some_0.foreground[k] == before.foreground[k]
            }
            &&& !(state.attempt is Some && state.attempt->Some_0.attempt_id@ == attempt_id@)
                ==> forall|k: int|
                0 <= k < after.attempt->Some_0.foreground.len() ==> is_from_a_call(
                    #[trigger] after.attempt->Some_0.foreground[k],
                    assistant.content@,
                )
        }),
{
    let attempt = state.ensured(attempt_id).attempt->Some_0;
    law_the_calls_of_a_message_are_shown(attempt.foreground, assistant.content@);
}

} // verus!
