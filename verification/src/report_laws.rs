//! Laws of single reports: what a client sees after each of them, and what it is told.
//!
//! Every law is stated of what is reported and of what the read model then holds, for every
//! state in which the report can come.
use std::sync::Arc;

use vstd::prelude::*;

#[allow(unused_imports)]
use crate::event::{
    EventModel, RuntimeClientAttemptFailure, RuntimeClientEvent, RuntimeClientOutcome,
};
#[allow(unused_imports)]
use crate::identity::AttemptId;
#[allow(unused_imports)]
use crate::interaction::{InteractionOutcome, InteractionRef, RoutedInteraction};
#[allow(unused_imports)]
use crate::journal::RuntimeEvent;
#[allow(unused_imports)]
use crate::model::{
    AttemptFailure, AttemptModelView, GenerationEvidence, ModelFinishReason, ModelUsage,
    SessionModelView,
};
#[allow(unused_imports)]
use crate::observation::{
    ApprovalMode, ConversationObservation, InboundBatch, InboundItem, TranscriptCursor,
};
#[allow(unused_imports)]
use crate::snapshot::{
    AttemptModel, InboundDrainView, InboundItemView, RuntimeClientAttemptPhase,
    RuntimeClientCompactionView, RuntimeClientContextView, RuntimeClientTranscriptCursor,
    RuntimeClientTranscriptInteractionRequested, RuntimeClientTranscriptInteractionSettled,
    RuntimeDurabilityFailure, SnapshotModel,
};

verus! {

pub(crate) proof fn lemma_manual(state: SnapshotModel, event: RuntimeEvent)
    ensures
        state.reported(ConversationObservation::ManualCompactionEvent { event })
            == state.compaction(None, event),
{
    reveal(SnapshotModel::reported);
}

/// An attempt that is admitted is shown, with nothing done and on the model that the session
/// would freeze now. Nobody is told before it starts.
pub proof fn law_an_admitted_attempt_is_shown(state: SnapshotModel, attempt_id: AttemptId)
    ensures
        ({
            let step = state.reported(ConversationObservation::AttemptAdmitted { attempt_id });
            &&& step.events.len() == 0
            &&& step.state == SnapshotModel {
                attempt: Some(
                    AttemptModel {
                        attempt_id,
                        phase: RuntimeClientAttemptPhase::Admitted,
                        turn: 0,
                        last_usage: None,
                        in_flight: None,
                        foreground: Seq::empty(),
                        model: state.model.attempt,
                    },
                ),
                ..state
            }
        }),
{
    reveal(SnapshotModel::reported);
}

/// The model that an attempt freezes is shown at that attempt, and at no other. Nobody is
/// told before the attempt starts.
pub proof fn law_a_frozen_model_is_shown_at_its_attempt(
    state: SnapshotModel,
    attempt_id: AttemptId,
    model: Arc<AttemptModelView>,
)
    ensures
        ({
            let step = state.reported(
                ConversationObservation::AttemptModelFrozen { attempt_id, model },
            );
            &&& step.events.len() == 0
            &&& !crate::call_laws::is_shown(state, attempt_id) ==> step.state == state
            &&& crate::call_laws::is_shown(state, attempt_id) ==> step.state == SnapshotModel {
                attempt: Some(AttemptModel { model, ..state.attempt->Some_0 }),
                ..state
            }
        }),
{
    reveal(SnapshotModel::reported);
}

/// An attempt that starts is shown as running, with nothing done. It keeps the model that it
/// froze at its admission, and without an admission it has the one that the session would
/// freeze now; that model is told with the start.
pub proof fn law_an_attempt_starts_with_nothing_done(
    state: SnapshotModel,
    attempt_id: AttemptId,
    named: AttemptId,
)
    ensures
        ({
            let model = if crate::call_laws::is_shown(state, attempt_id) {
                state.attempt->Some_0.model
            } else {
                state.model.attempt
            };
            let step = state.reported(
                ConversationObservation::Event {
                    attempt_id,
                    event: RuntimeEvent::AttemptStarted { attempt_id: named },
                },
            );
            &&& step.state == SnapshotModel {
                attempt: Some(
                    AttemptModel {
                        attempt_id,
                        phase: RuntimeClientAttemptPhase::Running,
                        turn: 0,
                        last_usage: None,
                        in_flight: None,
                        foreground: Seq::empty(),
                        model,
                    },
                ),
                ..state
            }
            &&& step.events == seq![
                EventModel::Plain(RuntimeClientEvent::AttemptStarted { attempt_id, model }),
            ]
        }),
{
    crate::call_laws::lemma_fact(
        state,
        attempt_id,
        RuntimeEvent::AttemptStarted { attempt_id: named },
    );
}

/// An attempt ends as the journal says, and in no other way: completed for the reason given,
/// cancelled for the reason given, out of time, over the limit given, or failed. The outcome
/// that is told is the one that is shown, and the end of the attempt that is shown is the end
/// of its compaction. Everything else stays.
pub proof fn law_an_attempt_ends_as_the_journal_says(
    state: SnapshotModel,
    attempt_id: AttemptId,
    event: RuntimeEvent,
)
    requires
        crate::fold_laws::is_end(event),
    ensures
        ({
            let step = state.reported(ConversationObservation::Event { attempt_id, event });
            &&& step.events.len() == 1
            &&& step.events[0] matches EventModel::Plain(
                RuntimeClientEvent::AttemptSettled { attempt_id: told, outcome },
            ) && {
                &&& told == attempt_id
                &&& match event {
                    RuntimeEvent::AttemptCompleted { finish_reason, .. } => outcome
                        == RuntimeClientOutcome::Completed { finish_reason },
                    RuntimeEvent::AttemptCancelled { reason, .. } => outcome
                        == RuntimeClientOutcome::Cancelled { reason },
                    RuntimeEvent::AttemptTimedOut { .. } => outcome
                        == RuntimeClientOutcome::TimedOut,
                    RuntimeEvent::AttemptLimitExceeded { limit, .. } => outcome
                        == RuntimeClientOutcome::LimitExceeded { limit },
                    RuntimeEvent::AttemptFailed { error, .. } => outcome matches
                        RuntimeClientOutcome::Failed { error: shown } && (match error {
                        AttemptFailure::Model { error } => shown
                            == RuntimeClientAttemptFailure::Model {
                            kind: error.kind,
                            message: error.message,
                            retry_after_ms: error.retry_after_ms,
                        },
                        AttemptFailure::Runtime { error } => shown
                            == RuntimeClientAttemptFailure::Runtime { error },
                    }),
                    _ => false,
                }
                &&& !crate::call_laws::is_shown(state, attempt_id) ==> step.state == state
                &&& crate::call_laws::is_shown(state, attempt_id) ==> step.state == SnapshotModel {
                    attempt: Some(
                        AttemptModel {
                            phase: RuntimeClientAttemptPhase::Settled { outcome },
                            ..state.attempt->Some_0
                        },
                    ),
                    context: RuntimeClientContextView {
                        compaction_in_progress: false,
                        ..state.context
                    },
                    ..state
                }
            }
        }),
{
    crate::call_laws::lemma_fact(state, attempt_id, event);
}

/// A completed turn of the attempt that is shown counts for one, as far as the count goes, and
/// is told; a turn that starts, and a turn of another attempt, do not count.
pub proof fn law_turns_are_counted_when_they_complete(state: SnapshotModel, attempt_id: AttemptId)
    ensures
        ({
            let started = state.reported(
                ConversationObservation::Event { attempt_id, event: RuntimeEvent::TurnStarted },
            );
            let completed = state.reported(
                ConversationObservation::Event { attempt_id, event: RuntimeEvent::TurnCompleted },
            );
            &&& started.state == state
            &&& started.events.len() == 0
            &&& !crate::call_laws::is_shown(state, attempt_id) ==> completed.state == state
                && completed.events.len() == 0
            &&& crate::call_laws::is_shown(state, attempt_id) ==> {
                let before = state.attempt->Some_0;
                &&& completed.state.attempt matches Some(after) && {
                    &&& before.turn < u32::MAX ==> after.turn == before.turn + 1
                    &&& before.turn == u32::MAX ==> after.turn == u32::MAX
                    &&& completed.state == SnapshotModel {
                        attempt: Some(AttemptModel { turn: after.turn, ..before }),
                        ..state
                    }
                    &&& completed.events == seq![
                        EventModel::Plain(
                            RuntimeClientEvent::AttemptTurnUpdated { attempt_id, turn: after.turn },
                        ),
                    ]
                }
            }
        }),
{
    crate::call_laws::lemma_fact(state, attempt_id, RuntimeEvent::TurnStarted);
    crate::call_laws::lemma_fact(state, attempt_id, RuntimeEvent::TurnCompleted);
}

/// The usage that a request reports as it completes is shown at its attempt, the newest in
/// the place of the one before, and is told. A request that reports none, and a request of
/// another attempt, change nothing.
pub proof fn law_the_newest_usage_is_shown(
    state: SnapshotModel,
    attempt_id: AttemptId,
    request_id: crate::identity::RequestId,
    finish_reason: ModelFinishReason,
    usage: Option<ModelUsage>,
    generation: Option<GenerationEvidence>,
)
    ensures
        ({
            let step = state.reported(
                ConversationObservation::Event {
                    attempt_id,
                    event: RuntimeEvent::ModelRequestCompleted {
                        request_id,
                        finish_reason,
                        usage,
                        generation,
                    },
                },
            );
            &&& usage is None || !crate::call_laws::is_shown(state, attempt_id) ==> step.state == state
                && step.events.len() == 0
            &&& usage is Some && crate::call_laws::is_shown(state, attempt_id) ==> {
                &&& step.state == SnapshotModel {
                    attempt: Some(AttemptModel { last_usage: usage, ..state.attempt->Some_0 }),
                    ..state
                }
                &&& step.events == seq![
                    EventModel::Plain(
                        RuntimeClientEvent::AttemptUsageUpdated {
                            attempt_id,
                            usage: usage->Some_0,
                        },
                    ),
                ]
            }
        }),
{
    crate::call_laws::lemma_fact(
        state,
        attempt_id,
        RuntimeEvent::ModelRequestCompleted { request_id, finish_reason, usage, generation },
    );
}

/// The facts of the journal that a client is not told of, and that change nothing it sees.
pub open spec fn stays_internal(event: RuntimeEvent) -> bool {
    match event {
        RuntimeEvent::AttemptStarted { .. }
        | RuntimeEvent::AttemptCompleted { .. }
        | RuntimeEvent::AttemptCancelled { .. }
        | RuntimeEvent::AttemptTimedOut { .. }
        | RuntimeEvent::AttemptLimitExceeded { .. }
        | RuntimeEvent::AttemptFailed { .. }
        | RuntimeEvent::TurnCompleted
        | RuntimeEvent::ModelRequestCompleted { .. }
        | RuntimeEvent::ToolExecutionStarted { .. }
        | RuntimeEvent::ToolExecutionProgress { .. }
        | RuntimeEvent::ToolExecutionCompleted { .. }
        | RuntimeEvent::ToolExecutionFailed { .. }
        | RuntimeEvent::CompactionStarted
        | RuntimeEvent::CompactionCompleted { .. }
        | RuntimeEvent::CompactionFailed { .. } => false,
        _ => true,
    }
}

proof fn lemma_retried_failure(state: SnapshotModel, operation: String, diagnostic: String)
    ensures
        state.reported(ConversationObservation::DurableFailure { operation, diagnostic })
            == crate::fold::silent(state),
{
    reveal(SnapshotModel::reported);
}

/// How a model is asked, how a workflow goes and what other owners record stays internal: it
/// changes nothing and nobody is told. The same holds of a failure of the durable record that
/// is tried again.
pub proof fn law_internal_facts_stay_internal(
    state: SnapshotModel,
    attempt_id: AttemptId,
    event: RuntimeEvent,
    operation: String,
    diagnostic: String,
)
    ensures
        ({
            let step = state.reported(ConversationObservation::Event { attempt_id, event });
            stays_internal(event) ==> step.state == state && step.events.len() == 0
        }),
        ({
            let step = state.reported(
                ConversationObservation::DurableFailure { operation, diagnostic },
            );
            step.state == state && step.events.len() == 0
        }),
{
    crate::call_laws::lemma_fact(state, attempt_id, event);
    lemma_retried_failure(state, operation, diagnostic);
}

/// A compaction is in progress from its start to its failure or its commit. Only a commit
/// counts, for one, and leaves what it did as the latest. Each is told with the attempt that
/// caused it, or with none where it was asked for by hand, and changes nothing else.
pub proof fn law_a_compaction_lives_from_start_to_end(
    state: SnapshotModel,
    attempt_id: Option<AttemptId>,
    event: RuntimeEvent,
)
    requires
        event is CompactionCompleted ==> state.context.compaction_count < u64::MAX,
    ensures
        ({
            let step = match attempt_id {
                Some(attempt_id) => state.reported(
                    ConversationObservation::Event { attempt_id, event },
                ),
                None => state.reported(ConversationObservation::ManualCompactionEvent { event }),
            };
            let after = step.state.context;
            match event {
                RuntimeEvent::CompactionStarted => {
                    &&& step.state == SnapshotModel { context: after, ..state }
                    &&& after.compaction_in_progress
                    &&& after.compaction_count == state.context.compaction_count
                    &&& after.latest_compaction == state.context.latest_compaction
                    &&& step.events == seq![
                        EventModel::Plain(
                            RuntimeClientEvent::ContextCompactionStarted { attempt_id },
                        ),
                    ]
                },
                RuntimeEvent::CompactionFailed { error } => {
                    &&& step.state == SnapshotModel { context: after, ..state }
                    &&& !after.compaction_in_progress
                    &&& after.compaction_count == state.context.compaction_count
                    &&& after.latest_compaction == state.context.latest_compaction
                    &&& step.events == seq![
                        EventModel::Plain(
                            RuntimeClientEvent::ContextCompactionFailed { attempt_id, error },
                        ),
                    ]
                },
                RuntimeEvent::CompactionCompleted {
                    generation,
                    summary_message_id,
                    surface_revision,
                    tokens_before,
                    estimated_tokens_after,
                } => {
                    &&& step.state == SnapshotModel { context: after, ..state }
                    &&& !after.compaction_in_progress
                    &&& after.compaction_count == state.context.compaction_count + 1
                    &&& after.latest_compaction == Some(
                        RuntimeClientCompactionView {
                            generation,
                            summary_message_id,
                            surface_revision,
                            tokens_before,
                            estimated_tokens_after,
                        },
                    )
                    &&& step.events == seq![
                        EventModel::Plain(
                            RuntimeClientEvent::ContextCompacted { attempt_id, context: after },
                        ),
                    ]
                },
                _ => true,
            }
        }),
{
    match attempt_id {
        Some(attempt_id) => crate::call_laws::lemma_fact(state, attempt_id, event),
        None => lemma_manual(state, event),
    }
}

/// A message that is accepted into the mailbox waits there, behind the others, and is told
/// with its place in the mailbox and in the transcript.
pub proof fn law_an_accepted_message_waits_last(state: SnapshotModel, item: InboundItem)
    ensures
        ({
            let step = state.reported(ConversationObservation::InboundEnqueued(item));
            &&& step.state == SnapshotModel {
                inbound_pending: state.inbound_pending.push(
                    InboundItemView { sequence: item.sequence, message: item.message },
                ),
                ..state
            }
            &&& step.events == seq![
                EventModel::Plain(
                    RuntimeClientEvent::InboundEnqueued {
                        sequence: item.sequence,
                        message: item.message,
                        transcript_cursor: match item.transcript_cursor {
                            Some(cursor) => Some(
                                RuntimeClientTranscriptCursor { value: cursor.value },
                            ),
                            None => None,
                        },
                    },
                ),
            ]
        }),
{
    reveal(SnapshotModel::reported);
}

/// A drain takes every message up to its watermark from the mailbox and none behind it; what
/// waits on keeps its order. The drain is recorded and told with its watermark, how many
/// messages it took and which, in their order. Nothing else changes.
pub proof fn law_a_drain_takes_everything_up_to_its_watermark(
    state: SnapshotModel,
    batch: InboundBatch,
    item: InboundItemView,
)
    ensures
        ({
            let step = state.reported(ConversationObservation::InboundDrained(batch));
            let after = step.state.inbound_pending;
            let count = batch.items@.len() as usize;
            &&& step.state == SnapshotModel {
                inbound_pending: after,
                last_drain: Some(InboundDrainView { watermark: batch.watermark, count }),
                ..state
            }
            &&& after.contains(item) <==> state.inbound_pending.contains(item)
                && item.sequence.value > batch.watermark.value
            &&& after == state.inbound_pending.filter(
                |waiting: InboundItemView| waiting.sequence.value > batch.watermark.value,
            )
            &&& step.events.len() == 1
            &&& step.events[0] matches EventModel::Drained {
                watermark,
                count: told,
                message_ids,
            } && {
                &&& watermark == batch.watermark
                &&& told == count
                &&& message_ids.len() == batch.items@.len()
                &&& forall|i: int|
                    0 <= i < message_ids.len() ==> #[trigger] message_ids[i]
                        == batch.items@[i].message.id
            }
        }),
{
    reveal(SnapshotModel::reported);
    let test = crate::lists::waits_behind(batch.watermark);
    crate::fold_laws::lemma_filter_contains(state.inbound_pending, test, item);
    assert(test =~= |waiting: InboundItemView|
        waiting.sequence.value > batch.watermark.value);
}

/// A prompt that is put is pending, and told. A durable record of it is told behind it, with
/// its place in the transcript. Nothing but the prompts changes.
pub proof fn law_a_prompt_that_is_put_is_pending(
    state: SnapshotModel,
    prompt: Arc<RoutedInteraction>,
    audit: Option<(Arc<RuntimeClientTranscriptInteractionRequested>, TranscriptCursor)>,
)
    ensures
        ({
            let put = state.reported(
                ConversationObservation::InteractionPending { interaction: prompt, audit },
            );
            &&& put.state == SnapshotModel {
                pending_interactions: put.state.pending_interactions,
                ..state
            }
            &&& put.state.pending_interactions.contains(prompt)
            &&& put.events[0] == EventModel::Plain(
                RuntimeClientEvent::InteractionPending { interaction: prompt },
            )
            &&& match audit {
                Some((audit, cursor)) => put.events.len() == 2 && put.events[1]
                    == EventModel::Plain(
                    RuntimeClientEvent::InteractionAuditRequested {
                        audit,
                        transcript_cursor: RuntimeClientTranscriptCursor { value: cursor.value },
                    },
                ),
                None => put.events.len() == 1,
            }
        }),
{
    reveal(SnapshotModel::reported);
    lemma_prompt_is_among(state.pending_interactions, prompt);
}

proof fn lemma_prompt_is_among(
    prompts: Seq<Arc<RoutedInteraction>>,
    prompt: Arc<RoutedInteraction>,
)
    ensures
        crate::lists::upsert_interaction_spec(prompts, prompt).contains(prompt),
{
    let test = crate::lists::is_same_interaction(prompt);
    crate::search::lemma_position(prompts, test);
    match crate::search::position(prompts, test) {
        Some(index) => {
            assert(prompts.update(index, prompt)[index] == prompt);
        },
        None => {
            let all = prompts.push(prompt);
            crate::search::lemma_ordered_keeps_apart(
                all,
                crate::search::places::<Arc<RoutedInteraction>>(),
                |a: Arc<RoutedInteraction>, b: Arc<RoutedInteraction>| true,
            );
            assert(all[prompts.len() as int] == prompt);
        },
    }
}

/// A prompt that is settled is pending no more, and told with its outcome; every other prompt
/// stays. A durable record of it is told behind it, with its place in the transcript. Nothing
/// but the prompts changes.
pub proof fn law_a_prompt_that_is_settled_is_gone(
    state: SnapshotModel,
    address: InteractionRef,
    outcome: InteractionOutcome,
    audit: Option<(Arc<RuntimeClientTranscriptInteractionSettled>, TranscriptCursor)>,
    other: Arc<RoutedInteraction>,
)
    ensures
        ({
            let ended = state.reported(
                ConversationObservation::InteractionSettled {
                    interaction: address,
                    outcome,
                    audit,
                },
            );
            let is_address = other.interaction.conversation_id@ == address.conversation_id@
                && other.interaction.interaction_id@ == address.interaction_id@;
            &&& ended.state == SnapshotModel {
                pending_interactions: ended.state.pending_interactions,
                ..state
            }
            &&& ended.state.pending_interactions.contains(other)
                <==> state.pending_interactions.contains(other) && !is_address
            &&& ended.events[0] == EventModel::Plain(
                RuntimeClientEvent::InteractionSettled { interaction: address, outcome },
            )
            &&& match audit {
                Some((audit, cursor)) => ended.events.len() == 2 && ended.events[1]
                    == EventModel::Plain(
                    RuntimeClientEvent::InteractionAuditSettled {
                        audit,
                        transcript_cursor: RuntimeClientTranscriptCursor { value: cursor.value },
                    },
                ),
                None => ended.events.len() == 1,
            }
        }),
{
    reveal(SnapshotModel::reported);
    crate::fold_laws::lemma_filter_contains(
        state.pending_interactions,
        crate::lists::is_other_interaction(address),
        other,
    );
}

/// A prompt that is gone without an outcome is pending no more, and told so; every other prompt
/// stays, and nothing else changes.
pub proof fn law_a_prompt_that_is_removed_is_gone(
    state: SnapshotModel,
    address: InteractionRef,
    other: Arc<RoutedInteraction>,
)
    ensures
        ({
            let gone = state.reported(
                ConversationObservation::InteractionRemoved { interaction: address },
            );
            let is_address = other.interaction.conversation_id@ == address.conversation_id@
                && other.interaction.interaction_id@ == address.interaction_id@;
            &&& gone.state == SnapshotModel {
                pending_interactions: gone.state.pending_interactions,
                ..state
            }
            &&& gone.state.pending_interactions.contains(other)
                <==> state.pending_interactions.contains(other) && !is_address
            &&& gone.events == seq![
                EventModel::Plain(RuntimeClientEvent::InteractionRemoved { interaction: address }),
            ]
        }),
{
    reveal(SnapshotModel::reported);
    crate::fold_laws::lemma_filter_contains(
        state.pending_interactions,
        crate::lists::is_other_interaction(address),
        other,
    );
}

/// The session's model is shown as it is reported, and told. The attempt stays on the model
/// that it froze, and nothing else changes.
pub proof fn law_the_session_model_is_shown_as_reported(
    state: SnapshotModel,
    model: Arc<SessionModelView>,
)
    ensures
        ({
            let step = state.reported(ConversationObservation::SessionModelChanged { model });
            &&& step.state == SnapshotModel { model, ..state }
            &&& step.events == seq![
                EventModel::Plain(RuntimeClientEvent::SessionModelChanged { model }),
            ]
        }),
{
    reveal(SnapshotModel::reported);
}

/// The approval mode is shown as it is reported, and told: the mode in force, the one that
/// waits, and the revision. Nothing else changes.
pub proof fn law_the_approval_mode_is_shown_as_reported(
    state: SnapshotModel,
    effective: ApprovalMode,
    pending: Option<ApprovalMode>,
    revision: u64,
)
    ensures
        ({
            let step = state.reported(
                ConversationObservation::ApprovalModeChanged { effective, pending, revision },
            );
            &&& step.state == SnapshotModel {
                effective_approval_mode: effective,
                pending_approval_mode: pending,
                approval_mode_revision: revision,
                ..state
            }
            &&& step.events == seq![
                EventModel::Plain(
                    RuntimeClientEvent::ApprovalModeChanged {
                        effective_approval_mode: effective,
                        pending_approval_mode: pending,
                        revision,
                    },
                ),
            ]
        }),
{
    reveal(SnapshotModel::reported);
}

/// The end of the runtime is shown and told, and changes nothing else.
pub proof fn law_the_end_of_the_runtime_is_shown(state: SnapshotModel)
    ensures
        ({
            let step = state.reported(ConversationObservation::Shutdown);
            &&& step.state == SnapshotModel { shutting_down: true, ..state }
            &&& step.events == seq![EventModel::Plain(RuntimeClientEvent::RuntimeShutdown)]
        }),
{
    reveal(SnapshotModel::reported);
}

/// A failure of the durable record that stays is shown with its operation and its diagnostic,
/// and told. It changes nothing else.
pub proof fn law_a_lasting_failure_is_shown(
    state: SnapshotModel,
    operation: String,
    diagnostic: String,
)
    ensures
        ({
            let step = state.reported(
                ConversationObservation::DurabilityFailed { operation, diagnostic },
            );
            &&& step.state == SnapshotModel {
                durability_failure: Some(RuntimeDurabilityFailure { operation, diagnostic }),
                ..state
            }
            &&& step.events == seq![
                EventModel::Plain(
                    RuntimeClientEvent::RuntimeDurabilityFailed { operation, diagnostic },
                ),
            ]
        }),
{
    reveal(SnapshotModel::reported);
}

/// A failure of the durable record that is tried again is neither shown nor told.
pub proof fn law_a_passing_failure_is_not_shown(state: SnapshotModel, report: ConversationObservation)
    requires
        report is DurableFailure,
    ensures
        state.reported(report).state == state,
        state.reported(report).events.len() == 0,
{
    reveal(SnapshotModel::reported);
}

} // verus!
