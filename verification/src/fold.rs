//! What each report of the runtime does to the read model, and what it publishes.
//!
//! Every kind of report is classified: it is published as one or more events, it only
//! changes the read model, or it stays inside. The mechanics of model requests stay
//! inside; a client learns of them what the settlement of the attempt says.
use std::sync::Arc;

use vstd::prelude::*;

use crate::attempt::{ForegroundSettlement, TextKind};
#[allow(unused_imports)]
use crate::event::EventModel;
use crate::event::{RuntimeClientEvent, RuntimeClientOutcome};
use crate::identity::{AttemptId, MessageId};
use crate::interaction::InteractionRef;
use crate::journal::RuntimeEvent;
use crate::lists::{
    admit_status, drain_inbound, push_in_flight_block, remove_interaction,
    remove_interactions_of, upsert_background, upsert_interaction, upsert_subagent,
};
use crate::message::MessageBlock;
use crate::observation::{
    AgentStatusObservation, ConversationObservation, InboundBatch, SubagentSnapshot, TodoSnapshot,
    TranscriptCursor,
};
use crate::publication::{PublicationFrame, PublicationPayload, PublicationStreamStart};
use crate::share::share;
#[allow(unused_imports)]
use crate::snapshot::{
    AttemptModel, ForegroundModel, ForegroundStateModel, InFlightBlockModel, InFlightModel,
    SnapshotModel,
};
use crate::snapshot::{
    ForegroundToolExecution, ForegroundToolState, InFlightAssistantMessage, InFlightBlock,
    InboundDrainView, RuntimeClientAttempt, RuntimeClientAttemptPhase, RuntimeClientCompactionView,
    RuntimeClientContextView, RuntimeClientSnapshot, RuntimeClientTranscriptCursor,
    RuntimeDurabilityFailure,
};
#[allow(unused_imports)]
use crate::tool::ToolResultModel;
use crate::tool::{ToolCallStart, ToolExecutionResult};
use crate::views::{
    background_view, capability_view, client_failure, inbound_item_view, resources_view,
    status_view, subagent_view,
};

verus! {

/// The outcome of one report: the read model after it, and what it publishes, in order.
#[verifier::ext_equal]
pub struct Step {
    pub state: SnapshotModel,
    pub events: Seq<EventModel>,
}

/// A step that publishes one event.
pub open spec fn publishes(state: SnapshotModel, event: RuntimeClientEvent) -> Step {
    Step { state, events: seq![EventModel::Plain(event)] }
}

/// A step that publishes nothing.
pub open spec fn silent(state: SnapshotModel) -> Step {
    Step { state, events: Seq::empty() }
}

/// A copy of an optional identity.
fn copy_attempt_id(attempt_id: &Option<AttemptId>) -> (copy: Option<AttemptId>)
    ensures
        copy == *attempt_id,
{
    match attempt_id {
        Some(attempt_id) => Some(attempt_id.clone()),
        None => None,
    }
}

/// The list of one event.
fn one(event: RuntimeClientEvent) -> (events: Vec<RuntimeClientEvent>)
    ensures
        crate::event::event_models(events@) == seq![event@],
{
    let mut events: Vec<RuntimeClientEvent> = Vec::new();
    events.push(event);
    assert(crate::event::event_models(events@) =~= seq![event@]);
    events
}

/// Puts an event behind others.
fn publish_next(events: &mut Vec<RuntimeClientEvent>, event: RuntimeClientEvent)
    ensures
        crate::event::event_models(final(events)@) == crate::event::event_models(
            old(events)@,
        ).push(event@),
{
    let ghost before = crate::event::event_models(events@);
    events.push(event);
    assert(crate::event::event_models(events@) =~= before.push(event@));
}

/// The list of no event.
fn none() -> (events: Vec<RuntimeClientEvent>)
    ensures
        crate::event::event_models(events@) == Seq::<EventModel>::empty(),
{
    let events: Vec<RuntimeClientEvent> = Vec::new();
    assert(crate::event::event_models(events@) =~= Seq::empty());
    events
}

impl SnapshotModel {
    /// The attempt settles: its phase is the outcome, and no compaction goes on. The
    /// settlement is published once, whether or not the attempt is shown.
    pub open spec fn attempt_settled(
        self,
        attempt_id: AttemptId,
        outcome: RuntimeClientOutcome,
    ) -> Step {
        publishes(
            match self.attempt {
                Some(attempt) if attempt.attempt_id@ == attempt_id@ => SnapshotModel {
                    attempt: Some(
                        AttemptModel {
                            phase: RuntimeClientAttemptPhase::Settled { outcome },
                            ..attempt
                        },
                    ),
                    context: RuntimeClientContextView {
                        compaction_in_progress: false,
                        ..self.context
                    },
                    ..self
                },
                _ => self,
            },
            RuntimeClientEvent::AttemptSettled { attempt_id, outcome },
        )
    }

    /// A tool call settles with a result. Only a call that had settled before stays
    /// silent.
    pub open spec fn call_settled(
        self,
        attempt_id: AttemptId,
        tool_call_id: crate::identity::ToolCallId,
        tool_id: crate::identity::ToolId,
        result: ToolResultModel,
    ) -> Step {
        Step {
            state: self.with_call_state(
                attempt_id@,
                tool_call_id@,
                crate::attempt::settling(result),
            ),
            events: if self.settlement(attempt_id@, tool_call_id@)
                == ForegroundSettlement::AlreadySettled {
                Seq::empty()
            } else {
                seq![EventModel::ToolSettled { attempt_id, tool_call_id, tool_id, result }]
            },
        }
    }

    /// A compaction begins, fails or is committed, for an attempt or by hand.
    pub open spec fn compaction(self, attempt_id: Option<AttemptId>, event: RuntimeEvent) -> Step {
        match event {
            RuntimeEvent::CompactionStarted => publishes(
                SnapshotModel {
                    context: RuntimeClientContextView {
                        compaction_in_progress: true,
                        ..self.context
                    },
                    ..self
                },
                RuntimeClientEvent::ContextCompactionStarted { attempt_id },
            ),
            RuntimeEvent::CompactionFailed { error } => publishes(
                SnapshotModel {
                    context: RuntimeClientContextView {
                        compaction_in_progress: false,
                        ..self.context
                    },
                    ..self
                },
                RuntimeClientEvent::ContextCompactionFailed { attempt_id, error },
            ),
            RuntimeEvent::CompactionCompleted {
                generation,
                summary_message_id,
                surface_revision,
                tokens_before,
                estimated_tokens_after,
            } => {
                let context = RuntimeClientContextView {
                    compaction_in_progress: false,
                    compaction_count: (self.context.compaction_count + 1) as u64,
                    latest_compaction: Some(
                        RuntimeClientCompactionView {
                            generation,
                            summary_message_id,
                            surface_revision,
                            tokens_before,
                            estimated_tokens_after,
                        },
                    ),
                };
                publishes(
                    SnapshotModel { context, ..self },
                    RuntimeClientEvent::ContextCompacted { attempt_id, context },
                )
            },
            _ => silent(self),
        }
    }

    /// What a fact of the journal does for an attempt.
    pub open spec fn journal_fact(self, attempt_id: AttemptId, event: RuntimeEvent) -> Step {
        match event {
            RuntimeEvent::AttemptStarted { .. } => {
                let model = self.frozen_model(attempt_id@);
                publishes(
                    self.with_attempt(
                        AttemptModel::fresh(
                            attempt_id,
                            RuntimeClientAttemptPhase::Running,
                            model,
                        ),
                    ),
                    RuntimeClientEvent::AttemptStarted { attempt_id, model },
                )
            },
            RuntimeEvent::AttemptCompleted { finish_reason, .. } => self.attempt_settled(
                attempt_id,
                RuntimeClientOutcome::Completed { finish_reason },
            ),
            RuntimeEvent::AttemptCancelled { reason, .. } => self.attempt_settled(
                attempt_id,
                RuntimeClientOutcome::Cancelled { reason },
            ),
            RuntimeEvent::AttemptTimedOut { .. } => self.attempt_settled(
                attempt_id,
                RuntimeClientOutcome::TimedOut,
            ),
            RuntimeEvent::AttemptLimitExceeded { limit, .. } => self.attempt_settled(
                attempt_id,
                RuntimeClientOutcome::LimitExceeded { limit },
            ),
            RuntimeEvent::AttemptFailed { error, .. } => self.attempt_settled(
                attempt_id,
                RuntimeClientOutcome::Failed { error: crate::views::client_failure_spec(error) },
            ),
            RuntimeEvent::TurnCompleted => match self.attempt {
                Some(attempt) if attempt.attempt_id@ == attempt_id@ => {
                    let turn = if attempt.turn < u32::MAX {
                        (attempt.turn + 1) as u32
                    } else {
                        u32::MAX
                    };
                    publishes(
                        self.with_attempt(AttemptModel { turn, ..attempt }),
                        RuntimeClientEvent::AttemptTurnUpdated { attempt_id, turn },
                    )
                },
                _ => silent(self),
            },
            RuntimeEvent::ModelRequestCompleted { usage: Some(usage), .. } => match self.attempt {
                Some(attempt) if attempt.attempt_id@ == attempt_id@ => publishes(
                    self.with_attempt(AttemptModel { last_usage: Some(usage), ..attempt }),
                    RuntimeClientEvent::AttemptUsageUpdated { attempt_id, usage },
                ),
                _ => silent(self),
            },
            RuntimeEvent::ToolExecutionStarted { tool_call_id, tool_id } => publishes(
                self.with_call_state(attempt_id@, tool_call_id@, crate::attempt::starting()),
                RuntimeClientEvent::ToolExecutionStarted { attempt_id, tool_call_id, tool_id },
            ),
            RuntimeEvent::ToolExecutionProgress {
                tool_call_id,
                tool_id,
                execution_id,
                progress,
            } => publishes(
                self.with_call_state(
                    attempt_id@,
                    tool_call_id@,
                    crate::attempt::progressing(progress),
                ),
                RuntimeClientEvent::ToolExecutionProgress {
                    attempt_id,
                    tool_call_id,
                    tool_id,
                    execution_id,
                    progress,
                },
            ),
            RuntimeEvent::ToolExecutionCompleted {
                tool_call_id,
                tool_id,
                result,
            } => self.call_settled(attempt_id, tool_call_id, tool_id, result@),
            RuntimeEvent::ToolExecutionFailed { tool_call_id, tool_id, error } => self.call_settled(
                attempt_id,
                tool_call_id,
                tool_id,
                ToolResultModel::failed(error),
            ),
            RuntimeEvent::CompactionStarted
            | RuntimeEvent::CompactionCompleted { .. }
            | RuntimeEvent::CompactionFailed { .. } => self.compaction(Some(attempt_id), event),
            _ => silent(self),
        }
    }

    /// The model starts to propose a tool call.
    pub open spec fn call_proposed(
        self,
        index: crate::message::ContentBlockIndex,
        call: ToolCallStart,
    ) -> Self {
        match self.attempt {
            Some(attempt) => self.with_attempt(
                AttemptModel {
                    foreground: attempt.foreground.push(
                        ForegroundModel {
                            call_id: call.id,
                            tool_id: call.tool_id,
                            name: call.name,
                            state: ForegroundStateModel::Assembled { arguments: Seq::empty() },
                        },
                    ),
                    in_flight: crate::lists::push_in_flight_block_spec(
                        attempt.in_flight,
                        InFlightBlockModel::ToolCall {
                            block_index: index,
                            call_id: call.id,
                            tool_id: call.tool_id,
                            name: call.name,
                            arguments: Seq::empty(),
                        },
                    ),
                    ..attempt
                },
            ),
            None => self,
        }
    }

    /// What a frame of a stream does for an attempt.
    pub open spec fn stream_frame(self, attempt_id: AttemptId, frame: PublicationFrame) -> Step {
        let message_id = frame.message_id;
        match frame.payload {
            PublicationPayload::TextSuffix { block_index, suffix } => publishes(
                self.ensured(attempt_id).with_more_text(block_index, suffix@, TextKind::Text),
                RuntimeClientEvent::AssistantTextDelta {
                    attempt_id,
                    message_id,
                    block_index,
                    delta: suffix,
                },
            ),
            PublicationPayload::ReasoningSuffix { block_index, suffix } => publishes(
                self.ensured(attempt_id).with_more_text(block_index, suffix@, TextKind::Reasoning),
                RuntimeClientEvent::AssistantReasoningDelta {
                    attempt_id,
                    message_id,
                    block_index,
                    delta: suffix,
                },
            ),
            PublicationPayload::RefusalSuffix { block_index, suffix } => publishes(
                self.ensured(attempt_id).with_more_text(block_index, suffix@, TextKind::Refusal),
                RuntimeClientEvent::AssistantRefusalDelta {
                    attempt_id,
                    message_id,
                    block_index,
                    delta: suffix,
                },
            ),
            PublicationPayload::ProposedToolCallStarted { block_index, call } => publishes(
                self.ensured(attempt_id).call_proposed(block_index, call),
                RuntimeClientEvent::ToolCallStarted { attempt_id, message_id, block_index, call },
            ),
            PublicationPayload::ProposedToolCallArgumentsSuffix {
                block_index,
                call_id,
                suffix,
            } => publishes(
                self.with_arguments(call_id@, crate::attempt::appending(suffix@)),
                RuntimeClientEvent::ToolCallArgumentsDelta {
                    attempt_id,
                    message_id,
                    block_index,
                    call_id,
                    arguments_delta: suffix,
                },
            ),
            PublicationPayload::ProposedToolCallCompleted { block_index, call } => publishes(
                self.with_arguments(call.id@, crate::attempt::replacing(call.arguments@)),
                RuntimeClientEvent::ToolCallAssembled { attempt_id, message_id, block_index, call },
            ),
            PublicationPayload::TerminalOnly => silent(self),
        }
    }
}

impl RuntimeClientSnapshot {
    /// Settles an attempt and publishes the settlement.
    fn settle_attempt(
        &mut self,
        attempt_id: &AttemptId,
        outcome: RuntimeClientOutcome,
    ) -> (events: Vec<RuntimeClientEvent>)
        ensures
            (Step { state: final(self)@, events: crate::event::event_models(events@) })
                == old(self)@.attempt_settled(*attempt_id, outcome),
    {
        if let Some(attempt) = &mut self.attempt {
            if attempt.attempt_id.same(attempt_id) {
                attempt.phase = RuntimeClientAttemptPhase::Settled { outcome: outcome.clone() };
                self.context.compaction_in_progress = false;
            }
        }
        one(RuntimeClientEvent::AttemptSettled { attempt_id: attempt_id.clone(), outcome })
    }

    /// Settles a tool call and publishes the settlement, unless it had settled before.
    fn settle_call(
        &mut self,
        attempt_id: &AttemptId,
        tool_call_id: &crate::identity::ToolCallId,
        tool_id: &crate::identity::ToolId,
        result: Arc<ToolExecutionResult>,
    ) -> (events: Vec<RuntimeClientEvent>)
        ensures
            (Step { state: final(self)@, events: crate::event::event_models(events@) })
                == old(self)@.call_settled(*attempt_id, *tool_call_id, *tool_id, result@),
    {
        let settlement = self.settle_foreground(attempt_id, tool_call_id, share(&result));
        if let ForegroundSettlement::AlreadySettled = settlement {
            return none();
        }
        one(
            RuntimeClientEvent::ToolExecutionSettled {
                attempt_id: attempt_id.clone(),
                tool_call_id: tool_call_id.clone(),
                tool_id: tool_id.clone(),
                result,
            },
        )
    }

    /// Folds the life of a compaction, which is the same whether an attempt caused it or
    /// it was asked for by hand.
    pub(crate) fn fold_compaction_event(
        &mut self,
        attempt_id: &Option<AttemptId>,
        event: &RuntimeEvent,
    ) -> (events: Vec<RuntimeClientEvent>)
        requires
            event.is_compaction(),
            event is CompactionCompleted ==> old(self).context.compaction_count < u64::MAX,
        ensures
            (Step { state: final(self)@, events: crate::event::event_models(events@) })
                == old(self)@.compaction(*attempt_id, *event),
    {
        match event {
            RuntimeEvent::CompactionStarted => {
                self.context.compaction_in_progress = true;
                one(
                    RuntimeClientEvent::ContextCompactionStarted {
                        attempt_id: copy_attempt_id(attempt_id),
                    },
                )
            },
            RuntimeEvent::CompactionFailed { error } => {
                self.context.compaction_in_progress = false;
                one(
                    RuntimeClientEvent::ContextCompactionFailed {
                        attempt_id: copy_attempt_id(attempt_id),
                        error: error.clone(),
                    },
                )
            },
            RuntimeEvent::CompactionCompleted {
                generation,
                summary_message_id,
                surface_revision,
                tokens_before,
                estimated_tokens_after,
            } => {
                self.context = RuntimeClientContextView {
                    compaction_in_progress: false,
                    compaction_count: self.context.compaction_count + 1,
                    latest_compaction: Some(
                        RuntimeClientCompactionView {
                            generation: *generation,
                            summary_message_id: summary_message_id.clone(),
                            surface_revision: *surface_revision,
                            tokens_before: *tokens_before,
                            estimated_tokens_after: *estimated_tokens_after,
                        },
                    ),
                };
                one(
                    RuntimeClientEvent::ContextCompacted {
                        attempt_id: copy_attempt_id(attempt_id),
                        context: self.context.clone(),
                    },
                )
            },
            _ => none(),
        }
    }

    /// Folds one fact of the journal for an attempt.
    pub(crate) fn fold_event(
        &mut self,
        attempt_id: &AttemptId,
        event: &RuntimeEvent,
    ) -> (events: Vec<RuntimeClientEvent>)
        requires
            event is CompactionCompleted ==> old(self).context.compaction_count < u64::MAX,
        ensures
            (Step { state: final(self)@, events: crate::event::event_models(events@) })
                == old(self)@.journal_fact(*attempt_id, *event),
    {
        match event {
            RuntimeEvent::AttemptStarted { .. } => {
                let model = self.frozen_attempt_model(attempt_id);
                self.attempt = Some(
                    RuntimeClientAttempt::fresh(
                        attempt_id.clone(),
                        RuntimeClientAttemptPhase::Running,
                        share(&model),
                    ),
                );
                one(RuntimeClientEvent::AttemptStarted { attempt_id: attempt_id.clone(), model })
            },
            RuntimeEvent::AttemptCompleted { finish_reason, .. } => self.settle_attempt(
                attempt_id,
                RuntimeClientOutcome::Completed { finish_reason: finish_reason.clone() },
            ),
            RuntimeEvent::AttemptCancelled { reason, .. } => self.settle_attempt(
                attempt_id,
                RuntimeClientOutcome::Cancelled { reason: *reason },
            ),
            RuntimeEvent::AttemptTimedOut { .. } => self.settle_attempt(
                attempt_id,
                RuntimeClientOutcome::TimedOut,
            ),
            RuntimeEvent::AttemptLimitExceeded { limit, .. } => self.settle_attempt(
                attempt_id,
                RuntimeClientOutcome::LimitExceeded { limit: *limit },
            ),
            RuntimeEvent::AttemptFailed { error, .. } => self.settle_attempt(
                attempt_id,
                RuntimeClientOutcome::Failed { error: client_failure(error) },
            ),
            RuntimeEvent::TurnCompleted => {
                if let Some(attempt) = &mut self.attempt {
                    if attempt.attempt_id.same(attempt_id) {
                        attempt.turn = attempt.turn.saturating_add(1);
                        return one(
                            RuntimeClientEvent::AttemptTurnUpdated {
                                attempt_id: attempt_id.clone(),
                                turn: attempt.turn,
                            },
                        );
                    }
                }
                none()
            },
            RuntimeEvent::TurnStarted
            | RuntimeEvent::ModelRequestStarted { .. }
            | RuntimeEvent::ModelRequestFailed { .. }
            | RuntimeEvent::ModelRetryScheduled { .. }
            | RuntimeEvent::AgentStatusEmitted { .. } => none(),
            RuntimeEvent::ModelRequestCompleted { usage, .. } => {
                if let Some(usage) = usage {
                    if let Some(attempt) = &mut self.attempt {
                        if attempt.attempt_id.same(attempt_id) {
                            attempt.last_usage = Some(*usage);
                            return one(
                                RuntimeClientEvent::AttemptUsageUpdated {
                                    attempt_id: attempt_id.clone(),
                                    usage: *usage,
                                },
                            );
                        }
                    }
                }
                none()
            },
            RuntimeEvent::AssistantMessageCommitted { .. }
            | RuntimeEvent::ToolMessageCommitted { .. } => none(),
            RuntimeEvent::InboundTurnAdopted { .. } => none(),
            RuntimeEvent::ToolExecutionStarted { tool_call_id, tool_id } => {
                self.start_foreground(attempt_id, tool_call_id);
                one(
                    RuntimeClientEvent::ToolExecutionStarted {
                        attempt_id: attempt_id.clone(),
                        tool_call_id: tool_call_id.clone(),
                        tool_id: tool_id.clone(),
                    },
                )
            },
            RuntimeEvent::ToolExecutionProgress {
                tool_call_id,
                tool_id,
                execution_id,
                progress,
            } => {
                self.progress_foreground(attempt_id, tool_call_id, progress);
                one(
                    RuntimeClientEvent::ToolExecutionProgress {
                        attempt_id: attempt_id.clone(),
                        tool_call_id: tool_call_id.clone(),
                        tool_id: tool_id.clone(),
                        execution_id: match execution_id {
                            Some(execution_id) => Some(execution_id.clone()),
                            None => None,
                        },
                        progress: progress.clone(),
                    },
                )
            },
            RuntimeEvent::ToolExecutionCompleted {
                tool_call_id,
                tool_id,
                result,
            } => self.settle_call(attempt_id, tool_call_id, tool_id, share(result)),
            RuntimeEvent::ToolExecutionFailed { tool_call_id, tool_id, error } => self.settle_call(
                attempt_id,
                tool_call_id,
                tool_id,
                Arc::new(ToolExecutionResult::failed(error)),
            ),
            RuntimeEvent::CompactionStarted
            | RuntimeEvent::CompactionCompleted { .. }
            | RuntimeEvent::CompactionFailed { .. } => {
                let attempt_id = Some(attempt_id.clone());
                self.fold_compaction_event(&attempt_id, event)
            },
            RuntimeEvent::BackgroundExecutionCommitted { .. }
            | RuntimeEvent::BackgroundTerminalPublished { .. }
            | RuntimeEvent::SubagentOwnershipCommitted { .. }
            | RuntimeEvent::SubagentTerminalPublished { .. }
            | RuntimeEvent::SubagentTerminalSettled { .. }
            | RuntimeEvent::SubagentWorkspaceDisposalStarted { .. }
            | RuntimeEvent::SubagentWorkspaceDisposalSettled { .. } => none(),
            RuntimeEvent::InteractionRequested { .. }
            | RuntimeEvent::InteractionSettled { .. } => none(),
            RuntimeEvent::WorkflowStarted { .. }
            | RuntimeEvent::WorkflowAgentAdmitted { .. }
            | RuntimeEvent::WorkflowAgentOutputCommitted { .. }
            | RuntimeEvent::WorkflowBranchSelected { .. }
            | RuntimeEvent::WorkflowParallelAdmitted { .. }
            | RuntimeEvent::WorkflowParallelSettled { .. }
            | RuntimeEvent::WorkflowCompleted { .. }
            | RuntimeEvent::WorkflowFailed { .. }
            | RuntimeEvent::WorkflowCancelled { .. } => none(),
        }
    }

    /// Shows a tool call that the model starts to propose.
    fn propose_call(&mut self, index: crate::message::ContentBlockIndex, call: &ToolCallStart)
        ensures
            final(self)@ == old(self)@.call_proposed(index, *call),
    {
        if let Some(attempt) = &mut self.attempt {
            let ghost before = crate::snapshot::foreground_models(attempt.foreground@);
            let slot = ForegroundToolExecution {
                call_id: call.id.clone(),
                tool_id: call.tool_id.clone(),
                name: call.name.clone(),
                state: ForegroundToolState::Assembled { arguments: String::new() },
            };
            let ghost added = slot@;
            attempt.foreground.push(slot);
            proof {
                assert(crate::snapshot::foreground_models(attempt.foreground@) =~= before.push(
                    added,
                ));
            }
            push_in_flight_block(
                &mut attempt.in_flight,
                InFlightBlock::ToolCall {
                    block_index: index,
                    call_id: call.id.clone(),
                    tool_id: call.tool_id.clone(),
                    name: call.name.clone(),
                    arguments: String::new(),
                },
            );
        }
    }

    /// Folds one frame of a stream.
    ///
    /// A call in a frame is a proposal: it is shown as assembled, and only the start of
    /// its execution makes it run.
    pub(crate) fn fold_publication_frame(
        &mut self,
        attempt_id: &AttemptId,
        frame: &PublicationFrame,
    ) -> (events: Vec<RuntimeClientEvent>)
        ensures
            (Step { state: final(self)@, events: crate::event::event_models(events@) })
                == old(self)@.stream_frame(*attempt_id, *frame),
    {
        let message_id = frame.message_id.clone();
        match &frame.payload {
            PublicationPayload::TextSuffix { block_index, suffix } => {
                self.ensure_attempt(attempt_id);
                self.append_text(*block_index, suffix.as_str(), TextKind::Text);
                one(
                    RuntimeClientEvent::AssistantTextDelta {
                        attempt_id: attempt_id.clone(),
                        message_id,
                        block_index: *block_index,
                        delta: suffix.clone(),
                    },
                )
            },
            PublicationPayload::ReasoningSuffix { block_index, suffix } => {
                self.ensure_attempt(attempt_id);
                self.append_text(*block_index, suffix.as_str(), TextKind::Reasoning);
                one(
                    RuntimeClientEvent::AssistantReasoningDelta {
                        attempt_id: attempt_id.clone(),
                        message_id,
                        block_index: *block_index,
                        delta: suffix.clone(),
                    },
                )
            },
            PublicationPayload::RefusalSuffix { block_index, suffix } => {
                self.ensure_attempt(attempt_id);
                self.append_text(*block_index, suffix.as_str(), TextKind::Refusal);
                one(
                    RuntimeClientEvent::AssistantRefusalDelta {
                        attempt_id: attempt_id.clone(),
                        message_id,
                        block_index: *block_index,
                        delta: suffix.clone(),
                    },
                )
            },
            PublicationPayload::ProposedToolCallStarted { block_index, call } => {
                self.ensure_attempt(attempt_id);
                self.propose_call(*block_index, call);
                one(
                    RuntimeClientEvent::ToolCallStarted {
                        attempt_id: attempt_id.clone(),
                        message_id,
                        block_index: *block_index,
                        call: call.clone(),
                    },
                )
            },
            PublicationPayload::ProposedToolCallArgumentsSuffix {
                block_index,
                call_id,
                suffix,
            } => {
                self.append_arguments(call_id, suffix.as_str());
                one(
                    RuntimeClientEvent::ToolCallArgumentsDelta {
                        attempt_id: attempt_id.clone(),
                        message_id,
                        block_index: *block_index,
                        call_id: call_id.clone(),
                        arguments_delta: suffix.clone(),
                    },
                )
            },
            PublicationPayload::ProposedToolCallCompleted { block_index, call } => {
                self.set_assembled(call);
                one(
                    RuntimeClientEvent::ToolCallAssembled {
                        attempt_id: attempt_id.clone(),
                        message_id,
                        block_index: *block_index,
                        call: call.clone(),
                    },
                )
            },
            PublicationPayload::TerminalOnly => none(),
        }
    }
}

impl SnapshotModel {
    /// A message becomes canonical: it comes last among the messages, an assistant's
    /// message is no longer being written, a published list of tasks becomes the list,
    /// and a tool's message settles its call if nothing settled it before.
    pub open spec fn committed(
        self,
        attempt_id: Option<AttemptId>,
        block: Arc<MessageBlock>,
        published_todos: Option<Arc<TodoSnapshot>>,
        transcript_cursor: Option<TranscriptCursor>,
    ) -> Step {
        let settled = self.commit_settles(attempt_id, block);
        Step {
            state: SnapshotModel {
                attempt: match settled.state.attempt {
                    Some(attempt) if *block is Assistant => Some(
                        AttemptModel { in_flight: None, ..attempt },
                    ),
                    _ => settled.state.attempt,
                },
                todos: match published_todos {
                    Some(todos) => todos@,
                    None => self.todos,
                },
                messages: self.messages.push(block),
                ..settled.state
            },
            events: settled.events.push(
                EventModel::Plain(
                    RuntimeClientEvent::MessageCommitted {
                        attempt_id,
                        message: block,
                        transcript_cursor: RuntimeClientTranscriptCursor::of_optional_spec(
                            transcript_cursor,
                        ),
                    },
                ),
            ),
        }
    }

    /// What a canonical message does to the tool call that it answers. Unlike a live
    /// settlement it says nothing of a call that is not shown.
    pub open spec fn commit_settles(
        self,
        attempt_id: Option<AttemptId>,
        block: Arc<MessageBlock>,
    ) -> Step {
        match (attempt_id, *block) {
            (Some(attempt_id), MessageBlock::Tool(tool)) => Step {
                state: self.with_call_state(
                    attempt_id@,
                    tool.tool_call_id@,
                    crate::attempt::settling(tool.result@),
                ),
                events: if self.settlement(attempt_id@, tool.tool_call_id@)
                    == ForegroundSettlement::Applied {
                    seq![
                        EventModel::ToolSettled {
                            attempt_id,
                            tool_call_id: tool.tool_call_id,
                            tool_id: tool.tool_id,
                            result: tool.result@,
                        },
                    ]
                } else {
                    Seq::empty()
                },
            },
            _ => silent(self),
        }
    }

    /// A status is composed: it joins the window, and the event names what it displaced.
    pub open spec fn status_composed(self, observation: AgentStatusObservation) -> Step {
        let view = crate::views::status_view_spec(observation);
        Step {
            state: SnapshotModel {
                statuses: crate::lists::admit_status_spec(self.statuses, view),
                ..self
            },
            events: seq![
                EventModel::StatusComposed {
                    attempt_id: observation.attempt_id,
                    turn: observation.turn,
                    status: view,
                    evicted_status_message_id: crate::lists::evicted_status_spec(
                        self.statuses,
                        view,
                    ),
                },
            ],
        }
    }

    /// The mailbox is drained: every message up to the watermark is taken from it at once,
    /// later ones wait for the next drain, and the drain is recorded.
    pub open spec fn drained(self, batch: InboundBatch) -> Step {
        Step {
            state: SnapshotModel {
                inbound_pending: self.inbound_pending.filter(
                    crate::lists::waits_behind(batch.watermark),
                ),
                last_drain: Some(
                    InboundDrainView {
                        watermark: batch.watermark,
                        count: batch.items@.len() as usize,
                    },
                ),
                ..self
            },
            events: seq![
                EventModel::Drained {
                    watermark: batch.watermark,
                    count: batch.items@.len() as usize,
                    message_ids: Seq::new(
                        batch.items@.len(),
                        |i: int| batch.items@[i].message.id,
                    ),
                },
            ],
        }
    }

    /// A subagent's record is replaced by a newer one.
    pub open spec fn subagent_updated(self, snapshot: SubagentSnapshot) -> Step {
        let view = Arc::new(crate::views::subagent_view_spec(snapshot));
        publishes(
            SnapshotModel {
                subagents: crate::search::upsert(
                    self.subagents,
                    crate::lists::is_subagent(snapshot.subagent_id@),
                    view,
                ),
                ..self
            },
            RuntimeClientEvent::SubagentUpdated { subagent: view },
        )
    }

    /// A subagent lives on or ends. With its end its prompts are gone, each with an event
    /// of its own.
    pub open spec fn subagent_lifecycle(self, snapshot: SubagentSnapshot) -> Step {
        let updated = self.subagent_updated(snapshot);
        if snapshot.state.is_terminal_spec() {
            let conversation = snapshot.child_conversation_id@;
            Step {
                state: SnapshotModel {
                    pending_interactions: self.pending_interactions.filter(
                        crate::lists::asks_elsewhere(conversation),
                    ),
                    ..updated.state
                },
                events: updated.events + removals(
                    crate::lists::addresses(
                        self.pending_interactions.filter(crate::lists::asks_from(conversation)),
                    ),
                ),
            }
        } else {
            updated
        }
    }

    /// What one report of the runtime does.
    ///
    /// The cases are many, so a proof unfolds them only where it reveals this function.
    #[verifier::opaque]
    pub open spec fn reported(self, observation: ConversationObservation) -> Step {
        self.folded(observation)
    }

    /// What one report of the runtime does, case by case.
    pub open spec fn folded(self, observation: ConversationObservation) -> Step {
        match observation {
            ConversationObservation::Event { attempt_id, event } => self.journal_fact(
                attempt_id,
                event,
            ),
            ConversationObservation::ManualCompactionEvent { event } => self.compaction(
                None,
                event,
            ),
            ConversationObservation::Committed {
                attempt_id,
                block,
                published_todos,
                transcript_cursor,
            } => self.committed(attempt_id, block, published_todos, transcript_cursor),
            ConversationObservation::PublicationOpened { attempt_id, start } => publishes(
                match self.ensured(attempt_id).attempt {
                    Some(attempt) => self.with_attempt(
                        AttemptModel {
                            in_flight: Some(
                                InFlightModel {
                                    message_id: start.message_id,
                                    blocks: Seq::empty(),
                                },
                            ),
                            ..attempt
                        },
                    ),
                    None => self,
                },
                RuntimeClientEvent::AssistantMessageStarted {
                    attempt_id,
                    message_id: start.message_id,
                },
            ),
            ConversationObservation::Publication { attempt_id, frame } => self.stream_frame(
                attempt_id,
                frame,
            ),
            ConversationObservation::PublicationSettled {
                attempt_id,
                audit,
                transcript_cursor,
            } => publishes(
                match self.attempt {
                    Some(attempt) if attempt.attempt_id@ == attempt_id@ => self.with_attempt(
                        AttemptModel { in_flight: None, ..attempt },
                    ),
                    _ => self,
                },
                RuntimeClientEvent::AssistantPublicationSettled {
                    attempt_id,
                    audit,
                    transcript_cursor: RuntimeClientTranscriptCursor::of_spec(transcript_cursor),
                },
            ),
            ConversationObservation::Status(observation) => self.status_composed(observation),
            ConversationObservation::InboundEnqueued(item) => publishes(
                SnapshotModel {
                    inbound_pending: self.inbound_pending.push(
                        crate::views::inbound_item_view_spec(item),
                    ),
                    ..self
                },
                RuntimeClientEvent::InboundEnqueued {
                    sequence: item.sequence,
                    message: item.message,
                    transcript_cursor: RuntimeClientTranscriptCursor::of_optional_spec(
                        item.transcript_cursor,
                    ),
                },
            ),
            ConversationObservation::InboundDrained(batch) => self.drained(batch),
            ConversationObservation::InteractionPending { interaction, audit } => Step {
                state: SnapshotModel {
                    pending_interactions: crate::lists::upsert_interaction_spec(
                        self.pending_interactions,
                        interaction,
                    ),
                    ..self
                },
                events: match audit {
                    Some((audit, cursor)) => seq![
                        EventModel::Plain(RuntimeClientEvent::InteractionPending { interaction }),
                        EventModel::Plain(
                            RuntimeClientEvent::InteractionAuditRequested {
                                audit,
                                transcript_cursor: RuntimeClientTranscriptCursor::of_spec(cursor),
                            },
                        ),
                    ],
                    None => seq![
                        EventModel::Plain(RuntimeClientEvent::InteractionPending { interaction }),
                    ],
                },
            },
            ConversationObservation::InteractionSettled { interaction, outcome, audit } => Step {
                state: SnapshotModel {
                    pending_interactions: self.pending_interactions.filter(
                        crate::lists::is_other_interaction(interaction),
                    ),
                    ..self
                },
                events: match audit {
                    Some((audit, cursor)) => seq![
                        EventModel::Plain(
                            RuntimeClientEvent::InteractionSettled { interaction, outcome },
                        ),
                        EventModel::Plain(
                            RuntimeClientEvent::InteractionAuditSettled {
                                audit,
                                transcript_cursor: RuntimeClientTranscriptCursor::of_spec(cursor),
                            },
                        ),
                    ],
                    None => seq![
                        EventModel::Plain(
                            RuntimeClientEvent::InteractionSettled { interaction, outcome },
                        ),
                    ],
                },
            },
            ConversationObservation::InteractionRemoved { interaction } => publishes(
                SnapshotModel {
                    pending_interactions: self.pending_interactions.filter(
                        crate::lists::is_other_interaction(interaction),
                    ),
                    ..self
                },
                RuntimeClientEvent::InteractionRemoved { interaction },
            ),
            ConversationObservation::Background(snapshot) => {
                let execution = Arc::new(crate::views::background_view_spec(snapshot));
                publishes(
                    SnapshotModel {
                        background: crate::search::upsert(
                            self.background,
                            crate::lists::is_execution(snapshot.execution_id@),
                            execution,
                        ),
                        ..self
                    },
                    RuntimeClientEvent::BackgroundExecutionUpdated { execution },
                )
            },
            ConversationObservation::ToolProgress {
                attempt_id,
                tool_call_id,
                tool_id,
                progress,
            } => publishes(
                self.with_call_state(
                    attempt_id@,
                    tool_call_id@,
                    crate::attempt::progressing(progress),
                ),
                RuntimeClientEvent::ToolExecutionProgress {
                    attempt_id,
                    tool_call_id,
                    tool_id,
                    execution_id: None,
                    progress,
                },
            ),
            ConversationObservation::SubagentLifecycle(snapshot) => self.subagent_lifecycle(
                snapshot,
            ),
            ConversationObservation::SubagentWorkspace(snapshot) => self.subagent_updated(
                snapshot,
            ),
            ConversationObservation::SubagentActivity(snapshot) => self.subagent_updated(
                snapshot,
            ),
            ConversationObservation::Capability { snapshot, availability } => {
                let capabilities = crate::views::capability_view_spec(snapshot, availability);
                Step {
                    state: SnapshotModel { capabilities, ..self },
                    events: seq![EventModel::Capabilities { capabilities }],
                }
            },
            ConversationObservation::Resources { snapshot, availability } => {
                let capabilities = crate::views::capability_view_spec(
                    snapshot.capability,
                    availability,
                );
                let resources = crate::views::resources_view_spec(snapshot);
                Step {
                    state: SnapshotModel { capabilities, resources, ..self },
                    events: seq![EventModel::Generation { capabilities, resources }],
                }
            },
            ConversationObservation::AttemptAdmitted { attempt_id } => silent(
                self.with_attempt(
                    AttemptModel::fresh(
                        attempt_id,
                        RuntimeClientAttemptPhase::Admitted,
                        self.model.attempt,
                    ),
                ),
            ),
            ConversationObservation::AttemptModelFrozen { attempt_id, model } => silent(
                match self.attempt {
                    Some(attempt) if attempt.attempt_id@ == attempt_id@ => self.with_attempt(
                        AttemptModel { model, ..attempt },
                    ),
                    _ => self,
                },
            ),
            ConversationObservation::SessionModelChanged { model } => publishes(
                SnapshotModel { model, ..self },
                RuntimeClientEvent::SessionModelChanged { model },
            ),
            ConversationObservation::ApprovalModeChanged {
                effective,
                pending,
                revision,
            } => publishes(
                SnapshotModel {
                    effective_approval_mode: effective,
                    pending_approval_mode: pending,
                    approval_mode_revision: revision,
                    ..self
                },
                RuntimeClientEvent::ApprovalModeChanged {
                    effective_approval_mode: effective,
                    pending_approval_mode: pending,
                    revision,
                },
            ),
            ConversationObservation::Shutdown => publishes(
                SnapshotModel { shutting_down: true, ..self },
                RuntimeClientEvent::RuntimeShutdown,
            ),
            ConversationObservation::DurableFailure { .. } => silent(self),
            ConversationObservation::DurabilityFailed { operation, diagnostic } => publishes(
                SnapshotModel {
                    durability_failure: Some(RuntimeDurabilityFailure { operation, diagnostic }),
                    ..self
                },
                RuntimeClientEvent::RuntimeDurabilityFailed { operation, diagnostic },
            ),
        }
    }

    /// Whether a report can be folded: a manual compaction reports nothing but its own
    /// life, and the count of compactions is not at the end of its range.
    pub open spec fn accepts(self, observation: ConversationObservation) -> bool {
        match observation {
            ConversationObservation::Event { event, .. } => event is CompactionCompleted
                ==> self.context.compaction_count < u64::MAX,
            ConversationObservation::ManualCompactionEvent { event } => event.is_compaction() && (
            event is CompactionCompleted ==> self.context.compaction_count < u64::MAX),
            _ => true,
        }
    }
}

/// The events that say that prompts are gone.
pub open spec fn removals(addresses: Seq<InteractionRef>) -> Seq<EventModel> {
    Seq::new(
        addresses.len(),
        |i: int|
            EventModel::Plain(
                RuntimeClientEvent::InteractionRemoved { interaction: addresses[i] },
            ),
    )
}

impl RuntimeClientSnapshot {
    /// Whether a report can be folded.
    pub fn accepts(&self, observation: &ConversationObservation) -> (accepts: bool)
        ensures
            accepts == self@.accepts(*observation),
    {
        let event = match observation {
            ConversationObservation::Event { event, .. } => event,
            ConversationObservation::ManualCompactionEvent { event } => event,
            _ => {
                return true;
            },
        };
        match event {
            RuntimeEvent::CompactionCompleted { .. } => self.context.compaction_count < u64::MAX,
            RuntimeEvent::CompactionStarted | RuntimeEvent::CompactionFailed { .. } => true,
            _ => match observation {
                ConversationObservation::ManualCompactionEvent { .. } => false,
                _ => true,
            },
        }
    }

    /// Folds a message that became canonical.
    fn fold_committed(
        &mut self,
        attempt_id: Option<AttemptId>,
        block: Arc<MessageBlock>,
        published_todos: Option<Arc<TodoSnapshot>>,
        transcript_cursor: Option<TranscriptCursor>,
    ) -> (events: Vec<RuntimeClientEvent>)
        ensures
            (Step { state: final(self)@, events: crate::event::event_models(events@) })
                == old(self)@.committed(attempt_id, block, published_todos, transcript_cursor),
    {
        let ghost before = self@;
        let mut events = none();
        if let Some(attempt_id) = &attempt_id {
            if let MessageBlock::Tool(tool) = &*block {
                let settlement = self.settle_foreground(
                    attempt_id,
                    &tool.tool_call_id,
                    share(&tool.result),
                );
                if let ForegroundSettlement::Applied = settlement {
                    events = one(
                        RuntimeClientEvent::ToolExecutionSettled {
                            attempt_id: attempt_id.clone(),
                            tool_call_id: tool.tool_call_id.clone(),
                            tool_id: tool.tool_id.clone(),
                            result: share(&tool.result),
                        },
                    );
                }
            }
        }
        let ghost settled = before.commit_settles(attempt_id, block);
        assert(self@ == settled.state);
        assert(crate::event::event_models(events@) == settled.events);
        if let MessageBlock::Assistant(_) = &*block {
            if let Some(attempt) = &mut self.attempt {
                attempt.in_flight = None;
            }
        }
        if let Some(todos) = published_todos {
            self.todos = todos;
        }
        self.messages.push(share(&block));
        publish_next(
            &mut events,
            RuntimeClientEvent::MessageCommitted {
                attempt_id,
                message: block,
                transcript_cursor: RuntimeClientTranscriptCursor::of_optional(transcript_cursor),
            },
        );
        events
    }

    /// Folds a status that was composed.
    ///
    /// Its place is in the observation: nothing here looks at where the conversation
    /// stands, which other work may have moved since.
    fn fold_status(&mut self, observation: &AgentStatusObservation) -> (events: Vec<
        RuntimeClientEvent,
    >)
        ensures
            (Step { state: final(self)@, events: crate::event::event_models(events@) })
                == old(self)@.status_composed(*observation),
    {
        let view = Arc::new(status_view(observation));
        let evicted_status_message_id = admit_status(&mut self.statuses, share(&view));
        one(
            RuntimeClientEvent::AgentStatusComposed {
                attempt_id: observation.attempt_id.clone(),
                turn: observation.turn,
                status: view,
                evicted_status_message_id,
            },
        )
    }

    /// Folds a drain of the mailbox.
    fn fold_drained(&mut self, batch: &InboundBatch) -> (events: Vec<RuntimeClientEvent>)
        ensures
            (Step { state: final(self)@, events: crate::event::event_models(events@) })
                == old(self)@.drained(*batch),
    {
        let count: usize = batch.items.len();
        let mut message_ids: Vec<MessageId> = Vec::new();
        let mut i: usize = 0;
        while i < count
            invariant
                i <= count,
                count == batch.items@.len(),
                message_ids@ =~= Seq::new(i as nat, |k: int| batch.items@[k].message.id),
            decreases count - i,
        {
            message_ids.push(batch.items[i].message.id.clone());
            i += 1;
        }
        drain_inbound(&mut self.inbound.pending, batch.watermark);
        self.inbound.last_drain = Some(InboundDrainView { watermark: batch.watermark, count });
        one(RuntimeClientEvent::InboundDrained { watermark: batch.watermark, count, message_ids })
    }

    /// Replaces the record of a subagent.
    fn fold_subagent(&mut self, snapshot: &SubagentSnapshot) -> (events: Vec<RuntimeClientEvent>)
        ensures
            (Step { state: final(self)@, events: crate::event::event_models(events@) })
                == old(self)@.subagent_updated(*snapshot),
    {
        let view = Arc::new(subagent_view(snapshot));
        upsert_subagent(&mut self.subagents, share(&view));
        one(RuntimeClientEvent::SubagentUpdated { subagent: view })
    }

    /// Folds the life of a subagent.
    fn fold_subagent_lifecycle(&mut self, snapshot: &SubagentSnapshot) -> (events: Vec<
        RuntimeClientEvent,
    >)
        ensures
            (Step { state: final(self)@, events: crate::event::event_models(events@) })
                == old(self)@.subagent_lifecycle(*snapshot),
    {
        let ghost before = self@;
        let mut events = self.fold_subagent(snapshot);
        let ghost updated = before.subagent_updated(*snapshot);
        if snapshot.state.is_terminal() {
            let removed = remove_interactions_of(
                &mut self.pending_interactions,
                &snapshot.child_conversation_id,
            );
            let mut i: usize = 0;
            while i < removed.len()
                invariant
                    i <= removed@.len(),
                    crate::event::event_models(events@) =~= updated.events + removals(
                        removed@.take(i as int),
                    ),
                decreases removed@.len() - i,
            {
                publish_next(
                    &mut events,
                    RuntimeClientEvent::InteractionRemoved { interaction: removed[i].clone() },
                );
                i += 1;
                proof {
                    assert(removals(removed@.take(i as int)) =~= removals(
                        removed@.take(i - 1),
                    ).push(
                        EventModel::Plain(
                            RuntimeClientEvent::InteractionRemoved { interaction: removed@[i - 1] },
                        ),
                    ));
                }
            }
            assert(removed@.take(i as int) =~= removed@);
        }
        events
    }

    /// Folds one report of the runtime and gives what it publishes.
    pub(crate) fn fold(&mut self, observation: ConversationObservation) -> (events: Vec<
        RuntimeClientEvent,
    >)
        requires
            old(self)@.accepts(observation),
        ensures
            (Step { state: final(self)@, events: crate::event::event_models(events@) })
                == old(self)@.folded(observation),
    {
        match observation {
            ConversationObservation::Event { attempt_id, event } => self.fold_event(
                &attempt_id,
                &event,
            ),
            ConversationObservation::ManualCompactionEvent { event } => {
                let attempt_id: Option<AttemptId> = None;
                self.fold_compaction_event(&attempt_id, &event)
            },
            ConversationObservation::Committed {
                attempt_id,
                block,
                published_todos,
                transcript_cursor,
            } => self.fold_committed(attempt_id, block, published_todos, transcript_cursor),
            ConversationObservation::PublicationOpened { attempt_id, start } => {
                self.fold_publication_opened(attempt_id, start)
            },
            ConversationObservation::Publication { attempt_id, frame } => {
                self.fold_publication_frame(&attempt_id, &frame)
            },
            ConversationObservation::PublicationSettled {
                attempt_id,
                audit,
                transcript_cursor,
            } => {
                if let Some(attempt) = &mut self.attempt {
                    if attempt.attempt_id.same(&attempt_id) {
                        attempt.in_flight = None;
                    }
                }
                one(
                    RuntimeClientEvent::AssistantPublicationSettled {
                        attempt_id,
                        audit,
                        transcript_cursor: RuntimeClientTranscriptCursor::of(transcript_cursor),
                    },
                )
            },
            ConversationObservation::Status(observation) => self.fold_status(&observation),
            ConversationObservation::InboundEnqueued(item) => {
                self.inbound.pending.push(inbound_item_view(&item));
                one(
                    RuntimeClientEvent::InboundEnqueued {
                        sequence: item.sequence,
                        message: item.message,
                        transcript_cursor: RuntimeClientTranscriptCursor::of_optional(
                            item.transcript_cursor,
                        ),
                    },
                )
            },
            ConversationObservation::InboundDrained(batch) => self.fold_drained(&batch),
            ConversationObservation::InteractionPending { interaction, audit } => {
                upsert_interaction(&mut self.pending_interactions, share(&interaction));
                let mut events = one(RuntimeClientEvent::InteractionPending { interaction });
                if let Some((audit, cursor)) = audit {
                    publish_next(
                        &mut events,
                        RuntimeClientEvent::InteractionAuditRequested {
                            audit,
                            transcript_cursor: RuntimeClientTranscriptCursor::of(cursor),
                        },
                    );
                }
                events
            },
            ConversationObservation::InteractionSettled { interaction, outcome, audit } => {
                remove_interaction(&mut self.pending_interactions, &interaction);
                let mut events = one(
                    RuntimeClientEvent::InteractionSettled { interaction, outcome },
                );
                if let Some((audit, cursor)) = audit {
                    publish_next(
                        &mut events,
                        RuntimeClientEvent::InteractionAuditSettled {
                            audit,
                            transcript_cursor: RuntimeClientTranscriptCursor::of(cursor),
                        },
                    );
                }
                events
            },
            ConversationObservation::InteractionRemoved { interaction } => {
                remove_interaction(&mut self.pending_interactions, &interaction);
                one(RuntimeClientEvent::InteractionRemoved { interaction })
            },
            ConversationObservation::Background(snapshot) => {
                let execution = Arc::new(background_view(&snapshot));
                upsert_background(&mut self.background, share(&execution));
                one(RuntimeClientEvent::BackgroundExecutionUpdated { execution })
            },
            ConversationObservation::ToolProgress {
                attempt_id,
                tool_call_id,
                tool_id,
                progress,
            } => {
                self.progress_foreground(&attempt_id, &tool_call_id, &progress);
                one(
                    RuntimeClientEvent::ToolExecutionProgress {
                        attempt_id,
                        tool_call_id,
                        tool_id,
                        execution_id: None,
                        progress,
                    },
                )
            },
            ConversationObservation::SubagentLifecycle(snapshot) => self.fold_subagent_lifecycle(
                &snapshot,
            ),
            ConversationObservation::SubagentWorkspace(snapshot) => self.fold_subagent(&snapshot),
            ConversationObservation::SubagentActivity(snapshot) => self.fold_subagent(&snapshot),
            ConversationObservation::Capability { snapshot, availability } => {
                let capabilities = Arc::new(capability_view(&snapshot, &availability));
                self.capabilities = share(&capabilities);
                one(RuntimeClientEvent::CapabilityUpdated { capabilities })
            },
            ConversationObservation::Resources { snapshot, availability } => {
                let capabilities = Arc::new(capability_view(&snapshot.capability, &availability));
                let resources = Arc::new(resources_view(&snapshot));
                self.capabilities = share(&capabilities);
                self.resources = share(&resources);
                one(RuntimeClientEvent::ResourceGenerationUpdated { capabilities, resources })
            },
            ConversationObservation::AttemptAdmitted { attempt_id } => {
                let model = self.model.to_attempt_view();
                self.attempt = Some(
                    RuntimeClientAttempt::fresh(
                        attempt_id,
                        RuntimeClientAttemptPhase::Admitted,
                        model,
                    ),
                );
                none()
            },
            ConversationObservation::AttemptModelFrozen { attempt_id, model } => {
                if let Some(attempt) = &mut self.attempt {
                    if attempt.attempt_id.same(&attempt_id) {
                        attempt.model = model;
                    }
                }
                none()
            },
            ConversationObservation::SessionModelChanged { model } => {
                self.model = share(&model);
                one(RuntimeClientEvent::SessionModelChanged { model })
            },
            ConversationObservation::ApprovalModeChanged { effective, pending, revision } => {
                self.effective_approval_mode = effective;
                self.pending_approval_mode = pending;
                self.approval_mode_revision = revision;
                one(
                    RuntimeClientEvent::ApprovalModeChanged {
                        effective_approval_mode: effective,
                        pending_approval_mode: pending,
                        revision,
                    },
                )
            },
            ConversationObservation::Shutdown => {
                self.shutting_down = true;
                one(RuntimeClientEvent::RuntimeShutdown)
            },
            ConversationObservation::DurableFailure { .. } => none(),
            ConversationObservation::DurabilityFailed { operation, diagnostic } => {
                self.durability_failure = Some(
                    RuntimeDurabilityFailure {
                        operation: operation.clone(),
                        diagnostic: diagnostic.clone(),
                    },
                );
                one(RuntimeClientEvent::RuntimeDurabilityFailed { operation, diagnostic })
            },
        }
    }

    /// Folds the opening of a stream: the attempt writes a message without blocks.
    fn fold_publication_opened(
        &mut self,
        attempt_id: AttemptId,
        start: PublicationStreamStart,
    ) -> (events: Vec<RuntimeClientEvent>)
        ensures
            (Step { state: final(self)@, events: crate::event::event_models(events@) })
                == old(self)@.folded(
                ConversationObservation::PublicationOpened { attempt_id, start },
            ),
    {
        self.ensure_attempt(&attempt_id);
        if let Some(attempt) = &mut self.attempt {
            attempt.in_flight = Some(
                InFlightAssistantMessage {
                    message_id: start.message_id.clone(),
                    blocks: Vec::new(),
                },
            );
            proof {
                assert(crate::snapshot::block_models(Seq::empty()) =~= Seq::empty());
            }
        }
        one(
            RuntimeClientEvent::AssistantMessageStarted {
                attempt_id,
                message_id: start.message_id,
            },
        )
    }
}

} // verus!
