//! The read model before the first event.
//!
//! What was there before the projection is installed as state. It is never replayed
//! through the stream: nothing here publishes and nothing takes a cursor.
use std::sync::Arc;

use vstd::prelude::*;

use crate::identity::AttemptId;
use crate::journal::{RuntimeEvent, RuntimeEventEnvelope};
use crate::lists::{foreground_slot, upsert_background, upsert_subagent};
use crate::message::{AssistantContentBlock, MessageBlock};
use crate::observation::{
    ApprovalMode, BackgroundExecutionSnapshot, InboundItem, RuntimeBootstrapSnapshot,
    SubagentSnapshot,
};
use crate::share::{share, share_all};
#[allow(unused_imports)]
use crate::snapshot::{AttemptModel, ForegroundModel, ForegroundStateModel, SnapshotModel};
use crate::snapshot::{
    ForegroundToolExecution, ForegroundToolState, InboundItemView,
    RuntimeClientBackgroundExecution, RuntimeClientSnapshot, RuntimeClientSubagent,
};
use crate::views::{background_view, inbound_item_view, resources_view, subagent_view};

verus! {

/// Messages of the mailbox as a client sees them, in their order.
pub open spec fn inbound_views_spec(items: Seq<InboundItem>) -> Seq<InboundItemView> {
    Seq::new(items.len(), |i: int| crate::views::inbound_item_view_spec(items[i]))
}

/// Detached work after records of the registry, in their order.
pub open spec fn background_recorded(
    background: Seq<Arc<RuntimeClientBackgroundExecution>>,
    records: Seq<BackgroundExecutionSnapshot>,
) -> Seq<Arc<RuntimeClientBackgroundExecution>>
    decreases records.len(),
{
    if records.len() == 0 {
        background
    } else {
        crate::search::upsert(
            background_recorded(background, records.drop_last()),
            crate::lists::is_execution(records.last().execution_id@),
            Arc::new(crate::views::background_view_spec(records.last())),
        )
    }
}

/// Subagents after records of the registry, in their order.
pub open spec fn subagents_recorded(
    subagents: Seq<Arc<RuntimeClientSubagent>>,
    records: Seq<SubagentSnapshot>,
) -> Seq<Arc<RuntimeClientSubagent>>
    decreases records.len(),
{
    if records.len() == 0 {
        subagents
    } else {
        crate::search::upsert(
            subagents_recorded(subagents, records.drop_last()),
            crate::lists::is_subagent(records.last().subagent_id@),
            Arc::new(crate::views::subagent_view_spec(records.last())),
        )
    }
}

/// The tool calls after a message that makes calls: a call that is not shown comes last,
/// complete and not running, and one that is shown stays as it is.
pub open spec fn calls_shown(
    foreground: Seq<ForegroundModel>,
    content: Seq<AssistantContentBlock>,
) -> Seq<ForegroundModel>
    decreases content.len(),
{
    if content.len() == 0 {
        foreground
    } else {
        let shown = calls_shown(foreground, content.drop_last());
        match content.last() {
            AssistantContentBlock::ToolCall(call) if crate::search::position(
                shown,
                crate::lists::is_call(call.id@),
            ) is None => shown.push(
                ForegroundModel {
                    call_id: call.id,
                    tool_id: call.tool_id,
                    name: call.name,
                    state: ForegroundStateModel::Assembled { arguments: call.arguments@ },
                },
            ),
            _ => shown,
        }
    }
}

/// The attempt that a fact of the journal belongs to: the one it is filed under, or else
/// the one whose life it tells of.
pub open spec fn attempt_of(envelope: RuntimeEventEnvelope) -> Option<AttemptId> {
    match envelope.attempt_id {
        Some(attempt_id) => Some(attempt_id),
        None => match envelope.event {
            RuntimeEvent::AttemptStarted { attempt_id } => Some(attempt_id),
            RuntimeEvent::AttemptCompleted { attempt_id, .. } => Some(attempt_id),
            RuntimeEvent::AttemptCancelled { attempt_id, .. } => Some(attempt_id),
            RuntimeEvent::AttemptTimedOut { attempt_id } => Some(attempt_id),
            RuntimeEvent::AttemptLimitExceeded { attempt_id, .. } => Some(attempt_id),
            RuntimeEvent::AttemptFailed { attempt_id, .. } => Some(attempt_id),
            _ => None,
        },
    }
}

impl SnapshotModel {
    /// The read model after everything that is true of a runtime before its activation.
    pub open spec fn seeded(self, seed: RuntimeBootstrapSnapshot) -> Self {
        SnapshotModel {
            transcript: seed.transcript@,
            shutting_down: seed.shutting_down,
            effective_approval_mode: seed.approval_mode.effective,
            pending_approval_mode: if seed.approval_mode.effective == seed.approval_mode.desired {
                None
            } else {
                Some(seed.approval_mode.desired)
            },
            approval_mode_revision: seed.approval_mode.revision,
            inbound_pending: inbound_views_spec(seed.inbound_pending@),
            pending_interactions: seed.pending_interactions@,
            background: background_recorded(self.background, seed.background@),
            subagents: subagents_recorded(self.subagents, seed.subagents@),
            resources: crate::views::resources_view_spec(seed.resources),
            todos: seed.todos@,
            ..self
        }
    }

    /// The read model after a fact of the journal, without what the fact would publish.
    /// A fact that belongs to no attempt and to no compaction says nothing.
    pub open spec fn with_journal_fact(self, envelope: RuntimeEventEnvelope) -> Self {
        if envelope.event.is_compaction() {
            self.compaction(envelope.attempt_id, envelope.event).state
        } else {
            match attempt_of(envelope) {
                Some(attempt_id) => self.journal_fact(attempt_id, envelope.event).state,
                None => self,
            }
        }
    }

    /// The read model after a canonical message of an attempt, without the message: an
    /// assistant's message shows its tool calls, a tool's message settles its call.
    pub open spec fn with_message_of(self, attempt_id: AttemptId, message: MessageBlock) -> Self {
        match message {
            MessageBlock::Assistant(assistant) => match self.ensured(attempt_id).attempt {
                Some(attempt) => self.with_attempt(
                    AttemptModel {
                        foreground: calls_shown(attempt.foreground, assistant.content@),
                        ..attempt
                    },
                ),
                None => self,
            },
            MessageBlock::Tool(tool) => self.with_call_state(
                attempt_id@,
                tool.tool_call_id@,
                crate::attempt::settling(tool.result@),
            ),
            MessageBlock::User(_) => self,
        }
    }
}

/// The approval mode that waits to become effective, if it is another.
fn pending_mode(effective: ApprovalMode, desired: ApprovalMode) -> (pending: Option<ApprovalMode>)
    ensures
        pending == if effective == desired {
            None
        } else {
            Some(desired)
        },
{
    if effective == desired {
        None
    } else {
        Some(desired)
    }
}

impl RuntimeClientSnapshot {
    /// Installs everything that is true of a runtime before its activation.
    pub(crate) fn bootstrap(&mut self, seed: &RuntimeBootstrapSnapshot)
        ensures
            final(self)@ == old(self)@.seeded(*seed),
    {
        self.transcript = share(&seed.transcript);
        self.shutting_down = seed.shutting_down;
        self.effective_approval_mode = seed.approval_mode.effective;
        self.pending_approval_mode = pending_mode(
            seed.approval_mode.effective,
            seed.approval_mode.desired,
        );
        self.approval_mode_revision = seed.approval_mode.revision;
        self.inbound.pending = inbound_views(&seed.inbound_pending);
        self.pending_interactions = share_all(&seed.pending_interactions);
        record_background(&mut self.background, &seed.background);
        record_subagents(&mut self.subagents, &seed.subagents);
        self.resources = Arc::new(resources_view(&seed.resources));
        self.todos = share(&seed.todos);
    }

    /// Folds a fact of the journal without publishing anything.
    pub(crate) fn bootstrap_durable_event(&mut self, envelope: &RuntimeEventEnvelope)
        requires
            envelope.event is CompactionCompleted ==> old(self).context.compaction_count
                < u64::MAX,
        ensures
            final(self)@ == old(self)@.with_journal_fact(*envelope),
    {
        match &envelope.event {
            RuntimeEvent::CompactionStarted
            | RuntimeEvent::CompactionCompleted { .. }
            | RuntimeEvent::CompactionFailed { .. } => {
                let _ = self.fold_compaction_event(&envelope.attempt_id, &envelope.event);
            },
            _ => {
                let filed = match &envelope.attempt_id {
                    Some(attempt_id) => Some(attempt_id),
                    None => match &envelope.event {
                        RuntimeEvent::AttemptStarted { attempt_id } => Some(attempt_id),
                        RuntimeEvent::AttemptCompleted { attempt_id, .. } => Some(attempt_id),
                        RuntimeEvent::AttemptCancelled { attempt_id, .. } => Some(attempt_id),
                        RuntimeEvent::AttemptTimedOut { attempt_id } => Some(attempt_id),
                        RuntimeEvent::AttemptLimitExceeded { attempt_id, .. } => Some(attempt_id),
                        RuntimeEvent::AttemptFailed { attempt_id, .. } => Some(attempt_id),
                        _ => None,
                    },
                };
                if let Some(attempt_id) = filed {
                    let _ = self.fold_event(attempt_id, &envelope.event);
                }
            },
        }
    }

    /// Shows the tool calls of a canonical message, or settles the call that it answers.
    pub(crate) fn bootstrap_durable_message(
        &mut self,
        attempt_id: &AttemptId,
        message: &MessageBlock,
    )
        ensures
            final(self)@ == old(self)@.with_message_of(*attempt_id, *message),
    {
        match message {
            MessageBlock::User(_) => {},
            MessageBlock::Tool(tool) => {
                let _ = self.settle_foreground(
                    attempt_id,
                    &tool.tool_call_id,
                    share(&tool.result),
                );
            },
            MessageBlock::Assistant(assistant) => {
                self.ensure_attempt(attempt_id);
                if let Some(attempt) = &mut self.attempt {
                    show_calls(&mut attempt.foreground, &assistant.content);
                }
            },
        }
    }
}

fn inbound_views(items: &Vec<InboundItem>) -> (views: Vec<InboundItemView>)
    ensures
        views@ == inbound_views_spec(items@),
{
    let mut views: Vec<InboundItemView> = Vec::new();
    let mut i: usize = 0;
    while i < items.len()
        invariant
            i <= items.len(),
            views@ =~= inbound_views_spec(items@.take(i as int)),
        decreases items.len() - i,
    {
        views.push(inbound_item_view(&items[i]));
        i += 1;
    }
    assert(items@.take(i as int) =~= items@);
    views
}

fn record_background(
    background: &mut Vec<Arc<RuntimeClientBackgroundExecution>>,
    records: &Vec<BackgroundExecutionSnapshot>,
)
    ensures
        final(background)@ == background_recorded(old(background)@, records@),
{
    let ghost before = background@;
    let mut i: usize = 0;
    assert(records@.take(0) =~= Seq::empty());
    while i < records.len()
        invariant
            i <= records.len(),
            background@ == background_recorded(before, records@.take(i as int)),
        decreases records.len() - i,
    {
        assert(records@.take(i + 1).drop_last() =~= records@.take(i as int));
        upsert_background(background, Arc::new(background_view(&records[i])));
        i += 1;
    }
    assert(records@.take(i as int) =~= records@);
}

fn record_subagents(
    subagents: &mut Vec<Arc<RuntimeClientSubagent>>,
    records: &Vec<SubagentSnapshot>,
)
    ensures
        final(subagents)@ == subagents_recorded(old(subagents)@, records@),
{
    let ghost before = subagents@;
    let mut i: usize = 0;
    assert(records@.take(0) =~= Seq::empty());
    while i < records.len()
        invariant
            i <= records.len(),
            subagents@ == subagents_recorded(before, records@.take(i as int)),
        decreases records.len() - i,
    {
        assert(records@.take(i + 1).drop_last() =~= records@.take(i as int));
        upsert_subagent(subagents, Arc::new(subagent_view(&records[i])));
        i += 1;
    }
    assert(records@.take(i as int) =~= records@);
}

/// Shows the tool calls of a message.
fn show_calls(
    foreground: &mut Vec<ForegroundToolExecution>,
    content: &Vec<AssistantContentBlock>,
)
    ensures
        crate::snapshot::foreground_models(final(foreground)@) == calls_shown(
            crate::snapshot::foreground_models(old(foreground)@),
            content@,
        ),
{
    let ghost before = crate::snapshot::foreground_models(foreground@);
    let mut i: usize = 0;
    assert(content@.take(0) =~= Seq::empty());
    while i < content.len()
        invariant
            i <= content.len(),
            crate::snapshot::foreground_models(foreground@) == calls_shown(
                before,
                content@.take(i as int),
            ),
        decreases content.len() - i,
    {
        let ghost shown = crate::snapshot::foreground_models(foreground@);
        assert(content@.take(i + 1).drop_last() =~= content@.take(i as int));
        if let AssistantContentBlock::ToolCall(call) = &content[i] {
            if foreground_slot(foreground, &call.id).is_none() {
                let slot = ForegroundToolExecution {
                    call_id: call.id.clone(),
                    tool_id: call.tool_id.clone(),
                    name: call.name.clone(),
                    state: ForegroundToolState::Assembled {
                        arguments: call.arguments.as_str().to_owned(),
                    },
                };
                let ghost added = slot@;
                foreground.push(slot);
                assert(crate::snapshot::foreground_models(foreground@) =~= shown.push(added));
            }
        }
        i += 1;
    }
    assert(content@.take(i as int) =~= content@);
}

} // verus!
