//! Laws of the read model.
use std::sync::Arc;

use vstd::prelude::*;

#[allow(unused_imports)]
use crate::attempt::{ForegroundSettlement, TextKind};
#[allow(unused_imports)]
use crate::event::{EventModel, RuntimeClientEvent};
#[allow(unused_imports)]
use crate::identity::{AttemptId, MessageId, ToolCallId, ToolId};
#[allow(unused_imports)]
use crate::interaction::{InteractionRef, RoutedInteraction};
#[allow(unused_imports)]
use crate::journal::RuntimeEvent;
#[allow(unused_imports)]
use crate::message::{AssistantContentBlock, ContentBlockIndex, MessageBlock};
#[allow(unused_imports)]
use crate::model::{AttemptFailure, ModelError};
#[allow(unused_imports)]
use crate::observation::{AgentStatusObservation, ConversationObservation, SubagentSnapshot};
#[allow(unused_imports)]
use crate::publication::{PublicationFrame, PublicationPayload};
#[allow(unused_imports)]
use crate::snapshot::{
    ForegroundModel, ForegroundStateModel, InboundDrainView, RuntimeDurabilityFailure,
    SnapshotModel, StatusModel, AGENT_STATUS_WINDOW,
};
#[allow(unused_imports)]
use crate::tool::ToolResultModel;

verus! {

/// Parts statuses by the messages that stand for them.
pub open spec fn other_status() -> spec_fn(StatusModel, StatusModel) -> bool {
    |a: StatusModel, b: StatusModel| a.status_message_id@ != b.status_message_id@
}

/// Whether a window of statuses is as it should be: not too long, and every composition
/// in it once.
pub open spec fn is_window(statuses: Seq<StatusModel>) -> bool {
    statuses.len() <= AGENT_STATUS_WINDOW && crate::search::apart(statuses, other_status())
}

proof fn lemma_admission_keeps_the_window(statuses: Seq<StatusModel>, view: StatusModel)
    requires
        is_window(statuses),
    ensures
        is_window(crate::lists::admit_status_spec(statuses, view)),
{
    let after = crate::lists::admit_status_spec(statuses, view);
    if !crate::lists::holds_status(statuses, view.status_message_id@) {
        let all = statuses.push(view);
        assert forall|i: int, j: int| 0 <= i < j < all.len() implies other_status()(
            #[trigger] all[i],
            #[trigger] all[j],
        ) by {
            assert(all[i] == statuses[i]);
            if j < statuses.len() {
                assert(other_status()(statuses[i], statuses[j]));
            }
        }
        assert forall|i: int, j: int| 0 <= i < j < after.len() implies other_status()(
            #[trigger] after[i],
            #[trigger] after[j],
        ) by {
            if statuses.len() >= AGENT_STATUS_WINDOW {
                assert(after[i] == all[i + 1] && after[j] == all[j + 1]);
                assert(other_status()(all[i + 1], all[j + 1]));
            }
        }
    }
}

/// The window of statuses is bounded and holds every composition once, whatever is
/// reported; and only the report of a composition changes it, so that no later attempt
/// removes or moves the status of an earlier one.
pub proof fn law_the_status_window_is_bounded(
    state: SnapshotModel,
    observation: ConversationObservation,
)
    requires
        is_window(state.statuses),
    ensures
        is_window(state.reported(observation).state.statuses),
        !(observation is Status) ==> state.reported(observation).state.statuses
            == state.statuses,
{
    reveal(SnapshotModel::reported);
    if let ConversationObservation::Status(status) = observation {
        lemma_admission_keeps_the_window(
            state.statuses,
            crate::views::status_view_spec(status),
        );
    }
}

/// A composition that is reported again changes nothing and pushes nothing out.
pub proof fn law_replaying_a_composition_evicts_nothing(
    state: SnapshotModel,
    status: AgentStatusObservation,
)
    requires
        crate::lists::holds_status(
            state.statuses,
            crate::views::status_view_spec(status).status_message_id@,
        ),
    ensures
        state.reported(ConversationObservation::Status(status)).state == state,
        crate::lists::evicted_status_spec(
            state.statuses,
            crate::views::status_view_spec(status),
        ) is None,
{
    reveal(SnapshotModel::reported);
}

/// The window of a client that follows the events: it takes what is composed, unless it
/// has it, and drops what the event says was pushed out.
pub open spec fn client_window(
    statuses: Seq<StatusModel>,
    status: StatusModel,
    evicted: Option<MessageId>,
) -> Seq<StatusModel> {
    if crate::lists::holds_status(statuses, status.status_message_id@) {
        statuses
    } else {
        (match evicted {
            Some(id) => statuses.filter(
                |held: StatusModel| held.status_message_id@ != id@,
            ),
            None => statuses,
        }).push(status)
    }
}

/// A client that follows the events and one that takes a snapshot see the same window.
pub proof fn law_live_and_repaired_windows_converge(
    state: SnapshotModel,
    status: AgentStatusObservation,
)
    requires
        is_window(state.statuses),
    ensures
        ({
            let step = state.reported(ConversationObservation::Status(status));
            let view = crate::views::status_view_spec(status);
            let evicted = crate::lists::evicted_status_spec(state.statuses, view);
            &&& step.events == seq![
                EventModel::StatusComposed {
                    attempt_id: status.attempt_id,
                    turn: status.turn,
                    status: view,
                    evicted_status_message_id: evicted,
                },
            ]
            &&& step.state.statuses == client_window(state.statuses, view, evicted)
        }),
{
    reveal(SnapshotModel::reported);
    let statuses = state.statuses;
    let view = crate::views::status_view_spec(status);
    if !crate::lists::holds_status(statuses, view.status_message_id@) && statuses.len()
        >= AGENT_STATUS_WINDOW {
        let oldest = statuses[0].status_message_id;
        let test = |held: StatusModel| held.status_message_id@ != oldest@;
        lemma_drop_the_first(statuses, test);
        assert(statuses.push(view)[0] == statuses[0]);
        assert(statuses.push(view).drop_first() =~= statuses.drop_first().push(view));
    }
}

/// To filter out what only the first item is, is to drop the first item.
proof fn lemma_drop_the_first(statuses: Seq<StatusModel>, test: spec_fn(StatusModel) -> bool)
    requires
        statuses.len() > 0,
        !test(statuses[0]),
        forall|i: int| 0 < i < statuses.len() ==> test(#[trigger] statuses[i]),
    ensures
        statuses.filter(test) == statuses.drop_first(),
    decreases statuses.len(),
{
    reveal(Seq::filter);
    if statuses.len() == 1 {
        assert(statuses.drop_last() =~= Seq::empty());
        assert(statuses.drop_last().filter(test) =~= Seq::empty());
        assert(statuses.drop_first() =~= Seq::empty());
    } else {
        let front = statuses.drop_last();
        assert forall|i: int| 0 < i < front.len() implies test(#[trigger] front[i]) by {
            assert(front[i] == statuses[i]);
        }
        lemma_drop_the_first(front, test);
        assert(test(statuses[statuses.len() - 1]));
        assert(statuses.drop_first() =~= front.drop_first().push(statuses.last()));
    }
}

/// Canonical messages are only ever added, one with each commit, and behind the others.
pub proof fn law_only_a_commit_adds_a_message(
    state: SnapshotModel,
    observation: ConversationObservation,
)
    ensures
        state.reported(observation).state.messages == match observation {
            ConversationObservation::Committed { block, .. } => state.messages.push(block),
            _ => state.messages,
        },
{
    reveal(SnapshotModel::reported);
}

/// An attempt keeps the model that it froze for as long as it is shown: neither its own
/// progress nor a change of the session's model touches it.
pub proof fn law_the_frozen_model_stays(
    state: SnapshotModel,
    observation: ConversationObservation,
)
    requires
        state.attempt is Some,
        !(observation is AttemptAdmitted),
        !(observation is AttemptModelFrozen),
    ensures
        state.reported(observation).state.attempt matches Some(attempt) && (attempt.attempt_id@
            == state.attempt->Some_0.attempt_id@ ==> attempt.model
            == state.attempt->Some_0.model),
{
    reveal(SnapshotModel::reported);
}

/// The ends of an attempt.
pub open spec fn is_end(event: RuntimeEvent) -> bool {
    event is AttemptCompleted || event is AttemptCancelled || event is AttemptTimedOut
        || event is AttemptLimitExceeded || event is AttemptFailed
}

/// The fact that an attempt ended is published once, with the outcome, and is what the read
/// model then shows of the attempt. It is a law of one such fact: that an attempt has no
/// second one is up to whoever writes the journal, and a second one would be published
/// again and replace the outcome.
pub proof fn law_an_end_is_published_and_shown(
    state: SnapshotModel,
    attempt_id: AttemptId,
    event: RuntimeEvent,
)
    requires
        is_end(event),
    ensures
        ({
            let step = state.reported(ConversationObservation::Event { attempt_id, event });
            &&& step.events.len() == 1
            &&& step.events[0] matches EventModel::Plain(
                RuntimeClientEvent::AttemptSettled { attempt_id: named, outcome },
            ) && named == attempt_id && (state.shows_attempt(attempt_id@) ==> (
            step.state.attempt matches Some(attempt) && attempt.phase
                == crate::snapshot::RuntimeClientAttemptPhase::Settled { outcome }))
        }),
{
    reveal(SnapshotModel::reported);
}

/// What a client learns of a failure does not depend on anything that only the provider
/// would say: two failures that differ in the provider's code alone look the same.
pub proof fn law_no_provider_code_reaches_a_client(a: ModelError, b: ModelError)
    requires
        a.kind == b.kind,
        a.message == b.message,
        a.retry_after_ms == b.retry_after_ms,
    ensures
        crate::views::client_failure_spec(AttemptFailure::Model { error: a })
            == crate::views::client_failure_spec(AttemptFailure::Model { error: b }),
{
}

/// A call that has settled keeps the result it settled with: a second settlement, live
/// or by a canonical message, changes nothing and publishes no settlement.
pub proof fn law_a_call_settles_once(
    state: SnapshotModel,
    attempt_id: AttemptId,
    tool_call_id: ToolCallId,
    tool_id: ToolId,
    result: ToolResultModel,
)
    requires
        state.settlement(attempt_id@, tool_call_id@) == ForegroundSettlement::AlreadySettled,
    ensures
        state.call_settled(attempt_id, tool_call_id, tool_id, result).state == state,
        state.call_settled(attempt_id, tool_call_id, tool_id, result).events.len() == 0,
        forall|block: Arc<MessageBlock>|
            (*block matches MessageBlock::Tool(tool) && tool.tool_call_id@ == tool_call_id@)
                ==> (#[trigger] state.commit_settles(Some(attempt_id), block)).state == state
                && state.commit_settles(Some(attempt_id), block).events.len() == 0,
{
    let attempt = state.attempt->Some_0;
    let test = crate::lists::is_call(tool_call_id@);
    crate::search::lemma_position(attempt.foreground, test);
    let slot = crate::search::position(attempt.foreground, test)->Some_0;
    assert(attempt.foreground.update(slot, attempt.foreground[slot]) =~= attempt.foreground);
}

/// After a settlement the call has settled.
pub proof fn law_a_settlement_settles(
    state: SnapshotModel,
    attempt_id: AttemptId,
    tool_call_id: ToolCallId,
    tool_id: ToolId,
    result: ToolResultModel,
)
    requires
        state.settlement(attempt_id@, tool_call_id@) == ForegroundSettlement::Applied,
    ensures
        ({
            let step = state.call_settled(attempt_id, tool_call_id, tool_id, result);
            &&& step.state.settlement(attempt_id@, tool_call_id@)
                == ForegroundSettlement::AlreadySettled
            &&& step.events == seq![
                EventModel::ToolSettled { attempt_id, tool_call_id, tool_id, result },
            ]
        }),
{
    let attempt = state.attempt->Some_0;
    let test = crate::lists::is_call(tool_call_id@);
    crate::search::lemma_position(attempt.foreground, test);
    let slot = crate::search::position(attempt.foreground, test)->Some_0;
    let after = state.call_settled(
        attempt_id,
        tool_call_id,
        tool_id,
        result,
    ).state.attempt->Some_0;
    assert forall|i: int| 0 <= i < slot implies !test(#[trigger] after.foreground[i]) by {
        assert(after.foreground[i] == attempt.foreground[i]);
    }
    crate::search::lemma_position_at(after.foreground, test, slot);
}

/// Whether the call at a place has settled with a result.
pub open spec fn settled_at(
    calls: Seq<ForegroundModel>,
    slot: int,
    id: Seq<char>,
    result: ToolResultModel,
) -> bool {
    0 <= slot < calls.len() && calls[slot].call_id@ == id && (
    calls[slot].state matches ForegroundStateModel::Settled { result: held, .. } && held == result)
}

proof fn lemma_change_keeps_settled(
    calls: Seq<ForegroundModel>,
    test: spec_fn(ForegroundModel) -> bool,
    change: spec_fn(ForegroundModel) -> ForegroundModel,
    slot: int,
    id: Seq<char>,
    result: ToolResultModel,
)
    requires
        settled_at(calls, slot, id, result),
        settled_at(calls.update(slot, change(calls[slot])), slot, id, result),
    ensures
        settled_at(crate::search::change_first(calls, test, change), slot, id, result),
{
    crate::search::lemma_position(calls, test);
}

/// A call that has settled stays settled, in its place and with its result, whatever is
/// reported, for as long as its attempt is shown and not begun anew.
pub proof fn law_a_settled_call_stays_settled(
    state: SnapshotModel,
    observation: ConversationObservation,
    slot: int,
    id: Seq<char>,
    result: ToolResultModel,
)
    requires
        state.attempt matches Some(attempt) && settled_at(attempt.foreground, slot, id, result),
        !(observation is AttemptAdmitted),
        !(observation matches ConversationObservation::Event { event, .. }
            && event is AttemptStarted),
    ensures
        state.reported(observation).state.attempt matches Some(attempt) && (attempt.attempt_id@
            == state.attempt->Some_0.attempt_id@ ==> settled_at(
            attempt.foreground,
            slot,
            id,
            result,
        )),
{
    reveal(SnapshotModel::reported);
    let calls = state.attempt->Some_0.foreground;
    match observation {
        ConversationObservation::Event { event, .. } => {
            match event {
                RuntimeEvent::ToolExecutionStarted { tool_call_id, .. } => {
                    lemma_change_keeps_settled(
                        calls,
                        crate::lists::is_call(tool_call_id@),
                        crate::attempt::starting(),
                        slot,
                        id,
                        result,
                    );
                },
                RuntimeEvent::ToolExecutionProgress { tool_call_id, progress, .. } => {
                    lemma_change_keeps_settled(
                        calls,
                        crate::lists::is_call(tool_call_id@),
                        crate::attempt::progressing(progress),
                        slot,
                        id,
                        result,
                    );
                },
                RuntimeEvent::ToolExecutionCompleted { tool_call_id, result: again, .. } => {
                    lemma_change_keeps_settled(
                        calls,
                        crate::lists::is_call(tool_call_id@),
                        crate::attempt::settling(again@),
                        slot,
                        id,
                        result,
                    );
                },
                RuntimeEvent::ToolExecutionFailed { tool_call_id, error, .. } => {
                    lemma_change_keeps_settled(
                        calls,
                        crate::lists::is_call(tool_call_id@),
                        crate::attempt::settling(ToolResultModel::failed(error)),
                        slot,
                        id,
                        result,
                    );
                },
                _ => {},
            }
        },
        ConversationObservation::Committed { block, .. } => {
            if let MessageBlock::Tool(tool) = *block {
                lemma_change_keeps_settled(
                    calls,
                    crate::lists::is_call(tool.tool_call_id@),
                    crate::attempt::settling(tool.result@),
                    slot,
                    id,
                    result,
                );
            }
        },
        ConversationObservation::ToolProgress { tool_call_id, progress, .. } => {
            lemma_change_keeps_settled(
                calls,
                crate::lists::is_call(tool_call_id@),
                crate::attempt::progressing(progress),
                slot,
                id,
                result,
            );
        },
        ConversationObservation::Publication { frame, .. } => {
            match frame.payload {
                PublicationPayload::ProposedToolCallArgumentsSuffix { call_id, suffix, .. } => {
                    lemma_change_keeps_settled(
                        calls,
                        crate::lists::is_call(call_id@),
                        crate::attempt::slot_arguments_changed(
                            crate::attempt::appending(suffix@),
                        ),
                        slot,
                        id,
                        result,
                    );
                },
                PublicationPayload::ProposedToolCallCompleted { call, .. } => {
                    lemma_change_keeps_settled(
                        calls,
                        crate::lists::is_call(call.id@),
                        crate::attempt::slot_arguments_changed(
                            crate::attempt::replacing(call.arguments@),
                        ),
                        slot,
                        id,
                        result,
                    );
                },
                _ => {},
            }
        },
        _ => {},
    }
}

/// Parts prompts by their addresses.
pub open spec fn other_prompt() -> spec_fn(Arc<RoutedInteraction>, Arc<RoutedInteraction>) -> bool {
    |a: Arc<RoutedInteraction>, b: Arc<RoutedInteraction>|
        !a.interaction.same_spec(b.interaction)
}

proof fn lemma_filter_keeps_apart<T>(
    items: Seq<T>,
    test: spec_fn(T) -> bool,
    differ: spec_fn(T, T) -> bool,
)
    requires
        crate::search::apart(items, differ),
    ensures
        crate::search::apart(items.filter(test), differ),
        forall|i: int|
            0 <= i < items.filter(test).len() ==> items.contains(#[trigger] items.filter(test)[i]),
    decreases items.len(),
{
    reveal(Seq::filter);
    if items.len() > 0 {
        let front = items.drop_last();
        assert forall|i: int, j: int| 0 <= i < j < front.len() implies differ(
            #[trigger] front[i],
            #[trigger] front[j],
        ) by {
            assert(front[i] == items[i] && front[j] == items[j]);
        }
        lemma_filter_keeps_apart(front, test, differ);
        let kept = front.filter(test);
        let all = items.filter(test);
        assert forall|i: int| 0 <= i < all.len() implies items.contains(#[trigger] all[i]) by {
            if i < kept.len() {
                assert(all[i] == kept[i]);
                let k = choose|k: int| 0 <= k < front.len() && front[k] == kept[i];
                assert(items[k] == all[i]);
            } else {
                assert(all[i] == items[items.len() - 1]);
            }
        }
        assert forall|i: int, j: int| 0 <= i < j < all.len() implies differ(
            #[trigger] all[i],
            #[trigger] all[j],
        ) by {
            assert(all[i] == kept[i]);
            if j < kept.len() {
                assert(all[j] == kept[j]);
            } else {
                let k = choose|k: int| 0 <= k < front.len() && front[k] == kept[i];
                assert(items[k] == all[i] && items[items.len() - 1] == all[j]);
            }
        }
    }
}

proof fn lemma_upsert_keeps_apart(
    prompts: Seq<Arc<RoutedInteraction>>,
    prompt: Arc<RoutedInteraction>,
)
    requires
        crate::search::apart(prompts, other_prompt()),
    ensures
        crate::search::apart(
            crate::lists::upsert_interaction_spec(prompts, prompt),
            other_prompt(),
        ),
{
    let test = crate::lists::is_same_interaction(prompt);
    let after = crate::lists::upsert_interaction_spec(prompts, prompt);
    crate::search::lemma_position(prompts, test);
    match crate::search::position(prompts, test) {
        Some(index) => {
            assert forall|i: int, j: int| 0 <= i < j < after.len() implies other_prompt()(
                #[trigger] after[i],
                #[trigger] after[j],
            ) by {
                assert(other_prompt()(prompts[i], prompts[j]));
            }
        },
        None => {
            let all = prompts.push(prompt);
            assert forall|i: int, j: int| 0 <= i < j < all.len() implies other_prompt()(
                #[trigger] all[i],
                #[trigger] all[j],
            ) by {
                assert(all[i] == prompts[i]);
                if j < prompts.len() {
                    assert(other_prompt()(prompts[i], prompts[j]));
                } else {
                    assert(!test(prompts[i]));
                }
            }
            crate::search::lemma_ordered_keeps_apart(
                all,
                crate::search::places::<Arc<RoutedInteraction>>(),
                other_prompt(),
            );
        },
    }
}

/// No two pending prompts have the same address, whatever is reported.
pub proof fn law_every_prompt_is_pending_once(
    state: SnapshotModel,
    observation: ConversationObservation,
)
    requires
        crate::search::apart(state.pending_interactions, other_prompt()),
    ensures
        crate::search::apart(
            state.reported(observation).state.pending_interactions,
            other_prompt(),
        ),
{
    reveal(SnapshotModel::reported);
    match observation {
        ConversationObservation::InteractionPending { interaction, .. } => {
            lemma_upsert_keeps_apart(state.pending_interactions, interaction);
        },
        ConversationObservation::InteractionSettled { interaction, .. } => {
            lemma_filter_keeps_apart(
                state.pending_interactions,
                crate::lists::is_other_interaction(interaction),
                other_prompt(),
            );
        },
        ConversationObservation::InteractionRemoved { interaction } => {
            lemma_filter_keeps_apart(
                state.pending_interactions,
                crate::lists::is_other_interaction(interaction),
                other_prompt(),
            );
        },
        ConversationObservation::SubagentLifecycle(snapshot) => {
            lemma_filter_keeps_apart(
                state.pending_interactions,
                crate::lists::asks_elsewhere(snapshot.child_conversation_id@),
                other_prompt(),
            );
        },
        _ => {},
    }
}

/// The order of prompts is the strict part of a total preorder.
proof fn lemma_prompts_are_ordered()
    ensures
        crate::search::is_order(crate::search::places::<Arc<RoutedInteraction>>()),
{
    let after = crate::search::places::<Arc<RoutedInteraction>>();
    assert forall|a: Arc<RoutedInteraction>, b: Arc<RoutedInteraction>| #[trigger]
        after(a, b) implies !after(b, a) by {
        lemma_addresses_are_ordered(a.interaction, b.interaction, a.interaction);
    }
    assert forall|
        a: Arc<RoutedInteraction>,
        b: Arc<RoutedInteraction>,
        c: Arc<RoutedInteraction>,
    |
        !#[trigger] after(a, b) && !#[trigger] after(b, c) implies !after(a, c) by {
        lemma_addresses_are_ordered(a.interaction, b.interaction, c.interaction);
    }
}

proof fn lemma_addresses_are_ordered(a: InteractionRef, b: InteractionRef, c: InteractionRef)
    ensures
        b.precedes_spec(a) ==> !a.precedes_spec(b),
        !b.precedes_spec(a) && !c.precedes_spec(b) ==> !c.precedes_spec(a),
{
    crate::identity::law_text_order_is_total(
        a.conversation_id@,
        b.conversation_id@,
        c.conversation_id@,
    );
    crate::identity::law_text_order_is_total(
        b.conversation_id@,
        c.conversation_id@,
        a.conversation_id@,
    );
    crate::identity::law_text_order_is_total(
        c.conversation_id@,
        a.conversation_id@,
        b.conversation_id@,
    );
    crate::identity::law_text_order_is_total(
        a.interaction_id@,
        b.interaction_id@,
        c.interaction_id@,
    );
    crate::identity::law_text_order_is_total(
        b.interaction_id@,
        c.interaction_id@,
        a.interaction_id@,
    );
    crate::identity::law_text_order_is_total(
        c.interaction_id@,
        a.interaction_id@,
        b.interaction_id@,
    );
    crate::identity::law_text_order_is_total(
        a.conversation_id@,
        c.conversation_id@,
        b.conversation_id@,
    );
    crate::identity::law_text_order_is_total(
        a.interaction_id@,
        c.interaction_id@,
        b.interaction_id@,
    );
}

/// A new prompt leaves the pending prompts in the order of their addresses.
pub proof fn law_a_new_prompt_is_put_in_order(
    state: SnapshotModel,
    interaction: Arc<RoutedInteraction>,
)
    requires
        crate::search::position(
            state.pending_interactions,
            crate::lists::is_same_interaction(interaction),
        ) is None,
    ensures
        crate::search::in_order(
            crate::lists::upsert_interaction_spec(state.pending_interactions, interaction),
            crate::search::places::<Arc<RoutedInteraction>>(),
        ),
{
    lemma_prompts_are_ordered();
    crate::search::law_ordered_is_a_sorted_rearrangement(
        state.pending_interactions.push(interaction),
        crate::search::places::<Arc<RoutedInteraction>>(),
    );
}

/// The pending prompts stay in the order of their addresses, whatever is reported.
pub proof fn law_prompts_stay_in_order(state: SnapshotModel, observation: ConversationObservation)
    requires
        crate::search::in_order(
            state.pending_interactions,
            crate::search::places::<Arc<RoutedInteraction>>(),
        ),
    ensures
        crate::search::in_order(
            state.reported(observation).state.pending_interactions,
            crate::search::places::<Arc<RoutedInteraction>>(),
        ),
{
    reveal(SnapshotModel::reported);
    let prompts = state.pending_interactions;
    let after = crate::search::places::<Arc<RoutedInteraction>>();
    match observation {
        ConversationObservation::InteractionPending { interaction, .. } => {
            let test = crate::lists::is_same_interaction(interaction);
            crate::search::lemma_position(prompts, test);
            match crate::search::position(prompts, test) {
                Some(index) => {
                    let changed = prompts.update(index, interaction);
                    assert forall|i: int, j: int| 0 <= i < j < changed.len() implies !after(
                        #[trigger] changed[i],
                        #[trigger] changed[j],
                    ) by {
                        assert(!after(prompts[i], prompts[j]));
                    }
                },
                None => law_a_new_prompt_is_put_in_order(state, interaction),
            }
        },
        ConversationObservation::InteractionSettled { interaction, .. } => {
            lemma_filter_keeps_order(prompts, crate::lists::is_other_interaction(interaction));
        },
        ConversationObservation::InteractionRemoved { interaction } => {
            lemma_filter_keeps_order(prompts, crate::lists::is_other_interaction(interaction));
        },
        ConversationObservation::SubagentLifecycle(snapshot) => {
            lemma_filter_keeps_order(
                prompts,
                crate::lists::asks_elsewhere(snapshot.child_conversation_id@),
            );
        },
        _ => {},
    }
}

proof fn lemma_filter_keeps_order(
    prompts: Seq<Arc<RoutedInteraction>>,
    test: spec_fn(Arc<RoutedInteraction>) -> bool,
)
    requires
        crate::search::in_order(prompts, crate::search::places::<Arc<RoutedInteraction>>()),
    ensures
        crate::search::in_order(
            prompts.filter(test),
            crate::search::places::<Arc<RoutedInteraction>>(),
        ),
{
    let after = crate::search::places::<Arc<RoutedInteraction>>();
    let not_after = |a: Arc<RoutedInteraction>, b: Arc<RoutedInteraction>| !after(a, b);
    assert forall|i: int, j: int| 0 <= i < j < prompts.len() implies not_after(
        #[trigger] prompts[i],
        #[trigger] prompts[j],
    ) by {
        assert(!after(prompts[i], prompts[j]));
    }
    lemma_filter_keeps_apart(prompts, test, not_after);
    let kept = prompts.filter(test);
    assert forall|i: int, j: int| 0 <= i < j < kept.len() implies !after(
        #[trigger] kept[i],
        #[trigger] kept[j],
    ) by {
        assert(not_after(kept[i], kept[j]));
    }
}

/// Whether a read model shows what an event tells.
pub open spec fn shows(state: SnapshotModel, event: EventModel) -> bool {
    match event {
        EventModel::Plain(event) => match event {
            RuntimeClientEvent::AttemptStarted { attempt_id, model } => {
                state.attempt matches Some(attempt) && attempt.attempt_id@ == attempt_id@
                    && attempt.phase is Running && attempt.model == model
            },
            RuntimeClientEvent::AttemptTurnUpdated { attempt_id, turn } => {
                state.attempt matches Some(attempt) && attempt.attempt_id@ == attempt_id@
                    && attempt.turn == turn
            },
            RuntimeClientEvent::AttemptUsageUpdated { attempt_id, usage } => {
                state.attempt matches Some(attempt) && attempt.attempt_id@ == attempt_id@
                    && attempt.last_usage == Some(usage)
            },
            RuntimeClientEvent::AssistantMessageStarted { attempt_id, message_id } => {
                state.attempt matches Some(attempt) && attempt.attempt_id@ == attempt_id@ && (
                attempt.in_flight matches Some(message) && message.message_id == message_id)
            },
            RuntimeClientEvent::AssistantPublicationSettled { attempt_id, .. } => {
                state.attempt matches Some(attempt) ==> attempt.attempt_id@ == attempt_id@
                    ==> attempt.in_flight is None
            },
            RuntimeClientEvent::ContextCompactionStarted { .. } => {
                state.context.compaction_in_progress
            },
            RuntimeClientEvent::ContextCompactionFailed { .. } => {
                !state.context.compaction_in_progress
            },
            RuntimeClientEvent::ContextCompacted { context, .. } => state.context == context,
            RuntimeClientEvent::ApprovalModeChanged {
                effective_approval_mode,
                pending_approval_mode,
                revision,
            } => {
                &&& state.effective_approval_mode == effective_approval_mode
                &&& state.pending_approval_mode == pending_approval_mode
                &&& state.approval_mode_revision == revision
            },
            RuntimeClientEvent::MessageCommitted { message, .. } => {
                state.messages.len() > 0 && state.messages.last() == message
            },
            RuntimeClientEvent::BackgroundExecutionUpdated { execution } => {
                state.background.contains(execution)
            },
            RuntimeClientEvent::SubagentUpdated { subagent } => state.subagents.contains(subagent),
            RuntimeClientEvent::SessionModelChanged { model } => state.model == model,
            RuntimeClientEvent::RuntimeShutdown => state.shutting_down,
            RuntimeClientEvent::RuntimeDurabilityFailed { operation, diagnostic } => {
                state.durability_failure == Some(RuntimeDurabilityFailure { operation, diagnostic })
            },
            _ => true,
        },
        EventModel::StatusComposed { status, .. } => crate::lists::holds_status(
            state.statuses,
            status.status_message_id@,
        ),
        EventModel::Drained { watermark, count, .. } => {
            &&& forall|i: int|
                0 <= i < state.inbound_pending.len() ==> (#[trigger] state.inbound_pending[i]).sequence.value
                    > watermark.value
            &&& state.last_drain == Some(InboundDrainView { watermark, count })
        },
        EventModel::Capabilities { capabilities } => state.capabilities == capabilities,
        EventModel::Generation { capabilities, resources } => {
            &&& state.capabilities == capabilities
            &&& state.resources == resources
        },
        EventModel::ToolSettled { .. } => true,
    }
}

/// A client that follows the events and one that takes a snapshot learn the same: what an
/// event tells of the conversation's state, the read model shows once the report that
/// caused it is folded.
pub proof fn law_the_read_model_shows_what_an_event_tells(
    state: SnapshotModel,
    observation: ConversationObservation,
    i: int,
)
    requires
        0 <= i < state.reported(observation).events.len(),
    ensures
        shows(state.reported(observation).state, state.reported(observation).events[i]),
{
    reveal(SnapshotModel::reported);
    match observation {
        ConversationObservation::Event { attempt_id, event } => {
            lemma_a_fact_is_shown(state, attempt_id, event, i);
        },
        ConversationObservation::ManualCompactionEvent { event } => {
            lemma_a_compaction_is_shown(state, None, event, i);
        },
        ConversationObservation::Publication { attempt_id, frame } => {
            lemma_a_frame_is_shown(state, attempt_id, frame, i);
        },
        ConversationObservation::Background(snapshot) => {
            lemma_upsert_holds(
                state.background,
                crate::lists::is_execution(snapshot.execution_id@),
                Arc::new(crate::views::background_view_spec(snapshot)),
            );
        },
        ConversationObservation::SubagentLifecycle(snapshot) => {
            lemma_subagent_is_shown(state, snapshot);
        },
        ConversationObservation::SubagentWorkspace(snapshot) => {
            lemma_subagent_is_shown(state, snapshot);
        },
        ConversationObservation::SubagentActivity(snapshot) => {
            lemma_subagent_is_shown(state, snapshot);
        },
        ConversationObservation::Status(status) => {
            let view = crate::views::status_view_spec(status);
            let window = crate::lists::admit_status_spec(state.statuses, view);
            if !crate::lists::holds_status(state.statuses, view.status_message_id@) {
                assert(window[window.len() - 1] == view);
            }
        },
        ConversationObservation::InboundDrained(batch) => {
            crate::response::lemma_filter_keeps(
                state.inbound_pending,
                crate::lists::waits_behind(batch.watermark),
            );
        },
        _ => {},
    }
}

proof fn lemma_a_compaction_is_shown(
    state: SnapshotModel,
    attempt_id: Option<AttemptId>,
    event: RuntimeEvent,
    i: int,
)
    requires
        0 <= i < state.compaction(attempt_id, event).events.len(),
    ensures
        shows(
            state.compaction(attempt_id, event).state,
            state.compaction(attempt_id, event).events[i],
        ),
{
}

proof fn lemma_a_fact_is_shown(
    state: SnapshotModel,
    attempt_id: AttemptId,
    event: RuntimeEvent,
    i: int,
)
    requires
        0 <= i < state.journal_fact(attempt_id, event).events.len(),
    ensures
        shows(
            state.journal_fact(attempt_id, event).state,
            state.journal_fact(attempt_id, event).events[i],
        ),
{
}

proof fn lemma_a_frame_is_shown(
    state: SnapshotModel,
    attempt_id: AttemptId,
    frame: PublicationFrame,
    i: int,
)
    requires
        0 <= i < state.stream_frame(attempt_id, frame).events.len(),
    ensures
        shows(
            state.stream_frame(attempt_id, frame).state,
            state.stream_frame(attempt_id, frame).events[i],
        ),
{
}

proof fn lemma_upsert_holds<T>(items: Seq<T>, test: spec_fn(T) -> bool, item: T)
    ensures
        crate::search::upsert(items, test, item).contains(item),
{
    crate::search::lemma_position(items, test);
    let after = crate::search::upsert(items, test, item);
    match crate::search::position(items, test) {
        Some(index) => assert(after[index] == item),
        None => assert(after[items.len() as int] == item),
    }
}

proof fn lemma_subagent_is_shown(state: SnapshotModel, snapshot: SubagentSnapshot)
    ensures
        state.subagent_updated(snapshot).state.subagents.contains(
            Arc::new(crate::views::subagent_view_spec(snapshot)),
        ),
{
    lemma_upsert_holds(
        state.subagents,
        crate::lists::is_subagent(snapshot.subagent_id@),
        Arc::new(crate::views::subagent_view_spec(snapshot)),
    );
}

/// To settle or to remove one prompt takes that prompt and no other.
pub proof fn law_removing_a_prompt_leaves_the_others(
    state: SnapshotModel,
    address: InteractionRef,
    prompt: Arc<RoutedInteraction>,
)
    ensures
        ({
            let after = state.reported(
                ConversationObservation::InteractionRemoved { interaction: address },
            ).state.pending_interactions;
            after.contains(prompt) <==> state.pending_interactions.contains(prompt)
                && !prompt.interaction.same_spec(address)
        }),
{
    reveal(SnapshotModel::reported);
    lemma_filter_contains(
        state.pending_interactions,
        crate::lists::is_other_interaction(address),
        prompt,
    );
}

pub(crate) proof fn lemma_filter_contains<T>(items: Seq<T>, test: spec_fn(T) -> bool, item: T)
    ensures
        items.filter(test).contains(item) <==> items.contains(item) && test(item),
    decreases items.len(),
{
    reveal(Seq::filter);
    if items.len() > 0 {
        let front = items.drop_last();
        lemma_filter_contains(front, test, item);
        let kept = front.filter(test);
        let all = items.filter(test);
        if kept.contains(item) {
            let k = choose|k: int| 0 <= k < kept.len() && kept[k] == item;
            assert(all[k] == item);
        }
        if all.contains(item) {
            let k = choose|k: int| 0 <= k < all.len() && all[k] == item;
            if k < kept.len() {
                assert(kept[k] == item);
            }
        }
        if items.contains(item) {
            let k = choose|k: int| 0 <= k < items.len() && items[k] == item;
            if k < front.len() {
                assert(front[k] == item);
            } else if test(item) {
                assert(all[all.len() - 1] == item);
            }
        }
        if front.contains(item) {
            let k = choose|k: int| 0 <= k < front.len() && front[k] == item;
            assert(items[k] == item);
        }
        if items.last() == item {
            assert(items[items.len() - 1] == item);
        }
    }
}

/// Two suffixes of one text are one suffix: what a client has of a streamed block is
/// what was streamed, in the order in which it came.
pub proof fn law_streamed_text_accumulates(
    state: SnapshotModel,
    index: ContentBlockIndex,
    first: Seq<char>,
    second: Seq<char>,
    kind: TextKind,
)
    ensures
        state.with_more_text(index, first, kind).with_more_text(index, second, kind)
            == state.with_more_text(index, first + second, kind),
{
    if let Some(attempt) = state.attempt {
        if let Some(message) = attempt.in_flight {
            let blocks = message.blocks;
            let test = crate::lists::is_block(index);
            let once = crate::attempt::text_appended(blocks, index, first, kind);
            crate::search::lemma_position(blocks, test);
            match crate::search::position(blocks, test) {
                Some(place) => {
                    assert forall|i: int| 0 <= i < place implies !test(#[trigger] once[i]) by {
                        assert(once[i] == blocks[i]);
                    }
                    crate::search::lemma_position_at(once, test, place);
                    assert(once[place].with_more_text(second) == blocks[place].with_more_text(
                        first + second,
                    )) by {
                        lemma_text_in_parts(blocks[place], first, second);
                    }
                },
                None => {
                    assert forall|i: int| 0 <= i < blocks.len() implies !test(
                        #[trigger] once[i],
                    ) by {
                        assert(once[i] == blocks[i]);
                    }
                    crate::search::lemma_position_at(once, test, blocks.len() as int);
                },
            }
            assert(crate::attempt::text_appended(once, index, second, kind)
                =~= crate::attempt::text_appended(blocks, index, first + second, kind));
        }
    }
}

proof fn lemma_text_in_parts(
    block: crate::snapshot::InFlightBlockModel,
    first: Seq<char>,
    second: Seq<char>,
)
    ensures
        block.with_more_text(first).with_more_text(second) == block.with_more_text(
            first + second,
        ),
{
    match block {
        crate::snapshot::InFlightBlockModel::Text { text, .. } => {
            assert((text + first) + second =~= text + (first + second));
        },
        crate::snapshot::InFlightBlockModel::Reasoning { text, .. } => {
            assert((text + first) + second =~= text + (first + second));
        },
        crate::snapshot::InFlightBlockModel::Refusal { text, .. } => {
            assert((text + first) + second =~= text + (first + second));
        },
        crate::snapshot::InFlightBlockModel::ToolCall { .. } => {},
    }
}

pub(crate) proof fn lemma_subagent_lifecycle(state: SnapshotModel, snapshot: SubagentSnapshot)
    ensures
        state.reported(ConversationObservation::SubagentLifecycle(snapshot))
            == state.subagent_lifecycle(snapshot),
{
    reveal(SnapshotModel::reported);
}

pub(crate) proof fn lemma_subagent_workspace(state: SnapshotModel, snapshot: SubagentSnapshot)
    ensures
        state.reported(ConversationObservation::SubagentWorkspace(snapshot))
            == state.subagent_updated(snapshot),
{
    reveal(SnapshotModel::reported);
}

pub(crate) proof fn lemma_subagent_activity(state: SnapshotModel, snapshot: SubagentSnapshot)
    ensures
        state.reported(ConversationObservation::SubagentActivity(snapshot))
            == state.subagent_updated(snapshot),
{
    reveal(SnapshotModel::reported);
}

/// With the end of a subagent exactly the prompts of its conversation are gone, each with
/// an event of its own, in their order and behind the subagent's record. A report on its
/// workspace or its activity leaves every prompt. All three record the subagent alike.
pub proof fn law_a_subagent_takes_its_prompts_along(
    state: SnapshotModel,
    snapshot: SubagentSnapshot,
)
    ensures
        ({
            let conversation = snapshot.child_conversation_id@;
            let here = crate::lists::asks_from(conversation);
            let elsewhere = crate::lists::asks_elsewhere(conversation);
            let lifecycle = state.reported(ConversationObservation::SubagentLifecycle(snapshot));
            let workspace = state.reported(ConversationObservation::SubagentWorkspace(snapshot));
            let activity = state.reported(ConversationObservation::SubagentActivity(snapshot));
            let gone = if snapshot.state.is_terminal_spec() {
                state.pending_interactions.filter(here)
            } else {
                Seq::empty()
            };
            let told = EventModel::Plain(
                RuntimeClientEvent::SubagentUpdated {
                    subagent: Arc::new(crate::views::subagent_view_spec(snapshot)),
                },
            );
            &&& lifecycle.events == seq![told] + crate::fold::removals(
                crate::lists::addresses(gone),
            )
            &&& lifecycle.state.pending_interactions == if snapshot.state.is_terminal_spec() {
                state.pending_interactions.filter(elsewhere)
            } else {
                state.pending_interactions
            }
            &&& forall|prompt: Arc<RoutedInteraction>| #[trigger]
                state.pending_interactions.contains(prompt) ==> here(prompt) != elsewhere(prompt)
            &&& workspace.events == seq![told]
            &&& workspace.state.pending_interactions == state.pending_interactions
            &&& activity == workspace
            &&& lifecycle.state.subagents == workspace.state.subagents
            &&& lifecycle.state == SnapshotModel {
                pending_interactions: lifecycle.state.pending_interactions,
                ..workspace.state
            }
        }),
{
    lemma_subagent_lifecycle(state, snapshot);
    lemma_subagent_workspace(state, snapshot);
    lemma_subagent_activity(state, snapshot);
    if !snapshot.state.is_terminal_spec() {
        let told = state.subagent_updated(snapshot).events;
        let none = crate::lists::addresses(Seq::<Arc<RoutedInteraction>>::empty());
        assert(told + crate::fold::removals(none) =~= told);
    }
}

/// Whether the calls of an attempt are the same, in the same order, whatever became of them.
pub open spec fn same_calls(before: Seq<ForegroundModel>, after: Seq<ForegroundModel>) -> bool {
    &&& after.len() == before.len()
    &&& forall|i: int|
        0 <= i < before.len() ==> (#[trigger] after[i]).call_id == before[i].call_id
            && after[i].tool_id == before[i].tool_id && after[i].name == before[i].name
}

/// No fact of the journal but the start of an attempt adds, drops or moves a tool call of
/// the attempt that is shown, and a call that has settled stays as it is. A result that
/// comes late for such a call changes nothing and is not told again.
pub proof fn law_journal_facts_keep_the_calls(
    state: SnapshotModel,
    attempt_id: AttemptId,
    event: RuntimeEvent,
)
    requires
        state.attempt is Some,
        !(event is AttemptStarted),
    ensures
        ({
            let step = state.reported(ConversationObservation::Event { attempt_id, event });
            let before = state.attempt->Some_0.foreground;
            &&& step.state.attempt matches Some(attempt) && {
                &&& attempt.attempt_id == state.attempt->Some_0.attempt_id
                &&& same_calls(before, attempt.foreground)
                &&& forall|i: int|
                    0 <= i < before.len() && (#[trigger] before[i]).state is Settled
                        ==> attempt.foreground[i] == before[i]
            }
            &&& (match event {
                RuntimeEvent::ToolExecutionCompleted { tool_call_id, .. } => state.settlement(
                    attempt_id@,
                    tool_call_id@,
                ) == ForegroundSettlement::AlreadySettled,
                RuntimeEvent::ToolExecutionFailed { tool_call_id, .. } => state.settlement(
                    attempt_id@,
                    tool_call_id@,
                ) == ForegroundSettlement::AlreadySettled,
                _ => false,
            }) ==> step.state == state && step.events.len() == 0
        }),
{
    reveal(SnapshotModel::reported);
    let before = state.attempt->Some_0.foreground;
    match event {
        RuntimeEvent::ToolExecutionStarted { tool_call_id, .. } => {
            crate::search::lemma_position(before, crate::lists::is_call(tool_call_id@));
        },
        RuntimeEvent::ToolExecutionProgress { tool_call_id, .. } => {
            crate::search::lemma_position(before, crate::lists::is_call(tool_call_id@));
        },
        RuntimeEvent::ToolExecutionCompleted { tool_call_id, tool_id, result } => {
            crate::search::lemma_position(before, crate::lists::is_call(tool_call_id@));
            if state.settlement(attempt_id@, tool_call_id@)
                == ForegroundSettlement::AlreadySettled {
                law_a_call_settles_once(state, attempt_id, tool_call_id, tool_id, result@);
            }
        },
        RuntimeEvent::ToolExecutionFailed { tool_call_id, tool_id, error } => {
            crate::search::lemma_position(before, crate::lists::is_call(tool_call_id@));
            if state.settlement(attempt_id@, tool_call_id@)
                == ForegroundSettlement::AlreadySettled {
                law_a_call_settles_once(
                    state,
                    attempt_id,
                    tool_call_id,
                    tool_id,
                    ToolResultModel::failed(error),
                );
            }
        },
        _ => {},
    }
}

/// The window after compositions are admitted, in their order, into an empty one.
pub open spec fn window_after(views: Seq<StatusModel>) -> Seq<StatusModel>
    decreases views.len(),
{
    if views.len() == 0 {
        Seq::empty()
    } else {
        crate::lists::admit_status_spec(window_after(views.drop_last()), views.last())
    }
}

/// The list of a client that starts with none and follows every admission: it drops what
/// was pushed out, and takes what was composed unless it has it.
pub open spec fn client_list_after(views: Seq<StatusModel>) -> Seq<StatusModel>
    decreases views.len(),
{
    if views.len() == 0 {
        Seq::empty()
    } else {
        let held = client_list_after(views.drop_last());
        let evicted = crate::lists::evicted_status_spec(
            window_after(views.drop_last()),
            views.last(),
        );
        let kept = match evicted {
            Some(id) => held.filter(|status: StatusModel| status.status_message_id@ != id@),
            None => held,
        };
        if crate::lists::holds_status(kept, views.last().status_message_id@) {
            kept
        } else {
            kept.push(views.last())
        }
    }
}

/// Over any compositions, a client that follows every admission has the window: never more
/// than its bound, and every composition in it once. Of compositions that are all different
/// the window holds the newest, in their order.
pub proof fn law_a_client_that_follows_has_the_window(views: Seq<StatusModel>)
    ensures
        client_list_after(views) == window_after(views),
        is_window(window_after(views)),
        crate::search::apart(views, other_status()) ==> window_after(views) == if views.len()
            > AGENT_STATUS_WINDOW {
            views.skip(views.len() - AGENT_STATUS_WINDOW)
        } else {
            views
        },
    decreases views.len(),
{
    if views.len() > 0 {
        let front = views.drop_last();
        let last = views.last();
        law_a_client_that_follows_has_the_window(front);
        let window = window_after(front);
        lemma_admission_keeps_the_window(window, last);
        let held = crate::lists::holds_status(window, last.status_message_id@);
        if !held && window.len() >= AGENT_STATUS_WINDOW {
            let oldest = window[0].status_message_id;
            let test = |status: StatusModel| status.status_message_id@ != oldest@;
            assert forall|i: int| 0 < i < window.len() implies test(#[trigger] window[i]) by {
                assert(other_status()(window[0], window[i]));
            }
            lemma_drop_the_first(window, test);
            assert(window.push(last)[0] == window[0]);
            assert(window.push(last).drop_first() =~= window.drop_first().push(last));
            let kept = window.drop_first();
            assert forall|i: int| 0 <= i < kept.len() implies (
            #[trigger] kept[i]).status_message_id@ != last.status_message_id@ by {
                assert(kept[i] == window[i + 1]);
            }
            assert(!crate::lists::holds_status(kept, last.status_message_id@));
        }
        if crate::search::apart(views, other_status()) {
            assert forall|i: int, j: int| 0 <= i < j < front.len() implies other_status()(
                #[trigger] front[i],
                #[trigger] front[j],
            ) by {
                assert(front[i] == views[i] && front[j] == views[j]);
            }
            let start = if front.len() > AGENT_STATUS_WINDOW {
                front.len() - AGENT_STATUS_WINDOW
            } else {
                0
            };
            assert forall|i: int| 0 <= i < window.len() implies (
            #[trigger] window[i]).status_message_id@ != last.status_message_id@ by {
                assert(window[i] == views[start + i]);
                assert(other_status()(views[start + i], views[views.len() - 1]));
            }
            assert(!held);
            assert(views =~= front.push(last));
            if views.len() > AGENT_STATUS_WINDOW {
                assert(window_after(views) =~= views.skip(views.len() - AGENT_STATUS_WINDOW));
            } else {
                assert(window_after(views) =~= views);
            }
        }
    }
}

/// Whether prompts are in the order of their addresses, each address once.
pub open spec fn ascending(prompts: Seq<Arc<RoutedInteraction>>) -> bool {
    forall|i: int, j: int|
        0 <= i < j < prompts.len() ==> (#[trigger] prompts[i]).interaction.precedes_spec(
            (#[trigger] prompts[j]).interaction,
        )
}

proof fn lemma_ascending(prompts: Seq<Arc<RoutedInteraction>>)
    ensures
        ascending(prompts) <==> crate::search::in_order(
            prompts,
            crate::search::places::<Arc<RoutedInteraction>>(),
        ) && crate::search::apart(prompts, other_prompt()),
{
    let after = crate::search::places::<Arc<RoutedInteraction>>();
    if ascending(prompts) {
        assert forall|i: int, j: int| 0 <= i < j < prompts.len() implies !after(
            #[trigger] prompts[i],
            #[trigger] prompts[j],
        ) && other_prompt()(prompts[i], prompts[j]) by {
            lemma_an_address_comes_once(prompts[i].interaction, prompts[j].interaction);
        }
    }
    if crate::search::in_order(prompts, after) && crate::search::apart(prompts, other_prompt()) {
        assert forall|i: int, j: int| 0 <= i < j < prompts.len() implies (
        #[trigger] prompts[i]).interaction.precedes_spec((#[trigger] prompts[j]).interaction) by {
            assert(!after(prompts[i], prompts[j]));
            assert(other_prompt()(prompts[i], prompts[j]));
            lemma_an_address_comes_once(prompts[i].interaction, prompts[j].interaction);
        }
    }
}

proof fn lemma_an_address_comes_once(a: InteractionRef, b: InteractionRef)
    ensures
        a.precedes_spec(b) ==> !b.precedes_spec(a) && !a.same_spec(b),
        !b.precedes_spec(a) && !a.same_spec(b) ==> a.precedes_spec(b),
{
    crate::identity::law_text_order_is_total(
        a.conversation_id@,
        b.conversation_id@,
        a.conversation_id@,
    );
    crate::identity::law_text_order_is_total(
        b.conversation_id@,
        a.conversation_id@,
        b.conversation_id@,
    );
    crate::identity::law_text_order_is_total(
        a.interaction_id@,
        b.interaction_id@,
        a.interaction_id@,
    );
    crate::identity::law_text_order_is_total(
        b.interaction_id@,
        a.interaction_id@,
        b.interaction_id@,
    );
}

/// To put a prompt into prompts that are in the order of their addresses leaves them in that
/// order, with the prompt among them and every other prompt exactly as it was. There is one
/// prompt more where the address is new, and else as many as before.
pub proof fn law_a_prompt_joins_the_others(
    prompts: Seq<Arc<RoutedInteraction>>,
    request: Arc<RoutedInteraction>,
    other: Arc<RoutedInteraction>,
)
    requires
        ascending(prompts),
    ensures
        ({
            let after = crate::lists::upsert_interaction_spec(prompts, request);
            let is_new = crate::search::position(
                prompts,
                crate::lists::is_same_interaction(request),
            ) is None;
            &&& ascending(after)
            &&& after.contains(request)
            &&& !other.interaction.same_spec(request.interaction) ==> (after.contains(other)
                <==> prompts.contains(other))
            &&& other.interaction.same_spec(request.interaction) && after.contains(other) ==> other
                == request
            &&& after.len() == if is_new {
                prompts.len() + 1
            } else {
                prompts.len()
            }
            &&& is_new <==> forall|i: int|
                0 <= i < prompts.len() ==> !(#[trigger] prompts[i]).interaction.same_spec(
                    request.interaction,
                )
        }),
{
    let after = crate::lists::upsert_interaction_spec(prompts, request);
    let test = crate::lists::is_same_interaction(request);
    let places = crate::search::places::<Arc<RoutedInteraction>>();
    lemma_ascending(prompts);
    lemma_upsert_keeps_apart(prompts, request);
    crate::search::lemma_position(prompts, test);
    match crate::search::position(prompts, test) {
        Some(index) => {
            assert(test(prompts[index]));
            assert(after[index] == request);
            assert forall|i: int, j: int| 0 <= i < j < after.len() implies (
            #[trigger] after[i]).interaction.precedes_spec((#[trigger] after[j]).interaction) by {
                assert(prompts[i].interaction.precedes_spec(prompts[j].interaction));
            }
            if prompts.contains(other) && !test(other) {
                let k = choose|k: int| 0 <= k < prompts.len() && prompts[k] == other;
                assert(after[k] == other);
            }
            if after.contains(other) {
                let k = choose|k: int| 0 <= k < after.len() && after[k] == other;
                if k != index {
                    assert(prompts[k] == other);
                    if test(other) {
                        if k < index {
                            assert(other_prompt()(prompts[k], prompts[index]));
                        } else {
                            assert(other_prompt()(prompts[index], prompts[k]));
                        }
                    }
                }
            }
        },
        None => {
            let all = prompts.push(request);
            assert forall|i: int, j: int| 0 <= i < j < all.len() implies other_prompt()(
                #[trigger] all[i],
                #[trigger] all[j],
            ) by {
                assert(all[i] == prompts[i]);
                if j < prompts.len() {
                    assert(other_prompt()(prompts[i], prompts[j]));
                } else {
                    assert(!test(prompts[i]));
                }
            }
            crate::search::lemma_ordered_keeps_apart(all, places, other_prompt());
            lemma_prompts_are_ordered();
            crate::search::law_ordered_is_a_sorted_rearrangement(all, places);
            lemma_ascending(after);
            assert(all[prompts.len() as int] == request);
            if prompts.contains(other) {
                let k = choose|k: int| 0 <= k < prompts.len() && prompts[k] == other;
                assert(all[k] == other);
            }
            if after.contains(other) {
                let k = choose|k: int| 0 <= k < after.len() && after[k] == other;
                assert(all.contains(after[k]));
                let m = choose|m: int| 0 <= m < all.len() && all[m] == other;
                if m < prompts.len() {
                    assert(prompts[m] == other);
                    assert(!test(prompts[m]));
                }
            }
        },
    }
}

proof fn lemma_calls_are_shown(foreground: Seq<ForegroundModel>, content: Seq<AssistantContentBlock>)
    ensures
        ({
            let shown = crate::bootstrap::calls_shown(foreground, content);
            &&& shown.len() >= foreground.len()
            &&& forall|i: int| 0 <= i < foreground.len() ==> shown[i] == #[trigger] foreground[i]
            &&& forall|i: int|
                0 <= i < content.len() ==> (#[trigger] content[i] matches
                    AssistantContentBlock::ToolCall(call) ==> crate::search::position(
                    shown,
                    crate::lists::is_call(call.id@),
                ) is Some)
        }),
    decreases content.len(),
{
    if content.len() > 0 {
        let front = content.drop_last();
        lemma_calls_are_shown(foreground, front);
        let before = crate::bootstrap::calls_shown(foreground, front);
        let shown = crate::bootstrap::calls_shown(foreground, content);
        assert forall|i: int| 0 <= i < content.len() implies (#[trigger] content[i] matches
            AssistantContentBlock::ToolCall(call) ==> crate::search::position(
            shown,
            crate::lists::is_call(call.id@),
        ) is Some) by {
            if let AssistantContentBlock::ToolCall(call) = content[i] {
                let test = crate::lists::is_call(call.id@);
                crate::search::lemma_position(before, test);
                crate::search::lemma_position(shown, test);
                if i < front.len() {
                    assert(front[i] == content[i]);
                    let k = crate::search::position(before, test)->Some_0;
                    assert(shown[k] == before[k]);
                } else if crate::search::position(before, test) is None {
                    assert(test(shown[before.len() as int]));
                }
            }
        }
    }
}

proof fn lemma_shown_calls_stay(foreground: Seq<ForegroundModel>, content: Seq<AssistantContentBlock>)
    requires
        forall|i: int|
            0 <= i < content.len() ==> (#[trigger] content[i] matches
                AssistantContentBlock::ToolCall(call) ==> crate::search::position(
                foreground,
                crate::lists::is_call(call.id@),
            ) is Some),
    ensures
        crate::bootstrap::calls_shown(foreground, content) == foreground,
    decreases content.len(),
{
    if content.len() > 0 {
        let front = content.drop_last();
        assert forall|i: int| 0 <= i < front.len() implies (#[trigger] front[i] matches
            AssistantContentBlock::ToolCall(call) ==> crate::search::position(
            foreground,
            crate::lists::is_call(call.id@),
        ) is Some) by {
            assert(front[i] == content[i]);
        }
        lemma_shown_calls_stay(foreground, front);
        assert(content[content.len() - 1] == content.last());
    }
}

/// To fold a canonical message twice is to fold it once: no call is shown a second time,
/// and none settles again.
pub proof fn law_a_durable_message_is_folded_once(
    state: SnapshotModel,
    attempt_id: AttemptId,
    message: MessageBlock,
)
    ensures
        state.with_message_of(attempt_id, message).with_message_of(attempt_id, message)
            == state.with_message_of(attempt_id, message),
{
    match message {
        MessageBlock::Assistant(assistant) => {
            let calls = state.ensured(attempt_id).attempt->Some_0.foreground;
            lemma_calls_are_shown(calls, assistant.content@);
            lemma_shown_calls_stay(
                crate::bootstrap::calls_shown(calls, assistant.content@),
                assistant.content@,
            );
        },
        MessageBlock::Tool(tool) => {
            let once = state.with_message_of(attempt_id, message);
            match state.settlement(attempt_id@, tool.tool_call_id@) {
                ForegroundSettlement::Missing => {},
                ForegroundSettlement::AlreadySettled => {
                    law_a_call_settles_once(
                        state,
                        attempt_id,
                        tool.tool_call_id,
                        tool.tool_id,
                        tool.result@,
                    );
                },
                ForegroundSettlement::Applied => {
                    law_a_settlement_settles(
                        state,
                        attempt_id,
                        tool.tool_call_id,
                        tool.tool_id,
                        tool.result@,
                    );
                    law_a_call_settles_once(
                        once,
                        attempt_id,
                        tool.tool_call_id,
                        tool.tool_id,
                        tool.result@,
                    );
                },
            }
        },
        MessageBlock::User(_) => {},
    }
}

} // verus!
