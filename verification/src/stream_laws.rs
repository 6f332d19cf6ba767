//! Laws of streamed messages: what a client sees of a message that is being written.
use std::sync::Arc;

use vstd::prelude::*;

#[allow(unused_imports)]
use crate::event::{EventModel, RuntimeClientEvent};
#[allow(unused_imports)]
use crate::identity::{AttemptId, ToolCallId};
#[allow(unused_imports)]
use crate::message::ContentBlockIndex;
#[allow(unused_imports)]
use crate::observation::{ConversationObservation, TranscriptCursor};
#[allow(unused_imports)]
use crate::publication::{
    PublicationAudit, PublicationFrame, PublicationPayload, PublicationStreamStart,
};
#[allow(unused_imports)]
use crate::snapshot::{
    AttemptModel, ForegroundModel, ForegroundStateModel, InFlightBlockModel, InFlightModel,
    RuntimeClientTranscriptCursor, SnapshotModel,
};
#[allow(unused_imports)]
use crate::tool::{ToolCall, ToolCallStart};

verus! {

proof fn lemma_frame(state: SnapshotModel, attempt_id: AttemptId, frame: PublicationFrame)
    ensures
        state.reported(ConversationObservation::Publication { attempt_id, frame })
            == state.stream_frame(attempt_id, frame),
{
    reveal(SnapshotModel::reported);
}

/// A stream that opens shows its message, empty, as the one that is being written. An
/// attempt that is shown keeps everything else; one that is not is shown from then on, as
/// running and with nothing done.
pub proof fn law_a_stream_opens_an_empty_message(
    state: SnapshotModel,
    attempt_id: AttemptId,
    start: PublicationStreamStart,
)
    ensures
        ({
            let step = state.reported(
                ConversationObservation::PublicationOpened { attempt_id, start },
            );
            let message = InFlightModel { message_id: start.message_id, blocks: Seq::empty() };
            &&& step.state == SnapshotModel { attempt: step.state.attempt, ..state }
            &&& step.state.attempt matches Some(after) && {
                &&& after.in_flight == Some(message)
                &&& after.attempt_id@ == attempt_id@
                &&& crate::call_laws::is_shown(state, attempt_id) ==> after == AttemptModel {
                    in_flight: Some(message),
                    ..state.attempt->Some_0
                }
                &&& !crate::call_laws::is_shown(state, attempt_id) ==> {
                    &&& after.phase is Running
                    &&& after.turn == 0
                    &&& after.last_usage is None
                    &&& after.foreground.len() == 0
                    &&& after.model == state.model.attempt
                }
            }
            &&& step.events == seq![
                EventModel::Plain(
                    RuntimeClientEvent::AssistantMessageStarted {
                        attempt_id,
                        message_id: start.message_id,
                    },
                ),
            ]
        }),
{
    reveal(SnapshotModel::reported);
}

/// A stream that ends without a message leaves no message being written by its attempt, and
/// everything else as it was. What was committed for release is told.
pub proof fn law_a_settled_stream_leaves_nothing_in_flight(
    state: SnapshotModel,
    attempt_id: AttemptId,
    audit: Arc<PublicationAudit>,
    transcript_cursor: TranscriptCursor,
)
    ensures
        ({
            let step = state.reported(
                ConversationObservation::PublicationSettled {
                    attempt_id,
                    audit,
                    transcript_cursor,
                },
            );
            &&& !crate::call_laws::is_shown(state, attempt_id) ==> step.state == state
            &&& crate::call_laws::is_shown(state, attempt_id) ==> {
                &&& step.state.attempt matches Some(after) && after.in_flight is None
                &&& step.state == SnapshotModel {
                    attempt: Some(
                        AttemptModel { in_flight: None, ..state.attempt->Some_0 },
                    ),
                    ..state
                }
            }
            &&& step.events == seq![
                EventModel::Plain(
                    RuntimeClientEvent::AssistantPublicationSettled {
                        attempt_id,
                        audit,
                        transcript_cursor: RuntimeClientTranscriptCursor {
                            value: transcript_cursor.value,
                        },
                    },
                ),
            ]
        }),
{
    reveal(SnapshotModel::reported);
}

/// The place of a block in the message that is being written.
pub open spec fn place_of(block: InFlightBlockModel) -> u32 {
    match block {
        InFlightBlockModel::Text { block_index, .. } => block_index.value,
        InFlightBlockModel::Reasoning { block_index, .. } => block_index.value,
        InFlightBlockModel::Refusal { block_index, .. } => block_index.value,
        InFlightBlockModel::ToolCall { block_index, .. } => block_index.value,
    }
}

/// Whether the first block of a place stands at an index.
pub open spec fn block_stands_at(
    blocks: Seq<InFlightBlockModel>,
    place: ContentBlockIndex,
    index: int,
) -> bool {
    &&& 0 <= index < blocks.len()
    &&& place_of(blocks[index]) == place.value
    &&& forall|i: int| 0 <= i < index ==> place_of(#[trigger] blocks[i]) != place.value
}

/// Whether no block has a place.
pub open spec fn no_block_is_at(
    blocks: Seq<InFlightBlockModel>,
    place: ContentBlockIndex,
) -> bool {
    forall|i: int| 0 <= i < blocks.len() ==> place_of(#[trigger] blocks[i]) != place.value
}

proof fn lemma_block_found(
    blocks: Seq<InFlightBlockModel>,
    place: ContentBlockIndex,
    index: int,
)
    requires
        block_stands_at(blocks, place, index),
    ensures
        crate::search::position(blocks, crate::lists::is_block(place)) == Some(index),
{
    let test = crate::lists::is_block(place);
    assert forall|i: int| 0 <= i < index implies !test(#[trigger] blocks[i]) by {
        assert(place_of(blocks[i]) != place.value);
    }
    crate::search::lemma_position_at(blocks, test, index);
}

proof fn lemma_block_missing(blocks: Seq<InFlightBlockModel>, place: ContentBlockIndex)
    requires
        no_block_is_at(blocks, place),
    ensures
        crate::search::position(blocks, crate::lists::is_block(place)) is None,
{
    let test = crate::lists::is_block(place);
    assert forall|i: int| 0 <= i < blocks.len() implies !test(#[trigger] blocks[i]) by {
        assert(place_of(blocks[i]) != place.value);
    }
    crate::search::lemma_position_none(blocks, test);
}

/// The read model with other blocks of the message that is being written, and nothing else
/// changed.
pub open spec fn with_blocks(
    state: SnapshotModel,
    blocks: Seq<InFlightBlockModel>,
) -> SnapshotModel {
    let attempt = state.attempt->Some_0;
    SnapshotModel {
        attempt: Some(
            AttemptModel {
                in_flight: Some(
                    InFlightModel { message_id: attempt.in_flight->Some_0.message_id, blocks },
                ),
                ..attempt
            },
        ),
        ..state
    }
}

/// Text that is streamed comes behind the text of its block; the first text of a place makes
/// a block of its own kind there, behind the others. No other block changes, and exactly what
/// was streamed is told, under the kind it came as.
pub proof fn law_streamed_text_reaches_its_block(
    state: SnapshotModel,
    attempt_id: AttemptId,
    frame: PublicationFrame,
    place: ContentBlockIndex,
    suffix: String,
    index: int,
)
    requires
        frame.payload == (PublicationPayload::TextSuffix { block_index: place, suffix })
            || frame.payload == (PublicationPayload::ReasoningSuffix {
            block_index: place,
            suffix,
        }) || frame.payload == (PublicationPayload::RefusalSuffix { block_index: place, suffix }),
        crate::call_laws::is_shown(state, attempt_id),
        state.attempt->Some_0.in_flight is Some,
    ensures
        ({
            let blocks = state.attempt->Some_0.in_flight->Some_0.blocks;
            let step = state.reported(ConversationObservation::Publication { attempt_id, frame });
            &&& block_stands_at(blocks, place, index) ==> step.state == with_blocks(
                state,
                match blocks[index] {
                    InFlightBlockModel::Text { block_index, text } => blocks.update(
                        index,
                        InFlightBlockModel::Text { block_index, text: text + suffix@ },
                    ),
                    InFlightBlockModel::Reasoning { block_index, text } => blocks.update(
                        index,
                        InFlightBlockModel::Reasoning { block_index, text: text + suffix@ },
                    ),
                    InFlightBlockModel::Refusal { block_index, text } => blocks.update(
                        index,
                        InFlightBlockModel::Refusal { block_index, text: text + suffix@ },
                    ),
                    InFlightBlockModel::ToolCall { .. } => blocks,
                },
            )
            &&& no_block_is_at(blocks, place) ==> step.state == with_blocks(
                state,
                blocks.push(
                    match frame.payload {
                        PublicationPayload::TextSuffix { .. } => InFlightBlockModel::Text {
                            block_index: place,
                            text: suffix@,
                        },
                        PublicationPayload::ReasoningSuffix { .. } => InFlightBlockModel::Reasoning {
                            block_index: place,
                            text: suffix@,
                        },
                        _ => InFlightBlockModel::Refusal { block_index: place, text: suffix@ },
                    },
                ),
            )
        }),
{
    lemma_frame(state, attempt_id, frame);
    let blocks = state.attempt->Some_0.in_flight->Some_0.blocks;
    if block_stands_at(blocks, place, index) {
        lemma_block_found(blocks, place, index);
        assert(blocks.update(index, blocks[index]) =~= blocks);
    }
    if no_block_is_at(blocks, place) {
        lemma_block_missing(blocks, place);
    }
}

/// A client is told every frame of a stream, under its kind and word for word; only the
/// frame that shows nothing is not told.
pub proof fn law_a_frame_is_told_word_for_word(
    state: SnapshotModel,
    attempt_id: AttemptId,
    frame: PublicationFrame,
)
    ensures
        ({
            let step = state.reported(ConversationObservation::Publication { attempt_id, frame });
            let message_id = frame.message_id;
            match frame.payload {
                PublicationPayload::TextSuffix { block_index, suffix } => step.events == seq![
                    EventModel::Plain(
                        RuntimeClientEvent::AssistantTextDelta {
                            attempt_id,
                            message_id,
                            block_index,
                            delta: suffix,
                        },
                    ),
                ],
                PublicationPayload::ReasoningSuffix { block_index, suffix } => step.events == seq![
                    EventModel::Plain(
                        RuntimeClientEvent::AssistantReasoningDelta {
                            attempt_id,
                            message_id,
                            block_index,
                            delta: suffix,
                        },
                    ),
                ],
                PublicationPayload::RefusalSuffix { block_index, suffix } => step.events == seq![
                    EventModel::Plain(
                        RuntimeClientEvent::AssistantRefusalDelta {
                            attempt_id,
                            message_id,
                            block_index,
                            delta: suffix,
                        },
                    ),
                ],
                PublicationPayload::ProposedToolCallStarted { block_index, call } => step.events
                    == seq![
                    EventModel::Plain(
                        RuntimeClientEvent::ToolCallStarted {
                            attempt_id,
                            message_id,
                            block_index,
                            call,
                        },
                    ),
                ],
                PublicationPayload::ProposedToolCallArgumentsSuffix {
                    block_index,
                    call_id,
                    suffix,
                } => step.events == seq![
                    EventModel::Plain(
                        RuntimeClientEvent::ToolCallArgumentsDelta {
                            attempt_id,
                            message_id,
                            block_index,
                            call_id,
                            arguments_delta: suffix,
                        },
                    ),
                ],
                PublicationPayload::ProposedToolCallCompleted { block_index, call } => step.events
                    == seq![
                    EventModel::Plain(
                        RuntimeClientEvent::ToolCallAssembled {
                            attempt_id,
                            message_id,
                            block_index,
                            call,
                        },
                    ),
                ],
                PublicationPayload::TerminalOnly => step.events.len() == 0 && step.state == state,
            }
        }),
{
    lemma_frame(state, attempt_id, frame);
}

/// A frame changes nothing but the attempt, and of the attempt nothing but the message that
/// is being written and the calls; text leaves the calls too. Where no message is being
/// written, text has no place to go. An attempt that is not shown is shown, as running and
/// with nothing done, by text and by a proposed call.
pub proof fn law_a_frame_touches_only_what_is_being_written(
    state: SnapshotModel,
    attempt_id: AttemptId,
    frame: PublicationFrame,
)
    ensures
        ({
            let step = state.reported(ConversationObservation::Publication { attempt_id, frame });
            let text = frame.payload is TextSuffix || frame.payload is ReasoningSuffix
                || frame.payload is RefusalSuffix;
            &&& step.state == SnapshotModel { attempt: step.state.attempt, ..state }
            &&& crate::call_laws::is_shown(state, attempt_id) ==> {
                let before = state.attempt->Some_0;
                &&& step.state.attempt matches Some(after) && {
                    &&& after == AttemptModel {
                        in_flight: after.in_flight,
                        foreground: after.foreground,
                        ..before
                    }
                    &&& before.in_flight is None ==> after.in_flight is None
                    &&& before.in_flight matches Some(message) ==> (after.in_flight matches Some(
                        same,
                    ) && same.message_id == message.message_id)
                    &&& text ==> after.foreground == before.foreground
                }
            }
            &&& !crate::call_laws::is_shown(state, attempt_id) && (text || frame.payload is ProposedToolCallStarted)
                ==> {
                &&& step.state.attempt matches Some(after) && {
                    &&& after.attempt_id == attempt_id
                    &&& after.phase is Running
                    &&& after.turn == 0
                    &&& after.last_usage is None
                    &&& after.in_flight is None
                    &&& text ==> after.foreground.len() == 0
                    &&& after.model == state.model.attempt
                }
            }
        }),
{
    lemma_frame(state, attempt_id, frame);
}

/// A call that the model starts to propose comes behind the attempt's calls, without
/// arguments and not running. In the message it becomes a block of its place, unless the
/// place is taken.
pub proof fn law_a_proposed_call_is_shown_and_not_run(
    state: SnapshotModel,
    attempt_id: AttemptId,
    frame: PublicationFrame,
    place: ContentBlockIndex,
    call: ToolCallStart,
)
    requires
        frame.payload == (PublicationPayload::ProposedToolCallStarted {
            block_index: place,
            call,
        }),
    ensures
        ({
            let step = state.reported(ConversationObservation::Publication { attempt_id, frame });
            let calls = if crate::call_laws::is_shown(state, attempt_id) {
                state.attempt->Some_0.foreground
            } else {
                Seq::empty()
            };
            let block = InFlightBlockModel::ToolCall {
                block_index: place,
                call_id: call.id,
                tool_id: call.tool_id,
                name: call.name,
                arguments: Seq::empty(),
            };
            &&& step.state.attempt matches Some(after) && {
                &&& after.foreground == calls.push(
                    ForegroundModel {
                        call_id: call.id,
                        tool_id: call.tool_id,
                        name: call.name,
                        state: ForegroundStateModel::Assembled { arguments: Seq::empty() },
                    },
                )
                &&& crate::call_laws::is_shown(state, attempt_id) ==> (state.attempt->Some_0.in_flight matches Some(
                    message,
                ) ==> (after.in_flight matches Some(written) && {
                    &&& !no_block_is_at(message.blocks, place) ==> written.blocks == message.blocks
                    &&& no_block_is_at(message.blocks, place) ==> {
                        &&& written.blocks.to_multiset() == message.blocks.push(
                            block,
                        ).to_multiset()
                        &&& forall|i: int, j: int|
                            0 <= i < j < written.blocks.len() ==> place_of(
                                #[trigger] written.blocks[i],
                            ) <= place_of(#[trigger] written.blocks[j])
                    }
                }))
            }
        }),
{
    lemma_frame(state, attempt_id, frame);
    if crate::call_laws::is_shown(state, attempt_id) {
        if let Some(message) = state.attempt->Some_0.in_flight {
            let blocks = message.blocks;
            let test = crate::lists::is_block(place);
            crate::search::lemma_position(blocks, test);
            if no_block_is_at(blocks, place) {
                lemma_block_missing(blocks, place);
                let block = InFlightBlockModel::ToolCall {
                    block_index: place,
                    call_id: call.id,
                    tool_id: call.tool_id,
                    name: call.name,
                    arguments: Seq::empty(),
                };
                let after = crate::lists::block_order();
                crate::search::law_ordered_is_a_sorted_rearrangement(blocks.push(block), after);
                let written = crate::search::ordered(blocks.push(block), after);
                assert forall|i: int, j: int| 0 <= i < j < written.len() implies place_of(
                    #[trigger] written[i],
                ) <= place_of(#[trigger] written[j]) by {
                    assert(!after(written[i], written[j]));
                }
            } else if crate::search::position(blocks, test) is None {
                assert forall|i: int| 0 <= i < blocks.len() implies place_of(
                    #[trigger] blocks[i],
                ) != place.value by {
                    assert(!test(blocks[i]));
                }
            }
        }
    }
}

/// Whether the first block of a call stands at an index.
pub open spec fn call_block_stands_at(
    blocks: Seq<InFlightBlockModel>,
    id: ToolCallId,
    index: int,
) -> bool {
    &&& 0 <= index < blocks.len()
    &&& blocks[index] matches InFlightBlockModel::ToolCall { call_id, .. } && call_id@ == id@
    &&& forall|i: int|
        0 <= i < index ==> !((#[trigger] blocks[i]) matches InFlightBlockModel::ToolCall {
            call_id,
            ..
        } && call_id@ == id@)
}

/// The same state of a call with other arguments.
pub open spec fn rewritten(state: ForegroundStateModel, to: Seq<char>) -> ForegroundStateModel {
    match state {
        ForegroundStateModel::Assembled { .. } => ForegroundStateModel::Assembled { arguments: to },
        ForegroundStateModel::Running { progress, .. } => ForegroundStateModel::Running {
            arguments: to,
            progress,
        },
        ForegroundStateModel::Settled { result, .. } => ForegroundStateModel::Settled {
            arguments: to,
            result,
        },
    }
}

/// What the model writes as the arguments of a call reaches the call and its block alike: a
/// piece comes behind what is there, and the complete call replaces it. Neither changes where
/// the call stands or what became of it.
pub proof fn law_arguments_reach_the_call_and_its_block(
    state: SnapshotModel,
    attempt_id: AttemptId,
    frame: PublicationFrame,
    id: ToolCallId,
    slot: int,
    index: int,
)
    requires
        match frame.payload {
            PublicationPayload::ProposedToolCallArgumentsSuffix { call_id, .. } => call_id == id,
            PublicationPayload::ProposedToolCallCompleted { call, .. } => call.id == id,
            _ => false,
        },
        state.attempt is Some,
    ensures
        ({
            let before = state.attempt->Some_0;
            let step = state.reported(ConversationObservation::Publication { attempt_id, frame });
            &&& step.state.attempt matches Some(after) && {
                &&& crate::call_laws::call_stands_at(before.foreground, id, slot) ==> after.foreground
                    == before.foreground.update(
                    slot,
                    ForegroundModel {
                        state: rewritten(
                            before.foreground[slot].state,
                            match frame.payload {
                                PublicationPayload::ProposedToolCallArgumentsSuffix {
                                    suffix,
                                    ..
                                } => crate::call_laws::proposed_arguments(before.foreground[slot]) + suffix@,
                                PublicationPayload::ProposedToolCallCompleted {
                                    call,
                                    ..
                                } => call.arguments@,
                                _ => arbitrary(),
                            },
                        ),
                        ..before.foreground[slot]
                    },
                )
                &&& crate::call_laws::no_call_is(before.foreground, id) ==> after.foreground == before.foreground
                &&& before.in_flight matches Some(message) ==> (after.in_flight matches Some(
                    written,
                ) && (call_block_stands_at(message.blocks, id, index) ==> {
                    &&& written.blocks.len() == message.blocks.len()
                    &&& forall|i: int|
                        0 <= i < message.blocks.len() && i != index
                            ==> #[trigger] written.blocks[i] == message.blocks[i]
                    &&& message.blocks[index] matches InFlightBlockModel::ToolCall {
                        block_index,
                        call_id,
                        tool_id,
                        name,
                        arguments,
                    } && written.blocks[index] == InFlightBlockModel::ToolCall {
                        block_index,
                        call_id,
                        tool_id,
                        name,
                        arguments: match frame.payload {
                            PublicationPayload::ProposedToolCallArgumentsSuffix {
                                suffix,
                                ..
                            } => arguments + suffix@,
                            PublicationPayload::ProposedToolCallCompleted {
                                call,
                                ..
                            } => call.arguments@,
                            _ => arbitrary(),
                        },
                    }
                }))
            }
        }),
{
    lemma_frame(state, attempt_id, frame);
    let before = state.attempt->Some_0;
    if crate::call_laws::call_stands_at(before.foreground, id, slot) {
        crate::call_laws::lemma_call_found(before.foreground, id, slot);
    }
    if crate::call_laws::no_call_is(before.foreground, id) {
        crate::call_laws::lemma_call_missing(before.foreground, id);
    }
    if let Some(message) = before.in_flight {
        let blocks = message.blocks;
        if call_block_stands_at(blocks, id, index) {
            let test = crate::lists::is_call_block(id@);
            assert forall|i: int| 0 <= i < index implies !test(#[trigger] blocks[i]) by {}
            crate::search::lemma_position_at(blocks, test, index);
        }
    }
}

} // verus!
