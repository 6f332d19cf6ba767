//! The current attempt in the read model: its streamed message and its tool calls.
use std::sync::Arc;

use vstd::prelude::*;
use vstd::string::StringExecFns;

use crate::identity::{AttemptId, ToolCallId};
use crate::lists::{block_position, call_block_position, foreground_slot};
use crate::message::ContentBlockIndex;
use crate::model::AttemptModelView;
use crate::share::share;
#[allow(unused_imports)]
use crate::snapshot::{
    AttemptModel, ForegroundModel, ForegroundStateModel, InFlightBlockModel, InFlightModel,
    SnapshotModel,
};
use crate::snapshot::{
    ForegroundToolState, InFlightBlock, RuntimeClientAttempt, RuntimeClientAttemptPhase,
    RuntimeClientSnapshot,
};
#[allow(unused_imports)]
use crate::tool::ToolResultModel;
use crate::tool::{ToolCall, ToolExecutionResult, ToolProgress};
use crate::views::{arguments_of, copy_progress};

verus! {

/// What a streamed text is.
#[derive(Debug, Clone, Copy, PartialEq, Eq, Structural)]
pub enum TextKind {
    Text,
    Reasoning,
    Refusal,
}

/// What a settlement did to a tool call.
#[derive(Debug, Clone, Copy, PartialEq, Eq, Structural)]
pub enum ForegroundSettlement {
    /// The call settled with the result.
    Applied,
    /// The call had settled before and keeps the result it has.
    AlreadySettled,
    /// There is no such call.
    Missing,
}

impl SnapshotModel {
    /// Whether an attempt is the one that is shown.
    pub open spec fn shows_attempt(self, attempt_id: Seq<char>) -> bool {
        self.attempt matches Some(attempt) && attempt.attempt_id@ == attempt_id
    }

    /// The model of an attempt: the one that it froze, where the attempt is shown, and
    /// else the one that it would freeze now.
    pub open spec fn frozen_model(self, attempt_id: Seq<char>) -> Arc<AttemptModelView> {
        match self.attempt {
            Some(attempt) if attempt.attempt_id@ == attempt_id => attempt.model,
            _ => self.model.attempt,
        }
    }

    /// The read model with another attempt.
    pub open spec fn with_attempt(self, attempt: AttemptModel) -> Self {
        SnapshotModel { attempt: Some(attempt), ..self }
    }

    /// The read model with an attempt shown, a new one where it was another.
    pub open spec fn ensured(self, attempt_id: AttemptId) -> Self {
        if self.shows_attempt(attempt_id@) {
            self
        } else {
            self.with_attempt(
                AttemptModel::fresh(
                    attempt_id,
                    RuntimeClientAttemptPhase::Running,
                    self.frozen_model(attempt_id@),
                ),
            )
        }
    }

    /// The read model with text behind the streamed message's block of that place. The
    /// first text of a place makes the block.
    pub open spec fn with_more_text(
        self,
        index: ContentBlockIndex,
        delta: Seq<char>,
        kind: TextKind,
    ) -> Self {
        match self.attempt {
            Some(attempt) => match attempt.in_flight {
                Some(message) => self.with_attempt(
                    AttemptModel {
                        in_flight: Some(
                            InFlightModel {
                                message_id: message.message_id,
                                blocks: text_appended(message.blocks, index, delta, kind),
                            },
                        ),
                        ..attempt
                    },
                ),
                None => self,
            },
            None => self,
        }
    }

    /// The read model with a tool call's arguments changed, in the streamed message and
    /// among the attempt's calls.
    pub open spec fn with_arguments(
        self,
        call_id: Seq<char>,
        change: spec_fn(Seq<char>) -> Seq<char>,
    ) -> Self {
        match self.attempt {
            Some(attempt) => self.with_attempt(
                AttemptModel {
                    in_flight: match attempt.in_flight {
                        Some(message) => Some(
                            InFlightModel {
                                message_id: message.message_id,
                                blocks: crate::search::change_first(
                                    message.blocks,
                                    crate::lists::is_call_block(call_id),
                                    block_arguments_changed(change),
                                ),
                            },
                        ),
                        None => None,
                    },
                    foreground: crate::search::change_first(
                        attempt.foreground,
                        crate::lists::is_call(call_id),
                        slot_arguments_changed(change),
                    ),
                    ..attempt
                },
            ),
            None => self,
        }
    }

    /// What a settlement does to a tool call of an attempt.
    pub open spec fn settlement(
        self,
        attempt_id: Seq<char>,
        call_id: Seq<char>,
    ) -> ForegroundSettlement {
        match self.attempt {
            Some(attempt) if attempt.attempt_id@ == attempt_id => {
                match crate::search::position(attempt.foreground, crate::lists::is_call(call_id)) {
                    Some(slot) => if attempt.foreground[slot].state is Settled {
                        ForegroundSettlement::AlreadySettled
                    } else {
                        ForegroundSettlement::Applied
                    },
                    None => ForegroundSettlement::Missing,
                }
            },
            _ => ForegroundSettlement::Missing,
        }
    }

    /// The read model with the states of an attempt's tool call changed.
    pub open spec fn with_call_state(
        self,
        attempt_id: Seq<char>,
        call_id: Seq<char>,
        change: spec_fn(ForegroundModel) -> ForegroundModel,
    ) -> Self {
        match self.attempt {
            Some(attempt) if attempt.attempt_id@ == attempt_id => self.with_attempt(
                AttemptModel {
                    foreground: crate::search::change_first(
                        attempt.foreground,
                        crate::lists::is_call(call_id),
                        change,
                    ),
                    ..attempt
                },
            ),
            _ => self,
        }
    }
}

/// Blocks with text behind the block of that place; the first text of a place makes a
/// block behind the others.
pub open spec fn text_appended(
    blocks: Seq<InFlightBlockModel>,
    index: ContentBlockIndex,
    delta: Seq<char>,
    kind: TextKind,
) -> Seq<InFlightBlockModel> {
    match crate::search::position(blocks, crate::lists::is_block(index)) {
        Some(place) => blocks.update(place, blocks[place].with_more_text(delta)),
        None => blocks.push(
            match kind {
                TextKind::Text => InFlightBlockModel::Text { block_index: index, text: delta },
                TextKind::Reasoning => InFlightBlockModel::Reasoning {
                    block_index: index,
                    text: delta,
                },
                TextKind::Refusal => InFlightBlockModel::Refusal {
                    block_index: index,
                    text: delta,
                },
            },
        ),
    }
}

/// Puts text behind a text.
pub open spec fn appending(delta: Seq<char>) -> spec_fn(Seq<char>) -> Seq<char> {
    |text: Seq<char>| text + delta
}

/// Replaces a text.
pub open spec fn replacing(text: Seq<char>) -> spec_fn(Seq<char>) -> Seq<char> {
    |replaced: Seq<char>| text
}

/// Changes the arguments of a tool call's block.
pub open spec fn block_arguments_changed(change: spec_fn(Seq<char>) -> Seq<char>) -> spec_fn(
    InFlightBlockModel,
) -> InFlightBlockModel {
    |block: InFlightBlockModel| block.with_call_arguments(change(block.call_arguments()))
}

/// Changes the arguments of a tool call, whatever its state.
pub open spec fn slot_arguments_changed(change: spec_fn(Seq<char>) -> Seq<char>) -> spec_fn(
    ForegroundModel,
) -> ForegroundModel {
    |slot: ForegroundModel|
        ForegroundModel {
            state: slot.state.with_arguments(change(slot.state.arguments())),
            ..slot
        }
}

/// Settles a tool call that has not settled.
pub open spec fn settling(result: ToolResultModel) -> spec_fn(ForegroundModel) -> ForegroundModel {
    |slot: ForegroundModel|
        if slot.state is Settled {
            slot
        } else {
            ForegroundModel {
                state: ForegroundStateModel::Settled { arguments: slot.state.arguments(), result },
                ..slot
            }
        }
}

/// Starts a tool call that has not settled.
pub open spec fn starting() -> spec_fn(ForegroundModel) -> ForegroundModel {
    |slot: ForegroundModel|
        if slot.state is Settled {
            slot
        } else {
            ForegroundModel {
                state: ForegroundStateModel::Running {
                    arguments: slot.state.arguments(),
                    progress: None,
                },
                ..slot
            }
        }
}

/// Reports progress of a tool call that runs.
pub open spec fn progressing(progress: ToolProgress) -> spec_fn(
    ForegroundModel,
) -> ForegroundModel {
    |slot: ForegroundModel|
        match slot.state {
            ForegroundStateModel::Running { arguments, .. } => ForegroundModel {
                state: ForegroundStateModel::Running { arguments, progress: Some(progress) },
                ..slot
            },
            _ => slot,
        }
}

impl RuntimeClientSnapshot {
    /// Whether an attempt is the one that is shown.
    pub(crate) fn shows_attempt(&self, attempt_id: &AttemptId) -> (shown: bool)
        ensures
            shown == self@.shows_attempt(attempt_id@),
    {
        match &self.attempt {
            Some(attempt) => attempt.attempt_id.same(attempt_id),
            None => false,
        }
    }

    /// The model that an attempt froze at its admission.
    ///
    /// Showing the attempt anew never loses it: while the same attempt is shown, what it
    /// froze wins over the session's state.
    pub(crate) fn frozen_attempt_model(&self, attempt_id: &AttemptId) -> (model: Arc<
        AttemptModelView,
    >)
        ensures
            model == self@.frozen_model(attempt_id@),
    {
        match &self.attempt {
            Some(attempt) => {
                if attempt.attempt_id.same(attempt_id) {
                    share(&attempt.model)
                } else {
                    self.model.to_attempt_view()
                }
            },
            None => self.model.to_attempt_view(),
        }
    }

    /// Sees to it that an attempt is shown.
    pub(crate) fn ensure_attempt(&mut self, attempt_id: &AttemptId)
        ensures
            final(self)@ == old(self)@.ensured(*attempt_id),
            final(self).attempt is Some,
    {
        if !self.shows_attempt(attempt_id) {
            let model = self.frozen_attempt_model(attempt_id);
            self.attempt = Some(
                RuntimeClientAttempt::fresh(
                    attempt_id.clone(),
                    RuntimeClientAttemptPhase::Running,
                    model,
                ),
            );
        }
    }

    /// Puts text behind the streamed message's block of that place.
    pub(crate) fn append_text(&mut self, index: ContentBlockIndex, delta: &str, kind: TextKind)
        ensures
            final(self)@ == old(self)@.with_more_text(index, delta@, kind),
    {
        if let Some(attempt) = &mut self.attempt {
            if let Some(message) = &mut attempt.in_flight {
                let ghost before = crate::snapshot::block_models(message.blocks@);
                match block_position(&message.blocks, index) {
                    Some(place) => {
                        let mut block = message.blocks[place].clone();
                        match &mut block {
                            InFlightBlock::Text { text, .. } => text.append(delta),
                            InFlightBlock::Reasoning { text, .. } => text.append(delta),
                            InFlightBlock::Refusal { text, .. } => text.append(delta),
                            InFlightBlock::ToolCall { .. } => {},
                        }
                        let ghost changed = block@;
                        message.blocks.set(place, block);
                        proof {
                            assert(changed == before[place as int].with_more_text(delta@));
                            assert(crate::snapshot::block_models(message.blocks@)
                                =~= before.update(place as int, changed));
                        }
                    },
                    None => {
                        let block = match kind {
                            TextKind::Text => InFlightBlock::Text {
                                block_index: index,
                                text: delta.to_owned(),
                            },
                            TextKind::Reasoning => InFlightBlock::Reasoning {
                                block_index: index,
                                text: delta.to_owned(),
                            },
                            TextKind::Refusal => InFlightBlock::Refusal {
                                block_index: index,
                                text: delta.to_owned(),
                            },
                        };
                        let ghost added = block@;
                        message.blocks.push(block);
                        assert(crate::snapshot::block_models(message.blocks@) =~= before.push(
                            added,
                        ));
                    },
                }
                assert(crate::snapshot::block_models(message.blocks@) == text_appended(
                    before,
                    index,
                    delta@,
                    kind,
                ));
            }
        }
    }

    /// Changes the arguments of a tool call, where it is shown: puts text behind them, or
    /// replaces them.
    fn change_arguments(&mut self, call_id: &ToolCallId, text: &str, replace: bool)
        ensures
            final(self)@ == old(self)@.with_arguments(
                call_id@,
                if replace {
                    replacing(text@)
                } else {
                    appending(text@)
                },
            ),
    {
        let ghost change = if replace {
            replacing(text@)
        } else {
            appending(text@)
        };
        if let Some(attempt) = &mut self.attempt {
            if let Some(message) = &mut attempt.in_flight {
                let ghost before = crate::snapshot::block_models(message.blocks@);
                if let Some(place) = call_block_position(&message.blocks, call_id) {
                    proof {
                        crate::search::lemma_position(
                            before,
                            crate::lists::is_call_block(call_id@),
                        );
                    }
                    let mut block = message.blocks[place].clone();
                    if let InFlightBlock::ToolCall { arguments, .. } = &mut block {
                        if replace {
                            *arguments = text.to_owned();
                        } else {
                            arguments.append(text);
                        }
                    }
                    let ghost changed = block@;
                    message.blocks.set(place, block);
                    proof {
                        assert(changed == block_arguments_changed(change)(before[place as int]));
                        assert(crate::snapshot::block_models(message.blocks@) =~= before.update(
                            place as int,
                            changed,
                        ));
                    }
                }
                assert(crate::snapshot::block_models(message.blocks@)
                    == crate::search::change_first(
                    before,
                    crate::lists::is_call_block(call_id@),
                    block_arguments_changed(change),
                ));
            }
            let ghost slots = crate::snapshot::foreground_models(attempt.foreground@);
            if let Some(place) = foreground_slot(&attempt.foreground, call_id) {
                let mut slot = attempt.foreground[place].clone();
                let mut arguments = if replace {
                    text.to_owned()
                } else {
                    arguments_of(&slot.state)
                };
                if !replace {
                    arguments.append(text);
                }
                slot.state = match &slot.state {
                    ForegroundToolState::Assembled { .. } => ForegroundToolState::Assembled {
                        arguments,
                    },
                    ForegroundToolState::Running { progress, .. } => ForegroundToolState::Running {
                        arguments,
                        progress: copy_progress(progress),
                    },
                    ForegroundToolState::Settled { result, .. } => ForegroundToolState::Settled {
                        arguments,
                        result: share(result),
                    },
                };
                let ghost changed = slot@;
                attempt.foreground.set(place, slot);
                proof {
                    assert(changed == slot_arguments_changed(change)(slots[place as int]));
                    assert(crate::snapshot::foreground_models(attempt.foreground@) =~= slots.update(
                        place as int,
                        changed,
                    ));
                }
            }
            assert(crate::snapshot::foreground_models(attempt.foreground@)
                == crate::search::change_first(
                slots,
                crate::lists::is_call(call_id@),
                slot_arguments_changed(change),
            ));
        }
    }

    /// Puts a fragment behind a tool call's arguments.
    pub(crate) fn append_arguments(&mut self, call_id: &ToolCallId, delta: &str)
        ensures
            final(self)@ == old(self)@.with_arguments(call_id@, appending(delta@)),
    {
        self.change_arguments(call_id, delta, false);
    }

    /// Replaces a tool call's arguments with those of the complete call.
    pub(crate) fn set_assembled(&mut self, call: &ToolCall)
        ensures
            final(self)@ == old(self)@.with_arguments(call.id@, replacing(call.arguments@)),
    {
        self.change_arguments(&call.id, call.arguments.as_str(), true);
    }

    /// Settles a tool call of an attempt, at most once.
    pub(crate) fn settle_foreground(
        &mut self,
        attempt_id: &AttemptId,
        call_id: &ToolCallId,
        result: Arc<ToolExecutionResult>,
    ) -> (settlement: ForegroundSettlement)
        ensures
            settlement == old(self)@.settlement(attempt_id@, call_id@),
            final(self)@ == old(self)@.with_call_state(attempt_id@, call_id@, settling(result@)),
    {
        let ghost change = settling(result@);
        if let Some(attempt) = &mut self.attempt {
            if attempt.attempt_id.same(attempt_id) {
                let ghost slots = crate::snapshot::foreground_models(attempt.foreground@);
                match foreground_slot(&attempt.foreground, call_id) {
                    Some(place) => {
                        let mut slot = attempt.foreground[place].clone();
                        if let ForegroundToolState::Settled { .. } = &slot.state {
                            assert(slots.update(place as int, change(slots[place as int])) =~= slots);
                            return ForegroundSettlement::AlreadySettled;
                        }
                        let arguments = arguments_of(&slot.state);
                        slot.state = ForegroundToolState::Settled { arguments, result };
                        let ghost changed = slot@;
                        attempt.foreground.set(place, slot);
                        proof {
                            assert(changed == change(slots[place as int]));
                            assert(crate::snapshot::foreground_models(attempt.foreground@)
                                =~= slots.update(place as int, changed));
                        }
                        return ForegroundSettlement::Applied;
                    },
                    None => {
                        return ForegroundSettlement::Missing;
                    },
                }
            }
        }
        ForegroundSettlement::Missing
    }

    /// Marks a tool call of an attempt as running, unless it has settled.
    pub(crate) fn start_foreground(&mut self, attempt_id: &AttemptId, call_id: &ToolCallId)
        ensures
            final(self)@ == old(self)@.with_call_state(attempt_id@, call_id@, starting()),
    {
        let ghost change = starting();
        if let Some(attempt) = &mut self.attempt {
            if attempt.attempt_id.same(attempt_id) {
                let ghost slots = crate::snapshot::foreground_models(attempt.foreground@);
                if let Some(place) = foreground_slot(&attempt.foreground, call_id) {
                    let mut slot = attempt.foreground[place].clone();
                    let settled = match &slot.state {
                        ForegroundToolState::Settled { .. } => true,
                        _ => false,
                    };
                    if !settled {
                        let arguments = arguments_of(&slot.state);
                        slot.state = ForegroundToolState::Running { arguments, progress: None };
                    }
                    let ghost changed = slot@;
                    attempt.foreground.set(place, slot);
                    proof {
                        assert(changed == change(slots[place as int]));
                        assert(crate::snapshot::foreground_models(attempt.foreground@)
                            =~= slots.update(place as int, changed));
                    }
                }
            }
        }
    }

    /// Records the latest progress of a tool call of an attempt that runs.
    pub(crate) fn progress_foreground(
        &mut self,
        attempt_id: &AttemptId,
        call_id: &ToolCallId,
        progress: &ToolProgress,
    )
        ensures
            final(self)@ == old(self)@.with_call_state(
                attempt_id@,
                call_id@,
                progressing(*progress),
            ),
    {
        let ghost change = progressing(*progress);
        if let Some(attempt) = &mut self.attempt {
            if attempt.attempt_id.same(attempt_id) {
                let ghost slots = crate::snapshot::foreground_models(attempt.foreground@);
                if let Some(place) = foreground_slot(&attempt.foreground, call_id) {
                    let mut slot = attempt.foreground[place].clone();
                    let running = match &slot.state {
                        ForegroundToolState::Running { .. } => true,
                        _ => false,
                    };
                    if running {
                        let arguments = arguments_of(&slot.state);
                        slot.state = ForegroundToolState::Running {
                            arguments,
                            progress: Some(progress.clone()),
                        };
                    }
                    let ghost changed = slot@;
                    attempt.foreground.set(place, slot);
                    proof {
                        assert(changed == change(slots[place as int]));
                        assert(crate::snapshot::foreground_models(attempt.foreground@)
                            =~= slots.update(place as int, changed));
                    }
                }
            }
        }
    }
}

} // verus!
