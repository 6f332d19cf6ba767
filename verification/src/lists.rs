//! The lists of the read model and how they change.
use std::sync::Arc;

use vstd::prelude::*;

use crate::identity::{ConversationId, MessageId, ToolCallId};
use crate::interaction::{InteractionRef, RoutedInteraction};
use crate::message::ContentBlockIndex;
use crate::observation::InboundSequence;
use crate::search::{put_in_order, Placed};
use crate::share::share;
use crate::snapshot::{
    AgentStatusView, ForegroundToolExecution, InFlightAssistantMessage, InFlightBlock,
    InboundItemView, RuntimeClientBackgroundExecution, RuntimeClientSubagent, AGENT_STATUS_WINDOW,
};
#[allow(unused_imports)]
use crate::snapshot::{ForegroundModel, InFlightBlockModel, InFlightModel, StatusModel};
use crate::views::block_index_of;

verus! {

/// Picks the detached work with an identity.
pub open spec fn is_execution(id: Seq<char>) -> spec_fn(
    Arc<RuntimeClientBackgroundExecution>,
) -> bool {
    |execution: Arc<RuntimeClientBackgroundExecution>| execution.execution_id@ == id
}

/// Records detached work: a known piece keeps its place, a new one comes last, so the
/// list stays in the order in which the work was allocated.
pub fn upsert_background(
    background: &mut Vec<Arc<RuntimeClientBackgroundExecution>>,
    view: Arc<RuntimeClientBackgroundExecution>,
)
    ensures
        final(background)@ == crate::search::upsert(
            old(background)@,
            is_execution(view.execution_id@),
            view,
        ),
{
    let ghost test = is_execution(view.execution_id@);
    let mut i: usize = 0;
    while i < background.len()
        invariant
            i <= background.len(),
            background@ == old(background)@,
            test == is_execution(view.execution_id@),
            forall|k: int| 0 <= k < i ==> !test(#[trigger] background@[k]),
        decreases background.len() - i,
    {
        if background[i].execution_id.same(&view.execution_id) {
            proof {
                crate::search::lemma_position_at(background@, test, i as int);
            }
            background.set(i, view);
            return ;
        }
        i += 1;
    }
    proof {
        crate::search::lemma_position_none(background@, test);
    }
    background.push(view);
}

/// Picks the subagent with an identity.
pub open spec fn is_subagent(id: Seq<char>) -> spec_fn(Arc<RuntimeClientSubagent>) -> bool {
    |subagent: Arc<RuntimeClientSubagent>| subagent.subagent_id@ == id
}

/// Records a subagent: a known one keeps its place, a new one comes last.
pub fn upsert_subagent(
    subagents: &mut Vec<Arc<RuntimeClientSubagent>>,
    view: Arc<RuntimeClientSubagent>,
)
    ensures
        final(subagents)@ == crate::search::upsert(
            old(subagents)@,
            is_subagent(view.subagent_id@),
            view,
        ),
{
    let ghost test = is_subagent(view.subagent_id@);
    let mut i: usize = 0;
    while i < subagents.len()
        invariant
            i <= subagents.len(),
            subagents@ == old(subagents)@,
            test == is_subagent(view.subagent_id@),
            forall|k: int| 0 <= k < i ==> !test(#[trigger] subagents@[k]),
        decreases subagents.len() - i,
    {
        if subagents[i].subagent_id.same(&view.subagent_id) {
            proof {
                crate::search::lemma_position_at(subagents@, test, i as int);
            }
            subagents.set(i, view);
            return ;
        }
        i += 1;
    }
    proof {
        crate::search::lemma_position_none(subagents@, test);
    }
    subagents.push(view);
}

/// Picks the prompt with the address of another.
pub open spec fn is_same_interaction(request: Arc<RoutedInteraction>) -> spec_fn(
    Arc<RoutedInteraction>,
) -> bool {
    |pending: Arc<RoutedInteraction>| pending.interaction.same_spec(request.interaction)
}

impl Placed for Arc<RoutedInteraction> {
    open spec fn follows_spec(self, other: Self) -> bool {
        other.interaction.precedes_spec(self.interaction)
    }

    fn follows(&self, other: &Self) -> (follows: bool) {
        other.interaction.precedes(&self.interaction)
    }
}

/// The prompts with one more, or with another in the place of the one with the same
/// address. A new prompt puts the list in the order of the addresses.
pub open spec fn upsert_interaction_spec(
    interactions: Seq<Arc<RoutedInteraction>>,
    request: Arc<RoutedInteraction>,
) -> Seq<Arc<RoutedInteraction>> {
    match crate::search::position(interactions, is_same_interaction(request)) {
        Some(index) => interactions.update(index, request),
        None => crate::search::ordered(
            interactions.push(request),
            crate::search::places::<Arc<RoutedInteraction>>(),
        ),
    }
}

/// Records a prompt.
pub fn upsert_interaction(
    interactions: &mut Vec<Arc<RoutedInteraction>>,
    request: Arc<RoutedInteraction>,
)
    ensures
        final(interactions)@ == upsert_interaction_spec(old(interactions)@, request),
{
    let ghost test = is_same_interaction(request);
    let mut i: usize = 0;
    while i < interactions.len()
        invariant
            i <= interactions.len(),
            interactions@ == old(interactions)@,
            test == is_same_interaction(request),
            forall|k: int| 0 <= k < i ==> !test(#[trigger] interactions@[k]),
        decreases interactions.len() - i,
    {
        if interactions[i].interaction.same(&request.interaction) {
            proof {
                crate::search::lemma_position_at(interactions@, test, i as int);
            }
            interactions.set(i, request);
            return ;
        }
        i += 1;
    }
    proof {
        crate::search::lemma_position_none(interactions@, test);
    }
    interactions.push(request);
    put_in_order(interactions);
}

/// Picks the prompts with another address.
pub open spec fn is_other_interaction(address: InteractionRef) -> spec_fn(
    Arc<RoutedInteraction>,
) -> bool {
    |pending: Arc<RoutedInteraction>| !pending.interaction.same_spec(address)
}

/// Picks the prompts of a conversation.
pub open spec fn asks_from(conversation: Seq<char>) -> spec_fn(Arc<RoutedInteraction>) -> bool {
    |pending: Arc<RoutedInteraction>| pending.interaction.conversation_id@ == conversation
}

/// Picks the prompts of other conversations.
pub open spec fn asks_elsewhere(conversation: Seq<char>) -> spec_fn(
    Arc<RoutedInteraction>,
) -> bool {
    |pending: Arc<RoutedInteraction>| pending.interaction.conversation_id@ != conversation
}

proof fn lemma_filter_step<T>(items: Seq<T>, test: spec_fn(T) -> bool, i: int)
    requires
        0 <= i < items.len(),
    ensures
        items.take(i + 1).filter(test) == if test(items[i]) {
            items.take(i).filter(test).push(items[i])
        } else {
            items.take(i).filter(test)
        },
{
    reveal(Seq::filter);
    assert(items.take(i + 1).drop_last() =~= items.take(i));
}

/// Forgets a prompt; the others keep their order.
pub fn remove_interaction(
    interactions: &mut Vec<Arc<RoutedInteraction>>,
    address: &InteractionRef,
)
    ensures
        final(interactions)@ == old(interactions)@.filter(is_other_interaction(*address)),
{
    let ghost test = is_other_interaction(*address);
    let mut kept: Vec<Arc<RoutedInteraction>> = Vec::new();
    let mut i: usize = 0;
    proof {
        reveal(Seq::filter);
        assert(interactions@.take(0).filter(test) =~= Seq::empty());
    }
    while i < interactions.len()
        invariant
            i <= interactions.len(),
            interactions@ == old(interactions)@,
            test == is_other_interaction(*address),
            kept@ == interactions@.take(i as int).filter(test),
        decreases interactions.len() - i,
    {
        proof {
            lemma_filter_step(interactions@, test, i as int);
        }
        if !interactions[i].interaction.same(address) {
            kept.push(share(&interactions[i]));
        }
        i += 1;
    }
    assert(interactions@.take(i as int) =~= interactions@);
    *interactions = kept;
}

/// The addresses of prompts.
pub open spec fn addresses(interactions: Seq<Arc<RoutedInteraction>>) -> Seq<InteractionRef> {
    Seq::new(interactions.len(), |i: int| interactions[i].interaction)
}

/// Forgets the prompts of a conversation and gives their addresses; the others keep
/// their order.
pub fn remove_interactions_of(
    interactions: &mut Vec<Arc<RoutedInteraction>>,
    conversation_id: &ConversationId,
) -> (removed: Vec<InteractionRef>)
    ensures
        final(interactions)@ == old(interactions)@.filter(asks_elsewhere(conversation_id@)),
        removed@ == addresses(old(interactions)@.filter(asks_from(conversation_id@))),
{
    let ghost elsewhere = asks_elsewhere(conversation_id@);
    let ghost here = asks_from(conversation_id@);
    let mut kept: Vec<Arc<RoutedInteraction>> = Vec::new();
    let mut removed: Vec<InteractionRef> = Vec::new();
    let mut i: usize = 0;
    proof {
        reveal(Seq::filter);
        assert(interactions@.take(0).filter(elsewhere) =~= Seq::empty());
        assert(interactions@.take(0).filter(here) =~= Seq::empty());
        assert(removed@ =~= addresses(interactions@.take(0).filter(here)));
    }
    while i < interactions.len()
        invariant
            i <= interactions.len(),
            interactions@ == old(interactions)@,
            elsewhere == asks_elsewhere(conversation_id@),
            here == asks_from(conversation_id@),
            kept@ == interactions@.take(i as int).filter(elsewhere),
            removed@ == addresses(interactions@.take(i as int).filter(here)),
        decreases interactions.len() - i,
    {
        proof {
            lemma_filter_step(interactions@, elsewhere, i as int);
            lemma_filter_step(interactions@, here, i as int);
        }
        if interactions[i].interaction.conversation_id.same(conversation_id) {
            removed.push(interactions[i].interaction.clone());
            assert(removed@ =~= addresses(interactions@.take(i + 1).filter(here)));
        } else {
            kept.push(share(&interactions[i]));
        }
        i += 1;
    }
    assert(interactions@.take(i as int) =~= interactions@);
    *interactions = kept;
    removed
}

/// Picks the messages of the mailbox that lie behind a place in it.
pub open spec fn waits_behind(watermark: InboundSequence) -> spec_fn(InboundItemView) -> bool {
    |item: InboundItemView| item.sequence.value > watermark.value
}

/// Takes every message up to the watermark from the mailbox; later ones keep waiting, in
/// their order.
pub fn drain_inbound(pending: &mut Vec<InboundItemView>, watermark: InboundSequence)
    ensures
        final(pending)@ == old(pending)@.filter(waits_behind(watermark)),
{
    let ghost test = waits_behind(watermark);
    let mut kept: Vec<InboundItemView> = Vec::new();
    let mut i: usize = 0;
    proof {
        reveal(Seq::filter);
        assert(pending@.take(0).filter(test) =~= Seq::empty());
    }
    while i < pending.len()
        invariant
            i <= pending.len(),
            pending@ == old(pending)@,
            test == waits_behind(watermark),
            kept@ == pending@.take(i as int).filter(test),
        decreases pending.len() - i,
    {
        proof {
            lemma_filter_step(pending@, test, i as int);
        }
        if pending[i].sequence.value > watermark.value {
            kept.push(pending[i].clone());
        }
        i += 1;
    }
    assert(pending@.take(i as int) =~= pending@);
    *pending = kept;
}

/// Whether a composition is in the window.
pub open spec fn holds_status(statuses: Seq<StatusModel>, id: Seq<char>) -> bool {
    exists|i: int| 0 <= i < statuses.len() && (#[trigger] statuses[i]).status_message_id@ == id
}

/// The window after a composition is admitted: one that is in it already changes
/// nothing, and a new one pushes the oldest out of a full window.
pub open spec fn admit_status_spec(statuses: Seq<StatusModel>, view: StatusModel) -> Seq<
    StatusModel,
> {
    if holds_status(statuses, view.status_message_id@) {
        statuses
    } else if statuses.len() >= AGENT_STATUS_WINDOW {
        statuses.push(view).drop_first()
    } else {
        statuses.push(view)
    }
}

/// The composition that an admission pushes out, if any.
pub open spec fn evicted_status_spec(statuses: Seq<StatusModel>, view: StatusModel) -> Option<
    MessageId,
> {
    if holds_status(statuses, view.status_message_id@) || statuses.len() < AGENT_STATUS_WINDOW {
        None
    } else {
        Some(statuses.push(view)[0].status_message_id)
    }
}

/// Admits a composed status into the window and gives the composition that it pushes
/// out. This is the only place where a status is dropped.
pub fn admit_status(
    statuses: &mut Vec<Arc<AgentStatusView>>,
    view: Arc<AgentStatusView>,
) -> (evicted: Option<MessageId>)
    ensures
        crate::snapshot::status_models(final(statuses)@) == admit_status_spec(
            crate::snapshot::status_models(old(statuses)@),
            view@,
        ),
        evicted == evicted_status_spec(crate::snapshot::status_models(old(statuses)@), view@),
{
    let ghost before = crate::snapshot::status_models(statuses@);
    let mut i: usize = 0;
    while i < statuses.len()
        invariant
            i <= statuses.len(),
            statuses@ == old(statuses)@,
            before == crate::snapshot::status_models(statuses@),
            forall|k: int|
                0 <= k < i ==> (#[trigger] before[k]).status_message_id@
                    != view.status_message_id@,
        decreases statuses.len() - i,
    {
        if statuses[i].status_message_id.same(&view.status_message_id) {
            assert(before[i as int].status_message_id@ == view@.status_message_id@);
            return None;
        }
        i += 1;
    }
    assert(!holds_status(before, view@.status_message_id@));
    statuses.push(view);
    proof {
        assert(crate::snapshot::status_models(statuses@) =~= before.push(view@));
    }
    if statuses.len() > AGENT_STATUS_WINDOW {
        let oldest = statuses.remove(0);
        proof {
            assert(crate::snapshot::status_models(statuses@) =~= before.push(view@).drop_first());
            assert(before.push(view@)[0] == oldest@);
        }
        return Some(oldest.status_message_id.clone());
    }
    None
}

/// Picks the tool call with an identity.
pub open spec fn is_call(id: Seq<char>) -> spec_fn(ForegroundModel) -> bool {
    |slot: ForegroundModel| slot.call_id@ == id
}

/// The place of a tool call among those of the attempt.
pub fn foreground_slot(
    foreground: &Vec<ForegroundToolExecution>,
    call_id: &ToolCallId,
) -> (slot: Option<usize>)
    ensures
        match slot {
            Some(slot) => slot < foreground@.len() && crate::search::position(
                crate::snapshot::foreground_models(foreground@),
                is_call(call_id@),
            ) == Some(slot as int),
            None => crate::search::position(
                crate::snapshot::foreground_models(foreground@),
                is_call(call_id@),
            ) is None,
        },
{
    let ghost models = crate::snapshot::foreground_models(foreground@);
    let ghost test = is_call(call_id@);
    let mut i: usize = 0;
    while i < foreground.len()
        invariant
            i <= foreground.len(),
            models == crate::snapshot::foreground_models(foreground@),
            test == is_call(call_id@),
            forall|k: int| 0 <= k < i ==> !test(#[trigger] models[k]),
        decreases foreground.len() - i,
    {
        if foreground[i].call_id.same(call_id) {
            assert(test(models[i as int]));
            proof {
                crate::search::lemma_position_at(models, test, i as int);
            }
            return Some(i);
        }
        assert(!test(models[i as int]));
        i += 1;
    }
    proof {
        crate::search::lemma_position_none(models, test);
    }
    None
}

/// Picks the block with a place.
pub open spec fn is_block(index: ContentBlockIndex) -> spec_fn(InFlightBlockModel) -> bool {
    |block: InFlightBlockModel| block.index() == index
}

/// Picks the block of a tool call.
pub open spec fn is_call_block(id: Seq<char>) -> spec_fn(InFlightBlockModel) -> bool {
    |block: InFlightBlockModel|
        block matches InFlightBlockModel::ToolCall { call_id, .. } && call_id@ == id
}

/// The place of a block among those of the message.
pub fn block_position(
    blocks: &Vec<InFlightBlock>,
    index: ContentBlockIndex,
) -> (position: Option<usize>)
    ensures
        match position {
            Some(position) => position < blocks@.len() && crate::search::position(
                crate::snapshot::block_models(blocks@),
                is_block(index),
            ) == Some(position as int),
            None => crate::search::position(
                crate::snapshot::block_models(blocks@),
                is_block(index),
            ) is None,
        },
{
    let ghost models = crate::snapshot::block_models(blocks@);
    let ghost test = is_block(index);
    let mut i: usize = 0;
    while i < blocks.len()
        invariant
            i <= blocks.len(),
            models == crate::snapshot::block_models(blocks@),
            test == is_block(index),
            forall|k: int| 0 <= k < i ==> !test(#[trigger] models[k]),
        decreases blocks.len() - i,
    {
        if block_index_of(&blocks[i]).value == index.value {
            assert(test(models[i as int]));
            proof {
                crate::search::lemma_position_at(models, test, i as int);
            }
            return Some(i);
        }
        assert(!test(models[i as int]));
        i += 1;
    }
    proof {
        crate::search::lemma_position_none(models, test);
    }
    None
}

/// The place of a tool call's block among those of the message.
pub fn call_block_position(
    blocks: &Vec<InFlightBlock>,
    id: &ToolCallId,
) -> (position: Option<usize>)
    ensures
        match position {
            Some(position) => position < blocks@.len() && crate::search::position(
                crate::snapshot::block_models(blocks@),
                is_call_block(id@),
            ) == Some(position as int),
            None => crate::search::position(
                crate::snapshot::block_models(blocks@),
                is_call_block(id@),
            ) is None,
        },
{
    let ghost models = crate::snapshot::block_models(blocks@);
    let ghost test = is_call_block(id@);
    let mut i: usize = 0;
    while i < blocks.len()
        invariant
            i <= blocks.len(),
            models == crate::snapshot::block_models(blocks@),
            test == is_call_block(id@),
            forall|k: int| 0 <= k < i ==> !test(#[trigger] models[k]),
        decreases blocks.len() - i,
    {
        assert(models[i as int] == blocks@[i as int]@);
        if let InFlightBlock::ToolCall { call_id, .. } = &blocks[i] {
            if call_id.same(id) {
                assert(test(models[i as int]));
                proof {
                    crate::search::lemma_position_at(models, test, i as int);
                }
                return Some(i);
            }
        }
        assert(!test(models[i as int]));
        i += 1;
    }
    proof {
        crate::search::lemma_position_none(models, test);
    }
    None
}

impl Placed for InFlightBlock {
    open spec fn follows_spec(self, other: Self) -> bool {
        self@.index().value > other@.index().value
    }

    fn follows(&self, other: &Self) -> (follows: bool) {
        block_index_of(self).value > block_index_of(other).value
    }
}

/// The order of blocks by their places.
pub open spec fn block_order() -> spec_fn(InFlightBlockModel, InFlightBlockModel) -> bool {
    |a: InFlightBlockModel, b: InFlightBlockModel| a.index().value > b.index().value
}

/// The message with a new block: the blocks in the order of their places, and nothing
/// new where the place is taken.
pub open spec fn push_in_flight_block_spec(
    in_flight: Option<InFlightModel>,
    block: InFlightBlockModel,
) -> Option<InFlightModel> {
    match in_flight {
        Some(message) if crate::search::position(message.blocks, is_block(block.index())) is None => Some(
            InFlightModel {
                message_id: message.message_id,
                blocks: crate::search::ordered(message.blocks.push(block), block_order()),
            },
        ),
        _ => in_flight,
    }
}

/// Adds a block to the message that is being written.
pub fn push_in_flight_block(
    in_flight: &mut Option<InFlightAssistantMessage>,
    block: InFlightBlock,
)
    ensures
        crate::snapshot::in_flight_model(*final(in_flight)) == push_in_flight_block_spec(
            crate::snapshot::in_flight_model(*old(in_flight)),
            block@,
        ),
{
    if let Some(message) = in_flight {
        let index = block_index_of(&block);
        if block_position(&message.blocks, index).is_none() {
            let ghost before = message.blocks@;
            let ghost added = before.push(block);
            message.blocks.push(block);
            put_in_order(&mut message.blocks);
            proof {
                let value = |b: InFlightBlock| b@;
                crate::search::lemma_ordered_values(
                    added,
                    value,
                    crate::search::places::<InFlightBlock>(),
                    block_order(),
                );
                assert(added.map_values(value) =~= crate::snapshot::block_models(before).push(
                    block@,
                ));
                assert(crate::snapshot::block_models(message.blocks@) =~= message.blocks@.map_values(
                    value,
                ));
            }
        }
    }
}

} // verus!
