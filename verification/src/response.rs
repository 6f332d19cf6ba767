//! Completed responses, derived from durable evidence.
//!
//! Nothing is stored here. The journal is read through a fixed place, page by page, and
//! folded; only messages that are there are decorated. A read that fails is a failure,
//! never missing evidence.
use std::sync::Arc;

use vstd::prelude::*;

use crate::clock::Timestamp;
#[allow(unused_imports)]
use crate::evidence::FoldModel;
use crate::evidence::{
    file_response, is_named, process_position, record_process, response_position, FoldState,
    ProcessEntry,
};
use crate::identity::{AttemptId, ConversationId, MessageId};
use crate::journal::{RuntimeEventEnvelope, SurfaceRevision};
use crate::message::{
    message_id_of, AssistantContentBlock, AssistantMessageBlock, InboundKind, MessageBlock,
};
use crate::model::ModelUsage;
#[allow(unused_imports)]
use crate::snapshot::TranscriptPageModel;
use crate::snapshot::{
    RuntimeClientTranscriptEntry, RuntimeClientTranscriptItem, RuntimeClientTranscriptPage,
};
use crate::store::{
    CompletedResponseProvenance, ConversationStore, ConversationStoreError, FactKind, FactQuery,
};
#[allow(unused_imports)]
use crate::store::{ProvenanceModel, StoreFailure, StoreRead};

verus! {

/// Who carried a response out.
#[derive(Debug, PartialEq, Eq)]
pub struct ResponseOrigin {
    pub conversation_id: ConversationId,
    pub attempt_id: AttemptId,
    pub closing_message_id: MessageId,
}

impl Clone for ResponseOrigin {
    fn clone(&self) -> (copy: Self)
        ensures
            copy == *self,
    {
        ResponseOrigin {
            conversation_id: self.conversation_id.clone(),
            attempt_id: self.attempt_id.clone(),
            closing_message_id: self.closing_message_id.clone(),
        }
    }
}

/// Output tokens over the time in which they were produced.
#[derive(Debug, Clone, Copy, PartialEq, Eq)]
pub struct OutputRate {
    pub tokens: u64,
    pub duration_ms: u64,
}

/// How long a response took, as far as it is known.
#[derive(Debug, Clone, Copy, PartialEq, Eq)]
pub struct CompletedResponseTiming {
    pub total_duration_ms: Option<u64>,
    pub ttft_ms: Option<u64>,
    pub generation_ms: Option<u64>,
    pub output_rate: Option<OutputRate>,
}

/// A completed response, shown at its closing message.
#[derive(Debug, Clone, PartialEq, Eq)]
pub struct CompletedResponseView {
    pub closing_message_id: MessageId,
    /// Who carried the response out, which an inherited response keeps.
    pub origin: ResponseOrigin,
    pub completed_at: Timestamp,
    /// The first version of the message sequence that holds the closing message.
    pub surface_revision: SurfaceRevision,
    /// The ordinary input that can be tried again, if there is one.
    pub retry_message_id: Option<MessageId>,
    /// What all requests of the attempt used, where every one of them reported it.
    pub usage: Option<ModelUsage>,
    pub timing: Option<CompletedResponseTiming>,
}

/// The completed attempt that a message belongs to.
#[derive(Debug, PartialEq, Eq)]
pub struct CompletedProcessView {
    pub origin: ResponseOrigin,
    pub final_message_id: MessageId,
}

/// Totals of the whole conversation, whatever part of it is shown.
#[derive(Debug, Clone, Copy, PartialEq, Eq)]
pub struct ConversationStatistics {
    pub completed_responses: u64,
    pub model_requests: u64,
    /// How many requests reported their usage; a missing report is not a zero.
    pub requests_with_usage: u64,
    pub reported_usage: Option<ModelUsage>,
}

impl ConversationStatistics {
    /// The totals of a conversation that has done nothing.
    pub open spec fn none() -> Self {
        ConversationStatistics {
            completed_responses: 0,
            model_requests: 0,
            requests_with_usage: 0,
            reported_usage: None,
        }
    }
}

impl Default for ConversationStatistics {
    fn default() -> (statistics: Self)
        ensures
            statistics == Self::none(),
    {
        ConversationStatistics {
            completed_responses: 0,
            model_requests: 0,
            requests_with_usage: 0,
            reported_usage: None,
        }
    }
}

impl Clone for CompletedProcessView {
    fn clone(&self) -> (copy: Self)
        ensures
            copy == *self,
    {
        CompletedProcessView {
            origin: self.origin.clone(),
            final_message_id: self.final_message_id.clone(),
        }
    }
}

/// How many facts are read from the journal at once.
pub const PRESENTATION_PAGE: usize = 128;

/// The kinds of facts that are read.
pub open spec fn response_kinds() -> Seq<FactKind> {
    seq![
        FactKind::AttemptStarted,
        FactKind::ModelRequestStarted,
        FactKind::ModelRequestCompleted,
        FactKind::ModelRequestFailed,
        FactKind::AssistantMessageCommitted,
        FactKind::AttemptCompleted,
        FactKind::AttemptCancelled,
        FactKind::AttemptFailed,
        FactKind::AttemptTimedOut,
        FactKind::AttemptLimitExceeded,
    ]
}

/// The next page of facts behind one place and through another.
pub open spec fn next_page(
    journal: Seq<Arc<RuntimeEventEnvelope>>,
    after: u64,
    through: u64,
) -> Seq<Arc<RuntimeEventEnvelope>> {
    crate::store::answer(journal, response_kinds(), after, through, PRESENTATION_PAGE as nat)
}

/// Every item that a filter keeps passes it, and was there before.
pub proof fn lemma_filter_keeps<T>(items: Seq<T>, test: spec_fn(T) -> bool)
    ensures
        forall|i: int|
            0 <= i < items.filter(test).len() ==> test(#[trigger] items.filter(test)[i]),
    decreases items.len(),
{
    reveal(Seq::filter);
    if items.len() > 0 {
        lemma_filter_keeps(items.drop_last(), test);
    }
}

/// The facts of a page lie behind the one place and not behind the other.
pub proof fn lemma_page_within(
    journal: Seq<Arc<RuntimeEventEnvelope>>,
    after: u64,
    through: u64,
)
    ensures
        forall|i: int|
            0 <= i < next_page(journal, after, through).len() ==> after < (#[trigger] next_page(
                journal,
                after,
                through,
            )[i]).sequence <= through,
{
    let asked = crate::store::asked_for(response_kinds(), after, through);
    lemma_filter_keeps(journal, asked);
    assert forall|i: int| 0 <= i < next_page(journal, after, through).len() implies after < (
    #[trigger] next_page(journal, after, through)[i]).sequence <= through by {
        assert(next_page(journal, after, through)[i] == journal.filter(asked)[i]);
    }
}

/// The state of the fold after the journal is read page by page, behind one place and
/// through another, up to the first failure.
pub open spec fn scanned<S: ConversationStore>(
    store: S,
    wanted: Seq<MessageId>,
    through: u64,
    after: u64,
    state: FoldModel,
) -> Result<FoldModel, StoreFailure>
    decreases through - after,
{
    match store.failure(StoreRead::Events { after, through }) {
        Some(failure) => Err(failure),
        None => {
            let page = next_page(store.journal(), after, through);
            if page.len() == 0 {
                Ok(state)
            } else {
                match state.with_facts(store, wanted, page) {
                    Err(failure) => Err(failure),
                    Ok(next) => {
                        proof {
                            lemma_page_within(store.journal(), after, through);
                        }
                        scanned(store, wanted, through, page.last().sequence, next)
                    },
                }
            }
        },
    }
}

/// Picks the inherited responses that were asked for, by their closing message or by
/// another of their messages.
pub open spec fn is_wanted(wanted: Seq<MessageId>) -> spec_fn(ProvenanceModel) -> bool {
    |response: ProvenanceModel|
        crate::evidence::names(wanted, response.closing_message_id@) || (exists|i: int|
            0 <= i < response.process_message_ids.len() && crate::evidence::names(
                wanted,
                (#[trigger] response.process_message_ids[i])@,
            ))
}

/// Responses filed in their order.
pub open spec fn filed(responses: Seq<ProvenanceModel>) -> Seq<ProvenanceModel>
    decreases responses.len(),
{
    if responses.len() == 0 {
        responses
    } else {
        crate::evidence::with_response(filed(responses.drop_last()), responses.last())
    }
}

/// Picks the messages that were asked for.
pub open spec fn is_wanted_message(wanted: Seq<MessageId>) -> spec_fn(MessageId) -> bool {
    |id: MessageId| crate::evidence::names(wanted, id@)
}

/// The entries of the messages that belong to responses.
pub open spec fn entries_of(responses: Seq<ProvenanceModel>, wanted: Seq<MessageId>) -> Seq<
    ProcessEntry,
>
    decreases responses.len(),
{
    if responses.len() == 0 {
        Seq::empty()
    } else {
        let response = responses.last();
        crate::evidence::with_processes(
            entries_of(responses.drop_last(), wanted),
            response.process_message_ids.filter(is_wanted_message(wanted)),
            CompletedProcessView {
                origin: response.origin,
                final_message_id: response.closing_message_id,
            },
        )
    }
}

/// The messages of the attempts that have not ended.
pub open spec fn pending_messages(attempts: Seq<crate::evidence::EvidenceModel>) -> Seq<MessageId>
    decreases attempts.len(),
{
    if attempts.len() == 0 {
        Seq::empty()
    } else {
        pending_messages(attempts.drop_last()) + attempts.last().members
    }
}

/// What the evidence says of the messages that were asked for.
#[verifier::ext_equal]
pub struct ResponseModel {
    pub completed: Seq<ProvenanceModel>,
    pub processes: Seq<ProcessEntry>,
    pub pending: Seq<MessageId>,
    pub statistics: ConversationStatistics,
}

/// What the evidence through a place of the journal says of the messages that were asked
/// for: the inherited responses and what the journal adds to them.
pub open spec fn projected<S: ConversationStore>(
    store: S,
    wanted: Seq<MessageId>,
    through: u64,
) -> Result<ResponseModel, StoreFailure> {
    match store.failure(StoreRead::Inherited) {
        Some(failure) => Err(failure),
        None => {
            let completed = filed(store.inherited().filter(is_wanted(wanted)));
            match scanned(
                store,
                wanted,
                through,
                0,
                FoldModel {
                    attempts: Seq::empty(),
                    completed,
                    processes: entries_of(completed, wanted),
                    statistics: ConversationStatistics::none(),
                },
            ) {
                Err(failure) => Err(failure),
                Ok(state) => Ok(state.finished()),
            }
        },
    }
}

/// What the evidence says of the messages that were asked for.
pub struct ResponseProjection {
    pub completed: Vec<CompletedResponseProvenance>,
    pub processes: Vec<ProcessEntry>,
    pub pending: Vec<MessageId>,
    pub statistics: ConversationStatistics,
}

impl View for ResponseProjection {
    type V = ResponseModel;

    open spec fn view(&self) -> ResponseModel {
        ResponseModel {
            completed: crate::store::provenance_models(self.completed@),
            processes: self.processes@,
            pending: self.pending@,
            statistics: self.statistics,
        }
    }
}

/// Whether an inherited response was asked for.
fn response_is_wanted(
    response: &CompletedResponseProvenance,
    wanted: &Vec<MessageId>,
) -> (is: bool)
    ensures
        is == is_wanted(wanted@)(response@),
{
    if is_named(wanted, &response.closing_message_id) {
        return true;
    }
    let mut i: usize = 0;
    while i < response.process_message_ids.len()
        invariant
            i <= response.process_message_ids@.len(),
            forall|k: int|
                0 <= k < i ==> !crate::evidence::names(
                    wanted@,
                    (#[trigger] response@.process_message_ids[k])@,
                ),
        decreases response.process_message_ids@.len() - i,
    {
        if is_named(wanted, &response.process_message_ids[i]) {
            assert(crate::evidence::names(wanted@, response@.process_message_ids[i as int]@));
            return true;
        }
        i += 1;
    }
    false
}

proof fn lemma_filter_next<T>(items: Seq<T>, test: spec_fn(T) -> bool, i: int)
    requires
        0 <= i < items.len(),
    ensures
        items.take(i + 1).filter(test) == if test(items[i]) {
            items.take(i).filter(test).push(items[i])
        } else {
            items.take(i).filter(test)
        },
{
    reveal(Seq::filter);
    assert(items.take(i + 1).drop_last() =~= items.take(i));
}

proof fn lemma_filter_none<T>(items: Seq<T>, test: spec_fn(T) -> bool)
    ensures
        items.take(0).filter(test) == Seq::<T>::empty(),
{
    reveal(Seq::filter);
}

/// Files the inherited responses that were asked for.
fn file_inherited(
    inherited: Vec<CompletedResponseProvenance>,
    wanted: &Vec<MessageId>,
) -> (completed: Vec<CompletedResponseProvenance>)
    ensures
        crate::store::provenance_models(completed@) == filed(
            crate::store::provenance_models(inherited@).filter(is_wanted(wanted@)),
        ),
{
    let ghost models = crate::store::provenance_models(inherited@);
    let ghost all = inherited@;
    let ghost test = is_wanted(wanted@);
    let mut completed: Vec<CompletedResponseProvenance> = Vec::new();
    proof {
        lemma_filter_none(models, test);
        assert(crate::store::provenance_models(completed@) =~= filed(
            models.take(0).filter(test),
        ));
    }
    for response in remaining: inherited
        invariant
            remaining.seq() == all,
            models == crate::store::provenance_models(all),
            test == is_wanted(wanted@),
            crate::store::provenance_models(completed@) == filed(
                models.take(remaining.index() as int).filter(test),
            ),
    {
        let ghost done: int = remaining.index() as int;
        proof {
            lemma_filter_next(models, test, done);
            assert(models[done] == response@);
            let kept = models.take(done).filter(test);
            assert(kept.push(response@).drop_last() =~= kept);
        }
        if response_is_wanted(&response, wanted) {
            file_response(&mut completed, response);
        }
    }
    assert(models.take(models.len() as int) =~= models);
    completed
}

/// Enters the messages that belong to responses.
fn enter_responses(
    responses: &Vec<CompletedResponseProvenance>,
    wanted: &Vec<MessageId>,
) -> (processes: Vec<ProcessEntry>)
    ensures
        processes@ == entries_of(crate::store::provenance_models(responses@), wanted@),
{
    let ghost models = crate::store::provenance_models(responses@);
    let mut processes: Vec<ProcessEntry> = Vec::new();
    let mut i: usize = 0;
    assert(models.take(0) =~= Seq::empty());
    while i < responses.len()
        invariant
            i <= responses@.len(),
            models == crate::store::provenance_models(responses@),
            processes@ == entries_of(models.take(i as int), wanted@),
        decreases responses@.len() - i,
    {
        proof {
            assert(models.take(i + 1).drop_last() =~= models.take(i as int));
            assert(models.take(i + 1).last() == responses@[i as int]@);
        }
        enter_response(&mut processes, &responses[i], wanted);
        i += 1;
    }
    assert(models.take(i as int) =~= models);
    processes
}

/// Enters the messages that belong to a response.
fn enter_response(
    processes: &mut Vec<ProcessEntry>,
    response: &CompletedResponseProvenance,
    wanted: &Vec<MessageId>,
)
    ensures
        final(processes)@ == crate::evidence::with_processes(
            old(processes)@,
            response@.process_message_ids.filter(is_wanted_message(wanted@)),
            CompletedProcessView {
                origin: response.origin,
                final_message_id: response.closing_message_id,
            },
        ),
{
    let process = CompletedProcessView {
        origin: response.origin.clone(),
        final_message_id: response.closing_message_id.clone(),
    };
    let ids = &response.process_message_ids;
    let ghost before = processes@;
    let ghost test = is_wanted_message(wanted@);
    let mut i: usize = 0;
    proof {
        lemma_filter_none(ids@, test);
    }
    while i < ids.len()
        invariant
            i <= ids@.len(),
            test == is_wanted_message(wanted@),
            processes@ == crate::evidence::with_processes(
                before,
                ids@.take(i as int).filter(test),
                process,
            ),
        decreases ids@.len() - i,
    {
        proof {
            lemma_filter_next(ids@, test, i as int);
            let kept = ids@.take(i as int).filter(test);
            assert(kept.push(ids@[i as int]).drop_last() =~= kept);
        }
        if is_named(wanted, &ids[i]) {
            record_process(processes, &ids[i], &process);
        }
        i += 1;
    }
    assert(ids@.take(i as int) =~= ids@);
}

/// The kinds of facts that are read.
fn response_fact_kinds() -> (kinds: Vec<FactKind>)
    ensures
        kinds@ == response_kinds(),
{
    let mut kinds: Vec<FactKind> = Vec::new();
    kinds.push(FactKind::AttemptStarted);
    kinds.push(FactKind::ModelRequestStarted);
    kinds.push(FactKind::ModelRequestCompleted);
    kinds.push(FactKind::ModelRequestFailed);
    kinds.push(FactKind::AssistantMessageCommitted);
    kinds.push(FactKind::AttemptCompleted);
    kinds.push(FactKind::AttemptCancelled);
    kinds.push(FactKind::AttemptFailed);
    kinds.push(FactKind::AttemptTimedOut);
    kinds.push(FactKind::AttemptLimitExceeded);
    assert(kinds@ =~= response_kinds());
    kinds
}

/// A filter keeps the order of what it keeps.
pub proof fn lemma_filter_ascends(
    journal: Seq<Arc<RuntimeEventEnvelope>>,
    test: spec_fn(Arc<RuntimeEventEnvelope>) -> bool,
)
    requires
        forall|i: int, j: int|
            0 <= i < j < journal.len() ==> (#[trigger] journal[i]).sequence < (
            #[trigger] journal[j]).sequence,
    ensures
        forall|i: int, j: int|
            0 <= i < j < journal.filter(test).len() ==> (#[trigger] journal.filter(
                test,
            )[i]).sequence < (#[trigger] journal.filter(test)[j]).sequence,
        forall|i: int|
            0 <= i < journal.filter(test).len() ==> exists|k: int|
                0 <= k < journal.len() && journal[k] == #[trigger] journal.filter(test)[i],
    decreases journal.len(),
{
    reveal(Seq::filter);
    if journal.len() > 0 {
        let front = journal.drop_last();
        lemma_filter_ascends(front, test);
        let kept = front.filter(test);
        let all = journal.filter(test);
        assert forall|i: int| 0 <= i < all.len() implies exists|k: int|
            0 <= k < journal.len() && journal[k] == #[trigger] all[i] by {
            if i < kept.len() {
                assert(all[i] == kept[i]);
                let k = choose|k: int| 0 <= k < front.len() && front[k] == kept[i];
                assert(journal[k] == all[i]);
            } else {
                assert(journal[journal.len() - 1] == all[i]);
            }
        }
        assert forall|i: int, j: int| 0 <= i < j < all.len() implies (#[trigger] all[i]).sequence
            < (#[trigger] all[j]).sequence by {
            assert(all[i] == kept[i]);
            if j < kept.len() {
                assert(all[j] == kept[j]);
            } else {
                let k = choose|k: int| 0 <= k < front.len() && front[k] == kept[i];
                assert(journal[k] == all[i] && journal[journal.len() - 1] == all[j]);
            }
        }
    }
}

/// The facts of a page have ascending places.
proof fn lemma_page_ascends<S: ConversationStore>(store: S, after: u64, through: u64)
    ensures
        forall|i: int, j: int|
            0 <= i < j < next_page(store.journal(), after, through).len() ==> (
            #[trigger] next_page(store.journal(), after, through)[i]).sequence < (
            #[trigger] next_page(store.journal(), after, through)[j]).sequence,
{
    store.journal_ascends();
    let asked = crate::store::asked_for(response_kinds(), after, through);
    lemma_filter_ascends(store.journal(), asked);
    let page = next_page(store.journal(), after, through);
    assert forall|i: int, j: int| 0 <= i < j < page.len() implies (#[trigger] page[i]).sequence < (
    #[trigger] page[j]).sequence by {
        assert(page[i] == store.journal().filter(asked)[i]);
        assert(page[j] == store.journal().filter(asked)[j]);
    }
}

/// Folds a page of facts with ascending places behind one.
fn fold_page<S: ConversationStore>(
    state: &mut FoldState,
    store: &S,
    wanted: &Vec<MessageId>,
    page: &Vec<Arc<RuntimeEventEnvelope>>,
    after: u64,
) -> (result: Result<(), ConversationStoreError>)
    requires
        old(state)@.counts_within(after as int),
        forall|i: int| 0 <= i < page@.len() ==> after < (#[trigger] page@[i]).sequence,
        forall|i: int, j: int|
            0 <= i < j < page@.len() ==> (#[trigger] page@[i]).sequence < (
            #[trigger] page@[j]).sequence,
        page@.len() > 0,
    ensures
        match result {
            Ok(()) => old(state)@.with_facts(*store, wanted@, page@) == Ok::<
                FoldModel,
                StoreFailure,
            >(final(state)@) && final(state)@.counts_within(page@.last().sequence as int),
            Err(error) => old(state)@.with_facts(*store, wanted@, page@) == Err::<
                FoldModel,
                StoreFailure,
            >(error@),
        },
{
    let ghost before = state@;
    let mut last: u64 = after;
    let mut i: usize = 0;
    assert(page@.take(0) =~= Seq::empty());
    while i < page.len()
        invariant
            i <= page@.len(),
            before == old(state)@,
            before.with_facts(*store, wanted@, page@.take(i as int)) == Ok::<
                FoldModel,
                StoreFailure,
            >(state@),
            state@.counts_within(last as int),
            last == if i == 0 {
                after
            } else {
                page@[i - 1].sequence
            },
            forall|k: int| 0 <= k < page@.len() ==> after < (#[trigger] page@[k]).sequence,
            forall|k: int, j: int|
                0 <= k < j < page@.len() ==> (#[trigger] page@[k]).sequence < (
                #[trigger] page@[j]).sequence,
        decreases page@.len() - i,
    {
        let ghost current = state@;
        proof {
            assert(page@.take(i + 1).drop_last() =~= page@.take(i as int));
            assert(page@.take(i + 1).last() == page@[i as int]);
            assert(last < page@[i as int].sequence);
            assert(current.counts_within(page@[i as int].sequence - 1));
        }
        match state.fold_fact(store, wanted, &page[i]) {
            Ok(()) => {},
            Err(error) => {
                proof {
                    lemma_failure_stays(before, *store, wanted@, page@, i + 1);
                }
                return Err(error);
            },
        }
        last = page[i].sequence;
        i += 1;
    }
    assert(page@.take(i as int) =~= page@);
    Ok(())
}

/// A failure among the first facts is the failure of all.
proof fn lemma_failure_stays<S: ConversationStore>(
    state: FoldModel,
    store: S,
    wanted: Seq<MessageId>,
    facts: Seq<Arc<RuntimeEventEnvelope>>,
    count: int,
)
    requires
        0 <= count <= facts.len(),
        state.with_facts(store, wanted, facts.take(count)) is Err,
    ensures
        state.with_facts(store, wanted, facts) == state.with_facts(
            store,
            wanted,
            facts.take(count),
        ),
    decreases facts.len() - count,
{
    if count < facts.len() {
        assert(facts.take(count + 1).drop_last() =~= facts.take(count));
        lemma_failure_stays(state, store, wanted, facts, count + 1);
    } else {
        assert(facts.take(count) =~= facts);
    }
}

/// Reads the journal through a place, folds it, and gives what it says of the messages
/// that were asked for.
pub fn project<S: ConversationStore>(store: &S, wanted: &Vec<MessageId>, through: u64) -> (result:
    Result<ResponseProjection, ConversationStoreError>)
    ensures
        match result {
            Ok(projection) => projected(*store, wanted@, through) == Ok::<
                ResponseModel,
                StoreFailure,
            >(projection@),
            Err(error) => projected(*store, wanted@, through) == Err::<
                ResponseModel,
                StoreFailure,
            >(error@),
        },
{
    let inherited = match store.load_inherited_responses() {
        Ok(inherited) => inherited,
        Err(error) => {
            return Err(error);
        },
    };
    let completed = file_inherited(inherited, wanted);
    let processes = enter_responses(&completed, wanted);
    let mut state = FoldState::starting(completed, processes);
    let ghost start = state@;
    let mut after: u64 = 0;
    let mut reading = true;
    while reading
        invariant
            state@.counts_within(after as int),
            projected(*store, wanted@, through) == match scanned(
                *store,
                wanted@,
                through,
                0,
                start,
            ) {
                Ok(end) => Ok(end.finished()),
                Err(failure) => Err(failure),
            },
            scanned(*store, wanted@, through, 0, start) == if reading {
                scanned(*store, wanted@, through, after, state@)
            } else {
                Ok(state@)
            },
        decreases
            if reading {
                1int
            } else {
                0int
            },
            through - after,
    {
        let page = match store.read_presentation_events(
            &FactQuery {
                kinds: response_fact_kinds(),
                after,
                through,
                limit: PRESENTATION_PAGE,
            },
        ) {
            Ok(page) => page,
            Err(error) => {
                return Err(error);
            },
        };
        if page.len() == 0 {
            reading = false;
        } else {
            let ghost before = state@;
            proof {
                lemma_page_within(store.journal(), after, through);
                lemma_page_ascends(*store, after, through);
            }
            match fold_page(&mut state, store, wanted, &page, after) {
                Ok(()) => {
                    after = page[page.len() - 1].sequence;
                },
                Err(error) => {
                    return Err(error);
                },
            }
        }
    }
    Ok(state.finish())
}

/// The assistant message that an item of the transcript belongs to: the message itself,
/// or the one that called the tool.
pub open spec fn owner_of(item: RuntimeClientTranscriptItem) -> Option<MessageId> {
    match item {
        RuntimeClientTranscriptItem::Message { message } => match *message {
            MessageBlock::Assistant(message) => Some(message.id),
            MessageBlock::Tool(message) => Some(message.occurrence.assistant_message_id),
            _ => None,
        },
        _ => None,
    }
}

/// Whether an item is an assistant message that calls no tool, and so can close a
/// response.
pub open spec fn can_close(item: RuntimeClientTranscriptItem) -> bool {
    item matches RuntimeClientTranscriptItem::Message { message } && (*message matches
        MessageBlock::Assistant(message) && forall|i: int|
        0 <= i < message.content@.len() ==> !(#[trigger] message.content@[i] is ToolCall))
}

/// The assistant messages that entries belong to.
pub open spec fn owners(entries: Seq<RuntimeClientTranscriptEntry>) -> Seq<MessageId>
    decreases entries.len(),
{
    if entries.len() == 0 {
        Seq::empty()
    } else {
        match owner_of(entries.last().item) {
            Some(id) => owners(entries.drop_last()).push(id),
            None => owners(entries.drop_last()),
        }
    }
}

/// An entry of which nothing is known.
pub open spec fn bare(entry: RuntimeClientTranscriptEntry) -> RuntimeClientTranscriptEntry {
    RuntimeClientTranscriptEntry {
        completed_response: None,
        completed_process: None,
        response_pending: false,
        ..entry
    }
}

/// Entries of which nothing is known.
pub open spec fn all_bare(entries: Seq<RuntimeClientTranscriptEntry>) -> Seq<
    RuntimeClientTranscriptEntry,
> {
    Seq::new(entries.len(), |i: int| bare(entries[i]))
}

/// Whether an ordinary message of a user is among messages.
pub open spec fn holds_input(messages: Seq<Arc<MessageBlock>>) -> bool {
    exists|i: int|
        0 <= i < messages.len() && (*(#[trigger] messages[i]) matches MessageBlock::User(user)
            && user.kind == InboundKind::Message)
}

/// The input of a response, where the record still holds it as an ordinary message.
pub open spec fn replayable_input<S: ConversationStore>(
    store: S,
    input: Option<MessageId>,
) -> Result<Option<MessageId>, StoreFailure> {
    match input {
        None => Ok(None),
        Some(input) => match store.failure(StoreRead::Messages { id: input@ }) {
            Some(failure) => Err(failure),
            None => Ok(
                if holds_input(store.messages(input@)) {
                    Some(input)
                } else {
                    None
                },
            ),
        },
    }
}

/// How a completed response is shown.
pub open spec fn response_view<S: ConversationStore>(
    store: S,
    response: ProvenanceModel,
) -> Result<CompletedResponseView, StoreFailure> {
    match replayable_input(store, response.retry_message_id) {
        Err(failure) => Err(failure),
        Ok(retry_message_id) => {
            let id = response.closing_message_id@;
            match store.failure(StoreRead::AppendRevision { id }) {
                Some(failure) => Err(failure),
                None => match store.append_revision(id) {
                    None => Err(
                        StoreFailure::InvalidReference(
                            "Completed response has no canonical Surface append"@,
                        ),
                    ),
                    Some(surface_revision) => Ok(
                        CompletedResponseView {
                            closing_message_id: response.closing_message_id,
                            origin: response.origin,
                            completed_at: response.completed_at,
                            surface_revision,
                            retry_message_id,
                            usage: response.usage,
                            timing: response.timing,
                        },
                    ),
                },
            }
        },
    }
}

/// Entries while they are decorated.
#[verifier::ext_equal]
pub struct DecorationModel {
    pub entries: Seq<RuntimeClientTranscriptEntry>,
    /// The responses that no entry has shown yet.
    pub completed: Seq<ProvenanceModel>,
    /// The failure that ended the decoration.
    pub failure: Option<StoreFailure>,
}

impl ResponseModel {
    /// The completed attempt of a message.
    pub open spec fn process_of(self, id: Option<MessageId>) -> Option<CompletedProcessView> {
        match id {
            None => None,
            Some(id) => match crate::search::position(
                self.processes,
                crate::evidence::is_entry(id@),
            ) {
                Some(index) => Some(self.processes[index].process),
                None => None,
            },
        }
    }

    /// Whether the attempt of a message has not ended.
    pub open spec fn is_pending(self, id: Option<MessageId>) -> bool {
        id matches Some(id) && crate::evidence::names(self.pending, id@)
    }

    /// Decorates one entry more: the attempt it belongs to, and, where it closes a
    /// response that no earlier entry has shown, that response.
    pub open spec fn decorated_entry<S: ConversationStore>(
        self,
        store: S,
        before: DecorationModel,
        entry: RuntimeClientTranscriptEntry,
    ) -> DecorationModel {
        let owner = owner_of(entry.item);
        let shown = RuntimeClientTranscriptEntry {
            completed_process: self.process_of(owner),
            response_pending: self.is_pending(owner),
            ..entry
        };
        if before.failure is Some {
            DecorationModel { entries: before.entries.push(entry), ..before }
        } else if !can_close(entry.item) {
            DecorationModel { entries: before.entries.push(shown), ..before }
        } else {
            match crate::search::position(
                before.completed,
                crate::evidence::closes(owner->Some_0@),
            ) {
                None => DecorationModel { entries: before.entries.push(shown), ..before },
                Some(index) => {
                    let completed = before.completed.remove(index);
                    match response_view(store, before.completed[index]) {
                        Err(failure) => DecorationModel {
                            entries: before.entries.push(shown),
                            completed,
                            failure: Some(failure),
                        },
                        Ok(view) => DecorationModel {
                            entries: before.entries.push(
                                RuntimeClientTranscriptEntry {
                                    completed_response: Some(view),
                                    ..shown
                                },
                            ),
                            completed,
                            failure: None,
                        },
                    }
                },
            }
        }
    }

    /// Decorates entries, oldest first, up to the first failure.
    pub open spec fn decorated<S: ConversationStore>(
        self,
        store: S,
        entries: Seq<RuntimeClientTranscriptEntry>,
    ) -> DecorationModel
        decreases entries.len(),
    {
        if entries.len() == 0 {
            DecorationModel {
                entries: Seq::empty(),
                completed: self.completed,
                failure: None,
            }
        } else {
            self.decorated_entry(
                store,
                self.decorated(store, entries.drop_last()),
                entries.last(),
            )
        }
    }
}

/// A page after its decoration from the evidence through a place of the journal, and how
/// the decoration failed, if it did.
///
/// What was known of the entries before is dropped. Statistics are only given when the
/// whole page is decorated.
pub open spec fn decorated_page<S: ConversationStore>(
    store: S,
    page: TranscriptPageModel,
    through: u64,
) -> (TranscriptPageModel, Option<StoreFailure>) {
    match projected(store, owners(page.entries), through) {
        Err(failure) => (
            TranscriptPageModel { entries: all_bare(page.entries), ..page },
            Some(failure),
        ),
        Ok(projection) => {
            let decorated = projection.decorated(store, all_bare(page.entries));
            (
                TranscriptPageModel {
                    entries: decorated.entries,
                    statistics: if decorated.failure is None {
                        Some(projection.statistics)
                    } else {
                        page.statistics
                    },
                    ..page
                },
                decorated.failure,
            )
        },
    }
}

/// The assistant message that an item belongs to.
fn find_owner(item: &RuntimeClientTranscriptItem) -> (owner: Option<MessageId>)
    ensures
        owner == owner_of(*item),
{
    match item {
        RuntimeClientTranscriptItem::Message { message } => match &**message {
            MessageBlock::Assistant(message) => Some(message.id.clone()),
            MessageBlock::Tool(message) => Some(message.occurrence.assistant_message_id.clone()),
            _ => None,
        },
        _ => None,
    }
}

/// Whether a message calls a tool.
fn calls_tool(message: &AssistantMessageBlock) -> (calls: bool)
    ensures
        calls == exists|i: int|
            0 <= i < message.content@.len() && #[trigger] message.content@[i] is ToolCall,
{
    let mut i: usize = 0;
    while i < message.content.len()
        invariant
            i <= message.content@.len(),
            forall|k: int| 0 <= k < i ==> !(#[trigger] message.content@[k] is ToolCall),
        decreases message.content@.len() - i,
    {
        if let AssistantContentBlock::ToolCall(_) = &message.content[i] {
            assert(message.content@[i as int] is ToolCall);
            return true;
        }
        i += 1;
    }
    false
}

/// Whether an item can close a response.
fn closes_response(item: &RuntimeClientTranscriptItem) -> (closes: bool)
    ensures
        closes == can_close(*item),
{
    match item {
        RuntimeClientTranscriptItem::Message { message } => match &**message {
            MessageBlock::Assistant(message) => !calls_tool(message),
            _ => false,
        },
        _ => false,
    }
}

/// The assistant messages that entries belong to.
fn find_owners(entries: &Vec<RuntimeClientTranscriptEntry>) -> (ids: Vec<MessageId>)
    ensures
        ids@ == owners(entries@),
{
    let mut ids: Vec<MessageId> = Vec::new();
    let mut i: usize = 0;
    while i < entries.len()
        invariant
            i <= entries@.len(),
            ids@ == owners(entries@.take(i as int)),
        decreases entries@.len() - i,
    {
        assert(entries@.take(i + 1).drop_last() =~= entries@.take(i as int));
        if let Some(id) = find_owner(&entries[i].item) {
            ids.push(id);
        }
        i += 1;
    }
    assert(entries@.take(i as int) =~= entries@);
    ids
}

/// Drops what is known of entries.
fn clear(entries: &mut Vec<RuntimeClientTranscriptEntry>)
    ensures
        final(entries)@ == all_bare(old(entries)@),
{
    let ghost before = entries@;
    let mut i: usize = 0;
    while i < entries.len()
        invariant
            i <= entries@.len(),
            entries@.len() == before.len(),
            forall|k: int| 0 <= k < i ==> #[trigger] entries@[k] == bare(before[k]),
            forall|k: int| i <= k < before.len() ==> #[trigger] entries@[k] == before[k],
        decreases entries@.len() - i,
    {
        entries[i].completed_response = None;
        entries[i].completed_process = None;
        entries[i].response_pending = false;
        i += 1;
    }
    assert(entries@ =~= all_bare(before));
}

/// Whether an ordinary message of a user is among messages.
fn has_input(messages: &Vec<Arc<MessageBlock>>) -> (has: bool)
    ensures
        has == holds_input(messages@),
{
    let mut i: usize = 0;
    while i < messages.len()
        invariant
            i <= messages@.len(),
            forall|k: int|
                0 <= k < i ==> !(*(#[trigger] messages@[k]) matches MessageBlock::User(user)
                    && user.kind == InboundKind::Message),
        decreases messages@.len() - i,
    {
        if let MessageBlock::User(user) = &*messages[i] {
            if user.kind == InboundKind::Message {
                assert(*messages@[i as int] matches MessageBlock::User(user) && user.kind
                    == InboundKind::Message);
                return true;
            }
        }
        i += 1;
    }
    false
}

/// Shows a completed response.
fn show_response<S: ConversationStore>(
    store: &S,
    response: CompletedResponseProvenance,
) -> (result: Result<CompletedResponseView, ConversationStoreError>)
    ensures
        match result {
            Ok(view) => response_view(*store, response@) == Ok::<
                CompletedResponseView,
                StoreFailure,
            >(view),
            Err(error) => response_view(*store, response@) == Err::<
                CompletedResponseView,
                StoreFailure,
            >(error@),
        },
{
    let retry_message_id = match response.retry_message_id {
        None => None,
        Some(input) => match store.load_messages(&input) {
            Err(error) => {
                return Err(error);
            },
            Ok(messages) => if has_input(&messages) {
                Some(input)
            } else {
                None
            },
        },
    };
    match store.message_append_revision(&response.closing_message_id) {
        Err(error) => Err(error),
        Ok(None) => Err(
            ConversationStoreError::InvalidReference(
                "Completed response has no canonical Surface append".to_string(),
            ),
        ),
        Ok(Some(surface_revision)) => Ok(
            CompletedResponseView {
                closing_message_id: response.closing_message_id,
                origin: response.origin,
                completed_at: response.completed_at,
                surface_revision,
                retry_message_id,
                usage: response.usage,
                timing: response.timing,
            },
        ),
    }
}

/// The completed attempt of a message.
fn find_process(processes: &Vec<ProcessEntry>, id: &MessageId) -> (process: Option<
    CompletedProcessView,
>)
    ensures
        process == match crate::search::position(
            processes@,
            crate::evidence::is_entry(id@),
        ) {
            Some(index) => Some(processes@[index].process),
            None => None,
        },
{
    match process_position(processes, id) {
        Some(index) => Some(processes[index].process.clone()),
        None => None,
    }
}

/// A decoration gives one entry for each.
pub(crate) proof fn lemma_one_entry_each<S: ConversationStore>(
    projection: ResponseModel,
    store: S,
    entries: Seq<RuntimeClientTranscriptEntry>,
)
    ensures
        projection.decorated(store, entries).entries.len() == entries.len(),
    decreases entries.len(),
{
    if entries.len() > 0 {
        lemma_one_entry_each(projection, store, entries.drop_last());
    }
}

/// After a failure the entries that follow stay as they are.
proof fn lemma_failure_ends_decoration<S: ConversationStore>(
    projection: ResponseModel,
    store: S,
    entries: Seq<RuntimeClientTranscriptEntry>,
    count: int,
)
    requires
        0 <= count <= entries.len(),
        projection.decorated(store, entries.take(count)).failure is Some,
    ensures
        projection.decorated(store, entries).failure == projection.decorated(
            store,
            entries.take(count),
        ).failure,
        projection.decorated(store, entries).entries == projection.decorated(
            store,
            entries.take(count),
        ).entries + entries.skip(count),
    decreases entries.len() - count,
{
    let here = projection.decorated(store, entries.take(count));
    if count < entries.len() {
        assert(entries.take(count + 1).drop_last() =~= entries.take(count));
        lemma_failure_ends_decoration(projection, store, entries, count + 1);
        assert(here.entries.push(entries[count]) + entries.skip(count + 1) =~= here.entries
            + entries.skip(count));
    } else {
        assert(entries.take(count) =~= entries);
        assert(here.entries + entries.skip(count) =~= here.entries);
    }
}

/// Decorates entries of which nothing is known, oldest first, up to the first failure.
fn decorate_entries<S: ConversationStore>(
    store: &S,
    entries: &mut Vec<RuntimeClientTranscriptEntry>,
    projection: ResponseProjection,
) -> (result: Result<(), ConversationStoreError>)
    ensures
        final(entries)@ == projection@.decorated(*store, old(entries)@).entries,
        match result {
            Ok(()) => projection@.decorated(*store, old(entries)@).failure is None,
            Err(error) => projection@.decorated(*store, old(entries)@).failure == Some(error@),
        },
{
    let ghost model = projection@;
    let ghost before = entries@;
    let ResponseProjection { completed, processes, pending, statistics: _ } = projection;
    let mut completed = completed;
    let mut i: usize = 0;
    assert(before.take(0) =~= Seq::empty());
    assert(entries@ =~= Seq::empty() + before.skip(0));
    while i < entries.len()
        invariant
            i <= entries@.len(),
            entries@.len() == before.len(),
            before == old(entries)@,
            model == projection@,
            model.processes == processes@,
            model.pending == pending@,
            model.decorated(*store, before.take(i as int)).failure is None,
            model.decorated(*store, before.take(i as int)).completed
                == crate::store::provenance_models(completed@),
            entries@ == model.decorated(*store, before.take(i as int)).entries + before.skip(
                i as int,
            ),
        decreases entries@.len() - i,
    {
        let ghost earlier = model.decorated(*store, before.take(i as int));
        proof {
            lemma_one_entry_each(model, *store, before.take(i as int));
            assert(before.take(i + 1).drop_last() =~= before.take(i as int));
            assert(entries@[i as int] == before[i as int]);
        }
        let owner = find_owner(&entries[i].item);
        let (process, is_pending) = match &owner {
            Some(id) => (find_process(&processes, id), is_named(&pending, id)),
            None => (None, false),
        };
        entries[i].completed_process = process;
        entries[i].response_pending = is_pending;
        if closes_response(&entries[i].item) {
            if let Some(id) = &owner {
                if let Some(index) = response_position(&completed, id) {
                    let response = completed.remove(index);
                    match show_response(store, response) {
                        Ok(view) => {
                            entries[i].completed_response = Some(view);
                        },
                        Err(error) => {
                            proof {
                                lemma_failure_ends_decoration(model, *store, before, i + 1);
                                assert(entries@ =~= model.decorated(
                                    *store,
                                    before.take(i + 1),
                                ).entries + before.skip(i + 1));
                            }
                            return Err(error);
                        },
                    }
                }
            }
        }
        proof {
            let now = model.decorated(*store, before.take(i + 1));
            assert(now.completed =~= crate::store::provenance_models(completed@));
            assert(entries@ =~= now.entries + before.skip(i + 1));
        }
        i += 1;
    }
    assert(before.take(i as int) =~= before);
    assert(before.skip(i as int) =~= Seq::empty());
    Ok(())
}

/// Decorates a page of the transcript from the evidence through a place of the journal.
pub fn decorate_through<S: ConversationStore>(
    store: &S,
    page: &mut RuntimeClientTranscriptPage,
    through: u64,
) -> (result: Result<(), ConversationStoreError>)
    ensures
        final(page)@ == decorated_page(*store, old(page)@, through).0,
        match result {
            Ok(()) => decorated_page(*store, old(page)@, through).1 is None,
            Err(error) => decorated_page(*store, old(page)@, through).1 == Some(error@),
        },
{
    let wanted = find_owners(&page.entries);
    clear(&mut page.entries);
    let projection = match project(store, &wanted, through) {
        Ok(projection) => projection,
        Err(error) => {
            return Err(error);
        },
    };
    let statistics = projection.statistics;
    let result = decorate_entries(store, &mut page.entries, projection);
    if result.is_ok() {
        page.statistics = Some(statistics);
    }
    result
}

/// Decorates a page of the transcript from the evidence that there is now.
///
/// A failure to read where the evidence ends leaves the page as it is.
pub fn decorate<S: ConversationStore>(store: &S, page: &mut RuntimeClientTranscriptPage) -> (result:
    Result<(), ConversationStoreError>)
    ensures
        match store.failure(StoreRead::Frontier) {
            Some(failure) => *final(page) == *old(page) && (result matches Err(error) && error@
                == failure),
            None => {
                let decorated = decorated_page(*store, old(page)@, store.frontier());
                final(page)@ == decorated.0 && match result {
                    Ok(()) => decorated.1 is None,
                    Err(error) => decorated.1 == Some(error@),
                }
            },
        },
{
    match store.presentation_frontier() {
        Ok(frontier) => decorate_through(store, page, frontier),
        Err(error) => Err(error),
    }
}

/// Whether the evidence that there is now says that a message closes a completed
/// response.
pub fn is_completed_response<S: ConversationStore>(store: &S, id: &MessageId) -> (result: Result<
    bool,
    ConversationStoreError,
>)
    ensures
        match result {
            Ok(is) => store.failure(StoreRead::Frontier) is None && (projected(
                *store,
                seq![*id],
                store.frontier(),
            ) matches Ok(projection) && is == (crate::search::position(
                projection.completed,
                crate::evidence::closes(id@),
            ) is Some)),
            Err(error) => match store.failure(StoreRead::Frontier) {
                Some(failure) => failure == error@,
                None => projected(*store, seq![*id], store.frontier()) == Err::<
                    ResponseModel,
                    StoreFailure,
                >(error@),
            },
        },
{
    let frontier = match store.presentation_frontier() {
        Ok(frontier) => frontier,
        Err(error) => {
            return Err(error);
        },
    };
    let mut wanted: Vec<MessageId> = Vec::new();
    wanted.push(id.clone());
    assert(wanted@ =~= seq![*id]);
    match project(store, &wanted, frontier) {
        Ok(projection) => Ok(response_position(&projection.completed, id).is_some()),
        Err(error) => Err(error),
    }
}

/// The identities of the assistant messages among messages.
pub open spec fn assistant_ids(messages: Seq<Arc<MessageBlock>>) -> Seq<MessageId>
    decreases messages.len(),
{
    if messages.len() == 0 {
        Seq::empty()
    } else {
        match *messages.last() {
            MessageBlock::Assistant(message) => assistant_ids(messages.drop_last()).push(
                message.id,
            ),
            _ => assistant_ids(messages.drop_last()),
        }
    }
}

/// The responses that messages close, in the order of the messages, and the responses
/// that are left. A response is given once.
pub open spec fn claimed(
    completed: Seq<ProvenanceModel>,
    messages: Seq<Arc<MessageBlock>>,
) -> (Seq<ProvenanceModel>, Seq<ProvenanceModel>)
    decreases messages.len(),
{
    if messages.len() == 0 {
        (Seq::empty(), completed)
    } else {
        let (given, left) = claimed(completed, messages.drop_last());
        match crate::search::position(
            left,
            crate::evidence::closes(messages.last().spec_id()@),
        ) {
            Some(index) => (given.push(left[index]), left.remove(index)),
            None => (given, left),
        }
    }
}

/// The responses that a line of canonical messages holds.
pub open spec fn lineage<S: ConversationStore>(
    store: S,
    canonical: Seq<Arc<MessageBlock>>,
) -> Result<Seq<ProvenanceModel>, StoreFailure> {
    match store.failure(StoreRead::Frontier) {
        Some(failure) => Err(failure),
        None => match projected(store, assistant_ids(canonical), store.frontier()) {
            Err(failure) => Err(failure),
            Ok(projection) => Ok(claimed(projection.completed, canonical).0),
        },
    }
}

/// The identities of the assistant messages among messages.
fn find_assistant_ids(messages: &Vec<Arc<MessageBlock>>) -> (ids: Vec<MessageId>)
    ensures
        ids@ == assistant_ids(messages@),
{
    let mut ids: Vec<MessageId> = Vec::new();
    let mut i: usize = 0;
    while i < messages.len()
        invariant
            i <= messages@.len(),
            ids@ == assistant_ids(messages@.take(i as int)),
        decreases messages@.len() - i,
    {
        assert(messages@.take(i + 1).drop_last() =~= messages@.take(i as int));
        if let MessageBlock::Assistant(message) = &*messages[i] {
            ids.push(message.id.clone());
        }
        i += 1;
    }
    assert(messages@.take(i as int) =~= messages@);
    ids
}

/// The responses that a line of canonical messages holds, in the order of the messages.
pub fn lineage_provenance<S: ConversationStore>(
    store: &S,
    canonical: &Vec<Arc<MessageBlock>>,
) -> (result: Result<Vec<CompletedResponseProvenance>, ConversationStoreError>)
    ensures
        match result {
            Ok(responses) => lineage(*store, canonical@) == Ok::<
                Seq<ProvenanceModel>,
                StoreFailure,
            >(crate::store::provenance_models(responses@)),
            Err(error) => lineage(*store, canonical@) == Err::<
                Seq<ProvenanceModel>,
                StoreFailure,
            >(error@),
        },
{
    let wanted = find_assistant_ids(canonical);
    let frontier = match store.presentation_frontier() {
        Ok(frontier) => frontier,
        Err(error) => {
            return Err(error);
        },
    };
    let mut completed = match project(store, &wanted, frontier) {
        Ok(projection) => projection.completed,
        Err(error) => {
            return Err(error);
        },
    };
    let ghost all = crate::store::provenance_models(completed@);
    let mut responses: Vec<CompletedResponseProvenance> = Vec::new();
    let mut i: usize = 0;
    assert(canonical@.take(0) =~= Seq::empty());
    assert(crate::store::provenance_models(responses@) =~= Seq::empty());
    while i < canonical.len()
        invariant
            i <= canonical@.len(),
            claimed(all, canonical@.take(i as int)) == (
                crate::store::provenance_models(responses@),
                crate::store::provenance_models(completed@),
            ),
        decreases canonical@.len() - i,
    {
        let ghost given = responses@;
        let ghost left = completed@;
        proof {
            assert(canonical@.take(i + 1).drop_last() =~= canonical@.take(i as int));
            assert(canonical@.take(i + 1).last() == canonical@[i as int]);
        }
        let id = message_id_of(&canonical[i]);
        if let Some(index) = response_position(&completed, &id) {
            let response = completed.remove(index);
            responses.push(response);
            proof {
                assert(crate::store::provenance_models(responses@)
                    =~= crate::store::provenance_models(given).push(response@));
                assert(crate::store::provenance_models(completed@)
                    =~= crate::store::provenance_models(left).remove(index as int));
            }
        }
        i += 1;
    }
    assert(canonical@.take(i as int) =~= canonical@);
    Ok(responses)
}

} // verus!
