//! Laws of completed responses.
use std::sync::Arc;

use vstd::prelude::*;

#[allow(unused_imports)]
use crate::evidence::{EvidenceModel, FoldModel};
#[allow(unused_imports)]
use crate::clock::Timestamp;
#[allow(unused_imports)]
use crate::identity::{AttemptId, MessageId};
#[allow(unused_imports)]
use crate::journal::{RuntimeEvent, RuntimeEventEnvelope};
#[allow(unused_imports)]
use crate::model::ModelUsage;
#[allow(unused_imports)]
use crate::response::{
    ConversationStatistics, DecorationModel, ResponseModel, ResponseOrigin,
};
#[allow(unused_imports)]
use crate::snapshot::{RuntimeClientTranscriptEntry, TranscriptPageModel};
#[allow(unused_imports)]
use crate::store::{ConversationStore, FactKind, ProvenanceModel, StoreFailure, StoreRead};

verus! {

/// A filter keeps nothing where nothing passes.
proof fn lemma_filter_nothing<T>(items: Seq<T>, test: spec_fn(T) -> bool)
    requires
        forall|i: int| 0 <= i < items.len() ==> !test(#[trigger] items[i]),
    ensures
        items.filter(test) == Seq::<T>::empty(),
    decreases items.len(),
{
    reveal(Seq::filter);
    if items.len() > 0 {
        assert forall|i: int| 0 <= i < items.drop_last().len() implies !test(
            #[trigger] items.drop_last()[i],
        ) by {
            assert(items.drop_last()[i] == items[i]);
        }
        lemma_filter_nothing(items.drop_last(), test);
        assert(!test(items[items.len() - 1]));
    }
}

/// To filter by a narrower test is to filter what the wider one kept.
proof fn lemma_filter_narrower<T>(
    items: Seq<T>,
    wide: spec_fn(T) -> bool,
    narrow: spec_fn(T) -> bool,
)
    requires
        forall|item: T| #[trigger] narrow(item) ==> wide(item),
    ensures
        items.filter(narrow) == items.filter(wide).filter(narrow),
    decreases items.len(),
{
    reveal(Seq::filter);
    if items.len() > 0 {
        let front = items.drop_last();
        lemma_filter_narrower(front, wide, narrow);
        if wide(items.last()) {
            let kept = front.filter(wide);
            assert(kept.push(items.last()).drop_last() =~= kept);
        }
    }
}

/// Picks the facts behind a place.
spec fn is_behind(place: u64) -> spec_fn(Arc<RuntimeEventEnvelope>) -> bool {
    |envelope: Arc<RuntimeEventEnvelope>| place < envelope.sequence
}

spec fn ascends(facts: Seq<Arc<RuntimeEventEnvelope>>) -> bool {
    forall|i: int, j: int|
        0 <= i < j < facts.len() ==> (#[trigger] facts[i]).sequence < (
        #[trigger] facts[j]).sequence
}

/// Behind a fact lie the facts that follow it.
proof fn lemma_behind(facts: Seq<Arc<RuntimeEventEnvelope>>, count: int)
    requires
        ascends(facts),
        0 < count <= facts.len(),
    ensures
        facts.filter(is_behind(facts[count - 1].sequence)) == facts.skip(count),
    decreases facts.len() - count,
{
    reveal(Seq::filter);
    let test = is_behind(facts[count - 1].sequence);
    if count == facts.len() {
        lemma_filter_nothing(facts, test);
        assert(facts.skip(count) =~= Seq::empty());
    } else {
        let front = facts.drop_last();
        assert(front[count - 1] == facts[count - 1]);
        lemma_behind(front, count);
        assert(facts.skip(count) =~= front.skip(count).push(facts.last()));
        assert(facts[count - 1].sequence < facts[facts.len() - 1].sequence);
    }
}

/// What is asked for behind the last fact of a page is what the page left over.
proof fn lemma_rest_behind_page<S: ConversationStore>(
    store: S,
    kinds: Seq<FactKind>,
    after: u64,
    through: u64,
    count: int,
)
    requires
        0 < count <= store.journal().filter(
            crate::store::asked_for(kinds, after, through),
        ).len(),
    ensures
        ({
            let facts = store.journal().filter(crate::store::asked_for(kinds, after, through));
            store.journal().filter(
                crate::store::asked_for(kinds, facts[count - 1].sequence, through),
            ) == facts.skip(count)
        }),
{
    store.journal_ascends();
    let wide = crate::store::asked_for(kinds, after, through);
    let facts = store.journal().filter(wide);
    let place = facts[count - 1].sequence;
    let narrow = crate::store::asked_for(kinds, place, through);
    crate::response::lemma_filter_ascends(store.journal(), wide);
    crate::response::lemma_filter_keeps(store.journal(), wide);
    lemma_filter_narrower(store.journal(), wide, narrow);
    lemma_behind(facts, count);
    lemma_filter_agrees(facts, narrow, is_behind(place));
}

/// Two tests that agree on the items keep the same.
proof fn lemma_filter_agrees<T>(items: Seq<T>, a: spec_fn(T) -> bool, b: spec_fn(T) -> bool)
    requires
        forall|i: int| 0 <= i < items.len() ==> a(#[trigger] items[i]) == b(items[i]),
    ensures
        items.filter(a) == items.filter(b),
    decreases items.len(),
{
    reveal(Seq::filter);
    if items.len() > 0 {
        let front = items.drop_last();
        assert forall|i: int| 0 <= i < front.len() implies a(#[trigger] front[i]) == b(front[i]) by {
            assert(front[i] == items[i]);
        }
        lemma_filter_agrees(front, a, b);
        assert(a(items[items.len() - 1]) == b(items[items.len() - 1]));
    }
}

/// Facts in two parts.
proof fn lemma_facts_in_parts<S: ConversationStore>(
    state: FoldModel,
    store: S,
    wanted: Seq<MessageId>,
    first: Seq<Arc<RuntimeEventEnvelope>>,
    second: Seq<Arc<RuntimeEventEnvelope>>,
)
    ensures
        state.with_facts(store, wanted, first + second) == match state.with_facts(
            store,
            wanted,
            first,
        ) {
            Err(failure) => Err(failure),
            Ok(next) => next.with_facts(store, wanted, second),
        },
    decreases second.len(),
{
    if second.len() == 0 {
        assert(first + second =~= first);
    } else {
        lemma_facts_in_parts(state, store, wanted, first, second.drop_last());
        assert((first + second).drop_last() =~= first + second.drop_last());
        assert((first + second).last() == second.last());
    }
}

/// Paging is invisible: where no read of the journal fails, to read it page by page is
/// to fold, at once, every fact that is asked for behind the one place and through the
/// other.
pub proof fn law_paging_is_invisible<S: ConversationStore>(
    store: S,
    wanted: Seq<MessageId>,
    through: u64,
    after: u64,
    state: FoldModel,
)
    requires
        forall|place: u64|
            #[trigger] store.failure(StoreRead::Events { after: place, through }) is None,
    ensures
        crate::response::scanned(store, wanted, through, after, state) == state.with_facts(
            store,
            wanted,
            store.journal().filter(
                crate::store::asked_for(crate::response::response_kinds(), after, through),
            ),
        ),
    decreases through - after,
{
    let kinds = crate::response::response_kinds();
    let facts = store.journal().filter(crate::store::asked_for(kinds, after, through));
    let page = crate::response::next_page(store.journal(), after, through);
    assert(store.failure(StoreRead::Events { after, through }) is None);
    if page.len() == 0 {
        assert(facts =~= Seq::empty());
    } else {
        crate::response::lemma_page_within(store.journal(), after, through);
        let place = page.last().sequence;
        let count = page.len() as int;
        assert(page =~= facts.take(count));
        assert(page.last() == facts[count - 1]);
        lemma_rest_behind_page(store, kinds, after, through, count);
        assert(facts =~= page + facts.skip(count));
        lemma_facts_in_parts(state, store, wanted, page, facts.skip(count));
        match state.with_facts(store, wanted, page) {
            Err(failure) => {},
            Ok(next) => {
                law_paging_is_invisible(store, wanted, through, place, next);
            },
        }
    }
}

/// Two states of one record answer every read but that of the journal alike.
pub open spec fn reads_alike<S: ConversationStore>(a: S, b: S) -> bool {
    &&& a.owner() == b.owner()
    &&& a.inherited() == b.inherited()
    &&& forall|read: StoreRead| #[trigger] a.failure(read) == b.failure(read)
    &&& forall|id: Seq<char>| #[trigger] a.request_surface(id) == b.request_surface(id)
    &&& forall|revision: crate::journal::SurfaceRevision| #[trigger]
        a.surface(revision) == b.surface(revision)
}

/// Facts do the same in two states of a record that read alike.
proof fn lemma_facts_alike<S: ConversationStore>(
    a: S,
    b: S,
    wanted: Seq<MessageId>,
    state: FoldModel,
    facts: Seq<Arc<RuntimeEventEnvelope>>,
)
    requires
        reads_alike(a, b),
    ensures
        state.with_facts(a, wanted, facts) == state.with_facts(b, wanted, facts),
    decreases facts.len(),
{
    if facts.len() > 0 {
        lemma_facts_alike(a, b, wanted, state, facts.drop_last());
    }
}

/// A filter of a sequence that grew by items which do not pass.
proof fn lemma_filter_of_more<T>(items: Seq<T>, more: Seq<T>, test: spec_fn(T) -> bool)
    requires
        forall|i: int| 0 <= i < more.len() ==> !test(#[trigger] more[i]),
    ensures
        (items + more).filter(test) == items.filter(test),
    decreases more.len(),
{
    reveal(Seq::filter);
    if more.len() == 0 {
        assert(items + more =~= items);
    } else {
        let front = more.drop_last();
        assert forall|i: int| 0 <= i < front.len() implies !test(#[trigger] front[i]) by {
            assert(front[i] == more[i]);
        }
        lemma_filter_of_more(items, front, test);
        assert((items + more).drop_last() =~= items + front);
        assert(!test(more[more.len() - 1]));
        assert((items + more).last() == more[more.len() - 1]);
    }
}

proof fn lemma_scan_alike<S: ConversationStore>(
    earlier: S,
    later: S,
    more: Seq<Arc<RuntimeEventEnvelope>>,
    wanted: Seq<MessageId>,
    through: u64,
    after: u64,
    state: FoldModel,
)
    requires
        reads_alike(earlier, later),
        later.journal() == earlier.journal() + more,
        forall|i: int| 0 <= i < more.len() ==> through < (#[trigger] more[i]).sequence,
    ensures
        crate::response::scanned(later, wanted, through, after, state)
            == crate::response::scanned(earlier, wanted, through, after, state),
    decreases through - after,
{
    let kinds = crate::response::response_kinds();
    lemma_filter_of_more(
        earlier.journal(),
        more,
        crate::store::asked_for(kinds, after, through),
    );
    let page = crate::response::next_page(earlier.journal(), after, through);
    assert(earlier.failure(StoreRead::Events { after, through }) == later.failure(
        StoreRead::Events { after, through },
    ));
    if page.len() > 0 {
        crate::response::lemma_page_within(earlier.journal(), after, through);
        lemma_facts_alike(earlier, later, wanted, state, page);
        match state.with_facts(earlier, wanted, page) {
            Err(failure) => {},
            Ok(next) => {
                lemma_scan_alike(
                    earlier,
                    later,
                    more,
                    wanted,
                    through,
                    page.last().sequence,
                    next,
                );
            },
        }
    }
}

/// A read through a fixed place does not see what the journal gains behind it.
pub proof fn law_a_read_cut_sees_nothing_later<S: ConversationStore>(
    earlier: S,
    later: S,
    more: Seq<Arc<RuntimeEventEnvelope>>,
    wanted: Seq<MessageId>,
    through: u64,
)
    requires
        reads_alike(earlier, later),
        later.journal() == earlier.journal() + more,
        forall|i: int| 0 <= i < more.len() ==> through < (#[trigger] more[i]).sequence,
    ensures
        crate::response::projected(later, wanted, through) == crate::response::projected(
            earlier,
            wanted,
            through,
        ),
{
    assert(earlier.failure(StoreRead::Inherited) == later.failure(StoreRead::Inherited));
    let completed = crate::response::filed(
        earlier.inherited().filter(crate::response::is_wanted(wanted)),
    );
    lemma_scan_alike(
        earlier,
        later,
        more,
        wanted,
        through,
        0,
        FoldModel {
            attempts: Seq::empty(),
            completed,
            processes: crate::response::entries_of(completed, wanted),
            statistics: ConversationStatistics::none(),
        },
    );
}

/// Two pieces of evidence that differ in the messages alone that were asked for.
pub open spec fn same_but_members(a: EvidenceModel, b: EvidenceModel) -> bool {
    a == EvidenceModel { members: a.members, ..b }
}

/// Two states of the fold that count the same.
pub open spec fn counts_alike(a: FoldModel, b: FoldModel) -> bool {
    &&& a.statistics == b.statistics
    &&& a.attempts.len() == b.attempts.len()
    &&& forall|i: int|
        0 <= i < a.attempts.len() ==> same_but_members(#[trigger] a.attempts[i], b.attempts[i])
}

pub(crate) proof fn lemma_same_position(a: FoldModel, b: FoldModel, id: Seq<char>)
    requires
        counts_alike(a, b),
    ensures
        crate::search::position(a.attempts, crate::evidence::is_attempt(id))
            == crate::search::position(b.attempts, crate::evidence::is_attempt(id)),
{
    let test = crate::evidence::is_attempt(id);
    crate::search::lemma_position(a.attempts, test);
    match crate::search::position(a.attempts, test) {
        Some(index) => {
            assert(same_but_members(a.attempts[index], b.attempts[index]));
            assert forall|i: int| 0 <= i < index implies !test(#[trigger] b.attempts[i]) by {
                assert(same_but_members(a.attempts[i], b.attempts[i]));
            }
            crate::search::lemma_position_at(b.attempts, test, index);
        },
        None => {
            assert forall|i: int| 0 <= i < b.attempts.len() implies !test(
                #[trigger] b.attempts[i],
            ) by {
                assert(same_but_members(a.attempts[i], b.attempts[i]));
            }
            crate::search::lemma_position_none(b.attempts, test);
        },
    }
}

pub(crate) proof fn lemma_fact_counts_alike<S: ConversationStore>(
    store: S,
    other: S,
    a: FoldModel,
    b: FoldModel,
    wanted_a: Seq<MessageId>,
    wanted_b: Seq<MessageId>,
    envelope: Arc<RuntimeEventEnvelope>,
)
    requires
        counts_alike(a, b),
        a.with_fact(store, wanted_a, *envelope) is Ok,
        b.with_fact(other, wanted_b, *envelope) is Ok,
    ensures
        counts_alike(
            a.with_fact(store, wanted_a, *envelope)->Ok_0,
            b.with_fact(other, wanted_b, *envelope)->Ok_0,
        ),
{
    match envelope.attempt_id {
        None => {},
        Some(id) => {
            lemma_same_position(a, b, id@);
            crate::search::lemma_position(a.attempts, crate::evidence::is_attempt(id@));
            let ea = a.evidence(id);
            let eb = b.evidence(id);
            assert(same_but_members(ea, eb));
        },
    }
}

proof fn lemma_facts_count_alike<S: ConversationStore>(
    store: S,
    other: S,
    a: FoldModel,
    b: FoldModel,
    wanted_a: Seq<MessageId>,
    wanted_b: Seq<MessageId>,
    facts: Seq<Arc<RuntimeEventEnvelope>>,
)
    requires
        counts_alike(a, b),
        a.with_facts(store, wanted_a, facts) is Ok,
        b.with_facts(other, wanted_b, facts) is Ok,
    ensures
        counts_alike(
            a.with_facts(store, wanted_a, facts)->Ok_0,
            b.with_facts(other, wanted_b, facts)->Ok_0,
        ),
    decreases facts.len(),
{
    if facts.len() > 0 {
        lemma_facts_count_alike(store, other, a, b, wanted_a, wanted_b, facts.drop_last());
        lemma_fact_counts_alike(
            store,
            other,
            a.with_facts(store, wanted_a, facts.drop_last())->Ok_0,
            b.with_facts(other, wanted_b, facts.drop_last())->Ok_0,
            wanted_a,
            wanted_b,
            facts.last(),
        );
    }
}

proof fn lemma_scan_counts_alike<S: ConversationStore>(
    store: S,
    other: S,
    a: FoldModel,
    b: FoldModel,
    wanted_a: Seq<MessageId>,
    wanted_b: Seq<MessageId>,
    through: u64,
    after: u64,
)
    requires
        store.journal() == other.journal(),
        counts_alike(a, b),
        crate::response::scanned(store, wanted_a, through, after, a) is Ok,
        crate::response::scanned(other, wanted_b, through, after, b) is Ok,
    ensures
        counts_alike(
            crate::response::scanned(store, wanted_a, through, after, a)->Ok_0,
            crate::response::scanned(other, wanted_b, through, after, b)->Ok_0,
        ),
    decreases through - after,
{
    let page = crate::response::next_page(store.journal(), after, through);
    if page.len() > 0 {
        crate::response::lemma_page_within(store.journal(), after, through);
        lemma_facts_count_alike(store, other, a, b, wanted_a, wanted_b, page);
        lemma_scan_counts_alike(
            store,
            other,
            a.with_facts(store, wanted_a, page)->Ok_0,
            b.with_facts(other, wanted_b, page)->Ok_0,
            wanted_a,
            wanted_b,
            through,
            page.last().sequence,
        );
    }
}

/// The totals of a conversation come from its own journal alone: they do not depend on
/// the messages that were asked for, so every page of a transcript shows the same, nor on
/// the responses that the conversation inherited.
pub proof fn law_statistics_come_from_the_journal<S: ConversationStore>(
    store: S,
    other: S,
    wanted: Seq<MessageId>,
    others: Seq<MessageId>,
    through: u64,
)
    requires
        store.journal() == other.journal(),
        crate::response::projected(store, wanted, through) is Ok,
        crate::response::projected(other, others, through) is Ok,
    ensures
        crate::response::projected(store, wanted, through)->Ok_0.statistics
            == crate::response::projected(other, others, through)->Ok_0.statistics,
{
    let completed_a = crate::response::filed(
        store.inherited().filter(crate::response::is_wanted(wanted)),
    );
    let completed_b = crate::response::filed(
        other.inherited().filter(crate::response::is_wanted(others)),
    );
    lemma_scan_counts_alike(
        store,
        other,
        FoldModel {
            attempts: Seq::empty(),
            completed: completed_a,
            processes: crate::response::entries_of(completed_a, wanted),
            statistics: ConversationStatistics::none(),
        },
        FoldModel {
            attempts: Seq::empty(),
            completed: completed_b,
            processes: crate::response::entries_of(completed_b, others),
            statistics: ConversationStatistics::none(),
        },
        wanted,
        others,
        through,
        0,
    );
}

/// An attempt that ends without completing closes no response: what is known of
/// responses and the totals stay as they were, and the attempt is no longer pending.
pub proof fn law_an_interrupted_attempt_closes_nothing<S: ConversationStore>(
    store: S,
    wanted: Seq<MessageId>,
    state: FoldModel,
    envelope: RuntimeEventEnvelope,
    id: AttemptId,
)
    requires
        envelope.attempt_id == Some(id),
        envelope.event is AttemptCancelled || envelope.event is AttemptFailed
            || envelope.event is AttemptTimedOut || envelope.event is AttemptLimitExceeded || (
        envelope.event matches RuntimeEvent::AttemptCompleted { finish_reason, .. } && !(
        finish_reason is Stop) && !(finish_reason is Refusal)),
    ensures
        state.with_fact(store, wanted, envelope) == Ok::<FoldModel, StoreFailure>(
            state.without(id@),
        ),
        state.without(id@).completed == state.completed,
        state.without(id@).processes == state.processes,
        state.without(id@).statistics == state.statistics,
{
}

/// Nothing but the completion of an attempt closes a response: neither the end of a model
/// request nor an accepted message does.
pub proof fn law_only_a_completion_closes_a_response<S: ConversationStore>(
    store: S,
    wanted: Seq<MessageId>,
    state: FoldModel,
    envelope: RuntimeEventEnvelope,
)
    requires
        !(envelope.event is AttemptCompleted),
    ensures
        state.with_fact(store, wanted, envelope) matches Ok(after) && {
            &&& after.completed == state.completed
            &&& after.processes == state.processes
            &&& after.statistics.completed_responses == state.statistics.completed_responses
        },
{
}

/// Parts responses by their closing messages.
pub open spec fn closes_another() -> spec_fn(ProvenanceModel, ProvenanceModel) -> bool {
    |a: ProvenanceModel, b: ProvenanceModel| a.closing_message_id@ != b.closing_message_id@
}

/// A response that is filed is the one found under its closing message, and no other
/// response has that closing message.
pub proof fn law_a_filed_response_is_found(
    responses: Seq<ProvenanceModel>,
    response: ProvenanceModel,
)
    requires
        crate::search::apart(responses, closes_another()),
    ensures
        crate::search::apart(
            crate::evidence::with_response(responses, response),
            closes_another(),
        ),
        crate::search::position(
            crate::evidence::with_response(responses, response),
            crate::evidence::closes(response.closing_message_id@),
        ) matches Some(index) && crate::evidence::with_response(responses, response)[index]
            == response,
{
    let test = crate::evidence::closes(response.closing_message_id@);
    let filed = crate::evidence::with_response(responses, response);
    crate::search::lemma_position(responses, test);
    match crate::search::position(responses, test) {
        Some(index) => {
            assert forall|i: int, j: int| 0 <= i < j < filed.len() implies closes_another()(
                #[trigger] filed[i],
                #[trigger] filed[j],
            ) by {
                assert(closes_another()(responses[i], responses[j]));
            }
            assert forall|i: int| 0 <= i < index implies !test(#[trigger] filed[i]) by {
                assert(filed[i] == responses[i]);
            }
            crate::search::lemma_position_at(filed, test, index);
        },
        None => {
            let all = responses.push(response);
            assert forall|i: int, j: int| 0 <= i < j < all.len() implies closes_another()(
                #[trigger] all[i],
                #[trigger] all[j],
            ) by {
                if j < responses.len() {
                    assert(closes_another()(responses[i], responses[j]));
                } else {
                    assert(!test(responses[i]));
                }
            }
            crate::search::lemma_ordered_keeps_apart(
                all,
                crate::evidence::response_order(),
                closes_another(),
            );
            assert(all[all.len() - 1] == response);
            assert(filed.contains(all[all.len() - 1]));
            let k = choose|k: int| 0 <= k < filed.len() && filed[k] == response;
            crate::search::lemma_position(filed, test);
            let found = crate::search::position(filed, test);
            assert(test(filed[k]));
            let index = found->Some_0;
            assert(all.contains(filed[index]));
            let m = choose|m: int| 0 <= m < all.len() && all[m] == filed[index];
            if m < responses.len() {
                assert(!test(responses[m]));
            }
        },
    }
}

/// A completed response has a usage only where every request of its attempt reported
/// one; a missing report is never a zero.
pub proof fn law_usage_needs_every_report<S: ConversationStore>(
    store: S,
    wanted: Seq<MessageId>,
    state: FoldModel,
    id: AttemptId,
    timestamp: Timestamp,
)
    requires
        crate::search::apart(state.completed, closes_another()),
        state.evidence(id).closing matches Some(closing) && crate::evidence::names(
            wanted,
            closing@,
        ),
        state.attempt_completed(store, wanted, id, timestamp) is Ok,
    ensures
        ({
            let completed = state.attempt_completed(store, wanted, id, timestamp)->Ok_0.completed;
            crate::search::position(
                completed,
                crate::evidence::closes(state.evidence(id).closing->Some_0@),
            ) matches Some(index) && completed[index].usage == (if state.evidence(id).requests > 0
                && state.evidence(id).requests == state.evidence(id).reports {
                state.evidence(id).usage
            } else {
                None
            })
        }),
{
    let evidence = state.evidence(id);
    let closing = evidence.closing->Some_0;
    law_a_filed_response_is_found(
        state.completed,
        ProvenanceModel {
            process_message_ids: evidence.members,
            closing_message_id: closing,
            origin: ResponseOrigin {
                conversation_id: store.owner(),
                attempt_id: id,
                closing_message_id: closing,
            },
            completed_at: timestamp,
            timing: evidence.timing.summary(evidence.started_at, timestamp),
            retry_message_id: crate::evidence::retry_input(store, evidence.last_request)->Ok_0,
            usage: if evidence.requests > 0 && evidence.requests == evidence.reports {
                evidence.usage
            } else {
                None
            },
        },
    );
}

pub(crate) proof fn lemma_fact_keeps_apart<S: ConversationStore>(
    store: S,
    wanted: Seq<MessageId>,
    state: FoldModel,
    envelope: Arc<RuntimeEventEnvelope>,
)
    requires
        crate::search::apart(state.completed, closes_another()),
        state.with_fact(store, wanted, *envelope) is Ok,
    ensures
        crate::search::apart(
            state.with_fact(store, wanted, *envelope)->Ok_0.completed,
            closes_another(),
        ),
{
    if let Some(id) = envelope.attempt_id {
        let evidence = state.evidence(id);
        if let Some(closing) = evidence.closing {
            law_a_filed_response_is_found(
                state.completed,
                ProvenanceModel {
                    process_message_ids: evidence.members,
                    closing_message_id: closing,
                    origin: ResponseOrigin {
                        conversation_id: store.owner(),
                        attempt_id: id,
                        closing_message_id: closing,
                    },
                    completed_at: envelope.timestamp,
                    timing: evidence.timing.summary(evidence.started_at, envelope.timestamp),
                    retry_message_id: crate::evidence::retry_input(
                        store,
                        evidence.last_request,
                    )->Ok_0,
                    usage: if evidence.requests > 0 && evidence.requests == evidence.reports {
                        evidence.usage
                    } else {
                        None
                    },
                },
            );
        }
    }
}

proof fn lemma_facts_keep_apart<S: ConversationStore>(
    store: S,
    wanted: Seq<MessageId>,
    state: FoldModel,
    facts: Seq<Arc<RuntimeEventEnvelope>>,
)
    requires
        crate::search::apart(state.completed, closes_another()),
        state.with_facts(store, wanted, facts) is Ok,
    ensures
        crate::search::apart(
            state.with_facts(store, wanted, facts)->Ok_0.completed,
            closes_another(),
        ),
    decreases facts.len(),
{
    if facts.len() > 0 {
        lemma_facts_keep_apart(store, wanted, state, facts.drop_last());
        lemma_fact_keeps_apart(
            store,
            wanted,
            state.with_facts(store, wanted, facts.drop_last())->Ok_0,
            facts.last(),
        );
    }
}

proof fn lemma_scan_keeps_apart<S: ConversationStore>(
    store: S,
    wanted: Seq<MessageId>,
    through: u64,
    after: u64,
    state: FoldModel,
)
    requires
        crate::search::apart(state.completed, closes_another()),
        crate::response::scanned(store, wanted, through, after, state) is Ok,
    ensures
        crate::search::apart(
            crate::response::scanned(store, wanted, through, after, state)->Ok_0.completed,
            closes_another(),
        ),
    decreases through - after,
{
    let page = crate::response::next_page(store.journal(), after, through);
    if page.len() > 0 {
        crate::response::lemma_page_within(store.journal(), after, through);
        lemma_facts_keep_apart(store, wanted, state, page);
        lemma_scan_keeps_apart(
            store,
            wanted,
            through,
            page.last().sequence,
            state.with_facts(store, wanted, page)->Ok_0,
        );
    }
}

pub(crate) proof fn lemma_filed_apart(responses: Seq<ProvenanceModel>)
    ensures
        crate::search::apart(crate::response::filed(responses), closes_another()),
    decreases responses.len(),
{
    if responses.len() > 0 {
        lemma_filed_apart(responses.drop_last());
        law_a_filed_response_is_found(
            crate::response::filed(responses.drop_last()),
            responses.last(),
        );
    }
}

/// Every closing message has one response.
pub proof fn law_a_message_closes_one_response<S: ConversationStore>(
    store: S,
    wanted: Seq<MessageId>,
    through: u64,
)
    requires
        crate::response::projected(store, wanted, through) is Ok,
    ensures
        crate::search::apart(
            crate::response::projected(store, wanted, through)->Ok_0.completed,
            closes_another(),
        ),
{
    let completed = crate::response::filed(
        store.inherited().filter(crate::response::is_wanted(wanted)),
    );
    lemma_filed_apart(store.inherited().filter(crate::response::is_wanted(wanted)));
    lemma_scan_keeps_apart(
        store,
        wanted,
        through,
        0,
        FoldModel {
            attempts: Seq::empty(),
            completed,
            processes: crate::response::entries_of(completed, wanted),
            statistics: ConversationStatistics::none(),
        },
    );
}

/// Two entries are the same but for what is known of their responses.
pub open spec fn same_item(
    a: RuntimeClientTranscriptEntry,
    b: RuntimeClientTranscriptEntry,
) -> bool {
    crate::response::bare(a) == crate::response::bare(b)
}

proof fn lemma_decoration_keeps_items<S: ConversationStore>(
    projection: ResponseModel,
    store: S,
    entries: Seq<RuntimeClientTranscriptEntry>,
)
    ensures
        projection.decorated(store, entries).entries.len() == entries.len(),
        forall|i: int|
            0 <= i < entries.len() ==> same_item(
                #[trigger] projection.decorated(store, entries).entries[i],
                entries[i],
            ),
    decreases entries.len(),
{
    if entries.len() > 0 {
        let front = entries.drop_last();
        lemma_decoration_keeps_items(projection, store, front);
        let earlier = projection.decorated(store, front).entries;
        let decorated = projection.decorated(store, entries).entries;
        assert forall|i: int| 0 <= i < entries.len() implies same_item(
            #[trigger] decorated[i],
            entries[i],
        ) by {
            if i < front.len() {
                assert(decorated[i] == earlier[i]);
                assert(front[i] == entries[i]);
            }
        }
    }
}

/// To decorate a page neither adds, drops, moves nor changes an item of it, also where
/// the decoration fails.
pub proof fn law_decoration_keeps_the_items<S: ConversationStore>(
    store: S,
    page: TranscriptPageModel,
    through: u64,
)
    ensures
        ({
            let after = crate::response::decorated_page(store, page, through).0;
            &&& after.next_cursor == page.next_cursor
            &&& after.entries.len() == page.entries.len()
            &&& forall|i: int|
                0 <= i < page.entries.len() ==> same_item(
                    #[trigger] after.entries[i],
                    page.entries[i],
                )
        }),
{
    let bare = crate::response::all_bare(page.entries);
    match crate::response::projected(
        store,
        crate::response::owners(page.entries),
        through,
    ) {
        Err(failure) => {},
        Ok(projection) => {
            lemma_decoration_keeps_items(projection, store, bare);
            let after = projection.decorated(store, bare).entries;
            assert forall|i: int| 0 <= i < page.entries.len() implies same_item(
                #[trigger] after[i],
                page.entries[i],
            ) by {
                assert(same_item(after[i], bare[i]));
            }
        },
    }
}

proof fn lemma_owners_of_same_items(
    a: Seq<RuntimeClientTranscriptEntry>,
    b: Seq<RuntimeClientTranscriptEntry>,
)
    requires
        a.len() == b.len(),
        forall|i: int| 0 <= i < a.len() ==> same_item(#[trigger] a[i], b[i]),
    ensures
        crate::response::owners(a) == crate::response::owners(b),
    decreases a.len(),
{
    if a.len() > 0 {
        let fa = a.drop_last();
        let fb = b.drop_last();
        assert forall|i: int| 0 <= i < fa.len() implies same_item(#[trigger] fa[i], fb[i]) by {
            assert(same_item(a[i], b[i]));
        }
        lemma_owners_of_same_items(fa, fb);
        assert(same_item(a[a.len() - 1], b[b.len() - 1]));
    }
}

/// A decoration depends on the items alone: what was known of them before is forgotten,
/// so that a stale page is brought up to date, and to decorate a page twice is to
/// decorate it once.
pub proof fn law_decoration_forgets_what_was_shown<S: ConversationStore>(
    store: S,
    page: TranscriptPageModel,
    stale: TranscriptPageModel,
    through: u64,
)
    requires
        stale.next_cursor == page.next_cursor,
        stale.entries.len() == page.entries.len(),
        forall|i: int|
            0 <= i < page.entries.len() ==> same_item(#[trigger] stale.entries[i], page.entries[i]),
    ensures
        ({
            let (old_page, old_failure) = crate::response::decorated_page(store, stale, through);
            let (new_page, new_failure) = crate::response::decorated_page(store, page, through);
            &&& old_failure == new_failure
            &&& old_page.entries == new_page.entries
            &&& new_failure is None ==> old_page == new_page
        }),
{
    lemma_owners_of_same_items(stale.entries, page.entries);
    assert(crate::response::all_bare(stale.entries) =~= crate::response::all_bare(page.entries));
}

/// The closing message of the response that an entry shows.
pub open spec fn shown(entry: RuntimeClientTranscriptEntry) -> Option<Seq<char>> {
    match entry.completed_response {
        Some(view) => Some(view.closing_message_id@),
        None => None,
    }
}

/// No response is shown twice, and none that is shown is left.
spec fn shown_once(decoration: DecorationModel) -> bool {
    &&& crate::search::apart(decoration.completed, closes_another())
    &&& forall|i: int, j: int|
        0 <= i < decoration.entries.len() && 0 <= j < decoration.completed.len() && shown(
            #[trigger] decoration.entries[i],
        ) is Some ==> shown(decoration.entries[i]) != Some(
            (#[trigger] decoration.completed[j]).closing_message_id@,
        )
    &&& forall|i: int, j: int|
        0 <= i < j < decoration.entries.len() && shown(#[trigger] decoration.entries[i]) is Some
            ==> shown(decoration.entries[i]) != shown(#[trigger] decoration.entries[j])
}

proof fn lemma_shown_once<S: ConversationStore>(
    projection: ResponseModel,
    store: S,
    entries: Seq<RuntimeClientTranscriptEntry>,
)
    requires
        crate::search::apart(projection.completed, closes_another()),
        forall|i: int|
            0 <= i < entries.len() ==> (#[trigger] entries[i]).completed_response is None,
    ensures
        shown_once(projection.decorated(store, entries)),
    decreases entries.len(),
{
    if entries.len() > 0 {
        let front = entries.drop_last();
        assert forall|i: int| 0 <= i < front.len() implies (
        #[trigger] front[i]).completed_response is None by {
            assert(front[i] == entries[i]);
        }
        lemma_shown_once(projection, store, front);
        let before = projection.decorated(store, front);
        let after = projection.decorated(store, entries);
        let entry = entries.last();
        assert(entries[entries.len() - 1].completed_response is None);
        let n = before.entries.len() as int;
        assert(after.entries.len() == n + 1);
        assert(after.entries.drop_last() =~= before.entries);
        let owner = crate::response::owner_of(entry.item);
        let found = crate::search::position(
            before.completed,
            crate::evidence::closes(owner->Some_0@),
        );
        crate::search::lemma_position(
            before.completed,
            crate::evidence::closes(owner->Some_0@),
        );
        if before.failure is None && crate::response::can_close(entry.item) && found is Some {
            let index = found->Some_0;
            assert(after.completed == before.completed.remove(index));
            assert forall|i: int, j: int| 0 <= i < j < after.completed.len() implies closes_another()(
                #[trigger] after.completed[i],
                #[trigger] after.completed[j],
            ) by {
                let p = if i < index {
                    i
                } else {
                    i + 1
                };
                let q = if j < index {
                    j
                } else {
                    j + 1
                };
                assert(closes_another()(before.completed[p], before.completed[q]));
            }
            assert forall|i: int, j: int|
                0 <= i < after.entries.len() && 0 <= j < after.completed.len() && shown(
                    #[trigger] after.entries[i],
                ) is Some implies shown(after.entries[i]) != Some(
                (#[trigger] after.completed[j]).closing_message_id@,
            ) by {
                let q = if j < index {
                    j
                } else {
                    j + 1
                };
                assert(after.completed[j] == before.completed[q]);
                if i < n {
                    assert(after.entries[i] == before.entries[i]);
                } else if q < index {
                    assert(closes_another()(before.completed[q], before.completed[index]));
                } else {
                    assert(closes_another()(before.completed[index], before.completed[q]));
                }
            }
            assert forall|i: int, j: int|
                0 <= i < j < after.entries.len() && shown(
                    #[trigger] after.entries[i],
                ) is Some implies shown(after.entries[i]) != shown(#[trigger] after.entries[j]) by {
                assert(after.entries[i] == before.entries[i]);
                if j < n {
                    assert(after.entries[j] == before.entries[j]);
                } else {
                    assert(shown(before.entries[i]) != Some(
                        before.completed[index].closing_message_id@,
                    ));
                }
            }
        } else {
            assert(after.completed == before.completed);
            assert(shown(after.entries[n]) is None);
            assert forall|i: int, j: int|
                0 <= i < after.entries.len() && 0 <= j < after.completed.len() && shown(
                    #[trigger] after.entries[i],
                ) is Some implies shown(after.entries[i]) != Some(
                (#[trigger] after.completed[j]).closing_message_id@,
            ) by {
                assert(after.entries[i] == before.entries[i]);
            }
            assert forall|i: int, j: int|
                0 <= i < j < after.entries.len() && shown(
                    #[trigger] after.entries[i],
                ) is Some implies shown(after.entries[i]) != shown(#[trigger] after.entries[j]) by {
                assert(after.entries[i] == before.entries[i]);
                if j < n {
                    assert(after.entries[j] == before.entries[j]);
                }
            }
        }
    }
}

/// A decorated page shows no response twice.
pub proof fn law_a_page_shows_a_response_once<S: ConversationStore>(
    store: S,
    page: TranscriptPageModel,
    through: u64,
    i: int,
    j: int,
)
    requires
        0 <= i < j < page.entries.len(),
        shown(crate::response::decorated_page(store, page, through).0.entries[i]) is Some,
    ensures
        shown(crate::response::decorated_page(store, page, through).0.entries[i]) != shown(
            crate::response::decorated_page(store, page, through).0.entries[j],
        ),
{
    let wanted = crate::response::owners(page.entries);
    match crate::response::projected(store, wanted, through) {
        Err(failure) => {},
        Ok(projection) => {
            law_a_message_closes_one_response(store, wanted, through);
            let bare = crate::response::all_bare(page.entries);
            lemma_shown_once(projection, store, bare);
            lemma_decoration_keeps_items(projection, store, bare);
            let decorated = projection.decorated(store, bare).entries;
            assert(shown(decorated[i]) != shown(decorated[j]));
        },
    }
}

/// An entry shows a response only where it is an assistant message that calls no tool,
/// and then the response that this message closes.
pub proof fn law_a_response_is_shown_at_its_closing_message<S: ConversationStore>(
    store: S,
    page: TranscriptPageModel,
    through: u64,
    i: int,
)
    requires
        0 <= i < page.entries.len(),
        shown(crate::response::decorated_page(store, page, through).0.entries[i]) is Some,
    ensures
        crate::response::can_close(page.entries[i].item),
        crate::response::owner_of(page.entries[i].item) matches Some(id) && shown(
            crate::response::decorated_page(store, page, through).0.entries[i],
        ) == Some(id@),
{
    match crate::response::projected(
        store,
        crate::response::owners(page.entries),
        through,
    ) {
        Err(failure) => {},
        Ok(projection) => {
            lemma_shown_at_closing(projection, store, crate::response::all_bare(page.entries), i);
        },
    }
}

proof fn lemma_shown_at_closing<S: ConversationStore>(
    projection: ResponseModel,
    store: S,
    entries: Seq<RuntimeClientTranscriptEntry>,
    i: int,
)
    requires
        0 <= i < entries.len(),
        entries[i].completed_response is None,
        shown(projection.decorated(store, entries).entries[i]) is Some,
    ensures
        crate::response::can_close(entries[i].item),
        crate::response::owner_of(entries[i].item) matches Some(id) && shown(
            projection.decorated(store, entries).entries[i],
        ) == Some(id@),
    decreases entries.len(),
{
    let front = entries.drop_last();
    let before = projection.decorated(store, front);
    lemma_decoration_keeps_items(projection, store, front);
    lemma_decoration_keeps_items(projection, store, entries);
    if i < front.len() {
        assert(projection.decorated(store, entries).entries[i] == before.entries[i]);
        lemma_shown_at_closing(projection, store, front, i);
    } else {
        let owner = crate::response::owner_of(entries[i].item);
        crate::search::lemma_position(
            before.completed,
            crate::evidence::closes(owner->Some_0@),
        );
    }
}

/// What reports add up to, in their order.
pub open spec fn usage_of(reports: Seq<ModelUsage>) -> Option<ModelUsage> {
    reports.fold_left(
        None,
        |total: Option<ModelUsage>, usage: ModelUsage| crate::evidence::with_usage(total, usage),
    )
}

/// The order of usage reports does not matter.
pub proof fn law_the_order_of_reports_does_not_matter(
    reports: Seq<ModelUsage>,
    others: Seq<ModelUsage>,
)
    requires
        reports.to_multiset() == others.to_multiset(),
    ensures
        usage_of(reports) == usage_of(others),
{
    let adding = |total: Option<ModelUsage>, usage: ModelUsage|
        crate::evidence::with_usage(total, usage);
    assert forall|x: ModelUsage, y: ModelUsage, total: Option<ModelUsage>| #[trigger]
        adding(adding(total, x), y) == adding(adding(total, y), x) by {
        assert(adding(adding(total, x), y)->Some_0.details == adding(
            adding(total, y),
            x,
        )->Some_0.details);
    }
    vstd::seq_lib::lemma_fold_left_permutation(reports, others, adding, None);
}

/// A total is unknown only where nothing was reported, and a part of it is known exactly
/// where every report has that part.
pub proof fn law_a_total_knows_what_every_report_knows(reports: Seq<ModelUsage>)
    ensures
        usage_of(reports) is None <==> reports.len() == 0,
        usage_of(reports) matches Some(total) ==> {
            &&& total.details is Some <==> forall|i: int|
                0 <= i < reports.len() ==> (#[trigger] reports[i]).details is Some
            &&& total.details matches Some(details) ==> {
                &&& details.reasoning_tokens is Some <==> forall|i: int|
                    0 <= i < reports.len() ==> ((#[trigger] reports[i]).details matches Some(part)
                        && part.reasoning_tokens is Some)
                &&& details.cached_input_tokens is Some <==> forall|i: int|
                    0 <= i < reports.len() ==> ((#[trigger] reports[i]).details matches Some(part)
                        && part.cached_input_tokens is Some)
            }
        },
    decreases reports.len(),
{
    if reports.len() > 0 {
        let front = reports.drop_last();
        law_a_total_knows_what_every_report_knows(front);
        let last = reports.last();
        assert(reports[reports.len() - 1] == last);
        assert forall|i: int| 0 <= i < front.len() implies #[trigger] front[i] == reports[i] by {}
        assert forall|i: int| 0 <= i < front.len() implies front[i] == #[trigger] reports[i] by {}
        assert(usage_of(reports) == crate::evidence::with_usage(usage_of(front), last));
    }
}

/// The arithmetic sum of a part of reports.
pub open spec fn sum_over(reports: Seq<ModelUsage>, part: spec_fn(ModelUsage) -> nat) -> nat
    decreases reports.len(),
{
    if reports.len() == 0 {
        0
    } else {
        sum_over(reports.drop_last(), part) + part(reports.last())
    }
}

/// A number, as far as the range of a total goes.
pub open spec fn capped(sum: nat) -> nat {
    if sum > u64::MAX {
        u64::MAX as nat
    } else {
        sum
    }
}

/// A total is the sum of the reports, part by part: of the input tokens, of the output tokens,
/// of all tokens, and of every detail that is known. A sum that leaves its range stays at the
/// end of it.
pub proof fn law_a_total_is_the_sum_of_its_reports(reports: Seq<ModelUsage>)
    ensures
        usage_of(reports) is Some <==> reports.len() > 0,
        usage_of(reports) matches Some(total) ==> {
            &&& total.input_tokens == capped(
                sum_over(reports, |usage: ModelUsage| usage.input_tokens as nat),
            )
            &&& total.output_tokens == capped(
                sum_over(reports, |usage: ModelUsage| usage.output_tokens as nat),
            )
            &&& total.total_tokens == capped(
                sum_over(reports, |usage: ModelUsage| usage.total_tokens as nat),
            )
            &&& total.details matches Some(details) ==> {
                &&& details.reasoning_tokens matches Some(tokens) ==> tokens == capped(
                    sum_over(
                        reports,
                        |usage: ModelUsage|
                            usage.details->Some_0.reasoning_tokens->Some_0 as nat,
                    ),
                )
                &&& details.cached_input_tokens matches Some(tokens) ==> tokens == capped(
                    sum_over(
                        reports,
                        |usage: ModelUsage|
                            usage.details->Some_0.cached_input_tokens->Some_0 as nat,
                    ),
                )
            }
        },
    decreases reports.len(),
{
    if reports.len() > 0 {
        let front = reports.drop_last();
        let last = reports.last();
        law_a_total_is_the_sum_of_its_reports(front);
        assert(usage_of(reports) == crate::evidence::with_usage(usage_of(front), last));
        if front.len() == 0 {
            assert(usage_of(front) is None);
        } else {
            law_a_total_knows_what_every_report_knows(front);
        }
    }
}

} // verus!
