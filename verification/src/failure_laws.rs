//! Laws of reads that fail: a failure is the store's own, and ends what it meets.
use std::sync::Arc;

use vstd::prelude::*;

#[allow(unused_imports)]
use crate::evidence::FoldModel;
#[allow(unused_imports)]
use crate::identity::{MessageId, RequestId};
#[allow(unused_imports)]
use crate::journal::RuntimeEventEnvelope;
#[allow(unused_imports)]
use crate::message::MessageBlock;
#[allow(unused_imports)]
use crate::response::{ConversationStatistics, ResponseModel};
#[allow(unused_imports)]
use crate::snapshot::{RuntimeClientTranscriptEntry, TranscriptPageModel};
#[allow(unused_imports)]
use crate::store::{ConversationStore, ProvenanceModel, StoreFailure, StoreRead};

verus! {

/// Whether a failure is that of a read.
pub open spec fn comes_from_a_read<S: ConversationStore>(store: S, failure: StoreFailure) -> bool {
    exists|read: StoreRead| #[trigger] store.failure(read) == Some(failure)
}

proof fn lemma_retry_failure<S: ConversationStore>(store: S, failure: StoreFailure)
    ensures
        forall|request: Option<RequestId>|
            #[trigger] crate::evidence::retry_input(store, request) == Err::<
                Option<MessageId>,
                StoreFailure,
            >(failure) ==> comes_from_a_read(store, failure),
{
}

proof fn lemma_fact_failure<S: ConversationStore>(
    store: S,
    wanted: Seq<MessageId>,
    state: FoldModel,
    envelope: Arc<RuntimeEventEnvelope>,
    failure: StoreFailure,
)
    requires
        state.with_fact(store, wanted, *envelope) == Err::<FoldModel, StoreFailure>(failure),
    ensures
        comes_from_a_read(store, failure),
{
    lemma_retry_failure(store, failure);
}

proof fn lemma_facts_failure<S: ConversationStore>(
    store: S,
    wanted: Seq<MessageId>,
    state: FoldModel,
    facts: Seq<Arc<RuntimeEventEnvelope>>,
    failure: StoreFailure,
)
    requires
        state.with_facts(store, wanted, facts) == Err::<FoldModel, StoreFailure>(failure),
    ensures
        comes_from_a_read(store, failure),
    decreases facts.len(),
{
    let front = facts.drop_last();
    match state.with_facts(store, wanted, front) {
        Err(_) => {
            lemma_facts_failure(store, wanted, state, front, failure);
        },
        Ok(before) => {
            lemma_fact_failure(store, wanted, before, facts.last(), failure);
        },
    }
}

proof fn lemma_scan_failure<S: ConversationStore>(
    store: S,
    wanted: Seq<MessageId>,
    through: u64,
    after: u64,
    state: FoldModel,
    failure: StoreFailure,
)
    requires
        crate::response::scanned(store, wanted, through, after, state) == Err::<
            FoldModel,
            StoreFailure,
        >(failure),
    ensures
        comes_from_a_read(store, failure),
    decreases through - after,
{
    if store.failure(StoreRead::Events { after, through }) is None {
        let page = crate::response::next_page(store.journal(), after, through);
        crate::response::lemma_page_within(store.journal(), after, through);
        match state.with_facts(store, wanted, page) {
            Err(_) => {
                lemma_facts_failure(store, wanted, state, page, failure);
            },
            Ok(next) => {
                lemma_scan_failure(store, wanted, through, page.last().sequence, next, failure);
            },
        }
    }
}

/// What is known of messages fails only as a read fails, with the failure of that read. Where
/// no read fails it is known.
pub proof fn law_only_a_read_fails<S: ConversationStore>(
    store: S,
    wanted: Seq<MessageId>,
    through: u64,
)
    ensures
        crate::response::projected(store, wanted, through) matches Err(failure)
            ==> comes_from_a_read(store, failure),
        (forall|read: StoreRead| #[trigger] store.failure(read) is None)
            ==> crate::response::projected(store, wanted, through) is Ok,
        store.failure(StoreRead::Inherited) matches Some(failure) ==> crate::response::projected(
            store,
            wanted,
            through,
        ) == Err::<ResponseModel, StoreFailure>(failure),
{
    if let Err(failure) = crate::response::projected(store, wanted, through) {
        if store.failure(StoreRead::Inherited) is None {
            let completed = crate::page_laws::asked_of(store, wanted);
            let start = FoldModel {
                attempts: Seq::empty(),
                completed,
                processes: crate::response::entries_of(completed, wanted),
                statistics: ConversationStatistics::none(),
            };
            lemma_scan_failure(store, wanted, through, 0, start, failure);
        }
    }
}

/// Whether nothing is shown of an entry but the entry itself.
pub open spec fn shows_nothing(
    shown: RuntimeClientTranscriptEntry,
    entry: RuntimeClientTranscriptEntry,
) -> bool {
    &&& shown.item == entry.item
    &&& shown.cursor == entry.cursor
    &&& shown.completed_response is None
    &&& shown.completed_process is None
    &&& !shown.response_pending
}

proof fn lemma_where_it_failed<S: ConversationStore>(
    projection: ResponseModel,
    store: S,
    entries: Seq<RuntimeClientTranscriptEntry>,
) -> (place: int)
    requires
        projection.decorated(store, entries).failure is Some,
        forall|i: int|
            0 <= i < entries.len() ==> shows_nothing(#[trigger] entries[i], entries[i]),
    ensures
        0 <= place < entries.len(),
        crate::response::can_close(entries[place].item),
        projection.decorated(store, entries).entries.len() == entries.len(),
        projection.decorated(store, entries).entries[place].completed_response is None,
        forall|i: int|
            place < i < entries.len() ==> shows_nothing(
                #[trigger] projection.decorated(store, entries).entries[i],
                entries[i],
            ),
    decreases entries.len(),
{
    let front = entries.drop_last();
    let before = projection.decorated(store, front);
    let after = projection.decorated(store, entries);
    crate::response::lemma_one_entry_each(projection, store, entries);
    crate::response::lemma_one_entry_each(projection, store, front);
    assert(entries[entries.len() - 1] == entries.last());
    if before.failure is Some {
        assert forall|i: int| 0 <= i < front.len() implies shows_nothing(
            #[trigger] front[i],
            front[i],
        ) by {
            assert(front[i] == entries[i]);
        }
        let place = lemma_where_it_failed(projection, store, front);
        assert(front[place] == entries[place]);
        assert forall|i: int| place < i < entries.len() implies shows_nothing(
            #[trigger] after.entries[i],
            entries[i],
        ) by {
            if i < front.len() {
                assert(after.entries[i] == before.entries[i]);
                assert(front[i] == entries[i]);
            }
        }
        place
    } else {
        entries.len() - 1
    }
}

/// A page whose decoration fails shows nothing at any entry behind the one at which it failed,
/// and that one is a message which can close a response and shows none. The totals stay as they
/// were. Where it is not even known what the evidence says, no entry shows anything.
pub proof fn law_a_failure_ends_the_decoration<S: ConversationStore>(
    store: S,
    page: TranscriptPageModel,
    through: u64,
)
    requires
        crate::response::decorated_page(store, page, through).1 is Some,
    ensures
        ({
            let shown = crate::response::decorated_page(store, page, through).0;
            &&& shown.entries.len() == page.entries.len()
            &&& shown.statistics == page.statistics
            &&& shown.next_cursor == page.next_cursor
            &&& (exists|place: int|
                0 <= place < page.entries.len() && crate::response::can_close(
                    (#[trigger] page.entries[place]).item,
                ) && shown.entries[place].completed_response is None && forall|i: int|
                    place < i < page.entries.len() ==> shows_nothing(
                        #[trigger] shown.entries[i],
                        page.entries[i],
                    )) || (forall|i: int|
                0 <= i < page.entries.len() ==> shows_nothing(
                    #[trigger] shown.entries[i],
                    page.entries[i],
                ))
        }),
        crate::response::projected(
            store,
            crate::response::owners(page.entries),
            through,
        ) matches Err(failure) ==> crate::response::decorated_page(store, page, through).1 == Some(
            failure,
        ) && forall|i: int|
            0 <= i < page.entries.len() ==> shows_nothing(
                #[trigger] crate::response::decorated_page(store, page, through).0.entries[i],
                page.entries[i],
            ),
{
    let entries = crate::response::all_bare(page.entries);
    let shown = crate::response::decorated_page(store, page, through).0;
    if let Ok(projection) = crate::response::projected(
        store,
        crate::response::owners(page.entries),
        through,
    ) {
        let place = lemma_where_it_failed(projection, store, entries);
        assert(crate::response::can_close(page.entries[place].item));
        assert forall|i: int| place < i < page.entries.len() implies shows_nothing(
            #[trigger] shown.entries[i],
            page.entries[i],
        ) by {
            assert(shows_nothing(shown.entries[i], entries[i]));
        }
    }
}

/// A response is shown unless a read fails or the record does not hold its closing message, and
/// the failure says which.
pub proof fn law_a_response_is_shown_if_it_can_be<S: ConversationStore>(
    store: S,
    response: ProvenanceModel,
)
    ensures
        crate::response::response_view(store, response) matches Err(failure) ==> comes_from_a_read(
            store,
            failure,
        ) || (store.append_revision(response.closing_message_id@) is None && failure
            == StoreFailure::InvalidReference(
            "Completed response has no canonical Surface append"@,
        )),
        (forall|read: StoreRead| #[trigger] store.failure(read) is None)
            && store.append_revision(response.closing_message_id@) is Some
            ==> crate::response::response_view(store, response) is Ok,
{
    if let Some(input) = response.retry_message_id {
        let read = StoreRead::Messages { id: input@ };
        assert(store.failure(read) is None || store.failure(read) is Some);
    }
    let read = StoreRead::AppendRevision { id: response.closing_message_id@ };
    assert(store.failure(read) is None || store.failure(read) is Some);
}

/// A page asks for the messages that its entries belong to, and for no other. A line of messages
/// asks for those that the assistant wrote, and for no other.
pub proof fn law_what_is_there_is_asked_for(
    entries: Seq<RuntimeClientTranscriptEntry>,
    messages: Seq<Arc<MessageBlock>>,
    id: Seq<char>,
)
    ensures
        crate::evidence::names(crate::response::owners(entries), id) <==> exists|i: int|
            0 <= i < entries.len() && (crate::response::owner_of(
                (#[trigger] entries[i]).item,
            ) matches Some(owner) && owner@ == id),
        crate::evidence::names(crate::response::assistant_ids(messages), id) <==> exists|i: int|
            0 <= i < messages.len() && (*(#[trigger] messages[i]) matches MessageBlock::Assistant(
                written,
            ) && written.id@ == id),
    decreases entries.len() + messages.len(),
{
    if entries.len() > 0 {
        let front = entries.drop_last();
        law_what_is_there_is_asked_for(front, Seq::empty(), id);
        assert(entries[entries.len() - 1] == entries.last());
        assert(forall|i: int| 0 <= i < front.len() ==> #[trigger] front[i] == entries[i]);
        assert(forall|i: int| 0 <= i < front.len() ==> front[i] == #[trigger] entries[i]);
        if let Some(owner) = crate::response::owner_of(entries.last().item) {
            crate::page_laws::lemma_names_of_push(crate::response::owners(front), owner, id);
        }
    }
    if messages.len() > 0 {
        let front = messages.drop_last();
        law_what_is_there_is_asked_for(Seq::empty(), front, id);
        assert(messages[messages.len() - 1] == messages.last());
        assert(forall|i: int| 0 <= i < front.len() ==> #[trigger] front[i] == messages[i]);
        assert(forall|i: int| 0 <= i < front.len() ==> front[i] == #[trigger] messages[i]);
        assert forall|written: MessageId|
            #![trigger crate::response::assistant_ids(front).push(written)]
            crate::evidence::names(crate::response::assistant_ids(front).push(written), id)
                <==> crate::evidence::names(crate::response::assistant_ids(front), id) || written@
                == id by {
            crate::page_laws::lemma_names_of_push(
                crate::response::assistant_ids(front),
                written,
                id,
            );
        }
    }
}

} // verus!
