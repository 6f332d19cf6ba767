//! Laws of a record that is kept in memory.
use std::sync::Arc;

use vstd::prelude::*;

#[allow(unused_imports)]
use crate::journal::SurfaceRevision;
#[allow(unused_imports)]
use crate::memory::{MemoryConversationStore, RecordModel};
#[allow(unused_imports)]
use crate::message::MessageBlock;
#[allow(unused_imports)]
use crate::snapshot::{RuntimeClientTranscriptCursor, RuntimeClientTranscriptItem};
#[allow(unused_imports)]
use crate::store::{ConversationStore, StoreFailure, StoreRead};

verus! {

/// A message that is appended is canonical, comes last in the sequence, and is known by the
/// version that first held it. To compact replaces the whole sequence by the summary. Earlier
/// versions and earlier messages stay as they are.
pub proof fn law_a_message_is_appended_once(record: RecordModel, message: Arc<MessageBlock>)
    requires
        record.surfaces.len() > 0,
        record.has_room(),
    ensures
        ({
            let appended = record.with_message(message);
            let compacted = record.compacted(message);
            &&& appended.surfaces.last() == record.surfaces.last() + seq![message]
            &&& compacted.surfaces.last() == seq![message]
            &&& appended.canonical == compacted.canonical
            &&& appended.canonical.len() == record.canonical.len() + 1
            &&& appended.canonical.last().message == message
            &&& appended.canonical.last().revision == appended.head()
            &&& appended.head().value == record.head().value + 1
            &&& forall|i: int|
                0 <= i < record.canonical.len() ==> #[trigger] appended.canonical[i]
                    == record.canonical[i]
            &&& appended.surfaces.len() == record.surfaces.len() + 1
            &&& compacted.surfaces.len() == record.surfaces.len() + 1
            &&& forall|i: int|
                0 <= i < record.surfaces.len() ==> #[trigger] appended.surfaces[i]
                    == record.surfaces[i]
            &&& forall|i: int|
                0 <= i < record.surfaces.len() ==> #[trigger] compacted.surfaces[i]
                    == record.surfaces[i]
            &&& appended.journal == record.journal
            &&& compacted.journal == record.journal
            &&& appended.requests == record.requests
            &&& compacted.requests == record.requests
            &&& appended.inherited == record.inherited
            &&& compacted.inherited == record.inherited
        }),
{
    assert(record.surfaces.last().push(message) =~= record.surfaces.last() + seq![message]);
}

/// A page of the transcript holds the newest canonical messages before a position, oldest
/// first, each with its own position and nothing known of it yet. It is full unless it reaches
/// back to the first message.
pub proof fn law_a_page_holds_the_newest_messages(
    record: RecordModel,
    before: Option<RuntimeClientTranscriptCursor>,
    limit: nat,
)
    requires
        record.canonical.len() < u64::MAX,
    ensures
        ({
            let page = record.transcript_page(before, limit);
            let end = match before {
                Some(position) if 0 < position.value <= record.canonical.len() => position.value
                    - 1,
                Some(position) if position.value == 0 => 0,
                _ => record.canonical.len() as int,
            };
            let count = page.entries.len() as int;
            &&& count <= limit
            &&& count <= end
            &&& count == limit || count == end
            &&& forall|i: int|
                0 <= i < count ==> {
                    let entry = #[trigger] page.entries[i];
                    &&& entry.cursor.value == end - count + i + 1
                    &&& entry.item matches RuntimeClientTranscriptItem::Message { message }
                        && message == record.canonical[end - count + i].message
                    &&& entry.completed_response is None
                    &&& entry.completed_process is None
                    &&& !entry.response_pending
                }
            &&& page.next_cursor is None <==> count == end
            &&& page.next_cursor is Some ==> page.next_cursor->Some_0.value == end - count + 1
            &&& page.statistics is None
        }),
{
}

/// Whoever asks for page after page misses no message and sees none twice: the page from the
/// position that a page names ends right before that page begins.
pub proof fn law_pages_meet(
    record: RecordModel,
    before: Option<RuntimeClientTranscriptCursor>,
    limit: nat,
    next_limit: nat,
)
    requires
        record.canonical.len() < u64::MAX,
        limit > 0,
        next_limit > 0,
        record.transcript_page(before, limit).next_cursor is Some,
    ensures
        ({
            let page = record.transcript_page(before, limit);
            let next = record.transcript_page(page.next_cursor, next_limit);
            &&& page.entries.len() > 0
            &&& next.entries.len() > 0
            &&& next.entries.last().cursor.value + 1 == page.entries[0].cursor.value
        }),
{
    let page = record.transcript_page(before, limit);
    let next = record.transcript_page(page.next_cursor, next_limit);
    law_a_page_holds_the_newest_messages(record, before, limit);
    law_a_page_holds_the_newest_messages(record, page.next_cursor, next_limit);
    assert(page.entries[0].cursor.value > 0);
    assert(next.entries[next.entries.len() - 1] == next.entries.last());
}

/// What a record gives back is what was put there: under an identity every canonical message
/// that has it, in their order and nothing else; the version that first held a message that has
/// it; the version that a request saw. A request that was never recorded and a version that
/// never was are unknown, and no other read fails.
pub proof fn law_a_record_gives_back_what_it_holds(
    store: MemoryConversationStore,
    id: Seq<char>,
    place: int,
)
    ensures
        ({
            let record = store@;
            let found = store.messages(id);
            &&& forall|i: int|
                0 <= i < found.len() ==> crate::page_laws::identity_of(#[trigger] found[i]) == id
            &&& 0 <= place < record.canonical.len() && crate::page_laws::identity_of(
                record.canonical[place].message,
            ) == id ==> {
                &&& found.contains(record.canonical[place].message)
                &&& store.append_revision(id) is Some
                &&& (forall|i: int|
                    0 <= i < place ==> crate::page_laws::identity_of(
                        (#[trigger] record.canonical[i]).message,
                    ) != id) ==> store.append_revision(id) == Some(record.canonical[place].revision)
            }
            &&& (forall|i: int|
                0 <= i < record.canonical.len() ==> crate::page_laws::identity_of(
                    (#[trigger] record.canonical[i]).message,
                ) != id) ==> store.append_revision(id) is None
            &&& 0 <= place < record.requests.len() && record.requests[place].id@ == id && (forall|
                i: int,
            |
                0 <= i < place ==> (#[trigger] record.requests[i]).id@ != id) ==> {
                &&& store.failure(StoreRead::Request { request_id: id }) is None
                &&& store.request_surface(id) == record.requests[place].revision
            }
            &&& (forall|i: int|
                0 <= i < record.requests.len() ==> (#[trigger] record.requests[i]).id@ != id)
                ==> store.failure(StoreRead::Request { request_id: id }) == Some(
                StoreFailure::UnknownRequest { request_id: id },
            )
            &&& store.frontier() == record.journal.len() as u64
            &&& store.owner() == record.conversation_id
            &&& store.inherited() == record.inherited
            &&& store.journal() == record.journal
        }),
        forall|revision: SurfaceRevision|
            #![trigger store.surface(revision)]
            revision.value < store@.surfaces.len() ==> store.failure(
                StoreRead::Surface { revision },
            ) is None && store.surface(revision) == store@.surfaces[revision.value as int],
        forall|revision: SurfaceRevision|
            #![trigger store.surface(revision)]
            revision.value >= store@.surfaces.len() ==> store.failure(
                StoreRead::Surface { revision },
            ) == Some(StoreFailure::UnknownSurface { revision }),
{
    let record = store@;
    let named = crate::memory::is_canonical(id);
    let kept = record.canonical.filter(named);
    let found = store.messages(id);
    crate::response::lemma_filter_keeps(record.canonical, named);
    assert forall|i: int| 0 <= i < found.len() implies crate::page_laws::identity_of(
        #[trigger] found[i],
    ) == id by {
        assert(found[i] == kept[i].message);
        assert(named(kept[i]));
    }
    assert forall|i: int| 0 <= i < record.canonical.len() implies named(
        #[trigger] record.canonical[i],
    ) == (crate::page_laws::identity_of(record.canonical[i].message) == id) by {}
    crate::search::lemma_position(record.canonical, named);
    crate::search::lemma_position(record.requests, crate::memory::is_request(id));
    if 0 <= place < record.canonical.len() && named(record.canonical[place]) {
        lemma_filter_holds(record.canonical, named, place);
        let k = choose|k: int| 0 <= k < kept.len() && kept[k] == record.canonical[place];
        assert(found[k] == record.canonical[place].message);
        if forall|i: int| 0 <= i < place ==> crate::page_laws::identity_of(
            (#[trigger] record.canonical[i]).message,
        ) != id {
            assert forall|i: int| 0 <= i < place implies !named(#[trigger] record.canonical[i]) by {
                assert(crate::page_laws::identity_of(record.canonical[i].message) != id);
            }
            crate::search::lemma_position_at(record.canonical, named, place);
        }
    }
    let asked = crate::memory::is_request(id);
    if 0 <= place < record.requests.len() && record.requests[place].id@ == id && (forall|i: int|
        0 <= i < place ==> (#[trigger] record.requests[i]).id@ != id) {
        crate::search::lemma_position_at(record.requests, asked, place);
    }
}

proof fn lemma_filter_holds<T>(items: Seq<T>, test: spec_fn(T) -> bool, place: int)
    requires
        0 <= place < items.len(),
        test(items[place]),
    ensures
        exists|k: int| 0 <= k < items.filter(test).len() && items.filter(test)[k] == items[place],
    decreases items.len(),
{
    reveal(Seq::filter);
    let front = items.drop_last();
    let kept = front.filter(test);
    if place < front.len() {
        lemma_filter_holds(front, test, place);
        let k = choose|k: int| 0 <= k < kept.len() && kept[k] == front[place];
        assert(items.filter(test)[k] == items[place]);
    } else {
        assert(items.filter(test)[kept.len() as int] == items[place]);
    }
}

} // verus!
