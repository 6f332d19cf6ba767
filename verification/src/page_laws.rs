//! Laws of a page of the transcript: what its entries show, and that the page does not change
//! it.
//!
//! A page asks for the messages it holds, so two pages fold the same journal with different
//! questions. What is known of one message is the same in both folds, as long as both ask
//! for it.
use std::sync::Arc;

use vstd::prelude::*;

#[allow(unused_imports)]
use crate::clock::Timestamp;
#[allow(unused_imports)]
use crate::evidence::{EvidenceModel, FoldModel, ProcessEntry};
#[allow(unused_imports)]
use crate::identity::{AttemptId, MessageId};
#[allow(unused_imports)]
use crate::journal::{RuntimeEvent, RuntimeEventEnvelope};
#[allow(unused_imports)]
use crate::message::{InboundKind, MessageBlock};
#[allow(unused_imports)]
use crate::response::{
    CompletedProcessView, CompletedResponseView, ConversationStatistics, ResponseModel,
    ResponseOrigin,
};
#[allow(unused_imports)]
use crate::snapshot::{
    RuntimeClientTranscriptEntry, RuntimeClientTranscriptItem, TranscriptPageModel,
};
#[allow(unused_imports)]
use crate::store::{ConversationStore, ProvenanceModel};

verus! {

/// The first item that passes a test.
pub open spec fn first<T>(items: Seq<T>, test: spec_fn(T) -> bool) -> Option<T> {
    match crate::search::position(items, test) {
        Some(index) => Some(items[index]),
        None => None,
    }
}

/// An item that passes a test behind none that does is the first.
pub(crate) proof fn lemma_first_at<T>(items: Seq<T>, test: spec_fn(T) -> bool, index: int)
    requires
        0 <= index < items.len(),
        test(items[index]),
        forall|i: int| 0 <= i < index ==> !test(#[trigger] items[i]),
    ensures
        first(items, test) == Some(items[index]),
{
    crate::search::lemma_position_at(items, test, index);
}

/// To put an item that fails a test in the place of one that fails it leaves the first that
/// passes.
pub(crate) proof fn lemma_first_of_update<T>(items: Seq<T>, index: int, item: T, test: spec_fn(T) -> bool)
    requires
        0 <= index < items.len(),
        !test(items[index]),
        !test(item),
    ensures
        first(items.update(index, item), test) == first(items, test),
{
    let after = items.update(index, item);
    crate::search::lemma_position(items, test);
    match crate::search::position(items, test) {
        Some(found) => {
            assert forall|i: int| 0 <= i < found implies !test(#[trigger] after[i]) by {
                assert(!test(items[i]));
            }
            lemma_first_at(after, test, found);
        },
        None => {
            assert forall|i: int| 0 <= i < after.len() implies !test(#[trigger] after[i]) by {
                assert(!test(items[i]));
            }
            crate::search::lemma_position_none(after, test);
        },
    }
}

/// To put an item that fails a test behind others leaves the first that passes.
pub(crate) proof fn lemma_first_of_push<T>(items: Seq<T>, item: T, test: spec_fn(T) -> bool)
    requires
        !test(item),
    ensures
        first(items.push(item), test) == first(items, test),
{
    let after = items.push(item);
    crate::search::lemma_position(items, test);
    match crate::search::position(items, test) {
        Some(found) => {
            assert forall|i: int| 0 <= i < found implies !test(#[trigger] after[i]) by {
                assert(!test(items[i]));
            }
            lemma_first_at(after, test, found);
        },
        None => {
            assert forall|i: int| 0 <= i < after.len() implies !test(#[trigger] after[i]) by {
                if i < items.len() {
                    assert(!test(items[i]));
                }
            }
            crate::search::lemma_position_none(after, test);
        },
    }
}

/// To remove an item that fails a test leaves the first that passes.
pub(crate) proof fn lemma_first_of_remove<T>(items: Seq<T>, index: int, test: spec_fn(T) -> bool)
    requires
        0 <= index < items.len(),
        !test(items[index]),
    ensures
        first(items.remove(index), test) == first(items, test),
{
    let after = items.remove(index);
    crate::search::lemma_position(items, test);
    match crate::search::position(items, test) {
        Some(found) => {
            let place = if found < index {
                found
            } else {
                found - 1
            };
            assert forall|i: int| 0 <= i < place implies !test(#[trigger] after[i]) by {
                if i < index {
                    assert(!test(items[i]));
                } else {
                    assert(!test(items[i + 1]));
                }
            }
            lemma_first_at(after, test, place);
        },
        None => {
            assert forall|i: int| 0 <= i < after.len() implies !test(#[trigger] after[i]) by {
                if i < index {
                    assert(!test(items[i]));
                } else {
                    assert(!test(items[i + 1]));
                }
            }
            crate::search::lemma_position_none(after, test);
        },
    }
}

/// The completed attempt that entries give for a message.
pub open spec fn process_in(entries: Seq<ProcessEntry>, id: Seq<char>) -> Option<
    CompletedProcessView,
> {
    match first(entries, crate::evidence::is_entry(id)) {
        Some(entry) => Some(entry.process),
        None => None,
    }
}

pub(crate) proof fn lemma_process_after_members(
    processes: Seq<ProcessEntry>,
    members: Seq<MessageId>,
    process: CompletedProcessView,
    id: Seq<char>,
)
    ensures
        process_in(crate::evidence::with_processes(processes, members, process), id)
            == if crate::evidence::names(members, id) {
            Some(process)
        } else {
            process_in(processes, id)
        },
    decreases members.len(),
{
    if members.len() > 0 {
        let front = members.drop_last();
        let last = members.last();
        lemma_process_after_members(processes, front, process, id);
        assert(members[members.len() - 1] == last);
        if crate::evidence::names(front, id) {
            let k = choose|k: int| 0 <= k < front.len() && (#[trigger] front[k])@ == id;
            assert(members[k]@ == id);
        } else if crate::evidence::names(members, id) {
            let k = choose|k: int| 0 <= k < members.len() && (#[trigger] members[k])@ == id;
            if k < front.len() {
                assert(front[k]@ == id);
            }
        }
        let before = crate::evidence::with_processes(processes, front, process);
        let test = crate::evidence::is_entry(last@);
        let asked = crate::evidence::is_entry(id);
        let entry = ProcessEntry { id: last, process };
        let after = crate::search::upsert(before, test, entry);
        crate::search::lemma_position(before, test);
        match crate::search::position(before, test) {
            Some(index) => {
                if last@ == id {
                    assert forall|i: int| 0 <= i < index implies !asked(#[trigger] after[i]) by {
                        assert(!test(before[i]));
                    }
                    lemma_first_at(after, asked, index);
                } else {
                    lemma_first_of_update(before, index, entry, asked);
                }
            },
            None => {
                if last@ == id {
                    assert forall|i: int| 0 <= i < before.len() implies !asked(
                        #[trigger] after[i],
                    ) by {
                        assert(!test(before[i]));
                    }
                    lemma_first_at(after, asked, before.len() as int);
                } else {
                    lemma_first_of_push(before, entry, asked);
                }
            },
        }
    }
}

pub(crate) proof fn lemma_other_response_is_found(
    responses: Seq<ProvenanceModel>,
    response: ProvenanceModel,
    id: Seq<char>,
)
    requires
        crate::search::apart(responses, crate::response_laws::closes_another()),
        response.closing_message_id@ != id,
    ensures
        first(crate::evidence::with_response(responses, response), crate::evidence::closes(id))
            == first(responses, crate::evidence::closes(id)),
{
    let differ = crate::response_laws::closes_another();
    let own = crate::evidence::closes(response.closing_message_id@);
    let asked = crate::evidence::closes(id);
    let after = crate::evidence::with_response(responses, response);
    crate::search::lemma_position(responses, own);
    match crate::search::position(responses, own) {
        Some(index) => {
            lemma_first_of_update(responses, index, response, asked);
        },
        None => {
            let all = responses.push(response);
            lemma_first_of_push(responses, response, asked);
            assert forall|i: int, j: int| 0 <= i < j < all.len() implies differ(
                #[trigger] all[i],
                #[trigger] all[j],
            ) by {
                if j < responses.len() {
                    assert(differ(responses[i], responses[j]));
                } else {
                    assert(!own(responses[i]));
                }
            }
            crate::search::lemma_ordered_keeps_apart(
                all,
                crate::evidence::response_order(),
                differ,
            );
            crate::search::lemma_position(all, asked);
            crate::search::lemma_position(after, asked);
            match crate::search::position(all, asked) {
                Some(index) => {
                    assert(after.contains(all[index]));
                    let k = choose|k: int| 0 <= k < after.len() && after[k] == all[index];
                    assert(asked(after[k]));
                    let found = crate::search::position(after, asked)->Some_0;
                    if found < k {
                        assert(differ(after[found], after[k]));
                    }
                },
                None => {
                    if let Some(found) = crate::search::position(after, asked) {
                        assert(all.contains(after[found]));
                        let k = choose|k: int| 0 <= k < all.len() && all[k] == after[found];
                        assert(!asked(all[k]));
                    }
                },
            }
        },
    }
}

/// The last response that a message closes.
pub open spec fn last_closing(responses: Seq<ProvenanceModel>, id: Seq<char>) -> Option<
    ProvenanceModel,
>
    decreases responses.len(),
{
    if responses.len() == 0 {
        None
    } else if responses.last().closing_message_id@ == id {
        Some(responses.last())
    } else {
        last_closing(responses.drop_last(), id)
    }
}

proof fn lemma_last_closing(responses: Seq<ProvenanceModel>, id: Seq<char>)
    ensures
        last_closing(responses, id) matches Some(response) ==> response.closing_message_id@ == id
            && responses.contains(response),
    decreases responses.len(),
{
    if responses.len() > 0 {
        let front = responses.drop_last();
        lemma_last_closing(front, id);
        assert(responses[responses.len() - 1] == responses.last());
        if let Some(response) = last_closing(front, id) {
            if responses.last().closing_message_id@ != id {
                let k = choose|k: int| 0 <= k < front.len() && front[k] == response;
                assert(responses[k] == response);
            }
        }
    }
}

proof fn lemma_filed_is_the_last(responses: Seq<ProvenanceModel>, id: Seq<char>)
    ensures
        first(crate::response::filed(responses), crate::evidence::closes(id)) == last_closing(
            responses,
            id,
        ),
    decreases responses.len(),
{
    if responses.len() > 0 {
        let front = responses.drop_last();
        lemma_filed_is_the_last(front, id);
        crate::response_laws::lemma_filed_apart(front);
        if responses.last().closing_message_id@ == id {
            crate::response_laws::law_a_filed_response_is_found(
                crate::response::filed(front),
                responses.last(),
            );
        } else {
            lemma_other_response_is_found(crate::response::filed(front), responses.last(), id);
        }
    }
}

/// Whether responses that one message closes belong to the same messages.
pub open spec fn one_process_each(responses: Seq<ProvenanceModel>) -> bool {
    forall|i: int, j: int|
        0 <= i < responses.len() && 0 <= j < responses.len() && (
        #[trigger] responses[i]).closing_message_id@ == (
        #[trigger] responses[j]).closing_message_id@ ==> responses[i].process_message_ids
            == responses[j].process_message_ids
}

proof fn lemma_last_closing_of_wanted(
    responses: Seq<ProvenanceModel>,
    wanted: Seq<MessageId>,
    id: Seq<char>,
)
    requires
        one_process_each(responses),
    ensures
        last_closing(responses.filter(crate::response::is_wanted(wanted)), id) == match last_closing(
            responses,
            id,
        ) {
            Some(response) if crate::response::is_wanted(wanted)(response) => Some(response),
            _ => None,
        },
    decreases responses.len(),
{
    reveal(Seq::filter);
    let test = crate::response::is_wanted(wanted);
    if responses.len() > 0 {
        let front = responses.drop_last();
        let last = responses.last();
        assert forall|i: int, j: int|
            0 <= i < front.len() && 0 <= j < front.len() && (
            #[trigger] front[i]).closing_message_id@ == (
            #[trigger] front[j]).closing_message_id@ implies front[i].process_message_ids
            == front[j].process_message_ids by {
            assert(front[i] == responses[i] && front[j] == responses[j]);
        }
        lemma_last_closing_of_wanted(front, wanted, id);
        if test(last) {
            let kept = front.filter(test);
            assert(responses.filter(test) == kept.push(last));
            assert(kept.push(last).drop_last() =~= kept);
        } else if last.closing_message_id@ == id {
            lemma_last_closing(front, id);
            if let Some(response) = last_closing(front, id) {
                let k = choose|k: int| 0 <= k < front.len() && front[k] == response;
                assert(responses[k] == response && responses[responses.len() - 1] == last);
                assert(test(response) == test(last));
            }
        }
    }
}

/// The last response that a message belongs to.
pub open spec fn last_with(responses: Seq<ProvenanceModel>, id: Seq<char>) -> Option<
    ProvenanceModel,
>
    decreases responses.len(),
{
    if responses.len() == 0 {
        None
    } else if crate::evidence::names(responses.last().process_message_ids, id) {
        Some(responses.last())
    } else {
        last_with(responses.drop_last(), id)
    }
}

proof fn lemma_last_with(responses: Seq<ProvenanceModel>, id: Seq<char>)
    ensures
        match last_with(responses, id) {
            Some(response) => exists|k: int|
                0 <= k < responses.len() && #[trigger] responses[k] == response
                    && crate::evidence::names(response.process_message_ids, id) && forall|j: int|
                    k < j < responses.len() ==> !crate::evidence::names(
                        (#[trigger] responses[j]).process_message_ids,
                        id,
                    ),
            None => forall|j: int|
                0 <= j < responses.len() ==> !crate::evidence::names(
                    (#[trigger] responses[j]).process_message_ids,
                    id,
                ),
        },
    decreases responses.len(),
{
    if responses.len() > 0 {
        let front = responses.drop_last();
        let last = responses.last();
        lemma_last_with(front, id);
        assert(responses[responses.len() - 1] == last);
        if !crate::evidence::names(last.process_message_ids, id) {
            match last_with(front, id) {
                Some(response) => {
                    let k = choose|k: int|
                        0 <= k < front.len() && #[trigger] front[k] == response
                            && crate::evidence::names(response.process_message_ids, id)
                            && forall|j: int|
                            k < j < front.len() ==> !crate::evidence::names(
                                (#[trigger] front[j]).process_message_ids,
                                id,
                            );
                    assert(responses[k] == response);
                    assert forall|j: int| k < j < responses.len() implies !crate::evidence::names(
                        (#[trigger] responses[j]).process_message_ids,
                        id,
                    ) by {
                        if j < front.len() {
                            assert(front[j] == responses[j]);
                        }
                    }
                },
                None => {
                    assert forall|j: int|
                        0 <= j < responses.len() implies !crate::evidence::names(
                        (#[trigger] responses[j]).process_message_ids,
                        id,
                    ) by {
                        if j < front.len() {
                            assert(front[j] == responses[j]);
                        }
                    }
                },
            }
        }
    }
}

proof fn lemma_wanted_members(ids: Seq<MessageId>, wanted: Seq<MessageId>, id: Seq<char>)
    requires
        crate::evidence::names(wanted, id),
    ensures
        crate::evidence::names(ids.filter(crate::response::is_wanted_message(wanted)), id)
            <==> crate::evidence::names(ids, id),
    decreases ids.len(),
{
    reveal(Seq::filter);
    let test = crate::response::is_wanted_message(wanted);
    if ids.len() > 0 {
        let front = ids.drop_last();
        lemma_wanted_members(front, wanted, id);
        lemma_names_of_push(front, ids.last(), id);
        lemma_names_of_push(front.filter(test), ids.last(), id);
        assert(ids =~= front.push(ids.last()));
    }
}

pub(crate) proof fn lemma_names_of_push(ids: Seq<MessageId>, last: MessageId, id: Seq<char>)
    ensures
        crate::evidence::names(ids.push(last), id) <==> crate::evidence::names(ids, id) || last@
            == id,
{
    let all = ids.push(last);
    if crate::evidence::names(ids, id) {
        let k = choose|k: int| 0 <= k < ids.len() && (#[trigger] ids[k])@ == id;
        assert(all[k]@ == id);
    }
    if last@ == id {
        assert(all[ids.len() as int]@ == id);
    }
    if crate::evidence::names(all, id) {
        let k = choose|k: int| 0 <= k < all.len() && (#[trigger] all[k])@ == id;
        if k < ids.len() {
            assert(ids[k]@ == id);
        }
    }
}

proof fn lemma_process_of_inherited(
    responses: Seq<ProvenanceModel>,
    wanted: Seq<MessageId>,
    id: Seq<char>,
)
    requires
        crate::evidence::names(wanted, id),
    ensures
        process_in(crate::response::entries_of(responses, wanted), id) == match last_with(
            responses,
            id,
        ) {
            Some(response) => Some(
                CompletedProcessView {
                    origin: response.origin,
                    final_message_id: response.closing_message_id,
                },
            ),
            None => None,
        },
    decreases responses.len(),
{
    if responses.len() > 0 {
        let front = responses.drop_last();
        let last = responses.last();
        lemma_process_of_inherited(front, wanted, id);
        lemma_wanted_members(last.process_message_ids, wanted, id);
        lemma_process_after_members(
            crate::response::entries_of(front, wanted),
            last.process_message_ids.filter(crate::response::is_wanted_message(wanted)),
            CompletedProcessView {
                origin: last.origin,
                final_message_id: last.closing_message_id,
            },
            id,
        );
    }
}

/// The order of responses is the strict part of a total preorder.
proof fn lemma_responses_are_ordered()
    ensures
        crate::search::is_order(crate::evidence::response_order()),
{
    let after = crate::evidence::response_order();
    assert forall|a: ProvenanceModel, b: ProvenanceModel| #[trigger] after(a, b) implies !after(
        b,
        a,
    ) by {
        lemma_texts_are_ordered(
            a.closing_message_id@,
            b.closing_message_id@,
            a.closing_message_id@,
        );
    }
    assert forall|a: ProvenanceModel, b: ProvenanceModel, c: ProvenanceModel|
        !#[trigger] after(a, b) && !#[trigger] after(b, c) implies !after(a, c) by {
        lemma_texts_are_ordered(
            a.closing_message_id@,
            b.closing_message_id@,
            c.closing_message_id@,
        );
    }
}

proof fn lemma_texts_are_ordered(a: Seq<char>, b: Seq<char>, c: Seq<char>)
    ensures
        crate::identity::text_precedes(b, a) ==> !crate::identity::text_precedes(a, b),
        !crate::identity::text_precedes(b, a) && !crate::identity::text_precedes(c, b)
            ==> !crate::identity::text_precedes(c, a),
        !crate::identity::text_precedes(b, a) && !crate::identity::text_precedes(a, b) ==> a == b,
{
    crate::identity::law_text_order_is_total(a, b, c);
    crate::identity::law_text_order_is_total(b, a, c);
    crate::identity::law_text_order_is_total(c, a, b);
    crate::identity::law_text_order_is_total(b, c, a);
    crate::identity::law_text_order_is_total(a, c, b);
    crate::identity::law_text_order_is_total(b, a, b);
}

proof fn lemma_filed_in_order(responses: Seq<ProvenanceModel>)
    ensures
        crate::search::in_order(
            crate::response::filed(responses),
            crate::evidence::response_order(),
        ),
    decreases responses.len(),
{
    if responses.len() > 0 {
        let after = crate::evidence::response_order();
        let before = crate::response::filed(responses.drop_last());
        let last = responses.last();
        let own = crate::evidence::closes(last.closing_message_id@);
        lemma_filed_in_order(responses.drop_last());
        lemma_responses_are_ordered();
        crate::search::lemma_position(before, own);
        match crate::search::position(before, own) {
            Some(index) => {
                let filed = before.update(index, last);
                assert forall|i: int, j: int| 0 <= i < j < filed.len() implies !after(
                    #[trigger] filed[i],
                    #[trigger] filed[j],
                ) by {
                    assert(!after(before[i], before[j]));
                }
            },
            None => {
                crate::search::law_ordered_is_a_sorted_rearrangement(before.push(last), after);
            },
        }
    }
}

/// The inherited responses that a page asks for, as they are filed.
pub open spec fn asked_of<S: ConversationStore>(store: S, wanted: Seq<MessageId>) -> Seq<
    ProvenanceModel,
> {
    crate::response::filed(store.inherited().filter(crate::response::is_wanted(wanted)))
}

/// A response that a message belongs to is filed wherever the message is asked for.
proof fn lemma_filed_wherever_asked<S: ConversationStore>(
    store: S,
    wanted: Seq<MessageId>,
    others: Seq<MessageId>,
    id: Seq<char>,
    k: int,
) -> (m: int)
    requires
        one_process_each(store.inherited()),
        crate::evidence::names(others, id),
        0 <= k < asked_of(store, wanted).len(),
        crate::evidence::names(asked_of(store, wanted)[k].process_message_ids, id),
    ensures
        0 <= m < asked_of(store, others).len(),
        asked_of(store, others)[m] == asked_of(store, wanted)[k],
{
    let inherited = store.inherited();
    let response = asked_of(store, wanted)[k];
    let closing = response.closing_message_id@;
    let closes = crate::evidence::closes(closing);
    let differ = crate::response_laws::closes_another();
    crate::response_laws::lemma_filed_apart(inherited.filter(crate::response::is_wanted(wanted)));
    assert forall|i: int| 0 <= i < k implies !closes(#[trigger] asked_of(store, wanted)[i]) by {
        assert(differ(asked_of(store, wanted)[i], asked_of(store, wanted)[k]));
    }
    lemma_first_at(asked_of(store, wanted), closes, k);
    lemma_filed_is_the_last(inherited.filter(crate::response::is_wanted(wanted)), closing);
    lemma_last_closing_of_wanted(inherited, wanted, closing);
    lemma_last_closing_of_wanted(inherited, others, closing);
    let named = choose|i: int|
        0 <= i < response.process_message_ids.len() && (
        #[trigger] response.process_message_ids[i])@ == id;
    assert(crate::evidence::names(others, response.process_message_ids[named]@));
    assert(crate::response::is_wanted(others)(response));
    lemma_filed_is_the_last(inherited.filter(crate::response::is_wanted(others)), closing);
    crate::search::lemma_position(asked_of(store, others), closes);
    crate::search::position(asked_of(store, others), closes)->Some_0
}

proof fn lemma_inherited_process_is_the_same<S: ConversationStore>(
    store: S,
    wanted: Seq<MessageId>,
    others: Seq<MessageId>,
    id: Seq<char>,
)
    requires
        one_process_each(store.inherited()),
        crate::evidence::names(wanted, id),
        crate::evidence::names(others, id),
    ensures
        last_with(asked_of(store, wanted), id) == last_with(asked_of(store, others), id),
{
    let a = asked_of(store, wanted);
    let b = asked_of(store, others);
    let after = crate::evidence::response_order();
    let differ = crate::response_laws::closes_another();
    lemma_last_with(a, id);
    lemma_last_with(b, id);
    lemma_filed_in_order(store.inherited().filter(crate::response::is_wanted(wanted)));
    lemma_filed_in_order(store.inherited().filter(crate::response::is_wanted(others)));
    crate::response_laws::lemma_filed_apart(
        store.inherited().filter(crate::response::is_wanted(others)),
    );
    match (last_with(a, id), last_with(b, id)) {
        (Some(x), Some(y)) => {
            let i = choose|k: int|
                0 <= k < a.len() && #[trigger] a[k] == x && crate::evidence::names(
                    x.process_message_ids,
                    id,
                ) && forall|j: int|
                    k < j < a.len() ==> !crate::evidence::names(
                        (#[trigger] a[j]).process_message_ids,
                        id,
                    );
            let j = choose|k: int|
                0 <= k < b.len() && #[trigger] b[k] == y && crate::evidence::names(
                    y.process_message_ids,
                    id,
                ) && forall|j: int|
                    k < j < b.len() ==> !crate::evidence::names(
                        (#[trigger] b[j]).process_message_ids,
                        id,
                    );
            let p = lemma_filed_wherever_asked(store, wanted, others, id, i);
            let q = lemma_filed_wherever_asked(store, others, wanted, id, j);
            assert(p <= j);
            assert(q <= i);
            if p < j {
                assert(!after(b[p], b[j]));
                if q < i {
                    assert(!after(a[q], a[i]));
                }
                lemma_texts_are_ordered(
                    x.closing_message_id@,
                    y.closing_message_id@,
                    x.closing_message_id@,
                );
                assert(differ(b[p], b[j]));
            }
        },
        (Some(x), None) => {
            let i = choose|k: int|
                0 <= k < a.len() && #[trigger] a[k] == x && crate::evidence::names(
                    x.process_message_ids,
                    id,
                ) && forall|j: int|
                    k < j < a.len() ==> !crate::evidence::names(
                        (#[trigger] a[j]).process_message_ids,
                        id,
                    );
            let p = lemma_filed_wherever_asked(store, wanted, others, id, i);
            assert(!crate::evidence::names(b[p].process_message_ids, id));
        },
        (None, Some(y)) => {
            let j = choose|k: int|
                0 <= k < b.len() && #[trigger] b[k] == y && crate::evidence::names(
                    y.process_message_ids,
                    id,
                ) && forall|j: int|
                    k < j < b.len() ==> !crate::evidence::names(
                        (#[trigger] b[j]).process_message_ids,
                        id,
                    );
            let q = lemma_filed_wherever_asked(store, others, wanted, id, j);
            assert(!crate::evidence::names(a[q].process_message_ids, id));
        },
        (None, None) => {},
    }
}

/// Whether two responses are the same but for the messages that were asked for.
pub open spec fn same_response(a: Option<ProvenanceModel>, b: Option<ProvenanceModel>) -> bool {
    match (a, b) {
        (Some(a), Some(b)) => a == ProvenanceModel {
            process_message_ids: a.process_message_ids,
            ..b
        },
        (None, None) => true,
        _ => false,
    }
}

/// Whether two states of the fold know the same of a message.
pub open spec fn knows_alike(a: FoldModel, b: FoldModel, id: Seq<char>) -> bool {
    &&& crate::response_laws::counts_alike(a, b)
    &&& forall|i: int|
        0 <= i < a.attempts.len() ==> (crate::evidence::names(
            (#[trigger] a.attempts[i]).members,
            id,
        ) <==> crate::evidence::names(b.attempts[i].members, id))
    &&& process_in(a.processes, id) == process_in(b.processes, id)
    &&& same_response(
        first(a.completed, crate::evidence::closes(id)),
        first(b.completed, crate::evidence::closes(id)),
    )
    &&& crate::search::apart(a.completed, crate::response_laws::closes_another())
    &&& crate::search::apart(b.completed, crate::response_laws::closes_another())
}

proof fn lemma_ordered_names(
    members: Seq<MessageId>,
    after: spec_fn(MessageId, MessageId) -> bool,
    id: Seq<char>,
)
    ensures
        crate::evidence::names(crate::search::ordered(members, after), id)
            <==> crate::evidence::names(members, id),
    decreases members.len(),
{
    if members.len() > 0 {
        let front = members.drop_last();
        lemma_ordered_names(front, after, id);
        lemma_inserted_names(crate::search::ordered(front, after), members.last(), after, id);
        lemma_names_of_push(front, members.last(), id);
        assert(members =~= front.push(members.last()));
    }
}

proof fn lemma_inserted_names(
    members: Seq<MessageId>,
    member: MessageId,
    after: spec_fn(MessageId, MessageId) -> bool,
    id: Seq<char>,
)
    ensures
        crate::evidence::names(crate::search::insert_ordered(members, member, after), id)
            <==> crate::evidence::names(members, id) || member@ == id,
    decreases members.len(),
{
    if members.len() > 0 && after(members.last(), member) {
        let front = members.drop_last();
        lemma_inserted_names(front, member, after, id);
        lemma_names_of_push(
            crate::search::insert_ordered(front, member, after),
            members.last(),
            id,
        );
        lemma_names_of_push(front, members.last(), id);
        assert(members =~= front.push(members.last()));
    } else {
        lemma_names_of_push(members, member, id);
    }
}

pub(crate) proof fn lemma_member_names(members: Seq<MessageId>, member: MessageId, id: Seq<char>)
    ensures
        crate::evidence::names(crate::evidence::with_member(members, member), id)
            <==> crate::evidence::names(members, id) || member@ == id,
{
    lemma_ordered_names(members.push(member), crate::search::places::<MessageId>(), id);
    lemma_names_of_push(members, member, id);
}

proof fn lemma_completion_knows_alike<S: ConversationStore>(
    store: S,
    a: FoldModel,
    b: FoldModel,
    wanted: Seq<MessageId>,
    others: Seq<MessageId>,
    attempt_id: AttemptId,
    timestamp: Timestamp,
    id: Seq<char>,
)
    requires
        knows_alike(a, b, id),
        crate::evidence::names(wanted, id),
        crate::evidence::names(others, id),
        a.attempt_completed(store, wanted, attempt_id, timestamp) is Ok,
        b.attempt_completed(store, others, attempt_id, timestamp) is Ok,
    ensures
        ({
            let x = a.attempt_completed(store, wanted, attempt_id, timestamp)->Ok_0;
            let y = b.attempt_completed(store, others, attempt_id, timestamp)->Ok_0;
            &&& process_in(x.processes, id) == process_in(y.processes, id)
            &&& same_response(
                first(x.completed, crate::evidence::closes(id)),
                first(y.completed, crate::evidence::closes(id)),
            )
        }),
{
    crate::response_laws::lemma_same_position(a, b, attempt_id@);
    crate::search::lemma_position(a.attempts, crate::evidence::is_attempt(attempt_id@));
    let ea = a.evidence(attempt_id);
    let eb = b.evidence(attempt_id);
    assert(crate::response_laws::same_but_members(ea, eb));
    assert(crate::evidence::names(ea.members, id) <==> crate::evidence::names(eb.members, id));
    if let Some(closing) = ea.closing {
        let origin = ResponseOrigin {
            conversation_id: store.owner(),
            attempt_id,
            closing_message_id: closing,
        };
        let process = CompletedProcessView { origin, final_message_id: closing };
        lemma_process_after_members(a.processes, ea.members, process, id);
        lemma_process_after_members(b.processes, eb.members, process, id);
        let retry = crate::evidence::retry_input(store, ea.last_request)->Ok_0;
        let ra = completed_response(ea, origin, closing, timestamp, retry);
        let rb = completed_response(eb, origin, closing, timestamp, retry);
        if closing@ == id {
            crate::response_laws::law_a_filed_response_is_found(a.completed, ra);
            crate::response_laws::law_a_filed_response_is_found(b.completed, rb);
        } else {
            lemma_other_response_is_found(a.completed, ra, id);
            lemma_other_response_is_found(b.completed, rb, id);
        }
    }
}

/// The response of an attempt that is completed.
spec fn completed_response(
    evidence: EvidenceModel,
    origin: ResponseOrigin,
    closing: MessageId,
    timestamp: Timestamp,
    retry_message_id: Option<MessageId>,
) -> ProvenanceModel {
    ProvenanceModel {
        process_message_ids: evidence.members,
        closing_message_id: closing,
        origin,
        completed_at: timestamp,
        timing: evidence.timing.summary(evidence.started_at, timestamp),
        retry_message_id,
        usage: if evidence.requests > 0 && evidence.requests == evidence.reports {
            evidence.usage
        } else {
            None
        },
    }
}

proof fn lemma_fact_names_alike<S: ConversationStore>(
    store: S,
    a: FoldModel,
    b: FoldModel,
    wanted: Seq<MessageId>,
    others: Seq<MessageId>,
    envelope: Arc<RuntimeEventEnvelope>,
    id: Seq<char>,
)
    requires
        knows_alike(a, b, id),
        crate::evidence::names(wanted, id),
        crate::evidence::names(others, id),
        a.with_fact(store, wanted, *envelope) is Ok,
        b.with_fact(store, others, *envelope) is Ok,
    ensures
        ({
            let x = a.with_fact(store, wanted, *envelope)->Ok_0.attempts;
            let y = b.with_fact(store, others, *envelope)->Ok_0.attempts;
            &&& x.len() == y.len()
            &&& forall|i: int|
                0 <= i < x.len() ==> (crate::evidence::names((#[trigger] x[i]).members, id)
                    <==> crate::evidence::names(y[i].members, id))
        }),
{
    if let Some(attempt_id) = envelope.attempt_id {
        let test = crate::evidence::is_attempt(attempt_id@);
        crate::response_laws::lemma_same_position(a, b, attempt_id@);
        crate::search::lemma_position(a.attempts, test);
        let ea = a.evidence(attempt_id);
        let eb = b.evidence(attempt_id);
        assert(crate::evidence::names(ea.members, id) <==> crate::evidence::names(
            eb.members,
            id,
        ));
        if let RuntimeEvent::AssistantMessageCommitted { message_id } = envelope.event {
            lemma_member_names(ea.members, message_id, id);
            lemma_member_names(eb.members, message_id, id);
        }
    }
}

proof fn lemma_fact_knows_alike<S: ConversationStore>(
    store: S,
    a: FoldModel,
    b: FoldModel,
    wanted: Seq<MessageId>,
    others: Seq<MessageId>,
    envelope: Arc<RuntimeEventEnvelope>,
    id: Seq<char>,
)
    requires
        knows_alike(a, b, id),
        crate::evidence::names(wanted, id),
        crate::evidence::names(others, id),
        a.with_fact(store, wanted, *envelope) is Ok,
        b.with_fact(store, others, *envelope) is Ok,
    ensures
        knows_alike(
            a.with_fact(store, wanted, *envelope)->Ok_0,
            b.with_fact(store, others, *envelope)->Ok_0,
            id,
        ),
{
    crate::response_laws::lemma_fact_counts_alike(store, store, a, b, wanted, others, envelope);
    crate::response_laws::lemma_fact_keeps_apart(store, wanted, a, envelope);
    crate::response_laws::lemma_fact_keeps_apart(store, others, b, envelope);
    lemma_fact_names_alike(store, a, b, wanted, others, envelope, id);
    if let RuntimeEvent::AttemptCompleted { finish_reason, .. } = envelope.event {
        if let Some(attempt_id) = envelope.attempt_id {
            if finish_reason is Stop || finish_reason is Refusal {
                lemma_completion_knows_alike(
                    store,
                    a,
                    b,
                    wanted,
                    others,
                    attempt_id,
                    envelope.timestamp,
                    id,
                );
            }
        }
    }
}

proof fn lemma_facts_know_alike<S: ConversationStore>(
    store: S,
    a: FoldModel,
    b: FoldModel,
    wanted: Seq<MessageId>,
    others: Seq<MessageId>,
    facts: Seq<Arc<RuntimeEventEnvelope>>,
    id: Seq<char>,
)
    requires
        knows_alike(a, b, id),
        crate::evidence::names(wanted, id),
        crate::evidence::names(others, id),
        a.with_facts(store, wanted, facts) is Ok,
        b.with_facts(store, others, facts) is Ok,
    ensures
        knows_alike(
            a.with_facts(store, wanted, facts)->Ok_0,
            b.with_facts(store, others, facts)->Ok_0,
            id,
        ),
    decreases facts.len(),
{
    if facts.len() > 0 {
        let front = facts.drop_last();
        lemma_facts_know_alike(store, a, b, wanted, others, front, id);
        lemma_fact_knows_alike(
            store,
            a.with_facts(store, wanted, front)->Ok_0,
            b.with_facts(store, others, front)->Ok_0,
            wanted,
            others,
            facts.last(),
            id,
        );
    }
}

proof fn lemma_scan_knows_alike<S: ConversationStore>(
    store: S,
    a: FoldModel,
    b: FoldModel,
    wanted: Seq<MessageId>,
    others: Seq<MessageId>,
    through: u64,
    after: u64,
    id: Seq<char>,
)
    requires
        knows_alike(a, b, id),
        crate::evidence::names(wanted, id),
        crate::evidence::names(others, id),
        crate::response::scanned(store, wanted, through, after, a) is Ok,
        crate::response::scanned(store, others, through, after, b) is Ok,
    ensures
        knows_alike(
            crate::response::scanned(store, wanted, through, after, a)->Ok_0,
            crate::response::scanned(store, others, through, after, b)->Ok_0,
            id,
        ),
    decreases through - after,
{
    let page = crate::response::next_page(store.journal(), after, through);
    if page.len() > 0 {
        crate::response::lemma_page_within(store.journal(), after, through);
        lemma_facts_know_alike(store, a, b, wanted, others, page, id);
        lemma_scan_knows_alike(
            store,
            a.with_facts(store, wanted, page)->Ok_0,
            b.with_facts(store, others, page)->Ok_0,
            wanted,
            others,
            through,
            page.last().sequence,
            id,
        );
    }
}

pub(crate) proof fn lemma_pending_names(attempts: Seq<EvidenceModel>, id: Seq<char>)
    ensures
        crate::evidence::names(crate::response::pending_messages(attempts), id) <==> exists|i: int|
            0 <= i < attempts.len() && crate::evidence::names((#[trigger] attempts[i]).members, id),
    decreases attempts.len(),
{
    if attempts.len() > 0 {
        let front = attempts.drop_last();
        lemma_pending_names(front, id);
        let before = crate::response::pending_messages(front);
        let members = attempts.last().members;
        let all = before + members;
        assert(attempts[attempts.len() - 1] == attempts.last());
        assert forall|i: int| 0 <= i < front.len() implies #[trigger] front[i] == attempts[i] by {}
        assert forall|i: int| 0 <= i < front.len() implies front[i] == #[trigger] attempts[i] by {}
        if crate::evidence::names(before, id) {
            let k = choose|k: int| 0 <= k < before.len() && (#[trigger] before[k])@ == id;
            assert(all[k]@ == id);
        }
        if crate::evidence::names(members, id) {
            let k = choose|k: int| 0 <= k < members.len() && (#[trigger] members[k])@ == id;
            assert(all[before.len() + k]@ == id);
        }
        if crate::evidence::names(all, id) {
            let k = choose|k: int| 0 <= k < all.len() && (#[trigger] all[k])@ == id;
            if k < before.len() {
                assert(before[k]@ == id);
            } else {
                assert(members[k - before.len()]@ == id);
            }
        }
    }
}

/// What the evidence says of one message does not depend on which other messages were asked
/// for: its completed attempt, whether its attempt has not ended, and the response that it
/// closes, but for which messages of the attempt are listed with that response.
pub proof fn law_a_message_is_known_alike<S: ConversationStore>(
    store: S,
    wanted: Seq<MessageId>,
    others: Seq<MessageId>,
    through: u64,
    id: MessageId,
)
    requires
        crate::evidence::names(wanted, id@),
        crate::evidence::names(others, id@),
        one_process_each(store.inherited()),
        crate::response::projected(store, wanted, through) is Ok,
        crate::response::projected(store, others, through) is Ok,
    ensures
        ({
            let a = crate::response::projected(store, wanted, through)->Ok_0;
            let b = crate::response::projected(store, others, through)->Ok_0;
            &&& a.process_of(Some(id)) == b.process_of(Some(id))
            &&& a.is_pending(Some(id)) == b.is_pending(Some(id))
            &&& same_response(
                first(a.completed, crate::evidence::closes(id@)),
                first(b.completed, crate::evidence::closes(id@)),
            )
            &&& a.statistics == b.statistics
        }),
{
    let completed_a = asked_of(store, wanted);
    let completed_b = asked_of(store, others);
    let a = FoldModel {
        attempts: Seq::empty(),
        completed: completed_a,
        processes: crate::response::entries_of(completed_a, wanted),
        statistics: ConversationStatistics::none(),
    };
    let b = FoldModel {
        attempts: Seq::empty(),
        completed: completed_b,
        processes: crate::response::entries_of(completed_b, others),
        statistics: ConversationStatistics::none(),
    };
    let inherited_a = store.inherited().filter(crate::response::is_wanted(wanted));
    let inherited_b = store.inherited().filter(crate::response::is_wanted(others));
    crate::response_laws::lemma_filed_apart(inherited_a);
    crate::response_laws::lemma_filed_apart(inherited_b);
    lemma_filed_is_the_last(inherited_a, id@);
    lemma_filed_is_the_last(inherited_b, id@);
    lemma_last_closing_of_wanted(store.inherited(), wanted, id@);
    lemma_last_closing_of_wanted(store.inherited(), others, id@);
    lemma_last_closing(store.inherited(), id@);
    lemma_process_of_inherited(completed_a, wanted, id@);
    lemma_process_of_inherited(completed_b, others, id@);
    lemma_inherited_process_is_the_same(store, wanted, others, id@);
    assert(knows_alike(a, b, id@));
    lemma_scan_knows_alike(store, a, b, wanted, others, through, 0, id@);
    let x = crate::response::scanned(store, wanted, through, 0, a)->Ok_0;
    let y = crate::response::scanned(store, others, through, 0, b)->Ok_0;
    lemma_pending_names(x.attempts, id@);
    lemma_pending_names(y.attempts, id@);
    if crate::evidence::names(crate::response::pending_messages(x.attempts), id@) {
        let i = choose|i: int|
            0 <= i < x.attempts.len() && crate::evidence::names(
                (#[trigger] x.attempts[i]).members,
                id@,
            );
        assert(crate::evidence::names(y.attempts[i].members, id@));
    }
    if crate::evidence::names(crate::response::pending_messages(y.attempts), id@) {
        let i = choose|i: int|
            0 <= i < y.attempts.len() && crate::evidence::names(
                (#[trigger] y.attempts[i]).members,
                id@,
            );
        assert(crate::evidence::names(x.attempts[i].members, id@));
    }
}

/// Whether an entry can close the response of a message.
pub open spec fn can_close_for(entry: RuntimeClientTranscriptEntry, id: Seq<char>) -> bool {
    crate::response::can_close(entry.item) && (crate::response::owner_of(entry.item) matches Some(
        owner,
    ) && owner@ == id)
}

/// Whether no entry before a place is the same message once more, as far as it can close a
/// response.
pub open spec fn comes_once(entries: Seq<RuntimeClientTranscriptEntry>, place: int) -> bool {
    crate::response::can_close(entries[place].item) ==> forall|i: int|
        0 <= i < place ==> !can_close_for(
            #[trigger] entries[i],
            crate::response::owner_of(entries[place].item)->Some_0@,
        )
}

proof fn lemma_owner_is_asked_for(entries: Seq<RuntimeClientTranscriptEntry>, place: int)
    requires
        0 <= place < entries.len(),
    ensures
        crate::response::owner_of(entries[place].item) matches Some(owner)
            ==> crate::evidence::names(crate::response::owners(entries), owner@),
    decreases entries.len(),
{
    let front = entries.drop_last();
    let before = crate::response::owners(front);
    if let Some(owner) = crate::response::owner_of(entries[place].item) {
        if place < front.len() {
            assert(front[place] == entries[place]);
            lemma_owner_is_asked_for(front, place);
            if let Some(last) = crate::response::owner_of(entries.last().item) {
                lemma_names_of_push(before, last, owner@);
            }
        } else {
            lemma_names_of_push(before, owner, owner@);
        }
    }
}

proof fn lemma_response_still_there<S: ConversationStore>(
    projection: ResponseModel,
    store: S,
    entries: Seq<RuntimeClientTranscriptEntry>,
    id: Seq<char>,
)
    requires
        projection.decorated(store, entries).failure is None,
        forall|i: int| 0 <= i < entries.len() ==> !can_close_for(#[trigger] entries[i], id),
    ensures
        first(projection.decorated(store, entries).completed, crate::evidence::closes(id)) == first(
            projection.completed,
            crate::evidence::closes(id),
        ),
    decreases entries.len(),
{
    if entries.len() > 0 {
        let front = entries.drop_last();
        let last = entries.last();
        let before = projection.decorated(store, front);
        assert forall|i: int| 0 <= i < front.len() implies !can_close_for(
            #[trigger] front[i],
            id,
        ) by {
            assert(front[i] == entries[i]);
        }
        lemma_response_still_there(projection, store, front, id);
        assert(entries[entries.len() - 1] == last);
        if crate::response::can_close(last.item) {
            let own = crate::evidence::closes(crate::response::owner_of(last.item)->Some_0@);
            crate::search::lemma_position(before.completed, own);
            if let Some(index) = crate::search::position(before.completed, own) {
                lemma_first_of_remove(before.completed, index, crate::evidence::closes(id));
            }
        }
    }
}

proof fn lemma_entry_is_decorated_in_its_turn<S: ConversationStore>(
    projection: ResponseModel,
    store: S,
    entries: Seq<RuntimeClientTranscriptEntry>,
    place: int,
)
    requires
        0 <= place < entries.len(),
        projection.decorated(store, entries).failure is None,
    ensures
        projection.decorated(store, entries).entries.len() == entries.len(),
        projection.decorated(store, entries.take(place)).failure is None,
        projection.decorated_entry(
            store,
            projection.decorated(store, entries.take(place)),
            entries[place],
        ).entries.last() == projection.decorated(store, entries).entries[place],
        projection.decorated_entry(
            store,
            projection.decorated(store, entries.take(place)),
            entries[place],
        ).failure is None,
    decreases entries.len(),
{
    let front = entries.drop_last();
    crate::response::lemma_one_entry_each(projection, store, entries);
    crate::response::lemma_one_entry_each(projection, store, front);
    if place < front.len() {
        lemma_entry_is_decorated_in_its_turn(projection, store, front, place);
        assert(front.take(place) =~= entries.take(place));
        assert(front[place] == entries[place]);
    } else {
        assert(entries.take(place) =~= front);
    }
}

/// What an entry shows does not depend on the page that holds it: on any two pages, decorated
/// from the same evidence, the same message shows the same response and the same completed
/// attempt, and is pending on both or on neither. The totals are the same too.
///
/// A page shows a response at the first of two entries of one message, so the message is to
/// come once on each page. And inherited responses that one message closes are to belong to
/// the same messages, since the one that is filed last hides the others only where it is
/// asked for.
pub proof fn law_an_entry_shows_the_same_on_every_page<S: ConversationStore>(
    store: S,
    page: TranscriptPageModel,
    other: TranscriptPageModel,
    place: int,
    elsewhere: int,
    through: u64,
)
    requires
        0 <= place < page.entries.len(),
        0 <= elsewhere < other.entries.len(),
        page.entries[place].item == other.entries[elsewhere].item,
        comes_once(page.entries, place),
        comes_once(other.entries, elsewhere),
        one_process_each(store.inherited()),
        crate::response::decorated_page(store, page, through).1 is None,
        crate::response::decorated_page(store, other, through).1 is None,
    ensures
        ({
            let a = crate::response::decorated_page(store, page, through).0;
            let b = crate::response::decorated_page(store, other, through).0;
            &&& a.entries[place].completed_response == b.entries[elsewhere].completed_response
            &&& a.entries[place].completed_process == b.entries[elsewhere].completed_process
            &&& a.entries[place].response_pending == b.entries[elsewhere].response_pending
            &&& a.statistics == b.statistics
        }),
{
    let wanted = crate::response::owners(page.entries);
    let others = crate::response::owners(other.entries);
    let a = crate::response::projected(store, wanted, through)->Ok_0;
    let b = crate::response::projected(store, others, through)->Ok_0;
    let left = crate::response::all_bare(page.entries);
    let right = crate::response::all_bare(other.entries);
    crate::response_laws::law_statistics_come_from_the_journal(
        store,
        store,
        wanted,
        others,
        through,
    );
    lemma_entry_is_decorated_in_its_turn(a, store, left, place);
    lemma_entry_is_decorated_in_its_turn(b, store, right, elsewhere);
    if let Some(owner) = crate::response::owner_of(page.entries[place].item) {
        lemma_owner_is_asked_for(page.entries, place);
        lemma_owner_is_asked_for(other.entries, elsewhere);
        law_a_message_is_known_alike(store, wanted, others, through, owner);
        if crate::response::can_close(page.entries[place].item) {
            assert forall|i: int| 0 <= i < left.take(place).len() implies !can_close_for(
                #[trigger] left.take(place)[i],
                owner@,
            ) by {
                assert(!can_close_for(page.entries[i], owner@));
            }
            assert forall|i: int| 0 <= i < right.take(elsewhere).len() implies !can_close_for(
                #[trigger] right.take(elsewhere)[i],
                owner@,
            ) by {
                assert(!can_close_for(other.entries[i], owner@));
            }
            lemma_response_still_there(a, store, left.take(place), owner@);
            lemma_response_still_there(b, store, right.take(elsewhere), owner@);
        }
    }
}

/// Whether an item is a message that the assistant wrote, under an identity.
pub open spec fn is_written_by_the_assistant(
    item: RuntimeClientTranscriptItem,
    id: MessageId,
) -> bool {
    item matches RuntimeClientTranscriptItem::Message { message } && (*message matches
        MessageBlock::Assistant(written) && written.id == id)
}

/// Whether an item is the result of a tool that an assistant's message called.
pub open spec fn is_result_for(item: RuntimeClientTranscriptItem, id: MessageId) -> bool {
    item matches RuntimeClientTranscriptItem::Message { message } && (*message matches
        MessageBlock::Tool(result) && result.occurrence.assistant_message_id == id)
}

/// Whether an item is a message that the assistant wrote without calling a tool.
pub open spec fn calls_no_tool(item: RuntimeClientTranscriptItem) -> bool {
    item matches RuntimeClientTranscriptItem::Message { message } && (*message matches
        MessageBlock::Assistant(written) && !(exists|i: int|
        0 <= i < written.content@.len() && (#[trigger] written.content@[i]) is ToolCall))
}

/// An item belongs to the message that the assistant wrote, or that called the tool whose
/// result the item is. An item of another kind belongs to no message. And it can close a
/// response where it is itself what the assistant wrote, and calls no tool.
pub proof fn law_an_item_belongs_to_the_message_that_made_it(
    item: RuntimeClientTranscriptItem,
    id: MessageId,
)
    ensures
        crate::response::owner_of(item) == Some(id) <==> is_written_by_the_assistant(item, id)
            || is_result_for(item, id),
        crate::response::can_close(item) <==> calls_no_tool(item),
{
}

/// Whether a response is shown as it was filed.
pub open spec fn shows_response<S: ConversationStore>(
    store: S,
    view: CompletedResponseView,
    response: ProvenanceModel,
) -> bool {
    &&& view.closing_message_id == response.closing_message_id
    &&& view.origin == response.origin
    &&& view.completed_at == response.completed_at
    &&& view.usage == response.usage
    &&& view.timing == response.timing
    &&& store.append_revision(response.closing_message_id@) == Some(view.surface_revision)
    &&& view.retry_message_id is Some ==> view.retry_message_id == response.retry_message_id
    &&& view.retry_message_id is Some <==> response.retry_message_id is Some && (exists|i: int|
        0 <= i < store.messages(response.retry_message_id->Some_0@).len() && (
        *(#[trigger] store.messages(response.retry_message_id->Some_0@)[i]) matches
            MessageBlock::User(user) && user.kind == InboundKind::Message))
}

/// Every entry of a decorated page shows what the evidence says of the message it belongs to:
/// the completed attempt that committed it, whether its attempt has not ended, and, at the
/// first entry that can close it, the response that it closes, as it was filed. An entry that
/// belongs to no message shows none of these.
pub proof fn law_an_entry_shows_what_the_evidence_says<S: ConversationStore>(
    store: S,
    page: TranscriptPageModel,
    place: int,
    through: u64,
)
    requires
        0 <= place < page.entries.len(),
        comes_once(page.entries, place),
        crate::response::decorated_page(store, page, through).1 is None,
    ensures
        ({
            let evidence = crate::response::projected(
                store,
                crate::response::owners(page.entries),
                through,
            )->Ok_0;
            let shown = crate::response::decorated_page(store, page, through).0;
            let entry = shown.entries[place];
            &&& shown.statistics == Some(evidence.statistics)
            &&& entry.item == page.entries[place].item
            &&& match crate::response::owner_of(page.entries[place].item) {
                None => entry.completed_process is None && !entry.response_pending
                    && entry.completed_response is None,
                Some(id) => {
                    &&& entry.completed_process == process_in(evidence.processes, id@)
                    &&& entry.response_pending == crate::evidence::names(evidence.pending, id@)
                    &&& entry.completed_response is Some <==> crate::response::can_close(
                        page.entries[place].item,
                    ) && first(evidence.completed, crate::evidence::closes(id@)) is Some
                    &&& entry.completed_response is Some ==> shows_response(
                        store,
                        entry.completed_response->Some_0,
                        first(evidence.completed, crate::evidence::closes(id@))->Some_0,
                    )
                },
            }
        }),
{
    let wanted = crate::response::owners(page.entries);
    let evidence = crate::response::projected(store, wanted, through)->Ok_0;
    let entries = crate::response::all_bare(page.entries);
    lemma_entry_is_decorated_in_its_turn(evidence, store, entries, place);
    let before = evidence.decorated(store, entries.take(place));
    crate::response::lemma_one_entry_each(evidence, store, entries.take(place));
    if let Some(owner) = crate::response::owner_of(page.entries[place].item) {
        if crate::response::can_close(page.entries[place].item) {
            assert forall|i: int| 0 <= i < entries.take(place).len() implies !can_close_for(
                #[trigger] entries.take(place)[i],
                owner@,
            ) by {
                assert(!can_close_for(page.entries[i], owner@));
            }
            lemma_response_still_there(evidence, store, entries.take(place), owner@);
        }
    }
}

/// The identity of a message, whoever wrote it.
pub open spec fn identity_of(message: Arc<MessageBlock>) -> Seq<char> {
    match *message {
        MessageBlock::User(user) => user.id@,
        MessageBlock::Assistant(assistant) => assistant.id@,
        MessageBlock::Tool(tool) => tool.id@,
    }
}

/// The responses that messages close, in the order of the messages.
pub open spec fn closed_by(
    completed: Seq<ProvenanceModel>,
    messages: Seq<Arc<MessageBlock>>,
) -> Seq<ProvenanceModel>
    decreases messages.len(),
{
    if messages.len() == 0 {
        Seq::empty()
    } else {
        let before = closed_by(completed, messages.drop_last());
        match first(completed, crate::evidence::closes(identity_of(messages.last()))) {
            Some(response) => before.push(response),
            None => before,
        }
    }
}

/// A line of messages holds the responses that its messages close, each in the place of its
/// message, where no message comes twice.
pub proof fn law_a_line_holds_the_responses_of_its_messages(
    completed: Seq<ProvenanceModel>,
    messages: Seq<Arc<MessageBlock>>,
)
    requires
        forall|i: int, j: int|
            0 <= i < j < messages.len() ==> identity_of(#[trigger] messages[i]) != identity_of(#[trigger] messages[j]),
    ensures
        crate::response::claimed(completed, messages).0 == closed_by(completed, messages),
        forall|id: Seq<char>|
            #![trigger crate::evidence::closes(id)]
            (forall|i: int| 0 <= i < messages.len() ==> identity_of(#[trigger] messages[i]) != id)
                ==> first(
                crate::response::claimed(completed, messages).1,
                crate::evidence::closes(id),
            ) == first(completed, crate::evidence::closes(id)),
    decreases messages.len(),
{
    if messages.len() > 0 {
        let front = messages.drop_last();
        let last = identity_of(messages.last());
        assert forall|i: int, j: int| 0 <= i < j < front.len() implies identity_of(#[trigger] front[i]) != identity_of(#[trigger] front[j]) by {
            assert(front[i] == messages[i]);
            assert(front[j] == messages[j]);
        }
        law_a_line_holds_the_responses_of_its_messages(completed, front);
        let (given, left) = crate::response::claimed(completed, front);
        let own = crate::evidence::closes(last);
        assert forall|i: int| 0 <= i < front.len() implies identity_of(#[trigger] front[i])
            != last by {
            assert(front[i] == messages[i]);
            assert(messages[messages.len() - 1] == messages.last());
        }
        crate::search::lemma_position(left, own);
        assert(first(left, own) == first(completed, own));
        assert forall|id: Seq<char>|
            #![trigger crate::evidence::closes(id)]
            (forall|i: int| 0 <= i < messages.len() ==> identity_of(#[trigger] messages[i])
                != id) implies first(
            crate::response::claimed(completed, messages).1,
            crate::evidence::closes(id),
        ) == first(completed, crate::evidence::closes(id)) by {
            assert(messages[messages.len() - 1] == messages.last());
            assert forall|i: int| 0 <= i < front.len() implies identity_of(#[trigger] front[i])
                != id by {
                assert(front[i] == messages[i]);
            }
            if let Some(index) = crate::search::position(left, own) {
                lemma_first_of_remove(left, index, crate::evidence::closes(id));
            }
        }
    }
}

/// An inherited response is kept for every message that is asked for: the message that closes
/// it finds it, the one that was recorded last where there are several, and each of its messages
/// is of a completed process with the origin of such a response that ends at its closing
/// message. Where no inherited response has the message, there is none.
pub proof fn law_an_inherited_response_is_kept<S: ConversationStore>(
    store: S,
    wanted: Seq<MessageId>,
    id: Seq<char>,
)
    requires
        one_process_each(store.inherited()),
        crate::evidence::names(wanted, id),
    ensures
        ({
            let kept = asked_of(store, wanted);
            let process = process_in(crate::response::entries_of(kept, wanted), id);
            &&& first(kept, crate::evidence::closes(id)) == last_closing(store.inherited(), id)
            &&& process matches Some(process) ==> exists|k: int|
                0 <= k < store.inherited().len() && crate::evidence::names(
                    (#[trigger] store.inherited()[k]).process_message_ids,
                    id,
                ) && process.origin == store.inherited()[k].origin && process.final_message_id
                    == store.inherited()[k].closing_message_id
            &&& forall|k: int|
                0 <= k < store.inherited().len() && crate::evidence::names(
                    (#[trigger] store.inherited()[k]).process_message_ids,
                    id,
                ) ==> process is Some
        }),
{
    let inherited = store.inherited();
    let test = crate::response::is_wanted(wanted);
    let asked = inherited.filter(test);
    let kept = asked_of(store, wanted);
    lemma_filed_is_the_last(asked, id);
    lemma_last_closing_of_wanted(inherited, wanted, id);
    lemma_last_closing(inherited, id);
    lemma_process_of_inherited(kept, wanted, id);
    lemma_last_with(kept, id);
    crate::response_laws::lemma_filed_apart(asked);
    if let Some(response) = last_with(kept, id) {
        let k = choose|k: int| 0 <= k < kept.len() && #[trigger] kept[k] == response;
        let closing = response.closing_message_id@;
        assert forall|i: int| 0 <= i < k implies !crate::evidence::closes(closing)(
            #[trigger] kept[i],
        ) by {
            assert(crate::response_laws::closes_another()(kept[i], kept[k]));
        }
        lemma_first_at(kept, crate::evidence::closes(closing), k);
        lemma_filed_is_the_last(asked, closing);
        lemma_last_closing_of_wanted(inherited, wanted, closing);
        lemma_last_closing(inherited, closing);
        let m = choose|m: int| 0 <= m < inherited.len() && inherited[m] == response;
        assert(crate::evidence::names(inherited[m].process_message_ids, id));
    }
    assert forall|k: int|
        0 <= k < inherited.len() && crate::evidence::names(
            (#[trigger] inherited[k]).process_message_ids,
            id,
        ) implies last_with(kept, id) is Some by {
        let closing = inherited[k].closing_message_id@;
        lemma_some_closing(inherited, k);
        lemma_last_closing(inherited, closing);
        let last = last_closing(inherited, closing)->Some_0;
        let m = choose|m: int| 0 <= m < inherited.len() && inherited[m] == last;
        assert(inherited[m].process_message_ids == inherited[k].process_message_ids);
        let n = choose|n: int|
            0 <= n < last.process_message_ids.len() && (
            #[trigger] last.process_message_ids[n])@ == id;
        assert(crate::evidence::names(wanted, last.process_message_ids[n]@));
        assert(test(last));
        lemma_filed_is_the_last(asked, closing);
        lemma_last_closing_of_wanted(inherited, wanted, closing);
        crate::search::lemma_position(kept, crate::evidence::closes(closing));
        let p = crate::search::position(kept, crate::evidence::closes(closing))->Some_0;
        assert(kept[p] == last);
    }
}

proof fn lemma_some_closing(responses: Seq<ProvenanceModel>, k: int)
    requires
        0 <= k < responses.len(),
    ensures
        last_closing(responses, responses[k].closing_message_id@) is Some,
    decreases responses.len(),
{
    let front = responses.drop_last();
    if k < front.len() {
        assert(front[k] == responses[k]);
        lemma_some_closing(front, k);
    }
}

/// Whether messages stand in the order of their identities, each once.
pub open spec fn members_ascend(members: Seq<MessageId>) -> bool {
    forall|i: int, j: int|
        0 <= i < j < members.len() ==> crate::identity::text_precedes(
            (#[trigger] members[i])@,
            (#[trigger] members[j])@,
        )
}

/// The messages of an attempt stand in the order of their identities, each once, however often
/// and in whatever order they come.
pub proof fn law_members_stand_in_order(members: Seq<MessageId>, member: MessageId)
    requires
        members_ascend(members),
    ensures
        members_ascend(crate::evidence::with_member(members, member)),
        forall|id: Seq<char>|
            #![trigger crate::evidence::names(members, id)]
            crate::evidence::names(crate::evidence::with_member(members, member), id)
                <==> crate::evidence::names(members, id) || id == member@,
{
    assert forall|id: Seq<char>|
        #![trigger crate::evidence::names(members, id)]
        crate::evidence::names(crate::evidence::with_member(members, member), id)
            <==> crate::evidence::names(members, id) || id == member@ by {
        lemma_member_names(members, member, id);
    }
    if !crate::evidence::names(members, member@) {
        let all = members.push(member);
        let after = crate::search::places::<MessageId>();
        let differ = |a: MessageId, b: MessageId| a@ != b@;
        assert forall|i: int, j: int| 0 <= i < j < all.len() implies differ(
            #[trigger] all[i],
            #[trigger] all[j],
        ) by {
            if j < members.len() {
                crate::identity::law_text_order_is_total(members[i]@, members[j]@, members[i]@);
            } else {
                assert(members[i]@ != member@);
            }
        }
        assert(crate::search::is_order(after)) by {
            assert forall|a: MessageId, b: MessageId| #[trigger] after(a, b) implies !after(
                b,
                a,
            ) by {
                lemma_texts_are_ordered(a@, b@, a@);
            }
            assert forall|a: MessageId, b: MessageId, c: MessageId|
                !#[trigger] after(a, b) && !#[trigger] after(b, c) implies !after(a, c) by {
                lemma_texts_are_ordered(a@, b@, c@);
            }
        }
        crate::search::law_ordered_is_a_sorted_rearrangement(all, after);
        crate::search::lemma_ordered_keeps_apart(all, after, differ);
        let result = crate::search::ordered(all, after);
        assert forall|i: int, j: int|
            0 <= i < j < result.len() implies crate::identity::text_precedes(
            (#[trigger] result[i])@,
            (#[trigger] result[j])@,
        ) by {
            assert(differ(result[i], result[j]));
            assert(!after(result[i], result[j]));
            lemma_texts_are_ordered(result[i]@, result[j]@, result[i]@);
        }
    }
}

/// Whether responses stand in the order of the messages that close them.
pub open spec fn responses_ascend(responses: Seq<ProvenanceModel>) -> bool {
    forall|i: int, j: int|
        0 <= i < j < responses.len() ==> crate::identity::text_precedes(
            (#[trigger] responses[i]).closing_message_id@,
            (#[trigger] responses[j]).closing_message_id@,
        )
}

/// Responses stand in the order of the messages that close them, and a response takes the place
/// of the one that the same message closed before.
pub proof fn law_responses_stand_in_order(
    responses: Seq<ProvenanceModel>,
    response: ProvenanceModel,
)
    requires
        responses_ascend(responses),
    ensures
        responses_ascend(crate::evidence::with_response(responses, response)),
        crate::evidence::with_response(responses, response).contains(response),
        crate::evidence::with_response(responses, response).len() == responses.len() + if (exists|
            i: int,
        |
            0 <= i < responses.len() && (#[trigger] responses[i]).closing_message_id@
                == response.closing_message_id@) {
            0int
        } else {
            1
        },
{
    let own = crate::evidence::closes(response.closing_message_id@);
    let result = crate::evidence::with_response(responses, response);
    crate::search::lemma_position(responses, own);
    match crate::search::position(responses, own) {
        Some(index) => {
            assert(responses[index].closing_message_id@ == response.closing_message_id@);
            assert(result[index] == response);
        },
        None => {
            let all = responses.push(response);
            let after = crate::evidence::response_order();
            let differ = crate::response_laws::closes_another();
            assert forall|i: int| 0 <= i < responses.len() implies (
            #[trigger] responses[i]).closing_message_id@ != response.closing_message_id@ by {
                assert(!own(responses[i]));
            }
            assert forall|i: int, j: int| 0 <= i < j < all.len() implies differ(
                #[trigger] all[i],
                #[trigger] all[j],
            ) by {
                if j < responses.len() {
                    crate::identity::law_text_order_is_total(
                        responses[i].closing_message_id@,
                        responses[j].closing_message_id@,
                        responses[i].closing_message_id@,
                    );
                } else {
                    assert(all[i] == responses[i]);
                }
            }
            lemma_responses_are_ordered();
            crate::search::law_ordered_is_a_sorted_rearrangement(all, after);
            crate::search::lemma_ordered_keeps_apart(all, after, differ);
            assert(all[responses.len() as int] == response);
            assert forall|i: int, j: int|
                0 <= i < j < result.len() implies crate::identity::text_precedes(
                (#[trigger] result[i]).closing_message_id@,
                (#[trigger] result[j]).closing_message_id@,
            ) by {
                assert(differ(result[i], result[j]));
                assert(!after(result[i], result[j]));
                lemma_texts_are_ordered(
                    result[i].closing_message_id@,
                    result[j].closing_message_id@,
                    result[i].closing_message_id@,
                );
            }
        },
    }
}

} // verus!
