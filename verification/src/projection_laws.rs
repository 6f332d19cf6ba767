//! Laws of the stream of events and its subscribers.
#[allow(unused_imports)]
use std::sync::Arc;

#[allow(unused_imports)]
use tokio::sync::Notify;
use vstd::prelude::*;

#[allow(unused_imports)]
use crate::event::EventModel;
#[allow(unused_imports)]
use crate::observation::ConversationObservation;
#[allow(unused_imports)]
use crate::projection::{PollModel, ProjectionModel, SubscriberModel};

verus! {

/// Events with their cursors, behind a cursor.
pub open spec fn numbered(after: u64, events: Seq<EventModel>) -> Seq<(u64, EventModel)> {
    Seq::new(events.len(), |i: int| ((after + 1 + i) as u64, events[i]))
}

/// To keep the newest entries before and after more arrive is to keep them after.
proof fn lemma_retained_again<T>(entries: Seq<T>, entry: T, limit: nat)
    ensures
        crate::projection::retained(
            crate::projection::retained(entries, limit).push(entry),
            limit,
        ) == crate::projection::retained(entries.push(entry), limit),
{
    let kept = crate::projection::retained(entries, limit);
    assert(crate::projection::retained(kept.push(entry), limit)
        =~= crate::projection::retained(entries.push(entry), limit));
}

/// As long as there are cursors, events are published at consecutive cursors, in their
/// order, and the newest ones are retained.
pub proof fn law_events_are_published_in_order(
    projection: ProjectionModel,
    events: Seq<EventModel>,
)
    requires
        projection.well_formed(),
        projection.cursor + events.len() <= u64::MAX,
    ensures
        projection.published_all(events).cursor == projection.cursor + events.len(),
        projection.published_all(events).exhausted == projection.exhausted,
        projection.published_all(events).snapshot == projection.snapshot,
        projection.published_all(events).replay_limit == projection.replay_limit,
        projection.published_all(events).replay == crate::projection::retained(
            projection.replay + numbered(projection.cursor, events),
            projection.replay_limit,
        ),
        projection.published_all(events).well_formed(),
    decreases events.len(),
{
    if events.len() == 0 {
        assert(projection.replay + numbered(projection.cursor, events) =~= projection.replay);
    } else {
        let front = events.drop_last();
        law_events_are_published_in_order(projection, front);
        let before = projection.published_all(front);
        let entries = projection.replay + numbered(projection.cursor, front);
        let entry = ((before.cursor + 1) as u64, events.last());
        assert(projection.replay + numbered(projection.cursor, events) =~= entries.push(entry));
        lemma_retained_again(entries, entry, projection.replay_limit);
    }
}

/// A publication never takes a cursor back, and where no cursor is left the stream ends
/// instead of starting over.
pub proof fn law_cursors_never_wrap(projection: ProjectionModel, event: EventModel)
    ensures
        projection.published(event).cursor >= projection.cursor,
        projection.cursor < u64::MAX ==> projection.published(event).cursor == projection.cursor
            + 1 && projection.published(event).exhausted == projection.exhausted,
        projection.cursor == u64::MAX ==> projection.published(event).cursor == u64::MAX
            && projection.published(event).exhausted && projection.published(event).replay
            == projection.replay,
{
}

/// The end of the stream is final: no report changes anything any more, and every
/// subscriber finds the end.
pub proof fn law_the_end_of_the_stream_is_final(
    projection: ProjectionModel,
    observation: ConversationObservation,
    id: u64,
)
    requires
        projection.exhausted,
    ensures
        projection.applied(observation) == projection,
        projection.poll(id) is Exhausted,
        projection.polled(id) == projection,
{
}

/// Every publication wakes every subscriber once, and moves none.
pub proof fn law_a_publication_wakes_everyone_once(
    projection: ProjectionModel,
    events: Seq<EventModel>,
    i: int,
)
    requires
        0 <= i < projection.subscribers.len(),
    ensures
        projection.published_all(events).subscribers.len() == projection.subscribers.len(),
        projection.published_all(events).subscribers[i] == (SubscriberModel {
            signals: projection.subscribers[i].signals + events.len(),
            ..projection.subscribers[i]
        }),
    decreases events.len(),
{
    if events.len() > 0 {
        law_a_publication_wakes_everyone_once(projection, events.drop_last(), i);
    }
}

/// Where a subscriber with an identity is registered does not change with publications.
proof fn lemma_publication_keeps_registrations(
    projection: ProjectionModel,
    events: Seq<EventModel>,
    id: u64,
)
    ensures
        projection.published_all(events).subscriber(id) == projection.subscriber(id),
{
    let after = projection.published_all(events);
    let test = crate::projection::is_subscriber(id);
    assert forall|i: int| 0 <= i < projection.subscribers.len() implies (
    #[trigger] after.subscribers[i]).id == projection.subscribers[i].id by {
        law_a_publication_wakes_everyone_once(projection, events, i);
    }
    lemma_same_count(projection, events);
    crate::search::lemma_position(projection.subscribers, test);
    match projection.subscriber(id) {
        Some(index) => {
            assert(test(after.subscribers[index]));
            assert forall|i: int| 0 <= i < index implies !test(#[trigger] after.subscribers[i]) by {
                assert(!test(projection.subscribers[i]));
            }
            crate::search::lemma_position_at(after.subscribers, test, index);
        },
        None => {
            assert forall|i: int| 0 <= i < after.subscribers.len() implies !test(
                #[trigger] after.subscribers[i],
            ) by {
                assert(!test(projection.subscribers[i]));
            }
            crate::search::lemma_position_none(after.subscribers, test);
        },
    }
}

proof fn lemma_same_count(projection: ProjectionModel, events: Seq<EventModel>)
    ensures
        projection.published_all(events).subscribers.len() == projection.subscribers.len(),
    decreases events.len(),
{
    if events.len() > 0 {
        lemma_same_count(projection, events.drop_last());
    }
}

/// A subscriber is handed the event directly behind what it has consumed, never a later
/// one, and moves there. Every other subscriber stays where it is.
pub proof fn law_a_poll_never_skips(projection: ProjectionModel, id: u64)
    requires
        projection.well_formed(),
        projection.poll(id) is Event,
    ensures
        projection.subscriber(id) matches Some(index) && {
            &&& projection.poll(id)->Event_cursor == projection.subscribers[index].consumed + 1
            &&& projection.polled(id).subscriber(id) == Some(index)
            &&& projection.polled(id).subscribers[index].consumed
                == projection.subscribers[index].consumed + 1
            &&& forall|i: int|
                0 <= i < projection.subscribers.len() && i != index
                    ==> #[trigger] projection.polled(id).subscribers[i]
                    == projection.subscribers[i]
            &&& projection.polled(id).well_formed()
        },
{
    let test = crate::projection::is_subscriber(id);
    crate::search::lemma_position(projection.subscribers, test);
    let index = projection.subscriber(id)->Some_0;
    let after = projection.polled(id);
    let consumed = projection.subscribers[index].consumed;
    let next = consumed - projection.earliest_serviceable();
    assert(projection.replay[next].0 == consumed + 1);
    assert(test(after.subscribers[index]));
    assert forall|i: int| 0 <= i < index implies !test(#[trigger] after.subscribers[i]) by {
        assert(after.subscribers[i] == projection.subscribers[i]);
    }
    crate::search::lemma_position_at(after.subscribers, test, index);
}

/// What a subscriber is handed in so many polls.
pub open spec fn polls(projection: ProjectionModel, id: u64, count: nat) -> Seq<PollModel>
    decreases count,
{
    if count == 0 {
        Seq::empty()
    } else {
        seq![projection.poll(id)] + polls(projection.polled(id), id, (count - 1) as nat)
    }
}

/// The projection after so many polls.
pub open spec fn after_polls(projection: ProjectionModel, id: u64, count: nat) -> ProjectionModel
    decreases count,
{
    if count == 0 {
        projection
    } else {
        after_polls(projection.polled(id), id, (count - 1) as nat)
    }
}

/// A subscriber that can be served gets everything that it has not consumed, in order
/// and without a gap, and then finds nothing more.
pub proof fn law_resuming_leaves_no_gap(projection: ProjectionModel, id: u64, index: int)
    requires
        projection.well_formed(),
        !projection.exhausted,
        projection.subscriber(id) == Some(index),
        0 <= index < projection.subscribers.len(),
        projection.serviceable(projection.subscribers[index].consumed),
    ensures
        ({
            let consumed = projection.subscribers[index].consumed;
            let count = (projection.cursor - consumed) as nat;
            let missed = projection.replay.skip(consumed - projection.earliest_serviceable());
            &&& missed.len() == count
            &&& polls(projection, id, count) == Seq::new(
                count,
                |k: int| PollModel::Event { cursor: missed[k].0, event: missed[k].1 },
            )
            &&& forall|k: int| 0 <= k < count ==> (#[trigger] missed[k]).0 == consumed + 1 + k
            &&& after_polls(projection, id, count).poll(id) is Pending
        }),
    decreases projection.cursor - projection.subscribers[index].consumed,
{
    crate::search::lemma_position(
        projection.subscribers,
        crate::projection::is_subscriber(id),
    );
    let consumed = projection.subscribers[index].consumed;
    let count = (projection.cursor - consumed) as nat;
    let earliest = projection.earliest_serviceable();
    let missed = projection.replay.skip(consumed - earliest);
    if count == 0 {
        assert(polls(projection, id, count) =~= Seq::new(
            count,
            |k: int| PollModel::Event { cursor: missed[k].0, event: missed[k].1 },
        ));
    } else {
        law_a_poll_never_skips(projection, id);
        let after = projection.polled(id);
        law_resuming_leaves_no_gap(after, id, index);
        let rest = after.replay.skip(consumed + 1 - earliest);
        assert(missed =~= seq![missed[0]] + rest);
        assert(polls(projection, id, count) =~= Seq::new(
            count,
            |k: int| PollModel::Event { cursor: missed[k].0, event: missed[k].1 },
        ));
    }
}

/// A subscriber whose events are gone is told so, and told again: neither a poll nor a
/// publication moves it or lets it skip what it missed.
pub proof fn law_lagging_is_stable(
    projection: ProjectionModel,
    events: Seq<EventModel>,
    id: u64,
)
    requires
        projection.well_formed(),
        projection.poll(id) is Lagged,
        projection.cursor + events.len() <= u64::MAX,
    ensures
        projection.polled(id) == projection,
        projection.published_all(events).poll(id) matches PollModel::Lagged {
            after_cursor,
            earliest_serviceable,
        } && after_cursor == projection.poll(id)->after_cursor && earliest_serviceable
            >= projection.poll(id)->earliest_serviceable,
{
    let after = projection.published_all(events);
    let test = crate::projection::is_subscriber(id);
    crate::search::lemma_position(projection.subscribers, test);
    let index = projection.subscriber(id)->Some_0;
    law_events_are_published_in_order(projection, events);
    law_a_publication_wakes_everyone_once(projection, events, index);
    lemma_publication_keeps_registrations(projection, events, id);
    let entries = projection.replay + numbered(projection.cursor, events);
    assert(projection.replay.len() > 0 ==> entries[0] == projection.replay[0]);
    assert(after.earliest_serviceable() >= projection.earliest_serviceable()) by {
        if after.replay.len() > 0 {
            assert(after.replay[0].0 == after.cursor - after.replay.len() + 1);
        }
    }
}

/// What the reports publish, all together.
pub open spec fn events_of(
    projection: ProjectionModel,
    reports: Seq<ConversationObservation>,
) -> Seq<EventModel>
    decreases reports.len(),
{
    if reports.len() == 0 {
        Seq::empty()
    } else {
        let before = projection.applied_all(reports.drop_last());
        events_of(projection, reports.drop_last()) + before.snapshot.reported(
            reports.last(),
        ).events
    }
}

/// To publish events in two parts is to publish them all.
proof fn lemma_published_in_parts(
    projection: ProjectionModel,
    first: Seq<EventModel>,
    second: Seq<EventModel>,
)
    ensures
        projection.published_all(first + second) == projection.published_all(first).published_all(
            second,
        ),
    decreases second.len(),
{
    if second.len() == 0 {
        assert(first + second =~= first);
    } else {
        lemma_published_in_parts(projection, first, second.drop_last());
        assert((first + second).drop_last() =~= first + second.drop_last());
    }
}

/// Publications do not read the read model.
proof fn lemma_published_beside_the_snapshot(
    projection: ProjectionModel,
    snapshot: crate::snapshot::SnapshotModel,
    events: Seq<EventModel>,
)
    ensures
        (ProjectionModel { snapshot, ..projection }).published_all(events) == (ProjectionModel {
            snapshot,
            ..projection.published_all(events)
        }),
    decreases events.len(),
{
    if events.len() > 0 {
        lemma_published_beside_the_snapshot(projection, snapshot, events.drop_last());
    }
}

/// Reports publish their events, in the order of the reports.
proof fn lemma_reports_publish(
    projection: ProjectionModel,
    reports: Seq<ConversationObservation>,
)
    requires
        projection.well_formed(),
        !projection.exhausted,
        projection.cursor + events_of(projection, reports).len() <= u64::MAX,
    ensures
        projection.applied_all(reports) == (ProjectionModel {
            snapshot: projection.applied_all(reports).snapshot,
            ..projection.published_all(events_of(projection, reports))
        }),
        !projection.applied_all(reports).exhausted,
    decreases reports.len(),
{
    if reports.len() > 0 {
        let front = reports.drop_last();
        let earlier = events_of(projection, front);
        lemma_reports_publish(projection, front);
        let before = projection.applied_all(front);
        let step = before.snapshot.reported(reports.last());
        let published = projection.published_all(earlier);
        lemma_published_in_parts(projection, earlier, step.events);
        law_events_are_published_in_order(projection, earlier);
        lemma_published_beside_the_snapshot(published, step.state, step.events);
        lemma_published_beside_the_snapshot(published, before.snapshot, step.events);
        law_events_are_published_in_order(projection, earlier + step.events);
        assert((ProjectionModel { snapshot: step.state, ..before }) == (ProjectionModel {
            snapshot: step.state,
            ..published
        }));
    }
}

/// A snapshot and a subscription behind its cursor belong together: whoever takes a
/// snapshot and subscribes behind its cursor gets every event that is published from
/// then on, in order and none twice, as long as the ring can hold them.
pub proof fn law_a_subscription_from_a_snapshot_misses_nothing(
    projection: ProjectionModel,
    channel: Arc<Notify>,
    reports: Seq<ConversationObservation>,
)
    requires
        projection.well_formed(),
        !projection.exhausted,
        projection.next_subscriber_id < u64::MAX,
        events_of(projection, reports).len() <= projection.replay_limit,
        projection.cursor + events_of(projection, reports).len() <= u64::MAX,
    ensures
        ({
            let id = projection.next_subscriber_id;
            let events = events_of(projection, reports);
            let after = projection.subscribed(projection.cursor, channel).applied_all(reports);
            &&& polls(after, id, events.len()) == Seq::new(
                events.len(),
                |k: int|
                    PollModel::Event {
                        cursor: (projection.cursor + 1 + k) as u64,
                        event: events[k],
                    },
            )
            &&& after_polls(after, id, events.len()).poll(id) is Pending
            &&& after.snapshot == projection.applied_all(reports).snapshot
        }),
{
    let id = projection.next_subscriber_id;
    let events = events_of(projection, reports);
    let start = projection.subscribed(projection.cursor, channel);
    let index = projection.subscribers.len() as int;
    let test = crate::projection::is_subscriber(id);
    assert(start.well_formed());
    lemma_reports_beside_the_subscribers(projection, start, reports);
    assert(events_of(start, reports) == events);
    lemma_reports_publish(start, reports);
    lemma_reports_publish(projection, reports);
    let after = start.applied_all(reports);
    let published = start.published_all(events);
    law_events_are_published_in_order(start, events);
    law_a_publication_wakes_everyone_once(start, events, index);
    assert(start.subscribers[index].id == id);
    assert forall|i: int| 0 <= i < index implies !test(#[trigger] start.subscribers[i]) by {
        assert(start.subscribers[i] == projection.subscribers[i]);
    }
    crate::search::lemma_position_at(start.subscribers, test, index);
    lemma_publication_keeps_registrations(start, events, id);
    assert(after.subscribers == published.subscribers);
    assert(after.subscriber(id) == Some(index));
    assert(after.subscribers[index].consumed == projection.cursor);
    let entries = start.replay + numbered(start.cursor, events);
    let count = events.len();
    let earliest = after.earliest_serviceable();
    assert(after.replay.len() >= count);
    assert(earliest == after.cursor - after.replay.len()) by {
        if after.replay.len() > 0 {
            assert(after.replay[0].0 == after.cursor - after.replay.len() + 1);
        }
    }
    law_resuming_leaves_no_gap(after, id, index);
    let missed = after.replay.skip(projection.cursor - earliest);
    assert forall|k: int| 0 <= k < count implies #[trigger] missed[k] == (
        (projection.cursor + 1 + k) as u64,
        events[k],
    ) by {
        let all = entries.len() - count + k;
        assert(entries[all] == numbered(start.cursor, events)[k]);
        assert(missed[k] == entries[all]);
    }
    assert(polls(after, id, count) =~= Seq::new(
        count,
        |k: int|
            PollModel::Event { cursor: (projection.cursor + 1 + k) as u64, event: events[k] },
    ));
}

/// Reports do not read who is subscribed.
proof fn lemma_reports_beside_the_subscribers(
    a: ProjectionModel,
    b: ProjectionModel,
    reports: Seq<ConversationObservation>,
)
    requires
        a.cursor == b.cursor,
        a.exhausted == b.exhausted,
        a.snapshot == b.snapshot,
        a.replay == b.replay,
        a.replay_limit == b.replay_limit,
    ensures
        ({
            let x = a.applied_all(reports);
            let y = b.applied_all(reports);
            &&& x.cursor == y.cursor
            &&& x.exhausted == y.exhausted
            &&& x.snapshot == y.snapshot
            &&& x.replay == y.replay
            &&& x.replay_limit == y.replay_limit
        }),
        events_of(a, reports) == events_of(b, reports),
    decreases reports.len(),
{
    if reports.len() > 0 {
        let front = reports.drop_last();
        lemma_reports_beside_the_subscribers(a, b, front);
        let x = a.applied_all(front);
        let y = b.applied_all(front);
        if !x.exhausted {
            let step = x.snapshot.reported(reports.last());
            lemma_published_beside_the_subscribers(
                ProjectionModel { snapshot: step.state, ..x },
                ProjectionModel { snapshot: step.state, ..y },
                step.events,
            );
        }
    }
}

proof fn lemma_published_beside_the_subscribers(
    a: ProjectionModel,
    b: ProjectionModel,
    events: Seq<EventModel>,
)
    requires
        a.cursor == b.cursor,
        a.exhausted == b.exhausted,
        a.snapshot == b.snapshot,
        a.replay == b.replay,
        a.replay_limit == b.replay_limit,
    ensures
        ({
            let x = a.published_all(events);
            let y = b.published_all(events);
            &&& x.cursor == y.cursor
            &&& x.exhausted == y.exhausted
            &&& x.snapshot == y.snapshot
            &&& x.replay == y.replay
            &&& x.replay_limit == y.replay_limit
        }),
    decreases events.len(),
{
    if events.len() > 0 {
        lemma_published_beside_the_subscribers(a, b, events.drop_last());
    }
}

/// A publication retains the event behind those that were retained, and drops the oldest ones
/// that no longer fit. As many are retained as fit.
pub proof fn law_the_newest_events_are_retained(projection: ProjectionModel, event: EventModel)
    requires
        projection.well_formed(),
        projection.cursor < u64::MAX,
    ensures
        ({
            let before = projection.replay;
            let after = projection.published(event).replay;
            let fits = before.len() + 1 <= projection.replay_limit;
            &&& fits ==> after.len() == before.len() + 1
            &&& !fits ==> after.len() == projection.replay_limit
            &&& after.len() > 0 ==> after.last() == ((projection.cursor + 1) as u64, event)
            &&& forall|i: int|
                0 <= i < after.len() - 1 ==> #[trigger] after[i] == before[before.len() + 1
                    - after.len() + i]
        }),
{
}

/// A subscription behind a cursor can be served where, and only where, every event behind it
/// is retained and the cursor is none that is still to come.
pub proof fn law_a_subscription_needs_every_event_behind_it(
    projection: ProjectionModel,
    after_cursor: u64,
)
    requires
        projection.well_formed(),
    ensures
        projection.earliest_serviceable() == projection.cursor - projection.replay.len(),
        projection.serviceable(after_cursor) <==> projection.cursor - projection.replay.len()
            <= after_cursor <= projection.cursor,
        projection.serviceable(after_cursor) <==> after_cursor <= projection.cursor && forall|
            missed: u64,
        |
            after_cursor < missed <= projection.cursor ==> #[trigger] is_retained(
                projection,
                missed,
            ),
{
    let oldest = projection.cursor - projection.replay.len();
    assert forall|missed: u64| oldest < missed <= projection.cursor implies #[trigger] is_retained(
        projection,
        missed,
    ) by {
        assert(projection.replay[missed - oldest - 1].0 == missed);
    }
    if after_cursor < oldest {
        assert(!is_retained(projection, oldest as u64));
    }
}

/// Whether the event with a cursor is retained.
pub open spec fn is_retained(projection: ProjectionModel, cursor: u64) -> bool {
    exists|i: int| 0 <= i < projection.replay.len() && (#[trigger] projection.replay[i]).0 == cursor
}

/// A subscriber finds the event behind the last one that it has read. Where it has read all it
/// finds nothing yet, and where that event is no longer retained it is told how far it is
/// behind. Nobody else finds anything.
pub proof fn law_a_subscriber_finds_what_it_has_not_read(projection: ProjectionModel, id: u64)
    requires
        projection.well_formed(),
        !projection.exhausted,
    ensures
        (forall|i: int|
            0 <= i < projection.subscribers.len() ==> (#[trigger] projection.subscribers[i]).id
                != id) ==> projection.poll(id) is Closed,
        forall|i: int|
            0 <= i < projection.subscribers.len() && (#[trigger] projection.subscribers[i]).id == id
                && (forall|j: int|
                0 <= j < i ==> (#[trigger] projection.subscribers[j]).id != id) ==> {
                let read = projection.subscribers[i].consumed;
                let oldest = projection.cursor - projection.replay.len();
                if read == projection.cursor {
                    projection.poll(id) is Pending
                } else if read < oldest {
                    &&& projection.poll(id) matches PollModel::Lagged {
                        after_cursor,
                        earliest_serviceable,
                    }
                    &&& after_cursor == read
                    &&& earliest_serviceable == oldest
                } else {
                    &&& projection.poll(id) matches PollModel::Event { cursor, event }
                    &&& cursor == read + 1
                    &&& projection.replay[read - oldest] == (cursor, event)
                }
            },
{
    let own = crate::projection::is_subscriber(id);
    crate::search::lemma_position(projection.subscribers, own);
    assert forall|i: int|
        0 <= i < projection.subscribers.len() && (#[trigger] projection.subscribers[i]).id == id && (
        forall|j: int|
            0 <= j < i ==> (#[trigger] projection.subscribers[j]).id
                != id) implies projection.subscriber(id) == Some(i) by {
        crate::search::lemma_position_at(projection.subscribers, own, i);
    }
}

/// A new subscriber comes last, with an identity that no other has as long as there are
/// numbers left, and has read all through its cursor. It is woken at once where it is behind.
/// Nothing else changes.
pub proof fn law_a_new_subscriber_has_read_through_its_cursor(
    projection: ProjectionModel,
    after_cursor: u64,
    channel: Arc<Notify>,
)
    requires
        projection.well_formed(),
        projection.next_subscriber_id < u64::MAX,
        after_cursor <= projection.cursor,
    ensures
        ({
            let after = projection.subscribed(after_cursor, channel);
            let new = after.subscribers.last();
            &&& after.well_formed()
            &&& after.subscribers.len() == projection.subscribers.len() + 1
            &&& forall|i: int|
                0 <= i < projection.subscribers.len() ==> #[trigger] after.subscribers[i]
                    == projection.subscribers[i] && after.subscribers[i].id != new.id
            &&& new.id == projection.next_subscriber_id
            &&& after.next_subscriber_id == projection.next_subscriber_id + 1
            &&& new.consumed == after_cursor
            &&& new.channel == channel
            &&& after_cursor < projection.cursor ==> new.signals == 1
            &&& after_cursor == projection.cursor ==> new.signals == 0
            &&& after.snapshot == projection.snapshot
            &&& after.cursor == projection.cursor
            &&& after.exhausted == projection.exhausted
            &&& after.replay == projection.replay
            &&& after.replay_limit == projection.replay_limit
        }),
{
}

/// Whether no two subscribers have the same identity.
pub open spec fn subscribers_are_apart(projection: ProjectionModel) -> bool {
    forall|i: int, j: int|
        0 <= i < j < projection.subscribers.len() ==> (#[trigger] projection.subscribers[i]).id != (
        #[trigger] projection.subscribers[j]).id
}

/// A subscriber that is released is gone, and every other one is there as before. Nothing else
/// changes.
pub proof fn law_a_released_subscriber_is_gone(
    projection: ProjectionModel,
    id: u64,
    other: SubscriberModel,
)
    requires
        subscribers_are_apart(projection),
    ensures
        ({
            let after = projection.unsubscribed(id);
            &&& subscribers_are_apart(after)
            &&& forall|i: int|
                0 <= i < after.subscribers.len() ==> (#[trigger] after.subscribers[i]).id != id
            &&& other.id != id ==> (after.subscribers.contains(other)
                <==> projection.subscribers.contains(other))
            &&& after == ProjectionModel { subscribers: after.subscribers, ..projection }
        }),
{
    let own = crate::projection::is_subscriber(id);
    let before = projection.subscribers;
    let after = projection.unsubscribed(id).subscribers;
    crate::search::lemma_position(before, own);
    match crate::search::position(before, own) {
        Some(index) => {
            assert forall|i: int| 0 <= i < after.len() implies (#[trigger] after[i]).id != id by {
                if i < index {
                    assert(after[i] == before[i]);
                    assert(!own(before[i]));
                } else {
                    assert(after[i] == before[i + 1]);
                    assert(before[index].id != before[i + 1].id);
                }
            }
            assert forall|i: int, j: int| 0 <= i < j < after.len() implies (#[trigger] after[i]).id
                != (#[trigger] after[j]).id by {
                let p = if i < index {
                    i
                } else {
                    i + 1
                };
                let q = if j < index {
                    j
                } else {
                    j + 1
                };
                assert(before[p].id != before[q].id);
            }
            if other.id != id && before.contains(other) {
                let k = choose|k: int| 0 <= k < before.len() && before[k] == other;
                assert(k != index);
                if k < index {
                    assert(after[k] == other);
                } else {
                    assert(after[k - 1] == other);
                }
            }
            if after.contains(other) {
                let k = choose|k: int| 0 <= k < after.len() && after[k] == other;
                if k < index {
                    assert(before[k] == other);
                } else {
                    assert(before[k + 1] == other);
                }
            }
        },
        None => {
            assert forall|i: int| 0 <= i < after.len() implies (#[trigger] after[i]).id != id by {
                assert(!own(before[i]));
            }
        },
    }
}

/// A report makes the read model what the report makes of it, and its events are published
/// behind the others, one cursor each.
pub proof fn law_a_report_is_folded_and_published(
    projection: ProjectionModel,
    report: ConversationObservation,
)
    requires
        projection.well_formed(),
        !projection.exhausted,
        projection.cursor + projection.snapshot.reported(report).events.len() <= u64::MAX,
    ensures
        ({
            let step = projection.snapshot.reported(report);
            let after = projection.applied(report);
            &&& after.snapshot == step.state
            &&& after.cursor == projection.cursor + step.events.len()
            &&& !after.exhausted
            &&& after.replay_limit == projection.replay_limit
            &&& step.events.len() <= projection.replay_limit ==> after.replay.len()
                >= step.events.len() && forall|i: int|
                0 <= i < step.events.len() ==> #[trigger] after.replay[after.replay.len()
                    - step.events.len() + i] == ((projection.cursor + 1 + i) as u64, step.events[i])
            &&& after.well_formed()
        }),
{
    let step = projection.snapshot.reported(report);
    let folded = ProjectionModel { snapshot: step.state, ..projection };
    law_events_are_published_in_order(folded, step.events);
    let all = projection.replay + numbered(projection.cursor, step.events);
    assert(folded.published_all(step.events).replay == crate::projection::retained(
        all,
        projection.replay_limit,
    ));
}

/// Reports are applied in their order: first those that came first, and then the others.
pub proof fn law_reports_are_applied_in_their_order(
    projection: ProjectionModel,
    earlier: Seq<ConversationObservation>,
    later: Seq<ConversationObservation>,
    report: ConversationObservation,
)
    ensures
        projection.applied_all(earlier + later) == projection.applied_all(earlier).applied_all(
            later,
        ),
        projection.applied_all(seq![report]) == projection.applied(report),
        projection.applied_all(Seq::empty()) == projection,
    decreases later.len(),
{
    let one = seq![report];
    assert(one.drop_last() =~= Seq::empty());
    assert(projection.applied_all(one.drop_last()) == projection);
    if later.len() > 0 {
        law_reports_are_applied_in_their_order(projection, earlier, later.drop_last(), report);
        assert((earlier + later).drop_last() =~= earlier + later.drop_last());
    } else {
        assert(earlier + later =~= earlier);
    }
}

} // verus!
