//! The projection: the read model, the cursor, the bounded stream of events and its
//! subscribers, as one state.
//!
//! ```text
//! report -> fold into the read model
//!        -> for each published event: next cursor, into the ring, wake every subscriber
//!
//! poll   -> the next retained event behind the subscriber's cursor, or what stands
//!           in the way
//! ```
//!
//! The ring is the only backlog. A subscriber is a cursor into it, so a slow one costs
//! no memory, and one whose events are gone is told so instead of being given a gap.
use std::collections::VecDeque;
use std::sync::Arc;

use tokio::sync::Notify;
use vstd::prelude::*;

#[allow(unused_imports)]
use crate::event::EventModel;
use crate::event::RuntimeClientEvent;
use crate::identity::{AttemptId, ConversationId};
use crate::journal::RuntimeEventEnvelope;
use crate::message::MessageBlock;
use crate::model::SessionModelView;
use crate::observation::{
    ApprovalMode, ConversationObservation, RuntimeBootstrapSnapshot, TodoSnapshot,
};
#[allow(unused_imports)]
use crate::protocol::ErrorModel;
use crate::protocol::{RuntimeClientCursor, RuntimeClientError, RuntimeClientProtocolEvent};
use crate::share::share;
#[allow(unused_imports)]
use crate::snapshot::{CapabilityModel, ResourcesModel, SnapshotModel, TranscriptPageModel};
use crate::snapshot::{
    CapabilityView, InboundDiagnostics, RuntimeClientContextView, RuntimeClientResourcesView,
    RuntimeClientSnapshot, RuntimeClientTranscriptPage,
};
use crate::wake::WakeHandle;

verus! {

/// How many events are retained where nothing else is asked for.
pub const RUNTIME_CLIENT_REPLAY_LIMIT_DEFAULT: usize = 4096;

/// One registered subscriber: a cursor into the ring and a way to wake the consumer.
struct Subscriber {
    id: u64,
    consumed: RuntimeClientCursor,
    wake: WakeHandle,
}

/// The value of a subscriber.
pub struct SubscriberModel {
    pub id: u64,
    /// The cursor through which the subscriber has consumed.
    pub consumed: u64,
    /// How often the subscriber was woken.
    pub signals: nat,
    /// Where the subscriber's consumer waits.
    pub channel: Arc<Notify>,
}

/// What a subscriber finds.
#[derive(Debug, Clone, PartialEq, Eq)]
pub enum SubscriberPoll {
    /// The next event. The subscriber's cursor is now the event's.
    Event(RuntimeClientProtocolEvent),
    /// Nothing was published behind the subscriber's cursor.
    Pending,
    /// The subscription is not registered.
    Closed,
    /// Events that the subscriber needs are gone. It stays where it is.
    Lagged { after_cursor: RuntimeClientCursor, earliest_serviceable: RuntimeClientCursor },
    /// The stream has no cursor left.
    Exhausted,
}

/// The value of a poll.
pub enum PollModel {
    Event { cursor: u64, event: EventModel },
    Pending,
    Closed,
    Lagged { after_cursor: u64, earliest_serviceable: u64 },
    Exhausted,
}

impl View for SubscriberPoll {
    type V = PollModel;

    open spec fn view(&self) -> PollModel {
        match self {
            SubscriberPoll::Event(event) => PollModel::Event {
                cursor: event.cursor.value,
                event: event.event@,
            },
            SubscriberPoll::Pending => PollModel::Pending,
            SubscriberPoll::Closed => PollModel::Closed,
            SubscriberPoll::Lagged { after_cursor, earliest_serviceable } => PollModel::Lagged {
                after_cursor: after_cursor.value,
                earliest_serviceable: earliest_serviceable.value,
            },
            SubscriberPoll::Exhausted => PollModel::Exhausted,
        }
    }
}

/// The value of a projection.
#[verifier::ext_equal]
pub struct ProjectionModel {
    /// The cursor of the last published event.
    pub cursor: u64,
    /// Whether a publication found no cursor.
    pub exhausted: bool,
    pub snapshot: SnapshotModel,
    /// The retained events with their cursors, oldest first.
    pub replay: Seq<(u64, EventModel)>,
    pub replay_limit: nat,
    /// The subscribers in the order of their registration.
    pub subscribers: Seq<SubscriberModel>,
    pub next_subscriber_id: u64,
}

/// Picks the subscriber with an identity.
pub open spec fn is_subscriber(id: u64) -> spec_fn(SubscriberModel) -> bool {
    |subscriber: SubscriberModel| subscriber.id == id
}

/// Subscribers, each of them woken once more.
pub open spec fn woken(subscribers: Seq<SubscriberModel>) -> Seq<SubscriberModel> {
    Seq::new(
        subscribers.len(),
        |i: int| SubscriberModel { signals: subscribers[i].signals + 1, ..subscribers[i] },
    )
}

/// The newest entries, as many as the limit allows.
pub open spec fn retained<T>(entries: Seq<T>, limit: nat) -> Seq<T> {
    if entries.len() > limit {
        entries.skip(entries.len() - limit)
    } else {
        entries
    }
}

impl ProjectionModel {
    /// A projection that has published nothing.
    pub open spec fn initial(
        conversation_id: ConversationId,
        messages: Seq<Arc<MessageBlock>>,
        capabilities: CapabilityModel,
        model: Arc<SessionModelView>,
        replay_limit: nat,
    ) -> Self {
        ProjectionModel {
            cursor: 0,
            exhausted: false,
            snapshot: SnapshotModel {
                conversation_id,
                shutting_down: false,
                effective_approval_mode: ApprovalMode::Policy,
                pending_approval_mode: None,
                approval_mode_revision: 0,
                durability_failure: None,
                messages,
                transcript: TranscriptPageModel::empty(),
                attempt: None,
                inbound_pending: Seq::empty(),
                last_drain: None,
                pending_interactions: Seq::empty(),
                background: Seq::empty(),
                subagents: Seq::empty(),
                statuses: Seq::empty(),
                context: RuntimeClientContextView::initial(),
                capabilities,
                resources: ResourcesModel::none(),
                model,
                todos: Seq::empty(),
            },
            replay: Seq::empty(),
            replay_limit,
            subscribers: Seq::empty(),
            next_subscriber_id: 1,
        }
    }

    /// What holds of every projection: the retained events are the last ones that were
    /// published, without a gap and no more than the limit allows, and no subscriber is
    /// ahead of the stream.
    pub open spec fn well_formed(self) -> bool {
        &&& self.replay.len() <= self.replay_limit
        &&& self.replay.len() <= self.cursor
        &&& forall|i: int|
            0 <= i < self.replay.len() ==> (#[trigger] self.replay[i]).0 == self.cursor
                - self.replay.len() + 1 + i
        &&& forall|i: int|
            0 <= i < self.subscribers.len() ==> (#[trigger] self.subscribers[i]).consumed
                <= self.cursor
        &&& forall|i: int|
            0 <= i < self.subscribers.len() ==> (#[trigger] self.subscribers[i]).id
                < self.next_subscriber_id || self.next_subscriber_id == u64::MAX
    }

    /// The oldest cursor behind which everything is retained.
    pub open spec fn earliest_serviceable(self) -> u64 {
        if self.replay.len() == 0 {
            self.cursor
        } else if self.replay[0].0 == 0 {
            0
        } else {
            (self.replay[0].0 - 1) as u64
        }
    }

    /// The projection after one event is published. Every subscriber is woken. Where no
    /// cursor is left the event is not published, and the stream is over.
    pub open spec fn published(self, event: EventModel) -> Self {
        if self.cursor == u64::MAX {
            ProjectionModel { exhausted: true, subscribers: woken(self.subscribers), ..self }
        } else {
            let cursor = (self.cursor + 1) as u64;
            ProjectionModel {
                cursor,
                replay: retained(self.replay.push((cursor, event)), self.replay_limit),
                subscribers: woken(self.subscribers),
                ..self
            }
        }
    }

    /// The projection after events are published, in their order.
    pub open spec fn published_all(self, events: Seq<EventModel>) -> Self
        decreases events.len(),
    {
        if events.len() == 0 {
            self
        } else {
            self.published_all(events.drop_last()).published(events.last())
        }
    }

    /// The projection after a report: the read model is folded, and what the report
    /// publishes is published. Once the stream is over nothing is folded.
    pub open spec fn applied(self, observation: ConversationObservation) -> Self {
        if self.exhausted {
            self
        } else {
            let step = self.snapshot.reported(observation);
            (ProjectionModel { snapshot: step.state, ..self }).published_all(step.events)
        }
    }

    /// Whether a report can be applied.
    pub open spec fn accepts(self, observation: ConversationObservation) -> bool {
        self.exhausted || self.snapshot.accepts(observation)
    }

    /// Whether a subscription behind a cursor can be served: everything behind it is
    /// retained, and it is not ahead of the stream.
    pub open spec fn serviceable(self, after_cursor: u64) -> bool {
        self.earliest_serviceable() <= after_cursor <= self.cursor
    }

    /// The projection with one more subscriber, whose consumer waits at the channel. One
    /// that is behind is woken at once.
    pub open spec fn subscribed(self, after_cursor: u64, channel: Arc<Notify>) -> Self {
        ProjectionModel {
            subscribers: self.subscribers.push(
                SubscriberModel {
                    id: self.next_subscriber_id,
                    consumed: after_cursor,
                    signals: if after_cursor < self.cursor {
                        1
                    } else {
                        0
                    },
                    channel,
                },
            ),
            next_subscriber_id: if self.next_subscriber_id < u64::MAX {
                (self.next_subscriber_id + 1) as u64
            } else {
                u64::MAX
            },
            ..self
        }
    }

    /// Where a subscriber is registered.
    pub open spec fn subscriber(self, id: u64) -> Option<int> {
        crate::search::position(self.subscribers, is_subscriber(id))
    }

    /// What a subscriber finds.
    pub open spec fn poll(self, id: u64) -> PollModel {
        if self.exhausted {
            PollModel::Exhausted
        } else {
            match self.subscriber(id) {
                None => PollModel::Closed,
                Some(index) => {
                    let consumed = self.subscribers[index].consumed;
                    if consumed >= self.cursor {
                        PollModel::Pending
                    } else if consumed < self.earliest_serviceable() {
                        PollModel::Lagged {
                            after_cursor: consumed,
                            earliest_serviceable: self.earliest_serviceable(),
                        }
                    } else {
                        let next = consumed - self.earliest_serviceable();
                        PollModel::Event { cursor: self.replay[next].0, event: self.replay[next].1 }
                    }
                },
            }
        }
    }

    /// The projection after a poll: only an event moves the subscriber.
    pub open spec fn polled(self, id: u64) -> Self {
        match (self.poll(id), self.subscriber(id)) {
            (PollModel::Event { cursor, .. }, Some(index)) => ProjectionModel {
                subscribers: self.subscribers.update(
                    index,
                    SubscriberModel { consumed: cursor, ..self.subscribers[index] },
                ),
                ..self
            },
            _ => self,
        }
    }

    /// The projection without a subscriber.
    pub open spec fn unsubscribed(self, id: u64) -> Self {
        match self.subscriber(id) {
            Some(index) => ProjectionModel {
                subscribers: self.subscribers.remove(index),
                ..self
            },
            None => self,
        }
    }
}

/// The projection of one conversation.
///
/// It holds no lock. Whoever shares it guards it with one, and that lock is the point at
/// which every transition that a client can see takes place.
pub struct RuntimeClientProjection {
    cursor: RuntimeClientCursor,
    exhausted: bool,
    snapshot: RuntimeClientSnapshot,
    replay: VecDeque<(RuntimeClientCursor, Arc<RuntimeClientEvent>)>,
    replay_limit: usize,
    subscribers: Vec<Subscriber>,
    next_subscriber_id: u64,
}

/// The values of retained entries.
spec fn entry_models(entries: Seq<(RuntimeClientCursor, Arc<RuntimeClientEvent>)>) -> Seq<
    (u64, EventModel),
> {
    Seq::new(entries.len(), |i: int| (entries[i].0.value, entries[i].1@))
}

/// The values of subscribers.
spec fn subscriber_models(subscribers: Seq<Subscriber>) -> Seq<SubscriberModel> {
    Seq::new(
        subscribers.len(),
        |i: int|
            SubscriberModel {
                id: subscribers[i].id,
                consumed: subscribers[i].consumed.value,
                signals: subscribers[i].wake.signals(),
                channel: subscribers[i].wake.channel(),
            },
    )
}

impl View for RuntimeClientProjection {
    type V = ProjectionModel;

    closed spec fn view(&self) -> ProjectionModel {
        ProjectionModel {
            cursor: self.cursor.value,
            exhausted: self.exhausted,
            snapshot: self.snapshot@,
            replay: entry_models(self.replay@),
            replay_limit: self.replay_limit as nat,
            subscribers: subscriber_models(self.subscribers@),
            next_subscriber_id: self.next_subscriber_id,
        }
    }
}

impl RuntimeClientProjection {
    /// A projection over the canonical messages that stand at its start.
    pub fn new(
        conversation_id: ConversationId,
        initial_messages: Vec<Arc<MessageBlock>>,
        initial_capabilities: Arc<CapabilityView>,
        initial_model: Arc<SessionModelView>,
        replay_limit: usize,
    ) -> (projection: Self)
        ensures
            projection@ == ProjectionModel::initial(
                conversation_id,
                initial_messages@,
                initial_capabilities@,
                initial_model,
                replay_limit as nat,
            ),
            projection@.well_formed(),
    {
        let projection = RuntimeClientProjection {
            cursor: RuntimeClientCursor::new(0),
            exhausted: false,
            snapshot: RuntimeClientSnapshot {
                conversation_id,
                shutting_down: false,
                effective_approval_mode: ApprovalMode::Policy,
                pending_approval_mode: None,
                approval_mode_revision: 0,
                durability_failure: None,
                messages: initial_messages,
                transcript: Arc::new(RuntimeClientTranscriptPage::default()),
                attempt: None,
                inbound: InboundDiagnostics { pending: Vec::new(), last_drain: None },
                pending_interactions: Vec::new(),
                background: Vec::new(),
                subagents: Vec::new(),
                statuses: Vec::new(),
                context: RuntimeClientContextView::default(),
                capabilities: initial_capabilities,
                resources: Arc::new(RuntimeClientResourcesView::default()),
                model: initial_model,
                todos: Arc::new(TodoSnapshot::empty()),
            },
            replay: VecDeque::new(),
            replay_limit,
            subscribers: Vec::new(),
            next_subscriber_id: 1,
        };
        proof {
            assert(projection@.snapshot.statuses =~= Seq::empty());
            assert(projection@.replay =~= Seq::empty());
            assert(projection@.subscribers =~= Seq::empty());
        }
        projection
    }

    /// Installs everything that is true of a runtime before its activation. It is the
    /// state at the cursor where the stream starts: nothing is published.
    pub fn bootstrap(&mut self, seed: &RuntimeBootstrapSnapshot)
        requires
            old(self)@.well_formed(),
        ensures
            final(self)@ == (ProjectionModel {
                snapshot: old(self)@.snapshot.seeded(*seed),
                ..old(self)@
            }),
            final(self)@.well_formed(),
    {
        self.snapshot.bootstrap(seed);
    }

    /// Folds a fact of the journal into a projection that follows no live runtime.
    /// Nothing is published.
    pub fn bootstrap_durable_event(&mut self, envelope: &RuntimeEventEnvelope)
        requires
            old(self)@.well_formed(),
            !old(self)@.exhausted && envelope.event is CompactionCompleted ==> old(
                self,
            )@.snapshot.context.compaction_count < u64::MAX,
        ensures
            final(self)@ == if old(self)@.exhausted {
                old(self)@
            } else {
                ProjectionModel {
                    snapshot: old(self)@.snapshot.with_journal_fact(*envelope),
                    ..old(self)@
                }
            },
            final(self)@.well_formed(),
    {
        if self.exhausted {
            return ;
        }
        self.snapshot.bootstrap_durable_event(envelope);
    }

    /// Shows what a canonical message of an attempt says of tool calls, in a projection
    /// that follows no live runtime. Nothing is published.
    pub fn bootstrap_durable_message(&mut self, attempt_id: &AttemptId, message: &MessageBlock)
        requires
            old(self)@.well_formed(),
        ensures
            final(self)@ == (ProjectionModel {
                snapshot: old(self)@.snapshot.with_message_of(*attempt_id, *message),
                ..old(self)@
            }),
            final(self)@.well_formed(),
    {
        self.snapshot.bootstrap_durable_message(attempt_id, message);
    }

    /// Whether a report can be applied.
    pub fn accepts(&self, observation: &ConversationObservation) -> (accepts: bool)
        ensures
            accepts == self@.accepts(*observation),
    {
        self.exhausted || self.snapshot.accepts(observation)
    }

    /// Applies one report: folds it and publishes what follows.
    pub fn apply(&mut self, observation: ConversationObservation)
        requires
            old(self)@.well_formed(),
            old(self)@.accepts(observation),
        ensures
            final(self)@ == old(self)@.applied(observation),
            final(self)@.well_formed(),
    {
        if self.exhausted {
            return ;
        }
        let ghost before = self@;
        let events = self.snapshot.fold(observation);
        proof {
            reveal(SnapshotModel::reported);
        }
        let ghost step = before.snapshot.reported(observation);
        let ghost folded = ProjectionModel { snapshot: step.state, ..before };
        assert(self@ == folded);
        self.publish_all(events);
    }

    /// Publishes events in their order.
    fn publish_all(&mut self, events: Vec<RuntimeClientEvent>)
        requires
            old(self)@.well_formed(),
        ensures
            final(self)@ == old(self)@.published_all(crate::event::event_models(events@)),
            final(self)@.well_formed(),
    {
        let ghost before = self@;
        let ghost published = events@;
        let ghost models = crate::event::event_models(events@);
        assert(models.take(0) =~= Seq::empty());
        for event in remaining: events
            invariant
                remaining.seq() == published,
                models == crate::event::event_models(published),
                self@ == before.published_all(models.take(remaining.index() as int)),
                self@.well_formed(),
        {
            let ghost done: int = remaining.index() as int;
            assert(models.take(done + 1).drop_last() =~= models.take(done));
            assert(models.take(done + 1).last() == event@);
            self.publish(event);
        }
        assert(models.take(models.len() as int) =~= models);
    }

    /// Publishes one event: takes the next cursor, retains the event and wakes every
    /// subscriber. Waking carries nothing, so no subscriber can hold the publisher up.
    fn publish(&mut self, event: RuntimeClientEvent)
        requires
            old(self)@.well_formed(),
        ensures
            final(self)@ == old(self)@.published(event@),
            final(self)@.well_formed(),
    {
        let ghost before = self@;
        if self.cursor.value == u64::MAX {
            self.exhausted = true;
            self.wake_subscribers();
            return ;
        }
        let cursor = RuntimeClientCursor::new(self.cursor.value + 1);
        self.cursor = cursor;
        let ghost pushed = before.replay.push((cursor.value, event@));
        self.replay.push_back((cursor, Arc::new(event)));
        assert(entry_models(self.replay@) =~= pushed);
        let limit: usize = self.replay_limit;
        while self.replay.len() > limit
            invariant
                limit == self.replay_limit,
                self.cursor == cursor,
                self.exhausted == before.exhausted,
                self.snapshot@ == before.snapshot,
                self.replay_limit == before.replay_limit,
                subscriber_models(self.subscribers@) == before.subscribers,
                self.next_subscriber_id == before.next_subscriber_id,
                self.replay@.len() <= pushed.len(),
                pushed.len() <= limit + 1,
                entry_models(self.replay@) == pushed.skip(pushed.len() - self.replay@.len()),
                retained(pushed, limit as nat).len() <= self.replay@.len(),
            decreases self.replay@.len(),
        {
            let ghost earlier = entry_models(self.replay@);
            let _ = self.replay.pop_front();
            proof {
                assert(entry_models(self.replay@) =~= earlier.skip(1));
                assert(earlier.skip(1) =~= pushed.skip(pushed.len() - self.replay@.len()));
            }
        }
        assert(entry_models(self.replay@) =~= retained(pushed, limit as nat));
        self.wake_subscribers();
    }

    /// Wakes every subscriber.
    fn wake_subscribers(&mut self)
        ensures
            final(self)@ == (ProjectionModel {
                subscribers: woken(old(self)@.subscribers),
                ..old(self)@
            }),
    {
        let ghost before = self@;
        let mut i: usize = 0;
        while i < self.subscribers.len()
            invariant
                i <= self.subscribers@.len(),
                self@ == (ProjectionModel { subscribers: self@.subscribers, ..before }),
                self@.subscribers.len() == before.subscribers.len(),
                forall|k: int|
                    0 <= k < i ==> #[trigger] self@.subscribers[k] == woken(before.subscribers)[k],
                forall|k: int|
                    i <= k < before.subscribers.len() ==> #[trigger] self@.subscribers[k]
                        == before.subscribers[k],
            decreases self.subscribers@.len() - i,
        {
            let ghost current = self@.subscribers;
            self.subscribers[i].wake.signal();
            proof {
                assert(self@.subscribers =~= current.update(
                    i as int,
                    SubscriberModel {
                        signals: current[i as int].signals + 1,
                        ..current[i as int]
                    },
                ));
            }
            i += 1;
        }
        assert(self@.subscribers =~= woken(before.subscribers));
    }

    /// The read model and its cursor, taken together.
    ///
    /// Once the stream is over the read model no longer follows the runtime, so it is not
    /// handed out.
    pub fn snapshot(&self) -> (result: Result<
        (RuntimeClientSnapshot, RuntimeClientCursor),
        RuntimeClientError,
    >)
        ensures
            match result {
                Ok((snapshot, cursor)) => !self@.exhausted && snapshot@ == self@.snapshot
                    && cursor.value == self@.cursor,
                Err(error) => self@.exhausted && error@ == ErrorModel::ProjectionExhausted,
            },
    {
        if self.exhausted {
            return Err(RuntimeClientError::ProjectionExhausted);
        }
        Ok((self.snapshot.clone(), self.cursor))
    }

    /// Replaces the window on the durable transcript, which has cursors of its own.
    pub fn set_transcript_page(&mut self, page: Arc<RuntimeClientTranscriptPage>)
        ensures
            final(self)@ == (ProjectionModel {
                snapshot: SnapshotModel { transcript: page@, ..old(self)@.snapshot },
                ..old(self)@
            }),
    {
        self.snapshot.transcript = page;
    }

    /// The oldest cursor behind which everything is retained: the one before the oldest
    /// retained event, or the current one where nothing is retained.
    fn earliest_serviceable(&self) -> (earliest: RuntimeClientCursor)
        ensures
            earliest.value == self@.earliest_serviceable(),
    {
        if self.replay.len() == 0 {
            self.cursor
        } else {
            let entry = &self.replay[0];
            assert(self@.replay[0].0 == entry.0.value);
            RuntimeClientCursor::new(entry.0.value.saturating_sub(1))
        }
    }

    /// Registers a subscriber that has consumed through `after_cursor`, and gives its
    /// identity and the side on which it waits.
    ///
    /// Nothing is copied for the subscriber. Whether it can be served is decided here, so
    /// one that is registered starts without a gap.
    pub fn subscribe(&mut self, after_cursor: RuntimeClientCursor) -> (result: Result<
        (u64, Arc<Notify>),
        RuntimeClientError,
    >)
        requires
            old(self)@.well_formed(),
        ensures
            final(self)@.well_formed(),
            match result {
                Ok((id, waiter)) => {
                    &&& !old(self)@.exhausted
                    &&& old(self)@.serviceable(after_cursor.value)
                    &&& id == old(self)@.next_subscriber_id
                    &&& final(self)@ == old(self)@.subscribed(after_cursor.value, waiter)
                },
                Err(error) => {
                    &&& final(self)@ == old(self)@
                    &&& error@ == if old(self)@.exhausted {
                        ErrorModel::ProjectionExhausted
                    } else {
                        ErrorModel::ResyncRequired {
                            after_cursor,
                            earliest_serviceable: RuntimeClientCursor {
                                value: old(self)@.earliest_serviceable(),
                            },
                        }
                    }
                    &&& old(self)@.exhausted || !old(self)@.serviceable(after_cursor.value)
                },
            },
    {
        if self.exhausted {
            return Err(RuntimeClientError::ProjectionExhausted);
        }
        let earliest = self.earliest_serviceable();
        if after_cursor.value > self.cursor.value || after_cursor.value < earliest.value {
            return Err(
                RuntimeClientError::ResyncRequired { after_cursor, earliest_serviceable: earliest },
            );
        }
        let ghost before = self@;
        let id: u64 = self.next_subscriber_id;
        self.next_subscriber_id = self.next_subscriber_id.saturating_add(1);
        let mut wake = WakeHandle::new();
        let waiter = wake.waiter();
        if after_cursor.value < self.cursor.value {
            wake.signal();
        }
        self.subscribers.push(Subscriber { id, consumed: after_cursor, wake });
        assert(self@.subscribers =~= before.subscribed(after_cursor.value, waiter).subscribers);
        Ok((id, waiter))
    }

    /// Where a subscriber is registered.
    fn subscriber_index(&self, id: u64) -> (index: Option<usize>)
        ensures
            match index {
                Some(index) => index < self.subscribers@.len() && self@.subscriber(id) == Some(
                    index as int,
                ),
                None => self@.subscriber(id) is None,
            },
    {
        let ghost models = self@.subscribers;
        let ghost test = is_subscriber(id);
        let mut i: usize = 0;
        while i < self.subscribers.len()
            invariant
                i <= self.subscribers@.len(),
                models == self@.subscribers,
                test == is_subscriber(id),
                forall|k: int| 0 <= k < i ==> !test(#[trigger] models[k]),
            decreases self.subscribers@.len() - i,
        {
            if self.subscribers[i].id == id {
                assert(test(models[i as int]));
                proof {
                    crate::search::lemma_position_at(models, test, i as int);
                }
                return Some(i);
            }
            assert(!test(models[i as int]));
            i += 1;
        }
        proof {
            crate::search::lemma_position_none(models, test);
        }
        None
    }

    /// Gives a subscriber the next event behind its cursor, and moves the cursor there.
    ///
    /// Every event is handed out here, one at a time, so no subscriber ever sees a gap.
    /// One whose events are gone is told so and stays where it is, until it subscribes
    /// anew.
    pub fn poll_subscriber(&mut self, subscriber_id: u64) -> (poll: SubscriberPoll)
        requires
            old(self)@.well_formed(),
        ensures
            poll@ == old(self)@.poll(subscriber_id),
            final(self)@ == old(self)@.polled(subscriber_id),
            final(self)@.well_formed(),
    {
        if self.exhausted {
            return SubscriberPoll::Exhausted;
        }
        let earliest = self.earliest_serviceable();
        let index: usize = match self.subscriber_index(subscriber_id) {
            Some(index) => index,
            None => {
                return SubscriberPoll::Closed;
            },
        };
        let ghost before = self@;
        let consumed = self.subscribers[index].consumed;
        assert(before.subscribers[index as int].consumed == consumed.value);
        if consumed.value >= self.cursor.value {
            return SubscriberPoll::Pending;
        }
        if consumed.value < earliest.value {
            return SubscriberPoll::Lagged {
                after_cursor: consumed,
                earliest_serviceable: earliest,
            };
        }
        assert(self@.replay.len() == self.replay@.len());
        let next: usize = (consumed.value - earliest.value) as usize;
        let entry = &self.replay[next];
        let cursor = entry.0;
        let event = share(&entry.1);
        assert(before.replay[next as int] == (cursor.value, event@));
        self.subscribers[index].consumed = cursor;
        assert(self@.subscribers =~= before.polled(subscriber_id).subscribers);
        SubscriberPoll::Event(RuntimeClientProtocolEvent { cursor, event })
    }

    /// Removes a subscriber and wakes it, so that one that waits learns of its end. What
    /// is left is the handle, signalled once more than it was.
    pub fn remove_subscriber(&mut self, subscriber_id: u64) -> (released: Option<WakeHandle>)
        requires
            old(self)@.well_formed(),
        ensures
            final(self)@ == old(self)@.unsubscribed(subscriber_id),
            final(self)@.well_formed(),
            match (released, old(self)@.subscriber(subscriber_id)) {
                (Some(wake), Some(index)) => {
                    &&& wake.signals() == old(self)@.subscribers[index].signals + 1
                    &&& wake.channel() == old(self)@.subscribers[index].channel
                },
                (None, None) => true,
                _ => false,
            },
    {
        let ghost before = self@;
        match self.subscriber_index(subscriber_id) {
            Some(index) => {
                let mut subscriber = self.subscribers.remove(index);
                assert(before.subscribers[index as int].signals == subscriber.wake.signals());
                assert(before.subscribers[index as int].channel == subscriber.wake.channel());
                subscriber.wake.signal();
                assert(self@.subscribers =~= before.subscribers.remove(index as int));
                Some(subscriber.wake)
            },
            None => None,
        }
    }

    /// The cursor of the last published event.
    pub fn cursor(&self) -> (cursor: RuntimeClientCursor)
        ensures
            cursor.value == self@.cursor,
    {
        self.cursor
    }

    /// The read model as it stands, even when the stream is over.
    pub fn snapshot_ref(&self) -> (snapshot: &RuntimeClientSnapshot)
        ensures
            snapshot@ == self@.snapshot,
    {
        &self.snapshot
    }

    /// The read model, unless the stream is over.
    pub fn snapshot_ref_checked(&self) -> (result: Result<
        &RuntimeClientSnapshot,
        RuntimeClientError,
    >)
        ensures
            match result {
                Ok(snapshot) => !self@.exhausted && snapshot@ == self@.snapshot,
                Err(error) => self@.exhausted && error@ == ErrorModel::ProjectionExhausted,
            },
    {
        if self.exhausted {
            return Err(RuntimeClientError::ProjectionExhausted);
        }
        Ok(&self.snapshot)
    }

    /// How many events are retained.
    pub fn replay_len(&self) -> (length: usize)
        ensures
            length == self@.replay.len(),
    {
        self.replay.len()
    }

    /// Starts the cursors behind one that was given out before, as long as nothing is
    /// retained and nobody has subscribed.
    pub fn continue_from(&mut self, cursor: RuntimeClientCursor)
        requires
            old(self)@.well_formed(),
            old(self)@.replay.len() == 0,
            old(self)@.subscribers.len() == 0,
        ensures
            final(self)@ == (ProjectionModel { cursor: cursor.value, ..old(self)@ }),
            final(self)@.well_formed(),
    {
        self.cursor = cursor;
    }
}

} // verus!
