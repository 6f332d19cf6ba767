//! The host: the projection of one conversation and the clients attached to it.
//!
//! At most one client holds the control attachment. Clients that only observe do not
//! compete with it, nor with one another. An attachment is a client's session and
//! nothing more: to attach and to detach never touch what the conversation does.
//!
//! The host holds no lock. Whoever shares it guards it with one, and hands it what the
//! runtime has reported before anything else is asked of it.
use std::sync::Arc;

use tokio::sync::Notify;
use vstd::prelude::*;
use vstd::string::StringExecFns;

use crate::attachment::RuntimeAttachment;
#[allow(unused_imports)]
use crate::attachment::SessionModel;
use crate::control::RuntimeCall;
use crate::endpoint::RuntimeClientEndpoint;
#[allow(unused_imports)]
use crate::endpoint::EndpointModel;
use crate::identity::{AgentId, AttachmentId, AttemptId, ConversationId, ToolExecutionId};
use crate::message::UserContentBlock;
use crate::model::SessionModelConfig;
use crate::observation::{ConversationObservation, RuntimeBootstrapSnapshot};
#[allow(unused_imports)]
use crate::projection::{PollModel, ProjectionModel};
use crate::projection::{
    RuntimeClientProjection, SubscriberPoll, RUNTIME_CLIENT_REPLAY_LIMIT_DEFAULT,
};
#[allow(unused_imports)]
use crate::protocol::{ErrorModel, ResultModel};
use crate::protocol::{
    RuntimeClientCursor, RuntimeClientError, RuntimeClientProtocolEvent, RuntimeClientResult,
    RUNTIME_CLIENT_PROTOCOL_VERSION,
};
use crate::share::{share, share_all};
use crate::snapshot::{RuntimeClientAttemptPhase, RuntimeClientSnapshot};
use crate::text::append_decimal;
use crate::views::capability_view;

verus! {

/// One attached client.
struct AttachmentState {
    attachment_id: AttachmentId,
    /// The subscriber that was registered for it last.
    subscriber_id: Option<u64>,
}

/// The value of an attached client.
#[verifier::ext_equal]
pub struct AttachmentModel {
    pub id: Seq<char>,
    pub subscriber_id: Option<u64>,
}

impl View for AttachmentState {
    type V = AttachmentModel;

    closed spec fn view(&self) -> AttachmentModel {
        AttachmentModel { id: self.attachment_id@, subscriber_id: self.subscriber_id }
    }
}

/// The host of one conversation.
pub struct RuntimeClientHost {
    conversation_id: ConversationId,
    agent_id: AgentId,
    projection: RuntimeClientProjection,
    /// The client that may ask for changes.
    control: Option<AttachmentState>,
    /// The clients that only observe.
    observers: Vec<AttachmentState>,
    next_attachment_seq: u64,
}

/// The value of a host.
#[verifier::ext_equal]
pub struct HostModel {
    pub conversation_id: ConversationId,
    pub agent_id: AgentId,
    pub projection: ProjectionModel,
    pub control: Option<AttachmentModel>,
    pub observers: Seq<AttachmentModel>,
    /// How many attachments were named.
    pub next_attachment_seq: u64,
}

/// The values of attached clients.
spec fn attachment_models(attachments: Seq<AttachmentState>) -> Seq<AttachmentModel> {
    Seq::new(attachments.len(), |i: int| attachments[i]@)
}

spec fn control_model(control: Option<AttachmentState>) -> Option<AttachmentModel> {
    match control {
        Some(attachment) => Some(attachment@),
        None => None,
    }
}

impl View for RuntimeClientHost {
    type V = HostModel;

    closed spec fn view(&self) -> HostModel {
        HostModel {
            conversation_id: self.conversation_id,
            agent_id: self.agent_id,
            projection: self.projection@,
            control: control_model(self.control),
            observers: attachment_models(self.observers@),
            next_attachment_seq: self.next_attachment_seq,
        }
    }
}

/// The name of an attachment.
pub open spec fn attachment_name(number: nat) -> Seq<char> {
    "attachment-"@ + crate::text::decimal(number)
}

fn name_attachment(number: u64) -> (id: AttachmentId)
    ensures
        id@ == attachment_name(number as nat),
{
    let mut name = "attachment-".to_string();
    append_decimal(&mut name, number);
    AttachmentId::new(name.as_str())
}

/// Picks the client with an attachment identity.
pub open spec fn is_attachment(id: Seq<char>) -> spec_fn(AttachmentModel) -> bool {
    |attachment: AttachmentModel| attachment.id == id
}

impl HostModel {
    /// The number of the next attachment.
    pub open spec fn next_number(self) -> u64 {
        if self.next_attachment_seq < u64::MAX {
            (self.next_attachment_seq + 1) as u64
        } else {
            u64::MAX
        }
    }

    /// Why a client cannot be attached, if it cannot.
    pub open spec fn refusal(self, protocol_version: u16, read_only: bool) -> Option<ErrorModel> {
        if protocol_version != RUNTIME_CLIENT_PROTOCOL_VERSION {
            Some(
                ErrorModel::UnsupportedProtocolVersion {
                    supported: RUNTIME_CLIENT_PROTOCOL_VERSION,
                    requested: protocol_version,
                },
            )
        } else if !read_only && self.control is Some {
            Some(ErrorModel::AttachmentInUse { existing_attachment_id: self.control->Some_0.id })
        } else if self.projection.exhausted {
            Some(ErrorModel::ProjectionExhausted)
        } else {
            None
        }
    }

    /// The client that is attached next.
    pub open spec fn newcomer(self) -> AttachmentModel {
        AttachmentModel { id: attachment_name(self.next_number() as nat), subscriber_id: None }
    }

    /// The host with one more client.
    pub open spec fn attached(self, read_only: bool) -> Self {
        if read_only {
            HostModel {
                observers: self.observers.push(self.newcomer()),
                next_attachment_seq: self.next_number(),
                ..self
            }
        } else {
            HostModel {
                control: Some(self.newcomer()),
                next_attachment_seq: self.next_number(),
                ..self
            }
        }
    }

    /// What a client is told when it is attached.
    pub open spec fn initialized(self) -> ResultModel {
        ResultModel::Initialized {
            attachment_id: self.newcomer().id,
            conversation_id: self.conversation_id,
            agent_id: self.agent_id,
            snapshot: self.projection.snapshot,
            cursor: self.projection.cursor,
        }
    }

    /// Whether a client holds the control attachment.
    pub open spec fn is_control(self, id: Seq<char>) -> bool {
        self.control matches Some(attachment) && attachment.id == id
    }

    /// The attached client with an identity.
    pub open spec fn attachment(self, id: Seq<char>) -> Option<AttachmentModel> {
        if self.is_control(id) {
            self.control
        } else {
            match crate::search::position(self.observers, is_attachment(id)) {
                Some(index) => Some(self.observers[index]),
                None => None,
            }
        }
    }

    /// The host without a client, and without its subscriber. Nothing else changes.
    pub open spec fn detached(self, id: Seq<char>) -> Self {
        match self.attachment(id) {
            None => self,
            Some(attachment) => {
                let released = HostModel {
                    projection: match attachment.subscriber_id {
                        Some(subscriber) => self.projection.unsubscribed(subscriber),
                        None => self.projection,
                    },
                    ..self
                };
                if self.is_control(id) {
                    HostModel { control: None, ..released }
                } else {
                    HostModel {
                        observers: self.observers.remove(
                            crate::search::position(
                                self.observers,
                                is_attachment(id),
                            )->Some_0,
                        ),
                        ..released
                    }
                }
            },
        }
    }

    /// The host with another subscriber of a client.
    pub open spec fn with_subscriber(self, id: Seq<char>, subscriber_id: u64) -> Self {
        if self.is_control(id) {
            HostModel {
                control: Some(AttachmentModel { id, subscriber_id: Some(subscriber_id) }),
                ..self
            }
        } else {
            HostModel {
                observers: crate::search::change_first(
                    self.observers,
                    is_attachment(id),
                    |attachment: AttachmentModel|
                        AttachmentModel { subscriber_id: Some(subscriber_id), ..attachment },
                ),
                ..self
            }
        }
    }

    /// The host after the subscriber of a client was released, so that it can subscribe
    /// anew.
    pub open spec fn resubscribing(self, id: Seq<char>) -> Self {
        match self.attachment(id) {
            Some(AttachmentModel { subscriber_id: Some(subscriber), .. }) => HostModel {
                projection: self.projection.unsubscribed(subscriber),
                ..self
            },
            _ => self,
        }
    }

    /// Why a client cannot subscribe behind a cursor, if it cannot.
    pub open spec fn subscription_refusal(self, id: Seq<char>, after_cursor: u64) -> Option<
        ErrorModel,
    > {
        let stream = self.resubscribing(id).projection;
        if self.attachment(id) is None {
            Some(ErrorModel::NotAttached)
        } else if stream.exhausted {
            Some(ErrorModel::ProjectionExhausted)
        } else if !stream.serviceable(after_cursor) {
            Some(
                ErrorModel::ResyncRequired {
                    after_cursor: RuntimeClientCursor { value: after_cursor },
                    earliest_serviceable: RuntimeClientCursor {
                        value: stream.earliest_serviceable(),
                    },
                },
            )
        } else {
            None
        }
    }

    /// The host after a client has subscribed behind a cursor, to wait at the channel.
    pub open spec fn subscribed(
        self,
        id: Seq<char>,
        after_cursor: u64,
        channel: Arc<Notify>,
    ) -> Self {
        let released = self.resubscribing(id);
        (HostModel {
            projection: released.projection.subscribed(after_cursor, channel),
            ..released
        }).with_subscriber(id, released.projection.next_subscriber_id)
    }

    /// A result, as long as the stream goes on.
    pub open spec fn unless_exhausted(self, result: ResultModel) -> Result<
        ResultModel,
        ErrorModel,
    > {
        if self.projection.exhausted {
            Err(ErrorModel::ProjectionExhausted)
        } else {
            Ok(result)
        }
    }

    /// The attempt that can be cancelled: the current one, unless it has ended.
    pub open spec fn cancellable(self) -> Option<AttemptId> {
        match self.projection.snapshot.attempt {
            Some(attempt) => if attempt.phase is Settled {
                None
            } else {
                Some(attempt.attempt_id)
            },
            None => None,
        }
    }

    /// Whether this is the host after reports, in their order.
    pub open spec fn follows(self, before: Self, reports: Seq<ConversationObservation>) -> bool {
        self == HostModel { projection: before.projection.applied_all(reports), ..before }
    }

    /// What holds of every host.
    pub open spec fn well_formed(self) -> bool {
        self.projection.well_formed()
    }
}

impl ProjectionModel {
    /// The projection after reports, in their order.
    pub open spec fn applied_all(self, observations: Seq<ConversationObservation>) -> Self
        decreases observations.len(),
    {
        if observations.len() == 0 {
            self
        } else {
            self.applied_all(observations.drop_last()).applied(observations.last())
        }
    }
}

/// One delivery of the stream of events.
#[derive(Debug, Clone, PartialEq, Eq)]
pub enum EventDelivery {
    /// The next event.
    Event(RuntimeClientProtocolEvent),
    /// Nothing was published yet behind what was delivered.
    Pending,
    /// The subscription was released. The stream is over.
    Closed,
    /// Events that the subscription still needed are gone. It stays where it is: the
    /// client has to subscribe anew, or take a fresh snapshot.
    ResyncRequired {
        after_cursor: RuntimeClientCursor,
        earliest_serviceable: RuntimeClientCursor,
    },
    /// The stream has no cursor left.
    Exhausted,
}

impl View for EventDelivery {
    type V = PollModel;

    open spec fn view(&self) -> PollModel {
        match self {
            EventDelivery::Event(event) => PollModel::Event {
                cursor: event.cursor.value,
                event: event.event@,
            },
            EventDelivery::Pending => PollModel::Pending,
            EventDelivery::Closed => PollModel::Closed,
            EventDelivery::ResyncRequired {
                after_cursor,
                earliest_serviceable,
            } => PollModel::Lagged {
                after_cursor: after_cursor.value,
                earliest_serviceable: earliest_serviceable.value,
            },
            EventDelivery::Exhausted => PollModel::Exhausted,
        }
    }
}

/// One registration with the stream of events, and where its consumer waits.
pub struct EventSubscription {
    subscriber_id: u64,
    notify: Arc<Notify>,
}

impl EventSubscription {
    /// The identity of the registration.
    pub closed spec fn registration_spec(&self) -> u64 {
        self.subscriber_id
    }

    /// The identity of the registration.
    pub fn registration(&self) -> (id: u64)
        ensures
            id == self.registration_spec(),
    {
        self.subscriber_id
    }

    /// Whether this is another handle to the same registration.
    pub fn same_registration(&self, other: &Self) -> (same: bool)
        ensures
            same == (self.registration_spec() == other.registration_spec()),
    {
        self.subscriber_id == other.subscriber_id
    }

    /// Where the consumer waits.
    pub closed spec fn channel(&self) -> Arc<Notify> {
        self.notify
    }

    /// Where the consumer waits. A signal that comes before it waits is kept for it.
    pub fn waiter(&self) -> (waiter: Arc<Notify>)
        ensures
            waiter == self.channel(),
    {
        share(&self.notify)
    }

    /// The next delivery, without waiting.
    pub fn try_next(&self, host: &mut RuntimeClientHost) -> (delivery: EventDelivery)
        requires
            old(host)@.well_formed(),
        ensures
            delivery@ == old(host)@.projection.poll(self.registration_spec()),
            final(host)@ == (HostModel {
                projection: old(host)@.projection.polled(self.registration_spec()),
                ..old(host)@
            }),
            final(host)@.well_formed(),
    {
        host.poll(self.subscriber_id)
    }
}

impl Clone for EventSubscription {
    fn clone(&self) -> (copy: Self)
        ensures
            copy.registration_spec() == self.registration_spec(),
            copy.channel() == self.channel(),
    {
        EventSubscription { subscriber_id: self.subscriber_id, notify: share(&self.notify) }
    }
}

/// Why a host could not be made.
#[derive(Debug, Clone, PartialEq, Eq)]
pub enum HostConstructionError {
    /// The runtime is bound to a host, once and for all. A client that comes back gets a
    /// new attachment, not a new host.
    RuntimeClientAlreadyBound { conversation_id: ConversationId },
    /// Somebody else observes the runtime.
    ObservationBridgeAlreadyInstalled { conversation_id: ConversationId },
    /// A host is bound before its runtime is activated, or not at all.
    RuntimeAlreadyActivated { conversation_id: ConversationId },
    /// The durable authority had no coherent state to start from.
    Durable(String),
}

impl HostConstructionError {
    /// Whether the binding that was claimed is to be given back: always, but where it was
    /// never had.
    pub open spec fn releases_binding_spec(self) -> bool {
        !(self is RuntimeClientAlreadyBound)
    }

    /// Whether the binding that was claimed is to be given back.
    pub fn releases_binding(&self) -> (releases: bool)
        ensures
            releases == self.releases_binding_spec(),
    {
        match self {
            HostConstructionError::RuntimeClientAlreadyBound { .. } => false,
            HostConstructionError::ObservationBridgeAlreadyInstalled { .. }
            | HostConstructionError::RuntimeAlreadyActivated { .. }
            | HostConstructionError::Durable(_) => true,
        }
    }

    /// The error in words.
    pub open spec fn message_spec(self) -> Seq<char> {
        match self {
            HostConstructionError::RuntimeClientAlreadyBound {
                conversation_id,
            } => "the runtime identity of conversation "@ + conversation_id@
                + " is already bound to a Runtime Client host"@,
            HostConstructionError::ObservationBridgeAlreadyInstalled {
                conversation_id,
            } => "the conversation runtime of "@ + conversation_id@
                + " already has an observation bridge installed"@,
            HostConstructionError::RuntimeAlreadyActivated {
                conversation_id,
            } => "the conversation runtime of "@ + conversation_id@
                + " is already activated; a Runtime Client host binds before activation"@,
            HostConstructionError::Durable(message) => "durable conversation bootstrap failed: "@ + message@,
        }
    }

    /// The error in words.
    pub fn message(&self) -> (message: String)
        ensures
            message@ == self.message_spec(),
    {
        match self {
            HostConstructionError::RuntimeClientAlreadyBound { conversation_id } => {
                let mut text = "the runtime identity of conversation ".to_string();
                text.append(conversation_id.as_str());
                text.append(" is already bound to a Runtime Client host");
                text
            },
            HostConstructionError::ObservationBridgeAlreadyInstalled { conversation_id } => {
                let mut text = "the conversation runtime of ".to_string();
                text.append(conversation_id.as_str());
                text.append(" already has an observation bridge installed");
                text
            },
            HostConstructionError::RuntimeAlreadyActivated { conversation_id } => {
                let mut text = "the conversation runtime of ".to_string();
                text.append(conversation_id.as_str());
                text.append(
                    " is already activated; a Runtime Client host binds before activation",
                );
                text
            },
            HostConstructionError::Durable(message) => {
                let mut text = "durable conversation bootstrap failed: ".to_string();
                text.append(message.as_str());
                text
            },
        }
    }
}

/// Why a runtime let nobody observe it.
#[derive(Debug, Clone, PartialEq, Eq)]
pub enum RuntimeBootstrapError {
    BridgeAlreadyInstalled { conversation_id: ConversationId },
    RuntimeAlreadyActivated { conversation_id: ConversationId },
    Durable(String),
}

/// What a host is made with.
#[derive(Debug, Clone, PartialEq, Eq)]
pub struct RuntimeClientHostConfig {
    /// The agent of the runtime.
    pub agent_id: AgentId,
    /// How many events are retained, if not as many as usual.
    pub replay_limit: Option<usize>,
}

impl HostModel {
    /// The host over a runtime as it was before its activation. Nothing was published,
    /// and nobody is attached.
    pub open spec fn bound(
        config: RuntimeClientHostConfig,
        seed: RuntimeBootstrapSnapshot,
    ) -> Self {
        let initial = ProjectionModel::initial(
            seed.conversation_id,
            seed.messages@,
            crate::views::capability_view_spec(seed.capabilities, seed.availability),
            seed.model,
            match config.replay_limit {
                Some(limit) => limit as nat,
                None => RUNTIME_CLIENT_REPLAY_LIMIT_DEFAULT as nat,
            },
        );
        HostModel {
            conversation_id: seed.conversation_id,
            agent_id: config.agent_id,
            projection: ProjectionModel { snapshot: initial.snapshot.seeded(seed), ..initial },
            control: None,
            observers: Seq::empty(),
            next_attachment_seq: 0,
        }
    }
}

/// The error of a host whose runtime lets nobody observe it.
pub open spec fn construction_error(error: RuntimeBootstrapError) -> HostConstructionError {
    match error {
        RuntimeBootstrapError::BridgeAlreadyInstalled {
            conversation_id,
        } => HostConstructionError::ObservationBridgeAlreadyInstalled { conversation_id },
        RuntimeBootstrapError::RuntimeAlreadyActivated {
            conversation_id,
        } => HostConstructionError::RuntimeAlreadyActivated { conversation_id },
        RuntimeBootstrapError::Durable(message) => HostConstructionError::Durable(message),
    }
}

impl RuntimeClientHost {
    /// The next delivery to a subscriber.
    pub fn poll(&mut self, subscriber_id: u64) -> (delivery: EventDelivery)
        requires
            old(self)@.well_formed(),
        ensures
            delivery@ == old(self)@.projection.poll(subscriber_id),
            final(self)@ == (HostModel {
                projection: old(self)@.projection.polled(subscriber_id),
                ..old(self)@
            }),
            final(self)@.well_formed(),
    {
        match self.projection.poll_subscriber(subscriber_id) {
            SubscriberPoll::Event(event) => EventDelivery::Event(event),
            SubscriberPoll::Pending => EventDelivery::Pending,
            SubscriberPoll::Closed => EventDelivery::Closed,
            SubscriberPoll::Lagged {
                after_cursor,
                earliest_serviceable,
            } => EventDelivery::ResyncRequired { after_cursor, earliest_serviceable },
            SubscriberPoll::Exhausted => EventDelivery::Exhausted,
        }
    }

    /// The conversation of this host.
    pub fn conversation_id(&self) -> (id: &ConversationId)
        ensures
            *id == self@.conversation_id,
    {
        &self.conversation_id
    }

    /// The first step to a host, after the one-time binding of the runtime was asked for:
    /// where it was refused there is nothing to do but to say so, and nothing to give
    /// back.
    pub fn claim(claimed: bool, conversation_id: &ConversationId) -> (result: Result<
        (),
        HostConstructionError,
    >)
        ensures
            match result {
                Ok(()) => claimed,
                Err(error) => !claimed && error
                    == (HostConstructionError::RuntimeClientAlreadyBound {
                    conversation_id: *conversation_id,
                }) && !error.releases_binding_spec(),
            },
    {
        if claimed {
            Ok(())
        } else {
            Err(
                HostConstructionError::RuntimeClientAlreadyBound {
                    conversation_id: conversation_id.clone(),
                },
            )
        }
    }

    /// The second step to a host, after the runtime was asked for its state and its
    /// reports at one moment. What the runtime gave becomes the state at which the stream
    /// starts. Where it gave nothing there is no host, and the binding that was claimed is
    /// to be given back.
    pub fn new(
        config: RuntimeClientHostConfig,
        handshake: Result<RuntimeBootstrapSnapshot, RuntimeBootstrapError>,
    ) -> (construction: Result<Self, HostConstructionError>)
        ensures
            match handshake {
                Ok(seed) => construction matches Ok(host) && host@ == HostModel::bound(config, seed)
                    && host@.well_formed(),
                Err(error) => construction == Err::<Self, HostConstructionError>(
                    construction_error(error),
                ) && construction_error(error).releases_binding_spec(),
            },
    {
        let seed = match handshake {
            Ok(seed) => seed,
            Err(error) => {
                return Err(
                    match error {
                        RuntimeBootstrapError::BridgeAlreadyInstalled {
                            conversation_id,
                        } => HostConstructionError::ObservationBridgeAlreadyInstalled {
                            conversation_id,
                        },
                        RuntimeBootstrapError::RuntimeAlreadyActivated {
                            conversation_id,
                        } => HostConstructionError::RuntimeAlreadyActivated { conversation_id },
                        RuntimeBootstrapError::Durable(message) => HostConstructionError::Durable(
                            message,
                        ),
                    },
                );
            },
        };
        let replay_limit: usize = match config.replay_limit {
            Some(limit) => limit,
            None => RUNTIME_CLIENT_REPLAY_LIMIT_DEFAULT,
        };
        let mut projection = RuntimeClientProjection::new(
            seed.conversation_id.clone(),
            share_all(&seed.messages),
            Arc::new(capability_view(&seed.capabilities, &seed.availability)),
            share(&seed.model),
            replay_limit,
        );
        projection.bootstrap(&seed);
        let host = RuntimeClientHost {
            conversation_id: seed.conversation_id,
            agent_id: config.agent_id,
            projection,
            control: None,
            observers: Vec::new(),
            next_attachment_seq: 0,
        };
        assert(host@.observers =~= Seq::empty());
        Ok(host)
    }

    /// Applies what the runtime has reported, in the order of the reports, up to the
    /// first one that cannot be applied, and says how many were.
    pub fn apply_pending(&mut self, pending: Vec<ConversationObservation>) -> (applied: usize)
        requires
            old(self)@.well_formed(),
        ensures
            applied <= pending@.len(),
            final(self)@.follows(old(self)@, pending@.take(applied as int)),
            applied < pending@.len() ==> !final(self)@.projection.accepts(
                pending@[applied as int],
            ),
            final(self)@.well_formed(),
    {
        let ghost reports = pending@;
        let count: usize = pending.len();
        let mut applied: usize = 0;
        assert(reports.take(0) =~= Seq::empty());
        for observation in remaining: pending
            invariant
                remaining.seq() == reports,
                reports.len() == count,
                applied == remaining.index(),
                self@.follows(old(self)@, reports.take(applied as int)),
                self@.well_formed(),
        {
            if !self.projection.accepts(&observation) {
                return applied;
            }
            assert(reports.take(applied + 1).drop_last() =~= reports.take(applied as int));
            assert(reports.take(applied + 1).last() == observation);
            self.projection.apply(observation);
            applied += 1;
        }
        applied
    }

    /// Attaches the client that may ask for changes.
    ///
    /// Its identity, the read model and the cursor are taken at one moment. A client that
    /// is attached stays so: a second one is refused.
    pub fn attach(&mut self, protocol_version: u16) -> (result: Result<
        (RuntimeAttachment, RuntimeClientResult),
        RuntimeClientError,
    >)
        ensures
            match result {
                Ok((attachment, initialized)) => {
                    &&& old(self)@.refusal(protocol_version, false) is None
                    &&& attachment@ == SessionModel::fresh(old(self)@.newcomer().id, false)
                    &&& initialized@ == old(self)@.initialized()
                    &&& final(self)@ == old(self)@.attached(false)
                },
                Err(error) => old(self)@.refusal(protocol_version, false) == Some(error@)
                    && final(self)@ == old(self)@,
            },
    {
        self.take_in(protocol_version, false)
    }

    /// Attaches a client that may only observe.
    pub fn attach_read_only(&mut self, protocol_version: u16) -> (result: Result<
        (RuntimeAttachment, RuntimeClientResult),
        RuntimeClientError,
    >)
        ensures
            match result {
                Ok((attachment, initialized)) => {
                    &&& old(self)@.refusal(protocol_version, true) is None
                    &&& attachment@ == SessionModel::fresh(old(self)@.newcomer().id, true)
                    &&& initialized@ == old(self)@.initialized()
                    &&& final(self)@ == old(self)@.attached(true)
                },
                Err(error) => old(self)@.refusal(protocol_version, true) == Some(error@)
                    && final(self)@ == old(self)@,
            },
    {
        self.take_in(protocol_version, true)
    }

    fn take_in(&mut self, protocol_version: u16, read_only: bool) -> (result: Result<
        (RuntimeAttachment, RuntimeClientResult),
        RuntimeClientError,
    >)
        ensures
            match result {
                Ok((attachment, initialized)) => {
                    &&& old(self)@.refusal(protocol_version, read_only) is None
                    &&& attachment@ == SessionModel::fresh(old(self)@.newcomer().id, read_only)
                    &&& initialized@ == old(self)@.initialized()
                    &&& final(self)@ == old(self)@.attached(read_only)
                },
                Err(error) => old(self)@.refusal(protocol_version, read_only) == Some(error@)
                    && final(self)@ == old(self)@,
            },
    {
        let ghost before = self@;
        if protocol_version != RUNTIME_CLIENT_PROTOCOL_VERSION {
            return Err(
                RuntimeClientError::UnsupportedProtocolVersion {
                    supported: RUNTIME_CLIENT_PROTOCOL_VERSION,
                    requested: protocol_version,
                },
            );
        }
        if !read_only {
            if let Some(existing) = &self.control {
                return Err(
                    RuntimeClientError::AttachmentInUse {
                        existing_attachment_id: existing.attachment_id.clone(),
                    },
                );
            }
        }
        let (snapshot, cursor) = match self.projection.snapshot() {
            Ok(taken) => taken,
            Err(error) => {
                return Err(error);
            },
        };
        self.next_attachment_seq = self.next_attachment_seq.saturating_add(1);
        let attachment_id = name_attachment(self.next_attachment_seq);
        let state = AttachmentState { attachment_id: attachment_id.clone(), subscriber_id: None };
        if read_only {
            self.observers.push(state);
            assert(self@.observers =~= before.observers.push(state@));
        } else {
            self.control = Some(state);
        }
        Ok(
            (
                RuntimeAttachment::new(attachment_id.clone(), read_only),
                RuntimeClientResult::Initialized {
                    attachment_id,
                    conversation_id: self.conversation_id.clone(),
                    agent_id: self.agent_id.clone(),
                    snapshot,
                    cursor,
                },
            ),
        )
    }

    /// Whether a client holds the control attachment.
    fn holds_control(&self, id: &AttachmentId) -> (holds: bool)
        ensures
            holds == self@.is_control(id@),
    {
        match &self.control {
            Some(attachment) => attachment.attachment_id.same(id),
            None => false,
        }
    }

    /// Where a client is among those that only observe.
    fn observer_index(&self, id: &AttachmentId) -> (index: Option<usize>)
        ensures
            match index {
                Some(index) => index < self.observers@.len() && crate::search::position(
                    self@.observers,
                    is_attachment(id@),
                ) == Some(index as int),
                None => crate::search::position(self@.observers, is_attachment(id@)) is None,
            },
    {
        let ghost models = self@.observers;
        let ghost test = is_attachment(id@);
        let mut i: usize = 0;
        while i < self.observers.len()
            invariant
                i <= self.observers@.len(),
                models == attachment_models(self.observers@),
                test == is_attachment(id@),
                forall|k: int| 0 <= k < i ==> !test(#[trigger] models[k]),
            decreases self.observers@.len() - i,
        {
            if self.observers[i].attachment_id.same(id) {
                assert(test(models[i as int]));
                proof {
                    crate::search::lemma_position_at(models, test, i as int);
                }
                return Some(i);
            }
            assert(!test(models[i as int]));
            i += 1;
        }
        proof {
            crate::search::lemma_position_none(models, test);
        }
        None
    }

    /// Detaches a client and releases its subscriber, which is told so. Nothing happens
    /// where the client is not attached. To detach is never to cancel.
    pub fn detach(&mut self, attachment_id: &AttachmentId)
        requires
            old(self)@.well_formed(),
        ensures
            final(self)@ == old(self)@.detached(attachment_id@),
            final(self)@.well_formed(),
    {
        let ghost before = self@;
        if self.holds_control(attachment_id) {
            if let Some(attachment) = self.control.take() {
                if let Some(subscriber) = attachment.subscriber_id {
                    let _ = self.projection.remove_subscriber(subscriber);
                }
            }
        } else if let Some(index) = self.observer_index(attachment_id) {
            let attachment = self.observers.remove(index);
            assert(before.observers[index as int] == attachment@);
            assert(self@.observers =~= before.observers.remove(index as int));
            if let Some(subscriber) = attachment.subscriber_id {
                let _ = self.projection.remove_subscriber(subscriber);
            }
        }
    }

    /// Releases a subscriber whose consumer is gone.
    pub fn release(&mut self, subscriber_id: u64)
        requires
            old(self)@.well_formed(),
        ensures
            final(self)@ == (HostModel {
                projection: old(self)@.projection.unsubscribed(subscriber_id),
                ..old(self)@
            }),
            final(self)@.well_formed(),
    {
        let _ = self.projection.remove_subscriber(subscriber_id);
    }

    /// Subscribes an attached client behind a cursor, in place of what it had before.
    ///
    /// The subscription gets every event that is published from then on, and those that
    /// lie between; where that cannot be, the client is told so, and the one it had
    /// before is released all the same.
    pub fn subscribe_events(
        &mut self,
        attachment_id: &AttachmentId,
        after_cursor: RuntimeClientCursor,
    ) -> (result: Result<(EventSubscription, RuntimeClientResult), RuntimeClientError>)
        requires
            old(self)@.well_formed(),
        ensures
            final(self)@.well_formed(),
            match result {
                Ok((subscription, subscribed)) => {
                    &&& old(self)@.subscription_refusal(attachment_id@, after_cursor.value) is None
                    &&& subscription.registration_spec() == old(self)@.projection.next_subscriber_id
                    &&& subscribed@ == ResultModel::Subscribed { after_cursor: after_cursor.value }
                    &&& final(self)@ == old(self)@.subscribed(
                        attachment_id@,
                        after_cursor.value,
                        subscription.channel(),
                    )
                },
                Err(error) => {
                    &&& old(self)@.subscription_refusal(attachment_id@, after_cursor.value) == Some(
                        error@,
                    )
                    &&& final(self)@ == old(self)@.resubscribing(attachment_id@)
                },
            },
    {
        let ghost before = self@;
        let ghost id = attachment_id@;
        let is_control = self.holds_control(attachment_id);
        let mut index: usize = 0;
        if !is_control {
            match self.observer_index(attachment_id) {
                Some(found) => {
                    index = found;
                },
                None => {
                    return Err(RuntimeClientError::NotAttached);
                },
            }
        }
        let previous: Option<u64> = if is_control {
            match &self.control {
                Some(attachment) => attachment.subscriber_id,
                None => None,
            }
        } else {
            self.observers[index].subscriber_id
        };
        assert(before.attachment(id) matches Some(attachment) && attachment.subscriber_id
            == previous) by {
            if !is_control {
                assert(before.observers[index as int] == self.observers@[index as int]@);
            }
        }
        if let Some(subscriber) = previous {
            let _ = self.projection.remove_subscriber(subscriber);
        }
        let ghost released = before.resubscribing(id);
        assert(self@ == released);
        let (subscriber_id, notify) = match self.projection.subscribe(after_cursor) {
            Ok(registered) => registered,
            Err(error) => {
                return Err(error);
            },
        };
        if is_control {
            if let Some(attachment) = &mut self.control {
                attachment.subscriber_id = Some(subscriber_id);
            }
        } else {
            self.observers[index].subscriber_id = Some(subscriber_id);
            assert(self@.observers =~= released.with_subscriber(id, subscriber_id).observers);
        }
        Ok(
            (
                EventSubscription { subscriber_id, notify },
                RuntimeClientResult::Subscribed { after_cursor },
            ),
        )
    }

    /// The read model and its cursor, taken together.
    pub fn snapshot(&self) -> (result: Result<
        (RuntimeClientSnapshot, RuntimeClientCursor),
        RuntimeClientError,
    >)
        ensures
            match result {
                Ok((snapshot, cursor)) => !self@.projection.exhausted && snapshot@
                    == self@.projection.snapshot && cursor.value == self@.projection.cursor,
                Err(error) => self@.projection.exhausted && error@
                    == ErrorModel::ProjectionExhausted,
            },
    {
        self.projection.snapshot()
    }

    /// A connection to this host, for a client that may ask for changes.
    pub fn endpoint(&self) -> (endpoint: RuntimeClientEndpoint)
        ensures
            endpoint@ == (EndpointModel { read_only: false, session: None }),
    {
        RuntimeClientEndpoint::new()
    }

    /// What the agent can do, as the read model has it.
    pub fn capability(&self) -> (result: Result<RuntimeClientResult, RuntimeClientError>)
        ensures
            crate::protocol::outcome_model(result) == self@.unless_exhausted(
                ResultModel::Capability { capabilities: self@.projection.snapshot.capabilities },
            ),
    {
        match self.projection.snapshot_ref_checked() {
            Ok(snapshot) => Ok(
                RuntimeClientResult::Capability { capabilities: share(&snapshot.capabilities) },
            ),
            Err(error) => Err(error),
        }
    }

    /// The session's model, as the read model has it.
    pub fn model_get(&self) -> (result: Result<RuntimeClientResult, RuntimeClientError>)
        ensures
            crate::protocol::outcome_model(result) == self@.unless_exhausted(
                ResultModel::Model { model: self@.projection.snapshot.model },
            ),
    {
        match self.projection.snapshot_ref_checked() {
            Ok(snapshot) => Ok(RuntimeClientResult::Model { model: share(&snapshot.model) }),
            Err(error) => Err(error),
        }
    }

    /// Asks the runtime for the models to choose from, as long as the stream goes on.
    pub fn model_catalog(&self) -> (result: Result<RuntimeCall, RuntimeClientError>)
        ensures
            match result {
                Ok(call) => !self@.projection.exhausted && call == RuntimeCall::ModelCatalog,
                Err(error) => self@.projection.exhausted && error@
                    == ErrorModel::ProjectionExhausted,
            },
    {
        match self.projection.snapshot_ref_checked() {
            Ok(_) => Ok(RuntimeCall::ModelCatalog),
            Err(error) => Err(error),
        }
    }

    /// Asks the runtime for another model of the session, as long as the stream goes on.
    pub fn model_set(&self, config: SessionModelConfig) -> (result: Result<
        RuntimeCall,
        RuntimeClientError,
    >)
        ensures
            match result {
                Ok(call) => !self@.projection.exhausted && call == (RuntimeCall::ModelSet {
                    config,
                }),
                Err(error) => self@.projection.exhausted && error@
                    == ErrorModel::ProjectionExhausted,
            },
    {
        match self.projection.snapshot_ref_checked() {
            Ok(_) => Ok(RuntimeCall::ModelSet { config }),
            Err(error) => Err(error),
        }
    }

    /// Asks the runtime to cancel the attempt that the read model shows, by its name, so
    /// that no other attempt can be hit.
    pub fn cancel_current_attempt(&self) -> (result: Result<RuntimeCall, RuntimeClientError>)
        ensures
            match result {
                Ok(call) => self@.cancellable() is Some && call == (RuntimeCall::CancelAttempt {
                    attempt_id: self@.cancellable()->Some_0,
                }),
                Err(error) => self@.cancellable() is None && error@
                    == ErrorModel::NoCurrentAttempt,
            },
    {
        match &self.projection.snapshot_ref().attempt {
            None => Err(RuntimeClientError::NoCurrentAttempt),
            Some(attempt) => match &attempt.phase {
                RuntimeClientAttemptPhase::Settled {
                    ..
                } => Err(RuntimeClientError::NoCurrentAttempt),
                _ => Ok(RuntimeCall::CancelAttempt { attempt_id: attempt.attempt_id.clone() }),
            },
        }
    }

    /// Asks the runtime to take in a message. The runtime names it, numbers it and dates
    /// it.
    pub fn submit_inbound(&self, content: Vec<UserContentBlock>) -> (call: RuntimeCall)
        ensures
            call == (RuntimeCall::SubmitInbound { content }),
    {
        RuntimeCall::SubmitInbound { content }
    }

    /// Asks the runtime for its record of detached work.
    pub fn background_status(&self, execution_id: &ToolExecutionId) -> (call: RuntimeCall)
        ensures
            call == (RuntimeCall::BackgroundStatus { execution_id: *execution_id }),
    {
        RuntimeCall::BackgroundStatus { execution_id: execution_id.clone() }
    }

    /// Asks the runtime to cancel detached work.
    pub fn background_cancel(&self, execution_id: &ToolExecutionId) -> (call: RuntimeCall)
        ensures
            call == (RuntimeCall::BackgroundCancel { execution_id: *execution_id }),
    {
        RuntimeCall::BackgroundCancel { execution_id: execution_id.clone() }
    }

    /// Asks the runtime to come to rest, for good.
    pub fn shutdown(&self) -> (call: RuntimeCall)
        ensures
            call == RuntimeCall::Shutdown,
    {
        RuntimeCall::Shutdown
    }
}

} // verus!
