//! Laws of hosts, attachments and connections.
#[allow(unused_imports)]
use std::sync::Arc;

#[allow(unused_imports)]
use tokio::sync::Notify;
use vstd::prelude::*;

#[allow(unused_imports)]
use crate::attachment::{DispatchModel, SessionModel};
#[allow(unused_imports)]
use crate::control::{RuntimeReply, ShutdownError};
#[allow(unused_imports)]
use crate::endpoint::{EndpointModel, EndpointStep};
#[allow(unused_imports)]
use crate::host::{
    AttachmentModel, HostConstructionError, HostModel, RuntimeBootstrapError,
    RuntimeClientHostConfig,
};
#[allow(unused_imports)]
use crate::identity::ConversationId;
#[allow(unused_imports)]
use crate::observation::RuntimeBootstrapSnapshot;
#[allow(unused_imports)]
use crate::protocol::{
    AnswerModel, ErrorModel, RequestId, ResultModel, RuntimeClientRequest,
    RUNTIME_CLIENT_PROTOCOL_VERSION,
};

verus! {

/// Whether a text names one of the attachments that were named so far.
pub open spec fn was_named(host: HostModel, id: Seq<char>) -> bool {
    exists|number: nat|
        1 <= number <= host.next_attachment_seq && id == #[trigger] crate::host::attachment_name(
            number,
        )
}

/// Parts clients by the identities of their attachments.
pub open spec fn other_client() -> spec_fn(AttachmentModel, AttachmentModel) -> bool {
    |a: AttachmentModel, b: AttachmentModel| a.id != b.id
}

/// Whether every attached client has a name that was given, and no two have the same.
pub open spec fn clients_are_apart(host: HostModel) -> bool {
    &&& host.control matches Some(control) ==> was_named(host, control.id)
    &&& forall|i: int|
        0 <= i < host.observers.len() ==> was_named(host, (#[trigger] host.observers[i]).id)
    &&& crate::search::apart(host.observers, other_client())
    &&& host.control matches Some(control) ==> forall|i: int|
        0 <= i < host.observers.len() ==> (#[trigger] host.observers[i]).id != control.id
}

proof fn lemma_names_differ(a: nat, b: nat)
    requires
        crate::host::attachment_name(a) == crate::host::attachment_name(b),
    ensures
        a == b,
{
    let prefix = "attachment-"@;
    let count = prefix.len() as int;
    assert(crate::host::attachment_name(a).skip(count) =~= crate::text::decimal(a));
    assert(crate::host::attachment_name(b).skip(count) =~= crate::text::decimal(b));
    crate::text::law_decimal_is_injective(a, b);
}

/// A new host is the state at which the stream starts: what was there before is shown,
/// nothing was published, and nobody is attached.
pub proof fn law_a_new_host_has_published_nothing(
    config: RuntimeClientHostConfig,
    seed: RuntimeBootstrapSnapshot,
)
    ensures
        ({
            let host = HostModel::bound(config, seed);
            &&& host.conversation_id == seed.conversation_id
            &&& host.projection.snapshot.messages == seed.messages@
            &&& host.projection.cursor == 0
            &&& host.projection.replay.len() == 0
            &&& !host.projection.exhausted
            &&& host.projection.serviceable(0)
            &&& host.projection.subscribers.len() == 0
            &&& host.control is None
            &&& host.observers.len() == 0
            &&& clients_are_apart(host)
        }),
{
}

/// A client that is attached gets an identity that no client had before, as long as
/// there are numbers left.
pub proof fn law_identities_are_fresh(host: HostModel)
    requires
        host.next_attachment_seq < u64::MAX,
    ensures
        !was_named(host, host.newcomer().id),
        was_named(host.attached(true), host.newcomer().id),
        was_named(host.attached(false), host.newcomer().id),
{
    let next = host.next_number() as nat;
    if was_named(host, host.newcomer().id) {
        let number = choose|number: nat|
            1 <= number <= host.next_attachment_seq && host.newcomer().id
                == #[trigger] crate::host::attachment_name(number);
        lemma_names_differ(number, next);
    }
    assert(host.newcomer().id == crate::host::attachment_name(next));
}

proof fn lemma_names_stay(before: HostModel, after: HostModel, id: Seq<char>)
    requires
        was_named(before, id),
        before.next_attachment_seq <= after.next_attachment_seq,
    ensures
        was_named(after, id),
{
    let number = choose|number: nat|
        1 <= number <= before.next_attachment_seq && id == #[trigger] crate::host::attachment_name(
            number,
        );
    assert(id == crate::host::attachment_name(number));
}

/// To attach a client keeps the clients apart, and leaves every other client, the stream
/// and the read model as they are.
pub proof fn law_attaching_disturbs_nobody(host: HostModel, protocol_version: u16, read_only: bool)
    requires
        clients_are_apart(host),
        host.next_attachment_seq < u64::MAX,
        host.refusal(protocol_version, read_only) is None,
    ensures
        clients_are_apart(host.attached(read_only)),
        host.attached(read_only).projection == host.projection,
        read_only ==> host.attached(read_only).control == host.control,
        !read_only ==> host.control is None && host.attached(read_only).observers
            == host.observers,
{
    law_identities_are_fresh(host);
    let after = host.attached(read_only);
    let new = host.newcomer();
    if let Some(control) = host.control {
        lemma_names_stay(host, after, control.id);
    }
    assert forall|i: int| 0 <= i < after.observers.len() implies was_named(
        after,
        (#[trigger] after.observers[i]).id,
    ) by {
        if i < host.observers.len() {
            assert(after.observers[i] == host.observers[i]);
            lemma_names_stay(host, after, host.observers[i].id);
        }
    }
    assert forall|i: int, j: int| 0 <= i < j < after.observers.len() implies other_client()(
        #[trigger] after.observers[i],
        #[trigger] after.observers[j],
    ) by {
        assert(after.observers[i] == host.observers[i]);
        if j < host.observers.len() {
            assert(other_client()(host.observers[i], host.observers[j]));
        } else {
            assert(was_named(host, host.observers[i].id));
        }
    }
    if let Some(control) = after.control {
        assert forall|i: int| 0 <= i < after.observers.len() implies (
        #[trigger] after.observers[i]).id != control.id by {
            if i < host.observers.len() {
                assert(after.observers[i] == host.observers[i]);
                assert(was_named(host, host.observers[i].id));
            } else {
                assert(was_named(host, control.id));
            }
        }
    }
}

/// A second client that wants control is refused and told who has it. Whether a client
/// may observe does not depend on who else is attached.
pub proof fn law_control_is_never_taken_away(host: HostModel)
    requires
        host.control is Some,
    ensures
        host.refusal(RUNTIME_CLIENT_PROTOCOL_VERSION, false) == Some(
            ErrorModel::AttachmentInUse { existing_attachment_id: host.control->Some_0.id },
        ),
        host.refusal(RUNTIME_CLIENT_PROTOCOL_VERSION, true) == (HostModel {
            control: None,
            observers: Seq::empty(),
            ..host
        }).refusal(RUNTIME_CLIENT_PROTOCOL_VERSION, true),
{
}

/// To detach is not to cancel: the read model, the cursor and the retained events stay
/// as they are, and so does every other client.
pub proof fn law_detaching_touches_only_the_attachment(host: HostModel, id: Seq<char>)
    ensures
        host.detached(id).projection.snapshot == host.projection.snapshot,
        host.detached(id).projection.cursor == host.projection.cursor,
        host.detached(id).projection.exhausted == host.projection.exhausted,
        host.detached(id).projection.replay == host.projection.replay,
        host.detached(id).next_attachment_seq == host.next_attachment_seq,
        host.is_control(id) ==> host.detached(id).observers == host.observers,
        !host.is_control(id) ==> host.detached(id).control == host.control,
{
}

/// To detach a second time changes nothing.
pub proof fn law_detaching_twice_is_detaching_once(host: HostModel, id: Seq<char>)
    requires
        clients_are_apart(host),
    ensures
        host.detached(id).attachment(id) is None,
        host.detached(id).detached(id) == host.detached(id),
        clients_are_apart(host.detached(id)),
{
    let after = host.detached(id);
    let test = crate::host::is_attachment(id);
    crate::search::lemma_position(host.observers, test);
    match host.attachment(id) {
        None => {},
        Some(attachment) => {
            if host.is_control(id) {
                assert forall|i: int| 0 <= i < after.observers.len() implies !test(
                    #[trigger] after.observers[i],
                ) by {
                    assert(host.observers[i].id != id);
                }
                crate::search::lemma_position_none(after.observers, test);
                assert forall|i: int| 0 <= i < after.observers.len() implies was_named(
                    after,
                    (#[trigger] after.observers[i]).id,
                ) by {
                    lemma_names_stay(host, after, host.observers[i].id);
                }
            } else {
                let index = crate::search::position(host.observers, test)->Some_0;
                assert forall|i: int| 0 <= i < after.observers.len() implies !test(
                    #[trigger] after.observers[i],
                ) && was_named(after, after.observers[i].id) by {
                    let k = if i < index {
                        i
                    } else {
                        i + 1
                    };
                    assert(after.observers[i] == host.observers[k]);
                    if k < index {
                        assert(other_client()(host.observers[k], host.observers[index]));
                    } else {
                        assert(other_client()(host.observers[index], host.observers[k]));
                    }
                    lemma_names_stay(host, after, host.observers[k].id);
                }
                crate::search::lemma_position_none(after.observers, test);
                assert forall|i: int, j: int|
                    0 <= i < j < after.observers.len() implies other_client()(
                    #[trigger] after.observers[i],
                    #[trigger] after.observers[j],
                ) by {
                    let p = if i < index {
                        i
                    } else {
                        i + 1
                    };
                    let q = if j < index {
                        j
                    } else {
                        j + 1
                    };
                    assert(other_client()(host.observers[p], host.observers[q]));
                }
                if let Some(control) = host.control {
                    lemma_names_stay(host, after, control.id);
                    assert forall|i: int| 0 <= i < after.observers.len() implies (
                    #[trigger] after.observers[i]).id != control.id by {
                        let k = if i < index {
                            i
                        } else {
                            i + 1
                        };
                        assert(after.observers[i] == host.observers[k]);
                    }
                }
            }
        },
    }
}

/// Once the client with control has detached, another one can have it.
pub proof fn law_control_is_free_after_a_detach(host: HostModel)
    requires
        host.control is Some,
        !host.projection.exhausted,
    ensures
        host.detached(host.control->Some_0.id).refusal(
            RUNTIME_CLIENT_PROTOCOL_VERSION,
            false,
        ) is None,
{
}

/// A response carries the name of its request, and so does a call whose reply becomes
/// one.
pub proof fn law_the_request_id_is_echoed(
    session: SessionModel,
    host: HostModel,
    request: RuntimeClientRequest,
    channel: Arc<Notify>,
)
    ensures
        match session.handled(host, request, channel).dispatch {
            DispatchModel::Answered { answer, .. } => answer.id == request.id_spec(),
            DispatchModel::Call { id, .. } => id == request.id_spec(),
        },
        match session.handled_async(host, request, channel).dispatch {
            DispatchModel::Answered { answer, .. } => answer.id == request.id_spec(),
            DispatchModel::Call { id, .. } => id == request.id_spec(),
        },
{
}

/// A response has a result or an error, and never both.
pub proof fn law_a_response_is_a_result_or_an_error(
    id: RequestId,
    outcome: Result<ResultModel, ErrorModel>,
)
    ensures
        AnswerModel::of(id, outcome).result is Some <==> AnswerModel::of(id, outcome).error is None,
        AnswerModel::of(id, outcome).id == id,
{
}

/// A client that may only observe never causes a call that asks for a change.
pub proof fn law_observers_change_nothing(
    session: SessionModel,
    host: HostModel,
    request: RuntimeClientRequest,
    channel: Arc<Notify>,
)
    requires
        session.read_only,
    ensures
        session.handled(host, request, channel).dispatch matches DispatchModel::Call { call, .. }
            ==> !call.is_write_spec(),
        session.handled_async(host, request, channel).dispatch matches DispatchModel::Call { call, .. }
            ==> !call.is_write_spec(),
{
}

/// No request touches the read model, the cursor or the retained events: those follow
/// the runtime alone.
pub proof fn law_requests_leave_the_read_model_alone(
    session: SessionModel,
    host: HostModel,
    request: RuntimeClientRequest,
    channel: Arc<Notify>,
)
    ensures
        ({
            let after = session.handled(host, request, channel).host;
            &&& after.projection.snapshot == host.projection.snapshot
            &&& after.projection.cursor == host.projection.cursor
            &&& after.projection.replay == host.projection.replay
            &&& after.projection.exhausted == host.projection.exhausted
        }),
        ({
            let after = session.handled_async(host, request, channel).host;
            &&& after.projection.snapshot == host.projection.snapshot
            &&& after.projection.cursor == host.projection.cursor
            &&& after.projection.replay == host.projection.replay
            &&& after.projection.exhausted == host.projection.exhausted
        }),
{
}

/// A session that has ended is told so, whatever it asks, and changes nothing any more.
pub proof fn law_a_detached_session_is_over(
    session: SessionModel,
    host: HostModel,
    request: RuntimeClientRequest,
    channel: Arc<Notify>,
)
    requires
        session.detached,
    ensures
        session.handled(host, request, channel) == session.answers(
            host,
            request.id_spec(),
            Err(ErrorModel::NotAttached),
        ),
        session.handled_async(host, request, channel) == session.answers(
            host,
            request.id_spec(),
            Err(ErrorModel::NotAttached),
        ),
{
}

/// A connection that is not attached serves nothing but the request to begin.
pub proof fn law_an_unattached_connection_only_begins(
    endpoint: EndpointModel,
    host: HostModel,
    request: RuntimeClientRequest,
    channel: Arc<Notify>,
)
    requires
        endpoint.session is None,
        !(request is Initialize),
    ensures
        endpoint.handled(host, request, channel) == endpoint.answers(
            host,
            request.id_spec(),
            Err(ErrorModel::NotAttached),
        ),
        endpoint.handled_async(host, request, channel) == endpoint.answers(
            host,
            request.id_spec(),
            Err(ErrorModel::NotAttached),
        ),
{
}

/// A client that detaches can begin again on the same connection, and then has an
/// identity that is not the one it had.
pub proof fn law_a_detached_client_begins_again(
    endpoint: EndpointModel,
    host: HostModel,
    detach: RequestId,
    initialize: RequestId,
    channel: Arc<Notify>,
)
    requires
        clients_are_apart(host),
        !host.projection.exhausted,
        host.next_attachment_seq < u64::MAX,
        endpoint.session matches Some(session) && !session.detached && was_named(host, session.id)
            && (endpoint.read_only || host.is_control(session.id)),
    ensures
        ({
            let left = endpoint.handled(host, RuntimeClientRequest::Detach { id: detach }, channel);
            let back = left.endpoint.handled(
                left.host,
                RuntimeClientRequest::Initialize {
                    id: initialize,
                    protocol_version: RUNTIME_CLIENT_PROTOCOL_VERSION,
                },
                channel,
            );
            &&& left.endpoint.session is None
            &&& back.endpoint.session matches Some(session) && session.id
                != endpoint.session->Some_0.id
            &&& back.dispatch matches DispatchModel::Answered { answer, .. } && answer.error is None
        }),
{
    let old_id = endpoint.session->Some_0.id;
    let left = host.detached(old_id);
    law_identities_are_fresh(left);
    lemma_names_stay(host, left, old_id);
}

/// A request that need not wait for the runtime to settle anything is served alike, in its
/// response and in all its effects, whether or not the client is ready to wait.
pub proof fn law_waiting_changes_nothing_else(
    session: SessionModel,
    endpoint: EndpointModel,
    host: HostModel,
    request: RuntimeClientRequest,
    channel: Arc<Notify>,
)
    requires
        !(request is Shutdown),
        !(request is CompactContext),
        !(request is InteractionRespond),
        !(request is SubagentWorkspaceDispose),
        !(request is Session),
    ensures
        session.handled_async(host, request, channel) == session.handled(host, request, channel),
        endpoint.handled_async(host, request, channel) == endpoint.handled(host, request, channel),
{
}

/// A client learns that the runtime has come to rest only from the runtime: no session says
/// so by itself, and a reply to the call says so only where the runtime has settled.
pub proof fn law_a_shutdown_is_the_runtimes_word(
    session: SessionModel,
    host: HostModel,
    request: RuntimeClientRequest,
    channel: Arc<Notify>,
    outcome: Result<(), ShutdownError>,
)
    ensures
        session.handled(host, request, channel).dispatch matches DispatchModel::Answered {
            answer,
            ..
        } ==> answer.result != Some(ResultModel::ShutdownCompleted),
        session.handled_async(host, request, channel).dispatch matches DispatchModel::Answered {
            answer,
            ..
        } ==> answer.result != Some(ResultModel::ShutdownCompleted),
        crate::control::settled(RuntimeReply::Shutdown { outcome }) == Ok::<ResultModel, ErrorModel>(
            ResultModel::ShutdownCompleted,
        ) <==> outcome is Ok,
{
}

/// To detach ends a session for good, whatever the session was: no subscription is left,
/// every later request is refused, and to detach again changes nothing. It is not to
/// cancel: the read model, the cursor and the retained events stay as they are. The client
/// can be attached again, and then has an identity that is not the one it had.
pub proof fn law_a_detach_is_the_end_of_a_session(
    session: SessionModel,
    host: HostModel,
    request: RuntimeClientRequest,
    channel: Arc<Notify>,
)
    requires
        clients_are_apart(host),
        was_named(host, session.id),
        host.next_attachment_seq < u64::MAX,
    ensures
        ({
            let over = session.released();
            let after = host.detached(session.id);
            &&& over.subscription is None
            &&& over.handled(host, request, channel) == over.answers(
                host,
                request.id_spec(),
                Err(ErrorModel::NotAttached),
            )
            &&& over.handled_async(host, request, channel) == over.answers(
                host,
                request.id_spec(),
                Err(ErrorModel::NotAttached),
            )
            &&& over.released() == over
            &&& after.detached(session.id) == after
            &&& after.attachment(session.id) is None
            &&& after.projection.snapshot == host.projection.snapshot
            &&& after.projection.cursor == host.projection.cursor
            &&& after.projection.replay == host.projection.replay
            &&& after.projection.exhausted == host.projection.exhausted
            &&& after.newcomer().id != session.id
            &&& !host.projection.exhausted ==> after.refusal(
                RUNTIME_CLIENT_PROTOCOL_VERSION,
                true,
            ) is None
            &&& !host.projection.exhausted && (host.control is None || host.is_control(session.id))
                ==> after.refusal(RUNTIME_CLIENT_PROTOCOL_VERSION, false) is None
        }),
{
    law_detaching_twice_is_detaching_once(host, session.id);
    let after = host.detached(session.id);
    law_identities_are_fresh(after);
    lemma_names_stay(host, after, session.id);
}

/// One request on a connection, with the host as the request finds it.
#[verifier::ext_equal]
pub struct Exchange {
    pub host: HostModel,
    pub request: RuntimeClientRequest,
    pub channel: Arc<Notify>,
    /// Whether the client is ready to wait for the runtime to settle something.
    pub awaited: bool,
}

impl Exchange {
    /// What becomes of the request on a connection.
    pub open spec fn on(self, endpoint: EndpointModel) -> EndpointStep {
        if self.awaited {
            endpoint.handled_async(self.host, self.request, self.channel)
        } else {
            endpoint.handled(self.host, self.request, self.channel)
        }
    }

    /// Whether the request succeeds at once.
    pub open spec fn succeeds(self, endpoint: EndpointModel) -> bool {
        self.on(endpoint).dispatch matches DispatchModel::Answered { answer, .. }
            && answer.error is None
    }
}

/// A connection after requests, whatever others do to the host between them.
pub open spec fn after_exchanges(endpoint: EndpointModel, exchanges: Seq<Exchange>) -> EndpointModel
    decreases exchanges.len(),
{
    if exchanges.len() == 0 {
        endpoint
    } else {
        exchanges.last().on(after_exchanges(endpoint, exchanges.drop_last())).endpoint
    }
}

/// Whether the last request that began or ended a session on a connection began one.
pub open spec fn is_in_session(endpoint: EndpointModel, exchanges: Seq<Exchange>) -> bool
    decreases exchanges.len(),
{
    if exchanges.len() == 0 {
        endpoint.session is Some
    } else {
        let before = after_exchanges(endpoint, exchanges.drop_last());
        let last = exchanges.last();
        if last.request is Initialize && last.succeeds(before) {
            true
        } else if last.request is Detach && last.succeeds(before) {
            false
        } else {
            is_in_session(endpoint, exchanges.drop_last())
        }
    }
}

/// Whether a connection holds no session that has ended, and lets its client do what it may.
pub open spec fn holds_a_live_session(endpoint: EndpointModel) -> bool {
    endpoint.session matches Some(session) ==> !session.detached && session.read_only
        == endpoint.read_only
}

proof fn lemma_a_session_goes_on(
    session: SessionModel,
    host: HostModel,
    request: RuntimeClientRequest,
    channel: Arc<Notify>,
)
    requires
        !session.detached,
    ensures
        ({
            let handled = session.handled(host, request, channel);
            &&& handled.session.read_only == session.read_only
            &&& handled.session.detached ==> request is Detach
            &&& request is Detach && handled.session.detached ==> (handled.dispatch matches
                DispatchModel::Answered { answer, .. } && answer.error is None)
        }),
{
}

proof fn lemma_an_exchange_keeps_it_live(endpoint: EndpointModel, exchange: Exchange)
    requires
        holds_a_live_session(endpoint),
    ensures
        ({
            let step = exchange.on(endpoint);
            &&& step.endpoint.read_only == endpoint.read_only
            &&& holds_a_live_session(step.endpoint)
            &&& step.endpoint.session is Some <==> if exchange.request is Initialize
                && exchange.succeeds(endpoint) {
                true
            } else if exchange.request is Detach && exchange.succeeds(endpoint) {
                false
            } else {
                endpoint.session is Some
            }
        }),
{
    if let Some(session) = endpoint.session {
        lemma_a_session_goes_on(session, exchange.host, exchange.request, exchange.channel);
    }
}

/// Over any requests, a connection is in a session from a request to begin that succeeds to
/// a request to detach that succeeds, and at no other time. It never holds a session that
/// has ended, and what its client may do never changes.
pub proof fn law_a_connection_lives_from_begin_to_detach(
    endpoint: EndpointModel,
    exchanges: Seq<Exchange>,
)
    requires
        holds_a_live_session(endpoint),
    ensures
        ({
            let after = after_exchanges(endpoint, exchanges);
            &&& after.read_only == endpoint.read_only
            &&& after.session is Some <==> is_in_session(endpoint, exchanges)
            &&& holds_a_live_session(after)
        }),
    decreases exchanges.len(),
{
    if exchanges.len() > 0 {
        let front = exchanges.drop_last();
        law_a_connection_lives_from_begin_to_detach(endpoint, front);
        lemma_an_exchange_keeps_it_live(after_exchanges(endpoint, front), exchanges.last());
    }
}

/// As long as a connection is in a session, the host has its client attached: no request of
/// the client but the one to detach ends that.
pub proof fn law_a_session_is_attached_at_the_host(endpoint: EndpointModel, exchange: Exchange)
    requires
        endpoint.session matches Some(session) ==> !session.detached && exchange.host.attachment(
            session.id,
        ) is Some,
    ensures
        exchange.on(endpoint).endpoint.session matches Some(session) ==> exchange.on(
            endpoint,
        ).host.attachment(session.id) is Some,
{
    let host = exchange.host;
    let after = exchange.on(endpoint).host;
    if let Some(session) = exchange.on(endpoint).endpoint.session {
        let test = crate::host::is_attachment(session.id);
        crate::search::lemma_position(host.observers, test);
        crate::search::lemma_position(after.observers, test);
        if !host.is_control(session.id) && !after.is_control(session.id) {
            if exchange.request is Initialize {
                if endpoint.session is None {
                    assert(test(after.observers[host.observers.len() as int]));
                }
            } else {
                let index = crate::search::position(host.observers, test)->Some_0;
                assert(test(after.observers[index]));
            }
        }
    }
}

/// A client that is attached is there under the next number, as the one with control or behind
/// the other observers, and has not subscribed.
pub proof fn law_an_attached_client_is_there(host: HostModel, read_only: bool)
    requires
        host.next_attachment_seq < u64::MAX,
    ensures
        ({
            let after = host.attached(read_only);
            let new = if read_only {
                after.observers.last()
            } else {
                after.control->Some_0
            };
            &&& after.next_attachment_seq == host.next_attachment_seq + 1
            &&& new.id == "attachment-"@ + crate::text::decimal(
                (host.next_attachment_seq + 1) as nat,
            )
            &&& new.subscriber_id is None
            &&& read_only ==> after.observers.len() == host.observers.len() + 1 && (forall|i: int|
                0 <= i < host.observers.len() ==> #[trigger] after.observers[i]
                    == host.observers[i])
            &&& !read_only ==> after.control is Some
            &&& after.conversation_id == host.conversation_id
            &&& after.agent_id == host.agent_id
        }),
{
}

/// A client is refused where it speaks another version of the protocol, where it wants control
/// and another client has it, and where the stream is over. It is told which, in this order. It
/// is refused for no other reason.
pub proof fn law_a_client_is_refused_for_a_reason(
    host: HostModel,
    protocol_version: u16,
    read_only: bool,
)
    ensures
        ({
            let refusal = host.refusal(protocol_version, read_only);
            if protocol_version != RUNTIME_CLIENT_PROTOCOL_VERSION {
                &&& refusal matches Some(ErrorModel::UnsupportedProtocolVersion {
                    supported,
                    requested,
                })
                &&& supported == RUNTIME_CLIENT_PROTOCOL_VERSION
                &&& requested == protocol_version
            } else if !read_only && host.control is Some {
                &&& refusal matches Some(ErrorModel::AttachmentInUse { existing_attachment_id })
                &&& existing_attachment_id == host.control->Some_0.id
            } else if host.projection.exhausted {
                refusal matches Some(ErrorModel::ProjectionExhausted)
            } else {
                refusal is None
            }
        }),
{
}

/// A client that begins is told who it is, whose conversation and agent it sees, and the whole
/// read model with the cursor at which it stands. Its session is new. One that is refused is
/// told why, and nothing changes.
pub proof fn law_a_client_that_begins_is_told_where_it_is(
    endpoint: EndpointModel,
    host: HostModel,
    id: RequestId,
    protocol_version: u16,
    channel: Arc<Notify>,
)
    requires
        endpoint.session is None,
        host.next_attachment_seq < u64::MAX,
    ensures
        ({
            let step = endpoint.handled(
                host,
                RuntimeClientRequest::Initialize { id, protocol_version },
                channel,
            );
            let answer = step.dispatch->Answered_answer;
            &&& step.dispatch is Answered
            &&& step.dispatch->registration is None
            &&& answer.id == id
            &&& step.endpoint.read_only == endpoint.read_only
            &&& match host.refusal(protocol_version, endpoint.read_only) {
                Some(error) => {
                    &&& answer.error == Some(error)
                    &&& answer.result is None
                    &&& step.host == host
                    &&& step.endpoint == endpoint
                },
                None => {
                    &&& answer.error is None
                    &&& answer.result matches Some(ResultModel::Initialized {
                        attachment_id,
                        conversation_id,
                        agent_id,
                        snapshot,
                        cursor,
                    })
                    &&& attachment_id == "attachment-"@ + crate::text::decimal(
                        (host.next_attachment_seq + 1) as nat,
                    )
                    &&& conversation_id == host.conversation_id
                    &&& agent_id == host.agent_id
                    &&& snapshot == host.projection.snapshot
                    &&& cursor == host.projection.cursor
                    &&& step.host == host.attached(endpoint.read_only)
                    &&& step.endpoint.session matches Some(session)
                    &&& session.id == attachment_id
                    &&& session.read_only == endpoint.read_only
                    &&& !session.detached
                    &&& session.subscription is None
                },
            }
        }),
{
}

/// A client that detaches leaves no subscriber behind.
pub proof fn law_a_detached_client_leaves_no_subscriber(host: HostModel, id: Seq<char>)
    requires
        crate::projection_laws::subscribers_are_apart(host.projection),
    ensures
        host.attachment(id) matches Some(client) ==> (client.subscriber_id matches Some(subscriber)
            ==> forall|i: int|
            0 <= i < host.detached(id).projection.subscribers.len() ==> (
            #[trigger] host.detached(id).projection.subscribers[i]).id != subscriber),
{
    if let Some(client) = host.attachment(id) {
        if let Some(subscriber) = client.subscriber_id {
            crate::projection_laws::law_a_released_subscriber_is_gone(
                host.projection,
                subscriber,
                arbitrary(),
            );
        }
    }
}

/// A client that subscribes has that one subscription: it is registered under a new number
/// behind the cursor that it asked for, and the one that it had before is gone. No other client
/// changes.
pub proof fn law_a_client_has_one_subscription(
    host: HostModel,
    id: Seq<char>,
    after_cursor: u64,
    channel: Arc<Notify>,
)
    requires
        clients_are_apart(host),
        host.well_formed(),
        host.projection.next_subscriber_id < u64::MAX,
        crate::projection_laws::subscribers_are_apart(host.projection),
        host.subscription_refusal(id, after_cursor) is None,
        host.attachment(id) matches Some(client) ==> (client.subscriber_id matches Some(subscriber)
            ==> subscriber < host.projection.next_subscriber_id),
    ensures
        ({
            let after = host.subscribed(id, after_cursor, channel);
            let new = after.projection.subscribers.last();
            &&& host.attachment(id) is Some
            &&& after.attachment(id) matches Some(client) && client.id == id
                && client.subscriber_id == Some(new.id)
            &&& new.id == host.projection.next_subscriber_id
            &&& new.consumed == after_cursor
            &&& new.channel == channel
            &&& host.attachment(id)->Some_0.subscriber_id matches Some(old) ==> forall|i: int|
                0 <= i < after.projection.subscribers.len() ==> (
                #[trigger] after.projection.subscribers[i]).id != old
            &&& host.is_control(id) ==> after.observers == host.observers
            &&& !host.is_control(id) ==> after.control == host.control
            &&& after.observers.len() == host.observers.len()
            &&& forall|i: int|
                0 <= i < host.observers.len() ==> (#[trigger] after.observers[i]).id
                    == host.observers[i].id && (host.observers[i].id != id ==> after.observers[i]
                    == host.observers[i])
        }),
{
    let released = host.resubscribing(id);
    let after = host.subscribed(id, after_cursor, channel);
    let own = crate::host::is_attachment(id);
    crate::search::lemma_position(host.observers, own);
    if let Some(client) = host.attachment(id) {
        if let Some(old) = client.subscriber_id {
            crate::projection_laws::law_a_released_subscriber_is_gone(
                host.projection,
                old,
                arbitrary(),
            );
            assert(released.projection.next_subscriber_id == host.projection.next_subscriber_id);
        }
        assert forall|i: int|
            0 <= i < after.projection.subscribers.len() && client.subscriber_id is Some implies (
        #[trigger] after.projection.subscribers[i]).id != client.subscriber_id->Some_0 by {
            if i < released.projection.subscribers.len() {
                assert(after.projection.subscribers[i] == released.projection.subscribers[i]);
            }
        }
        if !host.is_control(id) {
            let index = crate::search::position(host.observers, own)->Some_0;
            assert(own(host.observers[index]));
            assert(after.observers[index].id == id);
            assert forall|i: int| 0 <= i < index implies !own(#[trigger] after.observers[i]) by {
                assert(!own(host.observers[i]));
            }
            crate::search::lemma_position_at(after.observers, own, index);
        }
    }
}

/// A new host shows its runtime as it was, with its model and its capabilities and nothing that
/// is still to happen. It belongs to its agent, and retains as many events as it is told to, or
/// else as many as usual.
pub proof fn law_a_new_host_shows_its_runtime(
    config: RuntimeClientHostConfig,
    seed: RuntimeBootstrapSnapshot,
)
    ensures
        ({
            let host = HostModel::bound(config, seed);
            &&& host.agent_id == config.agent_id
            &&& host.projection.snapshot.conversation_id == seed.conversation_id
            &&& host.projection.snapshot.model == seed.model
            &&& crate::view_laws::shows_capabilities(
                host.projection.snapshot.capabilities,
                seed.capabilities,
                seed.availability,
            )
            &&& config.replay_limit matches Some(limit) ==> host.projection.replay_limit == limit
            &&& config.replay_limit is None ==> host.projection.replay_limit == 4096
            &&& host.projection.snapshot.transcript == seed.transcript@
            &&& host.projection.snapshot.shutting_down == seed.shutting_down
            &&& host.projection.snapshot.effective_approval_mode == seed.approval_mode.effective
            &&& host.projection.snapshot.pending_interactions == seed.pending_interactions@
            &&& host.projection.snapshot.inbound_pending.len() == seed.inbound_pending@.len()
            &&& host.projection.snapshot.todos == seed.todos@
            &&& crate::view_laws::shows_resources(host.projection.snapshot.resources, seed.resources)
            &&& host.projection.snapshot.context.compaction_count == 0
            &&& !host.projection.snapshot.context.compaction_in_progress
            &&& host.projection.snapshot.context.latest_compaction is None
            &&& host.projection.snapshot.attempt is None
            &&& host.projection.snapshot.durability_failure is None
            &&& host.projection.snapshot.statuses.len() == 0
            &&& host.projection.snapshot.last_drain is None
            &&& host.next_attachment_seq == 0
        }),
{
}

/// A host that cannot be made gives its runtime free, but where another host has it. Why it
/// could not be made is told as the runtime told it.
pub proof fn law_a_failed_host_gives_its_runtime_free(error: RuntimeBootstrapError)
    ensures
        crate::host::construction_error(error).releases_binding_spec(),
        match error {
            RuntimeBootstrapError::BridgeAlreadyInstalled {
                conversation_id,
            } => crate::host::construction_error(error)
                == HostConstructionError::ObservationBridgeAlreadyInstalled { conversation_id },
            RuntimeBootstrapError::RuntimeAlreadyActivated {
                conversation_id,
            } => crate::host::construction_error(error)
                == HostConstructionError::RuntimeAlreadyActivated { conversation_id },
            RuntimeBootstrapError::Durable(message) => crate::host::construction_error(error)
                == HostConstructionError::Durable(message),
        },
        forall|conversation_id: ConversationId|
            !(#[trigger] (HostConstructionError::RuntimeClientAlreadyBound {
                conversation_id,
            }).releases_binding_spec()),
{
}

} // verus!
