//! Laws of requests: what a client asks is what the runtime is asked, and what came of it is
//! what the client is told.
#[allow(unused_imports)]
use std::sync::Arc;

#[allow(unused_imports)]
use tokio::sync::Notify;
use vstd::prelude::*;

#[allow(unused_imports)]
use crate::attachment::{DispatchModel, HandledModel, SessionModel};
#[allow(unused_imports)]
use crate::control::{
    CancelAttemptError, InboundAdmissionError, ModelUpdateError, RuntimeCall, RuntimeReply,
    ShutdownError,
};
#[allow(unused_imports)]
use crate::host::HostModel;
#[allow(unused_imports)]
use crate::protocol::{
    ErrorModel, RequestId, ResultModel, RuntimeClientRequest, SessionRequest,
};

verus! {

/// Whether a request becomes a call, and nothing else changes.
pub open spec fn becomes(
    handled: HandledModel,
    session: SessionModel,
    host: HostModel,
    id: RequestId,
    call: RuntimeCall,
) -> bool {
    &&& handled.session == session
    &&& handled.host == host
    &&& handled.dispatch matches DispatchModel::Call { id: named, call: made } && named == id
        && made == call
}

/// Whether a request is answered with a result, and nothing else changes.
pub open spec fn gives(
    handled: HandledModel,
    session: SessionModel,
    host: HostModel,
    id: RequestId,
    result: ResultModel,
) -> bool {
    &&& handled.session == session
    &&& handled.host == host
    &&& handled.dispatch matches DispatchModel::Answered { answer, registration } && answer.id == id
        && answer.result == Some(result) && answer.error is None && registration is None
}

/// Whether a request is answered with an error, and nothing else changes.
pub open spec fn fails(
    handled: HandledModel,
    session: SessionModel,
    host: HostModel,
    id: RequestId,
    error: ErrorModel,
) -> bool {
    &&& handled.session == session
    &&& handled.host == host
    &&& handled.dispatch matches DispatchModel::Answered { answer, registration } && answer.id == id
        && answer.result is None && answer.error == Some(error) && registration is None
}

/// A client with control that asks something of the runtime has the runtime asked just that,
/// word for word and under the name of its request.
pub proof fn law_the_runtime_is_asked_what_the_client_asks(
    session: SessionModel,
    host: HostModel,
    request: RuntimeClientRequest,
    channel: Arc<Notify>,
)
    requires
        !session.detached,
        !session.read_only,
    ensures
        ({
            let handled = session.handled(host, request, channel);
            match request {
                RuntimeClientRequest::SubmitInbound { id, content } => becomes(
                    handled,
                    session,
                    host,
                    id,
                    RuntimeCall::SubmitInbound { content },
                ),
                RuntimeClientRequest::Goal { id, control } => becomes(
                    handled,
                    session,
                    host,
                    id,
                    RuntimeCall::Goal { control },
                ),
                RuntimeClientRequest::TranscriptPageGet { id, before_cursor, limit } => becomes(
                    handled,
                    session,
                    host,
                    id,
                    RuntimeCall::TranscriptPage { before_cursor, limit },
                ),
                RuntimeClientRequest::BackgroundStatus { id, execution_id } => becomes(
                    handled,
                    session,
                    host,
                    id,
                    RuntimeCall::BackgroundStatus { execution_id },
                ),
                RuntimeClientRequest::BackgroundCancel { id, execution_id } => becomes(
                    handled,
                    session,
                    host,
                    id,
                    RuntimeCall::BackgroundCancel { execution_id },
                ),
                RuntimeClientRequest::SubagentStatus { id, subagent_id } => becomes(
                    handled,
                    session,
                    host,
                    id,
                    RuntimeCall::SubagentStatus { subagent_id },
                ),
                RuntimeClientRequest::SubagentCancel { id, subagent_id } => becomes(
                    handled,
                    session,
                    host,
                    id,
                    RuntimeCall::SubagentCancel { subagent_id },
                ),
                RuntimeClientRequest::ModelCatalogGet { id } => if host.projection.exhausted {
                    fails(handled, session, host, id, ErrorModel::ProjectionExhausted)
                } else {
                    becomes(handled, session, host, id, RuntimeCall::ModelCatalog)
                },
                RuntimeClientRequest::ModelSet { id, config } => if host.projection.exhausted {
                    fails(handled, session, host, id, ErrorModel::ProjectionExhausted)
                } else {
                    becomes(handled, session, host, id, RuntimeCall::ModelSet { config })
                },
                _ => true,
            }
        }),
{
}

/// A client with control that is ready to wait has the runtime asked what it asks, word for
/// word. One that is not ready to wait is told to be, and nothing happens.
pub proof fn law_the_runtime_is_asked_by_a_client_that_waits(
    session: SessionModel,
    host: HostModel,
    request: RuntimeClientRequest,
    channel: Arc<Notify>,
)
    requires
        !session.detached,
        !session.read_only,
    ensures
        ({
            let handled = session.handled_async(host, request, channel);
            match request {
                RuntimeClientRequest::CompactContext { id } => becomes(
                    handled,
                    session,
                    host,
                    id,
                    RuntimeCall::CompactContext,
                ),
                RuntimeClientRequest::InteractionRespond { id, interaction, response } => becomes(
                    handled,
                    session,
                    host,
                    id,
                    RuntimeCall::RespondInteraction { interaction, response },
                ),
                RuntimeClientRequest::SubagentWorkspaceDispose { id, subagent_id } => becomes(
                    handled,
                    session,
                    host,
                    id,
                    RuntimeCall::DisposeWorkspace { subagent_id },
                ),
                RuntimeClientRequest::Session { id, request: asked } => becomes(
                    handled,
                    session,
                    host,
                    id,
                    RuntimeCall::Session { request: asked },
                ),
                RuntimeClientRequest::Shutdown { id } => becomes(
                    handled,
                    session,
                    host,
                    id,
                    RuntimeCall::Shutdown,
                ),
                _ => true,
            }
        }),
        request is CompactContext || request is InteractionRespond
            || request is SubagentWorkspaceDispose || request is Session || request is Shutdown
            ==> fails(
            session.handled(host, request, channel),
            session,
            host,
            request.id_spec(),
            ErrorModel::InvalidRequest {
                message: "this control request must be awaited through handle_request_async"@,
            },
        ),
{
}

/// To cancel is to cancel the attempt that is shown, by its own name. Where none is shown, or
/// the one that is shown has ended, there is nothing to cancel.
pub proof fn law_the_attempt_that_is_shown_is_cancelled(
    session: SessionModel,
    host: HostModel,
    id: RequestId,
    channel: Arc<Notify>,
)
    requires
        !session.detached,
        !session.read_only,
    ensures
        ({
            let handled = session.handled(
                host,
                RuntimeClientRequest::CancelCurrentAttempt { id },
                channel,
            );
            match host.projection.snapshot.attempt {
                Some(attempt) if !(attempt.phase is Settled) => becomes(
                    handled,
                    session,
                    host,
                    id,
                    RuntimeCall::CancelAttempt { attempt_id: attempt.attempt_id },
                ),
                _ => fails(handled, session, host, id, ErrorModel::NoCurrentAttempt),
            }
        }),
{
}

/// A client reads what the read model shows, with the place in the stream at which it shows
/// it, as long as the stream goes on. It need not have control.
pub proof fn law_a_client_reads_what_is_shown(
    session: SessionModel,
    host: HostModel,
    request: RuntimeClientRequest,
    channel: Arc<Notify>,
)
    requires
        !session.detached,
    ensures
        ({
            let handled = session.handled(host, request, channel);
            let shown = host.projection.snapshot;
            request is SnapshotGet || request is CapabilityGet || request is ModelGet
                ==> if host.projection.exhausted {
                fails(
                    handled,
                    session,
                    host,
                    request.id_spec(),
                    ErrorModel::ProjectionExhausted,
                )
            } else {
                match request {
                    RuntimeClientRequest::SnapshotGet { id } => gives(
                        handled,
                        session,
                        host,
                        id,
                        ResultModel::Snapshot { snapshot: shown, cursor: host.projection.cursor },
                    ),
                    RuntimeClientRequest::CapabilityGet { id } => gives(
                        handled,
                        session,
                        host,
                        id,
                        ResultModel::Capability { capabilities: shown.capabilities },
                    ),
                    RuntimeClientRequest::ModelGet { id } => gives(
                        handled,
                        session,
                        host,
                        id,
                        ResultModel::Model { model: shown.model },
                    ),
                    _ => true,
                }
            }
        }),
{
}

/// Whether a request of a session is one to name it, to begin or choose another, or to copy it.
pub open spec fn changes_sessions(request: SessionRequest) -> bool {
    match request {
        SessionRequest::Name { .. } => true,
        SessionRequest::New => true,
        SessionRequest::Select { .. } => true,
        SessionRequest::Clone { .. } => true,
        SessionRequest::Fork { .. } => true,
        SessionRequest::TreeBranch { .. } => true,
        _ => false,
    }
}

/// Whether a request only looks, or concerns the client alone.
pub open spec fn only_looks(request: RuntimeClientRequest) -> bool {
    match request {
        RuntimeClientRequest::Initialize { .. } => true,
        RuntimeClientRequest::SnapshotGet { .. } => true,
        RuntimeClientRequest::TranscriptPageGet { .. } => true,
        RuntimeClientRequest::SubscribeEvents { .. } => true,
        RuntimeClientRequest::CapabilityGet { .. } => true,
        RuntimeClientRequest::ModelCatalogGet { .. } => true,
        RuntimeClientRequest::ModelGet { .. } => true,
        RuntimeClientRequest::BackgroundStatus { .. } => true,
        RuntimeClientRequest::SubagentStatus { .. } => true,
        RuntimeClientRequest::Detach { .. } => true,
        RuntimeClientRequest::Session { request: asked, .. } => !changes_sessions(asked),
        _ => false,
    }
}

/// A client that may only observe is refused every request that asks for a change, before
/// anything comes of it. In all else it is served as a client with control is.
pub proof fn law_an_observer_is_served_all_but_changes(
    session: SessionModel,
    host: HostModel,
    request: RuntimeClientRequest,
    channel: Arc<Notify>,
)
    requires
        !session.detached,
        session.read_only,
    ensures
        ({
            let observed = session.handled_async(host, request, channel);
            let controlled = (SessionModel { read_only: false, ..session }).handled_async(
                host,
                request,
                channel,
            );
            if only_looks(request) {
                &&& observed.dispatch == controlled.dispatch
                &&& observed.host == controlled.host
                &&& observed.session == SessionModel { read_only: true, ..controlled.session }
            } else {
                fails(
                    observed,
                    session,
                    host,
                    request.id_spec(),
                    ErrorModel::InvalidState { message: "conversation inspection is read-only"@ },
                )
            }
        }),
{
}

/// A call asks for a change where, and only where, the request behind it does. Of the calls
/// that come from no single request, to cancel and to set ask for a change; a look at a
/// catalog, a trace or a transcript does not.
pub proof fn law_a_call_changes_what_its_request_does(
    request: RuntimeClientRequest,
    call: RuntimeCall,
)
    ensures
        crate::attachment::call_of(request) == Some(call) ==> call.is_write_spec() == !only_looks(
            request,
        ),
        call is CancelAttempt || call is ModelSet || call is CancelInteraction
            ==> call.is_write_spec(),
        call is ModelCatalog || call is TracePage || call is SubagentTranscriptPage
            ==> !call.is_write_spec(),
{
}

/// A session that is over is denied everything. Else a session that may only observe is denied
/// what asks for a change, and nobody is served once the host is gone. Nothing else is denied.
pub proof fn law_a_session_is_denied_for_a_reason(
    session: SessionModel,
    write: bool,
    resident: bool,
)
    ensures
        session.denied(write, resident) is None <==> !session.detached && resident && !(write
            && session.read_only),
        session.detached ==> session.denied(write, resident) == Some(ErrorModel::NotAttached),
        !session.detached && write && session.read_only ==> session.denied(write, resident) == Some(
            ErrorModel::InvalidState { message: "inspection attachment is read-only"@ },
        ),
        !session.detached && !(write && session.read_only) && !resident ==> session.denied(
            write,
            resident,
        ) == Some(ErrorModel::NotAttached),
{
}

/// A client that subscribes behind a cursor is told that cursor, and holds a registration that
/// nobody had. One that detaches is told so; its session is over and its subscription gone. And
/// one that is attached cannot begin again.
pub proof fn law_a_client_is_told_of_its_own_state(
    session: SessionModel,
    host: HostModel,
    request: RuntimeClientRequest,
    channel: Arc<Notify>,
)
    requires
        !session.detached,
    ensures
        ({
            let handled = session.handled(host, request, channel);
            match request {
                RuntimeClientRequest::SubscribeEvents { id, after_cursor } => {
                    let answer = handled.dispatch->Answered_answer;
                    let registration = handled.dispatch->registration;
                    &&& handled.dispatch is Answered
                    &&& answer.id == id
                    &&& answer.error is None ==> {
                        &&& answer.result == Some(
                            ResultModel::Subscribed { after_cursor: after_cursor.value },
                        )
                        &&& registration == Some(host.projection.next_subscriber_id)
                        &&& handled.session == SessionModel { subscription: registration, ..session }
                    }
                    &&& answer.error is Some ==> {
                        &&& answer.result is None
                        &&& registration is None
                        &&& handled.session == session
                    }
                },
                RuntimeClientRequest::Detach { id } => {
                    let answer = handled.dispatch->Answered_answer;
                    &&& handled.dispatch is Answered
                    &&& answer.id == id
                    &&& answer.result == Some(ResultModel::Detached)
                    &&& answer.error is None
                    &&& handled.session.detached
                    &&& handled.session.subscription is None
                    &&& handled.session.id == session.id
                    &&& handled.session.read_only == session.read_only
                },
                RuntimeClientRequest::Initialize { id, .. } => fails(
                    handled,
                    session,
                    host,
                    id,
                    ErrorModel::InvalidRequest {
                        message: "the attachment is already initialized"@,
                    },
                ),
                _ => true,
            }
        }),
{
    crate::search::lemma_position(host.observers, crate::host::is_attachment(session.id));
}

/// What the runtime says of a message that was submitted is what the client is told: the
/// message and its place in the mailbox, or why it was refused.
pub proof fn law_a_client_is_told_of_its_message(reply: RuntimeReply)
    requires
        reply is Inbound,
    ensures
        match reply->Inbound_outcome {
            Ok(admission) => {
                &&& crate::control::settled(reply) matches Ok(ResultModel::InboundAccepted {
                    message_id,
                    inbound_sequence,
                })
                &&& message_id == admission.message_id
                &&& inbound_sequence == admission.inbound_sequence
            },
            Err(InboundAdmissionError::Shutdown) => crate::control::settled(reply) == Err::<
                ResultModel,
                ErrorModel,
            >(ErrorModel::RuntimeShutdown),
            Err(InboundAdmissionError::Inactive) => crate::control::settled(reply) == Err::<
                ResultModel,
                ErrorModel,
            >(
                ErrorModel::InvalidState {
                    message: "the conversation runtime is not activated"@,
                },
            ),
            Err(InboundAdmissionError::EmptyContent) => crate::control::settled(reply) == Err::<
                ResultModel,
                ErrorModel,
            >(ErrorModel::InvalidRequest { message: "inbound content must not be empty"@ }),
            Err(InboundAdmissionError::DurabilityFailed { message }) => crate::control::settled(
                reply,
            ) == Err::<ResultModel, ErrorModel>(ErrorModel::InvalidState { message: message@ }),
            Err(InboundAdmissionError::Mailbox { message }) => crate::control::settled(reply)
                == Err::<ResultModel, ErrorModel>(ErrorModel::InvalidState { message: message@ }),
        },
{
}

/// What the runtime says of any other call is what the client is told: the attempt that is
/// being cancelled, the model that is set, the work that was asked for with all that is
/// recorded of it, the catalog, or the end. Work that is not recorded is unknown by the name
/// that was asked for. An error is told with the runtime's own words.
pub proof fn law_a_client_is_told_what_the_runtime_said(reply: RuntimeReply)
    ensures
        match reply {
            RuntimeReply::Inbound { .. } => true,
            RuntimeReply::Cancellation { outcome } => match outcome {
                Ok(attempt_id) => crate::control::settled(reply) == Ok::<ResultModel, ErrorModel>(
                    ResultModel::AttemptCancellationAccepted { attempt_id },
                ),
                Err(CancelAttemptError::NoCurrentAttempt) => crate::control::settled(reply) == Err::<
                    ResultModel,
                    ErrorModel,
                >(ErrorModel::NoCurrentAttempt),
            },
            RuntimeReply::ModelSet { outcome } => match outcome {
                Ok(model) => crate::control::settled(reply) == Ok::<ResultModel, ErrorModel>(
                    ResultModel::ModelSet { model },
                ),
                Err(ModelUpdateError::Inactive) => crate::control::settled(reply) == Err::<
                    ResultModel,
                    ErrorModel,
                >(
                    ErrorModel::InvalidState {
                        message: "the conversation runtime is not activated"@,
                    },
                ),
                Err(ModelUpdateError::InvalidConfiguration(message)) => crate::control::settled(
                    reply,
                ) == Err::<ResultModel, ErrorModel>(
                    ErrorModel::InvalidModelConfiguration { message: message@ },
                ),
                Err(ModelUpdateError::DurabilityFailed { message }) => crate::control::settled(
                    reply,
                ) == Err::<ResultModel, ErrorModel>(
                    ErrorModel::InvalidState { message: message@ },
                ),
            },
            RuntimeReply::BackgroundStatus { execution_id, record } => match record {
                Some(record) => crate::control::settled(reply) matches Ok(
                    ResultModel::BackgroundStatus { execution },
                ) && crate::view_laws::shows_execution(execution, record),
                None => crate::control::settled(reply) == Err::<ResultModel, ErrorModel>(
                    ErrorModel::UnknownBackgroundExecution { execution_id },
                ),
            },
            RuntimeReply::BackgroundCancel { execution_id, record } => match record {
                Some(record) => crate::control::settled(reply) matches Ok(
                    ResultModel::BackgroundCancelAccepted { execution },
                ) && crate::view_laws::shows_execution(execution, record),
                None => crate::control::settled(reply) == Err::<ResultModel, ErrorModel>(
                    ErrorModel::UnknownBackgroundExecution { execution_id },
                ),
            },
            RuntimeReply::Shutdown { outcome } => match outcome {
                Ok(()) => crate::control::settled(reply) == Ok::<ResultModel, ErrorModel>(
                    ResultModel::ShutdownCompleted,
                ),
                Err(ShutdownError::Inactive) => crate::control::settled(reply) == Err::<
                    ResultModel,
                    ErrorModel,
                >(
                    ErrorModel::InvalidState {
                        message: "the conversation runtime is not activated"@,
                    },
                ),
                Err(ShutdownError::RuntimeOwnedSettlement { detail }) => crate::control::settled(
                    reply,
                ) == Err::<ResultModel, ErrorModel>(
                    ErrorModel::RuntimeFailure {
                        message: "runtime-owned shutdown settlement failed: "@ + detail@,
                    },
                ),
            },
            RuntimeReply::ModelCatalog { catalog } => crate::control::settled(reply) == Ok::<
                ResultModel,
                ErrorModel,
            >(ResultModel::ModelCatalog { catalog }),
            RuntimeReply::Native { outcome } => match outcome {
                Ok(result) => crate::control::settled(reply) == Ok::<ResultModel, ErrorModel>(
                    result@,
                ),
                Err(error) => crate::control::settled(reply) == Err::<ResultModel, ErrorModel>(
                    error@,
                ),
            },
        },
{
}

/// A request is known by the name that the client gave it, whatever it asks.
pub proof fn law_a_request_is_known_by_its_own_name(request: RuntimeClientRequest)
    ensures
        request matches RuntimeClientRequest::Initialize { id: name, .. } ==> request.id_spec()
            == name,
        request matches RuntimeClientRequest::SubmitInbound { id: name, .. } ==> request.id_spec()
            == name,
        request matches RuntimeClientRequest::CancelCurrentAttempt { id: name } ==> request.id_spec()
            == name,
        request matches RuntimeClientRequest::CompactContext { id: name } ==> request.id_spec()
            == name,
        request matches RuntimeClientRequest::InteractionRespond { id: name, .. }
            ==> request.id_spec() == name,
        request matches RuntimeClientRequest::Goal { id: name, .. } ==> request.id_spec() == name,
        request matches RuntimeClientRequest::SnapshotGet { id: name } ==> request.id_spec() == name,
        request matches RuntimeClientRequest::TranscriptPageGet { id: name, .. }
            ==> request.id_spec() == name,
        request matches RuntimeClientRequest::SubscribeEvents { id: name, .. }
            ==> request.id_spec() == name,
        request matches RuntimeClientRequest::CapabilityGet { id: name } ==> request.id_spec()
            == name,
        request matches RuntimeClientRequest::ModelCatalogGet { id: name } ==> request.id_spec()
            == name,
        request matches RuntimeClientRequest::ModelGet { id: name } ==> request.id_spec() == name,
        request matches RuntimeClientRequest::ModelSet { id: name, .. } ==> request.id_spec()
            == name,
        request matches RuntimeClientRequest::Session { id: name, .. } ==> request.id_spec() == name,
        request matches RuntimeClientRequest::BackgroundStatus { id: name, .. }
            ==> request.id_spec() == name,
        request matches RuntimeClientRequest::BackgroundCancel { id: name, .. }
            ==> request.id_spec() == name,
        request matches RuntimeClientRequest::SubagentStatus { id: name, .. } ==> request.id_spec()
            == name,
        request matches RuntimeClientRequest::SubagentCancel { id: name, .. } ==> request.id_spec()
            == name,
        request matches RuntimeClientRequest::SubagentWorkspaceDispose { id: name, .. }
            ==> request.id_spec() == name,
        request matches RuntimeClientRequest::Detach { id: name } ==> request.id_spec() == name,
        request matches RuntimeClientRequest::Shutdown { id: name } ==> request.id_spec() == name,
{
}

} // verus!
