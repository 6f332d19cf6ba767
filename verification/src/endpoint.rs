//! The endpoint: one connection of a client, whatever carries it.
//!
//! Every request of a client comes here, the first one included. A transport frames and
//! nothing else: versions, attachments, their identities and their end are decided here
//! and behind it.
#[allow(unused_imports)]
use std::sync::Arc;

#[allow(unused_imports)]
use tokio::sync::Notify;
use vstd::prelude::*;

use crate::attachment::{Dispatch, RuntimeAttachment};
#[allow(unused_imports)]
use crate::attachment::{DispatchModel, HandledModel, SessionModel};
use crate::host::{EventDelivery, RuntimeClientHost};
#[allow(unused_imports)]
use crate::host::HostModel;
use crate::identity::AttachmentId;
#[allow(unused_imports)]
use crate::projection::PollModel;
#[allow(unused_imports)]
use crate::protocol::{AnswerModel, ErrorModel, ResultModel};
use crate::protocol::{
    RequestId, RuntimeClientError, RuntimeClientRequest, RuntimeClientResponse,
    RuntimeClientResult,
};

verus! {

/// One connection of a client. It begins unattached.
pub struct RuntimeClientEndpoint {
    /// Whether clients of this connection may only observe.
    read_only: bool,
    attachment: Option<RuntimeAttachment>,
}

/// The value of an endpoint.
#[verifier::ext_equal]
pub struct EndpointModel {
    pub read_only: bool,
    pub session: Option<SessionModel>,
}

/// An endpoint, its host, and what becomes of a request.
#[verifier::ext_equal]
pub struct EndpointStep {
    pub endpoint: EndpointModel,
    pub host: HostModel,
    pub dispatch: DispatchModel,
}

spec fn session_model(attachment: Option<RuntimeAttachment>) -> Option<SessionModel> {
    match attachment {
        Some(attachment) => Some(attachment@),
        None => None,
    }
}

impl View for RuntimeClientEndpoint {
    type V = EndpointModel;

    closed spec fn view(&self) -> EndpointModel {
        EndpointModel { read_only: self.read_only, session: session_model(self.attachment) }
    }
}

impl EndpointModel {
    /// The request is answered, and neither the endpoint nor the host changes.
    pub open spec fn answers(
        self,
        host: HostModel,
        id: RequestId,
        outcome: Result<ResultModel, ErrorModel>,
    ) -> EndpointStep {
        EndpointStep {
            endpoint: self,
            host,
            dispatch: DispatchModel::Answered {
                answer: AnswerModel::of(id, outcome),
                registration: None,
            },
        }
    }

    /// What becomes of the request to begin.
    pub open spec fn initialized(
        self,
        host: HostModel,
        id: RequestId,
        protocol_version: u16,
    ) -> EndpointStep {
        if self.session is Some {
            self.answers(
                host,
                id,
                Err(
                    ErrorModel::InvalidRequest {
                        message: "the attachment is already initialized"@,
                    },
                ),
            )
        } else if host.refusal(protocol_version, self.read_only) is Some {
            self.answers(host, id, Err(host.refusal(protocol_version, self.read_only)->Some_0))
        } else {
            EndpointStep {
                endpoint: EndpointModel {
                    session: Some(SessionModel::fresh(host.newcomer().id, self.read_only)),
                    ..self
                },
                host: host.attached(self.read_only),
                dispatch: DispatchModel::Answered {
                    answer: AnswerModel::of(id, Ok(host.initialized())),
                    registration: None,
                },
            }
        }
    }

    /// The endpoint and the host as the session leaves them.
    pub open spec fn with_session(self, handled: HandledModel) -> EndpointStep {
        EndpointStep {
            endpoint: EndpointModel { session: Some(handled.session), ..self },
            host: handled.host,
            dispatch: handled.dispatch,
        }
    }

    /// What becomes of a request. A client that has detached can begin again, and one
    /// that subscribes waits at the channel.
    pub open spec fn handled(
        self,
        host: HostModel,
        request: RuntimeClientRequest,
        channel: Arc<Notify>,
    ) -> EndpointStep {
        match (request, self.session) {
            (RuntimeClientRequest::Initialize { id, protocol_version }, _) => self.initialized(
                host,
                id,
                protocol_version,
            ),
            (_, None) => self.answers(host, request.id_spec(), Err(ErrorModel::NotAttached)),
            (_, Some(session)) => {
                let step = self.with_session(session.handled(host, request, channel));
                if request is Detach && (step.dispatch matches DispatchModel::Answered {
                    answer,
                    ..
                } && answer.error is None) {
                    EndpointStep {
                        endpoint: EndpointModel { session: None, ..step.endpoint },
                        ..step
                    }
                } else {
                    step
                }
            },
        }
    }

    /// What becomes of a request that may wait for the runtime to settle something.
    pub open spec fn handled_async(
        self,
        host: HostModel,
        request: RuntimeClientRequest,
        channel: Arc<Notify>,
    ) -> EndpointStep {
        if !request.requires_async_spec() {
            self.handled(host, request, channel)
        } else {
            match self.session {
                None => self.answers(host, request.id_spec(), Err(ErrorModel::NotAttached)),
                Some(session) => self.with_session(
                    session.handled_async(host, request, channel),
                ),
            }
        }
    }
}

fn answered(
    id: RequestId,
    outcome: Result<RuntimeClientResult, RuntimeClientError>,
) -> (dispatch: Dispatch)
    ensures
        dispatch@ == (DispatchModel::Answered {
            answer: AnswerModel::of(id, crate::protocol::outcome_model(outcome)),
            registration: None,
        }),
{
    Dispatch::Answered { response: RuntimeClientResponse::of(id, outcome), subscription: None }
}

impl RuntimeClientEndpoint {
    /// A connection whose client may ask for changes.
    pub fn new() -> (endpoint: Self)
        ensures
            endpoint@ == (EndpointModel { read_only: false, session: None }),
    {
        RuntimeClientEndpoint { read_only: false, attachment: None }
    }

    /// A connection whose client may only observe.
    pub fn new_read_only() -> (endpoint: Self)
        ensures
            endpoint@ == (EndpointModel { read_only: true, session: None }),
    {
        RuntimeClientEndpoint { read_only: true, attachment: None }
    }

    /// Attaches the client of this connection.
    fn initialize(
        &mut self,
        host: &mut RuntimeClientHost,
        id: RequestId,
        protocol_version: u16,
    ) -> (dispatch: Dispatch)
        requires
            old(host)@.well_formed(),
        ensures
            final(self)@ == old(self)@.initialized(old(host)@, id, protocol_version).endpoint,
            final(host)@ == old(self)@.initialized(old(host)@, id, protocol_version).host,
            dispatch@ == old(self)@.initialized(old(host)@, id, protocol_version).dispatch,
            final(host)@.well_formed(),
    {
        if self.attachment.is_some() {
            return answered(
                id,
                Err(
                    RuntimeClientError::InvalidRequest {
                        message: "the attachment is already initialized".to_string(),
                    },
                ),
            );
        }
        let attached = if self.read_only {
            host.attach_read_only(protocol_version)
        } else {
            host.attach(protocol_version)
        };
        match attached {
            Ok((attachment, result)) => {
                self.attachment = Some(attachment);
                answered(id, Ok(result))
            },
            Err(error) => answered(id, Err(error)),
        }
    }

    /// Handles a request of the client.
    pub fn handle_request(
        &mut self,
        host: &mut RuntimeClientHost,
        request: RuntimeClientRequest,
    ) -> (dispatch: Dispatch)
        requires
            old(host)@.well_formed(),
        ensures
            final(self)@ == old(self)@.handled(old(host)@, request, dispatch.channel()).endpoint,
            final(host)@ == old(self)@.handled(old(host)@, request, dispatch.channel()).host,
            dispatch@ == old(self)@.handled(old(host)@, request, dispatch.channel()).dispatch,
            final(host)@.well_formed(),
    {
        let id = request.id();
        if let RuntimeClientRequest::Initialize { protocol_version, .. } = request {
            return self.initialize(host, id, protocol_version);
        }
        let detaching = match &request {
            RuntimeClientRequest::Detach { .. } => true,
            _ => false,
        };
        let mut slot = self.attachment.take();
        let dispatch = match &mut slot {
            None => {
                return answered(id, Err(RuntimeClientError::NotAttached));
            },
            Some(attachment) => attachment.handle_request(host, request),
        };
        let released = detaching && match &dispatch {
            Dispatch::Answered { response, .. } => response.error.is_none(),
            Dispatch::Call { .. } => false,
        };
        if !released {
            self.attachment = slot;
        }
        dispatch
    }

    /// Handles a request of the client that may wait for the runtime to settle something.
    pub fn handle_request_async(
        &mut self,
        host: &mut RuntimeClientHost,
        request: RuntimeClientRequest,
    ) -> (dispatch: Dispatch)
        requires
            old(host)@.well_formed(),
        ensures
            final(self)@ == old(self)@.handled_async(old(host)@, request, dispatch.channel()).endpoint,
            final(host)@ == old(self)@.handled_async(old(host)@, request, dispatch.channel()).host,
            dispatch@ == old(self)@.handled_async(old(host)@, request, dispatch.channel()).dispatch,
            final(host)@.well_formed(),
    {
        if !request.requires_async() {
            return self.handle_request(host, request);
        }
        let id = request.id();
        match &mut self.attachment {
            None => answered(id, Err(RuntimeClientError::NotAttached)),
            Some(attachment) => attachment.handle_request_async(host, request),
        }
    }

    /// The registration of the client's subscription, if it has one.
    pub fn subscription(&self) -> (registration: Option<u64>)
        ensures
            registration == match self@.session {
                Some(session) => session.subscription,
                None => None,
            },
    {
        match &self.attachment {
            Some(attachment) => attachment.subscription(),
            None => None,
        }
    }

    /// The next delivery to the client, without waiting.
    pub fn try_next_event(&self, host: &mut RuntimeClientHost) -> (delivery: EventDelivery)
        requires
            old(host)@.well_formed(),
        ensures
            final(host)@.well_formed(),
            match self@.session {
                Some(SessionModel { subscription: Some(registration), .. }) => {
                    &&& delivery@ == old(host)@.projection.poll(registration)
                    &&& final(host)@ == (HostModel {
                        projection: old(host)@.projection.polled(registration),
                        ..old(host)@
                    })
                },
                _ => delivery@ == PollModel::Closed && final(host)@ == old(host)@,
            },
    {
        match &self.attachment {
            Some(attachment) => attachment.try_next_event(host),
            None => EventDelivery::Closed,
        }
    }

    /// The identity of the client's attachment, if it is attached.
    pub fn attachment_id(&self) -> (id: Option<AttachmentId>)
        ensures
            match (id, self@.session) {
                (Some(id), Some(session)) => id@ == session.id,
                (None, None) => true,
                _ => false,
            },
    {
        match &self.attachment {
            Some(attachment) => Some(attachment.attachment_id().clone()),
            None => None,
        }
    }

    /// Ends the connection: a client that is attached is detached.
    pub fn close(&mut self, host: &mut RuntimeClientHost)
        requires
            old(host)@.well_formed(),
        ensures
            final(self)@ == (EndpointModel { session: None, ..old(self)@ }),
            final(host)@ == match old(self)@.session {
                Some(session) => if session.detached {
                    old(host)@
                } else {
                    old(host)@.detached(session.id)
                },
                None => old(host)@,
            },
            final(host)@.well_formed(),
    {
        if let Some(taken) = self.attachment.take() {
            let mut attachment = taken;
            attachment.detach(host);
        }
    }
}

} // verus!
