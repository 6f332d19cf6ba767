//! The attachment: the session of one client.
//!
//! A client's requests arrive here. What the host itself knows is answered at once; what
//! concerns the runtime becomes a call, whose reply [`RuntimeAttachment::complete`] turns
//! into the response. To detach releases the attachment and nothing else.
#[allow(unused_imports)]
use std::sync::Arc;

#[allow(unused_imports)]
use tokio::sync::Notify;
use vstd::prelude::*;

use crate::control::{settle, RuntimeCall, RuntimeReply};
use crate::host::{EventDelivery, EventSubscription, RuntimeClientHost};
#[allow(unused_imports)]
use crate::host::HostModel;
use crate::identity::{AttachmentId, SubagentId, ToolExecutionId};
use crate::interaction::{InteractionRef, InteractionResponse};
use crate::json::JsonText;
use crate::message::UserContentBlock;
use crate::model::SessionModelConfig;
#[allow(unused_imports)]
use crate::projection::PollModel;
#[allow(unused_imports)]
use crate::protocol::{AnswerModel, ErrorModel, ResultModel};
use crate::protocol::{
    RequestId, RuntimeClientCursor, RuntimeClientError, RuntimeClientRequest,
    RuntimeClientResponse, RuntimeClientResult,
};
use crate::snapshot::RuntimeClientTranscriptCursor;

verus! {

/// The session of one client.
pub struct RuntimeAttachment {
    attachment_id: AttachmentId,
    /// Whether the client may only observe.
    read_only: bool,
    detached: bool,
    /// The registration of the subscription that is delivered now.
    subscription: Option<u64>,
}

/// The value of an attachment.
#[verifier::ext_equal]
pub struct SessionModel {
    pub id: Seq<char>,
    pub read_only: bool,
    pub detached: bool,
    pub subscription: Option<u64>,
}

/// What becomes of a request.
pub enum Dispatch {
    /// It is answered. Where the client subscribed, this is its new subscription.
    Answered { response: RuntimeClientResponse, subscription: Option<EventSubscription> },
    /// The runtime has to be called.
    Call { id: RequestId, call: RuntimeCall },
}

/// The value of what becomes of a request.
#[verifier::ext_equal]
pub enum DispatchModel {
    Answered { answer: AnswerModel, registration: Option<u64> },
    Call { id: RequestId, call: RuntimeCall },
}

impl View for Dispatch {
    type V = DispatchModel;

    open spec fn view(&self) -> DispatchModel {
        match *self {
            Dispatch::Answered { response, subscription } => DispatchModel::Answered {
                answer: response@,
                registration: match subscription {
                    Some(subscription) => Some(subscription.registration_spec()),
                    None => None,
                },
            },
            Dispatch::Call { id, call } => DispatchModel::Call { id, call },
        }
    }
}

impl Dispatch {
    /// Where the client waits, if it has just subscribed.
    pub open spec fn channel(&self) -> Arc<Notify> {
        match *self {
            Dispatch::Answered { subscription: Some(subscription), .. } => subscription.channel(),
            _ => arbitrary(),
        }
    }
}

/// A session, its host, and what becomes of a request.
#[verifier::ext_equal]
pub struct HandledModel {
    pub session: SessionModel,
    pub host: HostModel,
    pub dispatch: DispatchModel,
}

/// The call that a request amounts to, where only the runtime can serve it.
pub open spec fn call_of(request: RuntimeClientRequest) -> Option<RuntimeCall> {
    match request {
        RuntimeClientRequest::SubmitInbound { content, .. } => Some(
            RuntimeCall::SubmitInbound { content },
        ),
        RuntimeClientRequest::Goal { control, .. } => Some(RuntimeCall::Goal { control }),
        RuntimeClientRequest::TranscriptPageGet { before_cursor, limit, .. } => Some(
            RuntimeCall::TranscriptPage { before_cursor, limit },
        ),
        RuntimeClientRequest::BackgroundStatus { execution_id, .. } => Some(
            RuntimeCall::BackgroundStatus { execution_id },
        ),
        RuntimeClientRequest::BackgroundCancel { execution_id, .. } => Some(
            RuntimeCall::BackgroundCancel { execution_id },
        ),
        RuntimeClientRequest::SubagentStatus { subagent_id, .. } => Some(
            RuntimeCall::SubagentStatus { subagent_id },
        ),
        RuntimeClientRequest::SubagentCancel { subagent_id, .. } => Some(
            RuntimeCall::SubagentCancel { subagent_id },
        ),
        RuntimeClientRequest::CompactContext { .. } => Some(RuntimeCall::CompactContext),
        RuntimeClientRequest::InteractionRespond { interaction, response, .. } => Some(
            RuntimeCall::RespondInteraction { interaction, response },
        ),
        RuntimeClientRequest::SubagentWorkspaceDispose { subagent_id, .. } => Some(
            RuntimeCall::DisposeWorkspace { subagent_id },
        ),
        RuntimeClientRequest::Session { request, .. } => Some(RuntimeCall::Session { request }),
        RuntimeClientRequest::Shutdown { .. } => Some(RuntimeCall::Shutdown),
        _ => None,
    }
}

impl SessionModel {
    /// The session of a client that was just attached.
    pub open spec fn fresh(id: Seq<char>, read_only: bool) -> Self {
        SessionModel { id, read_only, detached: false, subscription: None }
    }

    /// Why the client may not use the host, if it may not. A host that is gone serves
    /// nobody.
    pub open spec fn denied(self, write: bool, resident: bool) -> Option<ErrorModel> {
        if self.detached {
            Some(ErrorModel::NotAttached)
        } else if write && self.read_only {
            Some(ErrorModel::InvalidState { message: "inspection attachment is read-only"@ })
        } else if !resident {
            Some(ErrorModel::NotAttached)
        } else {
            None
        }
    }

    /// Why a request is refused before it is looked at, if it is.
    pub open spec fn barred(self, request: RuntimeClientRequest) -> Option<ErrorModel> {
        if self.detached {
            Some(ErrorModel::NotAttached)
        } else if self.read_only && request.is_mutating_spec() {
            Some(ErrorModel::InvalidState { message: "conversation inspection is read-only"@ })
        } else {
            None
        }
    }

    /// The session after the client has detached: it is over, and no subscription is left.
    pub open spec fn released(self) -> Self {
        SessionModel { detached: true, subscription: None, ..self }
    }

    /// The request is answered, and neither the session nor the host changes.
    pub open spec fn answers(
        self,
        host: HostModel,
        id: RequestId,
        outcome: Result<ResultModel, ErrorModel>,
    ) -> HandledModel {
        HandledModel {
            session: self,
            host,
            dispatch: DispatchModel::Answered {
                answer: AnswerModel::of(id, outcome),
                registration: None,
            },
        }
    }

    /// The runtime has to be called, and neither the session nor the host changes.
    pub open spec fn calls(self, host: HostModel, id: RequestId, call: RuntimeCall) -> HandledModel {
        HandledModel { session: self, host, dispatch: DispatchModel::Call { id, call } }
    }

    /// What becomes of a request that need not wait for the runtime to settle anything.
    /// Where it is to subscribe, the client waits at the channel.
    pub open spec fn handled(
        self,
        host: HostModel,
        request: RuntimeClientRequest,
        channel: Arc<Notify>,
    ) -> HandledModel {
        let id = request.id_spec();
        if self.barred(request) is Some {
            self.answers(host, id, Err(self.barred(request)->Some_0))
        } else if request.requires_async_spec() {
            self.answers(
                host,
                id,
                Err(
                    ErrorModel::InvalidRequest {
                        message:
                            "this control request must be awaited through handle_request_async"@,
                    },
                ),
            )
        } else {
            match request {
                RuntimeClientRequest::Initialize { .. } => self.answers(
                    host,
                    id,
                    Err(
                        ErrorModel::InvalidRequest {
                            message: "the attachment is already initialized"@,
                        },
                    ),
                ),
                RuntimeClientRequest::SnapshotGet { .. } => self.answers(
                    host,
                    id,
                    host.unless_exhausted(
                        ResultModel::Snapshot {
                            snapshot: host.projection.snapshot,
                            cursor: host.projection.cursor,
                        },
                    ),
                ),
                RuntimeClientRequest::CapabilityGet { .. } => self.answers(
                    host,
                    id,
                    host.unless_exhausted(
                        ResultModel::Capability {
                            capabilities: host.projection.snapshot.capabilities,
                        },
                    ),
                ),
                RuntimeClientRequest::ModelGet { .. } => self.answers(
                    host,
                    id,
                    host.unless_exhausted(
                        ResultModel::Model { model: host.projection.snapshot.model },
                    ),
                ),
                RuntimeClientRequest::ModelCatalogGet { .. } => if host.projection.exhausted {
                    self.answers(host, id, Err(ErrorModel::ProjectionExhausted))
                } else {
                    self.calls(host, id, RuntimeCall::ModelCatalog)
                },
                RuntimeClientRequest::ModelSet { config, .. } => if host.projection.exhausted {
                    self.answers(host, id, Err(ErrorModel::ProjectionExhausted))
                } else {
                    self.calls(host, id, RuntimeCall::ModelSet { config })
                },
                RuntimeClientRequest::CancelCurrentAttempt { .. } => match host.cancellable() {
                    Some(attempt_id) => self.calls(
                        host,
                        id,
                        RuntimeCall::CancelAttempt { attempt_id },
                    ),
                    None => self.answers(host, id, Err(ErrorModel::NoCurrentAttempt)),
                },
                RuntimeClientRequest::SubscribeEvents { after_cursor, .. } => {
                    match host.subscription_refusal(self.id, after_cursor.value) {
                        Some(error) => self.answers(host.resubscribing(self.id), id, Err(error)),
                        None => {
                            let registration = host.projection.next_subscriber_id;
                            HandledModel {
                                session: SessionModel { subscription: Some(registration), ..self },
                                host: host.subscribed(self.id, after_cursor.value, channel),
                                dispatch: DispatchModel::Answered {
                                    answer: AnswerModel::of(
                                        id,
                                        Ok(
                                            ResultModel::Subscribed {
                                                after_cursor: after_cursor.value,
                                            },
                                        ),
                                    ),
                                    registration: Some(registration),
                                },
                            }
                        },
                    }
                },
                RuntimeClientRequest::Detach { .. } => HandledModel {
                    session: self.released(),
                    host: host.detached(self.id),
                    dispatch: DispatchModel::Answered {
                        answer: AnswerModel::of(id, Ok(ResultModel::Detached)),
                        registration: None,
                    },
                },
                _ => self.calls(host, id, call_of(request)->Some_0),
            }
        }
    }

    /// What becomes of a request that may wait for the runtime to settle something.
    pub open spec fn handled_async(
        self,
        host: HostModel,
        request: RuntimeClientRequest,
        channel: Arc<Notify>,
    ) -> HandledModel {
        if self.barred(request) is None && request.requires_async_spec() {
            self.calls(host, request.id_spec(), call_of(request)->Some_0)
        } else {
            self.handled(host, request, channel)
        }
    }
}

impl View for RuntimeAttachment {
    type V = SessionModel;

    closed spec fn view(&self) -> SessionModel {
        SessionModel {
            id: self.attachment_id@,
            read_only: self.read_only,
            detached: self.detached,
            subscription: self.subscription,
        }
    }
}

/// The answer to a request, with no new subscription.
fn answered(
    id: RequestId,
    outcome: Result<RuntimeClientResult, RuntimeClientError>,
) -> (dispatch: Dispatch)
    ensures
        dispatch@ == (DispatchModel::Answered {
            answer: AnswerModel::of(id, crate::protocol::outcome_model(outcome)),
            registration: None,
        }),
{
    Dispatch::Answered { response: RuntimeClientResponse::of(id, outcome), subscription: None }
}

/// The read model and its cursor, as the result of a request.
fn snapshot_result(host: &RuntimeClientHost) -> (result: Result<
    RuntimeClientResult,
    RuntimeClientError,
>)
    ensures
        crate::protocol::outcome_model(result) == host@.unless_exhausted(
            ResultModel::Snapshot {
                snapshot: host@.projection.snapshot,
                cursor: host@.projection.cursor,
            },
        ),
{
    match host.snapshot() {
        Ok((snapshot, cursor)) => Ok(RuntimeClientResult::Snapshot { snapshot, cursor }),
        Err(error) => Err(error),
    }
}

/// The call that the host asks for, or its refusal.
fn called(id: RequestId, outcome: Result<RuntimeCall, RuntimeClientError>) -> (dispatch: Dispatch)
    ensures
        dispatch@ == match outcome {
            Ok(call) => DispatchModel::Call { id, call },
            Err(error) => DispatchModel::Answered {
                answer: AnswerModel::of(id, Err(error@)),
                registration: None,
            },
        },
{
    match outcome {
        Ok(call) => Dispatch::Call { id, call },
        Err(error) => answered(id, Err(error)),
    }
}

/// The call that a request amounts to, where only the runtime can serve it.
fn runtime_call(request: RuntimeClientRequest) -> (call: Option<RuntimeCall>)
    ensures
        call == call_of(request),
{
    match request {
        RuntimeClientRequest::SubmitInbound { content, .. } => Some(
            RuntimeCall::SubmitInbound { content },
        ),
        RuntimeClientRequest::Goal { control, .. } => Some(RuntimeCall::Goal { control }),
        RuntimeClientRequest::TranscriptPageGet { before_cursor, limit, .. } => Some(
            RuntimeCall::TranscriptPage { before_cursor, limit },
        ),
        RuntimeClientRequest::BackgroundStatus { execution_id, .. } => Some(
            RuntimeCall::BackgroundStatus { execution_id },
        ),
        RuntimeClientRequest::BackgroundCancel { execution_id, .. } => Some(
            RuntimeCall::BackgroundCancel { execution_id },
        ),
        RuntimeClientRequest::SubagentStatus { subagent_id, .. } => Some(
            RuntimeCall::SubagentStatus { subagent_id },
        ),
        RuntimeClientRequest::SubagentCancel { subagent_id, .. } => Some(
            RuntimeCall::SubagentCancel { subagent_id },
        ),
        RuntimeClientRequest::CompactContext { .. } => Some(RuntimeCall::CompactContext),
        RuntimeClientRequest::InteractionRespond { interaction, response, .. } => Some(
            RuntimeCall::RespondInteraction { interaction, response },
        ),
        RuntimeClientRequest::SubagentWorkspaceDispose { subagent_id, .. } => Some(
            RuntimeCall::DisposeWorkspace { subagent_id },
        ),
        RuntimeClientRequest::Session { request, .. } => Some(RuntimeCall::Session { request }),
        RuntimeClientRequest::Shutdown { .. } => Some(RuntimeCall::Shutdown),
        _ => None,
    }
}

impl RuntimeAttachment {
    /// The session of a client that was just attached.
    pub(crate) fn new(attachment_id: AttachmentId, read_only: bool) -> (attachment: Self)
        ensures
            attachment@ == SessionModel::fresh(attachment_id@, read_only),
    {
        RuntimeAttachment { attachment_id, read_only, detached: false, subscription: None }
    }

    /// The identity of the attachment.
    pub fn attachment_id(&self) -> (id: &AttachmentId)
        ensures
            id@ == self@.id,
    {
        &self.attachment_id
    }

    /// Whether the client may use the host, to read or to write.
    pub fn access(&self, write: bool, resident: bool) -> (result: Result<(), RuntimeClientError>)
        ensures
            match result {
                Ok(()) => self@.denied(write, resident) is None,
                Err(error) => self@.denied(write, resident) == Some(error@),
            },
    {
        if self.detached {
            return Err(RuntimeClientError::NotAttached);
        }
        if write && self.read_only {
            return Err(
                RuntimeClientError::InvalidState {
                    message: "inspection attachment is read-only".to_string(),
                },
            );
        }
        if !resident {
            return Err(RuntimeClientError::NotAttached);
        }
        Ok(())
    }

    /// A call of the runtime in the client's name, where the client may make it.
    pub fn control(&self, call: RuntimeCall, resident: bool) -> (result: Result<
        RuntimeCall,
        RuntimeClientError,
    >)
        ensures
            match result {
                Ok(allowed) => allowed == call && self@.denied(call.is_write_spec(), resident)
                    is None,
                Err(error) => self@.denied(call.is_write_spec(), resident) == Some(error@),
            },
    {
        match self.access(call.is_write(), resident) {
            Ok(()) => Ok(call),
            Err(error) => Err(error),
        }
    }

    /// Why a request is refused before it is looked at, if it is.
    fn bar(&self, request: &RuntimeClientRequest) -> (error: Option<RuntimeClientError>)
        ensures
            match error {
                Some(error) => self@.barred(*request) == Some(error@),
                None => self@.barred(*request) is None,
            },
    {
        if self.detached {
            return Some(RuntimeClientError::NotAttached);
        }
        if self.read_only && request.is_mutating() {
            return Some(
                RuntimeClientError::InvalidState {
                    message: "conversation inspection is read-only".to_string(),
                },
            );
        }
        None
    }

    /// The response to a request that finds no host.
    pub fn unattended(request: &RuntimeClientRequest) -> (response: RuntimeClientResponse)
        ensures
            response@ == AnswerModel::of(request.id_spec(), Err(ErrorModel::NotAttached)),
    {
        RuntimeClientResponse::error(request.id(), RuntimeClientError::NotAttached)
    }

    /// Handles a request that need not wait for the runtime to settle anything.
    pub fn handle_request(
        &mut self,
        host: &mut RuntimeClientHost,
        request: RuntimeClientRequest,
    ) -> (dispatch: Dispatch)
        requires
            old(host)@.well_formed(),
        ensures
            final(self)@ == old(self)@.handled(old(host)@, request, dispatch.channel()).session,
            final(host)@ == old(self)@.handled(old(host)@, request, dispatch.channel()).host,
            dispatch@ == old(self)@.handled(old(host)@, request, dispatch.channel()).dispatch,
            final(host)@.well_formed(),
    {
        let id = request.id();
        if let Some(error) = self.bar(&request) {
            return answered(id, Err(error));
        }
        if request.requires_async() {
            return answered(
                id,
                Err(
                    RuntimeClientError::InvalidRequest {
                        message:
                            "this control request must be awaited through handle_request_async".to_string(),
                    },
                ),
            );
        }
        match request {
            RuntimeClientRequest::Initialize { .. } => answered(
                id,
                Err(
                    RuntimeClientError::InvalidRequest {
                        message: "the attachment is already initialized".to_string(),
                    },
                ),
            ),
            RuntimeClientRequest::SnapshotGet { .. } => answered(id, snapshot_result(host)),
            RuntimeClientRequest::CapabilityGet { .. } => answered(id, host.capability()),
            RuntimeClientRequest::ModelGet { .. } => answered(id, host.model_get()),
            RuntimeClientRequest::ModelCatalogGet { .. } => called(id, host.model_catalog()),
            RuntimeClientRequest::ModelSet { config, .. } => called(id, host.model_set(config)),
            RuntimeClientRequest::CancelCurrentAttempt { .. } => called(
                id,
                host.cancel_current_attempt(),
            ),
            RuntimeClientRequest::SubscribeEvents { after_cursor, .. } => {
                match host.subscribe_events(&self.attachment_id, after_cursor) {
                    Ok((subscription, result)) => {
                        let _ = self.store_subscription(&subscription);
                        Dispatch::Answered {
                            response: RuntimeClientResponse::of(id, Ok(result)),
                            subscription: Some(subscription),
                        }
                    },
                    Err(error) => answered(id, Err(error)),
                }
            },
            RuntimeClientRequest::Detach { .. } => {
                self.detach(host);
                answered(id, Ok(RuntimeClientResult::Detached))
            },
            other => {
                match runtime_call(other) {
                    Some(call) => Dispatch::Call { id, call },
                    None => vstd::pervasive::unreached(),
                }
            },
        }
    }

    /// Handles a request that may wait for the runtime to settle something.
    pub fn handle_request_async(
        &mut self,
        host: &mut RuntimeClientHost,
        request: RuntimeClientRequest,
    ) -> (dispatch: Dispatch)
        requires
            old(host)@.well_formed(),
        ensures
            final(self)@ == old(self)@.handled_async(old(host)@, request, dispatch.channel()).session,
            final(host)@ == old(self)@.handled_async(old(host)@, request, dispatch.channel()).host,
            dispatch@ == old(self)@.handled_async(old(host)@, request, dispatch.channel()).dispatch,
            final(host)@.well_formed(),
    {
        let id = request.id();
        if let Some(error) = self.bar(&request) {
            return answered(id, Err(error));
        }
        if !request.requires_async() {
            return self.handle_request(host, request);
        }
        match runtime_call(request) {
            Some(call) => Dispatch::Call { id, call },
            None => vstd::pervasive::unreached(),
        }
    }

    /// The response to a request for which the runtime was called.
    pub fn complete(id: RequestId, reply: RuntimeReply) -> (response: RuntimeClientResponse)
        ensures
            response@ == AnswerModel::of(id, crate::control::settled(reply)),
    {
        RuntimeClientResponse::of(id, settle(reply))
    }

    /// Subscribes the client behind a cursor.
    pub fn subscribe_events(
        &mut self,
        host: &mut RuntimeClientHost,
        after_cursor: RuntimeClientCursor,
    ) -> (result: Result<EventSubscription, RuntimeClientError>)
        requires
            old(host)@.well_formed(),
        ensures
            final(host)@.well_formed(),
            if old(self)@.detached {
                &&& final(self)@ == old(self)@
                &&& final(host)@ == old(host)@
                &&& result matches Err(error) && error@ == ErrorModel::NotAttached
            } else {
                match result {
                    Ok(subscription) => {
                        &&& old(host)@.subscription_refusal(
                            old(self)@.id,
                            after_cursor.value,
                        ) is None
                        &&& subscription.registration_spec() == old(
                            host,
                        )@.projection.next_subscriber_id
                        &&& final(host)@ == old(host)@.subscribed(
                            old(self)@.id,
                            after_cursor.value,
                            subscription.channel(),
                        )
                        &&& final(self)@ == (SessionModel {
                            subscription: Some(subscription.registration_spec()),
                            ..old(self)@
                        })
                    },
                    Err(error) => {
                        &&& old(host)@.subscription_refusal(old(self)@.id, after_cursor.value)
                            == Some(error@)
                        &&& final(host)@ == old(host)@.resubscribing(old(self)@.id)
                        &&& final(self)@ == old(self)@
                    },
                }
            },
    {
        if self.detached {
            return Err(RuntimeClientError::NotAttached);
        }
        match host.subscribe_events(&self.attachment_id, after_cursor) {
            Ok((subscription, _)) => {
                let _ = self.store_subscription(&subscription);
                Ok(subscription)
            },
            Err(error) => Err(error),
        }
    }

    /// Makes a registration the one that is delivered now, and gives the one it
    /// replaces.
    pub fn store_subscription(&mut self, subscription: &EventSubscription) -> (replaced: Option<u64>)
        ensures
            replaced == old(self)@.subscription,
            final(self)@ == (SessionModel {
                subscription: Some(subscription.registration_spec()),
                ..old(self)@
            }),
    {
        let replaced: Option<u64> = self.subscription;
        self.subscription = Some(subscription.registration());
        replaced
    }

    /// The registration of the subscription that is delivered now.
    pub fn subscription(&self) -> (registration: Option<u64>)
        ensures
            registration == self@.subscription,
    {
        self.subscription
    }

    /// Whether a registration was replaced by a later one. A consumer that finds its own
    /// closed learns from this that the stream goes on elsewhere.
    pub fn superseded(&self, observed: &EventSubscription) -> (superseded: bool)
        ensures
            superseded == (self@.subscription matches Some(current) && current
                != observed.registration_spec()),
    {
        match self.subscription {
            Some(current) => current != observed.registration(),
            None => false,
        }
    }

    /// The next delivery of the current subscription, without waiting.
    pub fn try_next_event(&self, host: &mut RuntimeClientHost) -> (delivery: EventDelivery)
        requires
            old(host)@.well_formed(),
        ensures
            final(host)@.well_formed(),
            match self@.subscription {
                Some(registration) => {
                    &&& delivery@ == old(host)@.projection.poll(registration)
                    &&& final(host)@ == (HostModel {
                        projection: old(host)@.projection.polled(registration),
                        ..old(host)@
                    })
                },
                None => delivery@ == PollModel::Closed && final(host)@ == old(host)@,
            },
    {
        match self.subscription {
            Some(registration) => host.poll(registration),
            None => EventDelivery::Closed,
        }
    }

    /// Detaches the client. A second time the host is left alone. To detach is never to
    /// cancel.
    pub fn detach(&mut self, host: &mut RuntimeClientHost)
        requires
            old(host)@.well_formed(),
        ensures
            final(self)@ == old(self)@.released(),
            final(host)@ == if old(self)@.detached {
                old(host)@
            } else {
                old(host)@.detached(old(self)@.id)
            },
            final(host)@.well_formed(),
    {
        if !self.detached {
            self.detached = true;
            host.detach(&self.attachment_id);
        }
        self.subscription = None;
    }

    /// The read model and its cursor, for a client that is attached.
    pub fn snapshot(&self, host: &RuntimeClientHost) -> (result: Result<
        RuntimeClientResult,
        RuntimeClientError,
    >)
        ensures
            crate::protocol::outcome_model(result) == if self@.detached {
                Err(ErrorModel::NotAttached)
            } else {
                host@.unless_exhausted(
                    ResultModel::Snapshot {
                        snapshot: host@.projection.snapshot,
                        cursor: host@.projection.cursor,
                    },
                )
            },
    {
        match self.access(false, true) {
            Ok(()) => snapshot_result(host),
            Err(error) => Err(error),
        }
    }

    /// Asks the runtime to take in a message, for a client that may.
    pub fn submit_inbound(&self, content: Vec<UserContentBlock>, resident: bool) -> (result: Result<
        RuntimeCall,
        RuntimeClientError,
    >)
        ensures
            match result {
                Ok(call) => self@.denied(true, resident) is None && call
                    == (RuntimeCall::SubmitInbound { content }),
                Err(error) => self@.denied(true, resident) == Some(error@),
            },
    {
        self.control(RuntimeCall::SubmitInbound { content }, resident)
    }

    /// Asks the runtime to compact the context, for a client that may.
    pub fn compact_context(&self, resident: bool) -> (result: Result<
        RuntimeCall,
        RuntimeClientError,
    >)
        ensures
            match result {
                Ok(call) => self@.denied(true, resident) is None && call
                    == RuntimeCall::CompactContext,
                Err(error) => self@.denied(true, resident) == Some(error@),
            },
    {
        self.control(RuntimeCall::CompactContext, resident)
    }

    /// Asks the runtime to give up the workspace that a subagent left, for a client that
    /// may.
    pub fn subagent_workspace_dispose(&self, id: &SubagentId, resident: bool) -> (result: Result<
        RuntimeCall,
        RuntimeClientError,
    >)
        ensures
            match result {
                Ok(call) => self@.denied(true, resident) is None && call
                    == (RuntimeCall::DisposeWorkspace { subagent_id: *id }),
                Err(error) => self@.denied(true, resident) == Some(error@),
            },
    {
        self.control(RuntimeCall::DisposeWorkspace { subagent_id: id.clone() }, resident)
    }

    /// Answers a prompt, for a client that may.
    pub fn respond_interaction(
        &self,
        interaction: &InteractionRef,
        response: InteractionResponse,
        resident: bool,
    ) -> (result: Result<RuntimeCall, RuntimeClientError>)
        ensures
            match result {
                Ok(call) => self@.denied(true, resident) is None && call
                    == (RuntimeCall::RespondInteraction { interaction: *interaction, response }),
                Err(error) => self@.denied(true, resident) == Some(error@),
            },
    {
        self.control(
            RuntimeCall::RespondInteraction { interaction: interaction.clone(), response },
            resident,
        )
    }

    /// Cancels a prompt, for a client that may.
    pub fn cancel_interaction(&self, interaction: &InteractionRef, resident: bool) -> (result: Result<
        RuntimeCall,
        RuntimeClientError,
    >)
        ensures
            match result {
                Ok(call) => self@.denied(true, resident) is None && call
                    == (RuntimeCall::CancelInteraction { interaction: *interaction }),
                Err(error) => self@.denied(true, resident) == Some(error@),
            },
    {
        self.control(
            RuntimeCall::CancelInteraction { interaction: interaction.clone() },
            resident,
        )
    }

    /// Asks the runtime to steer the goal, for a client that may.
    pub fn goal_control(&self, control: JsonText, resident: bool) -> (result: Result<
        RuntimeCall,
        RuntimeClientError,
    >)
        ensures
            match result {
                Ok(call) => self@.denied(true, resident) is None && call
                    == (RuntimeCall::Goal { control }),
                Err(error) => self@.denied(true, resident) == Some(error@),
            },
    {
        self.control(RuntimeCall::Goal { control }, resident)
    }

    /// Asks for a page of the trace, for a client that is attached.
    pub fn trace_page(&self, before: Option<JsonText>, limit: usize, resident: bool) -> (result: Result<
        RuntimeCall,
        RuntimeClientError,
    >)
        ensures
            match result {
                Ok(call) => self@.denied(false, resident) is None && call
                    == (RuntimeCall::TracePage { before, limit }),
                Err(error) => self@.denied(false, resident) == Some(error@),
            },
    {
        self.control(RuntimeCall::TracePage { before, limit }, resident)
    }

    /// Asks for a page of the transcript, for a client that is attached.
    pub fn transcript_page(&self, before_cursor: Option<RuntimeClientTranscriptCursor>, limit: usize, resident: bool) -> (result: Result<
        RuntimeCall,
        RuntimeClientError,
    >)
        ensures
            match result {
                Ok(call) => self@.denied(false, resident) is None && call
                    == (RuntimeCall::TranscriptPage { before_cursor, limit }),
                Err(error) => self@.denied(false, resident) == Some(error@),
            },
    {
        self.control(RuntimeCall::TranscriptPage { before_cursor, limit }, resident)
    }

    /// Asks for the record of detached work, for a client that is attached.
    pub fn background_status(&self, id: &ToolExecutionId, resident: bool) -> (result: Result<
        RuntimeCall,
        RuntimeClientError,
    >)
        ensures
            match result {
                Ok(call) => self@.denied(false, resident) is None && call
                    == (RuntimeCall::BackgroundStatus { execution_id: *id }),
                Err(error) => self@.denied(false, resident) == Some(error@),
            },
    {
        self.control(RuntimeCall::BackgroundStatus { execution_id: id.clone() }, resident)
    }

    /// Asks for the cancellation of detached work, for a client that may.
    pub fn background_cancel(&self, id: &ToolExecutionId, resident: bool) -> (result: Result<
        RuntimeCall,
        RuntimeClientError,
    >)
        ensures
            match result {
                Ok(call) => self@.denied(true, resident) is None && call
                    == (RuntimeCall::BackgroundCancel { execution_id: *id }),
                Err(error) => self@.denied(true, resident) == Some(error@),
            },
    {
        self.control(RuntimeCall::BackgroundCancel { execution_id: id.clone() }, resident)
    }

    /// Asks for a page of a subagent's transcript, for a client that is attached.
    pub fn subagent_transcript_page(&self, id: &SubagentId, before_cursor: Option<RuntimeClientTranscriptCursor>, limit: usize, resident: bool) -> (result: Result<
        RuntimeCall,
        RuntimeClientError,
    >)
        ensures
            match result {
                Ok(call) => self@.denied(false, resident) is None && call
                    == (RuntimeCall::SubagentTranscriptPage { subagent_id: *id, before_cursor, limit }),
                Err(error) => self@.denied(false, resident) == Some(error@),
            },
    {
        self.control(RuntimeCall::SubagentTranscriptPage { subagent_id: id.clone(), before_cursor, limit }, resident)
    }

    /// Asks for the record of a subagent, for a client that is attached.
    pub fn subagent_status(&self, id: &SubagentId, resident: bool) -> (result: Result<
        RuntimeCall,
        RuntimeClientError,
    >)
        ensures
            match result {
                Ok(call) => self@.denied(false, resident) is None && call
                    == (RuntimeCall::SubagentStatus { subagent_id: *id }),
                Err(error) => self@.denied(false, resident) == Some(error@),
            },
    {
        self.control(RuntimeCall::SubagentStatus { subagent_id: id.clone() }, resident)
    }

    /// Asks for the cancellation of a subagent, for a client that may.
    pub fn subagent_cancel(&self, id: &SubagentId, resident: bool) -> (result: Result<
        RuntimeCall,
        RuntimeClientError,
    >)
        ensures
            match result {
                Ok(call) => self@.denied(true, resident) is None && call
                    == (RuntimeCall::SubagentCancel { subagent_id: *id }),
                Err(error) => self@.denied(true, resident) == Some(error@),
            },
    {
        self.control(RuntimeCall::SubagentCancel { subagent_id: id.clone() }, resident)
    }

    /// The capabilities, for a client that is attached.
    pub fn capability(&self, host: &RuntimeClientHost) -> (result: Result<
        RuntimeClientResult,
        RuntimeClientError,
    >)
        ensures
            crate::protocol::outcome_model(result) == if self@.detached {
                Err(ErrorModel::NotAttached)
            } else {
                host@.unless_exhausted(
                    ResultModel::Capability {
                        capabilities: host@.projection.snapshot.capabilities,
                    },
                )
            },
    {
        match self.access(false, true) {
            Ok(()) => host.capability(),
            Err(error) => Err(error),
        }
    }

    /// The session's model, for a client that is attached.
    pub fn model_get(&self, host: &RuntimeClientHost) -> (result: Result<
        RuntimeClientResult,
        RuntimeClientError,
    >)
        ensures
            crate::protocol::outcome_model(result) == if self@.detached {
                Err(ErrorModel::NotAttached)
            } else {
                host@.unless_exhausted(
                    ResultModel::Model { model: host@.projection.snapshot.model },
                )
            },
    {
        match self.access(false, true) {
            Ok(()) => host.model_get(),
            Err(error) => Err(error),
        }
    }

    /// Asks for the models that the session can have, for a client that is attached.
    pub fn model_catalog(&self, host: &RuntimeClientHost) -> (result: Result<
        RuntimeCall,
        RuntimeClientError,
    >)
        ensures
            match result {
                Ok(call) => self@.denied(false, true) is None && !host@.projection.exhausted && call
                    == RuntimeCall::ModelCatalog,
                Err(error) => match self@.denied(false, true) {
                    Some(denial) => error@ == denial,
                    None => host@.projection.exhausted && error@
                        == ErrorModel::ProjectionExhausted,
                },
            },
    {
        match self.access(false, true) {
            Ok(()) => host.model_catalog(),
            Err(error) => Err(error),
        }
    }

    /// Asks for another model of the session, for a client that may.
    pub fn model_set(&self, host: &RuntimeClientHost, config: SessionModelConfig) -> (result: Result<
        RuntimeCall,
        RuntimeClientError,
    >)
        ensures
            match result {
                Ok(call) => self@.denied(true, true) is None && !host@.projection.exhausted && call
                    == (RuntimeCall::ModelSet { config }),
                Err(error) => match self@.denied(true, true) {
                    Some(denial) => error@ == denial,
                    None => host@.projection.exhausted && error@
                        == ErrorModel::ProjectionExhausted,
                },
            },
    {
        match self.access(true, true) {
            Ok(()) => host.model_set(config),
            Err(error) => Err(error),
        }
    }

    /// Asks for the cancellation of the current attempt, for a client that may.
    pub fn cancel_current_attempt(&self, host: &RuntimeClientHost) -> (result: Result<
        RuntimeCall,
        RuntimeClientError,
    >)
        ensures
            match result {
                Ok(call) => self@.denied(true, true) is None && (host@.cancellable() matches Some(
                    attempt_id,
                ) && call == (RuntimeCall::CancelAttempt { attempt_id })),
                Err(error) => match self@.denied(true, true) {
                    Some(denial) => error@ == denial,
                    None => host@.cancellable() is None && error@
                        == ErrorModel::NoCurrentAttempt,
                },
            },
    {
        match self.access(true, true) {
            Ok(()) => host.cancel_current_attempt(),
            Err(error) => Err(error),
        }
    }
}

} // verus!
