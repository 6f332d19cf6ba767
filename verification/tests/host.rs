use std::sync::Arc;

use runtime_client::attachment::{Dispatch, RuntimeAttachment};
use runtime_client::clock::Timestamp;
use runtime_client::control::{
    settle, CancelAttemptError, InboundAdmission, InboundAdmissionError, ModelUpdateError,
    RuntimeCall, RuntimeReply, ShutdownError,
};
use runtime_client::endpoint::RuntimeClientEndpoint;
use runtime_client::event::{RuntimeClientEvent, RuntimeClientOutcome};
use runtime_client::host::{
    EventDelivery, EventSubscription, HostConstructionError, RuntimeBootstrapError,
    RuntimeClientHost, RuntimeClientHostConfig,
};
use runtime_client::identity::{
    AgentId, AttachmentId, AttemptId, ConversationId, InteractionId, MessageId, ServerId,
    SessionId, SkillId, SkillVersionId, SubagentId, ToolExecutionId, ToolId,
};
use runtime_client::interaction::{ApprovalDecision, InteractionRef, InteractionResponse};
use runtime_client::journal::RuntimeEvent;
use runtime_client::json::JsonText;
use runtime_client::message::{
    InboundKind, MessageBlock, TextBlock, UserContentBlock, UserMessageBlock, UserSource,
};
use runtime_client::model::{
    AttemptModelView, ModelCatalog, ModelCatalogEntry, ModelFinishReason, SessionModelConfig,
    SessionModelView,
};
use runtime_client::observation::{
    ApprovalMode, ApprovalModeState, BackgroundExecutionSnapshot, BackgroundLifecycle,
    CapabilityAvailability, CapabilitySnapshot, CapabilitySourceAvailability,
    CapabilitySourceId, CapabilitySourceState, ContextFile, ConversationObservation,
    InboundItem, InboundSequence, RuntimeBootstrapSnapshot, RuntimeResourceSnapshot,
    SkillBinding, SkillCatalogEntry, TodoSnapshot, TranscriptCursor,
};
use runtime_client::protocol::{
    RequestId, RuntimeClientCursor, RuntimeClientError, RuntimeClientRequest,
    RuntimeClientResponse, RuntimeClientResult, SessionRequest,
    RUNTIME_CLIENT_PROTOCOL_VERSION,
};
use runtime_client::session_deletion::{
    RuntimeClientSessionDeletePreview, RuntimeClientSessionDeletionBlocker,
    RuntimeClientSessionDeletionResult,
};
use runtime_client::snapshot::{
    CapabilityRevision, CapabilitySourceStateView, RuntimeClientAttemptPhase,
    RuntimeClientTranscriptCursor, RuntimeClientTranscriptPage, RuntimeResourceRevision,
};
use runtime_client::tool::{
    ToolApprovalPolicy, ToolConcurrencyPolicy, ToolDefinition, ToolExecutionPolicy, ToolOrigin,
    ToolReplayPolicy,
};

fn model(name: &str) -> Arc<SessionModelView> {
    Arc::new(SessionModelView {
        configured: config(name),
        attempt: Arc::new(AttemptModelView { model: name.to_owned(), reasoning_profile: None }),
    })
}

fn config(name: &str) -> SessionModelConfig {
    SessionModelConfig {
        model: name.to_owned(),
        reasoning_profile: None,
        request_params: Vec::new(),
    }
}

fn tool(name: &str) -> ToolDefinition {
    ToolDefinition {
        id: ToolId::new(name),
        name: name.to_owned(),
        description: format!("the tool {name}"),
        input_schema: JsonText::parse("{ \"type\": \"object\" }").unwrap(),
        execution_policy: ToolExecutionPolicy::BackgroundAllowed,
        concurrency_policy: ToolConcurrencyPolicy::Parallel,
        approval_policy: ToolApprovalPolicy::Ask,
        replay_policy: ToolReplayPolicy::NotReplayable,
        origin: ToolOrigin::Builtin,
    }
}

fn message(id: &str) -> Arc<MessageBlock> {
    Arc::new(MessageBlock::User(user_message(id)))
}

fn user_message(id: &str) -> UserMessageBlock {
    UserMessageBlock {
        id: MessageId::new(id),
        content: vec![UserContentBlock::Text(TextBlock { text: id.to_owned() })],
        source: UserSource::Human,
        kind: InboundKind::Message,
        timestamp: None,
    }
}

fn execution(id: &str, state: BackgroundLifecycle) -> BackgroundExecutionSnapshot {
    BackgroundExecutionSnapshot {
        execution_id: ToolExecutionId::new(id),
        tool_id: ToolId::new("tool"),
        tool_name: "tool".to_owned(),
        state,
        progress: None,
        result: None,
    }
}

fn capabilities() -> CapabilitySnapshot {
    CapabilitySnapshot {
        revision: CapabilityRevision::new(4),
        tool_registry: vec![tool("alpha"), tool("beta")],
        available_tools: vec![tool("beta")],
        skill_entries: vec![SkillCatalogEntry {
            name: "review".to_owned(),
            description: "reads".to_owned(),
            location: "/skills/review".to_owned(),
        }],
        skill_bindings: vec![SkillBinding {
            skill_id: SkillId::new("skill-1"),
            version_id: SkillVersionId::new("v1"),
        }],
    }
}

fn seed() -> RuntimeBootstrapSnapshot {
    RuntimeBootstrapSnapshot {
        conversation_id: ConversationId::new("conv-host"),
        messages: vec![message("history")],
        transcript: Arc::new(RuntimeClientTranscriptPage::default()),
        shutting_down: false,
        approval_mode: ApprovalModeState {
            effective: ApprovalMode::Policy,
            desired: ApprovalMode::AlwaysAsk,
            revision: 7,
        },
        inbound_pending: vec![InboundItem {
            sequence: InboundSequence::new(3),
            message: Arc::new(user_message("waiting")),
            transcript_cursor: Some(TranscriptCursor::new(9)),
        }],
        pending_interactions: Vec::new(),
        background: vec![execution("exec_1", BackgroundLifecycle::Running)],
        subagents: Vec::new(),
        capabilities: capabilities(),
        availability: CapabilityAvailability {
            sources: vec![CapabilitySourceAvailability {
                source: CapabilitySourceId::Mcp(ServerId::new("server")),
                state: CapabilitySourceState::Ready,
            }],
        },
        resources: RuntimeResourceSnapshot {
            revision: RuntimeResourceRevision { value: 2 },
            project_context_files: vec![ContextFile {
                path: "AGENTS.md".to_owned(),
                content: "gr\u{fc}n".to_owned(),
            }],
            agent_profile: None,
            capability: capabilities(),
        },
        model: model("scripted"),
        todos: Arc::new(TodoSnapshot { tasks: Vec::new() }),
    }
}

fn host_retaining(replay_limit: Option<usize>) -> RuntimeClientHost {
    let config = RuntimeClientHostConfig { agent_id: AgentId::new("agent-host"), replay_limit };
    match RuntimeClientHost::new(config, Ok(seed())) {
        Ok(host) => host,
        Err(error) => panic!("a host: {error:?}"),
    }
}

fn host() -> RuntimeClientHost {
    host_retaining(None)
}

fn attach(host: &mut RuntimeClientHost) -> RuntimeAttachment {
    match host.attach(RUNTIME_CLIENT_PROTOCOL_VERSION) {
        Ok((attachment, _)) => attachment,
        Err(error) => panic!("attach: {error:?}"),
    }
}

fn attempt() -> AttemptId {
    AttemptId::new("attempt-1")
}

fn fact(event: RuntimeEvent) -> ConversationObservation {
    ConversationObservation::Event { attempt_id: attempt(), event }
}

fn report(host: &mut RuntimeClientHost, observations: Vec<ConversationObservation>) {
    let count = observations.len();
    assert_eq!(host.apply_pending(observations), count);
}

fn start_attempt(host: &mut RuntimeClientHost) {
    report(host, vec![fact(RuntimeEvent::AttemptStarted { attempt_id: attempt() })]);
}

fn end_attempt(host: &mut RuntimeClientHost) {
    report(
        host,
        vec![fact(RuntimeEvent::AttemptCompleted {
            attempt_id: attempt(),
            finish_reason: ModelFinishReason::Stop,
        })],
    );
}

fn answer(dispatch: Dispatch) -> RuntimeClientResponse {
    match dispatch {
        Dispatch::Answered { response, .. } => response,
        Dispatch::Call { call, .. } => panic!("an answer, not {call:?}"),
    }
}

fn call(dispatch: Dispatch) -> (RequestId, RuntimeCall) {
    match dispatch {
        Dispatch::Call { id, call } => (id, call),
        Dispatch::Answered { response, .. } => panic!("a call, not {response:?}"),
    }
}

fn subscription(dispatch: Dispatch) -> EventSubscription {
    match dispatch {
        Dispatch::Answered { subscription: Some(subscription), .. } => subscription,
        _ => panic!("a subscription"),
    }
}

fn content(text: &str) -> Vec<UserContentBlock> {
    vec![UserContentBlock::Text(TextBlock { text: text.to_owned() })]
}

fn id(value: u64) -> RequestId {
    RequestId::new(value)
}

#[test]
fn attachment_lifecycle_and_request_id_scope() {
    let mut host = host();
    let (mut first, initialized) = match host.attach(RUNTIME_CLIENT_PROTOCOL_VERSION) {
        Ok(attached) => attached,
        Err(error) => panic!("first attach: {error:?}"),
    };
    let RuntimeClientResult::Initialized { attachment_id, cursor, .. } = &initialized else {
        panic!("initialized result");
    };
    let first_id = attachment_id.clone();
    assert_eq!(*cursor, RuntimeClientCursor::new(0));

    assert!(matches!(
        host.attach(RUNTIME_CLIENT_PROTOCOL_VERSION),
        Err(RuntimeClientError::AttachmentInUse { existing_attachment_id })
            if existing_attachment_id == first_id
    ));

    let response = answer(
        first.handle_request(&mut host, RuntimeClientRequest::SnapshotGet { id: id(1) }),
    );
    assert_eq!(response.id.get(), 1);
    assert!(response.error.is_none());
    assert!(matches!(response.result, Some(RuntimeClientResult::Snapshot { .. })));

    assert!(matches!(
        host.attach(9),
        Err(RuntimeClientError::UnsupportedProtocolVersion { supported: 1, requested: 9 })
    ));

    first.detach(&mut host);
    let (mut second_attachment, initialized) = match host.attach(RUNTIME_CLIENT_PROTOCOL_VERSION)
    {
        Ok(attached) => attached,
        Err(error) => panic!("attach after detach: {error:?}"),
    };
    let RuntimeClientResult::Initialized { attachment_id: second_id, .. } = initialized else {
        panic!("initialized result");
    };
    assert_ne!(first_id, second_id);
    let response = answer(
        second_attachment
            .handle_request(&mut host, RuntimeClientRequest::SnapshotGet { id: id(1) }),
    );
    assert_eq!(response.id.get(), 1, "request ids are attachment-scoped");
    assert!(response.error.is_none());
}

#[test]
fn detached_handle_rejects_requests() {
    let mut host = host();
    let mut attachment = attach(&mut host);
    attachment.detach(&mut host);
    let response = answer(
        attachment.handle_request(&mut host, RuntimeClientRequest::SnapshotGet { id: id(7) }),
    );
    assert_eq!(response.id.get(), 7);
    assert!(matches!(response.error, Some(RuntimeClientError::NotAttached)));
}

#[test]
fn a_detach_leaves_no_subscription() {
    let mut host = host();
    let mut attachment = attach(&mut host);
    let first =
        attachment.subscribe_events(&mut host, RuntimeClientCursor::new(0)).expect("subscribed");
    assert_eq!(attachment.subscription(), Some(first.registration()));
    let before = host.snapshot();
    attachment.detach(&mut host);
    assert_eq!(attachment.subscription(), None);
    assert_eq!(host.snapshot(), before, "a detach is not a cancellation");
    let _ = attachment.store_subscription(&first);
    attachment.detach(&mut host);
    assert_eq!(attachment.subscription(), None);
    assert_eq!(attachment.try_next_event(&mut host), EventDelivery::Closed);
    let again = attach(&mut host);
    assert_ne!(again.attachment_id(), attachment.attachment_id());
}

#[test]
fn a_request_that_need_not_wait_is_served_alike() {
    let mut waiting = host();
    let mut client = attach(&mut waiting);
    let mut at_once = host();
    let mut other = attach(&mut at_once);
    for request in [
        RuntimeClientRequest::SnapshotGet { id: id(1) },
        RuntimeClientRequest::ModelGet { id: id(2) },
        RuntimeClientRequest::CancelCurrentAttempt { id: id(3) },
        RuntimeClientRequest::Detach { id: id(4) },
        RuntimeClientRequest::CapabilityGet { id: id(5) },
    ] {
        let awaited = answer(client.handle_request_async(&mut waiting, request.clone()));
        assert_eq!(awaited, answer(other.handle_request(&mut at_once, request)));
    }
}

#[test]
fn cancel_with_no_attempt_fails_typed() {
    let mut host = host();
    let mut attachment = attach(&mut host);
    let response = answer(attachment.handle_request(
        &mut host,
        RuntimeClientRequest::CancelCurrentAttempt { id: id(1) },
    ));
    assert!(matches!(response.error, Some(RuntimeClientError::NoCurrentAttempt)));
}

#[test]
fn replay_resync_and_cursor_survival() {
    let mut host = host();
    let mut attachment = attach(&mut host);
    let subscription = attachment
        .subscribe_events(&mut host, RuntimeClientCursor::new(0))
        .unwrap_or_else(|error| panic!("subscribe: {error:?}"));
    start_attempt(&mut host);
    end_attempt(&mut host);
    let mut terminal_cursor = RuntimeClientCursor::new(0);
    while let EventDelivery::Event(event) = subscription.try_next(&mut host) {
        terminal_cursor = event.cursor;
    }
    assert_eq!(terminal_cursor.get(), 2);

    attachment.detach(&mut host);
    assert_eq!(subscription.try_next(&mut host), EventDelivery::Closed);
    let mut second = attach(&mut host);
    let second_subscription = second
        .subscribe_events(&mut host, RuntimeClientCursor::new(0))
        .unwrap_or_else(|error| panic!("resume from the retained stream: {error:?}"));
    let mut replayed = Vec::new();
    while let EventDelivery::Event(event) = second_subscription.try_next(&mut host) {
        replayed.push(event);
    }
    assert_eq!(
        replayed.last().expect("terminal replayed").cursor,
        terminal_cursor,
        "the full retained stream is replayable after reconnect"
    );
    assert!(replayed.windows(2).all(|pair| pair[0].cursor.get() < pair[1].cursor.get()));

    let ahead = RuntimeClientCursor::new(terminal_cursor.get() + 100);
    assert!(matches!(
        second.subscribe_events(&mut host, ahead),
        Err(RuntimeClientError::ResyncRequired { .. })
    ));
    assert_eq!(
        second.try_next_event(&mut host),
        EventDelivery::Closed,
        "the subscription before it was released all the same"
    );
}

#[test]
fn detach_is_not_cancellation() {
    let mut host = host();
    let mut attachment = attach(&mut host);
    start_attempt(&mut host);
    let (_, before) = host.snapshot().expect("snapshot");
    attachment.detach(&mut host);
    let mut second = attach(&mut host);
    let (snapshot, cursor) = host.snapshot().expect("snapshot");
    assert_eq!(cursor, before);
    assert!(
        matches!(
            snapshot.attempt.expect("attempt view").phase,
            RuntimeClientAttemptPhase::Running
        ),
        "detach never cancels the attempt"
    );
    let subscription = second
        .subscribe_events(&mut host, cursor)
        .unwrap_or_else(|error| panic!("resume from the retained cursor: {error:?}"));
    end_attempt(&mut host);
    let EventDelivery::Event(event) = subscription.try_next(&mut host) else {
        panic!("the settlement");
    };
    assert!(matches!(
        &*event.event,
        RuntimeClientEvent::AttemptSettled {
            outcome: RuntimeClientOutcome::Completed { .. },
            ..
        }
    ));
}

#[test]
fn the_seed_is_state_and_publishes_nothing() {
    let mut host = host();
    let (snapshot, cursor) = host.snapshot().expect("snapshot");
    assert_eq!(cursor, RuntimeClientCursor::new(0));
    assert_eq!(snapshot.conversation_id, ConversationId::new("conv-host"));
    assert_eq!(host.conversation_id().as_str(), "conv-host");
    assert_eq!(snapshot.messages, vec![message("history")]);
    assert_eq!(snapshot.inbound.pending.len(), 1);
    assert_eq!(snapshot.inbound.pending[0].sequence.get(), 3);
    assert_eq!(snapshot.background.len(), 1);
    assert_eq!(snapshot.background[0].state, BackgroundLifecycle::Running);
    assert_eq!(snapshot.resources.revision, RuntimeResourceRevision { value: 2 });
    assert_eq!(snapshot.resources.context_files[0].path, "AGENTS.md");
    assert_eq!(snapshot.resources.context_files[0].bytes, 5, "bytes, not characters");
    assert!(!snapshot.resources.agent_profile);
    assert_eq!(snapshot.capabilities.tools.len(), 2);
    assert_eq!(snapshot.capabilities.tools[0].input_schema.as_str(), "{\"type\":\"object\"}");
    assert_eq!(snapshot.capabilities.available_tools.len(), 1);
    assert_eq!(snapshot.capabilities.skills[0].id, SkillId::new("skill-1"));
    assert_eq!(snapshot.capabilities.sources[0].state, CapabilitySourceStateView::Ready);

    let mut attachment = attach(&mut host);
    let subscription = attachment
        .subscribe_events(&mut host, RuntimeClientCursor::new(0))
        .unwrap_or_else(|error| panic!("subscribe: {error:?}"));
    assert_eq!(subscription.try_next(&mut host), EventDelivery::Pending);
    report(
        &mut host,
        vec![ConversationObservation::SessionModelChanged { model: model("changed") }],
    );
    let EventDelivery::Event(event) = subscription.try_next(&mut host) else {
        panic!("the first real transition");
    };
    assert_eq!(event.cursor, RuntimeClientCursor::new(1));
    assert_eq!(
        *event.event,
        RuntimeClientEvent::SessionModelChanged { model: model("changed") }
    );
}

#[test]
fn a_host_is_refused_for_a_reason() {
    let conversation_id = ConversationId::new("conv-host");
    assert_eq!(RuntimeClientHost::claim(true, &conversation_id), Ok(()));
    let bound = match RuntimeClientHost::claim(false, &conversation_id) {
        Err(error) => error,
        Ok(()) => panic!("a refusal"),
    };
    assert_eq!(
        bound,
        HostConstructionError::RuntimeClientAlreadyBound {
            conversation_id: conversation_id.clone()
        }
    );
    assert_eq!(
        bound.message(),
        "the runtime identity of conversation conv-host is already bound to a Runtime Client host"
    );

    assert!(!bound.releases_binding(), "a binding that was never had is not given back");

    let construct = |error: RuntimeBootstrapError| {
        let config =
            RuntimeClientHostConfig { agent_id: AgentId::new("agent"), replay_limit: None };
        match RuntimeClientHost::new(config, Err(error)) {
            Err(error) => error,
            Ok(_) => panic!("a refusal"),
        }
    };
    let bridged = construct(RuntimeBootstrapError::BridgeAlreadyInstalled {
        conversation_id: conversation_id.clone(),
    });
    assert_eq!(
        bridged.message(),
        "the conversation runtime of conv-host already has an observation bridge installed"
    );
    let activated = construct(RuntimeBootstrapError::RuntimeAlreadyActivated {
        conversation_id: conversation_id.clone(),
    });
    assert_eq!(activated, HostConstructionError::RuntimeAlreadyActivated { conversation_id });
    assert_eq!(
        activated.message(),
        "the conversation runtime of conv-host is already activated; a Runtime Client host \
         binds before activation"
    );
    let durable = construct(RuntimeBootstrapError::Durable("disk".to_owned()));
    assert_eq!(durable, HostConstructionError::Durable("disk".to_owned()));
    assert_eq!(durable.message(), "durable conversation bootstrap failed: disk");
    assert!(bridged.releases_binding());
    assert!(activated.releases_binding());
    assert!(durable.releases_binding());
}

#[test]
fn observers_do_not_compete() {
    let mut host = host();
    let control = attach(&mut host);
    let observers = (0..3)
        .map(|_| match host.attach_read_only(RUNTIME_CLIENT_PROTOCOL_VERSION) {
            Ok((attachment, _)) => attachment,
            Err(error) => panic!("an observer: {error:?}"),
        })
        .collect::<Vec<_>>();
    assert_eq!(control.attachment_id(), &AttachmentId::new("attachment-1"));
    assert_eq!(observers[2].attachment_id(), &AttachmentId::new("attachment-4"));
    assert!(matches!(
        host.attach(RUNTIME_CLIENT_PROTOCOL_VERSION),
        Err(RuntimeClientError::AttachmentInUse { .. })
    ));
    host.detach(observers[1].attachment_id());
    assert!(matches!(
        host.subscribe_events(observers[1].attachment_id(), RuntimeClientCursor::new(0)),
        Err(RuntimeClientError::NotAttached)
    ));
    assert!(host
        .subscribe_events(observers[0].attachment_id(), RuntimeClientCursor::new(0))
        .is_ok());
    assert!(host
        .subscribe_events(control.attachment_id(), RuntimeClientCursor::new(0))
        .is_ok());
}

#[test]
fn an_observer_may_read_and_not_write() {
    let mut host = host();
    start_attempt(&mut host);
    let mut observer = match host.attach_read_only(RUNTIME_CLIENT_PROTOCOL_VERSION) {
        Ok((attachment, _)) => attachment,
        Err(error) => panic!("an observer: {error:?}"),
    };
    let refused = Some(RuntimeClientError::InvalidState {
        message: "conversation inspection is read-only".to_owned(),
    });
    for request in [
        RuntimeClientRequest::SubmitInbound { id: id(1), content: content("go") },
        RuntimeClientRequest::CancelCurrentAttempt { id: id(2) },
        RuntimeClientRequest::ModelSet { id: id(3), config: config("other") },
        RuntimeClientRequest::Shutdown { id: id(4) },
        RuntimeClientRequest::CompactContext { id: id(5) },
        RuntimeClientRequest::Session { id: id(6), request: SessionRequest::New },
    ] {
        let asked = request.id();
        let response = answer(observer.handle_request_async(&mut host, request.clone()));
        assert_eq!((response.id, response.error), (asked, refused_copy(&refused)));
        let response = answer(observer.handle_request(&mut host, request));
        assert_eq!((response.id, response.error), (asked, refused_copy(&refused)));
    }
    assert!(answer(
        observer.handle_request(&mut host, RuntimeClientRequest::SnapshotGet { id: id(7) })
    )
    .error
    .is_none());
    assert_eq!(
        observer.submit_inbound(content("go"), true),
        Err(RuntimeClientError::InvalidState {
            message: "inspection attachment is read-only".to_owned(),
        })
    );
    assert!(observer.control(RuntimeCall::ModelCatalog, true).is_ok());
    assert_eq!(
        observer.control(RuntimeCall::ModelCatalog, false),
        Err(RuntimeClientError::NotAttached)
    );
    assert!(observer.model_set(&host, config("other")).is_err());
    assert!(observer.cancel_current_attempt(&host).is_err());
    assert!(observer.snapshot(&host).is_ok());
    observer.detach(&mut host);
    assert_eq!(observer.snapshot(&host), Err(RuntimeClientError::NotAttached));
    assert_eq!(observer.access(false, true), Err(RuntimeClientError::NotAttached));
}

fn refused_copy(error: &Option<RuntimeClientError>) -> Option<RuntimeClientError> {
    match error {
        Some(RuntimeClientError::InvalidState { message }) => {
            Some(RuntimeClientError::InvalidState { message: message.clone() })
        }
        _ => None,
    }
}

#[test]
fn the_controlling_client_calls_the_runtime_by_name() {
    let mut host = host();
    let control = attach(&mut host);
    let address =
        InteractionRef::new(ConversationId::new("conv-host"), InteractionId::new("prompt"));
    let allow = InteractionResponse::Approval { decision: ApprovalDecision::Allow };
    let subagent = SubagentId::new("subagent");
    assert_eq!(
        control.submit_inbound(content("go"), true),
        Ok(RuntimeCall::SubmitInbound { content: content("go") })
    );
    assert_eq!(control.compact_context(true), Ok(RuntimeCall::CompactContext));
    assert_eq!(
        control.subagent_workspace_dispose(&subagent, true),
        Ok(RuntimeCall::DisposeWorkspace { subagent_id: subagent.clone() })
    );
    assert_eq!(
        control.respond_interaction(&address, allow.clone(), true),
        Ok(RuntimeCall::RespondInteraction { interaction: address.clone(), response: allow })
    );
    assert_eq!(
        control.cancel_interaction(&address, true),
        Ok(RuntimeCall::CancelInteraction { interaction: address.clone() })
    );
    assert_eq!(
        control.cancel_interaction(&address, false),
        Err(RuntimeClientError::NotAttached)
    );
    assert_eq!(
        control.model_set(&host, config("other")),
        Ok(RuntimeCall::ModelSet { config: config("other") })
    );
    assert_eq!(
        control.cancel_current_attempt(&host),
        Err(RuntimeClientError::NoCurrentAttempt)
    );
    start_attempt(&mut host);
    assert_eq!(
        control.cancel_current_attempt(&host),
        Ok(RuntimeCall::CancelAttempt { attempt_id: attempt() })
    );
    let work = ToolExecutionId::new("exec_1");
    let goal = JsonText::parse("{}").expect("a document");
    let before = Some(RuntimeClientTranscriptCursor::new(4));
    assert_eq!(
        control.goal_control(goal.clone(), true),
        Ok(RuntimeCall::Goal { control: goal.clone() })
    );
    assert_eq!(
        control.background_cancel(&work, true),
        Ok(RuntimeCall::BackgroundCancel { execution_id: work.clone() })
    );
    assert_eq!(
        control.subagent_cancel(&subagent, true),
        Ok(RuntimeCall::SubagentCancel { subagent_id: subagent.clone() })
    );
    let observer = match host.attach_read_only(RUNTIME_CLIENT_PROTOCOL_VERSION) {
        Ok((observer, _)) => observer,
        Err(error) => panic!("attached: {error:?}"),
    };
    for refused in [
        observer.goal_control(goal.clone(), true),
        observer.background_cancel(&work, true),
        observer.subagent_cancel(&subagent, true),
    ] {
        assert_eq!(
            refused,
            Err(RuntimeClientError::InvalidState {
                message: "inspection attachment is read-only".to_owned(),
            })
        );
    }
    for client in [&control, &observer] {
        assert_eq!(
            client.trace_page(Some(goal.clone()), 5, true),
            Ok(RuntimeCall::TracePage { before: Some(goal.clone()), limit: 5 })
        );
        assert_eq!(
            client.transcript_page(before, 6, true),
            Ok(RuntimeCall::TranscriptPage { before_cursor: before, limit: 6 })
        );
        assert_eq!(
            client.subagent_transcript_page(&subagent, before, 7, true),
            Ok(RuntimeCall::SubagentTranscriptPage {
                subagent_id: subagent.clone(),
                before_cursor: before,
                limit: 7,
            })
        );
        assert_eq!(
            client.subagent_status(&subagent, true),
            Ok(RuntimeCall::SubagentStatus { subagent_id: subagent.clone() })
        );
        assert_eq!(
            client.background_status(&work, true),
            Ok(RuntimeCall::BackgroundStatus { execution_id: work.clone() })
        );
        assert_eq!(client.trace_page(None, 5, false), Err(RuntimeClientError::NotAttached));
        assert_eq!(client.model_catalog(&host), Ok(RuntimeCall::ModelCatalog));
        assert_eq!(client.model_get(&host), host.model_get());
        assert_eq!(client.capability(&host), host.capability());
    }
    assert_eq!(
        host.submit_inbound(content("go")),
        RuntimeCall::SubmitInbound { content: content("go") }
    );
    assert_eq!(
        host.background_status(&work),
        RuntimeCall::BackgroundStatus { execution_id: work.clone() }
    );
    assert_eq!(
        host.background_cancel(&work),
        RuntimeCall::BackgroundCancel { execution_id: work }
    );
    assert_eq!(host.shutdown(), RuntimeCall::Shutdown);
}

#[test]
fn requests_of_the_read_model_are_answered_at_once() {
    let mut host = host();
    let mut control = attach(&mut host);
    let response = answer(
        control.handle_request(&mut host, RuntimeClientRequest::CapabilityGet { id: id(1) }),
    );
    let Some(RuntimeClientResult::Capability { capabilities }) = response.result else {
        panic!("the capabilities");
    };
    assert_eq!(capabilities.revision, CapabilityRevision::new(4));
    let response =
        answer(control.handle_request(&mut host, RuntimeClientRequest::ModelGet { id: id(2) }));
    assert_eq!(
        response.result,
        Some(RuntimeClientResult::Model { model: model("scripted") })
    );
    let response = answer(control.handle_request(
        &mut host,
        RuntimeClientRequest::Initialize { id: id(3), protocol_version: 1 },
    ));
    assert_eq!(
        response.error,
        Some(RuntimeClientError::InvalidRequest {
            message: "the attachment is already initialized".to_owned(),
        })
    );
    let response =
        answer(control.handle_request(&mut host, RuntimeClientRequest::Shutdown { id: id(4) }));
    assert_eq!(
        response.error,
        Some(RuntimeClientError::InvalidRequest {
            message: "this control request must be awaited through handle_request_async"
                .to_owned(),
        })
    );
    let request = RuntimeClientRequest::SnapshotGet { id: id(9) };
    let response = RuntimeAttachment::unattended(&request);
    assert_eq!(response, RuntimeClientResponse::error(id(9), RuntimeClientError::NotAttached));
}

#[test]
fn requests_of_the_runtime_become_calls() {
    let mut host = host();
    let mut control = attach(&mut host);
    start_attempt(&mut host);
    let work = ToolExecutionId::new("exec_1");
    let subagent = SubagentId::new("subagent");
    let goal = JsonText::parse("{\"goal\": \"done\"}").unwrap();
    let position = Some(RuntimeClientTranscriptCursor::new(5));
    let cases = vec![
        (
            RuntimeClientRequest::SubmitInbound { id: id(1), content: content("go") },
            RuntimeCall::SubmitInbound { content: content("go") },
        ),
        (
            RuntimeClientRequest::CancelCurrentAttempt { id: id(1) },
            RuntimeCall::CancelAttempt { attempt_id: attempt() },
        ),
        (
            RuntimeClientRequest::Goal { id: id(1), control: goal.clone() },
            RuntimeCall::Goal { control: goal },
        ),
        (
            RuntimeClientRequest::TranscriptPageGet {
                id: id(1),
                before_cursor: position,
                limit: 20,
            },
            RuntimeCall::TranscriptPage { before_cursor: position, limit: 20 },
        ),
        (RuntimeClientRequest::ModelCatalogGet { id: id(1) }, RuntimeCall::ModelCatalog),
        (
            RuntimeClientRequest::ModelSet { id: id(1), config: config("other") },
            RuntimeCall::ModelSet { config: config("other") },
        ),
        (
            RuntimeClientRequest::BackgroundStatus { id: id(1), execution_id: work.clone() },
            RuntimeCall::BackgroundStatus { execution_id: work.clone() },
        ),
        (
            RuntimeClientRequest::BackgroundCancel { id: id(1), execution_id: work.clone() },
            RuntimeCall::BackgroundCancel { execution_id: work },
        ),
        (
            RuntimeClientRequest::SubagentStatus { id: id(1), subagent_id: subagent.clone() },
            RuntimeCall::SubagentStatus { subagent_id: subagent.clone() },
        ),
        (
            RuntimeClientRequest::SubagentCancel { id: id(1), subagent_id: subagent.clone() },
            RuntimeCall::SubagentCancel { subagent_id: subagent.clone() },
        ),
    ];
    for (request, expected) in cases {
        assert!(!request.requires_async());
        assert_eq!(expected.is_write(), request.is_mutating());
        assert_eq!(
            call(control.handle_request(&mut host, request.clone())),
            (id(1), expected.clone())
        );
        assert_eq!(
            call(control.handle_request_async(&mut host, request)),
            (id(1), expected)
        );
    }
    let address =
        InteractionRef::new(ConversationId::new("conv-host"), InteractionId::new("prompt"));
    let allow = InteractionResponse::Approval { decision: ApprovalDecision::Allow };
    let list = SessionRequest::Get { session_id: SessionId::new("session") };
    let awaited = vec![
        (RuntimeClientRequest::CompactContext { id: id(2) }, RuntimeCall::CompactContext),
        (
            RuntimeClientRequest::InteractionRespond {
                id: id(2),
                interaction: address.clone(),
                response: allow.clone(),
            },
            RuntimeCall::RespondInteraction { interaction: address, response: allow },
        ),
        (
            RuntimeClientRequest::Session { id: id(2), request: list.clone() },
            RuntimeCall::Session { request: list },
        ),
        (
            RuntimeClientRequest::SubagentWorkspaceDispose {
                id: id(2),
                subagent_id: subagent.clone(),
            },
            RuntimeCall::DisposeWorkspace { subagent_id: subagent },
        ),
        (RuntimeClientRequest::Shutdown { id: id(2) }, RuntimeCall::Shutdown),
    ];
    for (request, expected) in awaited {
        assert!(request.requires_async());
        assert_eq!(expected.is_write(), request.is_mutating());
        assert_eq!(
            call(control.handle_request_async(&mut host, request)),
            (id(2), expected)
        );
    }
}

#[test]
fn replies_of_the_runtime_become_responses() {
    let inactive = || RuntimeClientError::InvalidState {
        message: "the conversation runtime is not activated".to_owned(),
    };
    assert_eq!(
        settle(RuntimeReply::Inbound {
            outcome: Ok(InboundAdmission {
                message_id: MessageId::new("m1"),
                inbound_sequence: InboundSequence::new(1),
            }),
        }),
        Ok(RuntimeClientResult::InboundAccepted {
            message_id: MessageId::new("m1"),
            inbound_sequence: InboundSequence::new(1),
        })
    );
    for (error, expected) in [
        (InboundAdmissionError::Shutdown, RuntimeClientError::RuntimeShutdown),
        (InboundAdmissionError::Inactive, inactive()),
        (
            InboundAdmissionError::EmptyContent,
            RuntimeClientError::InvalidRequest {
                message: "inbound content must not be empty".to_owned(),
            },
        ),
        (
            InboundAdmissionError::DurabilityFailed { message: "disk".to_owned() },
            RuntimeClientError::InvalidState { message: "disk".to_owned() },
        ),
        (
            InboundAdmissionError::Mailbox { message: "full".to_owned() },
            RuntimeClientError::InvalidState { message: "full".to_owned() },
        ),
    ] {
        assert_eq!(settle(RuntimeReply::Inbound { outcome: Err(error) }), Err(expected));
    }
    assert_eq!(
        settle(RuntimeReply::Cancellation { outcome: Ok(attempt()) }),
        Ok(RuntimeClientResult::AttemptCancellationAccepted { attempt_id: attempt() })
    );
    assert_eq!(
        settle(RuntimeReply::Cancellation { outcome: Err(CancelAttemptError::NoCurrentAttempt) }),
        Err(RuntimeClientError::NoCurrentAttempt)
    );
    assert_eq!(
        settle(RuntimeReply::ModelSet { outcome: Ok(model("other")) }),
        Ok(RuntimeClientResult::ModelSet { model: model("other") })
    );
    for (error, expected) in [
        (ModelUpdateError::Inactive, inactive()),
        (
            ModelUpdateError::InvalidConfiguration("unknown".to_owned()),
            RuntimeClientError::InvalidModelConfiguration { message: "unknown".to_owned() },
        ),
        (
            ModelUpdateError::DurabilityFailed { message: "disk".to_owned() },
            RuntimeClientError::InvalidState { message: "disk".to_owned() },
        ),
    ] {
        assert_eq!(settle(RuntimeReply::ModelSet { outcome: Err(error) }), Err(expected));
    }
    let work = ToolExecutionId::new("exec_1");
    let Ok(RuntimeClientResult::BackgroundStatus { execution: shown }) =
        settle(RuntimeReply::BackgroundStatus {
            execution_id: work.clone(),
            record: Some(execution("exec_1", BackgroundLifecycle::Running)),
        })
    else {
        panic!("the status");
    };
    assert_eq!((shown.execution_id, shown.state), (work.clone(), BackgroundLifecycle::Running));
    assert!(matches!(
        settle(RuntimeReply::BackgroundCancel {
            execution_id: work.clone(),
            record: Some(execution("exec_1", BackgroundLifecycle::Cancelling)),
        }),
        Ok(RuntimeClientResult::BackgroundCancelAccepted { execution })
            if execution.state == BackgroundLifecycle::Cancelling
    ));
    assert_eq!(
        settle(RuntimeReply::BackgroundStatus { execution_id: work.clone(), record: None }),
        Err(RuntimeClientError::UnknownBackgroundExecution { execution_id: work.clone() })
    );
    assert_eq!(
        settle(RuntimeReply::BackgroundCancel { execution_id: work.clone(), record: None }),
        Err(RuntimeClientError::UnknownBackgroundExecution { execution_id: work })
    );
    assert_eq!(
        settle(RuntimeReply::Shutdown { outcome: Ok(()) }),
        Ok(RuntimeClientResult::ShutdownCompleted)
    );
    assert_eq!(
        settle(RuntimeReply::Shutdown { outcome: Err(ShutdownError::Inactive) }),
        Err(inactive())
    );
    assert_eq!(
        settle(RuntimeReply::Shutdown {
            outcome: Err(ShutdownError::RuntimeOwnedSettlement { detail: "stuck".to_owned() }),
        }),
        Err(RuntimeClientError::RuntimeFailure {
            message: "runtime-owned shutdown settlement failed: stuck".to_owned(),
        })
    );
    let catalog = Arc::new(ModelCatalog {
        entries: vec![ModelCatalogEntry {
            model: "scripted".to_owned(),
            reasoning_profiles: Vec::new(),
        }],
    });
    assert_eq!(
        settle(RuntimeReply::ModelCatalog { catalog: catalog.clone() }),
        Ok(RuntimeClientResult::ModelCatalog { catalog })
    );
    let response = RuntimeAttachment::complete(
        id(5),
        RuntimeReply::Native { outcome: Err(RuntimeClientError::RuntimeShutdown) },
    );
    assert_eq!(response, RuntimeClientResponse::error(id(5), RuntimeClientError::RuntimeShutdown));
}

#[test]
fn a_later_subscription_supersedes() {
    let mut host = host();
    let mut control = attach(&mut host);
    assert_eq!(control.subscription(), None);
    assert_eq!(control.try_next_event(&mut host), EventDelivery::Closed);
    let start = RuntimeClientCursor::new(0);
    let first = subscription(control.handle_request(
        &mut host,
        RuntimeClientRequest::SubscribeEvents { id: id(1), after_cursor: start },
    ));
    assert!(!control.superseded(&first));
    assert_eq!(control.subscription(), Some(first.registration()));
    let second = subscription(control.handle_request(
        &mut host,
        RuntimeClientRequest::SubscribeEvents { id: id(2), after_cursor: start },
    ));
    assert!(control.superseded(&first));
    assert!(!control.superseded(&second));
    assert!(!first.same_registration(&second));
    assert!(second.same_registration(&second.clone()));
    assert_eq!(first.try_next(&mut host), EventDelivery::Closed);
    assert_eq!(second.try_next(&mut host), EventDelivery::Pending);
    start_attempt(&mut host);
    assert!(matches!(control.try_next_event(&mut host), EventDelivery::Event(_)));
    host.release(second.registration());
    assert_eq!(second.try_next(&mut host), EventDelivery::Closed);
    control.detach(&mut host);
    assert_eq!(control.subscription(), None);
}

/// Whether a signal is waiting, found by polling once without a runtime.
fn is_signalled(subscription: &EventSubscription) -> bool {
    let waiter = subscription.waiter();
    let notified = waiter.notified();
    let mut notified = Box::pin(notified);
    let mut context = std::task::Context::from_waker(std::task::Waker::noop());
    std::future::Future::poll(notified.as_mut(), &mut context).is_ready()
}

#[test]
fn a_publication_wakes_a_waiting_client() {
    let mut host = host();
    let mut control = attach(&mut host);
    let subscription = control
        .subscribe_events(&mut host, RuntimeClientCursor::new(0))
        .unwrap_or_else(|error| panic!("subscribe: {error:?}"));
    assert!(!is_signalled(&subscription));
    start_attempt(&mut host);
    assert!(is_signalled(&subscription), "a signal before the wait is kept");
    assert!(!is_signalled(&subscription), "and found once");
    control.detach(&mut host);
    assert!(is_signalled(&subscription), "a released client learns of it");
    assert_eq!(subscription.try_next(&mut host), EventDelivery::Closed);
}

#[test]
fn a_client_that_falls_behind_is_told_so() {
    let mut host = host_retaining(Some(2));
    let mut control = attach(&mut host);
    let subscription = control
        .subscribe_events(&mut host, RuntimeClientCursor::new(0))
        .unwrap_or_else(|error| panic!("subscribe: {error:?}"));
    for name in ["a", "b", "c", "d"] {
        report(
            &mut host,
            vec![ConversationObservation::SessionModelChanged { model: model(name) }],
        );
    }
    let lag = EventDelivery::ResyncRequired {
        after_cursor: RuntimeClientCursor::new(0),
        earliest_serviceable: RuntimeClientCursor::new(2),
    };
    assert_eq!(subscription.try_next(&mut host), lag);
    assert_eq!(subscription.try_next(&mut host), lag);
    let response = answer(control.handle_request(
        &mut host,
        RuntimeClientRequest::SubscribeEvents {
            id: id(1),
            after_cursor: RuntimeClientCursor::new(1),
        },
    ));
    assert_eq!(
        response.error,
        Some(RuntimeClientError::ResyncRequired {
            after_cursor: RuntimeClientCursor::new(1),
            earliest_serviceable: RuntimeClientCursor::new(2),
        })
    );
    let resumed = control
        .subscribe_events(&mut host, RuntimeClientCursor::new(2))
        .unwrap_or_else(|error| panic!("resume: {error:?}"));
    let EventDelivery::Event(event) = resumed.try_next(&mut host) else {
        panic!("the next event");
    };
    assert_eq!(event.cursor.get(), 3);
}

#[test]
fn reports_are_applied_up_to_the_first_impossible_one() {
    let mut host = host();
    let applied = host.apply_pending(vec![
        ConversationObservation::SessionModelChanged { model: model("a") },
        ConversationObservation::ManualCompactionEvent { event: RuntimeEvent::TurnStarted },
        ConversationObservation::SessionModelChanged { model: model("b") },
    ]);
    assert_eq!(applied, 1);
    let (snapshot, cursor) = host.snapshot().expect("snapshot");
    assert_eq!(cursor.get(), 1);
    assert_eq!(snapshot.model, model("a"));
}

#[test]
fn an_endpoint_begins_unattached_and_can_begin_again() {
    let mut host = host();
    let mut endpoint = host.endpoint();
    let early = answer(
        endpoint.handle_request(&mut host, RuntimeClientRequest::SnapshotGet { id: id(1) }),
    );
    assert_eq!(early.error, Some(RuntimeClientError::NotAttached));
    let early = answer(
        endpoint.handle_request_async(&mut host, RuntimeClientRequest::Shutdown { id: id(2) }),
    );
    assert_eq!(early.error, Some(RuntimeClientError::NotAttached));
    assert_eq!(endpoint.attachment_id(), None);
    assert_eq!(endpoint.try_next_event(&mut host), EventDelivery::Closed);

    let begin = |value: u64| RuntimeClientRequest::Initialize {
        id: id(value),
        protocol_version: RUNTIME_CLIENT_PROTOCOL_VERSION,
    };
    let begun = answer(endpoint.handle_request(&mut host, begin(3)));
    let Some(RuntimeClientResult::Initialized { attachment_id, agent_id, .. }) = begun.result
    else {
        panic!("initialized: {:?}", begun.error);
    };
    assert_eq!(agent_id, AgentId::new("agent-host"));
    assert_eq!(endpoint.attachment_id(), Some(attachment_id));
    let again = answer(endpoint.handle_request(&mut host, begin(4)));
    assert_eq!(
        again.error,
        Some(RuntimeClientError::InvalidRequest {
            message: "the attachment is already initialized".to_owned(),
        })
    );
    let mut other = RuntimeClientEndpoint::new();
    assert!(matches!(
        answer(other.handle_request(&mut host, begin(1))).error,
        Some(RuntimeClientError::AttachmentInUse { .. })
    ));
    let mut observer = RuntimeClientEndpoint::new_read_only();
    assert!(answer(observer.handle_request(&mut host, begin(1))).error.is_none());

    let subscribed = endpoint.handle_request(
        &mut host,
        RuntimeClientRequest::SubscribeEvents {
            id: id(5),
            after_cursor: RuntimeClientCursor::new(0),
        },
    );
    assert_eq!(endpoint.subscription(), Some(subscription(subscribed).registration()));
    assert_eq!(endpoint.try_next_event(&mut host), EventDelivery::Pending);
    assert_eq!(
        call(endpoint.handle_request_async(
            &mut host,
            RuntimeClientRequest::Shutdown { id: id(6) }
        )),
        (id(6), RuntimeCall::Shutdown)
    );

    let left = answer(
        endpoint.handle_request(&mut host, RuntimeClientRequest::Detach { id: id(7) }),
    );
    assert_eq!(left.result, Some(RuntimeClientResult::Detached));
    assert_eq!(endpoint.attachment_id(), None);
    let begun = answer(endpoint.handle_request(&mut host, begin(8)));
    assert!(begun.error.is_none());
    assert_eq!(endpoint.attachment_id(), Some(AttachmentId::new("attachment-3")));
    endpoint.close(&mut host);
    assert!(answer(other.handle_request(&mut host, begin(2))).error.is_none());
}

#[test]
fn a_timestamp_lies_on_the_calendar() {
    assert!(Timestamp::at(-8_334_601_228_800, 0).is_some());
    assert!(Timestamp::at(-8_334_601_228_801, 0).is_none());
    assert!(Timestamp::at(8_210_266_876_799, 1_999_999_999).is_some());
    assert!(Timestamp::at(8_210_266_876_800, 0).is_none());
    assert!(Timestamp::at(59, 1_000_000_000).is_some(), "a leap second ends a minute");
    assert!(Timestamp::at(58, 1_000_000_000).is_none());
    assert!(Timestamp::at(59, 2_000_000_000).is_none());
    let leap = Timestamp::at(59, 1_500_000_000).unwrap();
    let before = Timestamp::at(59, 0).unwrap();
    let after = Timestamp::at(60, 0).unwrap();
    assert_eq!((leap.seconds(), leap.nanos()), (59, 1_500_000_000));
    assert_eq!(before.millis_until(&leap), 1_500);
    assert_eq!(leap.millis_until(&after), 500);
    assert_eq!(after.millis_until(&leap), -500);
    assert_eq!(before.millis_until(&after), 1_000);
    assert_eq!(after.millis_until(&Timestamp::at(59, 999_000_001).unwrap()), 0);
    let first = Timestamp::at(-8_334_601_228_800, 0).unwrap();
    let last = Timestamp::at(8_210_266_876_799, 999_999_999).unwrap();
    assert_eq!(first.millis_until(&last), 16_544_868_105_599_999);
    assert_eq!(last.millis_until(&first), -16_544_868_105_599_999);
    assert!(first.not_after(&last) && !last.not_after(&first) && last.not_after(&last));
}

#[test]
fn a_document_is_held_without_its_spaces() {
    assert_eq!(
        JsonText::parse(" { \"b\" : [ 1 , 2 ] , \"a\" : null } ").unwrap().as_str(),
        "{\"a\":null,\"b\":[1,2]}"
    );
    assert!(JsonText::parse("{").is_none());
    assert!(JsonText::parse("").is_none());
}

#[test]
fn a_deletion_is_told_in_counts() {
    let session_id = SessionId::new("session");
    let preview = RuntimeClientSessionDeletePreview {
        session_id: session_id.clone(),
        name: Some("notes".to_owned()),
        target_revision: "r1".to_owned(),
        owned_node_count: 3,
        owned_conversation_count: 2,
        owned_child_count: 1,
    };
    assert_eq!(
        RuntimeClientSessionDeletionResult::Preview { preview: preview.clone() },
        RuntimeClientSessionDeletionResult::Preview { preview }
    );
    assert_ne!(
        RuntimeClientSessionDeletionResult::Blocked {
            session_id: session_id.clone(),
            reason: RuntimeClientSessionDeletionBlocker::Workspace { resource_count: 1 },
        },
        RuntimeClientSessionDeletionResult::Blocked {
            session_id,
            reason: RuntimeClientSessionDeletionBlocker::ResourceConflict,
        }
    );
}

#[test]
fn every_attachment_has_a_name_of_its_own() {
    let mut host = host();
    let mut names = Vec::new();
    for _ in 0..12 {
        let mut attachment = attach(&mut host);
        names.push(attachment.attachment_id().as_str().to_owned());
        attachment.detach(&mut host);
        attachment.detach(&mut host);
    }
    assert_eq!(names[0], "attachment-1");
    assert_eq!(names[9], "attachment-10");
    names.sort();
    names.dedup();
    assert_eq!(names.len(), 12);
}
