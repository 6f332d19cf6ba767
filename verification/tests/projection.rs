use std::sync::Arc;

use runtime_client::clock::Timestamp;
use runtime_client::event::{
    RuntimeClientAttemptFailure, RuntimeClientEvent, RuntimeClientOutcome,
};
use runtime_client::identity::{
    AgentId, AttemptId, ConversationId, EventId, InteractionId, MessageId, PublicationStreamId,
    RequestId, SubagentId, ToolCallId, ToolExecutionId, ToolId, TurnId,
};
use runtime_client::interaction::{
    ApprovalDecision, InteractionKind, InteractionOutcome, InteractionRef, InteractionRequest,
    InteractionResponse, InteractionSource, RoutedInteraction,
};
use runtime_client::journal::{RuntimeEvent, RuntimeEventEnvelope, SurfaceRevision};
use runtime_client::json::JsonText;
use runtime_client::message::{
    AssistantContentBlock, AssistantMessageBlock, ContentBlockIndex, InboundKind, MessageBlock,
    TextBlock, ToolMessageBlock, ToolOccurrence, UserContentBlock, UserMessageBlock, UserSource,
};
use runtime_client::model::{
    AttemptFailure, AttemptModelView, ModelError, ModelErrorKind, ModelFinishReason,
    ModelRetryDisposition, ModelUsage, SessionModelConfig, SessionModelView, TokenMeasurement,
    TokenMeasurementSource,
};
use runtime_client::observation::{
    AgentStatus, AgentStatusObservation, AgentStatusOpportunitySet, AgentStatusSectionData,
    BackgroundExecutionSnapshot, BackgroundLifecycle, ConversationObservation,
    FreshInboundStatusOpportunity, InboundBatch, InboundItem, InboundSequence,
    PostToolBatchStatusOpportunity, SubagentActivity, SubagentExecutionProfile,
    SubagentObservation, SubagentSnapshot, SubagentState, SubagentWorkspaceResourceState,
    TodoStatusPresentation, TodoStatusTask, TodoTaskStatus, TranscriptCursor, WorkspaceIsolation,
    WorkspaceSnapshot,
};
use runtime_client::projection::{RuntimeClientProjection, SubscriberPoll};
use runtime_client::protocol::{
    RuntimeClientCursor, RuntimeClientError, RuntimeClientProtocolEvent,
};
use runtime_client::publication::{PublicationFrame, PublicationPayload, PublicationStreamStart};
use runtime_client::snapshot::{
    AgentStatusView, CapabilityRevision, CapabilityView, ForegroundToolState, InFlightBlock,
    RuntimeClientAttemptPhase, RuntimeClientStatusSection, RuntimeClientTranscriptCursor,
    RuntimeClientTranscriptInteractionRequested, RuntimeClientTranscriptInteractionSettled,
    RuntimeClientTranscriptPage, AGENT_STATUS_WINDOW,
};
use runtime_client::tool::{
    Amount, CancellationReason, ToolCall, ToolCallStart, ToolCancellationPhase,
    ToolExecutionResult, ToolExecutionStatus, ToolInvocationMode, ToolOrigin, ToolProgress,
};
use runtime_client::views::status_view;

fn attempt() -> AttemptId {
    AttemptId::new("attempt-1")
}

fn at(seconds: i64) -> Timestamp {
    Timestamp::at(seconds, 0).expect("timestamp")
}

fn json(text: &str) -> JsonText {
    JsonText::parse(text).expect("a JSON document")
}

fn model_view() -> Arc<SessionModelView> {
    Arc::new(SessionModelView {
        configured: SessionModelConfig {
            model: "scripted".to_owned(),
            reasoning_profile: None,
            request_params: Vec::new(),
        },
        attempt: Arc::new(AttemptModelView {
            model: "scripted".to_owned(),
            reasoning_profile: None,
        }),
    })
}

fn capabilities() -> Arc<CapabilityView> {
    Arc::new(CapabilityView {
        revision: CapabilityRevision::new(1),
        tools: Vec::new(),
        available_tools: Vec::new(),
        skills: Vec::new(),
        sources: Vec::new(),
    })
}

fn projection_of(limit: usize) -> RuntimeClientProjection {
    RuntimeClientProjection::new(
        ConversationId::new("conv-1"),
        Vec::new(),
        capabilities(),
        model_view(),
        limit,
    )
}

fn projection() -> RuntimeClientProjection {
    projection_of(64)
}

fn apply(projection: &mut RuntimeClientProjection, observation: ConversationObservation) {
    assert!(projection.accepts(&observation));
    projection.apply(observation);
}

fn event_observation(event: RuntimeEvent) -> ConversationObservation {
    ConversationObservation::Event { attempt_id: attempt(), event }
}

fn apply_event(projection: &mut RuntimeClientProjection, event: RuntimeEvent) {
    apply(projection, event_observation(event));
}

fn stream_start() -> PublicationStreamStart {
    PublicationStreamStart {
        stream_id: PublicationStreamId::new("attempt-1-pub-1"),
        attempt_id: attempt(),
        turn_id: TurnId::new("1"),
        request_id: RequestId::new("request:9:attempt-1:1:1:0"),
        message_id: MessageId::new("msg-1"),
    }
}

fn frame(sequence: u64, payload: PublicationPayload) -> PublicationFrame {
    PublicationFrame {
        stream_id: stream_start().stream_id,
        message_id: MessageId::new("msg-1"),
        sequence,
        payload,
    }
}

fn apply_publication_open(projection: &mut RuntimeClientProjection) {
    apply(
        projection,
        ConversationObservation::PublicationOpened {
            attempt_id: attempt(),
            start: stream_start(),
        },
    );
}

fn apply_frame(
    projection: &mut RuntimeClientProjection,
    sequence: u64,
    payload: PublicationPayload,
) {
    apply(
        projection,
        ConversationObservation::Publication {
            attempt_id: attempt(),
            frame: frame(sequence, payload),
        },
    );
}

fn text_frame(text: &str) -> PublicationPayload {
    PublicationPayload::TextSuffix {
        block_index: ContentBlockIndex::new(0),
        suffix: text.to_owned(),
    }
}

fn status_observation(
    status_message_id: &str,
    turn: u32,
    opportunities: AgentStatusOpportunitySet,
    post_tool_batch_anchor: Option<TranscriptCursor>,
) -> AgentStatusObservation {
    AgentStatusObservation {
        attempt_id: attempt(),
        turn,
        status_message_id: MessageId::new(status_message_id),
        opportunities,
        post_tool_batch_anchor,
        status: AgentStatus {
            generated_at: at(0),
            sections: Vec::new(),
            rendered: String::new(),
        },
    }
}

fn fresh_inbound_status(id: &str, turn: u32, target: &str) -> AgentStatusObservation {
    status_observation(
        id,
        turn,
        AgentStatusOpportunitySet {
            fresh_inbound: Some(FreshInboundStatusOpportunity {
                target_message_id: MessageId::new(target),
            }),
            post_tool_batch: None,
        },
        None,
    )
}

fn post_tool_batch_status(id: &str, turn: u32, batch_cursor: u64) -> AgentStatusObservation {
    status_observation(
        id,
        turn,
        AgentStatusOpportunitySet {
            fresh_inbound: None,
            post_tool_batch: Some(PostToolBatchStatusOpportunity),
        },
        Some(TranscriptCursor::new(batch_cursor)),
    )
}

fn published_anchor(view: &AgentStatusView) -> Option<RuntimeClientTranscriptCursor> {
    view.opportunities.post_tool_batch.and_then(|batch| batch.transcript_anchor)
}

fn user_block(id: &str, text: &str) -> UserMessageBlock {
    UserMessageBlock {
        id: MessageId::new(id),
        content: vec![UserContentBlock::Text(TextBlock { text: text.to_owned() })],
        source: UserSource::Human,
        kind: InboundKind::Message,
        timestamp: None,
    }
}

fn committed(
    attempt_id: Option<AttemptId>,
    block: MessageBlock,
    cursor: u64,
) -> ConversationObservation {
    ConversationObservation::Committed {
        attempt_id,
        block: Arc::new(block),
        published_todos: None,
        transcript_cursor: Some(TranscriptCursor::new(cursor)),
    }
}

fn commit_at(projection: &mut RuntimeClientProjection, id: &str, cursor: u64) {
    apply(
        projection,
        committed(Some(attempt()), MessageBlock::User(user_block(id, "hello")), cursor),
    );
}

fn collect(
    projection: &mut RuntimeClientProjection,
    after: RuntimeClientCursor,
) -> Vec<RuntimeClientProtocolEvent> {
    let (id, _notify) = projection.subscribe(after).expect("serviceable cursor");
    let mut events = Vec::new();
    loop {
        match projection.poll_subscriber(id) {
            SubscriberPoll::Event(event) => events.push(event),
            SubscriberPoll::Pending => break,
            other => panic!("unexpected subscriber poll: {other:?}"),
        }
    }
    assert!(projection.remove_subscriber(id).is_some());
    events
}

fn success_result() -> ToolExecutionResult {
    ToolExecutionResult {
        status: ToolExecutionStatus::Success,
        content: Vec::new(),
        duration_ms: 1,
        exit_code: Some(0),
        artifacts: Vec::new(),
        truncation: None,
        managed_output: None,
    }
}

fn cancelled_result(
    reason: CancellationReason,
    phase: ToolCancellationPhase,
) -> ToolExecutionResult {
    ToolExecutionResult {
        status: ToolExecutionStatus::Cancelled { reason, phase },
        exit_code: None,
        ..success_result()
    }
}

fn tool_call(id: &str, tool: &str, name: &str, arguments: &str) -> ToolCall {
    ToolCall {
        id: ToolCallId::new(id),
        tool_id: ToolId::new(tool),
        name: name.to_owned(),
        arguments: json(arguments),
    }
}

fn call_start(call: &ToolCall) -> ToolCallStart {
    ToolCallStart {
        id: call.id.clone(),
        tool_id: call.tool_id.clone(),
        name: call.name.clone(),
    }
}

fn apply_assembled_call(projection: &mut RuntimeClientProjection, call: &ToolCall) {
    apply_frame(
        projection,
        0,
        PublicationPayload::ProposedToolCallStarted {
            block_index: ContentBlockIndex::new(0),
            call: call_start(call),
        },
    );
    apply_frame(
        projection,
        1,
        PublicationPayload::ProposedToolCallArgumentsSuffix {
            block_index: ContentBlockIndex::new(0),
            call_id: call.id.clone(),
            suffix: call.arguments.as_str().to_owned(),
        },
    );
    apply_frame(
        projection,
        2,
        PublicationPayload::ProposedToolCallCompleted {
            block_index: ContentBlockIndex::new(0),
            call: call.clone(),
        },
    );
}

fn tool_message(id: &str, call: &ToolCall, result: &ToolExecutionResult) -> MessageBlock {
    MessageBlock::Tool(ToolMessageBlock {
        id: MessageId::new(id),
        tool_call_id: call.id.clone(),
        tool_id: call.tool_id.clone(),
        occurrence: ToolOccurrence { assistant_message_id: MessageId::new("msg-1") },
        result: Arc::new(result.clone()),
    })
}

fn rate_limit_error(message: &str, retry_after_ms: u64) -> ModelError {
    ModelError {
        kind: ModelErrorKind::RateLimit,
        message: message.to_owned(),
        retry_disposition: ModelRetryDisposition::Transient,
        retry_after_ms: Some(retry_after_ms),
        provider_code: Some("rate_limit_exceeded".to_owned()),
    }
}

fn compaction(
    generation: u64,
    summary: &str,
    revision: u64,
    input_tokens: u64,
    source: TokenMeasurementSource,
    estimated_tokens_after: u64,
) -> RuntimeEvent {
    RuntimeEvent::CompactionCompleted {
        generation,
        summary_message_id: MessageId::new(summary),
        surface_revision: SurfaceRevision::new(revision),
        tokens_before: TokenMeasurement { input_tokens, source },
        estimated_tokens_after,
    }
}

/// A client that folds the status events and makes no decision of its own.
struct LiveStatusClient {
    subscriber: u64,
    statuses: Vec<Arc<AgentStatusView>>,
    evictions: Vec<Option<MessageId>>,
}

impl LiveStatusClient {
    fn attach(projection: &mut RuntimeClientProjection) -> Self {
        let (subscriber, _notify) =
            projection.subscribe(RuntimeClientCursor::new(0)).expect("serviceable cursor");
        Self { subscriber, statuses: Vec::new(), evictions: Vec::new() }
    }

    fn drain(&mut self, projection: &mut RuntimeClientProjection) {
        loop {
            match projection.poll_subscriber(self.subscriber) {
                SubscriberPoll::Event(event) => {
                    let RuntimeClientEvent::AgentStatusComposed {
                        status,
                        evicted_status_message_id,
                        ..
                    } = &*event.event
                    else {
                        continue;
                    };
                    self.evictions.push(evicted_status_message_id.clone());
                    if let Some(evicted) = evicted_status_message_id {
                        self.statuses.retain(|existing| existing.status_message_id != *evicted);
                    }
                    if !self
                        .statuses
                        .iter()
                        .any(|existing| existing.status_message_id == status.status_message_id)
                    {
                        self.statuses.push(status.clone());
                    }
                }
                SubscriberPoll::Pending => return,
                other => panic!("the status client lost its subscription: {other:?}"),
            }
        }
    }
}

#[test]
fn fresh_inbound_status_is_placed_by_message_identity() {
    let mut projection = projection();
    apply_event(&mut projection, RuntimeEvent::AttemptStarted { attempt_id: attempt() });
    commit_at(&mut projection, "user-1", 7);
    apply(
        &mut projection,
        ConversationObservation::Status(fresh_inbound_status("status-1", 1, "user-1")),
    );

    let (snapshot, _) = projection.snapshot().expect("snapshot");
    assert_eq!(snapshot.statuses.len(), 1);
    assert_eq!(
        snapshot.statuses[0]
            .opportunities
            .fresh_inbound
            .as_ref()
            .expect("FreshInbound view")
            .target_message_id,
        MessageId::new("user-1")
    );
    assert_eq!(
        published_anchor(&snapshot.statuses[0]),
        None,
        "a FreshInbound composition needs no transcript position"
    );

    commit_at(&mut projection, "user-2", 9);
    let (snapshot, _) = projection.snapshot().expect("snapshot");
    assert_eq!(
        snapshot.statuses[0]
            .opportunities
            .fresh_inbound
            .as_ref()
            .expect("FreshInbound view")
            .target_message_id,
        MessageId::new("user-1")
    );
}

#[test]
fn post_tool_batch_status_keeps_the_anchor_its_batch_froze() {
    let mut projection = projection();
    apply_event(&mut projection, RuntimeEvent::AttemptStarted { attempt_id: attempt() });
    commit_at(&mut projection, "user-1", 3);
    commit_at(&mut projection, "tool-result", 5);
    commit_at(&mut projection, "unrelated-inbound", 6);
    apply(
        &mut projection,
        ConversationObservation::Status(post_tool_batch_status("status-post-batch", 2, 5)),
    );

    let (snapshot, _) = projection.snapshot().expect("snapshot");
    let status = snapshot.statuses.last().expect("composed status");
    assert!(status.opportunities.fresh_inbound.is_none());
    assert_eq!(
        published_anchor(status),
        Some(RuntimeClientTranscriptCursor::new(5)),
        "the anchor is the tool batch's own frozen position, not the newest durable one"
    );
}

#[test]
fn a_later_attempt_neither_removes_nor_relocates_an_earlier_status() {
    let mut projection = projection();
    commit_at(&mut projection, "user-1", 1);
    apply(
        &mut projection,
        ConversationObservation::Status(fresh_inbound_status("status-1", 1, "user-1")),
    );
    apply_event(&mut projection, RuntimeEvent::AttemptStarted { attempt_id: attempt() });
    commit_at(&mut projection, "tool-result", 4);
    apply(
        &mut projection,
        ConversationObservation::Status(post_tool_batch_status("status-2", 1, 4)),
    );

    let (snapshot, _) = projection.snapshot().expect("snapshot");
    assert_eq!(
        snapshot
            .statuses
            .iter()
            .map(|status| status.status_message_id.as_str().to_owned())
            .collect::<Vec<_>>(),
        vec!["status-1".to_owned(), "status-2".to_owned()]
    );
    assert_eq!(
        snapshot.statuses[0]
            .opportunities
            .fresh_inbound
            .as_ref()
            .expect("FreshInbound view")
            .target_message_id,
        MessageId::new("user-1")
    );
    assert_eq!(
        published_anchor(&snapshot.statuses[1]),
        Some(RuntimeClientTranscriptCursor::new(4))
    );
}

#[test]
fn the_agent_status_window_is_identity_keyed_and_bounded() {
    let mut projection = projection_of(256);
    let mut client = LiveStatusClient::attach(&mut projection);
    let observation = post_tool_batch_status("status-1", 1, 1);
    apply(&mut projection, ConversationObservation::Status(observation.clone()));
    apply(&mut projection, ConversationObservation::Status(observation));
    client.drain(&mut projection);
    assert_eq!(
        client.evictions,
        vec![None, None],
        "neither the first admission nor its replay evicts anything"
    );
    let (snapshot, _) = projection.snapshot().expect("snapshot");
    assert_eq!(snapshot.statuses.len(), 1);

    for index in 0..AGENT_STATUS_WINDOW + 5 {
        apply(
            &mut projection,
            ConversationObservation::Status(post_tool_batch_status(
                &format!("status-fill-{index}"),
                1,
                u64::try_from(index).expect("test index fits a cursor") + 2,
            )),
        );
    }
    let (snapshot, _) = projection.snapshot().expect("snapshot");
    assert_eq!(snapshot.statuses.len(), AGENT_STATUS_WINDOW);
    assert_eq!(
        snapshot.statuses.last().expect("newest").status_message_id,
        MessageId::new(&format!("status-fill-{}", AGENT_STATUS_WINDOW + 4))
    );
}

#[test]
fn the_status_window_converges_between_live_fold_and_snapshot_repair() {
    let mut projection = projection();
    let mut live = LiveStatusClient::attach(&mut projection);
    let overshoot = 7;

    for index in 0..AGENT_STATUS_WINDOW + overshoot {
        let cursor = u64::try_from(index).expect("test index fits a cursor") + 1;
        apply(
            &mut projection,
            ConversationObservation::Status(post_tool_batch_status(
                &format!("status-{index}"),
                1,
                cursor,
            )),
        );
        live.drain(&mut projection);
    }
    let client = live.statuses;

    let (snapshot, _) = projection.snapshot().expect("snapshot");
    assert_eq!(
        snapshot.statuses.len(),
        AGENT_STATUS_WINDOW,
        "the runtime window stays bounded"
    );
    assert_eq!(
        client, snapshot.statuses,
        "the live fold reconstructs the authoritative window exactly"
    );
    assert_eq!(
        client
            .iter()
            .map(|status| status.status_message_id.as_str().to_owned())
            .collect::<Vec<_>>(),
        (overshoot..AGENT_STATUS_WINDOW + overshoot)
            .map(|index| format!("status-{index}"))
            .collect::<Vec<_>>(),
        "retention and order are the runtime's, applied verbatim"
    );
    assert_eq!(
        client.last().map(|status| status.status_message_id.clone()),
        snapshot.statuses.last().map(|status| status.status_message_id.clone()),
        "the newest composition agrees on both paths"
    );
    for (folded, authoritative) in client.iter().zip(&snapshot.statuses) {
        assert_eq!(
            published_anchor(folded),
            published_anchor(authoritative),
            "placement survives the fold unchanged"
        );
    }
}

#[test]
fn replaying_a_composition_evicts_nothing_from_a_full_window() {
    let mut projection = projection();
    let mut live = LiveStatusClient::attach(&mut projection);
    let mut observations = Vec::new();

    for index in 0..AGENT_STATUS_WINDOW + 3 {
        let cursor = u64::try_from(index).expect("test index fits a cursor") + 1;
        let observation = post_tool_batch_status(&format!("status-{index}"), 1, cursor);
        observations.push(observation.clone());
        apply(&mut projection, ConversationObservation::Status(observation));
        live.drain(&mut projection);
    }
    let (before, _) = projection.snapshot().expect("snapshot");
    let evictions_before = live.evictions.len();

    for observation in [
        observations.last().expect("newest").clone(),
        observations[AGENT_STATUS_WINDOW].clone(),
    ] {
        apply(&mut projection, ConversationObservation::Status(observation));
        live.drain(&mut projection);
    }
    assert_eq!(
        live.evictions[evictions_before..],
        [None, None],
        "a replay is not an admission and evicts nothing"
    );

    let (after, _) = projection.snapshot().expect("snapshot");
    assert_eq!(after.statuses, before.statuses, "replay moves no window");
    assert_eq!(live.statuses, after.statuses, "the client fold agrees after replay");
}

#[test]
fn agent_status_opportunity_view_allows_absent_fresh_inbound() {
    let observation = status_observation(
        "status-1",
        1,
        AgentStatusOpportunitySet { fresh_inbound: None, post_tool_batch: None },
        None,
    );
    let view = status_view(&observation);
    assert!(view.opportunities.fresh_inbound.is_none());
    assert!(view.opportunities.post_tool_batch.is_none());
}

#[test]
fn agent_status_opportunity_view_publishes_one_combined_observation() {
    let status_message_id = MessageId::new("status-combined");
    let observation = status_observation(
        "status-combined",
        2,
        AgentStatusOpportunitySet {
            fresh_inbound: Some(FreshInboundStatusOpportunity {
                target_message_id: MessageId::new("fresh-inbound"),
            }),
            post_tool_batch: Some(PostToolBatchStatusOpportunity),
        },
        Some(TranscriptCursor::new(6)),
    );
    let view = status_view(&observation);
    assert_eq!(view.status_message_id, status_message_id);
    assert_eq!(
        view.opportunities
            .fresh_inbound
            .as_ref()
            .expect("FreshInbound view")
            .target_message_id
            .clone(),
        MessageId::new("fresh-inbound")
    );
    assert_eq!(
        published_anchor(&view),
        Some(RuntimeClientTranscriptCursor::new(6)),
        "the PostToolBatch half carries the placement its batch froze"
    );
}

#[test]
fn a_status_shows_its_sections() {
    let task = |id: u64, subject: &str, status: TodoTaskStatus, blocked: bool| TodoStatusTask {
        id,
        subject: subject.to_owned(),
        active_form: None,
        status,
        blocked,
    };
    let mut observation = fresh_inbound_status("status-1", 1, "user-1");
    observation.status.rendered = "rendered".to_owned();
    observation.status.sections = vec![AgentStatusSectionData::Todo {
        presentation: TodoStatusPresentation {
            current: Some(task(7, "Review the boundary", TodoTaskStatus::InProgress, false)),
            tasks: vec![task(8, "Write the regression", TodoTaskStatus::Pending, true)],
            active_count: 2,
            blocked_count: 1,
            completed_count: 3,
            deleted_count: 1,
            omitted_count: 0,
        },
    }];
    let view = status_view(&observation);
    assert_eq!(view.rendered, "rendered");
    let [RuntimeClientStatusSection::Todo {
        current: Some(current),
        tasks,
        active_count: 2,
        blocked_count: 1,
        completed_count: 3,
        deleted_count: 1,
        omitted_count: 0,
    }] = view.sections.as_slice()
    else {
        panic!("one todo section: {:?}", view.sections);
    };
    assert_eq!((current.id, current.blocked), (7, false));
    assert_eq!(tasks.len(), 1);
    assert_eq!((tasks[0].id, tasks[0].status, tasks[0].blocked), (8, TodoTaskStatus::Pending, true));
}

#[test]
fn committed_compactions_are_visible_without_exposing_summary_content() {
    let mut projection = projection();
    apply_event(
        &mut projection,
        compaction(
            1,
            "conv-1-summary-1",
            3,
            4800,
            TokenMeasurementSource::ProviderReported,
            1700,
        ),
    );
    apply_event(
        &mut projection,
        compaction(2, "conv-1-summary-2", 6, 4700, TokenMeasurementSource::Estimated, 1800),
    );

    let (snapshot, cursor) = projection.snapshot().expect("snapshot");
    assert_eq!(snapshot.messages, Vec::new());
    assert_eq!(snapshot.context.compaction_count, 2);
    let latest = snapshot.context.latest_compaction.expect("latest compaction");
    assert_eq!(latest.generation, 2);
    assert_eq!(latest.tokens_before.source, TokenMeasurementSource::Estimated);
    assert_eq!(latest.estimated_tokens_after, 1800);

    let events = collect(&mut projection, RuntimeClientCursor::new(0));
    assert_eq!(events.len(), 2);
    assert!(matches!(
        &*events[0].event,
        RuntimeClientEvent::ContextCompacted { attempt_id, context }
            if attempt_id.as_ref() == Some(&attempt())
                && context.compaction_count == 1
                && context.latest_compaction.as_ref().is_some_and(|view| view.generation == 1)
    ));
    assert!(matches!(
        &*events[1].event,
        RuntimeClientEvent::ContextCompacted { context, .. }
            if context.compaction_count == 2
                && context.latest_compaction.as_ref().is_some_and(|view| view.generation == 2)
    ));
    assert_eq!(cursor, RuntimeClientCursor::new(2));
}

fn representative_sequence() -> Vec<ConversationObservation> {
    let call = tool_call("call_1", "tool-alpha", "alpha", "{}");
    let mut observations = vec![
        event_observation(RuntimeEvent::AttemptStarted { attempt_id: attempt() }),
        event_observation(RuntimeEvent::TurnStarted),
        event_observation(RuntimeEvent::ModelRequestStarted {
            request_id: RequestId::new("request:9:attempt-1:1:1:0"),
            model: "scripted".to_owned(),
        }),
        ConversationObservation::PublicationOpened {
            attempt_id: attempt(),
            start: stream_start(),
        },
    ];
    for (sequence, payload) in [
        text_frame("hello "),
        text_frame("world"),
        PublicationPayload::ProposedToolCallStarted {
            block_index: ContentBlockIndex::new(1),
            call: call_start(&call),
        },
        PublicationPayload::ProposedToolCallArgumentsSuffix {
            block_index: ContentBlockIndex::new(1),
            call_id: ToolCallId::new("call_1"),
            suffix: "{}".to_owned(),
        },
        PublicationPayload::ProposedToolCallCompleted {
            block_index: ContentBlockIndex::new(1),
            call,
        },
    ]
    .into_iter()
    .enumerate()
    {
        observations.push(ConversationObservation::Publication {
            attempt_id: attempt(),
            frame: frame(sequence as u64, payload),
        });
    }
    observations.extend([
        event_observation(RuntimeEvent::ModelRequestCompleted {
            request_id: RequestId::new("request:9:attempt-1:1:1:0"),
            finish_reason: ModelFinishReason::ToolCalls,
            usage: None,
            generation: None,
        }),
        event_observation(RuntimeEvent::ToolExecutionStarted {
            tool_call_id: ToolCallId::new("call_1"),
            tool_id: ToolId::new("tool-alpha"),
        }),
        event_observation(RuntimeEvent::ToolExecutionProgress {
            tool_call_id: ToolCallId::new("call_1"),
            tool_id: ToolId::new("tool-alpha"),
            execution_id: None,
            progress: ToolProgress {
                message: Some("half way".to_owned()),
                completed: Some(Amount { bits: 1.0f64.to_bits() }),
                total: Some(Amount { bits: 2.0f64.to_bits() }),
            },
        }),
        event_observation(RuntimeEvent::ToolExecutionCompleted {
            tool_call_id: ToolCallId::new("call_1"),
            tool_id: ToolId::new("tool-alpha"),
            result: Arc::new(success_result()),
        }),
        event_observation(RuntimeEvent::TurnCompleted),
        event_observation(RuntimeEvent::AttemptCompleted {
            attempt_id: attempt(),
            finish_reason: ModelFinishReason::Stop,
        }),
    ]);
    observations
}

#[test]
fn representative_sequence_projects_deterministically() {
    let mut first = projection();
    for observation in representative_sequence() {
        apply(&mut first, observation);
    }
    let mut second = projection();
    for observation in representative_sequence() {
        apply(&mut second, observation);
    }
    let first_events = collect(&mut first, RuntimeClientCursor::new(0));
    let second_events = collect(&mut second, RuntimeClientCursor::new(0));
    assert_eq!(first_events, second_events);
    assert!(!first_events.is_empty(), "the sequence publishes events");
    let (first_snapshot, first_cursor) = first.snapshot().expect("snapshot");
    let (second_snapshot, second_cursor) = second.snapshot().expect("snapshot");
    assert_eq!(first_snapshot, second_snapshot);
    assert_eq!(first_cursor, second_cursor);
}

#[test]
fn the_representative_sequence_ends_in_this_read_model() {
    let mut projection = projection();
    for observation in representative_sequence() {
        apply(&mut projection, observation);
    }
    let (snapshot, cursor) = projection.snapshot().expect("snapshot");
    assert_eq!(cursor.get(), 12);
    assert!(snapshot.messages.is_empty(), "only a commit adds a message");
    let shown = snapshot.attempt.expect("attempt view");
    assert_eq!(shown.turn, 1);
    assert_eq!(
        shown.in_flight.expect("in-flight message").blocks,
        vec![
            InFlightBlock::Text {
                block_index: ContentBlockIndex::new(0),
                text: "hello world".to_owned(),
            },
            InFlightBlock::ToolCall {
                block_index: ContentBlockIndex::new(1),
                call_id: ToolCallId::new("call_1"),
                tool_id: ToolId::new("tool-alpha"),
                name: "alpha".to_owned(),
                arguments: "{}".to_owned(),
            },
        ]
    );
    assert_eq!(
        shown.foreground[0].state,
        ForegroundToolState::Settled {
            arguments: "{}".to_owned(),
            result: Arc::new(success_result()),
        }
    );
    assert_eq!(
        shown.phase,
        RuntimeClientAttemptPhase::Settled {
            outcome: RuntimeClientOutcome::Completed { finish_reason: ModelFinishReason::Stop },
        }
    );
}

#[test]
fn model_request_events_stay_internal_and_compaction_lifecycle_is_projected() {
    let mut projection = projection();
    for event in [
        RuntimeEvent::ModelRequestStarted {
            request_id: RequestId::new("request:9:attempt-1:1:1:0"),
            model: "m".to_owned(),
        },
        RuntimeEvent::ModelRequestFailed {
            request_id: RequestId::new("request:9:attempt-1:1:1:0"),
            error: rate_limit_error("retry", 10),
            usage: None,
            generation: None,
        },
        RuntimeEvent::ModelRetryScheduled {
            failed_request_id: RequestId::new("request:9:attempt-1:1:1:0"),
            retry_number: 1,
            retry_delay_ms: Some(5),
        },
        RuntimeEvent::CompactionStarted,
        compaction(1, "conv-1-summary-1", 3, 1, TokenMeasurementSource::Estimated, 1),
        RuntimeEvent::CompactionFailed { error: "boom".to_owned() },
        RuntimeEvent::TurnCompleted,
    ] {
        apply_event(&mut projection, event);
    }
    let events = collect(&mut projection, RuntimeClientCursor::new(0));
    assert_eq!(events.len(), 3);
    assert!(matches!(&*events[0].event, RuntimeClientEvent::ContextCompactionStarted { .. }));
    assert!(matches!(
        &*events[1].event,
        RuntimeClientEvent::ContextCompacted { context, .. } if context.compaction_count == 1
    ));
    assert!(matches!(
        &*events[2].event,
        RuntimeClientEvent::ContextCompactionFailed { error, .. } if error == "boom"
    ));
    let (snapshot, cursor) = projection.snapshot().expect("snapshot");
    assert_eq!(cursor, RuntimeClientCursor::new(3));
    assert!(!snapshot.context.compaction_in_progress);
    assert_eq!(snapshot.context.compaction_count, 1);
    assert!(snapshot.attempt.is_none());
}

#[test]
fn manual_compaction_projects_without_fabricating_an_attempt_identity() {
    let mut projection = projection();
    apply(
        &mut projection,
        ConversationObservation::ManualCompactionEvent { event: RuntimeEvent::CompactionStarted },
    );
    apply(
        &mut projection,
        ConversationObservation::ManualCompactionEvent {
            event: compaction(
                1,
                "conv-1-summary-1",
                2,
                8_400,
                TokenMeasurementSource::Estimated,
                1_900,
            ),
        },
    );

    let events = collect(&mut projection, RuntimeClientCursor::new(0));
    assert!(matches!(
        &*events[0].event,
        RuntimeClientEvent::ContextCompactionStarted { attempt_id: None }
    ));
    assert!(matches!(
        &*events[1].event,
        RuntimeClientEvent::ContextCompacted { attempt_id: None, context }
            if !context.compaction_in_progress && context.compaction_count == 1
    ));
    assert!(!projection.accepts(&ConversationObservation::ManualCompactionEvent {
        event: RuntimeEvent::TurnStarted,
    }));
}

#[test]
fn turn_and_usage_events_agree_with_the_attempt_view() {
    let mut projection = projection();
    let usage = ModelUsage { input_tokens: 10, output_tokens: 2, total_tokens: 12, details: None };
    apply_event(&mut projection, RuntimeEvent::AttemptStarted { attempt_id: attempt() });
    apply_event(&mut projection, RuntimeEvent::TurnStarted);
    apply_event(&mut projection, RuntimeEvent::TurnCompleted);
    apply_event(
        &mut projection,
        RuntimeEvent::ModelRequestCompleted {
            request_id: RequestId::new("request:9:attempt-1:1:1:0"),
            finish_reason: ModelFinishReason::Stop,
            usage: Some(usage),
            generation: None,
        },
    );
    let events = collect(&mut projection, RuntimeClientCursor::new(1));
    assert_eq!(events.len(), 2);
    assert_eq!(
        *events[0].event,
        RuntimeClientEvent::AttemptTurnUpdated { attempt_id: attempt(), turn: 1 }
    );
    assert_eq!(
        *events[1].event,
        RuntimeClientEvent::AttemptUsageUpdated { attempt_id: attempt(), usage }
    );
    let (snapshot, _) = projection.snapshot().expect("snapshot");
    let attempt_view = snapshot.attempt.expect("attempt view exists");
    assert_eq!(attempt_view.turn, 1);
    assert_eq!(attempt_view.last_usage.as_ref().map(|usage| usage.input_tokens), Some(10));
}

#[test]
fn shutdown_folds_into_the_snapshot_and_publishes_the_runtime_fact() {
    let mut projection = projection();
    apply(&mut projection, ConversationObservation::Shutdown);

    let events = collect(&mut projection, RuntimeClientCursor::new(0));
    assert_eq!(events.len(), 1);
    assert_eq!(*events[0].event, RuntimeClientEvent::RuntimeShutdown);

    let (snapshot, cursor) = projection.snapshot().expect("snapshot");
    assert!(snapshot.shutting_down);
    assert_eq!(cursor, RuntimeClientCursor::new(1));
}

#[test]
fn terminal_settlement_is_unique() {
    let mut projection = projection();
    apply_event(&mut projection, RuntimeEvent::AttemptStarted { attempt_id: attempt() });
    apply_event(
        &mut projection,
        RuntimeEvent::AttemptCancelled {
            attempt_id: attempt(),
            reason: CancellationReason::UserRequested,
        },
    );
    let events = collect(&mut projection, RuntimeClientCursor::new(1));
    assert_eq!(
        events
            .iter()
            .filter(|event| matches!(&*event.event, RuntimeClientEvent::AttemptSettled { .. }))
            .count(),
        1,
        "exactly one AttemptSettled"
    );
    assert_eq!(
        *events.last().expect("terminal event").event,
        RuntimeClientEvent::AttemptSettled {
            attempt_id: attempt(),
            outcome: RuntimeClientOutcome::Cancelled {
                reason: CancellationReason::UserRequested,
            },
        }
    );
    let (snapshot, _) = projection.snapshot().expect("snapshot");
    assert!(matches!(
        snapshot.attempt.expect("attempt view").phase,
        RuntimeClientAttemptPhase::Settled { .. }
    ));
}

#[test]
fn provider_specific_fields_do_not_leak() {
    let mut projection = projection();
    apply_event(&mut projection, RuntimeEvent::AttemptStarted { attempt_id: attempt() });
    apply_event(
        &mut projection,
        RuntimeEvent::AttemptFailed {
            attempt_id: attempt(),
            error: AttemptFailure::Model { error: rate_limit_error("retries exhausted", 5_000) },
        },
    );
    let events = collect(&mut projection, RuntimeClientCursor::new(1));
    let settled = events
        .iter()
        .find_map(|protocol| match &*protocol.event {
            RuntimeClientEvent::AttemptSettled { outcome, .. } => Some(outcome),
            _ => None,
        })
        .expect("terminal settlement");
    assert_eq!(
        *settled,
        RuntimeClientOutcome::Failed {
            error: RuntimeClientAttemptFailure::Model {
                kind: ModelErrorKind::RateLimit,
                message: "retries exhausted".to_owned(),
                retry_after_ms: Some(5000),
            },
        }
    );
    let text = format!("{settled:?}");
    assert!(
        !text.contains("provider_code") && !text.contains("rate_limit_exceeded"),
        "provider-specific fields never leak: {text}"
    );
    assert!(text.contains("RateLimit"));
    assert!(text.contains("retries exhausted"));
    assert!(text.contains("5000"));
}

#[test]
fn streamed_message_state_folds_correctly() {
    let mut projection = projection();
    apply_event(&mut projection, RuntimeEvent::AttemptStarted { attempt_id: attempt() });
    apply_publication_open(&mut projection);
    apply_frame(&mut projection, 0, text_frame("hello "));
    let (snapshot, cursor) = projection.snapshot().expect("snapshot");
    let in_flight = snapshot
        .attempt
        .as_ref()
        .and_then(|attempt| attempt.in_flight.as_ref())
        .expect("in-flight message");
    assert_eq!(
        in_flight.blocks,
        vec![InFlightBlock::Text {
            block_index: ContentBlockIndex::new(0),
            text: "hello ".to_owned(),
        }]
    );
    apply_frame(&mut projection, 1, text_frame("world"));
    let resumed = collect(&mut projection, cursor);
    assert_eq!(resumed.len(), 1, "exactly one delta is published after C");
    assert!(matches!(
        &*resumed[0].event,
        RuntimeClientEvent::AssistantTextDelta { delta, .. } if delta == "world"
    ));
    let block = MessageBlock::Assistant(AssistantMessageBlock {
        id: MessageId::new("msg-1"),
        content: vec![AssistantContentBlock::Text(TextBlock {
            text: "hello world".to_owned(),
        })],
    });
    apply(&mut projection, committed(Some(attempt()), block.clone(), 1));
    let (snapshot, _) = projection.snapshot().expect("snapshot");
    assert_eq!(snapshot.messages, vec![Arc::new(block)]);
    assert!(snapshot
        .attempt
        .as_ref()
        .and_then(|attempt| attempt.in_flight.as_ref())
        .is_none());
}

#[test]
fn live_committed_observations_carry_durable_cursors_across_reordering() {
    let mut projection = projection();
    apply(
        &mut projection,
        committed(None, MessageBlock::User(user_block("message-b", "history")), 11),
    );
    apply(
        &mut projection,
        committed(None, MessageBlock::User(user_block("message-a", "history")), 10),
    );

    let events = collect(&mut projection, RuntimeClientCursor::new(0));
    assert_eq!(
        events.iter().map(|event| event.cursor.get()).collect::<Vec<_>>(),
        vec![1, 2],
        "Runtime Client cursors follow observation delivery"
    );
    assert_eq!(
        events
            .iter()
            .filter_map(|event| match &*event.event {
                RuntimeClientEvent::MessageCommitted { transcript_cursor, .. } =>
                    transcript_cursor.as_ref().map(RuntimeClientTranscriptCursor::get),
                _ => None,
            })
            .collect::<Vec<_>>(),
        vec![11, 10],
        "each live fact carries its own durable transcript cursor"
    );
}

#[test]
fn foreground_tool_identity_survives_reversed_completion() {
    let mut projection = projection();
    apply_event(&mut projection, RuntimeEvent::AttemptStarted { attempt_id: attempt() });
    for (sequence, call) in [
        tool_call("call_a", "tool-alpha", "alpha", "{}"),
        tool_call("call_b", "tool-beta", "beta", "{}"),
    ]
    .into_iter()
    .enumerate()
    {
        apply_frame(
            &mut projection,
            sequence as u64,
            PublicationPayload::ProposedToolCallStarted {
                block_index: ContentBlockIndex::new(0),
                call: call_start(&call),
            },
        );
    }
    apply_event(
        &mut projection,
        RuntimeEvent::ToolExecutionStarted {
            tool_call_id: ToolCallId::new("call_a"),
            tool_id: ToolId::new("tool-alpha"),
        },
    );
    apply_event(
        &mut projection,
        RuntimeEvent::ToolExecutionStarted {
            tool_call_id: ToolCallId::new("call_b"),
            tool_id: ToolId::new("tool-beta"),
        },
    );
    apply_event(
        &mut projection,
        RuntimeEvent::ToolExecutionCompleted {
            tool_call_id: ToolCallId::new("call_b"),
            tool_id: ToolId::new("tool-beta"),
            result: Arc::new(success_result()),
        },
    );
    apply_event(
        &mut projection,
        RuntimeEvent::ToolExecutionCompleted {
            tool_call_id: ToolCallId::new("call_a"),
            tool_id: ToolId::new("tool-alpha"),
            result: Arc::new(success_result()),
        },
    );
    let (snapshot, _) = projection.snapshot().expect("snapshot");
    let foreground = &snapshot.attempt.as_ref().expect("attempt view").foreground;
    assert_eq!(foreground.len(), 2);
    assert_eq!(foreground[0].call_id, ToolCallId::new("call_a"));
    assert_eq!(foreground[1].call_id, ToolCallId::new("call_b"));
    assert!(matches!(foreground[0].state, ForegroundToolState::Settled { .. }));
    assert!(matches!(foreground[1].state, ForegroundToolState::Settled { .. }));
}

/// Runs one assembled call to a result and gives the projection.
fn settled_call(call: &ToolCall, result: &ToolExecutionResult) -> RuntimeClientProjection {
    let mut projection = projection();
    apply_event(&mut projection, RuntimeEvent::AttemptStarted { attempt_id: attempt() });
    apply_assembled_call(&mut projection, call);
    apply_event(
        &mut projection,
        RuntimeEvent::ToolExecutionStarted {
            tool_call_id: call.id.clone(),
            tool_id: call.tool_id.clone(),
        },
    );
    apply_event(
        &mut projection,
        RuntimeEvent::ToolExecutionCompleted {
            tool_call_id: call.id.clone(),
            tool_id: call.tool_id.clone(),
            result: Arc::new(result.clone()),
        },
    );
    projection
}

#[test]
fn issue136_foreground_cancellation_phase_round_trips_through_projection() {
    let call = tool_call("call_cancelled", "tool-cancelled", "cancelled", "{\"value\": 1}");
    let result = ToolExecutionResult {
        status: ToolExecutionStatus::Cancelled {
            reason: CancellationReason::RuntimeShutdown,
            phase: ToolCancellationPhase::DuringExecution,
        },
        duration_ms: 3,
        exit_code: None,
        ..success_result()
    };
    let projection = settled_call(&call, &result);

    let (snapshot, _) = projection.snapshot().expect("snapshot");
    let foreground = &snapshot.attempt.as_ref().expect("attempt view").foreground;
    let ForegroundToolState::Settled { arguments, result: projected } = &foreground[0].state
    else {
        panic!("the cancelled call must be settled");
    };
    assert_eq!(arguments, "{\"value\":1}");
    assert_eq!(**projected, result);
    assert!(matches!(
        projected.status,
        ToolExecutionStatus::Cancelled { phase: ToolCancellationPhase::DuringExecution, .. }
    ));
}

#[test]
fn issue202_outcome_unknown_flows_through_projection_unchanged() {
    let call = tool_call(
        "call_outcome_unknown",
        "tool-outcome-unknown",
        "outcome_unknown",
        "{\"value\": 1}",
    );
    let result = ToolExecutionResult {
        status: ToolExecutionStatus::OutcomeUnknown {
            detail: "executor lost contact after dispatch".to_owned(),
        },
        duration_ms: 3,
        exit_code: None,
        ..success_result()
    };
    let projection = settled_call(&call, &result);

    let (snapshot, _) = projection.snapshot().expect("snapshot");
    let foreground = &snapshot.attempt.as_ref().expect("attempt view").foreground;
    let ForegroundToolState::Settled { result: projected, .. } = &foreground[0].state else {
        panic!("the outcome-unknown call must be settled");
    };
    assert_eq!(**projected, result);
    assert_eq!(
        projected.status,
        ToolExecutionStatus::OutcomeUnknown {
            detail: "executor lost contact after dispatch".to_owned(),
        }
    );
}

#[test]
fn issue136_before_start_commit_repairs_foreground_slot_once() {
    let mut projection = projection();
    apply_event(&mut projection, RuntimeEvent::AttemptStarted { attempt_id: attempt() });
    let call =
        tool_call("call_before_start", "tool-before-start", "before_start", "{\"value\": 1}");
    apply_assembled_call(&mut projection, &call);
    let result = cancelled_result(
        CancellationReason::RuntimeShutdown,
        ToolCancellationPhase::BeforeStart,
    );
    let block = tool_message("message-before-start", &call, &result);
    let (_, before_commit) = projection.snapshot().expect("snapshot before commit");

    apply(&mut projection, committed(Some(attempt()), block.clone(), 1));
    let commit_events = collect(&mut projection, before_commit);
    assert_eq!(commit_events.len(), 2);
    assert_eq!(
        commit_events
            .iter()
            .filter(|event| matches!(
                &*event.event,
                RuntimeClientEvent::ToolExecutionSettled { .. }
            ))
            .count(),
        1,
        "the canonical commit emits one foreground settlement"
    );
    assert!(!commit_events
        .iter()
        .any(|event| matches!(&*event.event, RuntimeClientEvent::ToolExecutionStarted { .. })));
    assert!(matches!(
        &*commit_events[0].event,
        RuntimeClientEvent::ToolExecutionSettled { tool_call_id, result: projected, .. }
            if tool_call_id == &call.id && **projected == result
    ));
    assert!(matches!(
        &*commit_events[1].event,
        RuntimeClientEvent::MessageCommitted { message, .. } if **message == block
    ));

    let (snapshot, _) = projection.snapshot().expect("settled snapshot");
    let foreground = &snapshot.attempt.as_ref().expect("attempt view").foreground;
    assert_eq!(foreground.len(), 1);
    assert!(matches!(
        &foreground[0].state,
        ForegroundToolState::Settled { result: projected, .. } if **projected == result
    ));

    apply_event(
        &mut projection,
        RuntimeEvent::AttemptCancelled {
            attempt_id: attempt(),
            reason: CancellationReason::RuntimeShutdown,
        },
    );
    let (settled_snapshot, after_attempt) = projection.snapshot().expect("terminal snapshot");
    assert!(matches!(
        settled_snapshot.attempt.as_ref().expect("attempt view").phase,
        RuntimeClientAttemptPhase::Settled {
            outcome: RuntimeClientOutcome::Cancelled {
                reason: CancellationReason::RuntimeShutdown,
            }
        }
    ));
    assert!(matches!(
        &settled_snapshot.attempt.as_ref().expect("attempt view").foreground[0].state,
        ForegroundToolState::Settled { result: projected, .. } if **projected == result
    ));

    apply_event(
        &mut projection,
        RuntimeEvent::ToolExecutionCompleted {
            tool_call_id: call.id.clone(),
            tool_id: call.tool_id.clone(),
            result: Arc::new(success_result()),
        },
    );
    assert!(collect(&mut projection, after_attempt).is_empty());
    let (final_snapshot, _) = projection.snapshot().expect("final snapshot");
    assert!(matches!(
        &final_snapshot.attempt.as_ref().expect("attempt view").foreground[0].state,
        ForegroundToolState::Settled { result: projected, .. } if **projected == result
    ));
}

#[test]
fn issue136_live_settlement_is_not_duplicated_by_tool_message_commit() {
    let call =
        tool_call("call_during_execution", "tool-during-execution", "during_execution", "{}");
    let result = cancelled_result(
        CancellationReason::ParentCancelled,
        ToolCancellationPhase::DuringExecution,
    );
    let mut projection = settled_call(&call, &result);
    let (_, before_commit) = projection.snapshot().expect("snapshot before commit");
    apply(
        &mut projection,
        committed(
            Some(attempt()),
            tool_message("message-during-execution", &call, &result),
            1,
        ),
    );

    let commit_events = collect(&mut projection, before_commit);
    assert_eq!(commit_events.len(), 1);
    assert!(matches!(&*commit_events[0].event, RuntimeClientEvent::MessageCommitted { .. }));
    let (snapshot, _) = projection.snapshot().expect("snapshot after commit");
    assert!(matches!(
        &snapshot.attempt.as_ref().expect("attempt view").foreground[0].state,
        ForegroundToolState::Settled { result: projected, .. } if **projected == result
    ));
}

#[test]
fn resume_after_a_serviceable_cursor_has_no_gap() {
    let mut projection = projection();
    apply_event(&mut projection, RuntimeEvent::AttemptStarted { attempt_id: attempt() });
    for index in 0..10u64 {
        apply_frame(&mut projection, index, text_frame(&index.to_string()));
    }
    let (_, cursor) = projection.snapshot().expect("snapshot");
    assert_eq!(cursor, RuntimeClientCursor::new(11));
    let events = collect(&mut projection, RuntimeClientCursor::new(3));
    let cursors: Vec<u64> = events.iter().map(|event| event.cursor.get()).collect();
    assert_eq!(cursors, vec![4, 5, 6, 7, 8, 9, 10, 11]);
    assert!(events.windows(2).all(|pair| pair[0].cursor.get() < pair[1].cursor.get()));
}

#[test]
fn unserviceable_cursors_fail_with_resync_required() {
    let mut projection = projection_of(4);
    apply_publication_open(&mut projection);
    for index in 0..20u64 {
        apply_frame(&mut projection, index, text_frame(&index.to_string()));
    }
    let error = match projection.subscribe(RuntimeClientCursor::new(1)) {
        Ok(_) => panic!("the cursor was evicted from the bounded ring"),
        Err(error) => error,
    };
    match error {
        RuntimeClientError::ResyncRequired { after_cursor, earliest_serviceable } => {
            assert_eq!(after_cursor, RuntimeClientCursor::new(1));
            assert_eq!(earliest_serviceable, RuntimeClientCursor::new(17));
        }
        other => panic!("expected resync_required, got {other:?}"),
    }
    assert!(matches!(
        projection.subscribe(RuntimeClientCursor::new(100)),
        Err(RuntimeClientError::ResyncRequired { .. })
    ));
    let (snapshot, cursor) = projection.snapshot().expect("snapshot");
    assert_eq!(cursor, RuntimeClientCursor::new(21));
    let in_flight = snapshot
        .attempt
        .as_ref()
        .and_then(|attempt| attempt.in_flight.as_ref())
        .expect("in-flight view repaired");
    assert!(matches!(
        &in_flight.blocks[0],
        InFlightBlock::Text { text, .. } if text == "012345678910111213141516171819"
    ));
}

#[test]
fn a_stalled_subscriber_is_bounded_and_never_silently_skips() {
    let limit = 4;
    let mut projection = projection_of(limit);
    apply_publication_open(&mut projection);
    let (stalled, _notify) = projection
        .subscribe(RuntimeClientCursor::new(1))
        .expect("the current cursor is serviceable");

    for index in 0..200u64 {
        apply_frame(&mut projection, index, text_frame(&index.to_string()));
        assert!(
            projection.replay_len() <= limit,
            "the one retained backlog stays within its bound at every publication"
        );
    }
    assert_eq!(
        projection.replay_len(),
        limit,
        "retention is the only storage that grew, and only to its bound"
    );

    let poll = projection.poll_subscriber(stalled);
    let SubscriberPoll::Lagged { after_cursor, earliest_serviceable } = poll else {
        panic!("a subscriber past retention must lag explicitly, got {poll:?}");
    };
    assert_eq!(after_cursor, RuntimeClientCursor::new(1));
    assert_eq!(earliest_serviceable, RuntimeClientCursor::new(197));
    assert_eq!(
        projection.poll_subscriber(stalled),
        poll,
        "the lag verdict is stable and never partially advances the cursor"
    );

    let current = projection.cursor();
    let (live, _notify) =
        projection.subscribe(current).expect("the current cursor is serviceable");
    let base = projection.cursor().get();
    for step in 1..=3u64 {
        apply_frame(&mut projection, 199 + step, text_frame("x"));
        let poll = projection.poll_subscriber(live);
        let SubscriberPoll::Event(event) = poll else {
            panic!("the live subscriber must receive, got {poll:?}");
        };
        assert_eq!(event.cursor.get(), base + step);
    }
    assert_eq!(projection.poll_subscriber(live), SubscriberPoll::Pending);

    assert!(projection.remove_subscriber(live).is_some());
    assert_eq!(projection.poll_subscriber(live), SubscriberPoll::Closed);
}

#[test]
fn cursor_overflow_fails_explicitly() {
    let mut projection = projection();
    projection.continue_from(RuntimeClientCursor::new(u64::MAX - 1));
    apply_event(&mut projection, RuntimeEvent::AttemptStarted { attempt_id: attempt() });
    assert_eq!(projection.cursor(), RuntimeClientCursor::new(u64::MAX));
    apply_event(&mut projection, RuntimeEvent::TurnStarted);
    apply_frame(&mut projection, 0, text_frame("x"));
    assert_eq!(
        projection.cursor(),
        RuntimeClientCursor::new(u64::MAX),
        "the cursor never wraps"
    );
    assert!(matches!(
        projection.subscribe(RuntimeClientCursor::new(0)),
        Err(RuntimeClientError::ProjectionExhausted)
    ));
    assert!(matches!(projection.snapshot(), Err(RuntimeClientError::ProjectionExhausted)));
    assert!(matches!(
        projection.snapshot_ref_checked(),
        Err(RuntimeClientError::ProjectionExhausted)
    ));
    assert_eq!(projection.poll_subscriber(1), SubscriberPoll::Exhausted);
}

#[test]
fn inbound_diagnostics_fold_from_mailbox_observations() {
    let item = |sequence: u64, id: &str| InboundItem {
        sequence: InboundSequence::new(sequence),
        message: Arc::new(UserMessageBlock {
            timestamp: Some(at(1_786_104_000)),
            ..user_block(id, id)
        }),
        transcript_cursor: Some(TranscriptCursor::new(sequence)),
    };
    let drained = InboundBatch {
        watermark: InboundSequence::new(2),
        items: vec![item(1, "m1"), item(2, "m2")],
    };

    let mut projection = projection();
    for entry in &drained.items {
        apply(&mut projection, ConversationObservation::InboundEnqueued(entry.clone()));
    }
    let (snapshot, _) = projection.snapshot().expect("snapshot");
    assert_eq!(snapshot.inbound.pending.len(), 2);
    assert_eq!(
        snapshot.inbound.pending[0].sequence.get(),
        1,
        "pending items follow inbound sequence order"
    );
    assert_eq!(snapshot.inbound.pending[1].sequence.get(), 2);

    apply(&mut projection, ConversationObservation::InboundDrained(drained));
    let (snapshot, _) = projection.snapshot().expect("snapshot");
    assert!(snapshot.inbound.pending.is_empty());
    let last_drain = snapshot.inbound.last_drain.expect("drain recorded");
    assert_eq!(last_drain.watermark.get(), 2);
    assert_eq!(last_drain.count, 2);
}

#[test]
fn a_later_arrival_waits_for_the_next_drain() {
    let item = |sequence: u64| InboundItem {
        sequence: InboundSequence::new(sequence),
        message: Arc::new(user_block(&format!("m{sequence}"), "hello")),
        transcript_cursor: None,
    };
    let waiting = |projection: &RuntimeClientProjection| {
        let (snapshot, _) = projection.snapshot().expect("snapshot");
        let sequences =
            snapshot.inbound.pending.iter().map(|item| item.sequence.get()).collect::<Vec<_>>();
        (sequences, snapshot.inbound.last_drain.map(|drain| (drain.watermark.get(), drain.count)))
    };
    let mut projection = projection();
    for sequence in 1..=4 {
        apply(&mut projection, ConversationObservation::InboundEnqueued(item(sequence)));
    }
    apply(
        &mut projection,
        ConversationObservation::InboundDrained(InboundBatch {
            watermark: InboundSequence::new(2),
            items: vec![item(1), item(2)],
        }),
    );
    assert_eq!(waiting(&projection), (vec![3, 4], Some((2, 2))));
    let events = collect(&mut projection, RuntimeClientCursor::new(4));
    assert_eq!(
        *events[0].event,
        RuntimeClientEvent::InboundDrained {
            watermark: InboundSequence::new(2),
            count: 2,
            message_ids: vec![MessageId::new("m1"), MessageId::new("m2")],
        }
    );
    apply(
        &mut projection,
        ConversationObservation::InboundDrained(InboundBatch {
            watermark: InboundSequence::new(4),
            items: vec![item(3), item(4)],
        }),
    );
    assert_eq!(waiting(&projection), (Vec::new(), Some((4, 2))));
}

#[test]
fn a_turn_counts_when_it_completes() {
    let mut projection = projection();
    let turn = |projection: &RuntimeClientProjection| {
        projection.snapshot().expect("snapshot").0.attempt.expect("attempt view").turn
    };
    apply_event(&mut projection, RuntimeEvent::AttemptStarted { attempt_id: attempt() });
    apply_event(&mut projection, RuntimeEvent::TurnStarted);
    assert_eq!(turn(&projection), 0);
    assert_eq!(projection.cursor(), RuntimeClientCursor::new(1), "a started turn is silent");
    apply_event(&mut projection, RuntimeEvent::TurnCompleted);
    apply_event(&mut projection, RuntimeEvent::TurnStarted);
    assert_eq!(turn(&projection), 1);
    apply_event(&mut projection, RuntimeEvent::TurnCompleted);
    assert_eq!(turn(&projection), 2);
    let events = collect(&mut projection, RuntimeClientCursor::new(1));
    assert_eq!(events.len(), 2);
    for (event, turn) in events.iter().zip([1, 2]) {
        assert_eq!(
            *event.event,
            RuntimeClientEvent::AttemptTurnUpdated { attempt_id: attempt(), turn }
        );
    }
    apply(
        &mut projection,
        ConversationObservation::Event {
            attempt_id: AttemptId::new("another"),
            event: RuntimeEvent::TurnCompleted,
        },
    );
    assert_eq!(turn(&projection), 2);
}

fn approval(conversation: &str, id: &str, turn: u32, call: &str, reason: &str) -> InteractionRequest {
    InteractionRequest {
        id: InteractionId::new(id),
        conversation_id: ConversationId::new(conversation),
        attempt_id: attempt(),
        turn,
        kind: InteractionKind::Approval {
            call_id: ToolCallId::new(call),
            tool_id: ToolId::new("tool-alpha"),
            tool_name: "alpha".to_owned(),
            origin: ToolOrigin::Builtin,
            mode: ToolInvocationMode::Foreground,
            arguments: json("{\"path\": \"original\"}"),
            reason: reason.to_owned(),
        },
    }
}

#[test]
fn interaction_pending_and_settled_fold_into_snapshot_and_events() {
    let mut projection = projection();
    let request =
        approval("conv-1", "attempt-1-interaction-1", 2, "call-1", "native policy");
    let address = InteractionRef::new(request.conversation_id.clone(), request.id.clone());
    let requested_audit = Arc::new(RuntimeClientTranscriptInteractionRequested {
        interaction_id: request.id.clone(),
        attempt_id: attempt(),
        subject: "alpha".to_owned(),
    });
    let pending = Arc::new(RoutedInteraction {
        interaction: address.clone(),
        source: InteractionSource::Primary,
        request: request.clone(),
    });
    apply(
        &mut projection,
        ConversationObservation::InteractionPending {
            interaction: pending.clone(),
            audit: Some((requested_audit, TranscriptCursor::new(1))),
        },
    );
    let (snapshot, cursor) = projection.snapshot().expect("snapshot");
    assert_eq!(snapshot.pending_interactions, vec![pending]);
    assert_eq!(cursor, RuntimeClientCursor::new(2));
    let events = collect(&mut projection, RuntimeClientCursor::new(0));
    assert!(matches!(
        events.first().map(|event| &*event.event),
        Some(RuntimeClientEvent::InteractionPending { interaction })
            if interaction.request == request
    ));

    let outcome = InteractionOutcome::Responded {
        response: InteractionResponse::Approval { decision: ApprovalDecision::Allow },
    };
    let settled_audit = Arc::new(RuntimeClientTranscriptInteractionSettled {
        interaction_id: request.id.clone(),
        attempt_id: attempt(),
        settlement: "approved".to_owned(),
    });
    apply(
        &mut projection,
        ConversationObservation::InteractionSettled {
            interaction: address.clone(),
            outcome: outcome.clone(),
            audit: Some((settled_audit, TranscriptCursor::new(2))),
        },
    );
    let (snapshot, cursor) = projection.snapshot().expect("snapshot");
    assert!(snapshot.pending_interactions.is_empty());
    assert_eq!(cursor, RuntimeClientCursor::new(4));
    let events = collect(&mut projection, RuntimeClientCursor::new(2));
    assert!(matches!(
        events.first().map(|event| &*event.event),
        Some(RuntimeClientEvent::InteractionSettled { interaction, outcome: event_outcome })
            if interaction == &address && event_outcome == &outcome
    ));
    assert!(projection.snapshot().expect("snapshot").0.messages.is_empty());
}

#[test]
fn routed_interactions_keep_multiple_sources_and_removals_independent() {
    let mut projection = projection();
    let prompt = |conversation: &str, id: &str| {
        approval(conversation, id, 1, &format!("{id}-call"), "independent prompt")
    };
    let primary = RoutedInteraction::primary(prompt("conv-primary", "primary-a"));
    let child_a_request = prompt("conv-child-a", "child-a");
    let child_a = RoutedInteraction::subagent(
        SubagentId::new("conv-primary-subagent-1"),
        child_a_request.conversation_id.clone(),
        "explore".to_owned(),
        child_a_request,
    );
    let other_child_request = prompt("conv-child-b", "child-b");
    let child_b = RoutedInteraction::subagent(
        SubagentId::new("conv-primary-subagent-2"),
        other_child_request.conversation_id.clone(),
        "explore".to_owned(),
        other_child_request,
    );

    for interaction in [primary.clone(), child_a.clone(), child_b.clone()] {
        apply(
            &mut projection,
            ConversationObservation::InteractionPending {
                interaction: Arc::new(interaction),
                audit: None,
            },
        );
    }
    let (snapshot, _) = projection.snapshot().expect("snapshot");
    assert_eq!(snapshot.pending_interactions.len(), 3);
    assert_eq!(
        snapshot
            .pending_interactions
            .iter()
            .map(|interaction| interaction.interaction.clone())
            .collect::<Vec<_>>(),
        vec![
            child_a.interaction.clone(),
            child_b.interaction.clone(),
            primary.interaction.clone(),
        ]
    );

    apply(
        &mut projection,
        ConversationObservation::InteractionRemoved { interaction: child_a.interaction.clone() },
    );
    let (snapshot, _) = projection.snapshot().expect("snapshot after child removal");
    assert_eq!(
        snapshot
            .pending_interactions
            .iter()
            .map(|interaction| interaction.interaction.clone())
            .collect::<Vec<_>>(),
        vec![child_b.interaction.clone(), primary.interaction.clone()]
    );

    apply(
        &mut projection,
        ConversationObservation::InteractionSettled {
            interaction: child_b.interaction.clone(),
            outcome: InteractionOutcome::Responded {
                response: InteractionResponse::Approval { decision: ApprovalDecision::Allow },
            },
            audit: None,
        },
    );
    let (snapshot, _) = projection.snapshot().expect("snapshot after settlement");
    assert_eq!(snapshot.pending_interactions, vec![Arc::new(primary)]);
    assert!(snapshot.messages.is_empty());
}

#[test]
fn snapshot_and_cursor_are_linearized() {
    let mut projection = projection();
    let (snapshot, cursor) = projection.snapshot().expect("snapshot");
    assert_eq!(cursor, RuntimeClientCursor::new(0));
    assert!(snapshot.messages.is_empty());
    apply_event(&mut projection, RuntimeEvent::AttemptStarted { attempt_id: attempt() });
    let (snapshot, cursor) = projection.snapshot().expect("snapshot");
    assert_eq!(cursor, RuntimeClientCursor::new(1));
    assert!(snapshot.attempt.is_some());
}

fn background(
    id: &str,
    state: BackgroundLifecycle,
    result: Option<ToolExecutionResult>,
) -> ConversationObservation {
    ConversationObservation::Background(BackgroundExecutionSnapshot {
        execution_id: ToolExecutionId::new(id),
        tool_id: ToolId::new("tool-bg"),
        tool_name: "bg".to_owned(),
        state,
        progress: None,
        result: result.map(Arc::new),
    })
}

#[test]
fn background_observations_fold_in_allocation_order() {
    let mut projection = projection();
    apply(&mut projection, background("exec_1", BackgroundLifecycle::Running, None));
    apply(
        &mut projection,
        background("exec_1", BackgroundLifecycle::Succeeded, Some(success_result())),
    );
    apply(&mut projection, background("exec_2", BackgroundLifecycle::Starting, None));
    let (snapshot, _) = projection.snapshot().expect("snapshot");
    assert_eq!(snapshot.background.len(), 2);
    assert_eq!(snapshot.background[0].execution_id.as_str(), "exec_1");
    assert_eq!(snapshot.background[0].state, BackgroundLifecycle::Succeeded);
    assert!(snapshot.background[0].result.is_some());
    assert_eq!(snapshot.background[1].execution_id.as_str(), "exec_2");
}

#[test]
fn issue202_background_terminal_states_project_verbatim() {
    let mut projection = projection();
    let outcome_unknown_result = ToolExecutionResult {
        status: ToolExecutionStatus::OutcomeUnknown {
            detail: "cancellation raced the executor after dispatch".to_owned(),
        },
        ..success_result()
    };
    apply(
        &mut projection,
        background(
            "exec_unknown",
            BackgroundLifecycle::OutcomeUnknown,
            Some(outcome_unknown_result),
        ),
    );
    apply(
        &mut projection,
        background(
            "exec_timed_out",
            BackgroundLifecycle::TimedOut,
            Some(ToolExecutionResult {
                status: ToolExecutionStatus::TimedOut,
                ..success_result()
            }),
        ),
    );

    let (snapshot, _) = projection.snapshot().expect("snapshot");
    assert_eq!(snapshot.background.len(), 2);
    assert_eq!(snapshot.background[0].state, BackgroundLifecycle::OutcomeUnknown);
    assert_eq!(snapshot.background[1].state, BackgroundLifecycle::TimedOut);

    let events = collect(&mut projection, RuntimeClientCursor::new(0));
    let [unknown_event, timed_out_event] = events.as_slice() else {
        panic!("two BackgroundExecutionUpdated events: {events:?}");
    };
    let RuntimeClientEvent::BackgroundExecutionUpdated { execution: unknown_view } =
        &*unknown_event.event
    else {
        panic!("a BackgroundExecutionUpdated event: {:?}", unknown_event.event);
    };
    let RuntimeClientEvent::BackgroundExecutionUpdated { execution: timed_out_view } =
        &*timed_out_event.event
    else {
        panic!("a BackgroundExecutionUpdated event: {:?}", timed_out_event.event);
    };
    assert_eq!(unknown_view.state, BackgroundLifecycle::OutcomeUnknown);
    assert_eq!(timed_out_view.state, BackgroundLifecycle::TimedOut);
}

#[test]
fn subagent_observations_fold_the_activity_projection_into_the_view() {
    fn snapshot(observation: SubagentObservation) -> SubagentSnapshot {
        SubagentSnapshot {
            subagent_id: SubagentId::new("conv-1-subagent-1"),
            child_agent_id: AgentId::new("agent-child"),
            child_conversation_id: ConversationId::new("conv-1-subagent-1"),
            tool_call_id: ToolCallId::new("call-1"),
            agent: "explore".to_owned(),
            definition_digest: "sha256:d1".to_owned(),
            workspace: WorkspaceSnapshot {
                logical_workspace: "<shared-workspace>".to_owned(),
                isolation: WorkspaceIsolation::Shared,
            },
            handoff: None,
            workspace_resource_state: SubagentWorkspaceResourceState::Absent,
            state: SubagentState::Running,
            detail: None,
            observation: Arc::new(observation),
            profile: Some(Arc::new(SubagentExecutionProfile {
                model: "local/model".to_owned(),
                reasoning_profile: None,
                reasoning_enabled: false,
            })),
            started_at: at(1_788_343_200),
        }
    }

    let mut projection = projection();
    let observation = SubagentObservation {
        revision: 2,
        activity: SubagentActivity::Tool {
            tool_call_id: ToolCallId::new("call-1"),
            tool_id: ToolId::new("tool-bash"),
            progress: None,
        },
        tool_executions: 1,
        model_requests: 0,
    };
    apply(
        &mut projection,
        ConversationObservation::SubagentLifecycle(snapshot(observation.clone())),
    );
    let newer = SubagentObservation { revision: 3, ..observation };
    apply(
        &mut projection,
        ConversationObservation::SubagentActivity(snapshot(newer.clone())),
    );

    let events = collect(&mut projection, RuntimeClientCursor::new(0));
    let [_, event] = events.as_slice() else {
        panic!("two SubagentUpdated events: {events:?}");
    };
    let RuntimeClientEvent::SubagentUpdated { subagent } = &*event.event else {
        panic!("a SubagentUpdated event: {:?}", event.event);
    };
    assert_eq!(*subagent.observation, newer);
    assert_eq!(
        subagent.execution_profile.as_deref(),
        Some(&SubagentExecutionProfile {
            model: "local/model".to_owned(),
            reasoning_profile: None,
            reasoning_enabled: false,
        })
    );
    assert_eq!(subagent.started_at, at(1_788_343_200));

    let (repaired, _) = projection.snapshot().expect("snapshot");
    assert_eq!(repaired.subagents.len(), 1);
    assert_eq!(*repaired.subagents[0].observation, newer);
    assert_eq!(repaired.subagents[0].execution_profile, subagent.execution_profile);
}

fn subagent_in(state: SubagentState) -> SubagentSnapshot {
    SubagentSnapshot {
        subagent_id: SubagentId::new("subagent-1"),
        child_agent_id: AgentId::new("agent-child"),
        child_conversation_id: ConversationId::new("conv-child"),
        tool_call_id: ToolCallId::new("call-1"),
        agent: "explore".to_owned(),
        definition_digest: "sha256:d1".to_owned(),
        workspace: WorkspaceSnapshot {
            logical_workspace: "/work".to_owned(),
            isolation: WorkspaceIsolation::Shared,
        },
        handoff: None,
        workspace_resource_state: SubagentWorkspaceResourceState::Absent,
        state,
        detail: None,
        observation: Arc::new(SubagentObservation {
            revision: 1,
            activity: SubagentActivity::Idle,
            tool_executions: 0,
            model_requests: 0,
        }),
        profile: None,
        started_at: at(0),
    }
}

#[test]
fn a_prompt_is_replaced_in_its_place_and_moves_no_other() {
    let mut projection = projection();
    let put = |projection: &mut RuntimeClientProjection, id: &str, reason: &str| {
        let prompt = RoutedInteraction::primary(approval("conv-1", id, 1, "call", reason));
        apply(
            projection,
            ConversationObservation::InteractionPending {
                interaction: Arc::new(prompt.clone()),
                audit: None,
            },
        );
        Arc::new(prompt)
    };
    let c = put(&mut projection, "c", "first");
    let a = put(&mut projection, "a", "first");
    put(&mut projection, "b", "first");
    let b = put(&mut projection, "b", "again");
    let (snapshot, _) = projection.snapshot().expect("snapshot");
    assert_eq!(snapshot.pending_interactions, vec![a, b, c]);
}

#[test]
fn the_end_of_a_subagent_takes_its_prompts_with_it() {
    let mut projection = projection();
    let child = approval("conv-child", "child-a", 1, "call-a", "prompt");
    let pending = RoutedInteraction::subagent(
        SubagentId::new("subagent-1"),
        child.conversation_id.clone(),
        "explore".to_owned(),
        child,
    );
    let other = RoutedInteraction::primary(approval("conv-1", "own", 1, "call-b", "prompt"));
    for interaction in [pending.clone(), other.clone()] {
        apply(
            &mut projection,
            ConversationObservation::InteractionPending {
                interaction: Arc::new(interaction),
                audit: None,
            },
        );
    }
    for report in [
        ConversationObservation::SubagentWorkspace(subagent_in(SubagentState::Succeeded)),
        ConversationObservation::SubagentActivity(subagent_in(SubagentState::Succeeded)),
    ] {
        let (_, cursor) = projection.snapshot().expect("snapshot");
        apply(&mut projection, report);
        assert_eq!(collect(&mut projection, cursor).len(), 1);
        let (snapshot, _) = projection.snapshot().expect("snapshot");
        assert_eq!(snapshot.pending_interactions.len(), 2);
    }
    let (_, cursor) = projection.snapshot().expect("snapshot");
    apply(
        &mut projection,
        ConversationObservation::SubagentLifecycle(subagent_in(SubagentState::Succeeded)),
    );
    let events = collect(&mut projection, cursor);
    assert_eq!(events.len(), 2);
    assert!(matches!(&*events[0].event, RuntimeClientEvent::SubagentUpdated { .. }));
    assert_eq!(
        *events[1].event,
        RuntimeClientEvent::InteractionRemoved { interaction: pending.interaction.clone() }
    );
    let (snapshot, _) = projection.snapshot().expect("snapshot");
    assert_eq!(snapshot.pending_interactions, vec![Arc::new(other)]);
}

#[test]
fn an_attempt_keeps_the_model_it_froze() {
    let mut projection = projection();
    let frozen = Arc::new(AttemptModelView {
        model: "frozen".to_owned(),
        reasoning_profile: Some("deep".to_owned()),
    });
    apply(
        &mut projection,
        ConversationObservation::AttemptAdmitted { attempt_id: attempt() },
    );
    apply(
        &mut projection,
        ConversationObservation::AttemptModelFrozen {
            attempt_id: attempt(),
            model: frozen.clone(),
        },
    );
    let changed = Arc::new(SessionModelView {
        configured: SessionModelConfig {
            model: "changed".to_owned(),
            reasoning_profile: None,
            request_params: Vec::new(),
        },
        attempt: Arc::new(AttemptModelView {
            model: "changed".to_owned(),
            reasoning_profile: None,
        }),
    });
    apply(
        &mut projection,
        ConversationObservation::SessionModelChanged { model: changed.clone() },
    );
    apply_event(&mut projection, RuntimeEvent::AttemptStarted { attempt_id: attempt() });
    let (snapshot, cursor) = projection.snapshot().expect("snapshot");
    assert_eq!(cursor.get(), 2);
    assert_eq!(snapshot.attempt.expect("attempt view").model, frozen);
    assert_eq!(snapshot.model, changed);

    apply(
        &mut projection,
        ConversationObservation::Event {
            attempt_id: AttemptId::new("attempt-2"),
            event: RuntimeEvent::AttemptStarted { attempt_id: AttemptId::new("attempt-2") },
        },
    );
    let (snapshot, _) = projection.snapshot().expect("snapshot");
    assert_eq!(snapshot.attempt.expect("attempt view").model.model, "changed");
}

fn envelope(attempt_id: Option<AttemptId>, event: RuntimeEvent) -> RuntimeEventEnvelope {
    RuntimeEventEnvelope {
        schema_version: 1,
        event_id: EventId::new("event"),
        sequence: 1,
        conversation_id: ConversationId::new("conv-1"),
        attempt_id,
        turn_id: None,
        timestamp: at(0),
        event,
    }
}

#[test]
fn a_durable_record_is_shown_without_a_stream() {
    let mut projection = projection();
    let call = tool_call("call_1", "tool-alpha", "alpha", "{\"a\": 1}");
    projection.bootstrap_durable_event(&envelope(
        None,
        RuntimeEvent::AttemptStarted { attempt_id: attempt() },
    ));
    projection.bootstrap_durable_event(&envelope(None, RuntimeEvent::TurnCompleted));
    projection.bootstrap_durable_event(&envelope(Some(attempt()), RuntimeEvent::TurnStarted));
    projection.bootstrap_durable_event(&envelope(Some(attempt()), RuntimeEvent::TurnCompleted));
    projection.bootstrap_durable_event(&envelope(None, RuntimeEvent::CompactionStarted));
    let calling = MessageBlock::Assistant(AssistantMessageBlock {
        id: MessageId::new("msg-1"),
        content: vec![
            AssistantContentBlock::Text(TextBlock { text: "look".to_owned() }),
            AssistantContentBlock::ToolCall(call.clone()),
            AssistantContentBlock::ToolCall(call.clone()),
        ],
    });
    projection.bootstrap_durable_message(&attempt(), &calling);
    projection.bootstrap_durable_message(&attempt(), &calling);
    projection.bootstrap_durable_message(
        &attempt(),
        &MessageBlock::User(user_block("user-1", "hello")),
    );
    {
        let (snapshot, cursor) = projection.snapshot().expect("snapshot");
        assert_eq!(cursor.get(), 0);
        assert!(snapshot.context.compaction_in_progress);
        let shown = snapshot.attempt.expect("attempt view");
        assert_eq!(shown.turn, 1);
        assert_eq!(shown.foreground.len(), 1);
        assert_eq!(
            shown.foreground[0].state,
            ForegroundToolState::Assembled { arguments: "{\"a\":1}".to_owned() }
        );
    }
    let result = success_result();
    projection.bootstrap_durable_message(&attempt(), &tool_message("result", &call, &result));
    let (snapshot, cursor) = projection.snapshot().expect("snapshot");
    assert_eq!(cursor.get(), 0, "nothing is published");
    assert!(snapshot.messages.is_empty(), "no message is copied");
    assert!(matches!(
        &snapshot.attempt.expect("attempt view").foreground[0].state,
        ForegroundToolState::Settled { result: shown, .. } if **shown == result
    ));
}

#[test]
fn a_transcript_page_is_replaced_beside_the_stream() {
    let mut projection = projection();
    let page = Arc::new(RuntimeClientTranscriptPage {
        entries: Vec::new(),
        next_cursor: Some(RuntimeClientTranscriptCursor::new(7)),
        statistics: None,
    });
    projection.set_transcript_page(page.clone());
    let (snapshot, cursor) = projection.snapshot().expect("snapshot");
    assert_eq!(cursor.get(), 0);
    assert_eq!(snapshot.transcript, page);
}

#[test]
fn streamed_blocks_keep_their_kinds_and_places() {
    let mut projection = projection();
    apply_publication_open(&mut projection);
    let call = tool_call("call_1", "tool-alpha", "alpha", "{}");
    apply_frame(
        &mut projection,
        0,
        PublicationPayload::ReasoningSuffix {
            block_index: ContentBlockIndex::new(2),
            suffix: "why".to_owned(),
        },
    );
    apply_frame(
        &mut projection,
        1,
        PublicationPayload::ProposedToolCallStarted {
            block_index: ContentBlockIndex::new(1),
            call: call_start(&call),
        },
    );
    apply_frame(
        &mut projection,
        2,
        PublicationPayload::RefusalSuffix {
            block_index: ContentBlockIndex::new(0),
            suffix: "no".to_owned(),
        },
    );
    apply_frame(&mut projection, 3, PublicationPayload::TerminalOnly);
    let (snapshot, cursor) = projection.snapshot().expect("snapshot");
    assert_eq!(cursor.get(), 4, "the last frame publishes nothing");
    let shown = snapshot.attempt.expect("attempt view");
    assert_eq!(
        shown.in_flight.expect("in-flight message").blocks,
        vec![
            InFlightBlock::ToolCall {
                block_index: ContentBlockIndex::new(1),
                call_id: ToolCallId::new("call_1"),
                tool_id: ToolId::new("tool-alpha"),
                name: "alpha".to_owned(),
                arguments: String::new(),
            },
            InFlightBlock::Reasoning {
                block_index: ContentBlockIndex::new(2),
                text: "why".to_owned(),
            },
            InFlightBlock::Refusal {
                block_index: ContentBlockIndex::new(0),
                text: "no".to_owned(),
            },
        ],
        "a tool call puts the blocks in order, a text comes last"
    );
}

#[test]
fn a_projection_that_retains_nothing_still_counts() {
    let mut projection = projection_of(0);
    let (follower, _notify) =
        projection.subscribe(RuntimeClientCursor::new(0)).expect("serviceable cursor");
    apply(&mut projection, ConversationObservation::Shutdown);
    assert_eq!(projection.replay_len(), 0);
    assert_eq!(
        projection.poll_subscriber(follower),
        SubscriberPoll::Lagged {
            after_cursor: RuntimeClientCursor::new(0),
            earliest_serviceable: RuntimeClientCursor::new(1),
        }
    );
}
