use std::sync::Arc;

use runtime_client::clock::Timestamp;
use runtime_client::evidence::add_usage;
use runtime_client::identity::{
    AttemptId, ConversationId, EventId, MessageId, RequestId, ToolCallId, ToolId, TurnId,
};
use runtime_client::journal::{RuntimeEvent, RuntimeEventEnvelope, SurfaceRevision};
use runtime_client::json::JsonText;
use runtime_client::memory::MemoryConversationStore;
use runtime_client::message::{
    message_id_of, AssistantContentBlock, AssistantMessageBlock, InboundKind, MessageBlock,
    TextBlock, ToolMessageBlock, ToolOccurrence, UserContentBlock, UserMessageBlock, UserSource,
};
use runtime_client::model::{
    AttemptFailure, AttemptLimit, GenerationEvidence, ModelError, ModelErrorKind,
    ModelFinishReason, ModelRetryDisposition, ModelUsage, RuntimeError, UsageDetails,
};
use runtime_client::response::{
    decorate, decorate_through, is_completed_response, lineage_provenance,
    CompletedResponseTiming, CompletedResponseView, ConversationStatistics, OutputRate,
};
use runtime_client::snapshot::{
    RuntimeClientTranscriptCursor, RuntimeClientTranscriptItem, RuntimeClientTranscriptPage,
};
use runtime_client::store::{
    CompletedResponseProvenance, ConversationStore, ConversationStoreError, FactKind, FactQuery,
};
use runtime_client::timing::TimingFold;
use runtime_client::tool::{
    CancellationReason, ToolCall, ToolExecutionResult, ToolExecutionStatus,
};

const CONVERSATION: &str = "conv_b05f9cb7-dcec-7fa1-8fa9-2047ae76d95f";

fn at(seconds: i64) -> Timestamp {
    Timestamp::at(seconds, 0).expect("timestamp")
}

fn new_store() -> MemoryConversationStore {
    MemoryConversationStore::new(ConversationId::new(CONVERSATION))
}

fn event(
    store: &MemoryConversationStore,
    attempt: &str,
    event: RuntimeEvent,
) -> RuntimeEventEnvelope {
    RuntimeEventEnvelope {
        schema_version: 1,
        event_id: EventId::new(&format!(
            "event-{}",
            store.presentation_frontier().unwrap() + 1
        )),
        sequence: 0,
        conversation_id: store.conversation_id().clone(),
        attempt_id: Some(AttemptId::new(attempt)),
        turn_id: Some(TurnId::new("1")),
        timestamp: at(1_700_000_000),
        event,
    }
}

fn append(store: &mut MemoryConversationStore, attempt: &str, kind: RuntimeEvent) {
    let event = event(store, attempt, kind);
    store.append_event(event);
}

fn start(store: &mut MemoryConversationStore, attempt: &str) {
    append(store, attempt, RuntimeEvent::AttemptStarted { attempt_id: AttemptId::new(attempt) });
}

fn user_message(id: &str, kind: InboundKind) -> MessageBlock {
    MessageBlock::User(UserMessageBlock {
        id: MessageId::new(id),
        source: UserSource::Human,
        timestamp: None,
        kind,
        content: vec![UserContentBlock::Text(TextBlock { text: id.to_owned() })],
    })
}

fn user(store: &mut MemoryConversationStore, id: &str) {
    store.append_canonical(Arc::new(user_message(id, InboundKind::Message)));
}

fn assistant_with(
    store: &mut MemoryConversationStore,
    attempt: &str,
    id: &str,
    content: AssistantContentBlock,
) {
    store.append_canonical(Arc::new(MessageBlock::Assistant(AssistantMessageBlock {
        id: MessageId::new(id),
        content: vec![content],
    })));
    append(
        store,
        attempt,
        RuntimeEvent::AssistantMessageCommitted { message_id: MessageId::new(id) },
    );
}

fn assistant(store: &mut MemoryConversationStore, attempt: &str, id: &str) {
    assistant_with(
        store,
        attempt,
        id,
        AssistantContentBlock::Text(TextBlock { text: id.to_owned() }),
    );
}

fn tool_call(id: &str) -> AssistantContentBlock {
    AssistantContentBlock::ToolCall(ToolCall {
        id: ToolCallId::new(id),
        tool_id: ToolId::new("tool-a"),
        name: "lookup".to_owned(),
        arguments: JsonText::parse("{}").expect("a JSON document"),
    })
}

fn request_timed(
    store: &mut MemoryConversationStore,
    attempt: &str,
    retry: u32,
    usage: Option<ModelUsage>,
    generation: Option<GenerationEvidence>,
    failed: bool,
) {
    let request_id = RequestId::new(&format!("request-{attempt}-1-{retry}"));
    store.record_request(request_id.clone());
    append(
        store,
        attempt,
        RuntimeEvent::ModelRequestStarted {
            request_id: request_id.clone(),
            model: "historical-model".to_owned(),
        },
    );
    let terminal = if failed {
        RuntimeEvent::ModelRequestFailed {
            request_id,
            error: ModelError {
                kind: ModelErrorKind::RateLimit,
                message: "retry".to_owned(),
                retry_disposition: ModelRetryDisposition::Transient,
                retry_after_ms: None,
                provider_code: None,
            },
            usage,
            generation,
        }
    } else {
        RuntimeEvent::ModelRequestCompleted {
            request_id,
            finish_reason: ModelFinishReason::Stop,
            usage,
            generation,
        }
    };
    append(store, attempt, terminal);
}

fn request(
    store: &mut MemoryConversationStore,
    attempt: &str,
    retry: u32,
    usage: Option<ModelUsage>,
) {
    request_timed(store, attempt, retry, usage, None, false);
}

fn usage(cached: Option<u64>) -> ModelUsage {
    ModelUsage {
        input_tokens: 100,
        output_tokens: 20,
        total_tokens: 120,
        details: Some(UsageDetails { reasoning_tokens: None, cached_input_tokens: cached }),
    }
}

fn sample_generation() -> GenerationEvidence {
    GenerationEvidence {
        dispatch_after_start_ms: Some(400),
        first_output_ms: Some(320),
        last_output_ms: Some(1600),
        terminal_ms: 1600,
    }
}

fn page(
    store: &MemoryConversationStore,
    before: Option<RuntimeClientTranscriptCursor>,
    limit: usize,
) -> RuntimeClientTranscriptPage {
    let mut page = store.transcript_page(before, limit);
    decorate(store, &mut page).unwrap();
    page
}

fn tails(page: &RuntimeClientTranscriptPage) -> Vec<&CompletedResponseView> {
    page.entries.iter().filter_map(|entry| entry.completed_response.as_ref()).collect()
}

fn finish_as(store: &mut MemoryConversationStore, attempt: &str, finish_reason: ModelFinishReason) {
    append(
        store,
        attempt,
        RuntimeEvent::AttemptCompleted { attempt_id: AttemptId::new(attempt), finish_reason },
    );
}

fn finish(store: &mut MemoryConversationStore, attempt: &str) {
    finish_as(store, attempt, ModelFinishReason::Stop);
}

fn canonical(store: &MemoryConversationStore) -> Vec<Arc<MessageBlock>> {
    store
        .transcript_page(None, 1024)
        .entries
        .into_iter()
        .map(|entry| match entry.item {
            RuntimeClientTranscriptItem::Message { message } => message,
            other => panic!("a message: {other:?}"),
        })
        .collect()
}

/// Two attempts, each with one input, one request and one response.
fn two_attempts(store: &mut MemoryConversationStore) {
    for attempt in ["a", "b"] {
        user(store, &format!("input-{attempt}"));
        start(store, attempt);
        request(store, attempt, 0, Some(usage(Some(80))));
        assistant(store, attempt, &format!("response-{attempt}"));
        finish(store, attempt);
    }
}

#[test]
fn one_attempt_many_requests_has_one_exact_tail_and_missing_buckets_stay_absent() {
    let mut store = new_store();
    user(&mut store, "input-a");
    start(&mut store, "a");
    request(&mut store, "a", 0, Some(usage(Some(0))));
    assistant_with(&mut store, "a", "intermediate", tool_call("call-a"));
    request(&mut store, "a", 1, Some(usage(None)));
    assistant(&mut store, "a", "closing");
    assert!(tails(&page(&store, None, 64)).is_empty());
    assert!(!is_completed_response(&store, &MessageId::new("closing")).unwrap());
    finish(&mut store, "a");
    let result = page(&store, None, 64);
    let tails = tails(&result);
    assert_eq!(tails.len(), 1);
    assert_eq!(tails[0].closing_message_id, MessageId::new("closing"));
    assert_eq!(tails[0].retry_message_id, Some(MessageId::new("input-a")));
    assert_eq!(tails[0].usage.as_ref().unwrap().total_tokens, 240);
    assert_eq!(
        tails[0].usage.as_ref().unwrap().details.as_ref().unwrap().cached_input_tokens,
        None
    );
    assert!(is_completed_response(&store, &MessageId::new("closing")).unwrap());
    assert!(!is_completed_response(&store, &MessageId::new("intermediate")).unwrap());
    assert_eq!(tails[0].timing, None);
}

#[test]
fn historical_pages_reopen_and_later_attempts_preserve_identity_and_totals() {
    let mut store = new_store();
    two_attempts(&mut store);
    let newest = page(&store, None, 1);
    let older = page(&store, newest.next_cursor, 64);
    assert_eq!(tails(&newest)[0].origin.attempt_id, AttemptId::new("b"));
    assert_eq!(tails(&older)[0].origin.attempt_id, AttemptId::new("a"));
    assert_eq!(newest.statistics, older.statistics);
    assert_eq!(
        newest
            .statistics
            .as_ref()
            .unwrap()
            .reported_usage
            .as_ref()
            .unwrap()
            .total_tokens,
        240
    );
    let mut reopened = new_store();
    two_attempts(&mut reopened);
    assert_eq!(newest, page(&reopened, None, 1));
    assert_eq!(older, page(&reopened, newest.next_cursor, 64));
}

#[test]
fn published_read_cut_does_not_observe_a_later_completion() {
    let mut store = new_store();
    start(&mut store, "a");
    assistant(&mut store, "a", "closing");
    let through = store.presentation_frontier().unwrap();
    finish(&mut store, "a");
    let mut old = page(&store, None, 64);
    for entry in &mut old.entries {
        entry.completed_response = None;
    }
    decorate_through(&store, &mut old, through).unwrap();
    assert!(tails(&old).is_empty());
    assert!(old.entries[0].response_pending);
    assert_eq!(tails(&page(&store, None, 64)).len(), 1);
}

#[test]
fn interrupted_output_and_incomplete_usage_never_claim_completion_or_zero() {
    let mut store = new_store();
    start(&mut store, "a");
    request(&mut store, "a", 0, None);
    assistant(&mut store, "a", "partial");
    append(
        &mut store,
        "a",
        RuntimeEvent::AttemptTimedOut { attempt_id: AttemptId::new("a") },
    );
    assert!(tails(&page(&store, None, 64)).is_empty());
    start(&mut store, "b");
    request(&mut store, "b", 0, Some(usage(Some(0))));
    request(&mut store, "b", 1, None);
    assistant(&mut store, "b", "final");
    finish(&mut store, "b");
    let result = page(&store, None, 64);
    assert_eq!(tails(&result)[0].usage, None);
    assert_eq!(result.statistics.as_ref().unwrap().requests_with_usage, 1);
    assert_eq!(result.statistics.as_ref().unwrap().model_requests, 3);
}

#[test]
fn the_start_of_a_compaction_leaves_the_totals_alone() {
    let mut store = new_store();
    start(&mut store, "a");
    request(&mut store, "a", 0, Some(usage(Some(80))));
    let totals = page(&store, None, 64).statistics;
    append(&mut store, "a", RuntimeEvent::CompactionStarted);
    assert_eq!(page(&store, None, 64).statistics, totals);
}

#[test]
fn real_compaction_preserves_response_identity_cut_and_cumulative_usage() {
    let mut store = new_store();
    user(&mut store, "input-a");
    start(&mut store, "a");
    request(&mut store, "a", 0, Some(usage(Some(80))));
    assistant(&mut store, "a", "response-a");
    finish(&mut store, "a");
    let before = page(&store, None, 64);
    let tail = tails(&before)[0].clone();
    store.commit_compaction(Arc::new(user_message("summary", InboundKind::CompactionSummary)));
    let after = page(&store, None, 64);
    assert_eq!(tails(&after)[0], &tail);
    assert_eq!(after.statistics, before.statistics);
    assert!(is_completed_response(&store, &tail.closing_message_id).unwrap());
    assert_eq!(
        store.message_append_revision(&tail.closing_message_id).unwrap(),
        Some(tail.surface_revision)
    );
}

fn renamed(id: &MessageId, child: &str) -> MessageId {
    MessageId::new(&format!("{child}/{}", id.as_str()))
}

/// A conversation that begins with copies of messages and inherits their responses, all
/// under identities of its own.
fn child_of(
    child: &str,
    messages: &[Arc<MessageBlock>],
    provenance: &[CompletedResponseProvenance],
) -> MemoryConversationStore {
    let kept = |id: &MessageId| messages.iter().any(|message| message_id_of(message) == *id);
    let inherited = provenance
        .iter()
        .map(|response| CompletedResponseProvenance {
            process_message_ids: response
                .process_message_ids
                .iter()
                .map(|id| renamed(id, child))
                .collect(),
            closing_message_id: renamed(&response.closing_message_id, child),
            retry_message_id: response
                .retry_message_id
                .as_ref()
                .filter(|id| kept(id))
                .map(|id| renamed(id, child)),
            ..response.clone()
        })
        .collect();
    let mut store = MemoryConversationStore::inheriting(ConversationId::new(child), inherited);
    for message in messages {
        let copy = match &**message {
            MessageBlock::User(block) => MessageBlock::User(UserMessageBlock {
                id: renamed(&block.id, child),
                ..block.clone()
            }),
            MessageBlock::Assistant(block) => MessageBlock::Assistant(AssistantMessageBlock {
                id: renamed(&block.id, child),
                ..block.clone()
            }),
            MessageBlock::Tool(block) => MessageBlock::Tool(ToolMessageBlock {
                id: renamed(&block.id, child),
                ..block.clone()
            }),
        };
        store.append_canonical(Arc::new(copy));
    }
    store
}

#[test]
fn deep_lineage_reopen_preserves_response_facts_without_execution_ownership() {
    let mut store = new_store();
    two_attempts(&mut store);
    let source = page(&store, None, 64);
    let source_b = tails(&source)[1].clone();
    for generation in 1..=3 {
        let messages = canonical(&store);
        let provenance = lineage_provenance(&store, &messages).unwrap();
        let child = child_of(&format!("child-{generation}"), &messages, &provenance);
        let copies = canonical(&child);
        assert_eq!(copies.len(), 4);
        assert!(copies
            .iter()
            .zip(&messages)
            .all(|(a, b)| message_id_of(a) != message_id_of(b)));
        let projected = page(&child, None, 64);
        let inherited = tails(&projected);
        assert_eq!(inherited.len(), 2);
        let b = inherited[1];
        assert_eq!(b.closing_message_id, message_id_of(&copies[3]));
        assert_eq!(b.retry_message_id, Some(message_id_of(&copies[2])));
        assert_eq!(b.origin, source_b.origin);
        assert_eq!(b.completed_at, source_b.completed_at);
        assert_eq!(b.usage, source_b.usage);
        assert!(is_completed_response(&child, &b.closing_message_id).unwrap());
        assert_eq!(projected.statistics, Some(ConversationStatistics::default()));
        assert_eq!(child.presentation_frontier().unwrap(), 0);
        let everything = FactQuery {
            kinds: vec![
                FactKind::AttemptStarted,
                FactKind::ModelRequestStarted,
                FactKind::AttemptCompleted,
            ],
            after: 0,
            through: u64::MAX,
            limit: 128,
        };
        assert!(child.read_presentation_events(&everything).unwrap().is_empty());
        let paged = page(&child, None, 1);
        assert_eq!(tails(&paged), vec![b]);
        store = child;
        assert_eq!(page(&store, None, 64), projected);
    }
    user(&mut store, "local-user");
    start(&mut store, "local");
    request(&mut store, "local", 0, Some(usage(None)));
    assistant(&mut store, "local", "local-response");
    finish(&mut store, "local");
    let current = page(&store, None, 64);
    assert_eq!(tails(&current).len(), 3);
    let totals = current.statistics.unwrap();
    assert_eq!(totals.completed_responses, 1);
    assert_eq!(totals.model_requests, 1);
    assert_eq!(totals.reported_usage.unwrap().total_tokens, 120);
}

#[test]
fn remapping_drops_missing_retry_input_and_bootstrap_rejects_invalid_response_addresses() {
    let mut source = new_store();
    user(&mut source, "input");
    request(&mut source, "attempt", 0, Some(usage(None)));
    assistant(&mut source, "attempt", "response");
    finish(&mut source, "attempt");
    let messages = canonical(&source);
    let provenance = lineage_provenance(&source, &messages).unwrap();
    assert_eq!(provenance.len(), 1);
    assert_eq!(provenance[0].retry_message_id, Some(MessageId::new("input")));
    let child = child_of("child", &messages[1..], &provenance);
    assert_eq!(tails(&page(&child, None, 64))[0].retry_message_id, None);

    // An input that the conversation does not hold is not offered for another try either.
    let mut unknown = provenance[0].clone();
    unknown.retry_message_id = Some(MessageId::new("elsewhere"));
    let mut child =
        MemoryConversationStore::inheriting(ConversationId::new("child"), vec![unknown]);
    child.append_canonical(messages[1].clone());
    assert_eq!(tails(&page(&child, None, 64))[0].retry_message_id, None);

    // Nor is a message that is no ordinary input.
    let mut wrong_retry = provenance[0].clone();
    wrong_retry.retry_message_id = Some(MessageId::new("response"));
    let mut child =
        MemoryConversationStore::inheriting(ConversationId::new("child"), vec![wrong_retry]);
    child.append_canonical(messages[1].clone());
    assert_eq!(tails(&page(&child, None, 64))[0].retry_message_id, None);
}

fn timing_case(
    requests: &[(Option<GenerationEvidence>, Option<ModelUsage>, bool)],
) -> CompletedResponseTiming {
    let mut store = new_store();
    user(&mut store, "input");
    start(&mut store, "a");
    for (index, (generation, usage, failed)) in requests.iter().enumerate() {
        request_timed(
            &mut store,
            "a",
            u32::try_from(index).unwrap(),
            *usage,
            *generation,
            *failed,
        );
    }
    assistant(&mut store, "a", "closing");
    let mut completed = event(
        &store,
        "a",
        RuntimeEvent::AttemptCompleted {
            attempt_id: AttemptId::new("a"),
            finish_reason: ModelFinishReason::Stop,
        },
    );
    completed.timestamp = at(1_700_000_000 + 19);
    store.append_event(completed);
    let view = page(&store, None, 64);
    assert_eq!(tails(&view).len(), 1);
    tails(&view)[0].timing.unwrap()
}

fn output_tokens_per_second(timing: &CompletedResponseTiming) -> Option<f64> {
    timing.output_rate.map(|rate| rate.tokens as f64 * 1000.0 / rate.duration_ms as f64)
}

#[test]
fn single_request_uses_native_offsets_not_scaled_wall_time() {
    let timing = timing_case(&[(Some(sample_generation()), Some(usage(None)), false)]);
    assert_eq!(
        timing,
        CompletedResponseTiming {
            total_duration_ms: Some(19_000),
            ttft_ms: Some(320),
            generation_ms: Some(1280),
            output_rate: Some(OutputRate { tokens: 20, duration_ms: 1280 }),
        }
    );
    assert_eq!(output_tokens_per_second(&timing), Some(15.625));
    let no_bridge = GenerationEvidence { dispatch_after_start_ms: None, ..sample_generation() };
    assert_eq!(timing_case(&[(Some(no_bridge), Some(usage(None)), false)]), timing);
}

#[test]
fn failed_requests_and_retries_contribute_real_model_work() {
    let second = GenerationEvidence {
        first_output_ms: Some(100),
        terminal_ms: 820,
        last_output_ms: Some(700),
        ..sample_generation()
    };
    let timing = timing_case(&[
        (Some(sample_generation()), Some(usage(None)), true),
        (Some(second), Some(usage(None)), false),
    ]);
    assert_eq!(
        timing,
        CompletedResponseTiming {
            total_duration_ms: Some(19_000),
            ttft_ms: Some(320),
            generation_ms: Some(2000),
            output_rate: Some(OutputRate { tokens: 40, duration_ms: 2000 }),
        }
    );
    assert_eq!(output_tokens_per_second(&timing), Some(20.0));
}

#[test]
fn missing_zero_and_no_output_are_distinct() {
    let known = (Some(sample_generation()), Some(usage(None)), false);
    let absent = timing_case(&[(None, Some(usage(None)), true), known]);
    assert_eq!(absent.ttft_ms, None);
    assert_eq!(absent.generation_ms, None);
    assert_eq!(output_tokens_per_second(&absent), None);
    assert_eq!(absent.total_duration_ms, Some(19_000));
    let no_usage = timing_case(&[(Some(sample_generation()), None, false)]);
    assert_eq!(no_usage.generation_ms, Some(1280));
    assert_eq!(output_tokens_per_second(&no_usage), None);
    let zero = GenerationEvidence {
        terminal_ms: 320,
        last_output_ms: Some(320),
        ..sample_generation()
    };
    let zero = timing_case(&[(Some(zero), Some(usage(None)), false)]);
    assert_eq!(zero.generation_ms, Some(0));
    assert_eq!(output_tokens_per_second(&zero), None);
    let no_output = GenerationEvidence {
        first_output_ms: None,
        last_output_ms: None,
        ..sample_generation()
    };
    let mut empty_usage = usage(None);
    empty_usage.output_tokens = 0;
    let empty = timing_case(&[(Some(no_output), Some(empty_usage), true)]);
    assert_eq!(empty.ttft_ms, None);
    assert_eq!(empty.generation_ms, None);
    let mixed = timing_case(&[(Some(no_output), Some(empty_usage), true), known]);
    assert_eq!(mixed.ttft_ms, None);
    assert_eq!(mixed.generation_ms, Some(1280));
    assert_eq!(output_tokens_per_second(&mixed), Some(15.625));
}

#[test]
fn absent_or_reversed_attempt_endpoints_do_not_invent_runtime() {
    let mut fold = TimingFold::new();
    let id = RequestId::new("request");
    fold.start(id.clone());
    fold.terminal(&id, Some(sample_generation()), Some(&usage(None)));
    let end = at(1_700_000_000);
    assert_eq!(fold.summary(None, end).unwrap().total_duration_ms, None);
    assert_eq!(
        fold.summary(Some(at(1_700_000_001)), end).unwrap().total_duration_ms,
        None
    );
    assert_eq!(
        fold.summary(Some(at(1_699_999_998)), end).unwrap().total_duration_ms,
        Some(2_000)
    );
}

#[test]
fn a_fold_that_measured_nothing_has_no_summary() {
    let mut fold = TimingFold::new();
    assert_eq!(fold.summary(None, at(0)), None);
    assert_eq!(fold.summary(Some(at(0)), at(0)), None);
    assert_eq!(
        fold.summary(Some(at(0)), Timestamp::at(0, 7_999_999).unwrap())
            .unwrap()
            .total_duration_ms,
        Some(7)
    );
    fold.start(RequestId::new("first"));
    fold.start(RequestId::new("second"));
    fold.terminal(&RequestId::new("second"), Some(sample_generation()), None);
    fold.terminal(&RequestId::new("unknown"), Some(sample_generation()), None);
    assert_eq!(fold.summary(None, at(0)), None);
    fold.terminal(&RequestId::new("first"), Some(sample_generation()), None);
    assert_eq!(
        fold.summary(None, at(0)),
        Some(CompletedResponseTiming {
            total_duration_ms: None,
            ttft_ms: Some(320),
            generation_ms: Some(2560),
            output_rate: None,
        })
    );
}

#[test]
fn a_tool_message_belongs_to_the_response_of_its_caller() {
    let mut store = new_store();
    user(&mut store, "input");
    start(&mut store, "a");
    assistant_with(&mut store, "a", "calling", tool_call("call"));
    store.append_canonical(Arc::new(MessageBlock::Tool(ToolMessageBlock {
        id: MessageId::new("result"),
        tool_call_id: ToolCallId::new("call"),
        tool_id: ToolId::new("tool-a"),
        occurrence: ToolOccurrence { assistant_message_id: MessageId::new("calling") },
        result: Arc::new(ToolExecutionResult {
            status: ToolExecutionStatus::Success,
            content: Vec::new(),
            duration_ms: 1,
            exit_code: None,
            artifacts: Vec::new(),
            truncation: None,
            managed_output: None,
        }),
    })));
    let running = page(&store, None, 64);
    assert_eq!(
        running.entries.iter().map(|entry| entry.response_pending).collect::<Vec<_>>(),
        vec![false, true, true]
    );
    assistant(&mut store, "a", "closing");
    finish(&mut store, "a");
    let done = page(&store, None, 64);
    assert!(done.entries.iter().all(|entry| !entry.response_pending));
    assert_eq!(done.entries[0].completed_process, None);
    for entry in &done.entries[1..] {
        let process = entry.completed_process.as_ref().expect("a completed process");
        assert_eq!(process.final_message_id, MessageId::new("closing"));
        assert_eq!(process.origin.conversation_id, ConversationId::new(CONVERSATION));
    }
    assert!(done.entries[1].completed_response.is_none());
    assert!(done.entries[2].completed_response.is_none());
    assert_eq!(
        done.entries[3].completed_response.as_ref().expect("a response").surface_revision,
        SurfaceRevision::new(4)
    );
}

#[test]
fn only_a_stop_or_a_refusal_closes_a_response() {
    let ends = [
        RuntimeEvent::AttemptCompleted {
            attempt_id: AttemptId::new("a"),
            finish_reason: ModelFinishReason::MaxOutputTokens,
        },
        RuntimeEvent::AttemptCancelled {
            attempt_id: AttemptId::new("a"),
            reason: CancellationReason::UserRequested,
        },
        RuntimeEvent::AttemptTimedOut { attempt_id: AttemptId::new("a") },
        RuntimeEvent::AttemptLimitExceeded {
            attempt_id: AttemptId::new("a"),
            limit: AttemptLimit::Turns,
        },
        RuntimeEvent::AttemptFailed {
            attempt_id: AttemptId::new("a"),
            error: AttemptFailure::Runtime {
                error: RuntimeError { message: "failed".to_owned() },
            },
        },
    ];
    for end in ends {
        let mut store = new_store();
        start(&mut store, "a");
        assistant(&mut store, "a", "text");
        append(&mut store, "a", end);
        let view = page(&store, None, 64);
        assert!(tails(&view).is_empty());
        assert!(!view.entries[0].response_pending);
        assert_eq!(view.statistics.unwrap().completed_responses, 0);
    }
    let mut store = new_store();
    start(&mut store, "a");
    assistant(&mut store, "a", "text");
    finish_as(&mut store, "a", ModelFinishReason::Refusal);
    assert_eq!(tails(&page(&store, None, 64)).len(), 1);
}

#[test]
fn a_long_journal_is_read_in_pages() {
    let mut store = new_store();
    user(&mut store, "input");
    for attempt in 0..100 {
        let name = format!("attempt-{attempt}");
        start(&mut store, &name);
        request(&mut store, &name, 0, Some(usage(Some(1))));
        assistant(&mut store, &name, &format!("response-{attempt}"));
        finish(&mut store, &name);
    }
    let view = page(&store, None, 1);
    let totals = view.statistics.unwrap();
    assert_eq!(totals.completed_responses, 100);
    assert_eq!(totals.model_requests, 100);
    assert_eq!(totals.requests_with_usage, 100);
    assert_eq!(totals.reported_usage.unwrap().total_tokens, 12_000);
    assert_eq!(
        totals.reported_usage.unwrap().details.unwrap().cached_input_tokens,
        Some(100)
    );
    assert_eq!(tails(&view)[0].closing_message_id, MessageId::new("response-99"));
}

#[test]
fn a_request_that_the_record_does_not_hold_is_an_error() {
    let mut store = new_store();
    start(&mut store, "a");
    append(
        &mut store,
        "a",
        RuntimeEvent::ModelRequestStarted {
            request_id: RequestId::new("lost"),
            model: "model".to_owned(),
        },
    );
    assistant(&mut store, "a", "closing");
    finish(&mut store, "a");
    let mut view = store.transcript_page(None, 64);
    assert_eq!(
        decorate(&store, &mut view),
        Err(ConversationStoreError::UnknownRequest { request_id: RequestId::new("lost") })
    );
    assert_eq!(view.statistics, None);
    assert_eq!(
        is_completed_response(&store, &MessageId::new("closing")),
        Err(ConversationStoreError::UnknownRequest { request_id: RequestId::new("lost") })
    );
    assert!(store.load_surface_snapshot(SurfaceRevision::new(9)).is_err());
}

#[test]
fn a_closing_message_outside_the_record_is_an_error() {
    let mut store = new_store();
    start(&mut store, "a");
    append(
        &mut store,
        "a",
        RuntimeEvent::AssistantMessageCommitted { message_id: MessageId::new("elsewhere") },
    );
    finish(&mut store, "a");
    let mut other = new_store();
    assistant(&mut other, "a", "elsewhere");
    let mut view = other.transcript_page(None, 64);
    assert_eq!(
        decorate(&store, &mut view),
        Err(ConversationStoreError::InvalidReference(
            "Completed response has no canonical Surface append".to_owned()
        ))
    );
    assert_eq!(view.statistics, None);
}

#[test]
fn the_newest_input_before_the_last_request_can_be_tried_again() {
    let mut store = new_store();
    user(&mut store, "first");
    store.append_canonical(Arc::new(user_message("context", InboundKind::Context)));
    start(&mut store, "a");
    request(&mut store, "a", 0, None);
    user(&mut store, "late");
    assistant(&mut store, "a", "closing");
    finish(&mut store, "a");
    assert_eq!(
        tails(&page(&store, None, 64))[0].retry_message_id,
        Some(MessageId::new("first"))
    );
}

#[test]
fn decoration_replaces_what_a_page_showed_before() {
    let mut store = new_store();
    start(&mut store, "a");
    assistant(&mut store, "a", "closing");
    let mut view = page(&store, None, 64);
    assert!(view.entries[0].response_pending);
    finish(&mut store, "a");
    decorate(&store, &mut view).unwrap();
    assert!(!view.entries[0].response_pending);
    assert_eq!(tails(&view).len(), 1);
    decorate_through(&store, &mut view, 0).unwrap();
    assert!(tails(&view).is_empty());
    assert_eq!(view.statistics, Some(ConversationStatistics::default()));
}

#[test]
fn a_page_shows_a_response_once_and_keeps_its_items() {
    let mut store = new_store();
    start(&mut store, "a");
    assistant(&mut store, "a", "closing");
    finish(&mut store, "a");
    let mut view = store.transcript_page(None, 64);
    view.entries.push(view.entries[0].clone());
    let items = view.entries.iter().map(|entry| entry.item.clone()).collect::<Vec<_>>();
    decorate(&store, &mut view).unwrap();
    assert_eq!(tails(&view).len(), 1);
    assert!(view.entries[0].completed_response.is_some());
    assert!(view.entries[1].completed_process.is_some());
    assert_eq!(
        view.entries.iter().map(|entry| entry.item.clone()).collect::<Vec<_>>(),
        items
    );
}

#[test]
fn the_messages_of_an_attempt_are_kept_in_the_order_of_their_names() {
    let mut store = new_store();
    start(&mut store, "a");
    for name in ["m-10", "m-2", "m-1"] {
        assistant(&mut store, "a", name);
    }
    finish(&mut store, "a");
    let provenance = lineage_provenance(&store, &canonical(&store)).unwrap();
    assert_eq!(provenance.len(), 1);
    assert_eq!(provenance[0].closing_message_id, MessageId::new("m-1"));
    assert_eq!(
        provenance[0]
            .process_message_ids
            .iter()
            .map(|id| id.as_str().to_owned())
            .collect::<Vec<_>>(),
        vec!["m-1".to_owned(), "m-10".to_owned(), "m-2".to_owned()]
    );
}

#[test]
fn an_entry_shows_the_same_on_every_page() {
    let mut store = new_store();
    two_attempts(&mut store);
    start(&mut store, "c");
    assistant_with(&mut store, "c", "unfinished", tool_call("call-c"));
    let whole = page(&store, None, 64);
    assert_eq!(whole.entries.len(), 5);
    assert!(whole.entries[4].response_pending);
    let mut cursor = None;
    for expected in whole.entries.iter().rev() {
        let single = page(&store, cursor, 1);
        assert_eq!(single.entries.len(), 1);
        assert_eq!(&single.entries[0], expected);
        assert_eq!(single.statistics, whole.statistics);
        cursor = single.next_cursor;
    }
}

#[test]
fn reports_add_up_to_the_same_in_any_order() {
    let reports = [usage(Some(3)), usage(Some(4)), usage(None)];
    let total_of = |order: [usize; 3]| {
        let mut total = None;
        for index in order {
            add_usage(&mut total, &reports[index]);
        }
        total
    };
    let total = total_of([0, 1, 2]).expect("a total");
    assert_eq!(total.input_tokens, 300);
    assert_eq!(total.details.expect("details").cached_input_tokens, None);
    for order in [[0, 2, 1], [1, 0, 2], [1, 2, 0], [2, 0, 1], [2, 1, 0]] {
        assert_eq!(total_of(order), Some(total));
    }
    let mut known = None;
    add_usage(&mut known, &reports[0]);
    add_usage(&mut known, &reports[1]);
    assert_eq!(known.unwrap().details.unwrap().cached_input_tokens, Some(7));
}

#[test]
fn usage_saturates() {
    let mut store = new_store();
    start(&mut store, "a");
    let mut most = usage(Some(u64::MAX));
    most.total_tokens = u64::MAX;
    request(&mut store, "a", 0, Some(most));
    request(&mut store, "a", 1, Some(usage(Some(1))));
    let mut bare = usage(None);
    bare.details = None;
    let totals = page(&store, None, 1).statistics.unwrap().reported_usage.unwrap();
    assert_eq!(totals.total_tokens, u64::MAX);
    assert_eq!(totals.input_tokens, 200);
    assert_eq!(totals.details.unwrap().cached_input_tokens, Some(u64::MAX));
    request(&mut store, "a", 2, Some(bare));
    let totals = page(&store, None, 1).statistics.unwrap().reported_usage.unwrap();
    assert_eq!(totals.details, None);
}
