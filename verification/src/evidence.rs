//! The fold of the journal into completed responses.
//!
//! That a message was accepted identifies its content; that an attempt was completed
//! identifies its closing message. That a provider stopped closes nothing.
use std::sync::Arc;

use vstd::prelude::*;

use crate::clock::Timestamp;
use crate::identity::{AttemptId, Identity, MessageId, RequestId};
use crate::journal::{RuntimeEvent, RuntimeEventEnvelope};
use crate::message::{InboundKind, MessageBlock};
use crate::model::{GenerationEvidence, ModelFinishReason, ModelUsage, UsageDetails};
#[allow(unused_imports)]
use crate::response::ResponseModel;
use crate::response::{
    CompletedProcessView, ConversationStatistics, ResponseOrigin, ResponseProjection,
};
use crate::search::{put_in_order, Placed};
#[allow(unused_imports)]
use crate::store::{ProvenanceModel, StoreFailure, StoreRead};
use crate::store::{CompletedResponseProvenance, ConversationStore, ConversationStoreError};
use crate::timing::TimingFold;
#[allow(unused_imports)]
use crate::timing::TimingModel;

verus! {

/// A sum that stops at the end of its range.
pub open spec fn saturating_sum(a: u64, b: u64) -> u64 {
    if a + b > u64::MAX {
        u64::MAX
    } else {
        (a + b) as u64
    }
}

/// A sum of two numbers that are both known.
pub open spec fn known_sum(a: Option<u64>, b: Option<u64>) -> Option<u64> {
    match (a, b) {
        (Some(a), Some(b)) => Some(saturating_sum(a, b)),
        _ => None,
    }
}

/// A total with one more report. A part that either of them leaves out stays unknown.
pub open spec fn with_usage(total: Option<ModelUsage>, usage: ModelUsage) -> Option<ModelUsage> {
    match total {
        None => Some(usage),
        Some(total) => Some(
            ModelUsage {
                input_tokens: saturating_sum(total.input_tokens, usage.input_tokens),
                output_tokens: saturating_sum(total.output_tokens, usage.output_tokens),
                total_tokens: saturating_sum(total.total_tokens, usage.total_tokens),
                details: match (total.details, usage.details) {
                    (Some(a), Some(b)) => Some(
                        UsageDetails {
                            reasoning_tokens: known_sum(a.reasoning_tokens, b.reasoning_tokens),
                            cached_input_tokens: known_sum(
                                a.cached_input_tokens,
                                b.cached_input_tokens,
                            ),
                        },
                    ),
                    _ => None,
                },
            },
        ),
    }
}

fn add_known(a: Option<u64>, b: Option<u64>) -> (sum: Option<u64>)
    ensures
        sum == known_sum(a, b),
{
    match (a, b) {
        (Some(a), Some(b)) => Some(a.saturating_add(b)),
        _ => None,
    }
}

/// Adds a usage report to a total.
pub fn add_usage(total: &mut Option<ModelUsage>, usage: &ModelUsage)
    ensures
        *final(total) == with_usage(*old(total), *usage),
{
    *total = match *total {
        None => Some(*usage),
        Some(sum) => Some(
            ModelUsage {
                input_tokens: sum.input_tokens.saturating_add(usage.input_tokens),
                output_tokens: sum.output_tokens.saturating_add(usage.output_tokens),
                total_tokens: sum.total_tokens.saturating_add(usage.total_tokens),
                details: match (sum.details, usage.details) {
                    (Some(a), Some(b)) => Some(
                        UsageDetails {
                            reasoning_tokens: add_known(a.reasoning_tokens, b.reasoning_tokens),
                            cached_input_tokens: add_known(
                                a.cached_input_tokens,
                                b.cached_input_tokens,
                            ),
                        },
                    ),
                    _ => None,
                },
            },
        ),
    };
}

/// Whether an identity is among others.
pub open spec fn names<K>(ids: Seq<Identity<K>>, id: Seq<char>) -> bool {
    exists|i: int| 0 <= i < ids.len() && (#[trigger] ids[i])@ == id
}

/// Whether an identity is among others.
pub fn is_named<K>(ids: &Vec<Identity<K>>, id: &Identity<K>) -> (named: bool)
    ensures
        named == names(ids@, id@),
{
    let mut i: usize = 0;
    while i < ids.len()
        invariant
            i <= ids.len(),
            forall|k: int| 0 <= k < i ==> (#[trigger] ids@[k])@ != id@,
        decreases ids.len() - i,
    {
        if ids[i].same(id) {
            assert(ids@[i as int]@ == id@);
            return true;
        }
        i += 1;
    }
    false
}

impl<K> Placed for Identity<K> {
    open spec fn follows_spec(self, other: Self) -> bool {
        crate::identity::text_precedes(other@, self@)
    }

    fn follows(&self, other: &Self) -> (follows: bool) {
        other.precedes(self)
    }
}

/// Identities with one more, each once and in their order.
pub open spec fn with_member(members: Seq<MessageId>, id: MessageId) -> Seq<MessageId> {
    if names(members, id@) {
        members
    } else {
        crate::search::ordered(members.push(id), crate::search::places::<MessageId>())
    }
}

fn add_member(members: &mut Vec<MessageId>, id: &MessageId)
    ensures
        final(members)@ == with_member(old(members)@, *id),
{
    if !is_named(members, id) {
        members.push(id.clone());
        put_in_order(members);
    }
}

/// What is known of an attempt that has not ended.
pub struct AttemptEvidence {
    id: AttemptId,
    started_at: Option<Timestamp>,
    timing: TimingFold,
    closing: Option<MessageId>,
    members: Vec<MessageId>,
    last_request: Option<RequestId>,
    requests: u64,
    reports: u64,
    usage: Option<ModelUsage>,
}

/// The value of what is known of an attempt.
#[verifier::ext_equal]
pub struct EvidenceModel {
    pub id: AttemptId,
    pub started_at: Option<Timestamp>,
    pub timing: TimingModel,
    /// The message that was accepted last.
    pub closing: Option<MessageId>,
    /// The messages of the attempt that were asked for.
    pub members: Seq<MessageId>,
    pub last_request: Option<RequestId>,
    pub requests: u64,
    /// How many requests reported their usage.
    pub reports: u64,
    pub usage: Option<ModelUsage>,
}

impl View for AttemptEvidence {
    type V = EvidenceModel;

    closed spec fn view(&self) -> EvidenceModel {
        EvidenceModel {
            id: self.id,
            started_at: self.started_at,
            timing: self.timing@,
            closing: self.closing,
            members: self.members@,
            last_request: self.last_request,
            requests: self.requests,
            reports: self.reports,
            usage: self.usage,
        }
    }
}

impl EvidenceModel {
    /// An attempt of which nothing is known.
    pub open spec fn none(id: AttemptId) -> Self {
        EvidenceModel {
            id,
            started_at: None,
            timing: TimingModel::none(),
            closing: None,
            members: Seq::empty(),
            last_request: None,
            requests: 0,
            reports: 0,
            usage: None,
        }
    }
}

impl AttemptEvidence {
    fn none(id: AttemptId) -> (evidence: Self)
        ensures
            evidence@ == EvidenceModel::none(id),
    {
        AttemptEvidence {
            id,
            started_at: None,
            timing: TimingFold::new(),
            closing: None,
            members: Vec::new(),
            last_request: None,
            requests: 0,
            reports: 0,
            usage: None,
        }
    }
}

/// The completed attempt of one message.
pub struct ProcessEntry {
    pub id: MessageId,
    pub process: CompletedProcessView,
}

/// Picks the attempt with an identity.
pub open spec fn is_attempt(id: Seq<char>) -> spec_fn(EvidenceModel) -> bool {
    |evidence: EvidenceModel| evidence.id@ == id
}

/// Picks the response with a closing message.
pub open spec fn closes(id: Seq<char>) -> spec_fn(ProvenanceModel) -> bool {
    |response: ProvenanceModel| response.closing_message_id@ == id
}

/// Picks the entry of a message.
pub open spec fn is_entry(id: Seq<char>) -> spec_fn(ProcessEntry) -> bool {
    |entry: ProcessEntry| entry.id@ == id
}

/// The order of responses by their closing messages.
pub open spec fn response_order() -> spec_fn(ProvenanceModel, ProvenanceModel) -> bool {
    |a: ProvenanceModel, b: ProvenanceModel|
        crate::identity::text_precedes(b.closing_message_id@, a.closing_message_id@)
}

/// Responses with one more, in the order of their closing messages. It replaces one with
/// the same closing message.
pub open spec fn with_response(
    responses: Seq<ProvenanceModel>,
    response: ProvenanceModel,
) -> Seq<ProvenanceModel> {
    match crate::search::position(responses, closes(response.closing_message_id@)) {
        Some(index) => responses.update(index, response),
        None => crate::search::ordered(responses.push(response), response_order()),
    }
}

/// Entries after the messages of a completed attempt, which replace older ones.
pub open spec fn with_processes(
    processes: Seq<ProcessEntry>,
    members: Seq<MessageId>,
    process: CompletedProcessView,
) -> Seq<ProcessEntry>
    decreases members.len(),
{
    if members.len() == 0 {
        processes
    } else {
        crate::search::upsert(
            with_processes(processes, members.drop_last(), process),
            is_entry(members.last()@),
            ProcessEntry { id: members.last(), process },
        )
    }
}

/// The state of the fold.
#[verifier::ext_equal]
pub struct FoldModel {
    /// The attempts that have not ended.
    pub attempts: Seq<EvidenceModel>,
    /// The completed responses that were asked for.
    pub completed: Seq<ProvenanceModel>,
    pub processes: Seq<ProcessEntry>,
    pub statistics: ConversationStatistics,
}

/// The last ordinary message of a user in a message sequence.
pub open spec fn last_input(messages: Seq<Arc<MessageBlock>>) -> Option<MessageId>
    decreases messages.len(),
{
    if messages.len() == 0 {
        None
    } else {
        match *messages.last() {
            MessageBlock::User(user) if user.kind == InboundKind::Message => Some(user.id),
            _ => last_input(messages.drop_last()),
        }
    }
}

/// The input that a response can be tried again from: the last ordinary message that its
/// last request saw.
pub open spec fn retry_input<S: ConversationStore>(
    store: S,
    last_request: Option<RequestId>,
) -> Result<Option<MessageId>, StoreFailure> {
    match last_request {
        None => Ok(None),
        Some(request) => match store.failure(StoreRead::Request { request_id: request@ }) {
            Some(failure) => Err(failure),
            None => {
                let revision = store.request_surface(request@);
                match store.failure(StoreRead::Surface { revision }) {
                    Some(failure) => Err(failure),
                    None => Ok(last_input(store.surface(revision))),
                }
            },
        },
    }
}

impl FoldModel {
    /// What is known of an attempt.
    pub open spec fn evidence(self, id: AttemptId) -> EvidenceModel {
        match crate::search::position(self.attempts, is_attempt(id@)) {
            Some(index) => self.attempts[index],
            None => EvidenceModel::none(id),
        }
    }

    /// The state with other evidence of an attempt.
    pub open spec fn with_evidence(self, evidence: EvidenceModel) -> Self {
        FoldModel {
            attempts: crate::search::upsert(self.attempts, is_attempt(evidence.id@), evidence),
            ..self
        }
    }

    /// The state after an attempt has ended.
    pub open spec fn without(self, id: Seq<char>) -> Self {
        FoldModel {
            attempts: match crate::search::position(self.attempts, is_attempt(id)) {
                Some(index) => self.attempts.remove(index),
                None => self.attempts,
            },
            ..self
        }
    }

    /// A request of an attempt ends, with success or not.
    pub open spec fn request_ended(
        self,
        id: AttemptId,
        request_id: RequestId,
        usage: Option<ModelUsage>,
        generation: Option<GenerationEvidence>,
    ) -> Self {
        let evidence = self.evidence(id);
        let timed = EvidenceModel {
            timing: evidence.timing.ended(request_id@, generation, usage),
            ..evidence
        };
        match usage {
            None => self.with_evidence(timed),
            Some(usage) => (FoldModel {
                statistics: ConversationStatistics {
                    requests_with_usage: (self.statistics.requests_with_usage + 1) as u64,
                    reported_usage: with_usage(self.statistics.reported_usage, usage),
                    ..self.statistics
                },
                ..self
            }).with_evidence(
                EvidenceModel {
                    reports: (evidence.reports + 1) as u64,
                    usage: with_usage(evidence.usage, usage),
                    ..timed
                },
            ),
        }
    }

    /// An attempt is completed. The message that it accepted last closes its response;
    /// without one there is no response.
    pub open spec fn attempt_completed<S: ConversationStore>(
        self,
        store: S,
        wanted: Seq<MessageId>,
        id: AttemptId,
        timestamp: Timestamp,
    ) -> Result<Self, StoreFailure> {
        let evidence = self.evidence(id);
        match evidence.closing {
            None => Ok(self.without(id@)),
            Some(closing) => {
                let origin = ResponseOrigin {
                    conversation_id: store.owner(),
                    attempt_id: id,
                    closing_message_id: closing,
                };
                let counted = FoldModel {
                    processes: with_processes(
                        self.processes,
                        evidence.members,
                        CompletedProcessView { origin, final_message_id: closing },
                    ),
                    statistics: ConversationStatistics {
                        completed_responses: (self.statistics.completed_responses + 1) as u64,
                        ..self.statistics
                    },
                    ..self
                };
                if names(wanted, closing@) {
                    match retry_input(store, evidence.last_request) {
                        Err(failure) => Err(failure),
                        Ok(retry_message_id) => Ok(
                            (FoldModel {
                                completed: with_response(
                                    self.completed,
                                    ProvenanceModel {
                                        process_message_ids: evidence.members,
                                        closing_message_id: closing,
                                        origin,
                                        completed_at: timestamp,
                                        timing: evidence.timing.summary(
                                            evidence.started_at,
                                            timestamp,
                                        ),
                                        retry_message_id,
                                        usage: if evidence.requests > 0 && evidence.requests
                                            == evidence.reports {
                                            evidence.usage
                                        } else {
                                            None
                                        },
                                    },
                                ),
                                ..counted
                            }).without(id@),
                        ),
                    }
                } else {
                    Ok(counted.without(id@))
                }
            },
        }
    }

    /// What one fact of the journal does.
    pub open spec fn with_fact<S: ConversationStore>(
        self,
        store: S,
        wanted: Seq<MessageId>,
        envelope: RuntimeEventEnvelope,
    ) -> Result<Self, StoreFailure> {
        match envelope.attempt_id {
            None => Ok(self),
            Some(id) => {
                let evidence = self.evidence(id);
                match envelope.event {
                    RuntimeEvent::AttemptStarted { .. } => Ok(
                        self.with_evidence(
                            EvidenceModel { started_at: Some(envelope.timestamp), ..evidence },
                        ),
                    ),
                    RuntimeEvent::ModelRequestStarted { request_id, .. } => Ok(
                        (FoldModel {
                            statistics: ConversationStatistics {
                                model_requests: (self.statistics.model_requests + 1) as u64,
                                ..self.statistics
                            },
                            ..self
                        }).with_evidence(
                            EvidenceModel {
                                timing: evidence.timing.started(request_id),
                                last_request: Some(request_id),
                                requests: (evidence.requests + 1) as u64,
                                ..evidence
                            },
                        ),
                    ),
                    RuntimeEvent::ModelRequestCompleted {
                        request_id,
                        usage,
                        generation,
                        ..
                    } => Ok(self.request_ended(id, request_id, usage, generation)),
                    RuntimeEvent::ModelRequestFailed { request_id, usage, generation, .. } => Ok(
                        self.request_ended(id, request_id, usage, generation),
                    ),
                    RuntimeEvent::AssistantMessageCommitted { message_id } => Ok(
                        self.with_evidence(
                            EvidenceModel {
                                members: if names(wanted, message_id@) {
                                    with_member(evidence.members, message_id)
                                } else {
                                    evidence.members
                                },
                                closing: Some(message_id),
                                ..evidence
                            },
                        ),
                    ),
                    RuntimeEvent::AttemptCompleted { finish_reason, .. } => if finish_reason is Stop
                        || finish_reason is Refusal {
                        self.attempt_completed(store, wanted, id, envelope.timestamp)
                    } else {
                        Ok(self.without(id@))
                    },
                    RuntimeEvent::AttemptCancelled { .. }
                    | RuntimeEvent::AttemptFailed { .. }
                    | RuntimeEvent::AttemptTimedOut { .. }
                    | RuntimeEvent::AttemptLimitExceeded { .. } => Ok(self.without(id@)),
                    _ => Ok(self.with_evidence(evidence)),
                }
            },
        }
    }

    /// What facts of the journal do, in their order, up to the first failure.
    pub open spec fn with_facts<S: ConversationStore>(
        self,
        store: S,
        wanted: Seq<MessageId>,
        facts: Seq<Arc<RuntimeEventEnvelope>>,
    ) -> Result<Self, StoreFailure>
        decreases facts.len(),
    {
        if facts.len() == 0 {
            Ok(self)
        } else {
            match self.with_facts(store, wanted, facts.drop_last()) {
                Err(failure) => Err(failure),
                Ok(state) => state.with_fact(store, wanted, *facts.last()),
            }
        }
    }

    /// What the state says when nothing more is read.
    pub open spec fn finished(self) -> ResponseModel {
        ResponseModel {
            completed: self.completed,
            processes: self.processes,
            pending: crate::response::pending_messages(self.attempts),
            statistics: self.statistics,
        }
    }

    /// Whether no count is beyond a number.
    pub open spec fn counts_within(self, bound: int) -> bool {
        &&& self.statistics.completed_responses <= bound
        &&& self.statistics.model_requests <= bound
        &&& self.statistics.requests_with_usage <= bound
        &&& forall|i: int|
            0 <= i < self.attempts.len() ==> (#[trigger] self.attempts[i]).requests <= bound
                && self.attempts[i].reports <= bound
    }
}

/// The state of the fold.
pub struct FoldState {
    attempts: Vec<AttemptEvidence>,
    completed: Vec<CompletedResponseProvenance>,
    processes: Vec<ProcessEntry>,
    statistics: ConversationStatistics,
}

/// The values of what is known of attempts.
spec fn evidence_models(attempts: Seq<AttemptEvidence>) -> Seq<EvidenceModel> {
    Seq::new(attempts.len(), |i: int| attempts[i]@)
}

impl View for FoldState {
    type V = FoldModel;

    closed spec fn view(&self) -> FoldModel {
        FoldModel {
            attempts: evidence_models(self.attempts@),
            completed: crate::store::provenance_models(self.completed@),
            processes: self.processes@,
            statistics: self.statistics,
        }
    }
}

impl Placed for CompletedResponseProvenance {
    open spec fn follows_spec(self, other: Self) -> bool {
        crate::identity::text_precedes(other.closing_message_id@, self.closing_message_id@)
    }

    fn follows(&self, other: &Self) -> (follows: bool) {
        other.closing_message_id.precedes(&self.closing_message_id)
    }
}

/// The place of a response among others.
pub fn response_position(
    responses: &Vec<CompletedResponseProvenance>,
    id: &MessageId,
) -> (position: Option<usize>)
    ensures
        match position {
            Some(position) => position < responses@.len() && crate::search::position(
                crate::store::provenance_models(responses@),
                closes(id@),
            ) == Some(position as int),
            None => crate::search::position(
                crate::store::provenance_models(responses@),
                closes(id@),
            ) is None,
        },
{
    let ghost models = crate::store::provenance_models(responses@);
    let ghost test = closes(id@);
    let mut i: usize = 0;
    while i < responses.len()
        invariant
            i <= responses.len(),
            models == crate::store::provenance_models(responses@),
            test == closes(id@),
            forall|k: int| 0 <= k < i ==> !test(#[trigger] models[k]),
        decreases responses.len() - i,
    {
        if responses[i].closing_message_id.same(id) {
            assert(test(models[i as int]));
            proof {
                crate::search::lemma_position_at(models, test, i as int);
            }
            return Some(i);
        }
        assert(!test(models[i as int]));
        i += 1;
    }
    proof {
        crate::search::lemma_position_none(models, test);
    }
    None
}

/// Files a response under its closing message.
pub fn file_response(
    responses: &mut Vec<CompletedResponseProvenance>,
    response: CompletedResponseProvenance,
)
    ensures
        crate::store::provenance_models(final(responses)@) == with_response(
            crate::store::provenance_models(old(responses)@),
            response@,
        ),
{
    let ghost before = crate::store::provenance_models(responses@);
    match response_position(responses, &response.closing_message_id) {
        Some(index) => {
            responses.set(index, response);
            assert(crate::store::provenance_models(responses@) =~= before.update(
                index as int,
                response@,
            ));
        },
        None => {
            let ghost added = responses@.push(response);
            responses.push(response);
            put_in_order(responses);
            proof {
                let value = |r: CompletedResponseProvenance| r@;
                crate::search::lemma_ordered_values(
                    added,
                    value,
                    crate::search::places::<CompletedResponseProvenance>(),
                    response_order(),
                );
                assert(added.map_values(value) =~= before.push(response@));
                assert(crate::store::provenance_models(responses@) =~= responses@.map_values(
                    value,
                ));
            }
        },
    }
}

/// The place of a message's entry.
pub fn process_position(processes: &Vec<ProcessEntry>, id: &MessageId) -> (position: Option<usize>)
    ensures
        match position {
            Some(position) => position < processes@.len() && crate::search::position(
                processes@,
                is_entry(id@),
            ) == Some(position as int),
            None => crate::search::position(processes@, is_entry(id@)) is None,
        },
{
    let ghost test = is_entry(id@);
    let mut i: usize = 0;
    while i < processes.len()
        invariant
            i <= processes.len(),
            test == is_entry(id@),
            forall|k: int| 0 <= k < i ==> !test(#[trigger] processes@[k]),
        decreases processes.len() - i,
    {
        if processes[i].id.same(id) {
            proof {
                crate::search::lemma_position_at(processes@, test, i as int);
            }
            return Some(i);
        }
        i += 1;
    }
    proof {
        crate::search::lemma_position_none(processes@, test);
    }
    None
}

/// Enters one message of a completed attempt.
pub fn record_process(
    processes: &mut Vec<ProcessEntry>,
    id: &MessageId,
    process: &CompletedProcessView,
)
    ensures
        final(processes)@ == crate::search::upsert(
            old(processes)@,
            is_entry(id@),
            ProcessEntry { id: *id, process: *process },
        ),
{
    let entry = ProcessEntry { id: id.clone(), process: process.clone() };
    match process_position(processes, id) {
        Some(index) => {
            processes.set(index, entry);
        },
        None => {
            processes.push(entry);
        },
    }
}

/// Enters the messages of a completed attempt.
fn record_processes(
    processes: &mut Vec<ProcessEntry>,
    members: &Vec<MessageId>,
    process: &CompletedProcessView,
)
    ensures
        final(processes)@ == with_processes(old(processes)@, members@, *process),
{
    let ghost before = processes@;
    let mut i: usize = 0;
    assert(members@.take(0) =~= Seq::empty());
    while i < members.len()
        invariant
            i <= members.len(),
            processes@ == with_processes(before, members@.take(i as int), *process),
        decreases members.len() - i,
    {
        assert(members@.take(i + 1).drop_last() =~= members@.take(i as int));
        record_process(processes, &members[i], process);
        i += 1;
    }
    assert(members@.take(i as int) =~= members@);
}

/// The last ordinary message of a user in a message sequence.
fn find_last_input(messages: &Vec<Arc<MessageBlock>>) -> (id: Option<MessageId>)
    ensures
        id == last_input(messages@),
{
    let mut end: usize = messages.len();
    assert(messages@.take(end as int) =~= messages@);
    while end > 0
        invariant
            end <= messages@.len(),
            last_input(messages@) == last_input(messages@.take(end as int)),
        decreases end,
    {
        assert(messages@.take(end as int).drop_last() =~= messages@.take(end - 1));
        if let MessageBlock::User(user) = &*messages[end - 1] {
            if let InboundKind::Message = user.kind {
                return Some(user.id.clone());
            }
        }
        end -= 1;
    }
    None
}

/// The input that a response can be tried again from.
fn find_retry_input<S: ConversationStore>(
    store: &S,
    last_request: &Option<RequestId>,
) -> (result: Result<Option<MessageId>, ConversationStoreError>)
    ensures
        match result {
            Ok(id) => retry_input(*store, *last_request) == Ok::<Option<MessageId>, StoreFailure>(
                id,
            ),
            Err(error) => retry_input(*store, *last_request) == Err::<
                Option<MessageId>,
                StoreFailure,
            >(error@),
        },
{
    match last_request {
        None => Ok(None),
        Some(request) => {
            let revision = match store.load_request_surface(request) {
                Ok(revision) => revision,
                Err(error) => {
                    return Err(error);
                },
            };
            match store.load_surface_snapshot(revision) {
                Ok(messages) => Ok(find_last_input(&messages)),
                Err(error) => Err(error),
            }
        },
    }
}

impl FoldState {
    /// A fold that has seen no fact, over responses and entries that are there already.
    pub fn starting(
        completed: Vec<CompletedResponseProvenance>,
        processes: Vec<ProcessEntry>,
    ) -> (state: Self)
        ensures
            state@ == (FoldModel {
                attempts: Seq::empty(),
                completed: crate::store::provenance_models(completed@),
                processes: processes@,
                statistics: ConversationStatistics::none(),
            }),
            state@.counts_within(0),
    {
        let state = FoldState {
            attempts: Vec::new(),
            completed,
            processes,
            statistics: ConversationStatistics::default(),
        };
        assert(state@.attempts =~= Seq::empty());
        state
    }

    /// The place of an attempt.
    fn attempt_index(&self, id: &AttemptId) -> (index: Option<usize>)
        ensures
            match index {
                Some(index) => index < self.attempts@.len() && crate::search::position(
                    self@.attempts,
                    is_attempt(id@),
                ) == Some(index as int),
                None => crate::search::position(self@.attempts, is_attempt(id@)) is None,
            },
    {
        let ghost models = self@.attempts;
        let ghost test = is_attempt(id@);
        let mut i: usize = 0;
        while i < self.attempts.len()
            invariant
                i <= self.attempts@.len(),
                models == self@.attempts,
                test == is_attempt(id@),
                forall|k: int| 0 <= k < i ==> !test(#[trigger] models[k]),
            decreases self.attempts@.len() - i,
        {
            if self.attempts[i].id.same(id) {
                assert(test(models[i as int]));
                proof {
                    crate::search::lemma_position_at(models, test, i as int);
                }
                return Some(i);
            }
            assert(!test(models[i as int]));
            i += 1;
        }
        proof {
            crate::search::lemma_position_none(models, test);
        }
        None
    }

    /// Takes what is known of an attempt out, and gives it with its place.
    fn take_evidence(&mut self, id: &AttemptId) -> (taken: (AttemptEvidence, usize))
        ensures
            taken.0@ == old(self)@.evidence(*id),
            taken.1 <= final(self)@.attempts.len(),
            final(self)@ == old(self)@.without(id@),
            match crate::search::position(old(self)@.attempts, is_attempt(id@)) {
                Some(index) => taken.1 == index,
                None => taken.1 == old(self)@.attempts.len(),
            },
    {
        let ghost before = self@;
        match self.attempt_index(id) {
            Some(index) => {
                let evidence = self.attempts.remove(index);
                assert(self@.attempts =~= before.attempts.remove(index as int));
                (evidence, index)
            },
            None => (AttemptEvidence::none(id.clone()), self.attempts.len()),
        }
    }

    /// Puts what is known of an attempt back at its place.
    fn put_evidence(
        &mut self,
        evidence: AttemptEvidence,
        index: usize,
        before: Ghost<Seq<EvidenceModel>>,
    )
        requires
            index <= old(self)@.attempts.len(),
            match crate::search::position(before@, is_attempt(evidence@.id@)) {
                Some(place) => index == place && 0 <= place < before@.len() && old(self)@.attempts
                    == before@.remove(place),
                None => index == before@.len() && old(self)@.attempts == before@,
            },
        ensures
            final(self)@ == (FoldModel {
                attempts: crate::search::upsert(
                    before@,
                    is_attempt(evidence@.id@),
                    evidence@,
                ),
                ..old(self)@
            }),
    {
        let ghost attempts = self@.attempts;
        self.attempts.insert(index, evidence);
        proof {
            assert(self@.attempts =~= attempts.insert(index as int, evidence@));
            match crate::search::position(before@, is_attempt(evidence@.id@)) {
                Some(place) => {
                    assert(before@.remove(place).insert(place, evidence@) =~= before@.update(
                        place,
                        evidence@,
                    ));
                },
                None => {
                    assert(before@.insert(before@.len() as int, evidence@) =~= before@.push(
                        evidence@,
                    ));
                },
            }
        }
    }

    /// Records the end of a request.
    fn end_request(
        &mut self,
        evidence: &mut AttemptEvidence,
        request_id: &RequestId,
        usage: &Option<ModelUsage>,
        generation: Option<GenerationEvidence>,
    )
        requires
            old(evidence)@.reports < u64::MAX,
            old(self)@.statistics.requests_with_usage < u64::MAX,
        ensures
            final(evidence)@ == (match *usage {
                None => EvidenceModel {
                    timing: old(evidence)@.timing.ended(request_id@, generation, *usage),
                    ..old(evidence)@
                },
                Some(usage) => EvidenceModel {
                    timing: old(evidence)@.timing.ended(request_id@, generation, Some(usage)),
                    reports: (old(evidence)@.reports + 1) as u64,
                    usage: with_usage(old(evidence)@.usage, usage),
                    ..old(evidence)@
                },
            }),
            final(self)@ == (match *usage {
                None => old(self)@,
                Some(usage) => FoldModel {
                    statistics: ConversationStatistics {
                        requests_with_usage: (old(self)@.statistics.requests_with_usage + 1) as u64,
                        reported_usage: with_usage(old(self)@.statistics.reported_usage, usage),
                        ..old(self)@.statistics
                    },
                    ..old(self)@
                },
            }),
    {
        match usage {
            None => {
                evidence.timing.terminal(request_id, generation, None);
            },
            Some(usage) => {
                evidence.timing.terminal(request_id, generation, Some(usage));
                evidence.reports += 1;
                self.statistics.requests_with_usage += 1;
                add_usage(&mut evidence.usage, usage);
                add_usage(&mut self.statistics.reported_usage, usage);
            },
        }
    }

    /// Completes an attempt whose evidence was taken out.
    fn complete_attempt<S: ConversationStore>(
        &mut self,
        store: &S,
        wanted: &Vec<MessageId>,
        id: &AttemptId,
        evidence: AttemptEvidence,
        timestamp: Timestamp,
        before: Ghost<FoldModel>,
    ) -> (result: Result<(), ConversationStoreError>)
        requires
            old(self)@ == before@.without(id@),
            evidence@ == before@.evidence(*id),
            before@.statistics.completed_responses < u64::MAX,
        ensures
            match result {
                Ok(()) => before@.attempt_completed(*store, wanted@, *id, timestamp) == Ok::<
                    FoldModel,
                    StoreFailure,
                >(final(self)@),
                Err(error) => before@.attempt_completed(*store, wanted@, *id, timestamp) == Err::<
                    FoldModel,
                    StoreFailure,
                >(error@),
            },
    {
        let closing = match &evidence.closing {
            Some(closing) => closing.clone(),
            None => {
                return Ok(());
            },
        };
        self.statistics.completed_responses += 1;
        let origin = ResponseOrigin {
            conversation_id: store.conversation_id().clone(),
            attempt_id: id.clone(),
            closing_message_id: closing.clone(),
        };
        let process = CompletedProcessView {
            origin: origin.clone(),
            final_message_id: closing.clone(),
        };
        record_processes(&mut self.processes, &evidence.members, &process);
        if is_named(wanted, &closing) {
            let retry_message_id = match find_retry_input(store, &evidence.last_request) {
                Ok(id) => id,
                Err(error) => {
                    return Err(error);
                },
            };
            let timing = evidence.timing.summary(evidence.started_at, timestamp);
            let usage = if evidence.requests > 0 && evidence.requests == evidence.reports {
                evidence.usage
            } else {
                None
            };
            file_response(
                &mut self.completed,
                CompletedResponseProvenance {
                    process_message_ids: evidence.members,
                    closing_message_id: closing,
                    origin,
                    completed_at: timestamp,
                    timing,
                    retry_message_id,
                    usage,
                },
            );
        }
        Ok(())
    }

    /// Folds one fact of the journal.
    ///
    /// The place of a fact bounds how many facts came before it, so no count can leave
    /// its range.
    pub fn fold_fact<S: ConversationStore>(
        &mut self,
        store: &S,
        wanted: &Vec<MessageId>,
        envelope: &RuntimeEventEnvelope,
    ) -> (result: Result<(), ConversationStoreError>)
        requires
            old(self)@.counts_within(envelope.sequence - 1),
        ensures
            match result {
                Ok(()) => old(self)@.with_fact(*store, wanted@, *envelope) == Ok::<
                    FoldModel,
                    StoreFailure,
                >(final(self)@) && final(self)@.counts_within(envelope.sequence as int),
                Err(error) => old(self)@.with_fact(*store, wanted@, *envelope) == Err::<
                    FoldModel,
                    StoreFailure,
                >(error@),
            },
    {
        let ghost before = self@;
        let id = match &envelope.attempt_id {
            Some(id) => id,
            None => {
                return Ok(());
            },
        };
        let (taken, index) = self.take_evidence(id);
        let mut evidence = taken;
        proof {
            crate::search::lemma_position(before.attempts, is_attempt(id@));
        }
        let ghost known = evidence@;
        assert(known.requests <= envelope.sequence - 1 && known.reports <= envelope.sequence - 1);
        match &envelope.event {
            RuntimeEvent::AttemptStarted { .. } => {
                evidence.started_at = Some(envelope.timestamp);
            },
            RuntimeEvent::ModelRequestStarted { request_id, .. } => {
                evidence.timing.start(request_id.clone());
                evidence.last_request = Some(request_id.clone());
                evidence.requests += 1;
                self.statistics.model_requests += 1;
            },
            RuntimeEvent::ModelRequestCompleted { request_id, usage, generation, .. } => {
                self.end_request(&mut evidence, request_id, usage, *generation);
            },
            RuntimeEvent::ModelRequestFailed { request_id, usage, generation, .. } => {
                self.end_request(&mut evidence, request_id, usage, *generation);
            },
            RuntimeEvent::AssistantMessageCommitted { message_id } => {
                if is_named(wanted, message_id) {
                    add_member(&mut evidence.members, message_id);
                }
                evidence.closing = Some(message_id.clone());
            },
            RuntimeEvent::AttemptCompleted { finish_reason, .. } => {
                let closes = match finish_reason {
                    ModelFinishReason::Stop | ModelFinishReason::Refusal => true,
                    _ => false,
                };
                if closes {
                    return self.complete_attempt(
                        store,
                        wanted,
                        id,
                        evidence,
                        envelope.timestamp,
                        Ghost(before),
                    );
                }
                return Ok(());
            },
            RuntimeEvent::AttemptCancelled { .. }
            | RuntimeEvent::AttemptFailed { .. }
            | RuntimeEvent::AttemptTimedOut { .. }
            | RuntimeEvent::AttemptLimitExceeded { .. } => {
                return Ok(());
            },
            _ => {},
        }
        self.put_evidence(evidence, index, Ghost(before.attempts));
        Ok(())
    }

    /// What the fold says when nothing more is read.
    pub fn finish(self) -> (projection: ResponseProjection)
        ensures
            projection@ == self@.finished(),
    {
        let pending = self.pending();
        ResponseProjection {
            completed: self.completed,
            processes: self.processes,
            pending,
            statistics: self.statistics,
        }
    }

    /// The messages of the attempts that have not ended.
    fn pending(&self) -> (pending: Vec<MessageId>)
        ensures
            pending@ == crate::response::pending_messages(self@.attempts),
    {
        let ghost models = self@.attempts;
        let mut pending: Vec<MessageId> = Vec::new();
        let mut i: usize = 0;
        assert(models.take(0) =~= Seq::empty());
        while i < self.attempts.len()
            invariant
                i <= self.attempts@.len(),
                models == self@.attempts,
                pending@ == crate::response::pending_messages(models.take(i as int)),
            decreases self.attempts@.len() - i,
        {
            proof {
                assert(models.take(i + 1).drop_last() =~= models.take(i as int));
                assert(models.take(i + 1).last() == self.attempts@[i as int]@);
            }
            let mut members = self.attempts[i].members.clone();
            assert(members@ =~= self.attempts@[i as int].members@);
            pending.append(&mut members);
            i += 1;
        }
        assert(models.take(i as int) =~= models);
        pending
    }
}

} // verus!
