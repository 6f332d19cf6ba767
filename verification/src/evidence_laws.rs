//! Laws of evidence: what the facts of a journal add up to.
use std::sync::Arc;

use vstd::prelude::*;

#[allow(unused_imports)]
use crate::clock::Timestamp;
#[allow(unused_imports)]
use crate::evidence::{EvidenceModel, FoldModel};
#[allow(unused_imports)]
use crate::identity::{AttemptId, MessageId, RequestId};
#[allow(unused_imports)]
use crate::journal::{RuntimeEvent, RuntimeEventEnvelope};
#[allow(unused_imports)]
use crate::message::{InboundKind, MessageBlock};
#[allow(unused_imports)]
use crate::model::ModelUsage;
#[allow(unused_imports)]
use crate::response::{CompletedProcessView, ConversationStatistics, ResponseOrigin};
#[allow(unused_imports)]
use crate::store::{ConversationStore, ProvenanceModel, StoreFailure};
#[allow(unused_imports)]
use crate::timing::TimingModel;

verus! {

/// The usage that a fact reports: the end of a model request reports one, or none.
pub open spec fn usage_in(event: RuntimeEvent) -> Option<ModelUsage> {
    match event {
        RuntimeEvent::ModelRequestCompleted { usage, .. } => usage,
        RuntimeEvent::ModelRequestFailed { usage, .. } => usage,
        _ => None,
    }
}

/// The usages that facts report, in their order. A fact of no attempt reports none.
pub open spec fn reports_in(facts: Seq<Arc<RuntimeEventEnvelope>>) -> Seq<ModelUsage>
    decreases facts.len(),
{
    if facts.len() == 0 {
        Seq::empty()
    } else {
        let before = reports_in(facts.drop_last());
        match (facts.last().attempt_id, usage_in(facts.last().event)) {
            (Some(_), Some(usage)) => before.push(usage),
            _ => before,
        }
    }
}

/// How many model requests facts start. A fact of no attempt starts none.
pub open spec fn requests_in(facts: Seq<Arc<RuntimeEventEnvelope>>) -> nat
    decreases facts.len(),
{
    if facts.len() == 0 {
        0
    } else {
        requests_in(facts.drop_last()) + if facts.last().attempt_id is Some
            && facts.last().event is ModelRequestStarted {
            1nat
        } else {
            0
        }
    }
}

pub(crate) proof fn lemma_counts_are_bounded(facts: Seq<Arc<RuntimeEventEnvelope>>)
    ensures
        reports_in(facts).len() <= facts.len(),
        requests_in(facts) <= facts.len(),
    decreases facts.len(),
{
    if facts.len() > 0 {
        lemma_counts_are_bounded(facts.drop_last());
    }
}

/// A state of the fold that has read nothing: no attempt is known and nothing is counted.
pub open spec fn has_read_nothing(state: FoldModel) -> bool {
    state.attempts.len() == 0 && state.statistics == ConversationStatistics {
        completed_responses: 0,
        model_requests: 0,
        requests_with_usage: 0,
        reported_usage: None,
    }
}

/// The totals of a conversation are those of its facts: as many model requests as were
/// started, as many reports of usage as there are, and together what these reports add up to.
pub proof fn law_totals_add_up_the_facts<S: ConversationStore>(
    store: S,
    wanted: Seq<MessageId>,
    state: FoldModel,
    facts: Seq<Arc<RuntimeEventEnvelope>>,
)
    requires
        has_read_nothing(state),
        facts.len() <= u64::MAX,
        state.with_facts(store, wanted, facts) is Ok,
    ensures
        ({
            let statistics = state.with_facts(store, wanted, facts)->Ok_0.statistics;
            &&& statistics.model_requests == requests_in(facts)
            &&& statistics.requests_with_usage == reports_in(facts).len()
            &&& statistics.reported_usage == crate::response_laws::usage_of(reports_in(facts))
        }),
    decreases facts.len(),
{
    lemma_counts_are_bounded(facts);
    if facts.len() > 0 {
        let front = facts.drop_last();
        law_totals_add_up_the_facts(store, wanted, state, front);
        lemma_counts_are_bounded(front);
        lemma_one_more_report(reports_in(front));
    }
}

proof fn lemma_one_more_report(reports: Seq<ModelUsage>)
    ensures
        forall|usage: ModelUsage|
            #![trigger reports.push(usage)]
            crate::response_laws::usage_of(reports.push(usage)) == crate::evidence::with_usage(
                crate::response_laws::usage_of(reports),
                usage,
            ),
{
    assert forall|usage: ModelUsage|
        #![trigger reports.push(usage)]
        crate::response_laws::usage_of(reports.push(usage)) == crate::evidence::with_usage(
            crate::response_laws::usage_of(reports),
            usage,
        ) by {
        assert(reports.push(usage).drop_last() =~= reports);
    }
}

/// Whether a fact belongs to an attempt.
pub open spec fn is_of(envelope: Arc<RuntimeEventEnvelope>, id: Seq<char>) -> bool {
    envelope.attempt_id matches Some(attempt) && attempt@ == id
}

/// Whether a fact is the end of an attempt.
pub open spec fn is_the_end_of(envelope: Arc<RuntimeEventEnvelope>, id: Seq<char>) -> bool {
    is_of(envelope, id) && crate::fold_laws::is_end(envelope.event)
}

/// The facts of one attempt, without those that an earlier end of it put away.
pub open spec fn facts_of(facts: Seq<Arc<RuntimeEventEnvelope>>, id: Seq<char>) -> Seq<
    Arc<RuntimeEventEnvelope>,
>
    decreases facts.len(),
{
    if facts.len() == 0 || is_the_end_of(facts.last(), id) {
        Seq::empty()
    } else if is_of(facts.last(), id) {
        facts_of(facts.drop_last(), id).push(facts.last())
    } else {
        facts_of(facts.drop_last(), id)
    }
}

/// When an attempt started, by its facts.
pub open spec fn start_in(facts: Seq<Arc<RuntimeEventEnvelope>>) -> Option<Timestamp>
    decreases facts.len(),
{
    if facts.len() == 0 {
        None
    } else if facts.last().event is AttemptStarted {
        Some(facts.last().timestamp)
    } else {
        start_in(facts.drop_last())
    }
}

/// The message that was accepted last, by facts.
pub open spec fn last_message_in(facts: Seq<Arc<RuntimeEventEnvelope>>) -> Option<MessageId>
    decreases facts.len(),
{
    if facts.len() == 0 {
        None
    } else {
        match facts.last().event {
            RuntimeEvent::AssistantMessageCommitted { message_id } => Some(message_id),
            _ => last_message_in(facts.drop_last()),
        }
    }
}

/// The model request that was started last, by facts.
pub open spec fn last_request_in(facts: Seq<Arc<RuntimeEventEnvelope>>) -> Option<RequestId>
    decreases facts.len(),
{
    if facts.len() == 0 {
        None
    } else {
        match facts.last().event {
            RuntimeEvent::ModelRequestStarted { request_id, .. } => Some(request_id),
            _ => last_request_in(facts.drop_last()),
        }
    }
}

/// Whether a message was accepted, by facts.
pub open spec fn is_accepted_in(facts: Seq<Arc<RuntimeEventEnvelope>>, id: Seq<char>) -> bool {
    exists|i: int|
        0 <= i < facts.len() && ((#[trigger] facts[i]).event matches
            RuntimeEvent::AssistantMessageCommitted { message_id } && message_id@ == id)
}

/// The requests of an attempt, by its facts, as their time is measured.
pub open spec fn timing_in(facts: Seq<Arc<RuntimeEventEnvelope>>) -> TimingModel
    decreases facts.len(),
{
    if facts.len() == 0 {
        TimingModel::none()
    } else {
        let before = timing_in(facts.drop_last());
        match facts.last().event {
            RuntimeEvent::ModelRequestStarted { request_id, .. } => before.started(request_id),
            RuntimeEvent::ModelRequestCompleted {
                request_id,
                usage,
                generation,
                ..
            } => before.ended(request_id@, generation, usage),
            RuntimeEvent::ModelRequestFailed {
                request_id,
                usage,
                generation,
                ..
            } => before.ended(request_id@, generation, usage),
            _ => before,
        }
    }
}

/// Whether evidence is what the facts of an attempt say, of the messages that were asked for.
pub open spec fn is_evidence_of(
    evidence: EvidenceModel,
    facts: Seq<Arc<RuntimeEventEnvelope>>,
    wanted: Seq<MessageId>,
) -> bool {
    &&& evidence.started_at == start_in(facts)
    &&& evidence.closing == last_message_in(facts)
    &&& evidence.last_request == last_request_in(facts)
    &&& evidence.requests == requests_in(facts)
    &&& evidence.reports == reports_in(facts).len()
    &&& evidence.usage == crate::response_laws::usage_of(reports_in(facts))
    &&& evidence.timing == timing_in(facts)
    &&& forall|id: Seq<char>|
        #![trigger crate::evidence::names(evidence.members, id)]
        crate::evidence::names(evidence.members, id) <==> crate::evidence::names(wanted, id)
            && is_accepted_in(facts, id)
}

proof fn lemma_evidence_of_another(state: FoldModel, evidence: EvidenceModel, id: AttemptId)
    requires
        evidence.id@ != id@,
    ensures
        state.with_evidence(evidence).evidence(id) == state.evidence(id),
{
    let own = crate::evidence::is_attempt(evidence.id@);
    let asked = crate::evidence::is_attempt(id@);
    crate::search::lemma_position(state.attempts, own);
    match crate::search::position(state.attempts, own) {
        Some(index) => {
            crate::page_laws::lemma_first_of_update(state.attempts, index, evidence, asked);
        },
        None => {
            crate::page_laws::lemma_first_of_push(state.attempts, evidence, asked);
        },
    }
    lemma_first_evidence(state, id);
    lemma_first_evidence(state.with_evidence(evidence), id);
}

proof fn lemma_first_evidence(state: FoldModel, id: AttemptId)
    ensures
        state.evidence(id) == match crate::page_laws::first(
            state.attempts,
            crate::evidence::is_attempt(id@),
        ) {
            Some(evidence) => evidence,
            None => EvidenceModel::none(id),
        },
{
}

proof fn lemma_evidence_of_its_own(state: FoldModel, evidence: EvidenceModel, id: AttemptId)
    requires
        evidence.id@ == id@,
    ensures
        state.with_evidence(evidence).evidence(id) == evidence,
{
    let own = crate::evidence::is_attempt(id@);
    let after = state.with_evidence(evidence).attempts;
    crate::search::lemma_position(state.attempts, own);
    match crate::search::position(state.attempts, own) {
        Some(index) => {
            assert forall|i: int| 0 <= i < index implies !own(#[trigger] after[i]) by {
                assert(!own(state.attempts[i]));
            }
            crate::search::lemma_position_at(after, own, index);
        },
        None => {
            assert forall|i: int| 0 <= i < state.attempts.len() implies !own(
                #[trigger] after[i],
            ) by {
                assert(!own(state.attempts[i]));
            }
            crate::search::lemma_position_at(after, own, state.attempts.len() as int);
        },
    }
}

proof fn lemma_end_of_another(state: FoldModel, ended: Seq<char>, id: AttemptId)
    requires
        ended != id@,
    ensures
        state.without(ended).evidence(id) == state.evidence(id),
{
    let own = crate::evidence::is_attempt(ended);
    let asked = crate::evidence::is_attempt(id@);
    crate::search::lemma_position(state.attempts, own);
    if let Some(index) = crate::search::position(state.attempts, own) {
        crate::page_laws::lemma_first_of_remove(state.attempts, index, asked);
    }
    lemma_first_evidence(state, id);
    lemma_first_evidence(state.without(ended), id);
}

proof fn lemma_fact_of_another<S: ConversationStore>(
    store: S,
    wanted: Seq<MessageId>,
    state: FoldModel,
    after: FoldModel,
    envelope: Arc<RuntimeEventEnvelope>,
    id: AttemptId,
)
    requires
        !is_of(envelope, id@),
        state.with_fact(store, wanted, *envelope) == Ok::<FoldModel, StoreFailure>(after),
    ensures
        after.evidence(id) == state.evidence(id),
{
    if let Some(attempt) = envelope.attempt_id {
        let known = state.evidence(attempt);
        crate::search::lemma_position(state.attempts, crate::evidence::is_attempt(attempt@));
        assert(known.id@ == attempt@);
        if after.attempts == state.without(attempt@).attempts {
            lemma_end_of_another(state, attempt@, id);
            lemma_first_evidence(state.without(attempt@), id);
            lemma_first_evidence(after, id);
        } else {
            let changed = after.evidence(attempt);
            lemma_changed_evidence(store, wanted, state, after, envelope, attempt);
            lemma_evidence_of_another(state, changed, id);
            lemma_first_evidence(state.with_evidence(changed), id);
            lemma_first_evidence(after, id);
        }
    }
}

/// A fact that does not end its attempt changes the evidence of that attempt alone.
proof fn lemma_changed_evidence<S: ConversationStore>(
    store: S,
    wanted: Seq<MessageId>,
    state: FoldModel,
    after: FoldModel,
    envelope: Arc<RuntimeEventEnvelope>,
    attempt: AttemptId,
)
    requires
        envelope.attempt_id == Some(attempt),
        state.with_fact(store, wanted, *envelope) == Ok::<FoldModel, StoreFailure>(after),
        after.attempts != state.without(attempt@).attempts,
    ensures
        after.evidence(attempt).id@ == attempt@,
        after.attempts == state.with_evidence(after.evidence(attempt)).attempts,
{
    let known = state.evidence(attempt);
    crate::search::lemma_position(state.attempts, crate::evidence::is_attempt(attempt@));
    assert(known.id@ == attempt@);
    match envelope.event {
        RuntimeEvent::AttemptStarted { .. } => {
            let changed = EvidenceModel { started_at: Some(envelope.timestamp), ..known };
            lemma_evidence_of_its_own(state, changed, attempt);
        },
        RuntimeEvent::ModelRequestStarted { request_id, .. } => {
            let changed = EvidenceModel {
                timing: known.timing.started(request_id),
                last_request: Some(request_id),
                requests: (known.requests + 1) as u64,
                ..known
            };
            lemma_evidence_of_its_own(state, changed, attempt);
            lemma_first_evidence(state.with_evidence(changed), attempt);
            lemma_first_evidence(after, attempt);
        },
        RuntimeEvent::ModelRequestCompleted { request_id, usage, generation, .. } => {
            lemma_ended_request(state, attempt, request_id, usage, generation);
        },
        RuntimeEvent::ModelRequestFailed { request_id, usage, generation, .. } => {
            lemma_ended_request(state, attempt, request_id, usage, generation);
        },
        RuntimeEvent::AssistantMessageCommitted { message_id } => {
            let changed = EvidenceModel {
                members: if crate::evidence::names(wanted, message_id@) {
                    crate::evidence::with_member(known.members, message_id)
                } else {
                    known.members
                },
                closing: Some(message_id),
                ..known
            };
            lemma_evidence_of_its_own(state, changed, attempt);
        },
        _ => {
            lemma_evidence_of_its_own(state, known, attempt);
        },
    }
}

proof fn lemma_ended_request(
    state: FoldModel,
    attempt: AttemptId,
    request_id: RequestId,
    usage: Option<ModelUsage>,
    generation: Option<crate::model::GenerationEvidence>,
)
    ensures
        ({
            let after = state.request_ended(attempt, request_id, usage, generation);
            let known = state.evidence(attempt);
            &&& after.attempts == state.with_evidence(after.evidence(attempt)).attempts
            &&& after.evidence(attempt) == match usage {
                None => EvidenceModel {
                    timing: known.timing.ended(request_id@, generation, usage),
                    ..known
                },
                Some(report) => EvidenceModel {
                    timing: known.timing.ended(request_id@, generation, usage),
                    reports: (known.reports + 1) as u64,
                    usage: crate::evidence::with_usage(known.usage, report),
                    ..known
                },
            }
            &&& after.evidence(attempt).id@ == attempt@
        }),
{
    let known = state.evidence(attempt);
    crate::search::lemma_position(state.attempts, crate::evidence::is_attempt(attempt@));
    assert(known.id@ == attempt@);
    let changed = match usage {
        None => EvidenceModel {
            timing: known.timing.ended(request_id@, generation, usage),
            ..known
        },
        Some(report) => EvidenceModel {
            timing: known.timing.ended(request_id@, generation, usage),
            reports: (known.reports + 1) as u64,
            usage: crate::evidence::with_usage(known.usage, report),
            ..known
        },
    };
    lemma_evidence_of_its_own(state, changed, attempt);
    let after = state.request_ended(attempt, request_id, usage, generation);
    lemma_first_evidence(state.with_evidence(changed), attempt);
    lemma_first_evidence(after, attempt);
}

/// Whether there is evidence of each attempt once.
pub open spec fn one_each(attempts: Seq<EvidenceModel>) -> bool {
    forall|i: int, j: int|
        0 <= i < j < attempts.len() ==> (#[trigger] attempts[i]).id@ != (#[trigger] attempts[j]).id@
}

proof fn lemma_one_each<S: ConversationStore>(
    store: S,
    wanted: Seq<MessageId>,
    state: FoldModel,
    after: FoldModel,
    envelope: Arc<RuntimeEventEnvelope>,
)
    requires
        one_each(state.attempts),
        state.with_fact(store, wanted, *envelope) == Ok::<FoldModel, StoreFailure>(after),
    ensures
        one_each(after.attempts),
{
    if let Some(attempt) = envelope.attempt_id {
        let own = crate::evidence::is_attempt(attempt@);
        crate::search::lemma_position(state.attempts, own);
        if after.attempts != state.without(attempt@).attempts {
            lemma_changed_evidence(store, wanted, state, after, envelope, attempt);
        }
    }
}

proof fn lemma_end_of_its_own(state: FoldModel, id: AttemptId)
    requires
        one_each(state.attempts),
    ensures
        state.without(id@).evidence(id) == EvidenceModel::none(id),
{
    let own = crate::evidence::is_attempt(id@);
    crate::search::lemma_position(state.attempts, own);
    let after = state.without(id@).attempts;
    match crate::search::position(state.attempts, own) {
        Some(index) => {
            assert forall|i: int| 0 <= i < after.len() implies !own(#[trigger] after[i]) by {
                if i < index {
                    assert(after[i] == state.attempts[i]);
                } else {
                    assert(after[i] == state.attempts[i + 1]);
                }
            }
        },
        None => {},
    }
    crate::search::lemma_position_none(after, own);
}

pub(crate) proof fn lemma_evidence_by_its_text(state: FoldModel, a: AttemptId, b: AttemptId)
    requires
        a@ == b@,
    ensures
        (EvidenceModel { id: b, ..state.evidence(a) }) == (EvidenceModel {
            id: b,
            ..state.evidence(b)
        }),
{
}

proof fn lemma_fact_of_its_own<S: ConversationStore>(
    store: S,
    wanted: Seq<MessageId>,
    state: FoldModel,
    after: FoldModel,
    envelope: Arc<RuntimeEventEnvelope>,
    attempt: AttemptId,
    facts: Seq<Arc<RuntimeEventEnvelope>>,
)
    requires
        envelope.attempt_id == Some(attempt),
        !crate::fold_laws::is_end(envelope.event),
        state.with_fact(store, wanted, *envelope) == Ok::<FoldModel, StoreFailure>(after),
        is_evidence_of(state.evidence(attempt), facts, wanted),
        forall|i: int| 0 <= i < facts.len() ==> (#[trigger] facts[i]).attempt_id is Some,
        facts.len() < u64::MAX,
    ensures
        is_evidence_of(after.evidence(attempt), facts.push(envelope), wanted),
{
    let known = state.evidence(attempt);
    let more = facts.push(envelope);
    assert(more.drop_last() =~= facts);
    lemma_counts_are_bounded(facts);
    lemma_one_more_report(reports_in(facts));
    crate::search::lemma_position(state.attempts, crate::evidence::is_attempt(attempt@));
    assert(known.id@ == attempt@);
    lemma_accepted_in_more(facts, envelope);
    match envelope.event {
        RuntimeEvent::AttemptStarted { .. } => {
            let changed = EvidenceModel { started_at: Some(envelope.timestamp), ..known };
            lemma_evidence_of_its_own(state, changed, attempt);
        },
        RuntimeEvent::ModelRequestStarted { request_id, .. } => {
            let changed = EvidenceModel {
                timing: known.timing.started(request_id),
                last_request: Some(request_id),
                requests: (known.requests + 1) as u64,
                ..known
            };
            lemma_evidence_of_its_own(state, changed, attempt);
            lemma_first_evidence(state.with_evidence(changed), attempt);
            lemma_first_evidence(after, attempt);
        },
        RuntimeEvent::ModelRequestCompleted { request_id, usage, generation, .. } => {
            lemma_ended_request(state, attempt, request_id, usage, generation);
        },
        RuntimeEvent::ModelRequestFailed { request_id, usage, generation, .. } => {
            lemma_ended_request(state, attempt, request_id, usage, generation);
        },
        RuntimeEvent::AssistantMessageCommitted { message_id } => {
            let changed = EvidenceModel {
                members: if crate::evidence::names(wanted, message_id@) {
                    crate::evidence::with_member(known.members, message_id)
                } else {
                    known.members
                },
                closing: Some(message_id),
                ..known
            };
            lemma_evidence_of_its_own(state, changed, attempt);
            assert forall|id: Seq<char>|
                #![trigger crate::evidence::names(changed.members, id)]
                crate::evidence::names(changed.members, id) <==> crate::evidence::names(
                    wanted,
                    id,
                ) && is_accepted_in(more, id) by {
                crate::page_laws::lemma_member_names(known.members, message_id, id);
                assert(crate::evidence::names(known.members, id) <==> crate::evidence::names(
                    wanted,
                    id,
                ) && is_accepted_in(facts, id));
            }
        },
        _ => {
            lemma_evidence_of_its_own(state, known, attempt);
        },
    }
}

pub(crate) proof fn lemma_accepted_in_more(
    facts: Seq<Arc<RuntimeEventEnvelope>>,
    envelope: Arc<RuntimeEventEnvelope>,
)
    ensures
        forall|id: Seq<char>|
            #![trigger is_accepted_in(facts.push(envelope), id)]
            is_accepted_in(facts.push(envelope), id) <==> is_accepted_in(facts, id) || (
            match envelope.event {
                RuntimeEvent::AssistantMessageCommitted { message_id } => message_id@ == id,
                _ => false,
            }),
{
    let more = facts.push(envelope);
    assert forall|id: Seq<char>|
        #![trigger is_accepted_in(more, id)]
        is_accepted_in(more, id) <==> is_accepted_in(facts, id) || (match envelope.event {
            RuntimeEvent::AssistantMessageCommitted { message_id } => message_id@ == id,
            _ => false,
        }) by {
        if is_accepted_in(facts, id) {
            let i = choose|i: int|
                0 <= i < facts.len() && ((#[trigger] facts[i]).event matches
                    RuntimeEvent::AssistantMessageCommitted { message_id } && message_id@ == id);
            assert(more[i] == facts[i]);
        }
        assert(more[facts.len() as int] == envelope);
        if is_accepted_in(more, id) && !is_accepted_in(facts, id) {
            let i = choose|i: int|
                0 <= i < more.len() && ((#[trigger] more[i]).event matches
                    RuntimeEvent::AssistantMessageCommitted { message_id } && message_id@ == id);
            if i < facts.len() {
                assert(more[i] == facts[i]);
            }
        }
    }
}

proof fn lemma_facts_of_are_its_own(facts: Seq<Arc<RuntimeEventEnvelope>>, id: Seq<char>)
    ensures
        facts_of(facts, id).len() <= facts.len(),
        forall|i: int|
            0 <= i < facts_of(facts, id).len() ==> is_of(#[trigger] facts_of(facts, id)[i], id),
    decreases facts.len(),
{
    if facts.len() > 0 {
        lemma_facts_of_are_its_own(facts.drop_last(), id);
    }
}

/// What is known of an attempt is what its own facts say since it last ended: when it started,
/// the message that it committed last, the request that it made last, how many requests it
/// made and how many reported their usage, what they used together, how long they took, and
/// which of the messages asked for it committed. No fact of another attempt changes it.
pub proof fn law_evidence_is_what_the_facts_of_an_attempt_say<S: ConversationStore>(
    store: S,
    wanted: Seq<MessageId>,
    state: FoldModel,
    facts: Seq<Arc<RuntimeEventEnvelope>>,
    id: AttemptId,
)
    requires
        has_read_nothing(state),
        facts.len() <= u64::MAX,
        state.with_facts(store, wanted, facts) is Ok,
    ensures
        ({
            let after = state.with_facts(store, wanted, facts)->Ok_0;
            &&& one_each(after.attempts)
            &&& is_evidence_of(after.evidence(id), facts_of(facts, id@), wanted)
        }),
    decreases facts.len(),
{
    if facts.len() == 0 {
        crate::search::lemma_position_none(state.attempts, crate::evidence::is_attempt(id@));
    } else {
        let front = facts.drop_last();
        law_evidence_is_what_the_facts_of_an_attempt_say(store, wanted, state, front, id);
        lemma_facts_of_are_its_own(front, id@);
        let before = state.with_facts(store, wanted, front)->Ok_0;
        let after = state.with_facts(store, wanted, facts)->Ok_0;
        let envelope = facts.last();
        lemma_one_each(store, wanted, before, after, envelope);
        match envelope.attempt_id {
            Some(attempt) => if attempt@ != id@ {
                lemma_fact_of_another(store, wanted, before, after, envelope, id);
            } else {
                lemma_evidence_by_its_text(before, attempt, id);
                lemma_evidence_by_its_text(after, attempt, id);
                if is_the_end_of(envelope, id@) {
                    lemma_end_of_its_own(before, id);
                    lemma_first_evidence(before.without(id@), id);
                    lemma_first_evidence(after, id);
                } else {
                    lemma_fact_of_its_own(
                        store,
                        wanted,
                        before,
                        after,
                        envelope,
                        attempt,
                        facts_of(front, id@),
                    );
                }
            },
            None => {},
        }
    }
}

/// The input of a request is the last message of the user that is an ordinary one, among the
/// messages that the request saw.
pub proof fn law_the_input_is_the_last_ordinary_message(messages: Seq<Arc<MessageBlock>>)
    ensures
        match crate::evidence::last_input(messages) {
            Some(id) => exists|i: int|
                0 <= i < messages.len() && (*(#[trigger] messages[i]) matches MessageBlock::User(
                    user,
                ) && user.kind == InboundKind::Message && user.id == id) && (forall|j: int|
                    i < j < messages.len() ==> !(*(#[trigger] messages[j]) matches
                        MessageBlock::User(user) && user.kind == InboundKind::Message)),
            None => forall|j: int|
                0 <= j < messages.len() ==> !(*(#[trigger] messages[j]) matches MessageBlock::User(
                    user,
                ) && user.kind == InboundKind::Message),
        },
    decreases messages.len(),
{
    if messages.len() > 0 {
        let front = messages.drop_last();
        law_the_input_is_the_last_ordinary_message(front);
        let last = messages.len() - 1;
        assert(messages[last] == messages.last());
        assert(forall|j: int| 0 <= j < front.len() ==> #[trigger] messages[j] == front[j]);
        if !(*messages.last() matches MessageBlock::User(user) && user.kind
            == InboundKind::Message) {
            if let Some(id) = crate::evidence::last_input(front) {
                let i = choose|i: int|
                    0 <= i < front.len() && (*(#[trigger] front[i]) matches MessageBlock::User(
                        user,
                    ) && user.kind == InboundKind::Message && user.id == id) && (forall|j: int|
                        i < j < front.len() ==> !(*(#[trigger] front[j]) matches
                            MessageBlock::User(user) && user.kind == InboundKind::Message));
                assert(messages[i] == front[i]);
            }
        }
    }
}

/// Whether an end makes a response complete: the model stopped by itself, or refused.
pub open spec fn completes(event: RuntimeEvent) -> bool {
    event matches RuntimeEvent::AttemptCompleted { finish_reason, .. } && (finish_reason is Stop
        || finish_reason is Refusal)
}

/// An attempt that completes closes one response, at the message that it committed last. The
/// count of responses goes up by one and no other count moves. Where that message was asked
/// for, the response is filed at it, with where it comes from, when it was completed, how long
/// it took, the messages that led up to it, what it used if every request said so, and the
/// input that its last request saw. Each of these messages is then of a completed process that
/// ends at the closing message. An attempt that committed no message closes nothing.
pub proof fn law_a_completed_attempt_closes_its_response<S: ConversationStore>(
    store: S,
    wanted: Seq<MessageId>,
    state: FoldModel,
    after: FoldModel,
    envelope: Arc<RuntimeEventEnvelope>,
    id: AttemptId,
)
    requires
        envelope.attempt_id == Some(id),
        completes(envelope.event),
        state.statistics.completed_responses < u64::MAX,
        crate::search::apart(state.completed, crate::response_laws::closes_another()),
        state.with_fact(store, wanted, *envelope) == Ok::<FoldModel, StoreFailure>(after),
    ensures
        ({
            let evidence = state.evidence(id);
            match evidence.closing {
                None => {
                    &&& after.completed == state.completed
                    &&& after.processes == state.processes
                    &&& after.statistics == state.statistics
                },
                Some(closing) => {
                    let origin = ResponseOrigin {
                        conversation_id: store.owner(),
                        attempt_id: id,
                        closing_message_id: closing,
                    };
                    &&& after.statistics.completed_responses
                        == state.statistics.completed_responses + 1
                    &&& after.statistics.model_requests == state.statistics.model_requests
                    &&& after.statistics.requests_with_usage
                        == state.statistics.requests_with_usage
                    &&& after.statistics.reported_usage == state.statistics.reported_usage
                    &&& forall|member: Seq<char>|
                        #![trigger crate::page_laws::process_in(after.processes, member)]
                        crate::page_laws::process_in(after.processes, member)
                            == if crate::evidence::names(evidence.members, member) {
                            Some(CompletedProcessView { origin, final_message_id: closing })
                        } else {
                            crate::page_laws::process_in(state.processes, member)
                        }
                    &&& !crate::evidence::names(wanted, closing@) ==> after.completed
                        == state.completed
                    &&& crate::evidence::names(wanted, closing@) ==> {
                        let filed = crate::page_laws::first(
                            after.completed,
                            crate::evidence::closes(closing@),
                        );
                        &&& filed is Some
                        &&& filed->Some_0.closing_message_id == closing
                        &&& filed->Some_0.process_message_ids == evidence.members
                        &&& filed->Some_0.origin == origin
                        &&& filed->Some_0.completed_at == envelope.timestamp
                        &&& filed->Some_0.timing == evidence.timing.summary(
                            evidence.started_at,
                            envelope.timestamp,
                        )
                        &&& filed->Some_0.usage is Some ==> evidence.requests > 0
                            && evidence.requests == evidence.reports
                        &&& evidence.requests > 0 && evidence.requests == evidence.reports
                            ==> filed->Some_0.usage == evidence.usage
                        &&& filed->Some_0.retry_message_id == match evidence.last_request {
                            Some(request) => crate::evidence::last_input(
                                store.surface(store.request_surface(request@)),
                            ),
                            None => None,
                        }
                    }
                    &&& forall|other: Seq<char>|
                        #![trigger crate::page_laws::first(after.completed, crate::evidence::closes(other))]
                        other != closing@ ==> crate::page_laws::first(
                            after.completed,
                            crate::evidence::closes(other),
                        ) == crate::page_laws::first(
                            state.completed,
                            crate::evidence::closes(other),
                        )
                },
            }
        }),
{
    let evidence = state.evidence(id);
    if let Some(closing) = evidence.closing {
        let origin = ResponseOrigin {
            conversation_id: store.owner(),
            attempt_id: id,
            closing_message_id: closing,
        };
        let process = CompletedProcessView { origin, final_message_id: closing };
        assert forall|member: Seq<char>|
            #![trigger crate::page_laws::process_in(after.processes, member)]
            crate::page_laws::process_in(after.processes, member) == if crate::evidence::names(
                evidence.members,
                member,
            ) {
                Some(process)
            } else {
                crate::page_laws::process_in(state.processes, member)
            } by {
            crate::page_laws::lemma_process_after_members(
                state.processes,
                evidence.members,
                process,
                member,
            );
        }
        if crate::evidence::names(wanted, closing@) {
            let response = ProvenanceModel {
                process_message_ids: evidence.members,
                closing_message_id: closing,
                origin,
                completed_at: envelope.timestamp,
                timing: evidence.timing.summary(evidence.started_at, envelope.timestamp),
                retry_message_id: match evidence.last_request {
                    Some(request) => crate::evidence::last_input(
                        store.surface(store.request_surface(request@)),
                    ),
                    None => None,
                },
                usage: if evidence.requests > 0 && evidence.requests == evidence.reports {
                    evidence.usage
                } else {
                    None
                },
            };
            assert(after.completed == crate::evidence::with_response(state.completed, response));
            crate::response_laws::law_a_filed_response_is_found(state.completed, response);
            assert forall|other: Seq<char>|
                #![trigger crate::page_laws::first(after.completed, crate::evidence::closes(other))]
                other != closing@ implies crate::page_laws::first(
                after.completed,
                crate::evidence::closes(other),
            ) == crate::page_laws::first(state.completed, crate::evidence::closes(other)) by {
                crate::page_laws::lemma_other_response_is_found(state.completed, response, other);
            }
        }
    }
}

} // verus!
