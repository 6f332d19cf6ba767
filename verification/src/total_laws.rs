//! Laws of a whole journal: what a read of it says of a conversation.
use std::sync::Arc;

use vstd::prelude::*;

#[allow(unused_imports)]
use crate::evidence::FoldModel;
#[allow(unused_imports)]
use crate::identity::{AttemptId, MessageId};
#[allow(unused_imports)]
use crate::journal::RuntimeEventEnvelope;
#[allow(unused_imports)]
use crate::response::{CompletedProcessView, ConversationStatistics, ResponseOrigin};
#[allow(unused_imports)]
use crate::store::{ConversationStore, ProvenanceModel, StoreRead};

verus! {

/// The facts that a journal holds through a place.
pub open spec fn recorded(journal: Seq<Arc<RuntimeEventEnvelope>>, through: u64) -> Seq<
    Arc<RuntimeEventEnvelope>,
>
    decreases journal.len(),
{
    if journal.len() == 0 {
        Seq::empty()
    } else if 0 < journal.last().sequence <= through {
        recorded(journal.drop_last(), through).push(journal.last())
    } else {
        recorded(journal.drop_last(), through)
    }
}

/// How many responses facts complete: the model stopped by itself or refused, and the attempt
/// had committed a message.
pub open spec fn completions_in(facts: Seq<Arc<RuntimeEventEnvelope>>) -> nat
    decreases facts.len(),
{
    if facts.len() == 0 {
        0
    } else {
        completions_in(facts.drop_last()) + match facts.last().attempt_id {
            Some(id) => if crate::evidence_laws::completes(facts.last().event)
                && crate::evidence_laws::last_message_in(
                crate::evidence_laws::facts_of(facts.drop_last(), id@),
            ) is Some {
                1nat
            } else {
                0
            },
            None => 0,
        }
    }
}

proof fn lemma_completions_are_bounded(facts: Seq<Arc<RuntimeEventEnvelope>>)
    ensures
        completions_in(facts) <= facts.len(),
    decreases facts.len(),
{
    if facts.len() > 0 {
        lemma_completions_are_bounded(facts.drop_last());
    }
}

/// A conversation has as many completed responses as its facts complete.
pub proof fn law_completed_responses_are_counted<S: ConversationStore>(
    store: S,
    wanted: Seq<MessageId>,
    state: FoldModel,
    facts: Seq<Arc<RuntimeEventEnvelope>>,
)
    requires
        crate::evidence_laws::has_read_nothing(state),
        facts.len() <= u64::MAX,
        state.with_facts(store, wanted, facts) is Ok,
    ensures
        state.with_facts(store, wanted, facts)->Ok_0.statistics.completed_responses
            == completions_in(facts),
    decreases facts.len(),
{
    if facts.len() > 0 {
        let front = facts.drop_last();
        law_completed_responses_are_counted(store, wanted, state, front);
        lemma_completions_are_bounded(front);
        if let Some(id) = facts.last().attempt_id {
            crate::evidence_laws::law_evidence_is_what_the_facts_of_an_attempt_say(
                store,
                wanted,
                state,
                front,
                id,
            );
        }
    }
}

/// The message that an attempt closes its response with, where a fact completes the attempt.
pub open spec fn closed_by_last(facts: Seq<Arc<RuntimeEventEnvelope>>) -> Option<MessageId> {
    match facts.last().attempt_id {
        Some(attempt) => if crate::evidence_laws::completes(facts.last().event) {
            crate::evidence_laws::last_message_in(
                crate::evidence_laws::facts_of(facts.drop_last(), attempt@),
            )
        } else {
            None
        },
        None => None,
    }
}

/// The response that a message closes by facts, but for the messages that led up to it: the one
/// of the last attempt that completed with the message as its last.
pub open spec fn response_in<S: ConversationStore>(
    store: S,
    facts: Seq<Arc<RuntimeEventEnvelope>>,
    id: Seq<char>,
) -> Option<ProvenanceModel>
    decreases facts.len(),
{
    if facts.len() == 0 {
        None
    } else {
        match closed_by_last(facts) {
            Some(closing) if closing@ == id => {
                let attempt_id = facts.last().attempt_id->Some_0;
                let own = crate::evidence_laws::facts_of(facts.drop_last(), attempt_id@);
                let reports = crate::evidence_laws::reports_in(own);
                Some(
                    ProvenanceModel {
                        process_message_ids: Seq::empty(),
                        closing_message_id: closing,
                        origin: ResponseOrigin {
                            conversation_id: store.owner(),
                            attempt_id,
                            closing_message_id: closing,
                        },
                        completed_at: facts.last().timestamp,
                        timing: crate::evidence_laws::timing_in(own).summary(
                            crate::evidence_laws::start_in(own),
                            facts.last().timestamp,
                        ),
                        retry_message_id: match crate::evidence_laws::last_request_in(own) {
                            Some(request) => crate::evidence::last_input(
                                store.surface(store.request_surface(request@)),
                            ),
                            None => None,
                        },
                        usage: if crate::evidence_laws::requests_in(own) == reports.len() {
                            crate::response_laws::usage_of(reports)
                        } else {
                            None
                        },
                    },
                )
            },
            _ => response_in(store, facts.drop_last(), id),
        }
    }
}

/// The completed process of a message by facts: that of the last attempt that committed the
/// message and completed.
pub open spec fn process_of<S: ConversationStore>(
    store: S,
    facts: Seq<Arc<RuntimeEventEnvelope>>,
    id: Seq<char>,
) -> Option<CompletedProcessView>
    decreases facts.len(),
{
    if facts.len() == 0 {
        None
    } else {
        match (facts.last().attempt_id, closed_by_last(facts)) {
            (Some(attempt_id), Some(closing)) if crate::evidence_laws::is_accepted_in(
                crate::evidence_laws::facts_of(facts.drop_last(), attempt_id@),
                id,
            ) => Some(
                CompletedProcessView {
                    origin: ResponseOrigin {
                        conversation_id: store.owner(),
                        attempt_id,
                        closing_message_id: closing,
                    },
                    final_message_id: closing,
                },
            ),
            _ => process_of(store, facts.drop_last(), id),
        }
    }
}

/// A response but for the messages that led up to it.
pub open spec fn outline(response: Option<ProvenanceModel>) -> Option<ProvenanceModel> {
    match response {
        Some(response) => Some(ProvenanceModel { process_message_ids: Seq::empty(), ..response }),
        None => None,
    }
}

proof fn lemma_facts_close<S: ConversationStore>(
    store: S,
    wanted: Seq<MessageId>,
    state: FoldModel,
    facts: Seq<Arc<RuntimeEventEnvelope>>,
    id: Seq<char>,
)
    requires
        crate::evidence_laws::has_read_nothing(state),
        crate::search::apart(state.completed, crate::response_laws::closes_another()),
        crate::evidence::names(wanted, id),
        facts.len() <= u64::MAX,
        state.with_facts(store, wanted, facts) is Ok,
    ensures
        ({
            let after = state.with_facts(store, wanted, facts)->Ok_0;
            &&& crate::search::apart(after.completed, crate::response_laws::closes_another())
            &&& outline(crate::page_laws::first(after.completed, crate::evidence::closes(id)))
                == match response_in(store, facts, id) {
                Some(response) => Some(response),
                None => outline(
                    crate::page_laws::first(state.completed, crate::evidence::closes(id)),
                ),
            }
            &&& crate::page_laws::process_in(after.processes, id) == match process_of(
                store,
                facts,
                id,
            ) {
                Some(process) => Some(process),
                None => crate::page_laws::process_in(state.processes, id),
            }
        }),
    decreases facts.len(),
{
    if facts.len() > 0 {
        let front = facts.drop_last();
        let envelope = facts.last();
        lemma_facts_close(store, wanted, state, front, id);
        let before = state.with_facts(store, wanted, front)->Ok_0;
        let after = state.with_facts(store, wanted, facts)->Ok_0;
        crate::response_laws::lemma_fact_keeps_apart(store, wanted, before, envelope);
        if let Some(attempt) = envelope.attempt_id {
            if is_completion(envelope) {
                crate::evidence_laws::law_evidence_is_what_the_facts_of_an_attempt_say(
                    store,
                    wanted,
                    state,
                    front,
                    attempt,
                );
                law_completed_responses_are_counted(store, wanted, state, front);
                lemma_completions_are_bounded(front);
                crate::response_laws::law_a_total_is_the_sum_of_its_reports(
                    crate::evidence_laws::reports_in(
                        crate::evidence_laws::facts_of(front, attempt@),
                    ),
                );
                crate::evidence_laws::law_a_completed_attempt_closes_its_response(
                    store,
                    wanted,
                    before,
                    after,
                    envelope,
                    attempt,
                );
                let evidence = before.evidence(attempt);
                if let Some(closing) = evidence.closing {
                    assert(crate::page_laws::process_in(after.processes, id)
                        == if crate::evidence::names(evidence.members, id) {
                        Some(
                            CompletedProcessView {
                                origin: ResponseOrigin {
                                    conversation_id: store.owner(),
                                    attempt_id: attempt,
                                    closing_message_id: closing,
                                },
                                final_message_id: closing,
                            },
                        )
                    } else {
                        crate::page_laws::process_in(before.processes, id)
                    });
                    if closing@ != id {
                        assert(crate::page_laws::first(
                            after.completed,
                            crate::evidence::closes(id),
                        ) == crate::page_laws::first(
                            before.completed,
                            crate::evidence::closes(id),
                        ));
                    }
                }
            }
        }
    }
}

/// Whether a fact completes an attempt.
spec fn is_completion(envelope: Arc<RuntimeEventEnvelope>) -> bool {
    crate::evidence_laws::completes(envelope.event)
}

/// Two runs of facts say the same of every attempt and of the whole.
spec fn says_the_same<S: ConversationStore>(
    a: Seq<Arc<RuntimeEventEnvelope>>,
    b: Seq<Arc<RuntimeEventEnvelope>>,
) -> bool {
    &&& crate::evidence_laws::requests_in(a) == crate::evidence_laws::requests_in(b)
    &&& crate::evidence_laws::reports_in(a) == crate::evidence_laws::reports_in(b)
    &&& completions_in(a) == completions_in(b)
    &&& forall|store: S, id: Seq<char>|
        #[trigger] response_in(store, a, id) == response_in(store, b, id)
    &&& forall|store: S, id: Seq<char>|
        #[trigger] process_of(store, a, id) == process_of(store, b, id)
    &&& forall|id: Seq<char>| #[trigger] says_the_same_of(a, b, id)
}

spec fn says_the_same_of(
    a: Seq<Arc<RuntimeEventEnvelope>>,
    b: Seq<Arc<RuntimeEventEnvelope>>,
    id: Seq<char>,
) -> bool {
    let own_a = crate::evidence_laws::facts_of(a, id);
    let own_b = crate::evidence_laws::facts_of(b, id);
    &&& crate::evidence_laws::start_in(own_a) == crate::evidence_laws::start_in(own_b)
    &&& crate::evidence_laws::last_message_in(own_a) == crate::evidence_laws::last_message_in(
        own_b,
    )
    &&& crate::evidence_laws::last_request_in(own_a) == crate::evidence_laws::last_request_in(
        own_b,
    )
    &&& crate::evidence_laws::requests_in(own_a) == crate::evidence_laws::requests_in(own_b)
    &&& crate::evidence_laws::reports_in(own_a) == crate::evidence_laws::reports_in(own_b)
    &&& crate::evidence_laws::timing_in(own_a) == crate::evidence_laws::timing_in(own_b)
    &&& forall|message: Seq<char>|
        #[trigger] crate::evidence_laws::is_accepted_in(own_a, message)
            == crate::evidence_laws::is_accepted_in(own_b, message)
}

/// The facts that a journal is asked for.
spec fn asked(journal: Seq<Arc<RuntimeEventEnvelope>>, through: u64) -> Seq<
    Arc<RuntimeEventEnvelope>,
> {
    journal.filter(crate::store::asked_for(crate::response::response_kinds(), 0, through))
}

proof fn lemma_kinds(envelope: Arc<RuntimeEventEnvelope>, through: u64)
    ensures
        crate::store::asked_for(crate::response::response_kinds(), 0, through)(envelope) <==> 0
            < envelope.sequence <= through && (envelope.event is AttemptStarted
            || envelope.event is ModelRequestStarted || envelope.event is ModelRequestCompleted
            || envelope.event is ModelRequestFailed || envelope.event is AssistantMessageCommitted
            || crate::fold_laws::is_end(envelope.event)),
{
    let kinds = crate::response::response_kinds();
    assert(kinds[0] == crate::store::FactKind::AttemptStarted);
    assert(kinds[1] == crate::store::FactKind::ModelRequestStarted);
    assert(kinds[2] == crate::store::FactKind::ModelRequestCompleted);
    assert(kinds[3] == crate::store::FactKind::ModelRequestFailed);
    assert(kinds[4] == crate::store::FactKind::AssistantMessageCommitted);
    assert(kinds[5] == crate::store::FactKind::AttemptCompleted);
    assert(kinds[6] == crate::store::FactKind::AttemptCancelled);
    assert(kinds[7] == crate::store::FactKind::AttemptFailed);
    assert(kinds[8] == crate::store::FactKind::AttemptTimedOut);
    assert(kinds[9] == crate::store::FactKind::AttemptLimitExceeded);
}

proof fn lemma_one_more_on_both<S: ConversationStore>(
    a: Seq<Arc<RuntimeEventEnvelope>>,
    b: Seq<Arc<RuntimeEventEnvelope>>,
    envelope: Arc<RuntimeEventEnvelope>,
)
    requires
        says_the_same::<S>(a, b),
    ensures
        says_the_same::<S>(a.push(envelope), b.push(envelope)),
{
    let more_a = a.push(envelope);
    let more_b = b.push(envelope);
    assert(more_a.drop_last() =~= a);
    assert(more_b.drop_last() =~= b);
    if let Some(id) = envelope.attempt_id {
        assert(says_the_same_of(a, b, id@));
    }
    assert forall|store: S, id: Seq<char>|
        #[trigger] response_in(store, more_a, id) == response_in(store, more_b, id) by {
        assert(response_in(store, a, id) == response_in(store, b, id));
    }
    assert forall|store: S, id: Seq<char>|
        #[trigger] process_of(store, more_a, id) == process_of(store, more_b, id) by {
        assert(process_of(store, a, id) == process_of(store, b, id));
        if let Some(attempt) = envelope.attempt_id {
            assert(crate::evidence_laws::is_accepted_in(
                crate::evidence_laws::facts_of(a, attempt@),
                id,
            ) == crate::evidence_laws::is_accepted_in(
                crate::evidence_laws::facts_of(b, attempt@),
                id,
            ));
        }
    }
    assert forall|id: Seq<char>| #[trigger] says_the_same_of(more_a, more_b, id) by {
        assert(says_the_same_of(a, b, id));
        let own_a = crate::evidence_laws::facts_of(a, id);
        let own_b = crate::evidence_laws::facts_of(b, id);
        crate::evidence_laws::lemma_accepted_in_more(own_a, envelope);
        crate::evidence_laws::lemma_accepted_in_more(own_b, envelope);
        assert(own_a.push(envelope).drop_last() =~= own_a);
        assert(own_b.push(envelope).drop_last() =~= own_b);
    }
}

proof fn lemma_one_more_that_says_nothing<S: ConversationStore>(
    a: Seq<Arc<RuntimeEventEnvelope>>,
    b: Seq<Arc<RuntimeEventEnvelope>>,
    envelope: Arc<RuntimeEventEnvelope>,
)
    requires
        says_the_same::<S>(a, b),
        !(envelope.event is AttemptStarted || envelope.event is ModelRequestStarted
            || envelope.event is ModelRequestCompleted || envelope.event is ModelRequestFailed
            || envelope.event is AssistantMessageCommitted || crate::fold_laws::is_end(
            envelope.event,
        )),
    ensures
        says_the_same::<S>(a, b.push(envelope)),
{
    let more_b = b.push(envelope);
    assert(more_b.drop_last() =~= b);
    assert forall|store: S, id: Seq<char>|
        #[trigger] response_in(store, a, id) == response_in(store, more_b, id) by {
        assert(response_in(store, a, id) == response_in(store, b, id));
    }
    assert forall|store: S, id: Seq<char>|
        #[trigger] process_of(store, a, id) == process_of(store, more_b, id) by {
        assert(process_of(store, a, id) == process_of(store, b, id));
    }
    assert forall|id: Seq<char>| #[trigger] says_the_same_of(a, more_b, id) by {
        assert(says_the_same_of(a, b, id));
        let own_b = crate::evidence_laws::facts_of(b, id);
        crate::evidence_laws::lemma_accepted_in_more(own_b, envelope);
        assert(own_b.push(envelope).drop_last() =~= own_b);
    }
}

proof fn lemma_nothing_is_missed<S: ConversationStore>(journal: Seq<Arc<RuntimeEventEnvelope>>, through: u64)
    ensures
        says_the_same::<S>(asked(journal, through), recorded(journal, through)),
        asked(journal, through).len() <= journal.len(),
    decreases journal.len(),
{
    reveal(Seq::filter);
    if journal.len() > 0 {
        let front = journal.drop_last();
        lemma_nothing_is_missed::<S>(front, through);
        let envelope = journal.last();
        lemma_kinds(envelope, through);
        if crate::store::asked_for(crate::response::response_kinds(), 0, through)(envelope) {
            lemma_one_more_on_both::<S>(asked(front, through), recorded(front, through), envelope);
        } else if 0 < envelope.sequence <= through {
            lemma_one_more_that_says_nothing::<S>(
                asked(front, through),
                recorded(front, through),
                envelope,
            );
        }
    } else {
        assert(asked(journal, through) =~= recorded(journal, through));
    }
}

/// The totals of a conversation count every fact of its journal through the place that is
/// read: the requests that were started, those that reported their usage, what these reports
/// add up to, and the responses that were completed.
pub proof fn law_totals_count_the_whole_journal<S: ConversationStore>(
    store: S,
    wanted: Seq<MessageId>,
    through: u64,
)
    requires
        forall|place: u64|
            #[trigger] store.failure(StoreRead::Events { after: place, through }) is None,
        store.journal().len() <= u64::MAX,
        crate::response::projected(store, wanted, through) is Ok,
    ensures
        ({
            let statistics = crate::response::projected(store, wanted, through)->Ok_0.statistics;
            let facts = recorded(store.journal(), through);
            &&& statistics.model_requests == crate::evidence_laws::requests_in(facts)
            &&& statistics.requests_with_usage == crate::evidence_laws::reports_in(facts).len()
            &&& statistics.reported_usage == crate::response_laws::usage_of(
                crate::evidence_laws::reports_in(facts),
            )
            &&& statistics.completed_responses == completions_in(facts)
        }),
{
    let start = start_of(store, wanted);
    let facts = asked(store.journal(), through);
    crate::response_laws::law_paging_is_invisible(store, wanted, through, 0, start);
    lemma_nothing_is_missed::<S>(store.journal(), through);
    crate::evidence_laws::law_totals_add_up_the_facts(store, wanted, start, facts);
    law_completed_responses_are_counted(store, wanted, start, facts);
}

/// What is known before the journal is read.
spec fn start_of<S: ConversationStore>(store: S, wanted: Seq<MessageId>) -> FoldModel {
    let completed = crate::response::filed(
        store.inherited().filter(crate::response::is_wanted(wanted)),
    );
    FoldModel {
        attempts: Seq::empty(),
        completed,
        processes: crate::response::entries_of(completed, wanted),
        statistics: ConversationStatistics::none(),
    }
}

/// The facts of an attempt that has not ended hold a message.
pub open spec fn is_under_way(facts: Seq<Arc<RuntimeEventEnvelope>>, message: Seq<char>) -> bool {
    exists|id: AttemptId|
        crate::evidence_laws::is_accepted_in(
            #[trigger] crate::evidence_laws::facts_of(facts, id@),
            message,
        )
}

/// A message that is asked for is pending where, and only where, an attempt committed it and
/// has not ended in the journal through the place that is read.
pub proof fn law_a_message_is_pending_until_its_attempt_ends<S: ConversationStore>(
    store: S,
    wanted: Seq<MessageId>,
    through: u64,
    message: Seq<char>,
)
    requires
        forall|place: u64|
            #[trigger] store.failure(StoreRead::Events { after: place, through }) is None,
        store.journal().len() <= u64::MAX,
        crate::response::projected(store, wanted, through) is Ok,
    ensures
        crate::evidence::names(
            crate::response::projected(store, wanted, through)->Ok_0.pending,
            message,
        ) <==> crate::evidence::names(wanted, message) && is_under_way(
            recorded(store.journal(), through),
            message,
        ),
{
    let start = start_of(store, wanted);
    let facts = asked(store.journal(), through);
    let whole = recorded(store.journal(), through);
    crate::response_laws::law_paging_is_invisible(store, wanted, through, 0, start);
    lemma_nothing_is_missed::<S>(store.journal(), through);
    let after = start.with_facts(store, wanted, facts)->Ok_0;
    crate::page_laws::lemma_pending_names(after.attempts, message);
    if exists|i: int|
        0 <= i < after.attempts.len() && crate::evidence::names(
            (#[trigger] after.attempts[i]).members,
            message,
        ) {
        let i = choose|i: int|
            0 <= i < after.attempts.len() && crate::evidence::names(
                (#[trigger] after.attempts[i]).members,
                message,
            );
        let id = after.attempts[i].id;
        let own = crate::evidence::is_attempt(id@);
        crate::evidence_laws::law_evidence_is_what_the_facts_of_an_attempt_say(
            store,
            wanted,
            start,
            facts,
            id,
        );
        crate::search::lemma_position_at(after.attempts, own, i);
        assert(after.evidence(id) == after.attempts[i]);
        assert(says_the_same_of(facts, whole, id@));
        assert(crate::evidence_laws::is_accepted_in(
            crate::evidence_laws::facts_of(facts, id@),
            message,
        ));
        assert(crate::evidence_laws::is_accepted_in(
            crate::evidence_laws::facts_of(whole, id@),
            message,
        ));
    }
    if crate::evidence::names(wanted, message) && is_under_way(whole, message) {
        let id = choose|id: AttemptId|
            crate::evidence_laws::is_accepted_in(
                #[trigger] crate::evidence_laws::facts_of(whole, id@),
                message,
            );
        crate::evidence_laws::law_evidence_is_what_the_facts_of_an_attempt_say(
            store,
            wanted,
            start,
            facts,
            id,
        );
        assert(says_the_same_of(facts, whole, id@));
        assert(crate::evidence_laws::is_accepted_in(
            crate::evidence_laws::facts_of(facts, id@),
            message,
        ));
        let evidence = after.evidence(id);
        assert(crate::evidence::names(evidence.members, message));
        crate::search::lemma_position(after.attempts, crate::evidence::is_attempt(id@));
    }
}

/// What is known of a message that is asked for is what the whole journal says, through the
/// place that is read: the response of the last attempt that completed with it, and the process
/// of the last attempt that committed it and completed. Where the journal says nothing, it is
/// what was inherited.
pub proof fn law_a_message_is_known_by_the_whole_journal<S: ConversationStore>(
    store: S,
    wanted: Seq<MessageId>,
    through: u64,
    id: Seq<char>,
)
    requires
        forall|place: u64|
            #[trigger] store.failure(StoreRead::Events { after: place, through }) is None,
        store.journal().len() <= u64::MAX,
        crate::page_laws::one_process_each(store.inherited()),
        crate::evidence::names(wanted, id),
        crate::response::projected(store, wanted, through) is Ok,
    ensures
        ({
            let known = crate::response::projected(store, wanted, through)->Ok_0;
            let facts = recorded(store.journal(), through);
            &&& outline(crate::page_laws::first(known.completed, crate::evidence::closes(id)))
                == match response_in(store, facts, id) {
                Some(response) => Some(response),
                None => outline(crate::page_laws::last_closing(store.inherited(), id)),
            }
            &&& process_of(store, facts, id) is Some ==> crate::page_laws::process_in(
                known.processes,
                id,
            ) == process_of(store, facts, id)
        }),
{
    let start = start_of(store, wanted);
    let facts = asked(store.journal(), through);
    let whole = recorded(store.journal(), through);
    crate::response_laws::law_paging_is_invisible(store, wanted, through, 0, start);
    lemma_nothing_is_missed::<S>(store.journal(), through);
    crate::response_laws::lemma_filed_apart(
        store.inherited().filter(crate::response::is_wanted(wanted)),
    );
    crate::page_laws::law_an_inherited_response_is_kept(store, wanted, id);
    lemma_facts_close(store, wanted, start, facts, id);
    assert(response_in(store, facts, id) == response_in(store, whole, id));
    assert(process_of(store, facts, id) == process_of(store, whole, id));
}

} // verus!
