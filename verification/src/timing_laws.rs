//! What holds of the time that a response is said to have taken.
use vstd::prelude::*;

#[allow(unused_imports)]
use crate::clock::Timestamp;
#[allow(unused_imports)]
use crate::identity::RequestId;
#[allow(unused_imports)]
use crate::model::{GenerationEvidence, ModelUsage};
#[allow(unused_imports)]
use crate::timing::{TimedRequest, TimingModel};

verus! {

/// The runtime of an attempt is never invented: it is shown only where the attempt's start
/// is known and not after its end.
pub proof fn law_no_runtime_is_invented(timing: TimingModel, start: Option<Timestamp>, end: Timestamp)
    requires
        match start {
            None => true,
            Some(start) => !start.not_after_spec(end),
        },
    ensures
        timing.summary(start, end) matches Some(summary) ==> summary.total_duration_ms is None,
{
}

/// One request without complete evidence leaves the time of generation unknown, and with
/// it the rate.
pub proof fn law_unknown_evidence_makes_the_work_unknown(
    timing: TimingModel,
    index: int,
    start: Option<Timestamp>,
    end: Timestamp,
)
    requires
        0 <= index < timing.requests.len(),
        !crate::timing::is_complete(timing.requests[index]),
    ensures
        timing.work() is None,
        timing.summary(start, end) matches Some(summary) ==> summary.generation_ms is None
            && summary.output_rate is None,
{
}

/// One request that does not count toward a rate leaves the rate unknown, and nothing else.
pub proof fn law_a_rate_needs_every_request(
    timing: TimingModel,
    index: int,
    start: Option<Timestamp>,
    end: Timestamp,
)
    requires
        0 <= index < timing.requests.len(),
        !crate::timing::is_rated(timing.requests[index]),
    ensures
        timing.work() matches Some((_, tokens)) ==> tokens is None,
        timing.summary(start, end) matches Some(summary) ==> summary.output_rate is None,
{
}

/// A rate is over a time that was measured, and that time is the one shown.
pub proof fn law_a_rate_is_over_measured_time(
    timing: TimingModel,
    start: Option<Timestamp>,
    end: Timestamp,
)
    ensures
        timing.summary(start, end) matches Some(summary) ==> match summary.output_rate {
            Some(rate) => rate.duration_ms > 0 && summary.generation_ms == Some(rate.duration_ms),
            None => true,
        },
{
}

/// The time to the first output is that of the first request: no later request changes
/// it, by its start or by its end.
pub proof fn law_a_later_request_is_not_the_first(
    timing: TimingModel,
    first: RequestId,
    later: RequestId,
    generation: Option<GenerationEvidence>,
    usage: Option<ModelUsage>,
)
    requires
        timing.first == Some(first),
        first@ != later@,
    ensures
        timing.started(later).ttft() == timing.ttft(),
        timing.ended(later@, generation, usage).ttft() == timing.ttft(),
{
    lemma_another_request_stays(timing, first@, later, generation, usage);
}

/// The request with an identity is left alone by what happens to another.
proof fn lemma_another_request_stays(
    timing: TimingModel,
    id: Seq<char>,
    other: RequestId,
    generation: Option<GenerationEvidence>,
    usage: Option<ModelUsage>,
)
    requires
        id != other@,
    ensures
        ({
            let place = crate::search::position(timing.requests, crate::timing::is_request(id));
            let started = timing.started(other);
            let ended = timing.ended(other@, generation, usage);
            &&& crate::search::position(started.requests, crate::timing::is_request(id)) == place
            &&& crate::search::position(ended.requests, crate::timing::is_request(id)) == place
            &&& place matches Some(index) ==> started.requests[index].reading
                == timing.requests[index].reading && ended.requests[index].reading
                == timing.requests[index].reading
        }),
{
    let picks = crate::timing::is_request(id);
    let picks_other = crate::timing::is_request(other@);
    let requests = timing.requests;
    let started = timing.started(other).requests;
    let ended = timing.ended(other@, generation, usage).requests;
    crate::search::lemma_position(requests, picks);
    crate::search::lemma_position(requests, picks_other);
    crate::search::lemma_position(started, picks);
    crate::search::lemma_position(ended, picks);
    assert forall|k: int| 0 <= k < requests.len() implies picks(#[trigger] requests[k]) == picks(
        started[k],
    ) && picks(requests[k]) == picks(ended[k]) by {
        assert(started[k].id == requests[k].id);
        assert(ended[k].id == requests[k].id);
    }
    assert(started.len() > requests.len() ==> !picks(started[requests.len() as int]));
}

/// The end of a request that did not start changes nothing.
pub proof fn law_only_started_requests_count(
    timing: TimingModel,
    id: Seq<char>,
    generation: Option<GenerationEvidence>,
    usage: Option<ModelUsage>,
)
    requires
        forall|i: int| 0 <= i < timing.requests.len() ==> (#[trigger] timing.requests[i]).id@ != id,
    ensures
        timing.ended(id, generation, usage) == timing,
{
    crate::search::lemma_position(timing.requests, crate::timing::is_request(id));
}

/// Whether each request is there once.
pub open spec fn each_once(requests: Seq<TimedRequest>) -> bool {
    forall|i: int, j: int|
        0 <= i < j < requests.len() ==> (#[trigger] requests[i]).id@ != (#[trigger] requests[j]).id@
}

/// Whether a request is there.
pub open spec fn is_there(requests: Seq<TimedRequest>, id: Seq<char>) -> bool {
    exists|i: int| 0 <= i < requests.len() && (#[trigger] requests[i]).id@ == id
}

/// A request that starts is there once and has not ended, and no other request is touched. The
/// first one that ever started stays the first.
pub proof fn law_a_started_request_has_not_ended(timing: TimingModel, id: RequestId)
    requires
        each_once(timing.requests),
    ensures
        ({
            let after = timing.started(id);
            &&& each_once(after.requests)
            &&& is_there(after.requests, id@)
            &&& after.requests.len() == timing.requests.len() + if is_there(
                timing.requests,
                id@,
            ) {
                0int
            } else {
                1
            }
            &&& forall|i: int|
                0 <= i < after.requests.len() && (#[trigger] after.requests[i]).id@ == id@
                    ==> after.requests[i].reading is None
            &&& forall|i: int|
                0 <= i < timing.requests.len() ==> (#[trigger] after.requests[i]).id
                    == timing.requests[i].id && (timing.requests[i].id@ != id@ ==> after.requests[i]
                    == timing.requests[i])
            &&& timing.first is Some ==> after.first == timing.first
            &&& timing.first is None ==> after.first == Some(id)
        }),
{
    let own = crate::timing::is_request(id@);
    crate::search::lemma_position(timing.requests, own);
    let after = timing.started(id).requests;
    match crate::search::position(timing.requests, own) {
        Some(index) => {
            assert(after[index].id@ == id@);
            assert(timing.requests[index].id@ == id@);
        },
        None => {
            assert(after[timing.requests.len() as int].id@ == id@);
            assert forall|i: int| 0 <= i < timing.requests.len() implies (
            #[trigger] timing.requests[i]).id@ != id@ by {
                assert(!own(timing.requests[i]));
            }
        },
    }
}

/// A request that ends keeps what its end says: how the output came, and how many tokens were
/// reported, if any were. No other request is touched, and none is there that was not.
pub proof fn law_an_ended_request_keeps_what_its_end_says(
    timing: TimingModel,
    id: Seq<char>,
    generation: Option<GenerationEvidence>,
    usage: Option<ModelUsage>,
)
    requires
        each_once(timing.requests),
    ensures
        ({
            let after = timing.ended(id, generation, usage);
            &&& after.first == timing.first
            &&& after.requests.len() == timing.requests.len()
            &&& forall|i: int|
                0 <= i < timing.requests.len() ==> (#[trigger] after.requests[i]).id
                    == timing.requests[i].id && if timing.requests[i].id@ == id {
                    &&& after.requests[i].reading is Some
                    &&& after.requests[i].reading->Some_0.generation == generation
                    &&& after.requests[i].reading->Some_0.output_tokens is Some <==> usage is Some
                    &&& usage is Some ==> after.requests[i].reading->Some_0.output_tokens == Some(
                        usage->Some_0.output_tokens,
                    )
                } else {
                    after.requests[i] == timing.requests[i]
                }
        }),
{
    let own = crate::timing::is_request(id);
    crate::search::lemma_position(timing.requests, own);
    if crate::search::position(timing.requests, own) is None {
        assert forall|i: int| 0 <= i < timing.requests.len() implies (
        #[trigger] timing.requests[i]).id@ != id by {
            assert(!own(timing.requests[i]));
        }
    }
}

/// The sum of a part of requests.
pub open spec fn sum_of(requests: Seq<TimedRequest>, part: spec_fn(TimedRequest) -> int) -> int
    decreases requests.len(),
{
    if requests.len() == 0 {
        0
    } else {
        sum_of(requests.drop_last(), part) + part(requests.last())
    }
}

/// When the first output of a request came, counted from its dispatch.
pub open spec fn first_output(request: TimedRequest) -> Option<u64> {
    match request.reading {
        Some(reading) => match reading.generation {
            Some(generation) => generation.first_output_ms,
            None => None,
        },
        None => None,
    }
}

/// When a request was over, counted from its dispatch.
pub open spec fn over(request: TimedRequest) -> int {
    request.reading->Some_0.generation->Some_0.terminal_ms as int
}

/// The time from the first output of a request to its end; none without output.
pub open spec fn output_time() -> spec_fn(TimedRequest) -> int {
    |request: TimedRequest|
        match first_output(request) {
            Some(first) => over(request) - first,
            None => 0,
        }
}

/// The tokens of a request.
pub open spec fn output_tokens() -> spec_fn(TimedRequest) -> int {
    |request: TimedRequest| request.reading->Some_0.output_tokens->Some_0 as int
}

/// Whether all that is to be known of the output of a request is known, and its times are in
/// order.
pub open spec fn is_known(request: TimedRequest) -> bool {
    &&& request.reading is Some
    &&& request.reading->Some_0.generation is Some
    &&& match first_output(request) {
        Some(first) => first <= over(request),
        None => request.reading->Some_0.generation->Some_0.last_output_ms is None,
    }
}

/// Whether the tokens of a request are known and came in measured time: none came without
/// output, and output took time.
pub open spec fn has_rate(request: TimedRequest) -> bool {
    &&& request.reading is Some
    &&& request.reading->Some_0.output_tokens is Some
    &&& match first_output(request) {
        Some(first) => over(request) > first,
        None => request.reading->Some_0.output_tokens == Some(0u64),
    }
}

proof fn lemma_sums(requests: Seq<TimedRequest>)
    ensures
        crate::timing::total_span_ms(requests) == sum_of(requests, output_time()),
        (forall|i: int| 0 <= i < requests.len() ==> has_rate(#[trigger] requests[i]))
            ==> crate::timing::total_tokens(requests) == sum_of(requests, output_tokens())
            && sum_of(requests, output_tokens()) >= 0,
        (forall|i: int| 0 <= i < requests.len() ==> is_known(#[trigger] requests[i])) ==> sum_of(
            requests,
            output_time(),
        ) >= 0,
    decreases requests.len(),
{
    if requests.len() > 0 {
        let front = requests.drop_last();
        lemma_sums(front);
        assert(requests[requests.len() - 1] == requests.last());
        if forall|i: int| 0 <= i < requests.len() ==> has_rate(#[trigger] requests[i]) {
            assert forall|i: int| 0 <= i < front.len() implies has_rate(#[trigger] front[i]) by {
                assert(front[i] == requests[i]);
            }
            assert(has_rate(requests.last()));
        }
        if forall|i: int| 0 <= i < requests.len() ==> is_known(#[trigger] requests[i]) {
            assert forall|i: int| 0 <= i < front.len() implies is_known(#[trigger] front[i]) by {
                assert(front[i] == requests[i]);
            }
            assert(is_known(requests.last()));
        }
    }
}

/// A summary says of each part exactly what is known of it.
///
/// The time of generation is the sum of the times in which the requests produced output. It is
/// known where all is known of each request and one had output, as long as the sum fits.
///
/// A rate is the sum of the tokens over that time. It is known where the time is, and is no
/// zero, and each request has a rate, as long as the sum of the tokens fits.
///
/// The time to the first output is that of the request that started first.
///
/// The whole time is that from the start to the end, where the start is known and the two are
/// in order.
pub proof fn law_a_summary_says_what_is_known(
    timing: TimingModel,
    start: Option<Timestamp>,
    end: Timestamp,
)
    ensures
        timing.summary(start, end) matches Some(summary) ==> {
            let all_known = (forall|i: int|
                0 <= i < timing.requests.len() ==> is_known(#[trigger] timing.requests[i])) && (
            exists|i: int|
                0 <= i < timing.requests.len() && first_output(
                    #[trigger] timing.requests[i],
                ) is Some) && sum_of(timing.requests, output_time()) <= u64::MAX;
            &&& summary.generation_ms is Some <==> all_known
            &&& all_known ==> summary.generation_ms->Some_0 == sum_of(
                timing.requests,
                output_time(),
            )
            &&& summary.output_rate is Some <==> all_known && sum_of(
                timing.requests,
                output_time(),
            ) > 0 && (forall|i: int|
                0 <= i < timing.requests.len() ==> has_rate(#[trigger] timing.requests[i]))
                && sum_of(timing.requests, output_tokens()) <= u64::MAX
            &&& summary.output_rate is Some ==> summary.output_rate->Some_0.tokens == sum_of(
                timing.requests,
                output_tokens(),
            ) && summary.output_rate->Some_0.duration_ms == sum_of(timing.requests, output_time())
            &&& timing.first is None ==> summary.ttft_ms is None
            &&& forall|i: int|
                0 <= i < timing.requests.len() && timing.first is Some && (
                #[trigger] timing.requests[i]).id@ == timing.first->Some_0@ && each_once(
                    timing.requests,
                ) ==> summary.ttft_ms == first_output(timing.requests[i])
            &&& summary.total_duration_ms is Some ==> start is Some && summary.total_duration_ms
                == Some(start->Some_0.millis_until_spec(end) as u64)
        },
        timing.summary(start, end) is None ==> {
            &&& forall|i: int|
                0 <= i < timing.requests.len() && timing.first is Some && (
                #[trigger] timing.requests[i]).id@ == timing.first->Some_0@ && each_once(
                    timing.requests,
                ) ==> first_output(timing.requests[i]) is None
            &&& !((forall|i: int|
                0 <= i < timing.requests.len() ==> is_known(#[trigger] timing.requests[i])) && (
            exists|i: int|
                0 <= i < timing.requests.len() && first_output(
                    #[trigger] timing.requests[i],
                ) is Some) && sum_of(timing.requests, output_time()) <= u64::MAX)
        },
{
    let requests = timing.requests;
    lemma_sums(requests);
    assert forall|i: int| 0 <= i < requests.len() implies crate::timing::is_complete(
        #[trigger] requests[i],
    ) == is_known(requests[i]) && crate::timing::has_output(requests[i]) == (first_output(
        requests[i],
    ) is Some) && crate::timing::is_rated(requests[i]) == has_rate(requests[i]) by {}
    if let Some(first) = timing.first {
        let own = crate::timing::is_request(first@);
        crate::search::lemma_position(requests, own);
        if each_once(requests) {
            assert forall|i: int|
                0 <= i < requests.len() && (#[trigger] requests[i]).id@
                    == first@ implies timing.ttft() == first_output(requests[i]) by {
                match crate::search::position(requests, own) {
                    Some(index) => {
                        if index < i {
                            assert(requests[index].id@ != requests[i].id@);
                        } else if i < index {
                            assert(requests[i].id@ != requests[index].id@);
                        }
                    },
                    None => {
                        assert(!own(requests[i]));
                    },
                }
            }
        }
    }
}

/// Between two ordinary points in time, in their order, a summary counts the whole
/// milliseconds.
pub proof fn law_the_whole_time_is_counted(
    timing: TimingModel,
    start: Timestamp,
    end: Timestamp,
    millis: u64,
)
    requires
        0 <= start.nano() < 1_000_000_000,
        0 <= end.nano() < 1_000_000_000,
        0 < millis,
        millis * 1_000_000 <= (end.second() - start.second()) * 1_000_000_000 + (end.nano()
            - start.nano()) < (millis + 1) * 1_000_000,
    ensures
        timing.summary(Some(start), end) matches Some(summary) && summary.total_duration_ms == Some(
            millis,
        ),
{
    let nanos = (end.second() - start.second()) * 1_000_000_000 + (end.nano() - start.nano());
    assert(start.second() <= end.second());
    assert(nanos / 1_000_000 == millis as int);
    assert(start.not_after_spec(end));
    assert(crate::clock::leap_second_between(
        start.second(),
        start.nano(),
        end.second(),
        end.nano(),
    ) == 0);
    assert(start.millis_until_spec(end) == millis as int);
}

/// The time in which one request produced output reaches from its first output to its end. It
/// is unknown without output, and where the end is before it.
pub proof fn law_generation_reaches_to_the_end(generation: GenerationEvidence)
    ensures
        match generation.generation_ms_spec() {
            Some(millis) => generation.first_output_ms is Some
                && generation.first_output_ms->Some_0 + millis == generation.terminal_ms,
            None => generation.first_output_ms is None || generation.first_output_ms->Some_0
                > generation.terminal_ms,
        },
{
}

} // verus!
