//! How long a response took, from the evidence of its requests.
use vstd::prelude::*;

use crate::clock::Timestamp;
use crate::identity::RequestId;
use crate::model::{GenerationEvidence, ModelUsage};
use crate::response::{CompletedResponseTiming, OutputRate};

verus! {

impl GenerationEvidence {
    /// The time from the dispatch to the first output.
    pub fn time_to_first_output_ms(&self) -> (millis: Option<u64>)
        ensures
            millis == self.first_output_ms,
    {
        self.first_output_ms
    }

    /// The time from the first output to the end, where there was output and the end is
    /// not before it.
    pub open spec fn generation_ms_spec(self) -> Option<u64> {
        match self.first_output_ms {
            Some(first) if first <= self.terminal_ms => Some((self.terminal_ms - first) as u64),
            _ => None,
        }
    }

    /// The time from the first output to the end.
    pub fn generation_ms(&self) -> (millis: Option<u64>)
        ensures
            millis == self.generation_ms_spec(),
    {
        match self.first_output_ms {
            Some(first) => self.terminal_ms.checked_sub(first),
            None => None,
        }
    }
}

/// What the end of a request says.
#[derive(Debug, Clone, Copy, PartialEq, Eq)]
pub struct RequestReading {
    pub generation: Option<GenerationEvidence>,
    pub output_tokens: Option<u64>,
}

/// One request of an attempt, with its end if it has ended.
#[derive(Debug, PartialEq, Eq)]
pub struct TimedRequest {
    pub id: RequestId,
    pub reading: Option<RequestReading>,
}

/// The requests of an attempt.
#[derive(Debug, PartialEq, Eq)]
pub struct TimingFold {
    first: Option<RequestId>,
    requests: Vec<TimedRequest>,
}

/// The value of the requests of an attempt.
#[verifier::ext_equal]
pub struct TimingModel {
    /// The request that started first.
    pub first: Option<RequestId>,
    /// Each request once, in the order in which they first started.
    pub requests: Seq<TimedRequest>,
}

impl View for TimingFold {
    type V = TimingModel;

    closed spec fn view(&self) -> TimingModel {
        TimingModel { first: self.first, requests: self.requests@ }
    }
}

/// Picks the request with an identity.
pub open spec fn is_request(id: Seq<char>) -> spec_fn(TimedRequest) -> bool {
    |request: TimedRequest| request.id@ == id
}

/// Whether the evidence of a request is complete: it has ended, its generation is known,
/// output was not last seen without being first seen, and the end is not before the
/// first output.
pub open spec fn is_complete(request: TimedRequest) -> bool {
    request.reading matches Some(reading) && reading.generation matches Some(generation) && (
    match generation.first_output_ms {
        Some(first) => first <= generation.terminal_ms,
        None => generation.last_output_ms is None,
    })
}

/// Whether a request is known to have produced output.
pub open spec fn has_output(request: TimedRequest) -> bool {
    request.reading matches Some(reading) && reading.generation matches Some(generation)
        && generation.first_output_ms is Some
}

/// The time in which a request produced output.
pub open spec fn span_ms(request: TimedRequest) -> int {
    match request.reading {
        Some(reading) => match reading.generation {
            Some(generation) => match generation.first_output_ms {
                Some(first) => generation.terminal_ms - first,
                None => 0,
            },
            None => 0,
        },
        None => 0,
    }
}

/// The output tokens that a request reported.
pub open spec fn reported_tokens(request: TimedRequest) -> int {
    match request.reading {
        Some(reading) => match reading.output_tokens {
            Some(tokens) => tokens as int,
            None => 0,
        },
        None => 0,
    }
}

/// Whether a request counts toward a rate: it reported its tokens, with output it took
/// measurable time, and without output it reported none.
pub open spec fn is_rated(request: TimedRequest) -> bool {
    request.reading matches Some(reading) && reading.output_tokens matches Some(tokens) && (
    if has_output(request) {
        span_ms(request) > 0
    } else {
        tokens == 0
    })
}

/// The time in which requests produced output.
pub open spec fn total_span_ms(requests: Seq<TimedRequest>) -> int
    decreases requests.len(),
{
    if requests.len() == 0 {
        0
    } else {
        total_span_ms(requests.drop_last()) + span_ms(requests.last())
    }
}

/// The output tokens that requests reported.
pub open spec fn total_tokens(requests: Seq<TimedRequest>) -> int
    decreases requests.len(),
{
    if requests.len() == 0 {
        0
    } else {
        total_tokens(requests.drop_last()) + reported_tokens(requests.last())
    }
}

impl TimingModel {
    /// The requests of an attempt that has made none.
    pub open spec fn none() -> Self {
        TimingModel { first: None, requests: Seq::empty() }
    }

    /// A request starts; one that starts again has not ended.
    pub open spec fn started(self, id: RequestId) -> Self {
        TimingModel {
            first: match self.first {
                Some(first) => Some(first),
                None => Some(id),
            },
            requests: match crate::search::position(self.requests, is_request(id@)) {
                Some(index) => self.requests.update(
                    index,
                    TimedRequest { reading: None, ..self.requests[index] },
                ),
                None => self.requests.push(TimedRequest { id, reading: None }),
            },
        }
    }

    /// A request ends. One that did not start is not counted.
    pub open spec fn ended(
        self,
        id: Seq<char>,
        generation: Option<GenerationEvidence>,
        usage: Option<ModelUsage>,
    ) -> Self {
        TimingModel {
            requests: match crate::search::position(self.requests, is_request(id)) {
                Some(index) => self.requests.update(
                    index,
                    TimedRequest {
                        reading: Some(
                            RequestReading {
                                generation,
                                output_tokens: match usage {
                                    Some(usage) => Some(usage.output_tokens),
                                    None => None,
                                },
                            },
                        ),
                        ..self.requests[index]
                    },
                ),
                None => self.requests,
            },
            ..self
        }
    }

    /// The time in which the attempt's requests produced output, known only where the
    /// evidence of every one of them is complete and one had output, and the tokens that
    /// they produced in it, known only where every request counts toward a rate.
    pub open spec fn work(self) -> Option<(u64, Option<u64>)> {
        if (forall|i: int| 0 <= i < self.requests.len() ==> is_complete(#[trigger] self.requests[i]))
            && (exists|i: int| 0 <= i < self.requests.len() && has_output(#[trigger] self.requests[i]))
            && total_span_ms(self.requests) <= u64::MAX {
            Some(
                (
                    total_span_ms(self.requests) as u64,
                    if (forall|i: int|
                        0 <= i < self.requests.len() ==> is_rated(#[trigger] self.requests[i]))
                        && total_tokens(self.requests) <= u64::MAX {
                        Some(total_tokens(self.requests) as u64)
                    } else {
                        None
                    },
                ),
            )
        } else {
            None
        }
    }

    /// The time to the first output of the request that started first.
    pub open spec fn ttft(self) -> Option<u64> {
        match self.first {
            Some(first) => match crate::search::position(self.requests, is_request(first@)) {
                Some(index) => match self.requests[index].reading {
                    Some(reading) => match reading.generation {
                        Some(generation) => generation.first_output_ms,
                        None => None,
                    },
                    None => None,
                },
                None => None,
            },
            None => None,
        }
    }

    /// What is known of the time that a response took. Where nothing else is known, a run
    /// of no measurable time is no knowledge either, and there is no summary.
    pub open spec fn summary(self, start: Option<Timestamp>, end: Timestamp) -> Option<
        CompletedResponseTiming,
    > {
        let timing = CompletedResponseTiming {
            total_duration_ms: match start {
                Some(start) if start.not_after_spec(end) && start.millis_until_spec(end) >= 0 => Some(
                    start.millis_until_spec(end) as u64,
                ),
                _ => None,
            },
            ttft_ms: self.ttft(),
            generation_ms: match self.work() {
                Some((duration, _)) => Some(duration),
                None => None,
            },
            output_rate: match self.work() {
                Some((duration, Some(tokens))) if duration > 0 => Some(
                    OutputRate { tokens, duration_ms: duration },
                ),
                _ => None,
            },
        };
        if (timing.total_duration_ms is None || timing.total_duration_ms == Some(0u64))
            && timing.ttft_ms is None && timing.generation_ms is None && timing.output_rate is None {
            None
        } else {
            Some(timing)
        }
    }
}

impl TimingFold {
    /// The requests of an attempt that has made none.
    pub fn new() -> (fold: Self)
        ensures
            fold@ == TimingModel::none(),
    {
        TimingFold { first: None, requests: Vec::new() }
    }

    /// The place of a request.
    fn request_index(&self, id: &RequestId) -> (index: Option<usize>)
        ensures
            match index {
                Some(index) => index < self.requests@.len() && crate::search::position(
                    self@.requests,
                    is_request(id@),
                ) == Some(index as int),
                None => crate::search::position(self@.requests, is_request(id@)) is None,
            },
    {
        let ghost test = is_request(id@);
        let mut i: usize = 0;
        while i < self.requests.len()
            invariant
                i <= self.requests@.len(),
                test == is_request(id@),
                forall|k: int| 0 <= k < i ==> !test(#[trigger] self.requests@[k]),
            decreases self.requests@.len() - i,
        {
            if self.requests[i].id.same(id) {
                proof {
                    crate::search::lemma_position_at(self.requests@, test, i as int);
                }
                return Some(i);
            }
            i += 1;
        }
        proof {
            crate::search::lemma_position_none(self.requests@, test);
        }
        None
    }

    /// Records the start of a request.
    pub fn start(&mut self, id: RequestId)
        ensures
            final(self)@ == old(self)@.started(id),
    {
        if self.first.is_none() {
            self.first = Some(id.clone());
        }
        match self.request_index(&id) {
            Some(index) => {
                self.requests[index].reading = None;
            },
            None => {
                self.requests.push(TimedRequest { id, reading: None });
            },
        }
    }

    /// Records the end of a request.
    pub fn terminal(
        &mut self,
        id: &RequestId,
        generation: Option<GenerationEvidence>,
        usage: Option<&ModelUsage>,
    )
        ensures
            final(self)@ == old(self)@.ended(
                id@,
                generation,
                match usage {
                    Some(usage) => Some(*usage),
                    None => None,
                },
            ),
    {
        if let Some(index) = self.request_index(id) {
            let output_tokens = match usage {
                Some(usage) => Some(usage.output_tokens),
                None => None,
            };
            self.requests[index].reading = Some(RequestReading { generation, output_tokens });
        }
    }

    /// What is known of the time that a response took.
    pub fn summary(&self, start: Option<Timestamp>, end: Timestamp) -> (timing: Option<
        CompletedResponseTiming,
    >)
        ensures
            timing == self@.summary(start, end),
    {
        let mut total_duration_ms: Option<u64> = None;
        if let Some(start) = start {
            if start.not_after(&end) {
                let millis: i64 = start.millis_until(&end);
                if millis >= 0 {
                    total_duration_ms = Some(millis as u64);
                }
            }
        }
        let mut ttft_ms: Option<u64> = None;
        if let Some(first) = &self.first {
            if let Some(index) = self.request_index(first) {
                if let Some(reading) = &self.requests[index].reading {
                    if let Some(generation) = &reading.generation {
                        ttft_ms = generation.time_to_first_output_ms();
                    }
                }
            }
        }
        let mut generation_ms: Option<u64> = None;
        let mut output_rate: Option<OutputRate> = None;
        if let Some((duration, output)) = self.work() {
            generation_ms = Some(duration);
            if let Some(tokens) = output {
                if duration > 0 {
                    output_rate = Some(OutputRate { tokens, duration_ms: duration });
                }
            }
        }
        let took_time: bool = match total_duration_ms {
            Some(millis) => millis > 0,
            None => false,
        };
        if !took_time && ttft_ms.is_none() && generation_ms.is_none() && output_rate.is_none() {
            return None;
        }
        Some(CompletedResponseTiming { total_duration_ms, ttft_ms, generation_ms, output_rate })
    }

    /// The time in which the requests produced output, and the tokens that they produced
    /// in it.
    fn work(&self) -> (work: Option<(u64, Option<u64>)>)
        ensures
            work == self@.work(),
    {
        let ghost requests = self@.requests;
        let mut duration: u64 = 0;
        let mut output: Option<u64> = Some(0);
        let mut observed_output = false;
        let mut i: usize = 0;
        while i < self.requests.len()
            invariant
                i <= self.requests@.len(),
                requests == self.requests@,
                forall|k: int| 0 <= k < i ==> is_complete(#[trigger] requests[k]),
                duration == total_span_ms(requests.take(i as int)),
                observed_output == (exists|k: int| 0 <= k < i && has_output(#[trigger] requests[k])),
                output == if (forall|k: int| 0 <= k < i ==> is_rated(#[trigger] requests[k]))
                    && total_tokens(requests.take(i as int)) <= u64::MAX {
                    Some(total_tokens(requests.take(i as int)) as u64)
                } else {
                    None
                },
                total_tokens(requests.take(i as int)) >= 0,
            decreases self.requests@.len() - i,
        {
            let ghost current = requests[i as int];
            proof {
                assert(requests.take(i + 1).drop_last() =~= requests.take(i as int));
                assert(requests.take(i + 1).last() == current);
            }
            let reading = match self.requests[i].reading {
                Some(reading) => reading,
                None => {
                    assert(!is_complete(current));
                    return None;
                },
            };
            let generation = match reading.generation {
                Some(generation) => generation,
                None => {
                    assert(!is_complete(current));
                    return None;
                },
            };
            let tokens = reading.output_tokens;
            if generation.first_output_ms.is_some() {
                observed_output = true;
                assert(has_output(current));
                let span: u64 = match generation.generation_ms() {
                    Some(span) => span,
                    None => {
                        assert(!is_complete(current));
                        return None;
                    },
                };
                duration = match duration.checked_add(span) {
                    Some(duration) => duration,
                    None => {
                        proof {
                            if forall|k: int|
                                0 <= k < requests.len() ==> is_complete(#[trigger] requests[k]) {
                                lemma_totals_grow(requests, i + 1);
                            }
                        }
                        return None;
                    },
                };
                output = match (output, tokens) {
                    (Some(before), Some(tokens)) if span > 0 => before.checked_add(tokens),
                    _ => None,
                };
            } else if generation.last_output_ms.is_some() {
                assert(!is_complete(current));
                return None;
            } else {
                assert(!has_output(current));
                match tokens {
                    Some(0) => {},
                    _ => {
                        output = None;
                    },
                }
            }
            assert(is_complete(current));
            i += 1;
            proof {
                assert(is_rated(current) ==> tokens is Some);
                if (forall|k: int| 0 <= k < i ==> is_rated(#[trigger] requests[k])) {
                    assert(forall|k: int| 0 <= k < i - 1 ==> is_rated(#[trigger] requests[k]));
                    assert(is_rated(requests[i - 1]));
                }
                if (forall|k: int| 0 <= k < i - 1 ==> is_rated(#[trigger] requests[k]))
                    && is_rated(current) {
                    assert forall|k: int| 0 <= k < i implies is_rated(#[trigger] requests[k]) by {
                        if k == i - 1 {
                            assert(requests[k] == current);
                        }
                    }
                }
            }
        }
        assert(requests.take(i as int) =~= requests);
        if observed_output {
            Some((duration, output))
        } else {
            None
        }
    }
}

/// A total of complete requests is no smaller than that of its first ones.
proof fn lemma_totals_grow(requests: Seq<TimedRequest>, count: int)
    requires
        0 <= count <= requests.len(),
        forall|k: int| 0 <= k < requests.len() ==> is_complete(#[trigger] requests[k]),
    ensures
        total_span_ms(requests.take(count)) <= total_span_ms(requests),
    decreases requests.len() - count,
{
    if count < requests.len() {
        assert(requests.take(count + 1).drop_last() =~= requests.take(count));
        assert(requests.take(count + 1).last() == requests[count]);
        lemma_totals_grow(requests, count + 1);
    } else {
        assert(requests.take(count) =~= requests);
    }
}

} // verus!
