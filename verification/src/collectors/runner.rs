//! The cycle of one probe: declare the metrics, then for ever ask the
//! measurement service, turn the outcome into samples, and pause. What to
//! do next is decided here; the caller does it and reports what happened.

use vstd::prelude::*;
use crate::collectors::{
    Collector, CollectorErrors, ErrorModel, all_carry_base, descriptors_view,
};
use crate::config::Duration;
use crate::metric::{MetricDescriptor, MetricSample, SampleModel, samples_view};

verus! {

/// Where a probe stands in its cycle.
#[derive(Clone, Copy, Debug, PartialEq, Eq, Structural)]
pub enum CycleState {
    /// Nothing has been done yet.
    Starting,
    /// The metrics are being declared.
    Registering,
    /// A request is under way.
    Requesting,
    /// The probe pauses between two requests.
    Sleeping,
}

/// What the caller reports of the last action.
#[derive(Debug)]
pub enum CycleEvent<R> {
    /// The probe starts.
    Start,
    /// The metrics were declared.
    Registered,
    /// The service answered.
    Responded(R),
    /// The request failed on the way, for the given reason.
    RequestFailed(String),
    /// The request did not end within the ceiling.
    TimedOut,
    /// The pause is over.
    Slept,
}

/// What the caller is to do next.
#[derive(Debug)]
pub enum CycleAction<Q> {
    /// Declare these metrics to the sink.
    Register(Vec<MetricDescriptor>),
    /// Send this request, and give up after `ceiling`.
    Request { request: Q, ceiling: Duration },
    /// Hand these samples to the sink, then pause for `pause`.
    Record { samples: Vec<MetricSample>, pause: Duration },
}

/// The time after which a request is given up: sixty seconds.
pub open spec fn ceiling() -> Duration {
    Duration { secs: 60, nanos: 0 }
}

/// The time after which a request is given up.
pub fn request_ceiling() -> (d: Duration)
    ensures
        d == ceiling(),
{
    Duration::from_secs(60)
}

/// The state that follows `state`. The cycle runs from the start through
/// the declaration of the metrics, and then for ever from request to pause
/// and back. Each cycle makes one request: whatever is reported while a
/// request is under way ends the cycle, and the pause follows.
pub open spec fn next_state<R>(state: CycleState, event: CycleEvent<R>) -> CycleState {
    match state {
        CycleState::Starting => CycleState::Registering,
        CycleState::Registering => CycleState::Requesting,
        CycleState::Requesting => CycleState::Sleeping,
        CycleState::Sleeping => CycleState::Requesting,
    }
}

/// The error that a report stands for which is no response: the time that
/// ran out, the request that failed for the reason given, or, for any
/// other report, a request of which no outcome is known.
pub open spec fn transport_error<R>(event: CycleEvent<R>) -> ErrorModel {
    match event {
        CycleEvent::TimedOut => ErrorModel::Timeout(ceiling()),
        CycleEvent::RequestFailed(reason) => ErrorModel::Measurement {
            metric: "unknown"@,
            reason: reason@,
        },
        _ => ErrorModel::Measurement { metric: "unknown"@, reason: "no outcome"@ },
    }
}

/// The samples that the outcome of a request gives: those of the response,
/// or the failure sample for what went wrong, be it the response that
/// could not be used, the request that failed, or the time that ran out.
pub open spec fn outcome_samples<C: Collector>(collector: C, event: CycleEvent<C::Response>)
    -> Seq<SampleModel> {
    match event {
        CycleEvent::Responded(response) => match collector.derived(response) {
            Ok(samples) => samples,
            Err(e) => collector.failure(e),
        },
        _ => collector.failure(transport_error(event)),
    }
}

/// Whether `action` is what the collector is to do on leaving `state`
/// upon `event`.
pub open spec fn action_fits<C: Collector>(
    collector: C,
    state: CycleState,
    event: CycleEvent<C::Response>,
    action: CycleAction<C::Request>,
) -> bool {
    match next_state(state, event) {
        CycleState::Registering => action matches CycleAction::Register(list)
            && descriptors_view(list@) == collector.descriptors(),
        CycleState::Requesting => action matches CycleAction::Request { request, ceiling: limit }
            && collector.asks(request) && limit == ceiling(),
        CycleState::Sleeping => action matches CycleAction::Record { samples, pause }
            && samples_view(samples@) == outcome_samples(collector, event) && pause
            == collector.frequency(),
        CycleState::Starting => false,
    }
}

/// One step of the cycle: the state that follows, and what the caller is
/// to do. There is always a next action; no state and no event ends the
/// cycle, and no cycle makes a second request.
pub fn step<C: Collector>(collector: &C, state: CycleState, event: CycleEvent<C::Response>) -> (r: (
    CycleState,
    CycleAction<C::Request>,
))
    ensures
        r.0 == next_state(state, event),
        r.0 != CycleState::Starting,
        action_fits(*collector, state, event, r.1),
{
    match state {
        CycleState::Starting => (
            CycleState::Registering,
            CycleAction::Register(collector.register_metrics()),
        ),
        CycleState::Registering | CycleState::Sleeping => (
            CycleState::Requesting,
            CycleAction::Request {
                request: collector.build_request(),
                ceiling: request_ceiling(),
            },
        ),
        CycleState::Requesting => {
            let pause = collector.get_frequency();
            match event {
                CycleEvent::Responded(response) => {
                    let samples = match collector.handle_response(response) {
                        Ok(samples) => samples,
                        Err(e) => collector.handle_errors(e),
                    };
                    (CycleState::Sleeping, CycleAction::Record { samples, pause })
                },
                CycleEvent::RequestFailed(reason) => {
                    let error = CollectorErrors::Measurement {
                        metric: String::from_str("unknown"),
                        reason,
                    };
                    (
                        CycleState::Sleeping,
                        CycleAction::Record { samples: collector.handle_errors(error), pause },
                    )
                },
                CycleEvent::TimedOut => {
                    let error = CollectorErrors::Timeout(request_ceiling());
                    (
                        CycleState::Sleeping,
                        CycleAction::Record { samples: collector.handle_errors(error), pause },
                    )
                },
                _ => {
                    let error = CollectorErrors::Measurement {
                        metric: String::from_str("unknown"),
                        reason: String::from_str("no outcome"),
                    };
                    (
                        CycleState::Sleeping,
                        CycleAction::Record { samples: collector.handle_errors(error), pause },
                    )
                },
            }
        },
    }
}

/// A request that runs out of time does not stall the cycle: the failure
/// is recorded as a timeout, the pause is the usual one, and whatever is
/// reported after the pause, the next request follows.
pub proof fn lemma_timeout_does_not_stall<C: Collector>(
    collector: C,
    action: CycleAction<C::Request>,
    after: CycleEvent<C::Response>,
    then: CycleAction<C::Request>,
)
    requires
        action_fits(collector, CycleState::Requesting, CycleEvent::<C::Response>::TimedOut, action),
        action_fits(collector, CycleState::Sleeping, after, then),
    ensures
        next_state(CycleState::Requesting, CycleEvent::<C::Response>::TimedOut)
            == CycleState::Sleeping,
        action matches CycleAction::Record { samples, pause } && samples_view(samples@)
            == collector.failure(ErrorModel::Timeout(ceiling())) && pause == collector.frequency(),
        next_state(CycleState::Sleeping, after) == CycleState::Requesting,
        then matches CycleAction::Request { request, ceiling: limit } && collector.asks(request),
{
}

/// Whatever the outcome of a request, every sample that is recorded for it
/// holds the keys that all samples share.
pub proof fn lemma_outcome_carries_base<C: Collector>(collector: C, event: CycleEvent<C::Response>)
    ensures
        all_carry_base(outcome_samples(collector, event)),
{
    match event {
        CycleEvent::Responded(response) => {
            collector.lemma_derived_carries_base(response);
            match collector.derived(response) {
                Ok(_) => {},
                Err(e) => {
                    collector.lemma_failure_carries_base(e);
                },
            }
        },
        _ => {
            collector.lemma_failure_carries_base(transport_error(event));
        },
    }
}

/// No cycle makes a second request: whatever is reported while a request
/// is under way, the pause follows, and what is recorded is the outcome of
/// that one request.
pub proof fn lemma_one_request_per_cycle<C: Collector>(
    collector: C,
    event: CycleEvent<C::Response>,
    action: CycleAction<C::Request>,
)
    requires
        action_fits(collector, CycleState::Requesting, event, action),
    ensures
        next_state(CycleState::Requesting, event) == CycleState::Sleeping,
        action matches CycleAction::Record { samples, pause } && samples_view(samples@)
            == outcome_samples(collector, event) && pause == collector.frequency(),
{
}

/// From every state the cycle goes on: the state that follows is never the
/// start, and whatever is reported, a request is under way again after at
/// most two steps.
pub proof fn lemma_cycle_goes_on<R>(state: CycleState, first: CycleEvent<R>, second: CycleEvent<R>)
    ensures
        next_state(state, first) != CycleState::Starting,
        next_state(state, first) == CycleState::Requesting || next_state(
            next_state(state, first),
            second,
        ) == CycleState::Requesting,
{
}

} // verus!
