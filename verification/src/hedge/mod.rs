//! Pre-emptive ("hedged") retries: a request that has been outstanding for
//! longer than a given latency percentile is issued a second time, and the
//! first of the two responses is used.
//!
//! The latency percentile comes from a rotating histogram of past latencies;
//! a hedge is only considered once the histogram holds enough samples. This
//! module decides each step of the response future's poll loop.

pub mod rotating;

pub use self::rotating::Rotating;

use crate::progress::Progress;
use vstd::prelude::*;

verus! {

/// A "retry policy" to classify if a request should be pre-emptively retried.
pub trait Policy<Request> {
    fn can_retry(&self, req: &Request) -> bool;

    fn clone_request(&self, req: &Request) -> Option<Request>;
}

/// The fewest latency samples from which a hedge delay is derived: with fewer
/// there is not enough confidence about the distribution.
pub const MIN_HEDGE_SAMPLES: u64 = 10;

/// Where a hedged response's poll loop is.
#[derive(Clone, Copy, Debug, PartialEq, Eq, Structural)]
pub enum HedgeStep {
    /// About to poll the original response.
    Original,
    /// Polling the hedge delay.
    Delay,
    /// Polling the service's readiness for the hedge request.
    HedgeReady,
    /// Asking the policy whether the request may be retried.
    Policy,
    /// Starting the hedge request.
    Starting,
}

/// The state of a hedged response.
#[derive(Clone, Copy, Debug, PartialEq, Eq, Structural)]
pub struct HedgeState {
    pub step: HedgeStep,
    /// A hedge request has been issued.
    pub hedging: bool,
    /// There is a delay after which a hedge may be issued.
    pub delay_armed: bool,
    /// A clone of the request is held for a hedge.
    pub holds_request: bool,
}

/// What the driver of a hedged response learned since the last step.
#[derive(Clone, Copy, Debug, PartialEq, Eq, Structural)]
pub enum HedgeEvent {
    /// The response was polled.
    Polled,
    /// The outcome of polling the original response.
    Original(Progress),
    /// The outcome of polling the delay (`Failed`: a timer error).
    Delay(Progress),
    /// The outcome of polling the service's readiness (`Failed`: the service
    /// refused; no hedge is issued then, and the error is not returned).
    HedgeReady(Progress),
    /// Whether the policy allows retrying the held request.
    Retryable(bool),
    /// The hedge request was issued; whether a fresh clone of the request
    /// could be kept.
    Started(bool),
}

/// What the driver of a hedged response does next.
#[derive(Clone, Copy, Debug, PartialEq, Eq, Structural)]
pub enum HedgeAction {
    /// Poll the original response.
    PollOriginal,
    /// Record the latency and return the original response (or its error).
    FinishOriginal,
    /// Return the outcome of polling the hedge response.
    ReturnHedge,
    /// Poll the delay.
    PollDelay,
    /// Poll the service's readiness.
    PollHedgeReady,
    /// Take the held request and ask the policy whether it may be retried; if
    /// not, put it back.
    AskPolicy,
    /// Keep a fresh clone of the request (if the policy gives one) and call
    /// the service with the request.
    StartHedge,
    /// Return `NotReady`.
    Wait,
}

/// The hedged response's transition.
pub open spec fn hedge_next(s: HedgeState, e: HedgeEvent) -> (HedgeState, HedgeAction) {
    let at = |step: HedgeStep| HedgeState { step, ..s };
    match s.step {
        HedgeStep::Original => match e {
            HedgeEvent::Original(Progress::Ready) => (s, HedgeAction::FinishOriginal),
            HedgeEvent::Original(Progress::Failed) => (s, HedgeAction::FinishOriginal),
            HedgeEvent::Original(Progress::NotReady) => if s.hedging {
                (s, HedgeAction::ReturnHedge)
            } else if !s.delay_armed {
                (s, HedgeAction::Wait)
            } else {
                (at(HedgeStep::Delay), HedgeAction::PollDelay)
            },
            _ => (s, HedgeAction::PollOriginal),
        },
        HedgeStep::Delay => match e {
            HedgeEvent::Delay(Progress::Ready) => (at(HedgeStep::HedgeReady), HedgeAction::PollHedgeReady),
            HedgeEvent::Delay(_) => (at(HedgeStep::Original), HedgeAction::Wait),
            HedgeEvent::Polled => (at(HedgeStep::Original), HedgeAction::PollOriginal),
            _ => (s, HedgeAction::PollDelay),
        },
        HedgeStep::HedgeReady => match e {
            HedgeEvent::HedgeReady(Progress::Ready) => if s.holds_request {
                (at(HedgeStep::Policy), HedgeAction::AskPolicy)
            } else {
                (at(HedgeStep::Original), HedgeAction::Wait)
            },
            HedgeEvent::HedgeReady(_) => (at(HedgeStep::Original), HedgeAction::Wait),
            HedgeEvent::Polled => (at(HedgeStep::Original), HedgeAction::PollOriginal),
            _ => (s, HedgeAction::PollHedgeReady),
        },
        HedgeStep::Policy => match e {
            HedgeEvent::Retryable(true) => (
                HedgeState { step: HedgeStep::Starting, holds_request: false, ..s },
                HedgeAction::StartHedge,
            ),
            HedgeEvent::Retryable(false) => (at(HedgeStep::Original), HedgeAction::Wait),
            HedgeEvent::Polled => (at(HedgeStep::Original), HedgeAction::PollOriginal),
            _ => (s, HedgeAction::AskPolicy),
        },
        HedgeStep::Starting => match e {
            HedgeEvent::Started(kept) => (
                HedgeState { step: HedgeStep::Original, hedging: true, holds_request: kept, ..s },
                HedgeAction::PollOriginal,
            ),
            _ => (s, HedgeAction::Wait),
        },
    }
}

/// What each step can rely on: a policy is asked only for a held request, and
/// the delay is polled only before any hedge, when there is a delay.
pub open spec fn hedge_inv(s: HedgeState) -> bool {
    &&& s.step == HedgeStep::Policy ==> s.holds_request
    &&& s.step == HedgeStep::Starting ==> !s.holds_request
    &&& s.step != HedgeStep::Original ==> s.delay_armed && !s.hedging
}

impl HedgeState {
    /// The state of a response just issued: whether a clone of the request
    /// is held, and whether there is a hedge delay.
    pub fn new(holds_request: bool, delay_armed: bool) -> (r: HedgeState)
        ensures
            r == (HedgeState {
                step: HedgeStep::Original,
                hedging: false,
                delay_armed,
                holds_request,
            }),
            hedge_inv(r),
    {
        HedgeState { step: HedgeStep::Original, hedging: false, delay_armed, holds_request }
    }

    /// Takes one step of the hedged response's poll loop.
    pub fn step(&mut self, e: HedgeEvent) -> (a: HedgeAction)
        ensures
            (*final(self), a) == hedge_next(*old(self), e),
    {
        let s = *self;
        let (n, a) = match s.step {
            HedgeStep::Original => match e {
                HedgeEvent::Original(Progress::Ready) => (s, HedgeAction::FinishOriginal),
                HedgeEvent::Original(Progress::Failed) => (s, HedgeAction::FinishOriginal),
                HedgeEvent::Original(Progress::NotReady) => {
                    if s.hedging {
                        (s, HedgeAction::ReturnHedge)
                    } else if !s.delay_armed {
                        (s, HedgeAction::Wait)
                    } else {
                        (HedgeState { step: HedgeStep::Delay, ..s }, HedgeAction::PollDelay)
                    }
                },
                _ => (s, HedgeAction::PollOriginal),
            },
            HedgeStep::Delay => match e {
                HedgeEvent::Delay(Progress::Ready) => (
                    HedgeState { step: HedgeStep::HedgeReady, ..s },
                    HedgeAction::PollHedgeReady,
                ),
                HedgeEvent::Delay(_) => (HedgeState { step: HedgeStep::Original, ..s }, HedgeAction::Wait),
                HedgeEvent::Polled => (
                    HedgeState { step: HedgeStep::Original, ..s },
                    HedgeAction::PollOriginal,
                ),
                _ => (s, HedgeAction::PollDelay),
            },
            HedgeStep::HedgeReady => match e {
                HedgeEvent::HedgeReady(Progress::Ready) => {
                    if s.holds_request {
                        (HedgeState { step: HedgeStep::Policy, ..s }, HedgeAction::AskPolicy)
                    } else {
                        (HedgeState { step: HedgeStep::Original, ..s }, HedgeAction::Wait)
                    }
                },
                HedgeEvent::HedgeReady(_) => (
                    HedgeState { step: HedgeStep::Original, ..s },
                    HedgeAction::Wait,
                ),
                HedgeEvent::Polled => (
                    HedgeState { step: HedgeStep::Original, ..s },
                    HedgeAction::PollOriginal,
                ),
                _ => (s, HedgeAction::PollHedgeReady),
            },
            HedgeStep::Policy => match e {
                HedgeEvent::Retryable(true) => (
                    HedgeState { step: HedgeStep::Starting, holds_request: false, ..s },
                    HedgeAction::StartHedge,
                ),
                HedgeEvent::Retryable(false) => (
                    HedgeState { step: HedgeStep::Original, ..s },
                    HedgeAction::Wait,
                ),
                HedgeEvent::Polled => (
                    HedgeState { step: HedgeStep::Original, ..s },
                    HedgeAction::PollOriginal,
                ),
                _ => (s, HedgeAction::AskPolicy),
            },
            HedgeStep::Starting => match e {
                HedgeEvent::Started(kept) => (
                    HedgeState { step: HedgeStep::Original, hedging: true, holds_request: kept, ..s },
                    HedgeAction::PollOriginal,
                ),
                _ => (s, HedgeAction::Wait),
            },
        };
        *self = n;
        a
    }
}

/// Every step keeps the state's invariant.
pub proof fn lemma_hedge_inv(s: HedgeState, e: HedgeEvent)
    requires
        hedge_inv(s),
    ensures
        hedge_inv(hedge_next(s, e).0),
{
}

/// If the original response completes, its result is used (and its latency
/// recorded) — unless a hedge is being started at that moment, the original
/// is polled before anything else.
pub proof fn lemma_original_wins(s: HedgeState, p: Progress)
    requires
        s.step == HedgeStep::Original,
        p != Progress::NotReady,
    ensures
        hedge_next(s, HedgeEvent::Original(p)) == (s, HedgeAction::FinishOriginal),
        hedge_next(s, HedgeEvent::Polled).1 == HedgeAction::PollOriginal,
{
}

/// Once a hedge is issued, a pending original defers to the hedge response,
/// and no second hedge is ever issued.
pub proof fn lemma_single_hedge(s: HedgeState, e: HedgeEvent)
    requires
        hedge_inv(s),
    ensures
        s.hedging ==> hedge_next(s, e).0.hedging,
        hedge_next(s, e).1 == HedgeAction::StartHedge ==> !s.hedging && s.step == HedgeStep::Policy,
        s.hedging && s.step == HedgeStep::Original ==> hedge_next(
            s,
            HedgeEvent::Original(Progress::NotReady),
        ).1 == HedgeAction::ReturnHedge,
{
}

/// A hedge is issued only for a held request, after the delay fired, the
/// service was ready and the policy allowed it; without a delay no hedge is
/// ever issued.
pub proof fn lemma_hedge_preconditions(s: HedgeState, e: HedgeEvent)
    requires
        hedge_inv(s),
    ensures
        hedge_next(s, e).1 == HedgeAction::StartHedge ==> s.holds_request && s.delay_armed && e
            == HedgeEvent::Retryable(true),
        hedge_next(s, e).0.step == HedgeStep::Policy && s.step != HedgeStep::Policy ==> s.step
            == HedgeStep::HedgeReady && e == HedgeEvent::HedgeReady(Progress::Ready),
        hedge_next(s, e).0.step == HedgeStep::HedgeReady && s.step != HedgeStep::HedgeReady ==> s.step
            == HedgeStep::Delay && e == HedgeEvent::Delay(Progress::Ready),
        hedge_next(s, e).0.delay_armed == s.delay_armed,
{
}

/// A response ends only with the outcome of the original or, once a hedge was
/// issued, of the hedge: a timer error or a service that refuses the hedge
/// only makes the response wait for the original.
pub proof fn lemma_answer_from_original_or_hedge(s: HedgeState, e: HedgeEvent)
    requires
        hedge_inv(s),
    ensures
        hedge_next(s, e).1 == HedgeAction::FinishOriginal ==> s.step == HedgeStep::Original && (e
            == HedgeEvent::Original(Progress::Ready) || e == HedgeEvent::Original(Progress::Failed)),
        hedge_next(s, e).1 == HedgeAction::ReturnHedge ==> s.hedging && e == HedgeEvent::Original(
            Progress::NotReady,
        ),
        s.step == HedgeStep::HedgeReady && e == HedgeEvent::HedgeReady(Progress::Failed) ==> hedge_next(
            s,
            e,
        ) == ((HedgeState { step: HedgeStep::Original, ..s }), HedgeAction::Wait),
        s.step == HedgeStep::Delay && e == HedgeEvent::Delay(Progress::Failed) ==> hedge_next(s, e) == (
            (HedgeState { step: HedgeStep::Original, ..s }),
            HedgeAction::Wait,
        ),
{
}

/// The response returns `NotReady` only when something it polled reported
/// nothing yet (or a timer error, a refused readiness, or no clone to
/// hedge with, or a refusing policy): never right after a hedge is started.
/// Waiting leaves the loop at the original response, which the next poll
/// polls first.
pub proof fn lemma_wait_only_when_pending(s: HedgeState, e: HedgeEvent)
    requires
        hedge_inv(s),
    ensures
        hedge_next(s, e).1 == HedgeAction::Wait ==> {
            ||| s.step == HedgeStep::Original && e == HedgeEvent::Original(Progress::NotReady)
                && !s.hedging && !s.delay_armed
            ||| s.step == HedgeStep::Delay && (e == HedgeEvent::Delay(Progress::NotReady) || e
                == HedgeEvent::Delay(Progress::Failed))
            ||| s.step == HedgeStep::HedgeReady && (e == HedgeEvent::HedgeReady(Progress::NotReady)
                || e == HedgeEvent::HedgeReady(Progress::Failed))
            ||| s.step == HedgeStep::HedgeReady && e == HedgeEvent::HedgeReady(Progress::Ready)
                && !s.holds_request
            ||| s.step == HedgeStep::Policy && e == HedgeEvent::Retryable(false)
            ||| s.step == HedgeStep::Starting && !(e is Started)
        },
        hedge_next(s, e).1 == HedgeAction::Wait && s.step != HedgeStep::Starting ==> hedge_next(
            s,
            e,
        ).0.step == HedgeStep::Original && hedge_next(hedge_next(s, e).0, HedgeEvent::Polled).1
            == HedgeAction::PollOriginal,
{
}

/// Once the hedge request is issued the loop goes on at once: it polls the
/// original, and, while that is pending, returns the hedge's outcome in the
/// same poll. The hedge counts as issued from then on and the clone kept for
/// it is what the response holds.
pub proof fn lemma_started_hedge_is_polled(s: HedgeState, kept: bool)
    requires
        hedge_inv(s),
        s.step == HedgeStep::Starting,
    ensures
        hedge_next(s, HedgeEvent::Started(kept)).1 == HedgeAction::PollOriginal,
        hedge_next(s, HedgeEvent::Started(kept)).0.step == HedgeStep::Original,
        hedge_next(s, HedgeEvent::Started(kept)).0.hedging,
        hedge_next(s, HedgeEvent::Started(kept)).0.holds_request == kept,
        hedge_next(s, HedgeEvent::Started(kept)).0.delay_armed == s.delay_armed,
        hedge_next(hedge_next(s, HedgeEvent::Started(kept)).0, HedgeEvent::Original(Progress::NotReady)).1
            == HedgeAction::ReturnHedge,
{
}

/// Each action is the poll that the next state is waiting on, and each
/// completed poll moves the loop forward: a pending original, without a
/// hedge, goes on to the delay; a fired delay to the service's readiness; a
/// ready service, with a held request, to the policy; an allowing policy to
/// starting the hedge.
pub proof fn lemma_hedge_progress(s: HedgeState, e: HedgeEvent)
    requires
        hedge_inv(s),
    ensures
        hedge_next(s, e).1 == HedgeAction::PollOriginal ==> hedge_next(s, e).0.step == HedgeStep::Original,
        hedge_next(s, e).1 == HedgeAction::PollDelay ==> hedge_next(s, e).0.step == HedgeStep::Delay,
        hedge_next(s, e).1 == HedgeAction::PollHedgeReady ==> hedge_next(s, e).0.step
            == HedgeStep::HedgeReady,
        hedge_next(s, e).1 == HedgeAction::AskPolicy ==> hedge_next(s, e).0.step == HedgeStep::Policy,
        hedge_next(s, e).1 == HedgeAction::StartHedge ==> hedge_next(s, e).0.step == HedgeStep::Starting,
        s.step == HedgeStep::Original && e == HedgeEvent::Original(Progress::NotReady) && !s.hedging
            && s.delay_armed ==> hedge_next(s, e).1 == HedgeAction::PollDelay,
        s.step == HedgeStep::Delay && e == HedgeEvent::Delay(Progress::Ready) ==> hedge_next(s, e).1
            == HedgeAction::PollHedgeReady,
        s.step == HedgeStep::HedgeReady && e == HedgeEvent::HedgeReady(Progress::Ready)
            && s.holds_request ==> hedge_next(s, e).1 == HedgeAction::AskPolicy,
        s.step == HedgeStep::Policy && e == HedgeEvent::Retryable(true) ==> hedge_next(s, e).1
            == HedgeAction::StartHedge && !hedge_next(s, e).0.holds_request,
        s.step != HedgeStep::Starting && e == HedgeEvent::Polled ==> hedge_next(s, e) == (
            (HedgeState { step: HedgeStep::Original, ..s }),
            HedgeAction::PollOriginal,
        ),
        hedge_next(s, e).0.hedging != s.hedging ==> s.step == HedgeStep::Starting && e is Started
            && hedge_next(s, e).0.hedging,
        hedge_next(s, e).0.holds_request != s.holds_request ==> (s.step == HedgeStep::Policy && e
            == HedgeEvent::Retryable(true)) || (s.step == HedgeStep::Starting && e
            == HedgeEvent::Started(hedge_next(s, e).0.holds_request)),
{
}

/// A refusing policy leaves the request held, and no hedge is issued.
pub proof fn lemma_refused_retry_keeps_request(s: HedgeState)
    requires
        s.step == HedgeStep::Policy,
    ensures
        hedge_next(s, HedgeEvent::Retryable(false)).1 == HedgeAction::Wait,
        hedge_next(s, HedgeEvent::Retryable(false)).0.holds_request == s.holds_request,
        !hedge_next(s, HedgeEvent::Retryable(false)).0.hedging || s.hedging,
{
}

/// The state after a sequence of events.
pub open spec fn hedge_run(s: HedgeState, events: Seq<HedgeEvent>) -> HedgeState
    decreases events.len(),
{
    if events.len() == 0 {
        s
    } else {
        hedge_run(hedge_next(s, events[0]).0, events.drop_first())
    }
}

/// How many hedge requests a sequence of events starts.
pub open spec fn hedges_started(s: HedgeState, events: Seq<HedgeEvent>) -> nat
    decreases events.len(),
{
    if events.len() == 0 {
        0
    } else {
        let (n, a) = hedge_next(s, events[0]);
        (if a == HedgeAction::StartHedge {
            1nat
        } else {
            0nat
        }) + hedges_started(n, events.drop_first())
    }
}

/// A hedge request has been (or is being) issued.
pub open spec fn hedge_issued(s: HedgeState) -> bool {
    s.hedging || s.step == HedgeStep::Starting
}

/// Whatever happens, a response issues at most one hedge request, and none
/// once one has been issued or when it has no delay.
pub proof fn lemma_at_most_one_hedge(s: HedgeState, events: Seq<HedgeEvent>)
    requires
        hedge_inv(s),
    ensures
        hedges_started(s, events) <= (if hedge_issued(s) || !s.delay_armed {
            0nat
        } else {
            1nat
        }),
        hedge_inv(hedge_run(s, events)),
        hedge_issued(s) ==> hedge_issued(hedge_run(s, events)),
        hedge_run(s, events).delay_armed == s.delay_armed,
    decreases events.len(),
{
    if events.len() > 0 {
        let (n, a) = hedge_next(s, events[0]);
        lemma_hedge_inv(s, events[0]);
        lemma_at_most_one_hedge(n, events.drop_first());
    }
}

} // verus!
