//! A buffer in front of a service that is still being built.
//!
//! Requests go through a bounded channel to a daemon task. The daemon first
//! drives the future that builds the service, then, each time the service is
//! ready, takes one request and hands the service's response future back
//! through a oneshot channel. This module decides each step of the daemon and
//! of the response future; the channels and futures stay with the caller.

use crate::progress::{Progress, Recv};
use vstd::prelude::*;

verus! {

/// Errors of a buffered service.
#[derive(Debug, PartialEq, Eq)]
pub enum Error<E> {
    /// The daemon task is gone, so the request could not be served.
    LostDaemon,
    /// The inner service failed.
    Service(E),
}

impl<E> Error<E> {
    /// The underlying error, if any: the inner service's.
    pub fn cause(&self) -> (r: Option<&E>)
        ensures
            match self {
                Error::LostDaemon => r is None,
                Error::Service(e) => r == Some(e),
            },
    {
        match self {
            Error::LostDaemon => None,
            Error::Service(e) => Some(e),
        }
    }

    /// The text of the error where it is fixed; the inner service's error
    /// speaks for itself.
    pub fn static_message(&self) -> (r: Option<&'static str>)
        ensures
            match self {
                Error::LostDaemon => r == Some("lost damemon task"),
                Error::Service(_) => r is None,
            },
    {
        match self {
            Error::LostDaemon => Some("lost damemon task"),
            Error::Service(_) => None,
        }
    }
}

/// Where the daemon is.
#[derive(Clone, Copy, Debug, PartialEq, Eq, Structural)]
pub enum DaemonState {
    /// Driving the future that builds the service.
    Building,
    /// The service is built; its readiness is to be polled.
    Serving,
    /// The service reported ready; a request is to be taken.
    Ready,
    /// The daemon has finished: the service failed or every sender is gone.
    Done,
}

/// What the driver of the daemon learned since the last step.
#[derive(Clone, Copy, Debug, PartialEq, Eq, Structural)]
pub enum DaemonEvent {
    /// The daemon was polled, or the previous action needs no answer.
    Polled,
    /// The outcome of polling the future that builds the service.
    Built(Progress),
    /// The outcome of polling the service's readiness.
    Readiness(Progress),
    /// The outcome of polling the request channel.
    Request(Recv),
}

/// What the driver of the daemon does next.
#[derive(Clone, Copy, Debug, PartialEq, Eq, Structural)]
pub enum DaemonAction {
    /// Poll the future that builds the service.
    PollBuild,
    /// Poll the service's readiness.
    PollReady,
    /// Poll the request channel.
    PollRequests,
    /// Call the service with the request just received and send the
    /// response future back to the caller.
    Dispatch,
    /// Return `NotReady`.
    Wait,
    /// Return `Ready(())`: the daemon is finished.
    Finish,
}

/// The daemon's transition: the next state and what to do.
pub open spec fn daemon_next(s: DaemonState, e: DaemonEvent) -> (DaemonState, DaemonAction) {
    match s {
        DaemonState::Building => match e {
            DaemonEvent::Built(Progress::NotReady) => (DaemonState::Building, DaemonAction::Wait),
            DaemonEvent::Built(Progress::Ready) => (DaemonState::Serving, DaemonAction::PollReady),
            DaemonEvent::Built(Progress::Failed) => (DaemonState::Done, DaemonAction::Finish),
            _ => (DaemonState::Building, DaemonAction::PollBuild),
        },
        DaemonState::Serving => match e {
            DaemonEvent::Readiness(Progress::NotReady) => (DaemonState::Serving, DaemonAction::Wait),
            DaemonEvent::Readiness(Progress::Ready) => (DaemonState::Ready, DaemonAction::PollRequests),
            DaemonEvent::Readiness(Progress::Failed) => (DaemonState::Done, DaemonAction::Finish),
            _ => (DaemonState::Serving, DaemonAction::PollReady),
        },
        DaemonState::Ready => match e {
            DaemonEvent::Request(Recv::Empty) => (DaemonState::Serving, DaemonAction::Wait),
            DaemonEvent::Request(Recv::Item) => (DaemonState::Serving, DaemonAction::Dispatch),
            DaemonEvent::Request(Recv::Closed) => (DaemonState::Done, DaemonAction::Finish),
            _ => (DaemonState::Serving, DaemonAction::PollReady),
        },
        DaemonState::Done => (DaemonState::Done, DaemonAction::Finish),
    }
}

impl DaemonState {
    /// The state of a new daemon: building its service.
    pub fn new() -> (r: DaemonState)
        ensures
            r == DaemonState::Building,
    {
        DaemonState::Building
    }

    /// Takes one step of the daemon's poll loop.
    pub fn step(&mut self, e: DaemonEvent) -> (a: DaemonAction)
        ensures
            (*final(self), a) == daemon_next(*old(self), e),
    {
        let (s, a) = match *self {
            DaemonState::Building => match e {
                DaemonEvent::Built(Progress::NotReady) => (DaemonState::Building, DaemonAction::Wait),
                DaemonEvent::Built(Progress::Ready) => (DaemonState::Serving, DaemonAction::PollReady),
                DaemonEvent::Built(Progress::Failed) => (DaemonState::Done, DaemonAction::Finish),
                _ => (DaemonState::Building, DaemonAction::PollBuild),
            },
            DaemonState::Serving => match e {
                DaemonEvent::Readiness(Progress::NotReady) => (DaemonState::Serving, DaemonAction::Wait),
                DaemonEvent::Readiness(Progress::Ready) => (DaemonState::Ready, DaemonAction::PollRequests),
                DaemonEvent::Readiness(Progress::Failed) => (DaemonState::Done, DaemonAction::Finish),
                _ => (DaemonState::Serving, DaemonAction::PollReady),
            },
            DaemonState::Ready => match e {
                DaemonEvent::Request(Recv::Empty) => (DaemonState::Serving, DaemonAction::Wait),
                DaemonEvent::Request(Recv::Item) => (DaemonState::Serving, DaemonAction::Dispatch),
                DaemonEvent::Request(Recv::Closed) => (DaemonState::Done, DaemonAction::Finish),
                _ => (DaemonState::Serving, DaemonAction::PollReady),
            },
            DaemonState::Done => (DaemonState::Done, DaemonAction::Finish),
        };
        *self = s;
        a
    }
}

/// A finished daemon stays finished, whatever it is told.
pub proof fn lemma_daemon_done_is_final(e: DaemonEvent)
    ensures
        daemon_next(DaemonState::Done, e) == (DaemonState::Done, DaemonAction::Finish),
{
}

/// A request is dispatched only when the service has reported ready and a
/// request has arrived; readiness is confirmed only by polling a built
/// service; afterwards readiness must be polled again before the next request.
pub proof fn lemma_dispatch_follows_readiness(s: DaemonState, e: DaemonEvent)
    ensures
        daemon_next(s, e).1 == DaemonAction::Dispatch ==> s == DaemonState::Ready && e
            == DaemonEvent::Request(Recv::Item) && daemon_next(s, e).0 == DaemonState::Serving,
        daemon_next(s, e).0 == DaemonState::Ready ==> s == DaemonState::Serving && e
            == DaemonEvent::Readiness(Progress::Ready),
{
}

/// The daemon finishes exactly when the build fails, the service fails, or
/// the request channel closes (or it had already finished).
pub proof fn lemma_daemon_finishes(s: DaemonState, e: DaemonEvent)
    ensures
        daemon_next(s, e).1 == DaemonAction::Finish <==> (s == DaemonState::Done || (s
            == DaemonState::Building && e == DaemonEvent::Built(Progress::Failed)) || (s
            == DaemonState::Serving && e == DaemonEvent::Readiness(Progress::Failed)) || (s
            == DaemonState::Ready && e == DaemonEvent::Request(Recv::Closed))),
        daemon_next(s, e).1 == DaemonAction::Finish <==> daemon_next(s, e).0 == DaemonState::Done,
{
}

/// Once the service is built the daemon never builds again: it leaves
/// `Building` only for a built service (whose readiness it polls at once) or
/// a failed build, and never comes back to it.
pub proof fn lemma_built_once(s: DaemonState, e: DaemonEvent)
    ensures
        s != DaemonState::Building ==> daemon_next(s, e).0 != DaemonState::Building,
        daemon_next(s, e).1 == DaemonAction::PollBuild ==> s == DaemonState::Building,
        s == DaemonState::Building && daemon_next(s, e).0 != DaemonState::Building ==> (e
            == DaemonEvent::Built(Progress::Ready) && daemon_next(s, e) == (
            DaemonState::Serving,
            DaemonAction::PollReady,
        )) || (e == DaemonEvent::Built(Progress::Failed) && daemon_next(s, e).0 == DaemonState::Done),
{
}

/// The daemon returns `NotReady` exactly when what it polled reported nothing
/// yet: the build, the service's readiness, or the request queue. It keeps
/// its place, so the next poll polls the same thing again (after an empty
/// queue, the service's readiness first).
pub proof fn lemma_daemon_waits_in_place(s: DaemonState, e: DaemonEvent)
    ensures
        daemon_next(s, e).1 == DaemonAction::Wait <==> (s == DaemonState::Building && e
            == DaemonEvent::Built(Progress::NotReady)) || (s == DaemonState::Serving && e
            == DaemonEvent::Readiness(Progress::NotReady)) || (s == DaemonState::Ready && e
            == DaemonEvent::Request(Recv::Empty)),
        daemon_next(s, e).1 == DaemonAction::Wait && s != DaemonState::Ready ==> daemon_next(s, e).0
            == s,
        daemon_next(s, e).1 == DaemonAction::Wait ==> daemon_next(daemon_next(s, e).0, DaemonEvent::Polled).1
            == (if s == DaemonState::Building {
            DaemonAction::PollBuild
        } else {
            DaemonAction::PollReady
        }),
{
}

/// Each poll action is the one the next state waits on, and a fresh poll of
/// a live daemon polls what its state waits on: the build while building,
/// the service's readiness once built.
pub proof fn lemma_daemon_polls_its_state(s: DaemonState, e: DaemonEvent)
    ensures
        daemon_next(s, e).1 == DaemonAction::PollBuild ==> daemon_next(s, e).0 == DaemonState::Building,
        daemon_next(s, e).1 == DaemonAction::PollReady ==> daemon_next(s, e).0 == DaemonState::Serving,
        daemon_next(s, e).1 == DaemonAction::PollRequests <==> daemon_next(s, e).0
            == DaemonState::Ready,
        s == DaemonState::Building ==> daemon_next(s, DaemonEvent::Polled) == (
            DaemonState::Building,
            DaemonAction::PollBuild,
        ),
        s == DaemonState::Serving || s == DaemonState::Ready ==> daemon_next(s, DaemonEvent::Polled)
            == (DaemonState::Serving, DaemonAction::PollReady),
        s == DaemonState::Serving && e == DaemonEvent::Readiness(Progress::Ready) ==> daemon_next(
            s,
            e,
        ).0 == DaemonState::Ready,
{
}

/// How many requests a sequence of events dispatches.
pub open spec fn dispatches(s: DaemonState, events: Seq<DaemonEvent>) -> nat
    decreases events.len(),
{
    if events.len() == 0 {
        0
    } else {
        let (n, a) = daemon_next(s, events[0]);
        (if a == DaemonAction::Dispatch {
            1nat
        } else {
            0nat
        }) + dispatches(n, events.drop_first())
    }
}

/// How many times a sequence of events confirms the built service ready.
pub open spec fn readiness_confirmations(s: DaemonState, events: Seq<DaemonEvent>) -> nat
    decreases events.len(),
{
    if events.len() == 0 {
        0
    } else {
        let (n, a) = daemon_next(s, events[0]);
        (if n == DaemonState::Ready {
            1nat
        } else {
            0nat
        }) + readiness_confirmations(n, events.drop_first())
    }
}

/// Each dispatched request was preceded by its own confirmation that the
/// service was ready: over any run, dispatches never outnumber confirmations
/// (counting one pending confirmation when the run starts in `Ready`).
pub proof fn lemma_each_dispatch_confirmed(s: DaemonState, events: Seq<DaemonEvent>)
    ensures
        dispatches(s, events) <= readiness_confirmations(s, events) + (if s == DaemonState::Ready {
            1nat
        } else {
            0nat
        }),
    decreases events.len(),
{
    if events.len() > 0 {
        let (n, a) = daemon_next(s, events[0]);
        lemma_each_dispatch_confirmed(n, events.drop_first());
    }
}

/// Where a buffered response is.
#[derive(Clone, Copy, Debug, PartialEq, Eq, Structural)]
pub enum RspState {
    /// Waiting for the daemon to hand over the service's response future.
    Dispatching,
    /// Waiting for the service's response.
    Pending,
}

/// What the driver of a buffered response learned since the last step.
#[derive(Clone, Copy, Debug, PartialEq, Eq, Structural)]
pub enum RspEvent {
    /// The response was polled.
    Polled,
    /// The outcome of polling the oneshot that carries the response future:
    /// `Ready` when it arrived, `Failed` when the daemon dropped its sender.
    Dispatched(Progress),
}

/// What the driver of a buffered response does next.
#[derive(Clone, Copy, Debug, PartialEq, Eq, Structural)]
pub enum RspAction {
    /// Poll the oneshot that carries the response future.
    PollDispatch,
    /// Return the outcome of polling the response future, its error wrapped
    /// in `Error::Service`.
    PollResponse,
    /// Return `NotReady`.
    Wait,
    /// Return `Error::LostDaemon`.
    FailLostDaemon,
}

/// The buffered response's transition.
pub open spec fn rsp_next(s: RspState, e: RspEvent) -> (RspState, RspAction) {
    match s {
        RspState::Dispatching => match e {
            RspEvent::Dispatched(Progress::NotReady) => (RspState::Dispatching, RspAction::Wait),
            RspEvent::Dispatched(Progress::Ready) => (RspState::Pending, RspAction::PollResponse),
            RspEvent::Dispatched(Progress::Failed) => (RspState::Dispatching, RspAction::FailLostDaemon),
            RspEvent::Polled => (RspState::Dispatching, RspAction::PollDispatch),
        },
        RspState::Pending => (RspState::Pending, RspAction::PollResponse),
    }
}

impl RspState {
    /// The state of a response just sent to the daemon.
    pub fn new() -> (r: RspState)
        ensures
            r == RspState::Dispatching,
    {
        RspState::Dispatching
    }

    /// Takes one step of the response future's poll loop.
    pub fn step(&mut self, e: RspEvent) -> (a: RspAction)
        ensures
            (*final(self), a) == rsp_next(*old(self), e),
    {
        let (s, a) = match *self {
            RspState::Dispatching => match e {
                RspEvent::Dispatched(Progress::NotReady) => (RspState::Dispatching, RspAction::Wait),
                RspEvent::Dispatched(Progress::Ready) => (RspState::Pending, RspAction::PollResponse),
                RspEvent::Dispatched(Progress::Failed) => (RspState::Dispatching, RspAction::FailLostDaemon),
                RspEvent::Polled => (RspState::Dispatching, RspAction::PollDispatch),
            },
            RspState::Pending => (RspState::Pending, RspAction::PollResponse),
        };
        *self = s;
        a
    }
}

/// Once the response future has arrived, every poll goes to it.
pub proof fn lemma_pending_is_final(e: RspEvent)
    ensures
        rsp_next(RspState::Pending, e) == (RspState::Pending, RspAction::PollResponse),
{
}

/// The response future is polled only once it has arrived: `Pending` is
/// entered only on its arrival, which is polled at once. Until then the
/// response waits on the oneshot exactly while it reports nothing, and
/// fails with `LostDaemon` exactly when the daemon dropped it.
pub proof fn lemma_response_after_arrival(s: RspState, e: RspEvent)
    ensures
        rsp_next(s, e).0 == RspState::Pending ==> s == RspState::Pending || e == RspEvent::Dispatched(
            Progress::Ready,
        ),
        rsp_next(s, e).1 == RspAction::PollResponse <==> rsp_next(s, e).0 == RspState::Pending,
        rsp_next(s, e).1 == RspAction::PollDispatch ==> rsp_next(s, e).0 == RspState::Dispatching,
        s == RspState::Dispatching && e == RspEvent::Dispatched(Progress::Ready) ==> rsp_next(s, e)
            == (RspState::Pending, RspAction::PollResponse),
        rsp_next(s, e).1 == RspAction::Wait <==> s == RspState::Dispatching && e
            == RspEvent::Dispatched(Progress::NotReady),
        rsp_next(s, e).1 == RspAction::Wait ==> rsp_next(rsp_next(s, e).0, RspEvent::Polled).1
            == RspAction::PollDispatch,
        rsp_next(s, e).1 == RspAction::FailLostDaemon <==> s == RspState::Dispatching && e
            == RspEvent::Dispatched(Progress::Failed),
        s == RspState::Dispatching ==> rsp_next(s, RspEvent::Polled) == (
            RspState::Dispatching,
            RspAction::PollDispatch,
        ),
{
}

/// Maps the outcome of the sender's `poll_ready`: a closed channel means the
/// daemon is gone.
pub fn ready_error<E>(closed: bool) -> (r: Result<(), Error<E>>)
    ensures
        closed ==> r == Err::<(), Error<E>>(Error::LostDaemon),
        !closed ==> r is Ok,
{
    if closed {
        Err(Error::LostDaemon)
    } else {
        Ok(())
    }
}

} // verus!
