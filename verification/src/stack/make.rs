//! Making a service from a stack, then serving through it.
//!
//! Both the per-request service and the watching service hold a stack and a
//! target; before they can serve they wait for the stack to be ready, call it
//! with the target, and wait for the service it makes. This module decides
//! each step of that loop.

use crate::progress::Progress;
use vstd::prelude::*;

verus! {

/// Where a service being made is.
#[derive(Clone, Copy, Debug, PartialEq, Eq, Structural)]
pub enum MakeState {
    /// The target is held; the stack is to be called once it is ready.
    Init,
    /// The stack was called; waiting for the service it makes.
    Making,
    /// The service is made.
    Ready,
}

/// What the driver learned since the last step.
#[derive(Clone, Copy, Debug, PartialEq, Eq, Structural)]
pub enum MakeEvent {
    /// Readiness was polled, or the previous action needs no answer.
    Polled,
    /// The outcome of polling the stack's readiness.
    StackReadiness(Progress),
    /// The outcome of polling the future that makes the service.
    Made(Progress),
}

/// What the driver does next.
#[derive(Clone, Copy, Debug, PartialEq, Eq, Structural)]
pub enum MakeAction {
    /// Poll the stack's readiness.
    PollStackReady,
    /// Take the held target and call the stack with it.
    CallStack,
    /// Poll the future that makes the service.
    PollMaking,
    /// Return the outcome of polling the made service's readiness, its error
    /// wrapped as the service's.
    PollService,
    /// Return `NotReady`.
    Wait,
    /// Return the stack's error.
    FailStack,
}

/// The transition of a service being made.
pub open spec fn make_next(s: MakeState, e: MakeEvent) -> (MakeState, MakeAction) {
    match s {
        MakeState::Init => match e {
            MakeEvent::StackReadiness(Progress::NotReady) => (MakeState::Init, MakeAction::Wait),
            MakeEvent::StackReadiness(Progress::Ready) => (MakeState::Making, MakeAction::CallStack),
            MakeEvent::StackReadiness(Progress::Failed) => (MakeState::Init, MakeAction::FailStack),
            _ => (MakeState::Init, MakeAction::PollStackReady),
        },
        MakeState::Making => match e {
            MakeEvent::Made(Progress::NotReady) => (MakeState::Making, MakeAction::Wait),
            MakeEvent::Made(Progress::Ready) => (MakeState::Ready, MakeAction::PollService),
            MakeEvent::Made(Progress::Failed) => (MakeState::Making, MakeAction::FailStack),
            _ => (MakeState::Making, MakeAction::PollMaking),
        },
        MakeState::Ready => (MakeState::Ready, MakeAction::PollService),
    }
}

impl MakeState {
    /// A service not made yet: its target is held.
    pub fn new() -> (r: MakeState)
        ensures
            r == MakeState::Init,
    {
        MakeState::Init
    }

    /// Takes one step of the readiness loop.
    pub fn step(&mut self, e: MakeEvent) -> (a: MakeAction)
        ensures
            (*final(self), a) == make_next(*old(self), e),
    {
        let (s, a) = match *self {
            MakeState::Init => match e {
                MakeEvent::StackReadiness(Progress::NotReady) => (MakeState::Init, MakeAction::Wait),
                MakeEvent::StackReadiness(Progress::Ready) => (MakeState::Making, MakeAction::CallStack),
                MakeEvent::StackReadiness(Progress::Failed) => (MakeState::Init, MakeAction::FailStack),
                _ => (MakeState::Init, MakeAction::PollStackReady),
            },
            MakeState::Making => match e {
                MakeEvent::Made(Progress::NotReady) => (MakeState::Making, MakeAction::Wait),
                MakeEvent::Made(Progress::Ready) => (MakeState::Ready, MakeAction::PollService),
                MakeEvent::Made(Progress::Failed) => (MakeState::Making, MakeAction::FailStack),
                _ => (MakeState::Making, MakeAction::PollMaking),
            },
            MakeState::Ready => (MakeState::Ready, MakeAction::PollService),
        };
        *self = s;
        a
    }

    /// Whether the made service can take a request.
    pub fn is_ready(&self) -> (r: bool)
        ensures
            r == (*self == MakeState::Ready),
    {
        match self {
            MakeState::Ready => true,
            _ => false,
        }
    }
}

/// The stack is called only with a held target, at most once per target:
/// calling moves from `Init` to `Making`, and nothing leads back to `Init`.
pub proof fn lemma_stack_called_once(s: MakeState, e: MakeEvent)
    ensures
        make_next(s, e).1 == MakeAction::CallStack ==> s == MakeState::Init && make_next(s, e).0
            == MakeState::Making,
        s != MakeState::Init ==> make_next(s, e).0 != MakeState::Init,
        make_next(s, e).0 == MakeState::Ready ==> (s == MakeState::Ready || (s == MakeState::Making
            && e == MakeEvent::Made(Progress::Ready))),
{
}

/// A service that starts over (a new per-request service, or one whose
/// watched target changed) serves nothing until a new service is made from
/// the stack: from `Init` the made service is never polled, and `Ready` is
/// reached only through a stack call and a finished `Making`.
pub proof fn lemma_restart_makes_anew(e1: MakeEvent, e2: MakeEvent)
    ensures
        make_next(MakeState::Init, e1).1 != MakeAction::PollService,
        make_next(MakeState::Init, e1).0 != MakeState::Ready,
        make_next(make_next(MakeState::Init, e1).0, e2).0 == MakeState::Ready ==> make_next(
            MakeState::Init,
            e1,
        ).1 == MakeAction::CallStack && e2 == MakeEvent::Made(Progress::Ready),
{
}

/// Once made, every readiness poll goes to the made service.
pub proof fn lemma_ready_is_final(e: MakeEvent)
    ensures
        make_next(MakeState::Ready, e) == (MakeState::Ready, MakeAction::PollService),
{
}

} // verus!
