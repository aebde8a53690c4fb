//! A stack that builds a new service for each request, for targets that ask
//! for it.

use vstd::prelude::*;

use super::make::{MakeAction, MakeEvent, MakeState, make_next};
use super::Either;

verus! {

/// Whether a target wants a new service for each request.
pub trait ShouldStackPerRequest {
    fn should_stack_per_request(&self) -> bool;
}

/// A `Layer` produces a `Service` `Stack` that creates a new service for each
/// request.
#[derive(Clone, Debug)]
pub struct Layer();

/// A `Stack` that builds a new `Service` for each request it serves.
#[derive(Clone, Debug)]
pub struct Stack<M> {
    inner: M,
}

/// A `Service` that uses a new inner service for each request.
///
/// `Service` does not handle any underlying errors and it is expected that an
/// instance will not be used after an error is returned.
pub struct Service<T, S> {
    pub stack: S,
    pub target: T,
    pub state: MakeState,
}

pub enum Error<M, S> {
    Stack(M),
    Service(S),
}

pub fn layer() -> (r: Layer) {
    Layer()
}

impl<T: ShouldStackPerRequest, N: super::Stack<T> + Clone> super::Layer<T, T, N> for Layer {
    type Stack = Stack<N>;

    fn bind(&self, inner: N) -> (r: Stack<N>)
        ensures
            r.inner() == inner,
    {
        Stack::new(inner)
    }
}

impl<M> Stack<M> {
    /// The stack that builds the services.
    pub closed spec fn inner(&self) -> M {
        self.inner
    }

    /// The stack over `inner`.
    pub fn new(inner: M) -> (r: Self)
        ensures
            r.inner() == inner,
    {
        Stack { inner }
    }
}

impl<M: Clone> Stack<M> {
    /// What serving `target` takes, given whether it asks for a service per
    /// request: then a per-request service over a clone of the inner stack
    /// (`A`), else the target to call the inner stack with (`B`).
    pub fn call_with<T>(&self, per_request: bool, target: T) -> (r: Either<Service<T, M>, T>)
        ensures
            per_request ==> (r matches Either::A(svc) && svc.target == target && svc.state
                == MakeState::Init && cloned(self.inner(), svc.stack)),
            !per_request ==> r == Either::<Service<T, M>, T>::B(target),
    {
        if per_request {
            let svc = Service { target, stack: self.inner.clone(), state: MakeState::new() };
            Either::A(svc)
        } else {
            Either::B(target)
        }
    }

    /// What serving `target` takes: `call_with` the target's own answer to
    /// whether it wants a service per request.
    pub fn call<T: ShouldStackPerRequest>(&self, target: T) -> (r: Either<Service<T, M>, T>)
        ensures
            exists|per_request: bool|
                {
                    &&& call_ensures(T::should_stack_per_request, (&target,), per_request)
                    &&& per_request ==> (r matches Either::A(svc) && svc.target == target
                        && svc.state == MakeState::Init && cloned(self.inner(), svc.stack))
                    &&& !per_request ==> r == Either::<Service<T, M>, T>::B(target)
                },
    {
        let per_request = target.should_stack_per_request();
        self.call_with(per_request, target)
    }
}

impl<T, S> Service<T, S> {
    /// Takes one step of `poll_ready`.
    pub fn step(&mut self, e: MakeEvent) -> (a: MakeAction)
        ensures
            (final(self).state, a) == make_next(old(self).state, e),
            final(self).stack == old(self).stack,
            final(self).target == old(self).target,
    {
        self.state.step(e)
    }

    /// Whether a request can be served: an inner service is ready.
    pub fn is_ready(&self) -> (r: bool)
        ensures
            r == (self.state == MakeState::Ready),
    {
        self.state.is_ready()
    }

    /// Hands the ready inner service to one request: the next request needs
    /// a new one. Calling without a ready inner service is a misuse (the
    /// service panics there); it is left out.
    pub fn begin_call(&mut self)
        requires
            old(self).state == MakeState::Ready,
        ensures
            final(self).state == MakeState::Init,
            final(self).stack == old(self).stack,
            final(self).target == old(self).target,
    {
        self.state = MakeState::Init;
    }
}

} // verus!
