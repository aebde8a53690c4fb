//! Routing of requests to services chosen by target.
//!
//! A `Recognize` maps each request to a target (or to none). A daemon keeps a
//! route table from targets to buffered services, bounded by a capacity: a
//! cached route whose service is still usable is reused, a new one is built
//! while there is room, and a request that needs a new route when the table
//! is full is refused with `Error::NoCapacity`.
//!
//! In the table, a target is named by a `u64` (the caller interns its
//! targets) and a service is named by a `u64` that the caller assigns when it
//! builds one.

use indexmap::IndexMap;
use vstd::prelude::*;

use crate::buffer;
use crate::progress::Progress;
use crate::stack::Either;

verus! {

#[verifier::external_type_specification]
#[verifier::external_body]
#[verifier::reject_recursive_types(K)]
#[verifier::reject_recursive_types(V)]
#[verifier::reject_recursive_types(S)]
pub struct ExIndexMap<K, V, S>(indexmap::IndexMap<K, V, S>);

/// The entries of a route map, from target to service.
pub uninterp spec fn route_entries(m: IndexMap<u64, u64>) -> Map<u64, u64>;

/// `IndexMap::with_capacity`: a new map without entries.
#[verifier::external_body]
fn map_with_capacity(n: usize) -> (r: IndexMap<u64, u64>)
    ensures
        route_entries(r) =~= Map::empty(),
{
    IndexMap::with_capacity(n)
}

/// `IndexMap::len`: the number of entries.
#[verifier::external_body]
fn map_len(m: &IndexMap<u64, u64>) -> (r: usize)
    ensures
        r == route_entries(*m).len(),
{
    m.len()
}

/// `IndexMap::get`: the value stored for `key`, if any.
#[verifier::external_body]
fn map_get(m: &IndexMap<u64, u64>, key: u64) -> (r: Option<u64>)
    ensures
        route_entries(*m).contains_key(key) ==> r == Some(route_entries(*m)[key]),
        !route_entries(*m).contains_key(key) ==> r is None,
{
    m.get(&key).copied()
}

/// `IndexMap::insert`: stores `value` for `key`, replacing and returning any
/// previous value.
#[verifier::external_body]
fn map_insert(m: &mut IndexMap<u64, u64>, key: u64, value: u64) -> (r: Option<u64>)
    ensures
        route_entries(*final(m)) == route_entries(*old(m)).insert(key, value),
        route_entries(*old(m)).contains_key(key) ==> r == Some(route_entries(*old(m))[key]),
        !route_entries(*old(m)).contains_key(key) ==> r is None,
{
    m.insert(key, value)
}

/// `IndexMap::retain`: keeps the entries whose service is in `live`.
#[verifier::external_body]
fn map_retain_live(m: &mut IndexMap<u64, u64>, live: &Vec<u64>)
    ensures
        route_entries(*final(m)) == live_routes(route_entries(*old(m)), live@),
{
    m.retain(|_, service| contains(live, *service))
}

/// The routes of `routes` whose service is in `live`.
pub open spec fn live_routes(routes: Map<u64, u64>, live: Seq<u64>) -> Map<u64, u64> {
    routes.restrict(routes.dom().filter(|t: u64| live.contains(routes[t])))
}

/// Whether `v` occurs in `items`.
pub fn contains(items: &Vec<u64>, v: u64) -> (r: bool)
    ensures
        r == items@.contains(v),
{
    let mut i: usize = 0;
    while i < items.len()
        invariant
            i <= items.len(),
            forall|j: int| 0 <= j < i ==> items@[j] != v,
        decreases items.len() - i,
    {
        if items[i] == v {
            return true;
        }
        i = i + 1;
    }
    false
}

/// Provides a strategy for routing a request: the target that identifies its
/// route, or none when the request cannot be routed.
pub trait Recognize<Request> {
    /// Identifies a route.
    type Target: Clone + Eq + std::hash::Hash;

    /// Determines the target for a route to handle the given request.
    fn recognize(&self, req: &Request) -> Option<Self::Target>;
}

/// Routes a request: the target `recognize` gives it, and the state its
/// response starts in — waiting for the target's service, or failing at once
/// when the request has no target.
pub fn call<Req, Rec: Recognize<Req>>(recognize: &Rec, request: &Req) -> (r: (
    Option<Rec::Target>,
    RspState,
))
    ensures
        call_ensures(Rec::recognize, (recognize, request), r.0),
        r.0 is Some ==> r.1 == RspState::Binding,
        r.0 is None ==> r.1 == RspState::NotRecognized,
{
    let target = recognize.recognize(request);
    let state = RspState::new(&target);
    (target, state)
}

/// Errors of a routed request.
#[derive(Debug, PartialEq, Eq)]
pub enum Error<I, E> {
    /// Building the route's service failed.
    Stack(I),
    /// The route's service failed.
    Service(E),
    /// The route table is full; the value is its capacity.
    NoCapacity(usize),
    /// The request has no target.
    NotRecognized,
    /// The daemon task is gone.
    LostDaemon,
}

impl<I, E> Error<I, E> {
    /// A short description of the kind of error.
    pub fn description(&self) -> (r: &'static str)
        ensures
            match self {
                Error::Stack(_) => r == "inner stacking error",
                Error::Service(_) => r == "inner service error",
                Error::NoCapacity(_) => r == "router capacity reached",
                Error::NotRecognized => r == "route not recognized",
                Error::LostDaemon => r == "daemon task ended prematurely",
            },
    {
        match self {
            Error::Stack(_) => "inner stacking error",
            Error::Service(_) => "inner service error",
            Error::NoCapacity(_) => "router capacity reached",
            Error::NotRecognized => "route not recognized",
            Error::LostDaemon => "daemon task ended prematurely",
        }
    }

    /// The underlying error, if any: the stack's or the service's.
    pub fn cause(&self) -> (r: Option<Either<&I, &E>>)
        ensures
            match self {
                Error::Stack(i) => r == Some(Either::<&I, &E>::A(i)),
                Error::Service(e) => r == Some(Either::<&I, &E>::B(e)),
                _ => r is None,
            },
    {
        match self {
            Error::Stack(i) => Some(Either::A(i)),
            Error::Service(e) => Some(Either::B(e)),
            _ => None,
        }
    }

    /// The error of a routed request whose buffered service failed.
    pub fn from_buffer(e: buffer::Error<E>) -> (r: Self)
        ensures
            match e {
                buffer::Error::LostDaemon => r == Error::<I, E>::LostDaemon,
                buffer::Error::Service(s) => r == Error::<I, E>::Service(s),
            },
    {
        match e {
            buffer::Error::LostDaemon => Error::LostDaemon,
            buffer::Error::Service(s) => Error::Service(s),
        }
    }
}

/// How the daemon answers a request for a target's service.
#[derive(Clone, Copy, Debug, PartialEq, Eq, Structural)]
pub enum Route {
    /// Use the cached service.
    Cached(u64),
    /// Build a new service; it has been stored under the given name.
    Bind(u64),
    /// Refuse: the table is full; the value is its capacity.
    NoCapacity(usize),
}

/// The daemon's route table: targets to services, at most `capacity` of them.
pub struct RouteTable {
    routes: IndexMap<u64, u64>,
    capacity: usize,
}

/// How the daemon answers a request for `target`, given whether the cached
/// service (if any) is ready, and the name a new service would get.
pub open spec fn route_decision(
    routes: Map<u64, u64>,
    capacity: usize,
    target: u64,
    cached_ready: bool,
    fresh: u64,
) -> Route {
    if routes.contains_key(target) && cached_ready {
        Route::Cached(routes[target])
    } else if routes.len() >= capacity {
        Route::NoCapacity(capacity)
    } else {
        Route::Bind(fresh)
    }
}

/// The route table after that answer.
pub open spec fn routes_after(
    routes: Map<u64, u64>,
    capacity: usize,
    target: u64,
    cached_ready: bool,
    fresh: u64,
) -> Map<u64, u64> {
    match route_decision(routes, capacity, target, cached_ready, fresh) {
        Route::Bind(s) => routes.insert(target, s),
        _ => routes,
    }
}

impl RouteTable {
    /// The routes, from target to service.
    pub closed spec fn routes(&self) -> Map<u64, u64> {
        route_entries(self.routes)
    }

    /// The most routes the table holds.
    pub closed spec fn capacity(&self) -> usize {
        self.capacity
    }

    /// The table holds finitely many routes, no more than its capacity.
    pub open spec fn wf(&self) -> bool {
        &&& self.routes().dom().finite()
        &&& self.routes().len() <= self.capacity()
    }

    /// A table without routes. It is assumed a router will have at least two
    /// routes, so room for two is made at once.
    pub fn new(capacity: usize) -> (r: RouteTable)
        ensures
            r.routes() == Map::<u64, u64>::empty(),
            r.capacity() == capacity,
            r.wf(),
    {
        RouteTable { routes: map_with_capacity(2), capacity }
    }

    /// The number of routes.
    pub fn len(&self) -> (r: usize)
        ensures
            r == self.routes().len(),
    {
        map_len(&self.routes)
    }

    /// The service cached for `target`, if any.
    pub fn cached(&self, target: u64) -> (r: Option<u64>)
        ensures
            self.routes().contains_key(target) ==> r == Some(self.routes()[target]),
            !self.routes().contains_key(target) ==> r is None,
    {
        map_get(&self.routes, target)
    }

    /// Drops the routes whose service can no longer take requests: only those
    /// whose service is in `live` stay.
    pub fn retain_live(&mut self, live: &Vec<u64>)
        requires
            old(self).wf(),
        ensures
            final(self).routes() == live_routes(old(self).routes(), live@),
            final(self).capacity() == old(self).capacity(),
            final(self).wf(),
    {
        map_retain_live(&mut self.routes, live);
        proof {
            lemma_retain_keeps_live(old(self).routes(), live@);
        }
    }

    /// Answers a request for `target`'s service: the cached service when it
    /// is ready; otherwise, when the table has room, a new route to `fresh`
    /// (replacing a stale one); otherwise a refusal.
    pub fn route(&mut self, target: u64, cached_ready: bool, fresh: u64) -> (r: Route)
        requires
            old(self).wf(),
        ensures
            final(self).wf(),
            r == route_decision(old(self).routes(), old(self).capacity(), target, cached_ready, fresh),
            final(self).routes() == routes_after(
                old(self).routes(),
                old(self).capacity(),
                target,
                cached_ready,
                fresh,
            ),
            final(self).capacity() == old(self).capacity(),
    {
        if cached_ready {
            if let Some(service) = map_get(&self.routes, target) {
                return Route::Cached(service);
            }
        }
        if map_len(&self.routes) >= self.capacity {
            return Route::NoCapacity(self.capacity);
        }
        map_insert(&mut self.routes, target, fresh);
        proof {
            lemma_route_within_capacity(old(self).routes(), self.capacity, target, cached_ready, fresh);
        }
        Route::Bind(fresh)
    }
}

/// Answering a request never takes the table past its capacity.
pub proof fn lemma_route_within_capacity(
    routes: Map<u64, u64>,
    capacity: usize,
    target: u64,
    cached_ready: bool,
    fresh: u64,
)
    requires
        routes.dom().finite(),
        routes.len() <= capacity,
    ensures
        routes_after(routes, capacity, target, cached_ready, fresh).dom().finite(),
        routes_after(routes, capacity, target, cached_ready, fresh).len() <= capacity,
{
    if route_decision(routes, capacity, target, cached_ready, fresh) is Bind {
        assert(routes.len() < capacity);
        if routes.contains_key(target) {
            assert(routes.insert(target, fresh).dom() =~= routes.dom());
        } else {
            assert(routes.insert(target, fresh).dom() =~= routes.dom().insert(target));
        }
    }
}

/// Dropping dead routes keeps exactly the routes to live services, unchanged,
/// and never adds one.
pub proof fn lemma_retain_keeps_live(routes: Map<u64, u64>, live: Seq<u64>)
    requires
        routes.dom().finite(),
    ensures
        live_routes(routes, live).dom().finite(),
        live_routes(routes, live).len() <= routes.len(),
        forall|t: u64|
            #![trigger live_routes(routes, live).contains_key(t)]
            live_routes(routes, live).contains_key(t) <==> (routes.contains_key(t) && live.contains(
                routes[t],
            )),
        forall|t: u64|
            #![trigger live_routes(routes, live)[t]]
            live_routes(routes, live).contains_key(t) ==> live_routes(routes, live)[t]
                == routes[t],
{
    let keep = |t: u64| live.contains(routes[t]);
    routes.dom().lemma_len_filter(keep);
    assert(live_routes(routes, live).dom() =~= routes.dom().filter(keep));
}

/// A ready cached route is reused and the table is left as it was.
pub proof fn lemma_ready_route_reused(
    routes: Map<u64, u64>,
    capacity: usize,
    target: u64,
    fresh: u64,
)
    requires
        routes.contains_key(target),
    ensures
        route_decision(routes, capacity, target, true, fresh) == Route::Cached(routes[target]),
        routes_after(routes, capacity, target, true, fresh) == routes,
{
}

/// A request is refused exactly when it needs a new route and the table is
/// full; a refusal names the capacity and leaves the table as it was.
pub proof fn lemma_refusal(
    routes: Map<u64, u64>,
    capacity: usize,
    target: u64,
    cached_ready: bool,
    fresh: u64,
)
    ensures
        (route_decision(routes, capacity, target, cached_ready, fresh) is NoCapacity) <==> (!(
        routes.contains_key(target) && cached_ready) && routes.len() >= capacity),
        route_decision(routes, capacity, target, cached_ready, fresh) is NoCapacity ==> {
            &&& route_decision(routes, capacity, target, cached_ready, fresh) == Route::NoCapacity(
                capacity,
            )
            &&& routes_after(routes, capacity, target, cached_ready, fresh) == routes
        },
{
}

/// A new route sends the target, and only it, to the new service.
pub proof fn lemma_bind_stores_route(
    routes: Map<u64, u64>,
    capacity: usize,
    target: u64,
    cached_ready: bool,
    fresh: u64,
)
    requires
        route_decision(routes, capacity, target, cached_ready, fresh) is Bind,
    ensures
        route_decision(routes, capacity, target, cached_ready, fresh) == Route::Bind(fresh),
        routes_after(routes, capacity, target, cached_ready, fresh).contains_key(target),
        routes_after(routes, capacity, target, cached_ready, fresh)[target] == fresh,
        forall|t: u64|
            t != target ==> (#[trigger] routes_after(
                routes,
                capacity,
                target,
                cached_ready,
                fresh,
            ).contains_key(t) <==> routes.contains_key(t)),
{
}

/// Where a routed response is.
#[derive(Clone, Copy, Debug, PartialEq, Eq, Structural)]
pub enum RspState {
    /// Waiting for the daemon to hand over the route's service; the request
    /// is held.
    Binding,
    /// Waiting for the route's service to be ready; the request is held.
    Readying,
    /// The request was sent; waiting for the response.
    Pending,
    /// The request has no target.
    NotRecognized,
}

/// What the daemon's answer was.
#[derive(Clone, Copy, Debug, PartialEq, Eq, Structural)]
pub enum Binding {
    /// Not yet.
    NotReady,
    /// The route's service.
    Bound,
    /// A refusal (an `Error`).
    Refused,
    /// The daemon dropped the oneshot without answering.
    Lost,
}

/// What the driver of a routed response learned since the last step.
#[derive(Clone, Copy, Debug, PartialEq, Eq, Structural)]
pub enum RspEvent {
    /// The response was polled, or the previous action needs no answer.
    Polled,
    /// The outcome of polling for the daemon's answer.
    Bound(Binding),
    /// The outcome of polling the route's service's readiness.
    Readiness(Progress),
}

/// What the driver of a routed response does next.
#[derive(Clone, Copy, Debug, PartialEq, Eq, Structural)]
pub enum RspAction {
    /// Poll for the daemon's answer.
    PollBinding,
    /// Poll the route's service's readiness.
    PollReady,
    /// Take the held request and call the route's service with it.
    Call,
    /// Return the outcome of polling the response, its error mapped by
    /// `Error::from_buffer`.
    PollResponse,
    /// Return `NotReady`.
    Wait,
    /// Return the daemon's refusal.
    ReturnRefusal,
    /// Return `Error::LostDaemon`.
    FailLostDaemon,
    /// Return `Error::NotRecognized`.
    FailNotRecognized,
}

/// The routed response's transition.
pub open spec fn rsp_next(s: RspState, e: RspEvent) -> (RspState, RspAction) {
    match s {
        RspState::Binding => match e {
            RspEvent::Bound(Binding::NotReady) => (RspState::Binding, RspAction::Wait),
            RspEvent::Bound(Binding::Bound) => (RspState::Readying, RspAction::PollReady),
            RspEvent::Bound(Binding::Refused) => (RspState::Binding, RspAction::ReturnRefusal),
            RspEvent::Bound(Binding::Lost) => (RspState::Binding, RspAction::FailLostDaemon),
            _ => (RspState::Binding, RspAction::PollBinding),
        },
        RspState::Readying => match e {
            RspEvent::Readiness(Progress::NotReady) => (RspState::Readying, RspAction::Wait),
            RspEvent::Readiness(Progress::Ready) => (RspState::Pending, RspAction::Call),
            RspEvent::Readiness(Progress::Failed) => (RspState::Readying, RspAction::FailLostDaemon),
            _ => (RspState::Readying, RspAction::PollReady),
        },
        RspState::Pending => (RspState::Pending, RspAction::PollResponse),
        RspState::NotRecognized => (RspState::NotRecognized, RspAction::FailNotRecognized),
    }
}

impl RspState {
    /// The state of a routed response: a request with a target waits for its
    /// service, one without is refused.
    pub fn new<T>(target: &Option<T>) -> (r: RspState)
        ensures
            target is None ==> r == RspState::NotRecognized,
            target is Some ==> r == RspState::Binding,
    {
        match target {
            Some(_) => RspState::Binding,
            None => RspState::NotRecognized,
        }
    }

    /// Takes one step of the routed response's poll loop.
    pub fn step(&mut self, e: RspEvent) -> (a: RspAction)
        ensures
            (*final(self), a) == rsp_next(*old(self), e),
    {
        let (s, a) = match *self {
            RspState::Binding => match e {
                RspEvent::Bound(Binding::NotReady) => (RspState::Binding, RspAction::Wait),
                RspEvent::Bound(Binding::Bound) => (RspState::Readying, RspAction::PollReady),
                RspEvent::Bound(Binding::Refused) => (RspState::Binding, RspAction::ReturnRefusal),
                RspEvent::Bound(Binding::Lost) => (RspState::Binding, RspAction::FailLostDaemon),
                _ => (RspState::Binding, RspAction::PollBinding),
            },
            RspState::Readying => match e {
                RspEvent::Readiness(Progress::NotReady) => (RspState::Readying, RspAction::Wait),
                RspEvent::Readiness(Progress::Ready) => (RspState::Pending, RspAction::Call),
                RspEvent::Readiness(Progress::Failed) => (RspState::Readying, RspAction::FailLostDaemon),
                _ => (RspState::Readying, RspAction::PollReady),
            },
            RspState::Pending => (RspState::Pending, RspAction::PollResponse),
            RspState::NotRecognized => (RspState::NotRecognized, RspAction::FailNotRecognized),
        };
        *self = s;
        a
    }
}

/// The held request is sent at most once: calling the service moves to
/// `Pending`, which every later step keeps, and only a ready service is
/// called.
pub proof fn lemma_request_sent_once(s: RspState, e: RspEvent)
    ensures
        rsp_next(s, e).1 == RspAction::Call ==> s == RspState::Readying && e == RspEvent::Readiness(
            Progress::Ready,
        ) && rsp_next(s, e).0 == RspState::Pending,
        s == RspState::Pending ==> rsp_next(s, e) == (RspState::Pending, RspAction::PollResponse),
{
}

/// A routed response fails with `LostDaemon` exactly when the daemon dropped
/// its answer or the route's service failed its readiness poll; it returns
/// `NotReady` exactly when the daemon has not answered yet or the service is
/// not ready yet, and then keeps its place, so the next poll polls the same
/// thing again.
pub proof fn lemma_routed_waits_and_failures(s: RspState, e: RspEvent)
    ensures
        rsp_next(s, e).1 == RspAction::FailLostDaemon <==> (s == RspState::Binding && e
            == RspEvent::Bound(Binding::Lost)) || (s == RspState::Readying && e
            == RspEvent::Readiness(Progress::Failed)),
        rsp_next(s, e).1 == RspAction::Wait <==> (s == RspState::Binding && e == RspEvent::Bound(
            Binding::NotReady,
        )) || (s == RspState::Readying && e == RspEvent::Readiness(Progress::NotReady)),
        rsp_next(s, e).1 == RspAction::Wait ==> rsp_next(s, e).0 == s && rsp_next(s, RspEvent::Polled).1
            == (if s == RspState::Binding {
            RspAction::PollBinding
        } else {
            RspAction::PollReady
        }),
        rsp_next(s, e).1 == RspAction::ReturnRefusal <==> s == RspState::Binding && e
            == RspEvent::Bound(Binding::Refused),
        rsp_next(s, e).1 == RspAction::FailNotRecognized <==> s == RspState::NotRecognized,
{
}

/// Each action is the poll the next state waits on, and each answer moves
/// the response forward: a bound route has its service's readiness polled at
/// once, and a ready service is called at once.
pub proof fn lemma_routed_progress(s: RspState, e: RspEvent)
    ensures
        rsp_next(s, e).1 == RspAction::PollBinding ==> rsp_next(s, e).0 == RspState::Binding,
        rsp_next(s, e).1 == RspAction::PollReady ==> rsp_next(s, e).0 == RspState::Readying,
        rsp_next(s, e).1 == RspAction::PollResponse ==> rsp_next(s, e).0 == RspState::Pending,
        rsp_next(s, e).0 == RspState::Readying && s != RspState::Readying ==> s == RspState::Binding
            && e == RspEvent::Bound(Binding::Bound),
        s == RspState::Binding && e == RspEvent::Bound(Binding::Bound) ==> rsp_next(s, e) == (
            RspState::Readying,
            RspAction::PollReady,
        ),
        s == RspState::Readying && e == RspEvent::Readiness(Progress::Ready) ==> rsp_next(s, e) == (
            RspState::Pending,
            RspAction::Call,
        ),
        s == RspState::Binding ==> rsp_next(s, RspEvent::Polled) == (
            RspState::Binding,
            RspAction::PollBinding,
        ),
        s == RspState::Readying ==> rsp_next(s, RspEvent::Polled) == (
            RspState::Readying,
            RspAction::PollReady,
        ),
{
}

/// A request without a target is answered `NotRecognized`, every time.
pub proof fn lemma_unrecognized_fails(e: RspEvent)
    ensures
        rsp_next(RspState::NotRecognized, e) == (
            RspState::NotRecognized,
            RspAction::FailNotRecognized,
        ),
{
}

} // verus!
