use proxy_stack::router::{self, Error, Recognize, Route, RouteTable, RspAction, RspEvent, RspState, Binding};
use proxy_stack::progress::Progress;

struct TestRecognize;

#[derive(Debug)]
enum Request {
    NotRecognized,
    Recognized(usize),
}

impl From<usize> for Request {
    fn from(n: usize) -> Request {
        Request::Recognized(n)
    }
}

impl Recognize<Request> for TestRecognize {
    type Target = usize;

    fn recognize(&self, req: &Request) -> Option<usize> {
        match *req {
            Request::NotRecognized => None,
            Request::Recognized(n) => Some(n),
        }
    }
}

/// The service each route is bound to.
#[derive(Debug)]
struct MultiplyAndAssign(usize);

impl Default for MultiplyAndAssign {
    fn default() -> Self {
        MultiplyAndAssign(1)
    }
}

impl MultiplyAndAssign {
    fn serve(&mut self, req: Request) -> usize {
        let n = match req {
            Request::NotRecognized => unreachable!(),
            Request::Recognized(n) => n,
        };
        self.0 *= n;
        self.0
    }
}

/// A router over the verified route table; services live in `services`,
/// named by their index.
struct Router {
    table: RouteTable,
    services: Vec<MultiplyAndAssign>,
}

impl Router {
    fn new(capacity: usize) -> Router {
        Router { table: RouteTable::new(capacity), services: Vec::new() }
    }

    fn call(&mut self, req: Request) -> Result<usize, Error<(), ()>> {
        let (target, mut rsp) = router::call(&TestRecognize, &req);
        let mut event = RspEvent::Polled;
        let mut service = None;
        let mut refusal = None;
        loop {
            match rsp.step(event) {
                RspAction::PollBinding => {
                    // The daemon's side: drop dead routes, then answer.
                    // Targets are interned as their own number.
                    let target = target.expect("target") as u64;
                    let live: Vec<u64> = (0..self.services.len() as u64).collect();
                    self.table.retain_live(&live);
                    let cached_ready = self.table.cached(target).is_some();
                    event = match self.table.route(target, cached_ready, self.services.len() as u64) {
                        Route::Cached(s) => {
                            service = Some(s);
                            RspEvent::Bound(Binding::Bound)
                        }
                        Route::Bind(s) => {
                            self.services.push(MultiplyAndAssign::default());
                            service = Some(s);
                            RspEvent::Bound(Binding::Bound)
                        }
                        Route::NoCapacity(c) => {
                            refusal = Some(Error::NoCapacity(c));
                            RspEvent::Bound(Binding::Refused)
                        }
                    };
                }
                RspAction::PollReady => event = RspEvent::Readiness(Progress::Ready),
                RspAction::Call => event = RspEvent::Polled,
                RspAction::PollResponse => {
                    let s = service.expect("service") as usize;
                    return Ok(self.services[s].serve(req));
                }
                RspAction::Wait => panic!("test services are always ready"),
                RspAction::ReturnRefusal => return Err(refusal.take().expect("refusal")),
                RspAction::FailLostDaemon => return Err(Error::LostDaemon),
                RspAction::FailNotRecognized => return Err(Error::NotRecognized),
            }
        }
    }

    fn call_ok(&mut self, req: Request) -> usize {
        self.call(req).expect("should route")
    }

    fn call_err(&mut self, req: Request) -> Error<(), ()> {
        self.call(req).expect_err("should not route")
    }
}

#[test]
fn invalid() {
    let mut router = Router::new(1);

    let rsp = router.call_err(Request::NotRecognized);
    assert_eq!(rsp, Error::NotRecognized);
}

#[test]
fn cache_limited_by_capacity() {
    let mut router = Router::new(1);

    let rsp = router.call_ok(2.into());
    assert_eq!(rsp, 2);

    let rsp = router.call_err(3.into());
    assert_eq!(rsp, Error::NoCapacity(1));
}

#[test]
fn services_cached() {
    let mut router = Router::new(1);

    let rsp = router.call_ok(2.into());
    assert_eq!(rsp, 2);

    let rsp = router.call_ok(2.into());
    assert_eq!(rsp, 4);
}

#[test]
fn route_table_decisions() {
    let mut t = RouteTable::new(2);
    assert_eq!(t.len(), 0);
    assert_eq!(t.route(7, false, 100), Route::Bind(100));
    assert_eq!(t.cached(7), Some(100));
    assert_eq!(t.route(7, true, 101), Route::Cached(100));
    // A cached route that is not ready is replaced.
    assert_eq!(t.route(7, false, 102), Route::Bind(102));
    assert_eq!(t.len(), 1);
    assert_eq!(t.route(8, false, 103), Route::Bind(103));
    assert_eq!(t.route(9, false, 104), Route::NoCapacity(2));
    assert_eq!(t.cached(9), None);
    assert_eq!(t.len(), 2);
    // When the table is full, even a stale route is not replaced.
    assert_eq!(t.route(7, false, 105), Route::NoCapacity(2));
    assert_eq!(t.cached(7), Some(102));
}

#[test]
fn dead_routes_are_dropped() {
    let mut t = RouteTable::new(2);
    t.route(1, false, 10);
    t.route(2, false, 20);
    t.retain_live(&vec![20, 30]);
    assert_eq!(t.cached(1), None);
    assert_eq!(t.cached(2), Some(20));
    assert_eq!(t.len(), 1);
    assert_eq!(t.route(3, false, 30), Route::Bind(30));
}

#[test]
fn zero_capacity_refuses_everything() {
    let mut t = RouteTable::new(0);
    assert_eq!(t.route(1, false, 1), Route::NoCapacity(0));
    assert_eq!(t.len(), 0);
}

#[test]
fn contains_finds_items() {
    assert!(router::contains(&vec![1, 2, 3], 3));
    assert!(!router::contains(&vec![1, 2, 3], 4));
    assert!(!router::contains(&vec![], 0));
}

#[test]
fn response_steps() {
    let mut s = RspState::new(&Some(1u64));
    assert_eq!(s, RspState::Binding);
    assert_eq!(s.step(RspEvent::Polled), RspAction::PollBinding);
    assert_eq!(s.step(RspEvent::Bound(Binding::NotReady)), RspAction::Wait);
    assert_eq!(s.step(RspEvent::Bound(Binding::Lost)), RspAction::FailLostDaemon);
    assert_eq!(s.step(RspEvent::Bound(Binding::Bound)), RspAction::PollReady);
    assert_eq!(s.step(RspEvent::Readiness(Progress::Failed)), RspAction::FailLostDaemon);
    assert_eq!(s.step(RspEvent::Readiness(Progress::Ready)), RspAction::Call);
    assert_eq!(s.step(RspEvent::Readiness(Progress::Ready)), RspAction::PollResponse);
    assert_eq!(s, RspState::Pending);
    let mut n = RspState::new::<u64>(&None);
    assert_eq!(n.step(RspEvent::Polled), RspAction::FailNotRecognized);
}

#[test]
fn error_texts() {
    assert_eq!(Error::<(), ()>::Stack(()).description(), "inner stacking error");
    assert_eq!(Error::<(), ()>::Service(()).description(), "inner service error");
    assert_eq!(Error::<(), ()>::NoCapacity(3).description(), "router capacity reached");
    assert_eq!(Error::<(), ()>::NotRecognized.description(), "route not recognized");
    assert_eq!(Error::<(), ()>::LostDaemon.description(), "daemon task ended prematurely");
    assert!(Error::<u8, u16>::LostDaemon.cause().is_none());
    assert_eq!(
        Error::<u8, u16>::from_buffer(proxy_stack::buffer::Error::Service(5)),
        Error::Service(5)
    );
    assert_eq!(
        Error::<u8, u16>::from_buffer(proxy_stack::buffer::Error::LostDaemon),
        Error::LostDaemon
    );
}
