use proxy_stack::hedge::{HedgeAction, HedgeEvent, HedgeState, HedgeStep, Policy};
use proxy_stack::progress::Progress;

const NOT_RETRYABLE: &str = "NOT_RETRYABLE";
const NOT_CLONABLE: &str = "NOT_CLONABLE";

#[derive(Clone)]
struct TestPolicy;

impl Policy<&'static str> for TestPolicy {
    fn can_retry(&self, req: &&'static str) -> bool {
        *req != NOT_RETRYABLE
    }

    fn clone_request(&self, req: &&'static str) -> Option<&'static str> {
        if *req == NOT_CLONABLE {
            None
        } else {
            Some(*req)
        }
    }
}

/// A mock response: ready with a value, or not yet.
#[derive(Clone, Copy)]
enum Mock {
    NotReady,
    Ready(&'static str),
}

fn progress(m: Mock) -> Progress {
    match m {
        Mock::NotReady => Progress::NotReady,
        Mock::Ready(_) => Progress::Ready,
    }
}

/// Drives one poll of a hedged response the way the response future does.
/// `delay_fired` says whether the hedge delay has elapsed. Returns the
/// response if one is ready.
struct Driver {
    state: HedgeState,
    request: Option<&'static str>,
    orig: Mock,
    hedge: Option<Mock>,
    hedge_calls: usize,
}

impl Driver {
    fn new(request: &'static str, delay: Option<u64>) -> Driver {
        let cloned = TestPolicy.clone_request(&request);
        Driver {
            state: HedgeState::new(cloned.is_some(), delay.is_some()),
            request: cloned,
            orig: Mock::NotReady,
            hedge: None,
            hedge_calls: 0,
        }
    }

    fn poll(&mut self, delay_fired: bool) -> Option<&'static str> {
        let mut event = HedgeEvent::Polled;
        loop {
            match self.state.step(event) {
                HedgeAction::PollOriginal => event = HedgeEvent::Original(progress(self.orig)),
                HedgeAction::FinishOriginal => {
                    return match self.orig {
                        Mock::Ready(v) => Some(v),
                        Mock::NotReady => None,
                    }
                }
                HedgeAction::ReturnHedge => {
                    return match self.hedge {
                        Some(Mock::Ready(v)) => Some(v),
                        _ => None,
                    }
                }
                HedgeAction::PollDelay => {
                    event = HedgeEvent::Delay(if delay_fired {
                        Progress::Ready
                    } else {
                        Progress::NotReady
                    })
                }
                HedgeAction::PollHedgeReady => event = HedgeEvent::HedgeReady(Progress::Ready),
                HedgeAction::AskPolicy => {
                    let req = self.request.as_ref().expect("held request");
                    event = HedgeEvent::Retryable(TestPolicy.can_retry(req));
                }
                HedgeAction::StartHedge => {
                    let req = self.request.take().expect("held request");
                    self.request = TestPolicy.clone_request(&req);
                    self.hedge = Some(Mock::NotReady);
                    self.hedge_calls += 1;
                    event = HedgeEvent::Started(self.request.is_some());
                }
                HedgeAction::Wait => return None,
            }
        }
    }
}

#[test]
fn hedge_orig_completes_first() {
    // The histogram gives a 10ms hedge delay.
    let mut fut = Driver::new("orig", Some(10));
    assert_eq!(fut.poll(false), None);

    // 10ms later the hedge is issued; neither response is ready.
    assert_eq!(fut.poll(true), None);
    assert_eq!(fut.hedge_calls, 1);

    fut.orig = Mock::Ready("orig-done");
    assert_eq!(fut.poll(true), Some("orig-done"));
}

#[test]
fn hedge_hedge_completes_first() {
    let mut fut = Driver::new("orig", Some(10));
    assert_eq!(fut.poll(true), None);
    assert_eq!(fut.hedge_calls, 1);
    fut.hedge = Some(Mock::Ready("hedge-done"));
    assert_eq!(fut.poll(true), Some("hedge-done"));
    assert_eq!(fut.hedge_calls, 1);
}

#[test]
fn completes_before_hedge() {
    let mut fut = Driver::new("orig", Some(10));
    assert_eq!(fut.poll(false), None);
    fut.orig = Mock::Ready("orig-done");
    assert_eq!(fut.poll(false), Some("orig-done"));
    assert_eq!(fut.hedge_calls, 0);
}

#[test]
fn request_not_retyable() {
    let mut fut = Driver::new(NOT_RETRYABLE, Some(10));
    assert_eq!(fut.poll(true), None);
    assert_eq!(fut.poll(true), None);
    assert_eq!(fut.hedge_calls, 0);
    // The request was put back for a later attempt.
    assert_eq!(fut.request, Some(NOT_RETRYABLE));
    fut.orig = Mock::Ready("orig-done");
    assert_eq!(fut.poll(true), Some("orig-done"));
}

#[test]
fn request_not_clonable() {
    let mut fut = Driver::new(NOT_CLONABLE, Some(10));
    assert!(!fut.state.holds_request);
    assert_eq!(fut.poll(true), None);
    assert_eq!(fut.hedge_calls, 0);
    fut.orig = Mock::Ready("orig-done");
    assert_eq!(fut.poll(true), Some("orig-done"));
}

#[test]
fn no_delay_never_hedges() {
    // Too few samples: the histogram gives no percentile, so no delay.
    let mut fut = Driver::new("orig", None);
    assert_eq!(fut.poll(true), None);
    assert_eq!(fut.poll(true), None);
    assert_eq!(fut.hedge_calls, 0);
}

#[test]
fn only_one_hedge_is_issued() {
    let mut fut = Driver::new("orig", Some(1));
    for _ in 0..5 {
        assert_eq!(fut.poll(true), None);
    }
    assert_eq!(fut.hedge_calls, 1);
    assert!(fut.state.hedging);
}

#[test]
fn hedge_readiness_error_waits_for_original() {
    let mut s = HedgeState::new(true, true);
    assert_eq!(s.step(HedgeEvent::Polled), HedgeAction::PollOriginal);
    assert_eq!(s.step(HedgeEvent::Original(Progress::NotReady)), HedgeAction::PollDelay);
    assert_eq!(s.step(HedgeEvent::Delay(Progress::Ready)), HedgeAction::PollHedgeReady);
    assert_eq!(s.step(HedgeEvent::HedgeReady(Progress::Failed)), HedgeAction::Wait);
    assert_eq!(s.step, HedgeStep::Original);
    assert!(!s.hedging);
    assert!(s.holds_request);
    // The original's response is still the one that is used.
    assert_eq!(s.step(HedgeEvent::Polled), HedgeAction::PollOriginal);
    assert_eq!(s.step(HedgeEvent::Original(Progress::Ready)), HedgeAction::FinishOriginal);
}

#[test]
fn timer_error_does_not_hedge() {
    let mut s = HedgeState::new(true, true);
    s.step(HedgeEvent::Polled);
    s.step(HedgeEvent::Original(Progress::NotReady));
    assert_eq!(s.step(HedgeEvent::Delay(Progress::Failed)), HedgeAction::Wait);
    assert!(!s.hedging);
    assert!(s.holds_request);
}

#[test]
fn original_error_ends_the_response() {
    let mut s = HedgeState::new(true, true);
    s.step(HedgeEvent::Polled);
    assert_eq!(s.step(HedgeEvent::Original(Progress::Failed)), HedgeAction::FinishOriginal);
}

#[test]
fn min_hedge_samples() {
    assert_eq!(proxy_stack::hedge::MIN_HEDGE_SAMPLES, 10);
}
