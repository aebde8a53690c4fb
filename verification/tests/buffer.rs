use proxy_stack::buffer::{
    ready_error, DaemonAction, DaemonEvent, DaemonState, Error, RspAction, RspEvent, RspState,
};
use proxy_stack::progress::{Progress, Recv};

#[test]
fn daemon_builds_then_serves() {
    let mut d = DaemonState::new();
    assert_eq!(d.step(DaemonEvent::Polled), DaemonAction::PollBuild);
    assert_eq!(d.step(DaemonEvent::Built(Progress::NotReady)), DaemonAction::Wait);
    assert_eq!(d.step(DaemonEvent::Polled), DaemonAction::PollBuild);
    assert_eq!(d.step(DaemonEvent::Built(Progress::Ready)), DaemonAction::PollReady);
    assert_eq!(d.step(DaemonEvent::Readiness(Progress::Ready)), DaemonAction::PollRequests);
    assert_eq!(d.step(DaemonEvent::Request(Recv::Item)), DaemonAction::Dispatch);
    // After a dispatch, readiness is polled again before the next request.
    assert_eq!(d, DaemonState::Serving);
    assert_eq!(d.step(DaemonEvent::Polled), DaemonAction::PollReady);
    assert_eq!(d.step(DaemonEvent::Readiness(Progress::Ready)), DaemonAction::PollRequests);
    assert_eq!(d.step(DaemonEvent::Request(Recv::Empty)), DaemonAction::Wait);
    assert_eq!(d.step(DaemonEvent::Polled), DaemonAction::PollReady);
    assert_eq!(d.step(DaemonEvent::Readiness(Progress::NotReady)), DaemonAction::Wait);
}

#[test]
fn daemon_finishes_when_senders_are_gone() {
    let mut d = DaemonState::Serving;
    d.step(DaemonEvent::Readiness(Progress::Ready));
    assert_eq!(d.step(DaemonEvent::Request(Recv::Closed)), DaemonAction::Finish);
    assert_eq!(d, DaemonState::Done);
    assert_eq!(d.step(DaemonEvent::Polled), DaemonAction::Finish);
}

#[test]
fn daemon_finishes_when_build_fails() {
    let mut d = DaemonState::new();
    assert_eq!(d.step(DaemonEvent::Built(Progress::Failed)), DaemonAction::Finish);
    assert_eq!(d, DaemonState::Done);
}

#[test]
fn daemon_finishes_when_service_fails() {
    let mut d = DaemonState::Serving;
    assert_eq!(d.step(DaemonEvent::Readiness(Progress::Failed)), DaemonAction::Finish);
    assert_eq!(d.step(DaemonEvent::Request(Recv::Item)), DaemonAction::Finish);
}

#[test]
fn response_waits_for_dispatch() {
    let mut r = RspState::new();
    assert_eq!(r.step(RspEvent::Polled), RspAction::PollDispatch);
    assert_eq!(r.step(RspEvent::Dispatched(Progress::NotReady)), RspAction::Wait);
    assert_eq!(r.step(RspEvent::Dispatched(Progress::Ready)), RspAction::PollResponse);
    assert_eq!(r.step(RspEvent::Polled), RspAction::PollResponse);
}

#[test]
fn response_lost_daemon() {
    let mut r = RspState::new();
    assert_eq!(r.step(RspEvent::Dispatched(Progress::Failed)), RspAction::FailLostDaemon);
    assert_eq!(r, RspState::Dispatching);
}

#[test]
fn errors() {
    assert_eq!(Error::<u8>::LostDaemon.static_message(), Some("lost damemon task"));
    assert_eq!(Error::Service(3u8).static_message(), None);
    assert_eq!(Error::Service(3u8).cause(), Some(&3));
    assert_eq!(Error::<u8>::LostDaemon.cause(), None);
    assert_eq!(ready_error::<u8>(true), Err(Error::LostDaemon));
    assert_eq!(ready_error::<u8>(false), Ok(()));
}
