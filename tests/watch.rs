use etcd_nats_cluster::watch::{WatchAction, WatchLoop, WatchPhase, WatchSignal, WATCH_RETRY_MILLIS};

#[test]
fn watch_reopens_until_stopped() {
    let mut w = WatchLoop::new();
    assert_eq!(w.phase(), WatchPhase::Opening);
    assert_eq!(w.step(WatchSignal::OpenFailed), WatchAction::RetryAfter(WATCH_RETRY_MILLIS));
    assert_eq!(WATCH_RETRY_MILLIS, 1000);
    assert_eq!(w.step(WatchSignal::Opened), WatchAction::Listen);
    assert_eq!(w.step(WatchSignal::EventsApplied), WatchAction::Listen);
    assert_eq!(w.step(WatchSignal::StreamEnded), WatchAction::Open);
    assert_eq!(w.phase(), WatchPhase::Opening);
    assert_eq!(w.step(WatchSignal::EventsApplied), WatchAction::Ignore);
    assert_eq!(w.step(WatchSignal::Opened), WatchAction::Listen);
    assert_eq!(w.step(WatchSignal::StopRequested), WatchAction::Exit);
    assert_eq!(w.phase(), WatchPhase::Done);
    assert_eq!(w.step(WatchSignal::Opened), WatchAction::Exit);
}
