use etcd_nats_cluster::lease::{
    renewal_wait_millis, LeaseAction, LeaseEvent, LeaseKeeper, LeasePhase,
};

#[test]
fn server_lease_works() {
    let mut k = LeaseKeeper::new(7, 60);
    let first = k.wait_millis();
    assert!(first >= 20_000 && first <= 40_000);
    assert_eq!(first, 40_000);
    assert_eq!(k.step(LeaseEvent::WaitElapsed), LeaseAction::SendKeepAlive);
    // The server's ttl replaces the cadence.
    assert_eq!(k.step(LeaseEvent::Renewed(30)), LeaseAction::Wait(20_000));
    assert_eq!(k.ttl_secs(), 30);
    assert_eq!(k.wait_millis(), 20_000);
    assert_eq!(k.step(LeaseEvent::WaitElapsed), LeaseAction::SendKeepAlive);
    assert_eq!(k.step(LeaseEvent::Renewed(2)), LeaseAction::Wait(1_333));
    assert_eq!(k.step(LeaseEvent::StopRequested), LeaseAction::Exit);
    assert_eq!(k.phase(), LeasePhase::Done);
    assert!(!k.fatal_signalled());
    assert_eq!(k.lease_id(), 7);
}

#[test]
fn keep_alive_failure_is_fatal_once() {
    let mut k = LeaseKeeper::new(1, 4);
    assert_eq!(k.step(LeaseEvent::WaitElapsed), LeaseAction::SendKeepAlive);
    assert_eq!(k.step(LeaseEvent::KeepAliveFailed), LeaseAction::SignalFatal);
    assert!(k.fatal_signalled());
    assert_eq!(k.step(LeaseEvent::KeepAliveFailed), LeaseAction::Exit);
    assert_eq!(k.step(LeaseEvent::WaitElapsed), LeaseAction::Exit);
}

#[test]
fn expired_lease_is_fatal() {
    let mut k = LeaseKeeper::new(1, 4);
    k.step(LeaseEvent::WaitElapsed);
    assert_eq!(k.step(LeaseEvent::Renewed(0)), LeaseAction::SignalFatal);
    assert_eq!(k.phase(), LeasePhase::Done);
}

#[test]
fn out_of_phase_events_are_ignored() {
    let mut k = LeaseKeeper::new(1, 9);
    assert_eq!(k.step(LeaseEvent::Renewed(5)), LeaseAction::Ignore);
    assert_eq!(k.ttl_secs(), 9);
    assert_eq!(k.step(LeaseEvent::KeepAliveFailed), LeaseAction::Ignore);
    assert!(!k.fatal_signalled());
}

#[test]
fn grant_needs_a_positive_ttl() {
    assert!(LeaseKeeper::from_grant(3, 0).is_none());
    assert!(LeaseKeeper::from_grant(3, -1).is_none());
    assert!(LeaseKeeper::from_grant(3, 9_000_000_001).is_none());
    let k = LeaseKeeper::from_grant(3, 4).unwrap();
    assert_eq!(k.ttl_secs(), 4);
    assert_eq!(k.phase(), LeasePhase::Waiting);
}

#[test]
fn renewal_wait_values() {
    assert_eq!(renewal_wait_millis(1), 666);
    assert_eq!(renewal_wait_millis(2), 1_333);
    assert_eq!(renewal_wait_millis(3), 2_000);
    assert_eq!(renewal_wait_millis(4), 2_666);
    assert_eq!(renewal_wait_millis(60), 40_000);
    assert_eq!(renewal_wait_millis(9_000_000_000), 6_000_000_000_000);
}
