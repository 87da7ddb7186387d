use etcd_nats_cluster::dispatch::{
    classify_message, latency_buckets_micros, on_enqueue, on_reply, overload_reply, CallRequest,
    Dispatch, DispatchError, EnqueueOutcome, Intake, NatsRpcServer, ReplyOutcome, RpcStatus,
    ShutdownAction,
};
use etcd_nats_cluster::server::Server;

fn this_server() -> Server {
    Server::new("my-id".to_owned(), "room".to_owned(), "".to_owned(), false)
}

#[test]
fn server_starts_and_stops() {
    let mut sv = NatsRpcServer::new(&this_server(), 10);
    let plan = sv.start_plan().unwrap();
    assert_eq!(plan.topic, "pitaya/servers/room/my-id");
    assert_eq!(plan.queue_capacity, 10);
    assert!(sv.finish_start(true).is_ok());
    assert!(sv.running());
    assert_eq!(sv.start_plan().err(), Some(DispatchError::AlreadyStarted));

    let req = CallRequest { route: Some("room.room.join".to_owned()) };
    let intake = classify_message(Some(req), Some("_INBOX.reply".to_owned()));
    let (topic, route) = match intake {
        Intake::Enqueue { reply_topic, route } => (reply_topic, route),
        _ => panic!("call was not admitted"),
    };
    assert_eq!(topic, "_INBOX.reply");
    assert_eq!(route, "room.room.join");
    match on_enqueue(EnqueueOutcome::Queued, topic, route) {
        Dispatch::AwaitReply { reply_topic, route } => {
            assert_eq!(reply_topic, "_INBOX.reply");
            let obs = on_reply(ReplyOutcome::Published, route);
            assert_eq!(obs.route, "room.room.join");
            assert_eq!(obs.status, RpcStatus::Succeeded);
            assert_eq!(obs.status.label(), "ok");
        }
        _ => panic!("call was not queued"),
    }

    assert_eq!(sv.close(), ShutdownAction::CloseConnection);
    assert!(!sv.running());
}

#[test]
fn full_queue_replies_overloaded() {
    match on_enqueue(EnqueueOutcome::Full, "reply".to_owned(), "room.room.join".to_owned()) {
        Dispatch::RejectOverloaded { reply_topic, reply, observation } => {
            assert_eq!(reply_topic, "reply");
            assert!(reply.data.is_empty());
            let err = reply.error.unwrap();
            assert_eq!(err.code, "PIT-503");
            assert_eq!(err.msg, "server is overloaded");
            assert_eq!(observation.route, "room.room.join");
            assert_eq!(observation.status, RpcStatus::Failed);
            assert_eq!(observation.status.label(), "failed");
        }
        _ => panic!("full queue did not reject"),
    }
    assert!(matches!(
        on_enqueue(EnqueueOutcome::Closed, "reply".to_owned(), "r".to_owned()),
        Dispatch::Drop
    ));
}

#[test]
fn shutdown_twice_is_harmless() {
    let mut sv = NatsRpcServer::new(&this_server(), 1);
    sv.finish_start(true).unwrap();
    assert_eq!(sv.close(), ShutdownAction::CloseConnection);
    assert_eq!(sv.close(), ShutdownAction::Nothing);
    assert!(!sv.running());
    let mut never_started = NatsRpcServer::new(&this_server(), 1);
    assert_eq!(never_started.close(), ShutdownAction::Nothing);
}

#[test]
fn failed_subscription_leaves_server_stopped() {
    let mut sv = NatsRpcServer::new(&this_server(), 1);
    assert_eq!(sv.finish_start(false), Err(DispatchError::TransportUnavailable));
    assert!(!sv.running());
    assert!(sv.start_plan().is_ok());
}

#[test]
fn malformed_messages_are_dropped() {
    assert!(matches!(
        classify_message(None, Some("reply".to_owned())),
        Intake::DropUndecodable
    ));
    assert!(matches!(
        classify_message(Some(CallRequest { route: None }), None),
        Intake::DropNoReplyTopic
    ));
    match classify_message(Some(CallRequest { route: None }), Some("t".to_owned())) {
        Intake::Enqueue { route, .. } => assert_eq!(route, ""),
        _ => panic!("call without message was not admitted"),
    }
}

#[test]
fn reply_outcomes_are_labelled() {
    assert_eq!(
        on_reply(ReplyOutcome::PublishFailed, "r".to_owned()).status,
        RpcStatus::Failed
    );
    assert_eq!(
        on_reply(ReplyOutcome::ResponderDropped, "r".to_owned()).status,
        RpcStatus::Failed
    );
    let lost = on_reply(ReplyOutcome::NotConnected, "r".to_owned());
    assert_eq!(lost.status, RpcStatus::Failed);
    assert_eq!(lost.route, "r");
}

#[test]
fn overload_reply_has_reserved_code() {
    let r = overload_reply();
    assert!(r.data.is_empty());
    assert_eq!(r.error.unwrap().code, "PIT-503");
}

#[test]
fn latency_buckets_double_from_500_micros() {
    let b = latency_buckets_micros();
    assert_eq!(b.len(), 20);
    assert_eq!(b[0], 500);
    assert_eq!(b[1], 1000);
    assert_eq!(b[19], 262_144_000);
}
