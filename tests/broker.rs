use an_daghdha::broker::{Delivery, Dispatch, MessageBroker, SendError, Status, SubscribeError};
use an_daghdha::message::{Message, MessageBody};
use an_daghdha::overlay::{RequestError, RequestStart};

fn msg(body: MessageBody, topic: Option<&str>) -> Message {
    Message::new(body, topic.map(|t| t.to_string()), false, 0)
}

fn received_body(d: Delivery) -> MessageBody {
    match d {
        Delivery::Message(m) => match &m.body {
            MessageBody::DebugMessage(s) => MessageBody::DebugMessage(s.clone()),
            MessageBody::Tick { seq, timestamp } => MessageBody::Tick { seq: *seq, timestamp: *timestamp },
            other => panic!("unexpected body {:?}", other),
        },
        Delivery::Empty => panic!("queue is empty"),
        Delivery::Closed => panic!("queue is closed"),
    }
}

#[test]
fn fan_out_follows_subscription_order() {
    let mut b = MessageBroker::new();
    b.start();
    let a = b.subscribe("^ex").unwrap();
    let c = b.subscribe("example").unwrap();
    assert!(b.send(msg(MessageBody::DebugMessage("m".to_string()), Some("example"))).is_ok());
    match b.dispatch_next() {
        Dispatch::Delivered(ids) => assert_eq!(ids, vec![a, c]),
        other => panic!("unexpected dispatch {:?}", other),
    }
    assert_eq!(received_body(b.receive(a)), MessageBody::DebugMessage("m".to_string()));
    assert_eq!(received_body(b.receive(c)), MessageBody::DebugMessage("m".to_string()));
    assert!(matches!(b.receive(a), Delivery::Empty));
    assert!(matches!(b.receive(c), Delivery::Empty));
}

#[test]
fn every_match_gets_exactly_one_shared_copy() {
    let mut b = MessageBroker::new();
    let a = b.subscribe("topic").unwrap();
    let c = b.subscribe("^to").unwrap();
    let m = msg(MessageBody::DebugMessage("x".to_string()), Some("topic"));
    let id = m.id;
    b.send(m).unwrap();
    assert!(matches!(b.dispatch_next(), Dispatch::Delivered(_)));
    for s in [a, c] {
        match b.receive(s) {
            Delivery::Message(got) => {
                assert_eq!(got.id, id);
                assert_eq!(got.topic.as_deref(), Some("topic"));
            }
            _ => panic!("expected one copy"),
        }
        assert!(matches!(b.receive(s), Delivery::Empty));
    }
}

#[test]
fn unmatched_topic_is_dropped() {
    let mut b = MessageBroker::new();
    b.start();
    let s = b.subscribe("foo").unwrap();
    assert_eq!(b.send(msg(MessageBody::Empty, Some("bar"))), Ok(()));
    match b.dispatch_next() {
        Dispatch::Delivered(ids) => assert!(ids.is_empty()),
        other => panic!("unexpected dispatch {:?}", other),
    }
    assert!(matches!(b.receive(s), Delivery::Empty));
    assert!(matches!(b.dispatch_next(), Dispatch::Idle));
}

#[test]
fn message_without_topic_is_dropped() {
    let mut b = MessageBroker::new();
    let s = b.subscribe(".*").unwrap();
    b.send(msg(MessageBody::Empty, None)).unwrap();
    assert!(matches!(b.dispatch_next(), Dispatch::Dropped));
    assert!(matches!(b.receive(s), Delivery::Empty));
}

#[test]
fn stop_ends_delivery() {
    let mut b = MessageBroker::new();
    assert_eq!(b.status(), Status::Unstarted);
    b.start();
    assert_eq!(b.status(), Status::Running);
    let s = b.subscribe(".*").unwrap();
    b.send(msg(MessageBody::Tick { seq: 1, timestamp: 10 }, Some("ticks"))).unwrap();
    b.send(msg(MessageBody::Stop, None)).unwrap();
    b.send(msg(MessageBody::Tick { seq: 2, timestamp: 20 }, Some("ticks"))).unwrap();
    assert!(matches!(b.dispatch_next(), Dispatch::Delivered(_)));
    assert!(matches!(b.dispatch_next(), Dispatch::Stopping));
    assert_eq!(b.status(), Status::Stopping);
    assert!(matches!(b.dispatch_next(), Dispatch::Halted));
    b.shut_down();
    assert_eq!(b.status(), Status::Stopped);
    assert_eq!(received_body(b.receive(s)), MessageBody::Tick { seq: 1, timestamp: 10 });
    assert!(matches!(b.receive(s), Delivery::Closed));
    assert_eq!(b.send(msg(MessageBody::Tick { seq: 3, timestamp: 30 }, Some("ticks"))), Err(SendError::Closed));
    assert!(matches!(b.dispatch_next(), Dispatch::Halted));
    assert!(matches!(b.receive(s), Delivery::Closed));
}

#[test]
fn stopped_status_is_final() {
    let mut b = MessageBroker::new();
    b.start();
    b.send(msg(MessageBody::Stop, Some("anything"))).unwrap();
    assert!(matches!(b.dispatch_next(), Dispatch::Stopping));
    b.shut_down();
    b.start();
    assert_eq!(b.status(), Status::Stopped);
    let _ = b.subscribe("x");
    assert!(matches!(b.dispatch_next(), Dispatch::Halted));
    assert_eq!(b.status(), Status::Stopped);
}

#[test]
fn unsubscribe_is_idempotent_by_effect() {
    let mut b = MessageBroker::new();
    let id = b.subscribe("x").unwrap();
    assert!(b.unsubscribe(id).is_ok());
    assert!(b.unsubscribe(id).is_err());
    assert!(matches!(b.receive(id), Delivery::Closed));
}

#[test]
fn invalid_pattern_is_refused() {
    let mut b = MessageBroker::new();
    assert!(matches!(b.subscribe("("), Err(SubscribeError::InvalidPattern(_))));
    assert!(matches!(b.subscribe_with_id(7, "a["), Err(SubscribeError::InvalidPattern(_))));
}

#[test]
fn subscribe_with_id_refuses_a_held_id() {
    let mut b = MessageBroker::new();
    assert_eq!(b.subscribe_with_id(7, "a").unwrap(), 7);
    assert!(matches!(b.subscribe_with_id(7, "b"), Err(SubscribeError::IdInUse)));
    assert!(b.unsubscribe(7).is_ok());
}

#[test]
fn ingress_holds_one_hundred_messages() {
    let mut b = MessageBroker::new();
    for i in 0..100u64 {
        assert_eq!(b.send(msg(MessageBody::Tick { seq: i, timestamp: 0 }, Some("t"))), Ok(()));
    }
    assert_eq!(b.send(msg(MessageBody::Empty, Some("t"))), Err(SendError::Full));
    assert!(matches!(b.dispatch_next(), Dispatch::Delivered(_)));
    assert_eq!(b.send(msg(MessageBody::Empty, Some("t"))), Ok(()));
}

#[test]
fn full_delivery_queue_blocks_dispatch() {
    let mut b = MessageBroker::new();
    let s = b.subscribe("t").unwrap();
    for i in 0..100u64 {
        b.send(msg(MessageBody::Tick { seq: i, timestamp: 0 }, Some("t"))).unwrap();
        assert!(matches!(b.dispatch_next(), Dispatch::Delivered(_)));
    }
    b.send(msg(MessageBody::Tick { seq: 100, timestamp: 0 }, Some("t"))).unwrap();
    assert!(matches!(b.dispatch_next(), Dispatch::Blocked));
    assert_eq!(received_body(b.receive(s)), MessageBody::Tick { seq: 0, timestamp: 0 });
    assert!(matches!(b.dispatch_next(), Dispatch::Delivered(_)));
}

#[test]
fn request_reply_happy_path() {
    let mut b = MessageBroker::new();
    b.start();
    let responder = b.subscribe("echo").unwrap();
    let request = Message::new(
        MessageBody::AuthenticationRequest { user: "u".to_string(), password: "p".to_string() },
        Some("echo".to_string()),
        true,
        0,
    );
    let request_id = request.id;
    let pending = match b.begin_request(request, 1000).unwrap() {
        RequestStart::Waiting(p) => p,
        RequestStart::Sent => panic!("a request must wait for its reply"),
    };
    assert_eq!(pending.request_id, request_id);
    assert!(b.poll_request(&pending, 1000).is_none());
    assert!(matches!(b.dispatch_next(), Dispatch::Delivered(_)));
    let incoming = match b.receive(responder) {
        Delivery::Message(m) => m,
        _ => panic!("responder got nothing"),
    };
    let reply = Message::new(
        MessageBody::AuthenticationResponse(Ok("T".to_string())),
        Some(incoming.reply_topic()),
        false,
        1,
    );
    b.send(reply).unwrap();
    assert!(matches!(b.dispatch_next(), Dispatch::Delivered(ref ids) if ids == &vec![pending.subscription]));
    let got = match b.poll_request(&pending, 1000) {
        Some(Ok(Some(m))) => m,
        _ => panic!("expected the reply"),
    };
    assert_eq!(got.body, MessageBody::AuthenticationResponse(Ok("T".to_string())));
    assert_eq!(got.topic.clone().unwrap(), format!("reply-{}", uuid::Uuid::from_u128(request_id)));
    assert!(b.unsubscribe(pending.subscription).is_err());
}

#[test]
fn request_times_out_and_cleans_up() {
    let mut b = MessageBroker::new();
    let request = Message::new_request(MessageBody::Empty, Some("nobody".to_string()), 0);
    let pending = match b.begin_request(request, 1000).unwrap() {
        RequestStart::Waiting(p) => p,
        RequestStart::Sent => panic!("a request must wait for its reply"),
    };
    assert!(matches!(b.dispatch_next(), Dispatch::Delivered(ref ids) if ids.is_empty()));
    assert_eq!(pending.deadline, 31000);
    assert!(b.poll_request(&pending, 1000).is_none());
    assert!(b.poll_request(&pending, 30999).is_none());
    assert!(matches!(b.poll_request(&pending, 31000), Some(Err(RequestError::Timeout))));
    assert!(b.unsubscribe(pending.subscription).is_err());
}

#[test]
fn one_way_request_subscribes_nothing() {
    let mut b = MessageBroker::new();
    let m = msg(MessageBody::Empty, Some("x"));
    assert!(matches!(b.begin_request(m, 1000), Ok(RequestStart::Sent)));
    let s = b.subscribe("reply-").unwrap();
    assert!(matches!(b.dispatch_next(), Dispatch::Delivered(ref ids) if ids.is_empty()));
    assert!(matches!(b.receive(s), Delivery::Empty));
}

#[test]
fn request_on_stopped_broker_fails_and_cleans_up() {
    let mut b = MessageBroker::new();
    b.send(msg(MessageBody::Stop, None)).unwrap();
    assert!(matches!(b.dispatch_next(), Dispatch::Stopping));
    let request = Message::new_request(MessageBody::Empty, Some("x".to_string()), 0);
    assert!(matches!(b.begin_request(request, 1000), Err(RequestError::Send(SendError::Closed))));
    let s = b.subscribe("x").unwrap();
    assert!(b.unsubscribe(s).is_ok());
}

#[test]
fn reply_queue_closing_gives_no_reply() {
    let mut b = MessageBroker::new();
    let request = Message::new_request(MessageBody::Empty, Some("x".to_string()), 0);
    let pending = match b.begin_request(request, 1000).unwrap() {
        RequestStart::Waiting(p) => p,
        RequestStart::Sent => panic!("a request must wait for its reply"),
    };
    b.send(msg(MessageBody::Stop, None)).unwrap();
    assert!(matches!(b.dispatch_next(), Dispatch::Delivered(_)));
    assert!(matches!(b.dispatch_next(), Dispatch::Stopping));
    assert!(matches!(b.poll_request(&pending, 1000), Some(Ok(None))));
}

#[test]
fn abandoned_request_leaves_no_subscription() {
    let mut b = MessageBroker::new();
    let request = Message::new_request(MessageBody::Empty, Some("x".to_string()), 0);
    let pending = match b.begin_request(request, u64::MAX - 5).unwrap() {
        RequestStart::Waiting(p) => p,
        RequestStart::Sent => panic!("a request must wait for its reply"),
    };
    assert_eq!(pending.deadline, u64::MAX);
    b.abandon_request(&pending);
    assert!(b.unsubscribe(pending.subscription).is_err());
}

#[test]
fn closed_queue_is_passed_over() {
    let mut b = MessageBroker::new();
    let gone = b.subscribe("t").unwrap();
    let live = b.subscribe("t").unwrap();
    for i in 0..100u64 {
        b.send(msg(MessageBody::Tick { seq: i, timestamp: 0 }, Some("t"))).unwrap();
        assert!(matches!(b.dispatch_next(), Dispatch::Delivered(_)));
        assert!(matches!(b.receive(live), Delivery::Message(_)));
    }
    b.send(msg(MessageBody::Tick { seq: 100, timestamp: 0 }, Some("t"))).unwrap();
    assert!(matches!(b.dispatch_next(), Dispatch::Blocked));
    assert!(b.close_queue(gone).is_ok());
    match b.dispatch_next() {
        Dispatch::Delivered(ids) => assert_eq!(ids, vec![live]),
        other => panic!("unexpected dispatch {:?}", other),
    }
    assert!(matches!(b.receive(gone), Delivery::Closed));
    assert_eq!(received_body(b.receive(live)), MessageBody::Tick { seq: 100, timestamp: 0 });
    assert!(b.close_queue(12345).is_err());
    assert!(b.unsubscribe(gone).is_ok());
}

#[test]
fn empty_registry_always_subscribes() {
    let mut b = MessageBroker::new();
    assert!(b.subscribe("anything").is_ok());
}
