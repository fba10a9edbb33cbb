//! The message bus: routing by exact topic, per-producer order, inert
//! subscriptions, and polling.

use tactics::messaging::{MessageContent, Messaging};

fn message(topic: &str, payload: &[u8]) -> MessageContent {
    MessageContent { topic: topic.to_string(), content: payload.to_vec() }
}

#[test]
fn every_subscriber_receives_every_message_in_order() {
    // N = 3 messages on topic "t", K = 2 subscribers: each receives all
    // three, in publication order.
    let mut bus = Messaging::init();
    let producer = bus.create_topic();
    let sub_a = bus.subscribe_to_topic("t".to_string());
    let sub_b = bus.subscribe_to_topic("t".to_string());
    let other = bus.subscribe_to_topic("elsewhere".to_string());

    bus.publish(producer, message("t", b"one"));
    bus.publish(producer, message("t", b"two"));
    bus.publish(producer, message("t", b"three"));

    // One router pass drains one pending message per producer queue.
    bus.step_bus();
    bus.step_bus();
    bus.step_bus();

    for sub in [sub_a, sub_b] {
        let first = bus.try_recv(sub).expect("first message");
        let second = bus.try_recv(sub).expect("second message");
        let third = bus.try_recv(sub).expect("third message");
        assert_eq!(first.content, b"one".to_vec());
        assert_eq!(second.content, b"two".to_vec());
        assert_eq!(third.content, b"three".to_vec());
        assert_eq!(first.topic, "t");
        assert!(bus.try_recv(sub).is_none());
    }

    // The unrelated subscription never fires.
    assert!(bus.try_recv(other).is_none());
}

#[test]
fn routing_matches_topics_exactly() {
    let mut bus = Messaging::init();
    let producer = bus.create_topic();
    let exact = bus.subscribe_to_topic("info".to_string());
    let prefixed = bus.subscribe_to_topic("info_response".to_string());

    bus.publish(producer, message("info", b"x"));
    bus.step_bus();

    assert!(bus.try_recv(exact).is_some());
    assert!(bus.try_recv(prefixed).is_none());
}

#[test]
fn a_step_drains_at_most_one_message_per_producer() {
    let mut bus = Messaging::init();
    let producer = bus.create_topic();
    let sub = bus.subscribe_to_topic("t".to_string());

    bus.publish(producer, message("t", b"a"));
    bus.publish(producer, message("t", b"b"));
    bus.step_bus();

    assert_eq!(bus.try_recv(sub).unwrap().content, b"a".to_vec());
    assert!(bus.try_recv(sub).is_none());
    bus.step_bus();
    assert_eq!(bus.try_recv(sub).unwrap().content, b"b".to_vec());
}

#[test]
fn messages_interleave_across_producers_by_queue_order() {
    let mut bus = Messaging::init();
    let first = bus.create_topic();
    let second = bus.create_topic();
    let sub = bus.subscribe_to_topic("t".to_string());

    bus.publish(second, message("t", b"from-second"));
    bus.publish(first, message("t", b"from-first"));
    bus.step_bus();

    // The router walks the producer queues in index order.
    assert_eq!(bus.try_recv(sub).unwrap().content, b"from-first".to_vec());
    assert_eq!(bus.try_recv(sub).unwrap().content, b"from-second".to_vec());
}

#[test]
fn duplicate_copies_topic_and_payload() {
    let original = message("t", b"payload");
    let copy = original.duplicate();
    assert_eq!(copy.topic, original.topic);
    assert_eq!(copy.content, original.content);
}

#[test]
fn broadcast_reaches_only_matching_queues() {
    let mut bus = Messaging::init();
    let a = bus.subscribe_to_topic("a".to_string());
    let b = bus.subscribe_to_topic("b".to_string());
    bus.broadcast(&message("b", b"ping"));
    assert!(bus.try_recv(a).is_none());
    assert_eq!(bus.try_recv(b).unwrap().content, b"ping".to_vec());
}
