use service_project::event::EventBus;
use service_project::event::EventError;
use service_project::event::EventHub;
use service_project::event::TransportEvent;
use service_project::event::BUS_CLOSED;
use service_project::event::NOT_SUBSCRIBED;
use service_project::mock::MockEvents;
use service_project::mock::MockTransport;

fn event(topic: &str, payload: &[u8]) -> TransportEvent {
    TransportEvent {
        topic: topic.to_string(),
        payload: payload.to_vec(),
    }
}

fn topics_until_empty(hub: &mut EventHub, id: usize) -> Vec<String> {
    let mut topics = Vec::new();
    while let Some(event) = hub.take(id).expect("open bus") {
        topics.push(event.topic);
    }
    topics
}

#[test]
fn hub_delivers_nothing_that_was_published_before_the_subscription() {
    let mut hub = EventHub::new();
    assert!(hub.publish(&event("early", b"1")).is_ok());
    let id = hub.subscribe();
    assert!(matches!(hub.take(id), Ok(None)));
    assert!(hub.publish(&event("late", b"2")).is_ok());
    let got = hub.take(id).expect("open bus").expect("pending event");
    assert_eq!(got.topic, "late");
    assert_eq!(got.payload, b"2".to_vec());
    assert!(matches!(hub.take(id), Ok(None)));
}

#[test]
fn hub_delivers_in_publish_order() {
    let mut hub = EventHub::new();
    let id = hub.subscribe();
    for index in 0..10 {
        assert!(hub.publish(&event(&format!("t{}", index), &[index as u8])).is_ok());
    }
    let topics = topics_until_empty(&mut hub, id);
    let expected: Vec<String> = (0..10).map(|index| format!("t{}", index)).collect();
    assert_eq!(topics, expected);
}

#[test]
fn hub_delivers_each_event_once_to_each_subscription() {
    let mut hub = EventHub::new();
    let first = hub.subscribe();
    assert!(hub.publish(&event("a", b"")).is_ok());
    let second = hub.subscribe();
    assert_ne!(first, second);
    assert!(hub.publish(&event("b", b"")).is_ok());
    assert_eq!(topics_until_empty(&mut hub, first), vec!["a", "b"]);
    assert_eq!(topics_until_empty(&mut hub, second), vec!["b"]);
    assert!(matches!(hub.take(first), Ok(None)));
    assert!(matches!(hub.take(second), Ok(None)));
}

#[test]
fn hub_drops_a_cancelled_subscription() {
    let mut hub = EventHub::new();
    let gone = hub.subscribe();
    let stays = hub.subscribe();
    assert!(hub.publish(&event("a", b"")).is_ok());
    hub.unsubscribe(gone);
    assert!(hub.publish(&event("b", b"")).is_ok());
    match hub.take(gone) {
        Err(EventError::Receive(reason)) => assert_eq!(reason, NOT_SUBSCRIBED),
        other => panic!("expected a refusal, got {:?}", other),
    }
    assert_eq!(topics_until_empty(&mut hub, stays), vec!["a", "b"]);
}

#[test]
fn hub_gives_a_reused_place_an_empty_mailbox() {
    let mut hub = EventHub::new();
    let first = hub.subscribe();
    assert!(hub.publish(&event("old", b"")).is_ok());
    hub.unsubscribe(first);
    let second = hub.subscribe();
    assert!(matches!(hub.take(second), Ok(None)));
    assert!(hub.publish(&event("new", b"")).is_ok());
    assert_eq!(topics_until_empty(&mut hub, second), vec!["new"]);
}

#[test]
fn hub_unsubscribe_of_an_unknown_id_changes_nothing() {
    let mut hub = EventHub::new();
    let id = hub.subscribe();
    hub.unsubscribe(id + 7);
    assert!(hub.publish(&event("a", b"")).is_ok());
    assert_eq!(topics_until_empty(&mut hub, id), vec!["a"]);
}

#[test]
fn hub_take_of_an_unknown_id_is_refused() {
    let mut hub = EventHub::new();
    match hub.take(3) {
        Err(EventError::Receive(reason)) => assert_eq!(reason, "subscription is not live"),
        other => panic!("expected a refusal, got {:?}", other),
    }
}

#[test]
fn closed_hub_refuses_to_publish_and_lets_pending_events_out() {
    let mut hub = EventHub::new();
    let id = hub.subscribe();
    assert!(hub.publish(&event("last", b"")).is_ok());
    hub.close();
    match hub.publish(&event("after", b"")) {
        Err(EventError::Publish(reason)) => {
            assert_eq!(reason, BUS_CLOSED);
            assert_eq!(reason, "event bus is closed");
        }
        other => panic!("expected a refusal, got {:?}", other),
    }
    let got = hub.take(id).expect("pending event").expect("pending event");
    assert_eq!(got.topic, "last");
    match hub.take(id) {
        Err(EventError::Receive(reason)) => assert_eq!(reason, "event bus is closed"),
        other => panic!("expected closure, got {:?}", other),
    }
}

#[test]
fn publish_without_subscribers_succeeds() {
    let events = MockEvents::new();
    assert!(EventBus::publish(&events, event("nobody", b"")).is_ok());
}

#[test]
fn bus_subscription_sees_only_later_events_in_order() {
    let transport = MockTransport::new();
    let bus = transport.events();
    assert!(bus.publish(event("before", b"")).is_ok());
    let subscription = bus.subscribe();
    assert!(matches!(subscription.try_recv(), Ok(None)));
    assert!(bus.publish(event("one", b"1")).is_ok());
    assert!(transport.events().publish(event("two", b"2")).is_ok());
    let first = subscription.try_recv().expect("open bus").expect("pending");
    let second = subscription.try_recv().expect("open bus").expect("pending");
    assert_eq!((first.topic.as_str(), first.payload), ("one", b"1".to_vec()));
    assert_eq!((second.topic.as_str(), second.payload), ("two", b"2".to_vec()));
    assert!(matches!(subscription.try_recv(), Ok(None)));
}

#[test]
fn bus_keeps_delivering_after_a_subscription_was_cancelled() {
    let events = MockEvents::new();
    let gone = EventBus::subscribe(&events);
    let stays = EventBus::subscribe(&events);
    gone.cancel();
    assert!(EventBus::publish(&events, event("still", b"")).is_ok());
    let got = stays.try_recv().expect("open bus").expect("pending");
    assert_eq!(got.topic, "still");
}

#[test]
fn closed_bus_reports_closure_to_publisher_and_subscriber() {
    let events = MockEvents::new();
    let subscription = EventBus::subscribe(&events);
    assert!(EventBus::publish(&events, event("last", b"")).is_ok());
    events.clone().close();
    match EventBus::publish(&events, event("after", b"")) {
        Err(err) => {
            assert!(matches!(err, EventError::Publish(_)));
            assert_eq!(err.message(), "event bus is closed");
        }
        Ok(()) => panic!("a closed bus accepted an event"),
    }
    let got = subscription.try_recv().expect("pending").expect("pending");
    assert_eq!(got.topic, "last");
    match subscription.try_recv() {
        Err(err) => {
            assert!(matches!(err, EventError::Receive(_)));
            assert_eq!(err.message(), "event bus is closed");
        }
        Ok(other) => panic!("expected closure, got {:?}", other),
    }
}

#[test]
fn events_published_from_many_threads_all_arrive() {
    let pool = tokio::runtime::Builder::new_multi_thread()
        .worker_threads(4)
        .max_blocking_threads(8)
        .build()
        .expect("thread pool");
    let events = MockEvents::new();
    let subscription = EventBus::subscribe(&events);
    let mut workers = Vec::new();
    for worker in 0..8u8 {
        let events = events.clone();
        workers.push(pool.spawn_blocking(move || {
            for step in 0..16u8 {
                EventBus::publish(&events, event("tick", &[worker, step])).expect("open bus");
            }
        }));
    }
    for worker in workers {
        pool.block_on(worker).expect("worker");
    }
    let mut next_step = [0u8; 8];
    let mut total = 0;
    while let Some(got) = subscription.try_recv().expect("open bus") {
        let worker = got.payload[0] as usize;
        assert_eq!(got.payload[1], next_step[worker]);
        next_step[worker] += 1;
        total += 1;
    }
    assert_eq!(total, 8 * 16);
}

#[test]
fn event_clone_is_equal_in_topic_and_payload() {
    let first = event("topic", b"bytes");
    let copy = first.clone();
    assert_eq!(copy.topic, "topic");
    assert_eq!(copy.payload, b"bytes".to_vec());
}

#[test]
fn event_error_messages() {
    assert_eq!(EventError::Publish("no way".to_string()).message(), "no way");
    assert_eq!(EventError::Receive("closed".to_string()).message(), "closed");
}
