use std::sync::Arc;

use service_project::event::EventError;
use service_project::feature::Feature;
use service_project::feature::FeatureContext;
use service_project::hello_world::adapter::called_event;
use service_project::hello_world::adapter::greet;
use service_project::hello_world::adapter::register;
use service_project::hello_world::adapter::respond;
use service_project::hello_world::api;
use service_project::hello_world::domain::get_message;
use service_project::hello_world::HelloWorldFeature;
use service_project::mock::MockEvents;
use service_project::mock::MockTransport;
use service_project::router::RouterError;
use service_project::router::RpcError;
use service_project::router::RpcRequest;
use service_project::types::Clock;
use service_project::types::DynClock;

struct FixedClock {
    now: String,
}

impl Clock for FixedClock {
    fn now_rfc3339(&self) -> String {
        self.now.clone()
    }
}

fn fixed_clock(now: &str) -> DynClock {
    let clock: Box<dyn Clock> = Box::new(FixedClock {
        now: now.to_string(),
    });
    Arc::new(clock)
}

#[test]
fn hello_names() {
    assert_eq!(api::SERVICE, "greeting");
    assert_eq!(api::METHOD_GET, "get");
    assert_eq!(api::TOPIC_CALLED, "hello/called");
}

#[test]
fn hello_event_has_the_topic_and_no_payload() {
    let event = called_event();
    assert_eq!(event.topic, "hello/called");
    assert!(event.payload.is_empty());
}

#[test]
fn hello_message_follows_the_timestamp() {
    assert_eq!(get_message("2025-12-21T00:00:00Z"), "2025-12-21T00:00:00Z hello world");
    assert_eq!(get_message(""), " hello world");
}

#[test]
fn hello_respond_answers_with_the_message_bytes() {
    let out = respond("t hello world".to_string(), Ok(())).expect("published");
    assert_eq!(out.payload, b"t hello world".to_vec());
    let out = respond("gr\u{fc}\u{df}e".to_string(), Ok(())).expect("published");
    assert_eq!(out.payload, "gr\u{fc}\u{df}e".as_bytes().to_vec());
}

#[test]
fn hello_respond_folds_a_publish_failure_into_an_internal_error() {
    match respond("t hello world".to_string(), Err(EventError::Publish("no bus".to_string()))) {
        Err(RpcError::Internal(reason)) => assert_eq!(reason, "no bus"),
        other => panic!("expected an internal error, got {:?}", other),
    }
}

#[test]
fn hello_both_adapters_give_the_same_greeting_and_tell_the_bus() {
    let transport = MockTransport::new();
    let clock = fixed_clock("2025-12-21T00:00:00Z");
    let subscription = transport.events().subscribe();
    HelloWorldFeature::with_clock(clock.clone())
        .init(FeatureContext::new(transport.router(), transport.events(), clock))
        .expect("feature init");

    let direct = transport
        .handle_incoming(RpcRequest::new(api::SERVICE, api::METHOD_GET, Vec::new(), 1_000))
        .expect("rpc response");
    assert_eq!(
        String::from_utf8(direct.payload).expect("utf-8 response"),
        "2025-12-21T00:00:00Z hello world"
    );
    let event = subscription.try_recv().expect("open bus").expect("pending");
    assert_eq!(event.topic, "hello/called");
    assert!(event.payload.is_empty());

    let server = service_project::http::HttpServerTransport::new(transport.router());
    let reply = server.handle(service_project::http::protocol::HttpRpcRequest {
        service: "greeting".to_string(),
        method: "get".to_string(),
        payload_b64: String::new(),
        timeout_ms: 1_000,
    });
    assert_eq!(reply.status, 200);
    assert!(reply.body.error.is_none());
    assert_eq!(reply.body.payload_b64, "MjAyNS0xMi0yMVQwMDowMDowMFogaGVsbG8gd29ybGQ=");
    let event = subscription.try_recv().expect("open bus").expect("pending");
    assert_eq!(event.topic, "hello/called");
    assert!(matches!(subscription.try_recv(), Ok(None)));
}

#[test]
fn hello_registering_twice_is_a_duplicate() {
    let transport = MockTransport::new();
    let clock = fixed_clock("now");
    assert!(register(transport.router(), transport.events(), clock.clone()).is_ok());
    match register(transport.router(), transport.events(), clock.clone()) {
        Err(RouterError::DuplicateRegistration { service, method }) => {
            assert_eq!(service, "greeting");
            assert_eq!(method, "get");
        }
        other => panic!("expected a duplicate, got {:?}", other),
    }
    let refused = HelloWorldFeature::with_clock(clock.clone())
        .init(FeatureContext::new(transport.router(), transport.events(), clock))
        .expect_err("duplicate key");
    assert_eq!(refused.message, "handler already registered for greeting.get");
}

#[test]
fn hello_greet_on_a_closed_bus_is_an_internal_error() {
    let events = MockEvents::new();
    events.close();
    let bus: Box<dyn service_project::event::EventBus> = Box::new(events);
    let bus = Arc::new(bus);
    match greet(&bus, &fixed_clock("now")) {
        Err(RpcError::Internal(reason)) => assert_eq!(reason, "event bus is closed"),
        other => panic!("expected an internal error, got {:?}", other),
    }
}

#[test]
fn hello_uses_the_clock_of_the_feature() {
    let transport = MockTransport::new();
    HelloWorldFeature::with_clock(fixed_clock("feature-time"))
        .init(FeatureContext::new(
            transport.router(),
            transport.events(),
            fixed_clock("context-time"),
        ))
        .expect("feature init");
    let out = transport
        .handle_incoming(RpcRequest::new("greeting", "get", b"ignored".to_vec(), 0))
        .expect("rpc response");
    assert_eq!(out.payload, b"feature-time hello world".to_vec());
}
