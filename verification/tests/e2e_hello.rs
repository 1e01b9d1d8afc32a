use std::sync::Arc;

use service_project::feature::FeatureContext;
use service_project::hello_world::api;
use service_project::hello_world::HelloWorldFeature;
use service_project::mock::MockTransport;
use service_project::router::RpcRequest;
use service_project::types::Clock;
use service_project::types::DynClock;
use service_project::Feature;

struct FixedClock {
    now: String,
}

impl FixedClock {
    fn new(now: &str) -> Self {
        Self {
            now: now.to_string(),
        }
    }
}

impl Clock for FixedClock {
    fn now_rfc3339(&self) -> String {
        self.now.clone()
    }
}

fn fixed_clock(now: &str) -> DynClock {
    let clock: Box<dyn Clock> = Box::new(FixedClock::new(now));
    Arc::new(clock)
}

#[test]
fn hello_world_rpc_flow() {
    let transport = MockTransport::new();
    let router = transport.router();
    let events = transport.events();
    let clock = fixed_clock("2025-12-21T00:00:00Z");

    let feature = HelloWorldFeature::with_clock(clock.clone());
    feature
        .init(FeatureContext::new(router.clone(), events.clone(), clock))
        .expect("feature init");

    let subscription = events.subscribe();
    let request = RpcRequest::new(api::SERVICE, api::METHOD_GET, Vec::new(), 1_000);
    let response = transport.handle_incoming(request).expect("rpc response");

    let message = String::from_utf8(response.payload).expect("utf-8 response");
    assert!(message.contains("hello world"));
    assert!(
        message.contains('T') || message.contains('Z') || message.contains('+'),
        "expected time separator in message"
    );

    let event = subscription
        .try_recv()
        .expect("event received")
        .expect("event pending");
    assert_eq!(event.topic, "hello/called");
}
