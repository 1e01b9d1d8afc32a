use std::sync::Arc;
use std::sync::Mutex;

use service_project::ble::BleTransport;
use service_project::config::AppConfig;
use service_project::error::Error;
use service_project::feature::Feature;
use service_project::feature::FeatureContext;
use service_project::feature::FeatureInitError;
use service_project::feature::FeatureSlot;
use service_project::feature::FeatureState;
use service_project::feature::LifecycleEvent;
use service_project::feature::ALREADY_INITIALIZED;
use service_project::hello_world::HelloWorldFeature;
use service_project::manager::TransportManager;
use service_project::manager::TransportManagerApi;
use service_project::mock::MockTransport;
use service_project::router::rpc_handler;
use service_project::router::RpcRequest;
use service_project::router::RpcResponse;
use service_project::transport::Transport;
use service_project::types::timestamp_text;
use service_project::types::Clock;
use service_project::types::DynClock;
use service_project::types::SystemClock;
use service_project::wifi::WifiDetector;

fn system_clock() -> DynClock {
    let clock: Box<dyn Clock> = Box::new(SystemClock);
    Arc::new(clock)
}

fn context(transport: &MockTransport) -> FeatureContext {
    FeatureContext::new(transport.router(), transport.events(), system_clock())
}

struct Counting {
    calls: Arc<Mutex<u32>>,
    method: &'static str,
}

impl Feature for Counting {
    fn name(&self) -> &'static str {
        "counting"
    }

    fn init(&self, ctx: FeatureContext) -> Result<(), FeatureInitError> {
        *self.calls.lock().expect("counter") += 1;
        ctx.router
            .register(
                "counting",
                self.method,
                rpc_handler(|_req: RpcRequest| Ok(RpcResponse { payload: Vec::new() })),
            )
            .map_err(|err| FeatureInitError::new(&err.message()))
    }
}

#[test]
fn error_message_is_the_text_it_carries() {
    assert_eq!(Error::Configuration("c".to_string()).message(), "c");
    assert_eq!(Error::Unsupported("u".to_string()).message(), "u");
    assert_eq!(Error::Transport("t".to_string()).message(), "t");
    assert_eq!(Error::Feature("f".to_string()).message(), "f");
    assert_eq!(Error::Other("o".to_string()).message(), "o");
    assert_eq!(Error::Other("again".to_string()).clone().message(), "again");
}

#[test]
fn default_config_selects_the_mock_transport() {
    let config = AppConfig::default();
    assert_eq!(config.transport, "mock");
    assert_eq!(config.logging_level, "info");
    let copy = config.clone();
    assert_eq!(copy.transport, "mock");
    assert_eq!(copy.logging_level, "info");
}

#[test]
fn manager_is_a_placeholder() {
    let mut manager = TransportManager::new();
    assert!(manager.active_transport().is_none());
    assert!(manager.set_transport("http".to_string()).is_ok());
    assert!(manager.active_transport().is_none());
    assert_eq!(manager.id(), "manager");
    assert!(manager.start().is_ok());
    assert_eq!(TransportManager::default().id(), "manager");
}

#[test]
fn stub_transports_have_fixed_identifiers() {
    let ble = BleTransport::new();
    assert_eq!(ble.id(), "ble");
    assert!(ble.start().is_ok());
    let mock = MockTransport::new();
    assert_eq!(mock.id(), "mock");
    assert!(mock.start().is_ok());
    assert_eq!(mock.clone().id(), "mock");
}

#[test]
fn wifi_detector_finds_nothing() {
    assert!(WifiDetector::new().detect().is_none());
}

#[test]
fn system_clock_writes_seconds_and_a_fixed_time_of_day() {
    let now = SystemClock.now_rfc3339();
    let seconds = now.strip_suffix("T00:00:00Z").expect("fixed time of day");
    let seconds: u64 = seconds.parse().expect("seconds");
    assert!(seconds > 1_600_000_000);
    assert_eq!(seconds.to_string() + "T00:00:00Z", now);
}

#[test]
fn timestamp_text_of_known_seconds() {
    assert_eq!(timestamp_text(0), "0T00:00:00Z");
    assert_eq!(timestamp_text(1_766_275_200), "1766275200T00:00:00Z");
}

#[test]
fn feature_init_error_keeps_its_message() {
    let err = FeatureInitError::new("handler already registered for a.b");
    assert_eq!(err.message, "handler already registered for a.b");
}

#[test]
fn lifecycle_moves_forward_only() {
    let (uninitialized, initializing, ready, failed) = (
        FeatureState::Uninitialized,
        FeatureState::Initializing,
        FeatureState::Ready,
        FeatureState::Failed,
    );
    assert_eq!(uninitialized.advance(LifecycleEvent::Begin), initializing);
    assert_eq!(initializing.advance(LifecycleEvent::Succeeded), ready);
    assert_eq!(initializing.advance(LifecycleEvent::Failed), failed);
    assert_eq!(uninitialized.advance(LifecycleEvent::Succeeded), uninitialized);
    assert_eq!(uninitialized.advance(LifecycleEvent::Failed), uninitialized);
    assert_eq!(initializing.advance(LifecycleEvent::Begin), initializing);
    for event in [LifecycleEvent::Begin, LifecycleEvent::Succeeded, LifecycleEvent::Failed] {
        assert_eq!(ready.advance(event), ready);
        assert_eq!(failed.advance(event), failed);
        for state in [initializing, ready, failed] {
            assert_ne!(state.advance(event), uninitialized);
        }
    }
}

#[test]
fn slot_initializes_a_feature_once() {
    let transport = MockTransport::new();
    let calls = Arc::new(Mutex::new(0));
    let mut slot = FeatureSlot::new(Box::new(Counting {
        calls: calls.clone(),
        method: "count",
    }));
    assert_eq!(slot.name(), "counting");
    assert_eq!(slot.state(), FeatureState::Uninitialized);
    assert!(slot.activate(context(&transport)).is_ok());
    assert_eq!(slot.state(), FeatureState::Ready);
    let again = slot.activate(context(&transport)).expect_err("second activation");
    assert_eq!(again.message, ALREADY_INITIALIZED);
    assert_eq!(again.message, "feature was already initialized");
    assert_eq!(slot.state(), FeatureState::Ready);
    assert_eq!(*calls.lock().expect("counter"), 1);
}

#[test]
fn slot_records_a_refused_registration_and_does_not_retry() {
    let transport = MockTransport::new();
    let calls = Arc::new(Mutex::new(0));
    let mut first = FeatureSlot::new(Box::new(Counting {
        calls: calls.clone(),
        method: "count",
    }));
    let mut second = FeatureSlot::new(Box::new(Counting {
        calls: calls.clone(),
        method: "count",
    }));
    assert!(first.activate(context(&transport)).is_ok());
    let refused = second.activate(context(&transport)).expect_err("duplicate key");
    assert_eq!(refused.message, "handler already registered for counting.count");
    assert_eq!(second.state(), FeatureState::Failed);
    let again = second.activate(context(&transport)).expect_err("no retry");
    assert_eq!(again.message, "feature was already initialized");
    assert_eq!(second.state(), FeatureState::Failed);
    assert_eq!(*calls.lock().expect("counter"), 2);
    assert_eq!(first.state(), FeatureState::Ready);
}

#[test]
fn slot_reports_an_invalid_name_as_a_failure() {
    let transport = MockTransport::new();
    let mut slot = FeatureSlot::new(Box::new(Counting {
        calls: Arc::new(Mutex::new(0)),
        method: "  ",
    }));
    let refused = slot.activate(context(&transport)).expect_err("blank method");
    assert_eq!(refused.message, "invalid service or method name");
    assert_eq!(slot.state(), FeatureState::Failed);
}

#[test]
fn hello_world_on_the_system_clock() {
    let transport = MockTransport::new();
    let feature = HelloWorldFeature::new();
    assert_eq!(feature.name(), "hello_world");
    feature.init(context(&transport)).expect("feature init");
    let response = transport
        .handle_incoming(RpcRequest::new("greeting", "get", Vec::new(), 1_000))
        .expect("rpc response");
    let message = String::from_utf8(response.payload).expect("utf-8 response");
    let timestamp = message.strip_suffix(" hello world").expect("greeting");
    let seconds = timestamp.strip_suffix("T00:00:00Z").expect("fixed time of day");
    assert!(seconds.parse::<u64>().is_ok());
}

#[test]
fn context_clone_shares_registry_bus_and_clock() {
    let transport = MockTransport::new();
    let ctx = context(&transport);
    let copy = ctx.clone();
    copy.router
        .register(
            "svc",
            "call",
            rpc_handler(|_req: RpcRequest| Ok(RpcResponse { payload: vec![1] })),
        )
        .expect("register");
    let out = ctx
        .router
        .dispatch(RpcRequest::new("svc", "call", Vec::new(), 0))
        .expect("handler outcome");
    assert_eq!(out.payload, vec![1]);
    let subscription = ctx.events.subscribe();
    copy.events
        .publish(service_project::event::TransportEvent {
            topic: "shared".to_string(),
            payload: Vec::new(),
        })
        .expect("open bus");
    let got = subscription.try_recv().expect("open bus").expect("pending");
    assert_eq!(got.topic, "shared");
    assert!(copy.clock.now_rfc3339().ends_with("T00:00:00Z"));
}
