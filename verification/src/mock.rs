//! The in-process transport: a dispatch table and an event bus without a
//! network boundary.

use crate::error::Error;
use crate::event::AnyHub;
use crate::event::DynEventBus;
use crate::event::EventError;
use crate::event::EventHub;
use crate::event::EventPublisher;
use crate::event::EventSubscriber;
use crate::event::EventSubscription;
use crate::event::publish_result;
use crate::event::SharedHub;
use crate::event::TransportEvent;
use crate::router::CallKey;
use crate::router::dispatch_result;
use crate::router::DynRpcRegistry;
use crate::router::InMemoryRouter;
use crate::router::RpcError;
use crate::router::RpcHandler;
use crate::router::RpcRegistry;
use crate::router::RpcRequest;
use crate::router::RpcResponse;
use crate::shared::share;
use crate::transport::Transport;
use crate::types::TransportId;
use std::sync::Arc;
use vstd::prelude::*;
use vstd::rwlock::RwLock;

verus! {

/// The in-process event bus. Its clones publish to, and subscribe at, one
/// shared hub.
pub struct MockEvents {
    hub: SharedHub,
}

impl MockEvents {
    /// The hub that this bus publishes to.
    pub closed spec fn hub(&self) -> SharedHub {
        self.hub
    }

    /// An open bus without subscriptions.
    pub fn new() -> Self {
        Self { hub: Arc::new(RwLock::new(EventHub::new(), Ghost(AnyHub))) }
    }

    /// Closes the bus for good: publishing fails from now on, and a
    /// subscription fails once it has taken what was pending.
    pub fn close(&self) {
        let (mut hub, guard) = self.hub.acquire_write();
        hub.close();
        guard.release_write(hub);
    }
}

impl Clone for MockEvents {
    /// Another handle to the same bus.
    fn clone(&self) -> (events: Self)
        ensures
            events == *self,
    {
        Self { hub: share(&self.hub) }
    }
}

impl EventPublisher for MockEvents {
    /// The bus answers what its hub answers, open or closed.
    open spec fn publishes(&self, event: TransportEvent, result: Result<(), EventError>) -> bool {
        exists|closed: bool| #[trigger] publish_result(closed, result)
    }

    open spec fn shared_hub(&self) -> Option<SharedHub> {
        Some(self.hub())
    }

    /// Delivers `event` to every subscription that is live when the call takes
    /// effect. It fails on a closed bus, and only there.
    fn publish(&self, event: TransportEvent) -> (result: Result<(), EventError>) {
        let (mut hub, guard) = self.hub.acquire_write();
        let ghost closed = hub.is_closed();
        let result = hub.publish(&event);
        guard.release_write(hub);
        assert(publish_result(closed, result));
        result
    }
}

impl EventSubscriber for MockEvents {
    /// The bus hands out subscriptions at its own hub.
    open spec fn grants(&self, subscription: EventSubscription) -> bool {
        subscription.hub() == self.hub()
    }

    fn subscribe(&self) -> (subscription: EventSubscription) {
        let (mut hub, guard) = self.hub.acquire_write();
        let id = hub.subscribe();
        guard.release_write(hub);
        EventSubscription::new(share(&self.hub), id)
    }
}

/// The in-process transport. Its clones share one dispatch table and one bus.
pub struct MockTransport {
    router: InMemoryRouter,
    events: MockEvents,
}

impl MockTransport {
    /// The router that holds the transport's dispatch table.
    pub closed spec fn table_router(&self) -> InMemoryRouter {
        self.router
    }

    /// The bus that carries the transport's events.
    pub closed spec fn event_bus(&self) -> MockEvents {
        self.events
    }

    /// A transport with an empty table and a bus without subscriptions.
    pub fn new() -> (transport: Self)
        ensures
            transport.table_router().origin() == Map::<CallKey, RpcHandler>::empty(),
    {
        Self { router: InMemoryRouter::new(), events: MockEvents::new() }
    }

    /// A handle to the transport's dispatch table: a registry that is the
    /// transport's own router.
    pub fn router(&self) -> (registry: DynRpcRegistry)
        ensures
            registry.router() == Some(self.table_router()),
    {
        let registry: Box<dyn RpcRegistry> = Box::new(self.router.clone());
        assert(registry.router() == Some(self.router));
        let registry = Arc::new(registry);
        registry
    }

    /// A handle to the transport's event bus: a bus on the transport's own
    /// hub.
    pub fn events(&self) -> (bus: DynEventBus)
        ensures
            bus.shared_hub() == Some(self.event_bus().hub()),
    {
        let bus: Box<dyn crate::event::EventBus> = Box::new(self.events.clone());
        assert(bus.shared_hub() == Some(self.events.hub()));
        let bus = Arc::new(bus);
        bus
    }

    /// Passes `req` straight to the dispatch table.
    pub fn handle_incoming(&self, req: RpcRequest) -> (out: Result<RpcResponse, RpcError>)
        ensures
            exists|table: Map<CallKey, RpcHandler>| #[trigger] dispatch_result(table, req, out),
    {
        self.router.dispatch(req)
    }
}

impl Clone for MockTransport {
    fn clone(&self) -> (transport: Self)
        ensures
            transport == *self,
    {
        Self { router: self.router.clone(), events: self.events.clone() }
    }
}

impl Transport for MockTransport {
    fn id(&self) -> (id: TransportId)
        ensures
            id@ == "mock"@,
    {
        "mock".to_owned()
    }

    fn start(&self) -> (result: Result<(), Error>)
        ensures
            result is Ok,
    {
        Ok(())
    }
}

} // verus!
