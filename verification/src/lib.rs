//! A minimal plugin framework: features register remote-callable handlers
//! against a (service, method) pair, transports dispatch calls to them, and an
//! event bus carries notifications to independent listeners.
//!
//! The two pieces of state are a [`DispatchTable`] and an [`EventHub`]. Each is
//! an ordinary value with `&mut` operations whose contracts say exactly what
//! they return and how they change the state, over a map from call keys to
//! handlers and a map from subscriptions to their pending events. The laws
//! that relate several operations (a key registers once, distinct keys do not
//! disturb each other, a subscription sees the later events in publish order,
//! an echoed payload comes back byte for byte) are proof functions beside
//! them.
//!
//! [`InMemoryRouter`] and [`mock::MockEvents`] share one such value between
//! threads behind a lock. An operation on them is one operation on the value
//! under the lock, and a handler is never called while the lock is held. Their
//! contracts state each outcome against the state as it stood when the
//! operation took effect, which the caller of a shared value cannot know
//! beforehand. What a caller can know of a router is what the lock keeps for
//! good: the table only grows, so it holds at every moment what the router
//! started with.
//!
//! The traits that users implement say what has to hold of every
//! implementation and let an implementation say more of itself; a function
//! that hands on what a trait object answered says so in those words.
//!
//! Everything here returns when it is called. Waiting for an event, serving a
//! socket and turning JSON into values are left to the program around the
//! library.

pub mod ble;
pub mod config;
pub mod error;
pub mod event;
pub mod feature;
pub mod hello_world;
pub mod http;
pub mod manager;
pub mod mock;
pub mod router;
mod shared;
pub mod text;
pub mod transport;
pub mod types;
pub mod wifi;

pub use config::AppConfig;
pub use error::Error;
pub use event::DynEventBus;
pub use event::EventBus;
pub use event::EventError;
pub use event::EventHub;
pub use event::EventPublisher;
pub use event::EventSubscriber;
pub use event::EventSubscription;
pub use event::TransportEvent;
pub use feature::Feature;
pub use feature::FeatureContext;
pub use feature::FeatureInitError;
pub use manager::TransportManager;
pub use manager::TransportManagerApi;
pub use router::rpc_handler;
pub use router::DispatchTable;
pub use router::DynRpcRegistry;
pub use router::InMemoryRouter;
pub use router::RouterError;
pub use router::RpcError;
pub use router::RpcHandler;
pub use router::RpcRegistry;
pub use router::RpcRequest;
pub use router::RpcResponse;
pub use transport::Transport;
pub use types::Clock;
pub use types::DynClock;
pub use types::FeatureId;
pub use types::SystemClock;
pub use types::TransportId;
