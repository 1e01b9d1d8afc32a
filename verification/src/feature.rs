//! The contract between the bootstrap code and a feature.

use crate::event::DynEventBus;
use crate::router::DynRpcRegistry;
use crate::shared::share;
use crate::types::DynClock;
use std::sync::Arc;
use vstd::prelude::*;

verus! {

/// Context provided to features during initialization.
pub struct FeatureContext {
    pub router: DynRpcRegistry,
    pub events: DynEventBus,
    pub clock: DynClock,
}

impl FeatureContext {
    /// Bundles the handles that a feature is initialized with.
    pub fn new(router: DynRpcRegistry, events: DynEventBus, clock: DynClock) -> (ctx: Self)
        ensures
            ctx.router == router,
            ctx.events == events,
            ctx.clock == clock,
    {
        Self { router, events, clock }
    }
}

impl Clone for FeatureContext {
    /// Another bundle of handles to the same registry, bus and clock.
    fn clone(&self) -> (ctx: Self)
        ensures
            ctx == *self,
    {
        Self {
            router: share(&self.router),
            events: share(&self.events),
            clock: share(&self.clock),
        }
    }
}

/// Why a feature could not be initialized.
#[derive(Debug)]
pub struct FeatureInitError {
    pub message: String,
}

impl FeatureInitError {
    /// An error that gives `message` as its reason.
    pub fn new(message: &str) -> (err: Self)
        ensures
            err.message@ == message@,
    {
        Self { message: message.to_owned() }
    }
}

/// Trait implemented by all feature modules.
pub trait Feature: Send + Sync {
    /// Whether `name` is the name that this feature gives itself. A feature
    /// that says nothing of itself may give any name.
    open spec fn names(&self, name: &'static str) -> bool {
        true
    }

    /// Whether `result` is what initializing this feature with `ctx` may come
    /// to. A feature that says nothing of itself may come to anything.
    open spec fn initializes(&self, ctx: FeatureContext, result: Result<(), FeatureInitError>) -> bool {
        true
    }

    /// The fixed name of the feature.
    fn name(&self) -> (name: &'static str)
        ensures
            self.names(name),
    ;

    /// Registers the feature's handlers. It is called once, before any
    /// transport accepts calls; a registration that is refused is reported
    /// and the feature stays inactive.
    fn init(&self, ctx: FeatureContext) -> (result: Result<(), FeatureInitError>)
        ensures
            self.initializes(ctx, result),
    ;
}

/// Shared handle to a feature.
pub type DynFeature = Arc<Box<dyn Feature>>;

/// Where a feature stands in its life.
#[derive(Clone, Copy, Debug, PartialEq, Eq, Structural)]
pub enum FeatureState {
    /// Nothing was asked of the feature yet.
    Uninitialized,
    /// The feature is registering its handlers.
    Initializing,
    /// Every registration was accepted.
    Ready,
    /// A registration was refused.
    Failed,
}

/// What bootstrap does with a feature, and what comes of it.
#[derive(Clone, Copy, Debug, PartialEq, Eq, Structural)]
pub enum LifecycleEvent {
    /// Initialization begins.
    Begin,
    /// Initialization returned success.
    Succeeded,
    /// Initialization returned an error.
    Failed,
}

impl FeatureState {
    /// The state that follows `self` on `event`. Initialization begins at most
    /// once and ends in `Ready` or in `Failed`; an event that does not fit the
    /// state changes nothing, so there is no way back and no second attempt.
    pub open spec fn next(self, event: LifecycleEvent) -> FeatureState {
        match (self, event) {
            (FeatureState::Uninitialized, LifecycleEvent::Begin) => FeatureState::Initializing,
            (FeatureState::Initializing, LifecycleEvent::Succeeded) => FeatureState::Ready,
            (FeatureState::Initializing, LifecycleEvent::Failed) => FeatureState::Failed,
            _ => self,
        }
    }

    /// Moves on by one event.
    pub fn advance(self, event: LifecycleEvent) -> (next: Self)
        ensures
            next == self.next(event),
    {
        match (self, event) {
            (FeatureState::Uninitialized, LifecycleEvent::Begin) => FeatureState::Initializing,
            (FeatureState::Initializing, LifecycleEvent::Succeeded) => FeatureState::Ready,
            (FeatureState::Initializing, LifecycleEvent::Failed) => FeatureState::Failed,
            _ => self,
        }
    }
}

/// No event leads back to `Uninitialized`, and `Ready` and `Failed` are
/// final.
pub proof fn lemma_lifecycle_moves_forward(state: FeatureState, event: LifecycleEvent)
    ensures
        state != FeatureState::Uninitialized ==> state.next(event) != FeatureState::Uninitialized,
        state == FeatureState::Ready || state == FeatureState::Failed ==> state.next(event) == state,
{
}

/// What a feature answers when it is asked to initialize a second time.
pub const ALREADY_INITIALIZED: &'static str = "feature was already initialized";

/// A feature together with its place in the lifecycle. Bootstrap activates
/// each feature through its slot, which lets `init` run at most once.
pub struct FeatureSlot {
    feature: DynFeature,
    state: FeatureState,
}

impl FeatureSlot {
    /// Where the feature stands.
    pub closed spec fn spec_state(&self) -> FeatureState {
        self.state
    }

    /// The feature that the slot holds.
    pub closed spec fn feature(&self) -> DynFeature {
        self.feature
    }

    /// A slot for `feature`, which is not initialized yet.
    pub fn new(feature: Box<dyn Feature>) -> (slot: Self)
        ensures
            slot.spec_state() == FeatureState::Uninitialized,
            *slot.feature() == feature,
    {
        let held = Arc::new(feature);
        Self { feature: held, state: FeatureState::Uninitialized }
    }

    /// Where the feature stands.
    #[verifier::when_used_as_spec(spec_state)]
    pub fn state(&self) -> (state: FeatureState)
        ensures
            state == self.spec_state(),
    {
        self.state
    }

    /// The name of the feature, as the feature gives it.
    pub fn name(&self) -> (name: &'static str)
        ensures
            self.feature().names(name),
    {
        self.feature.name()
    }

    /// Initializes the feature, if that was not tried before, and records
    /// what came of it: `Ready` on success and `Failed` on an error, which is
    /// handed on as it is. A slot that is past `Uninitialized` keeps its
    /// state, does not call the feature again, and says so.
    pub fn activate(&mut self, ctx: FeatureContext) -> (result: Result<(), FeatureInitError>)
        ensures
            final(self).feature() == old(self).feature(),
            old(self).state() == FeatureState::Uninitialized ==> old(self).feature().initializes(
                ctx,
                result,
            ) && final(self).state() == (if result is Ok {
                FeatureState::Ready
            } else {
                FeatureState::Failed
            }),
            old(self).state() != FeatureState::Uninitialized ==> final(self).state() == old(
                self,
            ).state() && (result matches Err(err) && err.message@ == ALREADY_INITIALIZED@),
    {
        if self.state != FeatureState::Uninitialized {
            return Err(FeatureInitError::new(ALREADY_INITIALIZED));
        }
        self.state = self.state.advance(LifecycleEvent::Begin);
        let result = self.feature.init(ctx);
        let event = match &result {
            Ok(_) => LifecycleEvent::Succeeded,
            Err(_) => LifecycleEvent::Failed,
        };
        self.state = self.state.advance(event);
        result
    }
}

} // verus!
