//! The hello-world feature: one method that greets with the current time and
//! tells the event bus that it was called.

use crate::feature::Feature;
use crate::feature::FeatureContext;
use crate::feature::FeatureInitError;
use crate::router::duplicate_text;
use crate::router::RouterError;
use crate::shared::share;
use crate::types::Clock;
use crate::types::is_system_timestamp;
use crate::types::DynClock;
use crate::types::SystemClock;
use std::sync::Arc;
use vstd::prelude::*;

pub mod adapter;
pub mod api;
pub mod domain;

verus! {

/// The feature that registers the greeting method.
pub struct HelloWorldFeature {
    clock: DynClock,
}

impl HelloWorldFeature {
    /// The clock that the feature reads the time from.
    pub closed spec fn clock(&self) -> DynClock {
        self.clock
    }

    /// The feature on the system clock: the times that its clock tells are
    /// the timestamps of the system clock.
    pub fn new() -> (feature: Self)
        ensures
            forall|text: Seq<char>| #[trigger]
                feature.clock().tells(text) <==> is_system_timestamp(text),
    {
        let clock: Box<dyn Clock> = Box::new(SystemClock);
        assert forall|text: Seq<char>| #[trigger] clock.tells(text) <==> is_system_timestamp(
            text,
        ) by {}
        let clock = Arc::new(clock);
        Self { clock }
    }

    /// The feature on a clock of the caller's choice.
    pub fn with_clock(clock: DynClock) -> (feature: Self)
        ensures
            feature.clock() == clock,
    {
        Self { clock }
    }
}

/// Whether `result` is what initialization comes to where the registry
/// answered `answer`: success for success, and an error with the refusal's
/// text for a refusal.
pub open spec fn init_outcome(
    answer: Result<(), RouterError>,
    result: Result<(), FeatureInitError>,
) -> bool {
    match answer {
        Ok(_) => result is Ok,
        Err(refusal) => result matches Err(err) && err.message@ == refusal.message_text(),
    }
}

impl Feature for HelloWorldFeature {
    open spec fn names(&self, name: &'static str) -> bool {
        name@ == "hello_world"@
    }

    /// Initialization registers the greeting method on the context's bus and
    /// the feature's clock with the context's registry, and comes to what the
    /// registry's answer comes to.
    open spec fn initializes(&self, ctx: FeatureContext, result: Result<(), FeatureInitError>) -> bool {
        exists|answer: Result<(), RouterError>|
            #[trigger] adapter::is_registration(ctx.router, ctx.events, self.clock(), answer)
                && init_outcome(answer, result)
    }

    fn name(&self) -> (name: &'static str) {
        "hello_world"
    }

    /// Registers the greeting method with the context's registry. Where the
    /// registry refuses it, the refusal's text is the error's message; the
    /// one refusal that the feature's key can meet is that of a key that is
    /// taken.
    fn init(&self, ctx: FeatureContext) -> (result: Result<(), FeatureInitError>)
        ensures
            result matches Err(err) ==> err.message@ == duplicate_text(
                api::SERVICE@,
                api::METHOD_GET@,
            ),
    {
        let answer = adapter::register(ctx.router, ctx.events, share(&self.clock));
        let result = match answer {
            Ok(()) => Ok(()),
            Err(err) => Err(FeatureInitError::new(err.message().as_str())),
        };
        assert(adapter::is_registration(ctx.router, ctx.events, self.clock(), answer)
            && init_outcome(answer, result));
        result
    }
}

} // verus!
