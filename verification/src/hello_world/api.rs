//! The names under which the hello-world feature is reached.

use vstd::prelude::*;

verus! {

/// The service that the feature registers.
pub const SERVICE: &'static str = "greeting";

/// The method that returns the greeting.
pub const METHOD_GET: &'static str = "get";

/// The topic of the event that tells of a call.
pub const TOPIC_CALLED: &'static str = "hello/called";

} // verus!
