//! What the hello-world feature says.

use vstd::prelude::*;

verus! {

/// What follows the timestamp in a greeting.
pub const GREETING: &'static str = " hello world";

/// The greeting given at `timestamp`.
pub open spec fn greeting(timestamp: Seq<char>) -> Seq<char> {
    timestamp + GREETING@
}

/// Composes the greeting for `timestamp`.
pub fn get_message(timestamp: &str) -> (message: String)
    ensures
        message@ == greeting(timestamp@),
{
    timestamp.to_owned().concat(GREETING)
}

} // verus!
