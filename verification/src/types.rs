//! Identifiers and the time source.

use crate::text::decimal;
use crate::text::decimal_text;
use std::sync::Arc;
use std::time::Duration;
use std::time::SystemTime;
use std::time::SystemTimeError;
use vstd::prelude::*;

verus! {

/// Identifier for transport implementations.
pub type TransportId = String;

/// Identifier for features.
pub type FeatureId = String;

/// Abstraction over a clock source.
pub trait Clock: Send + Sync {
    /// Whether `text` is a time that this clock may tell. A clock that says
    /// nothing of itself may tell any.
    open spec fn tells(&self, text: Seq<char>) -> bool {
        true
    }

    /// The current time as an RFC 3339 style text.
    fn now_rfc3339(&self) -> (text: String)
        ensures
            self.tells(text@),
    ;
}

/// Shared handle to a clock.
pub type DynClock = Arc<Box<dyn Clock>>;

/// A point in time as the system clock gives it.
#[verifier::external_type_specification]
#[verifier::external_body]
pub struct ExSystemTime(SystemTime);

/// What `SystemTime::duration_since` returns for a point in time that lies
/// before the one it is measured from.
#[verifier::external_type_specification]
#[verifier::external_body]
pub struct ExSystemTimeError(SystemTimeError);

/// `SystemTime::now` of std: the system clock's reading, of which nothing is
/// known beforehand.
#[verifier::external_body]
fn system_now() -> SystemTime {
    SystemTime::now()
}

/// `SystemTime::duration_since` of std, measured from `UNIX_EPOCH`: the time
/// that has passed since the epoch, or an error for a clock set before it.
#[verifier::external_body]
fn since_unix_epoch(now: &SystemTime) -> Result<Duration, SystemTimeError> {
    now.duration_since(std::time::UNIX_EPOCH)
}

/// `Duration::as_secs` of std: the whole seconds that the duration holds.
#[verifier::external_body]
fn whole_seconds(duration: &Duration) -> u64 {
    duration.as_secs()
}

/// What trails the seconds in the system clock's timestamps.
pub const MIDNIGHT_UTC: &'static str = "T00:00:00Z";

/// The timestamp that the system clock gives at `seconds` since the epoch.
pub open spec fn system_timestamp(seconds: u64) -> Seq<char> {
    decimal(seconds as nat) + MIDNIGHT_UTC@
}

/// Writes the timestamp for `seconds` since the epoch.
pub fn timestamp_text(seconds: u64) -> (text: String)
    ensures
        text@ == system_timestamp(seconds),
{
    decimal_text(seconds).concat(MIDNIGHT_UTC)
}

/// System-backed clock implementation.
pub struct SystemClock;

/// Whether `text` is a timestamp of the system clock: some number of seconds
/// since the epoch, followed by the fixed time of day.
pub open spec fn is_system_timestamp(text: Seq<char>) -> bool {
    exists|seconds: u64| text == #[trigger] system_timestamp(seconds)
}

impl Clock for SystemClock {
    /// The system clock tells its timestamps and nothing else.
    open spec fn tells(&self, text: Seq<char>) -> bool {
        is_system_timestamp(text)
    }

    /// The seconds since the Unix epoch, zero for a clock set before it,
    /// followed by a fixed time of day.
    fn now_rfc3339(&self) -> (text: String) {
        let now = system_now();
        let seconds: u64 = match since_unix_epoch(&now) {
            Ok(elapsed) => whole_seconds(&elapsed),
            Err(_) => 0,
        };
        timestamp_text(seconds)
    }
}

} // verus!
