//! Placeholder for Wi-Fi link detection.

use crate::types::TransportId;
use vstd::prelude::*;

verus! {

/// A detector that never finds a link.
pub struct WifiDetector;

impl WifiDetector {
    /// The placeholder detector.
    pub fn new() -> Self {
        Self
    }

    /// The transport that was detected: always none.
    pub fn detect(&self) -> (found: Option<TransportId>)
        ensures
            found is None,
    {
        None
    }
}

} // verus!
