//! The interface that every transport offers.

use crate::error::Error;
use crate::types::TransportId;
use vstd::prelude::*;

verus! {

/// Transport abstraction over different backends (mock, HTTP, BLE).
pub trait Transport {
    /// The fixed identifier of this kind of transport.
    fn id(&self) -> TransportId;

    /// Prepares the transport for use.
    fn start(&self) -> Result<(), Error>;
}

} // verus!
