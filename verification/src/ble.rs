//! Placeholder for a Bluetooth Low Energy transport.

use crate::error::Error;
use crate::transport::Transport;
use crate::types::TransportId;
use vstd::prelude::*;

verus! {

/// A transport slot without a link behind it: it has an identifier and
/// starting it does nothing.
pub struct BleTransport;

impl BleTransport {
    /// The placeholder transport.
    pub fn new() -> Self {
        Self
    }
}

impl Transport for BleTransport {
    fn id(&self) -> (id: TransportId)
        ensures
            id@ == "ble"@,
    {
        "ble".to_owned()
    }

    fn start(&self) -> (result: Result<(), Error>)
        ensures
            result is Ok,
    {
        Ok(())
    }
}

} // verus!
