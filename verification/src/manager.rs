//! Selection of the active transport.

use crate::error::Error;
use crate::transport::Transport;
use crate::types::TransportId;
use vstd::prelude::*;

verus! {

/// API for managing transports at runtime.
pub trait TransportManagerApi {
    /// The transport that is in use, if one was selected.
    fn active_transport(&self) -> Option<TransportId>;

    /// Selects the transport to use.
    fn set_transport(&mut self, transport: TransportId) -> Result<(), Error>;
}

/// Placeholder manager implementation: it accepts every selection and keeps
/// none.
pub struct TransportManager;

impl TransportManager {
    /// The placeholder manager.
    pub fn new() -> Self {
        Self
    }
}

impl Default for TransportManager {
    fn default() -> Self {
        Self::new()
    }
}

impl TransportManagerApi for TransportManager {
    fn active_transport(&self) -> (active: Option<TransportId>)
        ensures
            active is None,
    {
        None
    }

    fn set_transport(&mut self, transport: TransportId) -> (result: Result<(), Error>)
        ensures
            result is Ok,
    {
        Ok(())
    }
}

impl Transport for TransportManager {
    fn id(&self) -> (id: TransportId)
        ensures
            id@ == "manager"@,
    {
        "manager".to_owned()
    }

    fn start(&self) -> (result: Result<(), Error>)
        ensures
            result is Ok,
    {
        Ok(())
    }
}

} // verus!
