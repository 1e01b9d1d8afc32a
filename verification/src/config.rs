//! Application configuration.

use vstd::prelude::*;

verus! {

/// Basic application configuration stub.
#[derive(Debug)]
pub struct AppConfig {
    pub transport: String,
    pub logging_level: String,
}

impl Default for AppConfig {
    /// The mock transport, logging at the `info` level.
    fn default() -> (config: Self)
        ensures
            config.transport@ == "mock"@,
            config.logging_level@ == "info"@,
    {
        Self { transport: "mock".to_owned(), logging_level: "info".to_owned() }
    }
}

impl Clone for AppConfig {
    fn clone(&self) -> (config: Self)
        ensures
            config == *self,
    {
        Self { transport: self.transport.clone(), logging_level: self.logging_level.clone() }
    }
}

} // verus!
