//! The envelopes of the HTTP wire protocol.

use vstd::prelude::*;

verus! {

/// RPC request envelope accepted by the HTTP transport.
#[derive(Debug)]
pub struct HttpRpcRequest {
    pub service: String,
    pub method: String,
    /// Base64-encoded payload (empty string represents an empty payload).
    pub payload_b64: String,
    pub timeout_ms: u64,
}

impl Clone for HttpRpcRequest {
    fn clone(&self) -> (request: Self)
        ensures
            request == *self,
    {
        Self {
            service: self.service.clone(),
            method: self.method.clone(),
            payload_b64: self.payload_b64.clone(),
            timeout_ms: self.timeout_ms,
        }
    }
}

/// RPC response envelope returned by the HTTP transport.
#[derive(Debug)]
pub struct HttpRpcResponse {
    pub payload_b64: String,
    pub error: Option<HttpRpcError>,
}

impl Clone for HttpRpcResponse {
    fn clone(&self) -> (response: Self)
        ensures
            response == *self,
    {
        Self {
            payload_b64: self.payload_b64.clone(),
            error: match &self.error {
                Some(error) => Some(error.clone()),
                None => None,
            },
        }
    }
}

/// Error payload returned for RPC-level failures.
#[derive(Debug)]
pub struct HttpRpcError {
    pub code: String,
    pub message: String,
}

impl Clone for HttpRpcError {
    fn clone(&self) -> (error: Self)
        ensures
            error == *self,
    {
        Self { code: self.code.clone(), message: self.message.clone() }
    }
}

} // verus!
