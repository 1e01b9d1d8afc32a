//! Shared ownership of the values that features and transports hold in
//! common.

use std::sync::Arc;
use vstd::prelude::*;

verus! {

/// `Arc::clone` of std: another handle to the same value. In a contract an
/// `Arc` stands for the value it points to, so the new handle equals the old.
#[verifier::external_body]
pub(crate) fn share<T>(handle: &Arc<T>) -> (shared: Arc<T>)
    ensures
        shared == *handle,
{
    Arc::clone(handle)
}

} // verus!
