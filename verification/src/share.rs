//! Sharing of reference-counted native resources.

use std::sync::Arc;
use vstd::prelude::*;

verus! {

/// `Arc::clone` of the standard library: makes another pointer to the
/// same allocation. The contract claims that the new pointer designates
/// the value that `resource` designates; nothing is copied or changed.
/// This is assumed, not proved.
#[verifier::external_body]
pub(crate) fn share<T>(resource: &Arc<T>) -> (shared: Arc<T>)
    ensures
        shared == *resource,
{
    Arc::clone(resource)
}

} // verus!
