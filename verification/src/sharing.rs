//! Values with several owners.

use std::sync::Arc;

use vstd::prelude::*;

verus! {

/// Another owner of the same value, through `Arc`'s `clone`.
///
/// Taken from its documentation: it makes another pointer to the same allocation.
#[verifier::external_body]
pub(crate) fn share<T>(value: &Arc<T>) -> (shared: Arc<T>)
    ensures
        shared == *value,
{
    Arc::clone(value)
}

} // verus!
