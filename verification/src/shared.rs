//! Sharing values between the tasks that handle updates.
use vstd::prelude::*;
use std::sync::Arc;

verus! {

/// Another handle on the same shared value (`Arc::clone`). The contract
/// claims that the new handle refers to the value the old one refers to.
#[verifier::external_body]
pub(crate) fn share<T>(value: &Arc<T>) -> (r: Arc<T>)
    ensures
        *r == **value,
{
    Arc::clone(value)
}

} // verus!
