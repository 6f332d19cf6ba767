//! Sharing of immutable values.
//!
//! What was once committed is never changed, only handed on, so it is held behind an
//! `Arc`. To the contracts a shared value is the value itself.
use std::sync::Arc;

use vstd::prelude::*;

verus! {

/// Another handle to a shared value.
///
/// Calls `Arc::clone`, which gives a pointer to the same allocation: the value behind
/// the new handle is the value behind the old one.
#[verifier::external_body]
pub(crate) fn share<T>(value: &Arc<T>) -> (shared: Arc<T>)
    ensures
        shared == *value,
{
    Arc::clone(value)
}

/// Another handle to a shared value, where there is one.
pub(crate) fn share_optional<T>(value: &Option<Arc<T>>) -> (shared: Option<Arc<T>>)
    ensures
        shared == *value,
{
    match value {
        Some(value) => Some(share(value)),
        None => None,
    }
}

/// Handles to all of the shared values, in their order.
pub(crate) fn share_all<T>(values: &Vec<Arc<T>>) -> (shared: Vec<Arc<T>>)
    ensures
        shared@ == values@,
{
    let mut shared: Vec<Arc<T>> = Vec::new();
    let mut i: usize = 0;
    while i < values.len()
        invariant
            i <= values.len(),
            shared@ == values@.take(i as int),
        decreases values.len() - i,
    {
        shared.push(share(&values[i]));
        i += 1;
        assert(values@.take(i as int) =~= values@.take(i - 1).push(values@[i - 1]));
    }
    assert(values@.take(i as int) =~= values@);
    shared
}

} // verus!
