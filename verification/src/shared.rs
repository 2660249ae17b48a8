//! Shared-ownership helper for the reference-counted schema handles.

use vstd::prelude::*;
use std::sync::Arc;

verus! {

/// Relies on std's `Arc::clone`: the returned handle shares the same
/// allocation as `a`, so it carries the same value.
#[verifier::external_body]
pub fn arc_clone<T>(a: &Arc<T>) -> (r: Arc<T>)
    ensures
        r == *a,
{
    Arc::clone(a)
}

} // verus!
