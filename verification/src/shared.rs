use std::sync::Arc;
use vstd::prelude::*;

verus! {

/// Another handle to the value behind `a`.
///
/// Trusted: calls `std::sync::Arc::clone`, which, as std documents, makes a
/// new `Arc` pointing to the same allocation, so the value seen through the
/// result is the value seen through `a`.
#[verifier::external_body]
pub(crate) fn share<T: ?Sized>(a: &Arc<T>) -> (r: Arc<T>)
    ensures
        r == *a,
{
    Arc::clone(a)
}

} // verus!
