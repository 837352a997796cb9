//! Trusted bridge to `alloc`'s atomically reference-counted pointers.
//!
//! The channel handles rely on `Arc` in two ways that `vstd` does not cover:
//! cloning a handle, and observing how many handles of one side of a channel
//! are still alive. Both are wrapped here, each wrapper a single call into
//! the standard library.

use std::sync::Arc;
use std::sync::Weak;
use vstd::prelude::*;

verus! {

/// Marker value allocated once per side of a channel; the number of live
/// `Arc`s of it counts the live handles of that side.
pub struct LifeToken {}

/// Observer of the reference count of one `LifeToken` allocation.
///
/// A `LifeWatch` does not keep the allocation alive: it holds a
/// `std::sync::Weak`, so the count it reports reaches zero exactly when the
/// last `Arc<LifeToken>` is dropped.
#[verifier::external_body]
pub struct LifeWatch {
    weak: Weak<LifeToken>,
}

/// Relies on `Arc::downgrade`: a weak reference to the same allocation.
#[verifier::external_body]
pub fn watch(token: &Arc<LifeToken>) -> LifeWatch {
    LifeWatch { weak: Arc::downgrade(token) }
}

/// Relies on `Weak::strong_count`: how many `Arc`s of the watched allocation
/// are alive at the moment of the call.
#[verifier::external_body]
pub fn live_count(w: &LifeWatch) -> usize {
    w.weak.strong_count()
}

/// Relies on `Weak::clone`: another observer of the same allocation.
#[verifier::external_body]
pub fn watch_clone(w: &LifeWatch) -> LifeWatch {
    LifeWatch { weak: w.weak.clone() }
}

/// Relies on `Arc::clone`: the returned handle refers to the same value.
#[verifier::external_body]
pub fn arc_dup<T>(arc: &Arc<T>) -> (r: Arc<T>)
    ensures
        r == *arc,
{
    Arc::clone(arc)
}

/// Relies on `Arc::ptr_eq`: whether two handles share one allocation.
#[verifier::external_body]
pub fn same_allocation<T>(a: &Arc<T>, b: &Arc<T>) -> bool {
    Arc::ptr_eq(a, b)
}

} // verus!
