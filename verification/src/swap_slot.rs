//! The slot capability: one cell of the ring.

use std::sync::Arc;
use vstd::prelude::*;

verus! {

/// Capability required of one cell of the ring: an optional shared reference
/// to a message that can be replaced wholesale and read as an owning clone.
///
/// The ring depends only on this contract, so the concrete synchronisation
/// primitive behind a slot is pluggable.
pub trait SwapSlot<T>: Sized {
    /// The message the slot currently holds, if any.
    spec fn contents(&self) -> Option<T>;

    /// Wrap `item` in a fresh shared reference and make it the slot's
    /// contents, releasing whatever reference the slot held before.
    fn store(&mut self, item: T)
        ensures
            final(self).contents() == Some(item),
    ;

    /// An owning clone of the current contents; the slot keeps its own
    /// reference, so the clone stays valid independent of later stores.
    fn load(&self) -> (r: Option<Arc<T>>)
        ensures
            r matches Some(a) ==> self.contents() matches Some(v) && a == v,
            r is None ==> self.contents() is None,
    ;

    /// A slot holding nothing. Empty slots are never handed to readers; they
    /// only pad the ring until the writer has been around once.
    fn none() -> (r: Self)
        ensures
            r.contents() is None,
    ;
}

} // verus!
