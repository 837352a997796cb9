//! The reader/writer-lock flavor.
//!
//! In this flavor the whole ring sits behind one reader/writer lock, so a
//! slot needs no synchronisation of its own: it is a plain optional shared
//! reference, swapped while the lock is held.

use crate::refcount::arc_dup;
use crate::swap_slot::SwapSlot;
use std::sync::Arc;
use vstd::prelude::*;

verus! {

/// One cell of the ring: an optional shared reference to a message.
pub struct Slot<T> {
    shared: Option<Arc<T>>,
}

impl<T> SwapSlot<T> for Slot<T> {
    closed spec fn contents(&self) -> Option<T> {
        match self.shared {
            Some(a) => Some(*a),
            None => None,
        }
    }

    fn store(&mut self, item: T) {
        self.shared = Some(Arc::new(item));
    }

    fn load(&self) -> (r: Option<Arc<T>>) {
        match &self.shared {
            Some(a) => Some(arc_dup(a)),
            None => None,
        }
    }

    fn none() -> (r: Self) {
        Slot { shared: None }
    }
}

/// The publishing half of a channel in this flavor.
pub type Publisher<T> = crate::channel::sender::Sender<T, Slot<T>>;

/// The subscribing half of a channel in this flavor.
pub type Subscriber<T> = crate::channel::receiver::Receiver<T, Slot<T>>;

/// A channel of capacity `size` in this flavor.
pub fn bounded<T>(size: usize) -> (r: (Publisher<T>, Subscriber<T>))
    requires
        1 <= size < usize::MAX,
    ensures
        r.0.spec_capacity() == size,
        r.1.spec_capacity() == size,
        r.1.spec_read_index() == 0,
        r.1.spec_skip_items() == 0,
{
    crate::bounded::<T, Slot<T>>(size)
}

/// The publishing half of a channel with a wake layer, in this flavor.
pub type AsyncPublisher<T> = crate::async_publisher::AsyncPublisher<T, Slot<T>>;

/// The subscribing half of a channel with a wake layer, in this flavor.
pub type AsyncSubscriber<T> = crate::async_subscriber::AsyncSubscriber<T, Slot<T>>;

/// A channel of capacity `size` with a wake layer, in this flavor.
pub fn async_bounded<T>(size: usize) -> (r: (AsyncPublisher<T>, AsyncSubscriber<T>))
    requires
        1 <= size < usize::MAX,
    ensures
        r.0.spec_capacity() == size,
        r.1.spec_capacity() == size,
        r.1.spec_read_index() == 0,
        r.1.spec_skip_items() == 0,
{
    crate::async_bounded::<T, Slot<T>>(size)
}

} // verus!
