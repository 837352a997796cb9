//! The raw channel: a pair of handles over one shared ring.
//!
//! The ring sits behind a verified reader/writer lock, shared through a
//! reference-counted pointer. The lock's invariant keeps the ring
//! well-formed and its cell count fixed, so every handle finds a usable ring
//! whenever it takes the lock.

pub mod receiver;
pub mod sender;

pub use receiver::Receiver;
pub use sender::Sender;

use crate::ring_buffer::RingBuffer;
use crate::swap_slot::SwapSlot;
use vstd::prelude::*;
use vstd::rwlock::RwLockPredicate;

verus! {

/// The invariant every value stored in a channel's lock satisfies: the ring
/// is well-formed and keeps the cell count it was built with.
pub struct RingPred {
    /// The fixed number of cells of the ring behind the lock.
    pub size: int,
}

impl<T, S: SwapSlot<T>> RwLockPredicate<RingBuffer<T, S>> for RingPred {
    open spec fn inv(self, v: RingBuffer<T, S>) -> bool {
        &&& v.wf()
        &&& v.size == self.size
    }
}

} // verus!
