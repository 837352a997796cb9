//! The sending half of a channel.

use crate::channel::RingPred;
use crate::refcount::{live_count, same_allocation, LifeToken, LifeWatch};
use crate::ring_buffer::{RingBuffer, SendError};
use crate::swap_slot::SwapSlot;
use std::sync::Arc;
use vstd::prelude::*;
use vstd::rwlock::RwLock;

verus! {

/// The sending half of a channel: broadcasts values into the shared ring.
///
/// There is one sender per channel. Dropping it releases the `alive` token,
/// which is how subscribers learn that the sending side is gone.
pub struct Sender<T, S: SwapSlot<T>> {
    /// The shared ring, behind its lock.
    pub(crate) channel: Arc<RwLock<RingBuffer<T, S>, RingPred>>,
    /// Keeps the sending side of the channel alive: subscribers watch the
    /// reference count of this allocation.
    pub(crate) alive: Arc<LifeToken>,
    /// Watches how many subscriber handles are alive.
    pub(crate) readers: LifeWatch,
    /// The fixed cell count of the ring behind the lock.
    pub(crate) gsize: Ghost<int>,
}

impl<T, S: SwapSlot<T>> Sender<T, S> {
    #[verifier::type_invariant]
    pub(crate) open spec fn inv(self) -> bool {
        &&& self.channel.pred() == (RingPred { size: self.gsize@ })
        &&& 2 <= self.gsize@
    }

    /// The capacity of the channel.
    pub closed spec fn spec_capacity(&self) -> int {
        self.gsize@ - 1
    }

    /// The sending half of a fresh channel.
    pub(crate) fn from_parts(
        channel: Arc<RwLock<RingBuffer<T, S>, RingPred>>,
        alive: Arc<LifeToken>,
        readers: LifeWatch,
        Ghost(size): Ghost<int>,
    ) -> (r: Self)
        requires
            channel.pred() == (RingPred { size }),
            2 <= size,
        ensures
            r.spec_capacity() == size - 1,
    {
        Sender { channel, alive, readers, gsize: Ghost(size) }
    }

    /// Publish one value to every current subscriber.
    ///
    /// The value lands in the ring slot under the write cursor, overwriting
    /// the oldest retained message once the ring is full; the send never
    /// blocks. If no subscriber is alive at the time of the call the value
    /// comes back unchanged inside the error.
    pub fn broadcast(&self, object: T) -> (r: Result<(), SendError<T>>)
        ensures
            r matches Err(e) ==> e == SendError(object),
    {
        proof {
            use_type_invariant(self);
        }
        let subs = live_count(&self.readers);
        let (mut ring, handle) = self.channel.acquire_write();
        ring.set_sub_count(subs);
        let r = ring.broadcast(object);
        handle.release_write(ring);
        r
    }

    /// The capacity of the channel: how many messages a lagging subscriber
    /// can still recover.
    pub fn len(&self) -> (r: usize)
        ensures
            r == self.spec_capacity(),
    {
        proof {
            use_type_invariant(self);
        }
        let handle = self.channel.acquire_read();
        let r = handle.borrow().len();
        handle.release_read();
        r
    }

    /// Whether nothing has been published yet.
    pub fn is_empty(&self) -> bool {
        proof {
            use_type_invariant(self);
        }
        let handle = self.channel.acquire_read();
        let r = handle.borrow().is_empty();
        handle.release_read();
        r
    }

    /// Close the channel: subscribers drain what is buffered and then see
    /// the channel as disconnected. Idempotent.
    pub fn close(&self) {
        proof {
            use_type_invariant(self);
        }
        let (mut ring, handle) = self.channel.acquire_write();
        ring.close();
        handle.release_write(ring);
    }

    /// How many subscriber handles are alive right now.
    pub fn get_sub_count(&self) -> usize {
        live_count(&self.readers)
    }
}

impl<T, S: SwapSlot<T>> PartialEq for Sender<T, S> {
    /// Two senders are equal when they feed the same channel.
    fn eq(&self, other: &Self) -> bool {
        same_allocation(&self.channel, &other.channel)
    }
}

/// Handle equality is allocation identity, which spec-level values do
/// not track, so nothing is claimed about `==` in contracts.
impl<T, S: SwapSlot<T>> vstd::std_specs::cmp::PartialEqSpecImpl for Sender<T, S> {
    open spec fn obeys_eq_spec() -> bool {
        false
    }

    open spec fn eq_spec(&self, _other: &Self) -> bool {
        true
    }
}

impl<T, S: SwapSlot<T>> Eq for Sender<T, S> {}

} // verus!
