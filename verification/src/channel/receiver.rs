//! The receiving half of a channel.

use crate::channel::RingPred;
use crate::refcount::{arc_dup, live_count, same_allocation, watch_clone, LifeToken, LifeWatch};
use crate::ring_buffer::{RingBuffer, TryRecvError};
use crate::swap_slot::SwapSlot;
use std::sync::Arc;
use vstd::prelude::*;
use vstd::rwlock::RwLock;

verus! {

/// The receiving half of a channel: a private read cursor plus a skip
/// policy over the shared ring. Cloning a receiver adds an independent
/// subscriber that starts at this receiver's current position.
///
/// Each receiver holds a `token`; the number of live tokens is the number
/// of live subscribers, which is what a broadcast consults.
pub struct Receiver<T, S: SwapSlot<T>> {
    /// The shared ring, behind its lock.
    pub(crate) channel: Arc<RwLock<RingBuffer<T, S>, RingPred>>,
    /// Marks this subscriber as alive for the sender's census.
    pub(crate) token: Arc<LifeToken>,
    /// Watches whether the sending side is still alive.
    pub(crate) sender_alive: LifeWatch,
    /// Watches how many subscriber handles are alive.
    pub(crate) readers: LifeWatch,
    /// Read cursor: the next position this subscriber will consume.
    pub(crate) ri: usize,
    /// How many retained messages a lapped reader skips beyond the oldest.
    pub(crate) skip_items: usize,
    /// The fixed cell count of the ring behind the lock.
    pub(crate) gsize: Ghost<int>,
}

impl<T, S: SwapSlot<T>> Receiver<T, S> {
    #[verifier::type_invariant]
    pub(crate) open spec fn inv(self) -> bool {
        &&& self.channel.pred() == (RingPred { size: self.gsize@ })
        &&& self.skip_items + 2 <= self.gsize@
    }

    /// The capacity of the channel.
    pub closed spec fn spec_capacity(&self) -> int {
        self.gsize@ - 1
    }

    /// The subscriber's current read cursor.
    pub closed spec fn spec_read_index(&self) -> usize {
        self.ri
    }

    /// The subscriber's skip policy.
    pub closed spec fn spec_skip_items(&self) -> usize {
        self.skip_items
    }

    /// The first subscriber of a fresh channel, at read position zero with
    /// no skip allowance.
    pub(crate) fn from_parts(
        channel: Arc<RwLock<RingBuffer<T, S>, RingPred>>,
        token: Arc<LifeToken>,
        sender_alive: LifeWatch,
        readers: LifeWatch,
        Ghost(size): Ghost<int>,
    ) -> (r: Self)
        requires
            channel.pred() == (RingPred { size }),
            2 <= size,
        ensures
            r.spec_capacity() == size - 1,
            r.spec_read_index() == 0,
            r.spec_skip_items() == 0,
    {
        Receiver {
            channel,
            token,
            sender_alive,
            readers,
            ri: 0,
            skip_items: 0,
            gsize: Ghost(size),
        }
    }

    /// Whether the sending side is still available.
    pub fn is_sender_available(&self) -> bool {
        proof {
            use_type_invariant(self);
        }
        let live = live_count(&self.sender_alive) > 0;
        let handle = self.channel.acquire_read();
        let open_flag = handle.borrow().is_available();
        handle.release_read();
        live && open_flag
    }

    /// Set how many retained messages this subscriber skips, beyond the
    /// oldest one, when the writer has lapped it; clamped to the queue
    /// capacity less one.
    pub fn set_skip_items(&mut self, skip_items: usize)
        ensures
            final(self).spec_capacity() == old(self).spec_capacity(),
            final(self).spec_read_index() == old(self).spec_read_index(),
            final(self).spec_skip_items() == if skip_items <= old(self).spec_capacity() - 1 {
                skip_items as int
            } else {
                old(self).spec_capacity() - 1
            },
    {
        proof {
            use_type_invariant(&*self);
        }
        let cap = self.len();
        self.skip_items = if skip_items < cap {
            skip_items
        } else {
            cap - 1
        };
    }

    /// Receive the next message, never blocking.
    ///
    /// Messages arrive in publication order; a subscriber that has been
    /// lapped by the writer loses the overwritten messages and resumes at
    /// the oldest retained one plus its skip allowance. When nothing is
    /// buffered the result is `Empty` while the sender lives, and
    /// `Disconnected` once the sender is gone or the channel is closed.
    pub fn try_recv(&mut self) -> (r: Result<Arc<T>, TryRecvError>)
        ensures
            final(self).spec_capacity() == old(self).spec_capacity(),
            final(self).spec_skip_items() == old(self).spec_skip_items(),
    {
        proof {
            use_type_invariant(&*self);
        }
        let live = live_count(&self.sender_alive) > 0;
        let mut cursor: usize = self.ri;
        let handle = self.channel.acquire_read();
        let res = handle.borrow().try_recv(&mut cursor, self.skip_items);
        handle.release_read();
        self.ri = cursor;
        match res {
            Ok(v) => Ok(v),
            Err(e) => {
                if live {
                    Err(e)
                } else {
                    // The sender handle is gone: an empty queue will stay
                    // empty, so the subscriber is disconnected.
                    Err(TryRecvError::Disconnected)
                }
            },
        }
    }

    /// Receive the next message if there is one; `None` otherwise. This is
    /// how iteration over a subscriber ends: at the first miss.
    pub fn next(&mut self) -> (r: Option<Arc<T>>)
        ensures
            final(self).spec_capacity() == old(self).spec_capacity(),
            final(self).spec_skip_items() == old(self).spec_skip_items(),
    {
        match self.try_recv() {
            Ok(v) => Some(v),
            Err(_) => None,
        }
    }

    /// The capacity of the channel: how many messages this subscriber can
    /// still recover when fully lagged.
    pub fn len(&self) -> (r: usize)
        ensures
            r == self.spec_capacity(),
            1 <= r,
    {
        proof {
            use_type_invariant(self);
        }
        let handle = self.channel.acquire_read();
        let r = handle.borrow().len();
        handle.release_read();
        r
    }

    /// Whether this subscriber has consumed everything published so far.
    pub fn is_empty(&self) -> bool {
        proof {
            use_type_invariant(self);
        }
        let handle = self.channel.acquire_read();
        let r = handle.borrow().is_sub_empty(self.ri);
        handle.release_read();
        r
    }

    /// How many subscriber handles are alive right now.
    pub fn get_sub_count(&self) -> usize {
        live_count(&self.readers)
    }
}

impl<T, S: SwapSlot<T>> Clone for Receiver<T, S> {
    /// An independent subscriber to the same channel, starting at this
    /// subscriber's current read position, with the same skip policy.
    fn clone(&self) -> (r: Self)
        ensures
            r.spec_capacity() == self.spec_capacity(),
            r.spec_read_index() == self.spec_read_index(),
            r.spec_skip_items() == self.spec_skip_items(),
    {
        proof {
            use_type_invariant(self);
        }
        Receiver {
            channel: arc_dup(&self.channel),
            token: arc_dup(&self.token),
            sender_alive: watch_clone(&self.sender_alive),
            readers: watch_clone(&self.readers),
            ri: self.ri,
            skip_items: self.skip_items,
            gsize: Ghost(self.gsize@),
        }
    }
}

impl<T, S: SwapSlot<T>> PartialEq for Receiver<T, S> {
    /// Two subscribers are equal when they watch the same channel from the
    /// same read position.
    fn eq(&self, other: &Self) -> bool {
        same_allocation(&self.channel, &other.channel) && self.ri == other.ri
    }
}

/// Handle equality is allocation identity, which spec-level values do
/// not track, so nothing is claimed about `==` in contracts.
impl<T, S: SwapSlot<T>> vstd::std_specs::cmp::PartialEqSpecImpl for Receiver<T, S> {
    open spec fn obeys_eq_spec() -> bool {
        false
    }

    open spec fn eq_spec(&self, _other: &Self) -> bool {
        true
    }
}

impl<T, S: SwapSlot<T>> Eq for Receiver<T, S> {}

} // verus!
