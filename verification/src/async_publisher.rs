//! The publishing half of a channel with a wake layer on top.

use crate::channel::Sender;
use crate::event::notify_all;
use crate::ring_buffer::SendError;
use crate::swap_slot::SwapSlot;
use event_listener::Event;
use std::sync::Arc;
use vstd::prelude::*;

verus! {

/// A publisher whose broadcasts also wake every subscriber that went to
/// sleep waiting for the next message.
pub struct AsyncPublisher<T, S: SwapSlot<T>> {
    /// The plain publishing half.
    pub(crate) publisher: Sender<T, S>,
    /// The wake primitive shared with the channel's subscribers.
    pub(crate) event: Arc<Event>,
}

impl<T, S: SwapSlot<T>> AsyncPublisher<T, S> {
    /// The publishing half of a fresh channel with its wake primitive.
    pub(crate) fn from_parts(publisher: Sender<T, S>, event: Arc<Event>) -> (r: Self)
        ensures
            r.spec_capacity() == publisher.spec_capacity(),
    {
        AsyncPublisher { publisher, event }
    }

    /// The capacity of the channel.
    pub closed spec fn spec_capacity(&self) -> int {
        self.publisher.spec_capacity()
    }

    /// Publish one value, then wake every subscriber currently asleep in
    /// the wait loop. If no subscriber is alive the value comes back
    /// unchanged inside the error.
    pub fn broadcast(&self, object: T) -> (r: Result<(), SendError<T>>)
        ensures
            r matches Err(e) ==> e == SendError(object),
    {
        let r = self.publisher.broadcast(object);
        notify_all(&self.event);
        r
    }

    /// Wake every subscriber currently asleep, without publishing.
    pub fn flush(&self) {
        notify_all(&self.event);
    }

    /// Close the channel and wake every sleeping subscriber so it observes
    /// the disconnection after draining. Idempotent.
    pub fn close(&self) {
        self.publisher.close();
        notify_all(&self.event);
    }

    /// The capacity of the channel.
    pub fn len(&self) -> (r: usize)
        ensures
            r == self.spec_capacity(),
    {
        self.publisher.len()
    }

    /// Whether nothing has been published yet.
    pub fn is_empty(&self) -> bool {
        self.publisher.is_empty()
    }

    /// How many subscriber handles are alive right now.
    pub fn get_sub_count(&self) -> usize {
        self.publisher.get_sub_count()
    }
}

impl<T, S: SwapSlot<T>> PartialEq for AsyncPublisher<T, S> {
    /// Two publishers are equal when they feed the same channel.
    fn eq(&self, other: &Self) -> bool {
        self.publisher.eq(&other.publisher)
    }
}

/// Handle equality is allocation identity, which spec-level values do
/// not track, so nothing is claimed about `==` in contracts.
impl<T, S: SwapSlot<T>> vstd::std_specs::cmp::PartialEqSpecImpl for AsyncPublisher<T, S> {
    open spec fn obeys_eq_spec() -> bool {
        false
    }

    open spec fn eq_spec(&self, _other: &Self) -> bool {
        true
    }
}

impl<T, S: SwapSlot<T>> Eq for AsyncPublisher<T, S> {}

} // verus!
