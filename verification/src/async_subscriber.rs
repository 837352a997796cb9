//! The subscribing half of a channel with a wake layer on top.

use crate::channel::Receiver;
use crate::refcount::arc_dup;
use crate::ring_buffer::TryRecvError;
use crate::swap_slot::SwapSlot;
use event_listener::{Event, EventListener};
use std::sync::Arc;
use vstd::prelude::*;

verus! {

/// The outcome of one non-blocking step of a waiting subscriber.
pub enum RecvStep<T> {
    /// A message arrived and was consumed.
    Ready(Arc<T>),
    /// The channel is closed and drained: no message will ever come again.
    Finished,
    /// Nothing to deliver yet; a listener is armed and must be awaited (or
    /// parked on) before the next step.
    Wait,
}

/// A subscriber that can go to sleep between messages.
///
/// The in-flight listener is kept across steps, so that a publisher's wake
/// reaches this subscriber exactly once, and is dropped as soon as a
/// message is consumed. Cancellation is implicit: dropping the subscriber
/// drops the listener, deregistering it.
pub struct AsyncSubscriber<T, S: SwapSlot<T>> {
    /// The plain subscribing half.
    pub(crate) subscriber: Receiver<T, S>,
    /// The wake primitive shared with the channel's publisher.
    pub(crate) event: Arc<Event>,
    /// The armed listener, while this subscriber is between a miss and the
    /// wake-up that follows it.
    pub(crate) listener: Option<EventListener>,
}

impl<T, S: SwapSlot<T>> AsyncSubscriber<T, S> {
    /// The subscribing half of a fresh channel with its wake primitive.
    pub(crate) fn from_parts(subscriber: Receiver<T, S>, event: Arc<Event>) -> (r: Self)
        ensures
            r.spec_capacity() == subscriber.spec_capacity(),
            r.spec_read_index() == subscriber.spec_read_index(),
            r.spec_skip_items() == subscriber.spec_skip_items(),
            !r.has_listener(),
    {
        AsyncSubscriber { subscriber, event, listener: None }
    }

    /// The capacity of the channel.
    pub closed spec fn spec_capacity(&self) -> int {
        self.subscriber.spec_capacity()
    }

    /// The subscriber's current read cursor.
    pub closed spec fn spec_read_index(&self) -> usize {
        self.subscriber.spec_read_index()
    }

    /// The subscriber's skip policy.
    pub closed spec fn spec_skip_items(&self) -> usize {
        self.subscriber.spec_skip_items()
    }

    /// Whether a listener is armed from an earlier miss.
    pub closed spec fn has_listener(&self) -> bool {
        self.listener is Some
    }

    /// Set how many retained messages this subscriber skips, beyond the
    /// oldest one, when the writer has lapped it; clamped to the queue
    /// capacity less one.
    pub fn set_skip_items(&mut self, skip_items: usize)
        ensures
            final(self).spec_capacity() == old(self).spec_capacity(),
            final(self).spec_skip_items() == if skip_items <= old(self).spec_capacity() - 1 {
                skip_items as int
            } else {
                old(self).spec_capacity() - 1
            },
    {
        self.subscriber.set_skip_items(skip_items);
    }

    /// The capacity of the channel.
    pub fn len(&self) -> (r: usize)
        ensures
            r == self.spec_capacity(),
    {
        self.subscriber.len()
    }

    /// Whether this subscriber has consumed everything published so far.
    pub fn is_empty(&self) -> bool {
        self.subscriber.is_empty()
    }

    /// Receive the next message without ever waiting; the armed listener,
    /// if any, is left as it is.
    pub fn try_recv(&mut self) -> (r: Result<Arc<T>, TryRecvError>)
        ensures
            final(self).spec_capacity() == old(self).spec_capacity(),
            final(self).spec_skip_items() == old(self).spec_skip_items(),
            final(self).has_listener() == old(self).has_listener(),
    {
        self.subscriber.try_recv()
    }

    /// One step of the check-listen-check protocol.
    ///
    /// A receive is attempted first; on a miss a listener is armed and the
    /// receive is attempted once more, so that a wake fired between the
    /// first attempt and the registration cannot be lost. `Wait` asks the
    /// caller to await (or park on) the armed listener before stepping
    /// again.
    pub fn next_step(&mut self) -> (r: RecvStep<T>)
        ensures
            final(self).spec_capacity() == old(self).spec_capacity(),
            final(self).spec_skip_items() == old(self).spec_skip_items(),
            r is Wait ==> final(self).has_listener(),
            !(r is Wait) ==> !final(self).has_listener(),
    {
        match self.subscriber.try_recv() {
            Ok(item) => {
                self.listener = None;
                RecvStep::Ready(item)
            },
            Err(TryRecvError::Disconnected) => {
                self.listener = None;
                RecvStep::Finished
            },
            Err(TryRecvError::Empty) => {
                if self.listener.is_some() {
                    return RecvStep::Wait;
                }
                self.listener = Some(self.event.listen());
                match self.subscriber.try_recv() {
                    Ok(item) => {
                        self.listener = None;
                        RecvStep::Ready(item)
                    },
                    Err(TryRecvError::Disconnected) => {
                        self.listener = None;
                        RecvStep::Finished
                    },
                    Err(TryRecvError::Empty) => RecvStep::Wait,
                }
            },
        }
    }

    /// Remove the armed listener, if any, handing it to the caller to
    /// await or park on.
    pub fn take_listener(&mut self) -> (l: Option<EventListener>)
        ensures
            final(self).spec_capacity() == old(self).spec_capacity(),
            final(self).spec_skip_items() == old(self).spec_skip_items(),
            !final(self).has_listener(),
            l is Some <==> old(self).has_listener(),
    {
        self.listener.take()
    }

    /// Arm `l` as the listener to await before the next step.
    pub fn store_listener(&mut self, l: EventListener)
        ensures
            final(self).spec_capacity() == old(self).spec_capacity(),
            final(self).spec_skip_items() == old(self).spec_skip_items(),
            final(self).has_listener(),
    {
        self.listener = Some(l);
    }

    /// How many subscriber handles are alive right now.
    pub fn get_sub_count(&self) -> usize {
        self.subscriber.get_sub_count()
    }
}

impl<T, S: SwapSlot<T>> Clone for AsyncSubscriber<T, S> {
    /// An independent subscriber to the same channel and wake primitive,
    /// starting at this subscriber's current read position, with no armed
    /// listener.
    fn clone(&self) -> (r: Self)
        ensures
            r.spec_capacity() == self.spec_capacity(),
            r.spec_read_index() == self.spec_read_index(),
            r.spec_skip_items() == self.spec_skip_items(),
            !r.has_listener(),
    {
        AsyncSubscriber {
            subscriber: self.subscriber.clone(),
            event: arc_dup(&self.event),
            listener: None,
        }
    }
}

impl<T, S: SwapSlot<T>> PartialEq for AsyncSubscriber<T, S> {
    /// Two subscribers are equal when they watch the same channel from the
    /// same read position.
    fn eq(&self, other: &Self) -> bool {
        self.subscriber.eq(&other.subscriber)
    }
}

/// Handle equality is allocation identity, which spec-level values do
/// not track, so nothing is claimed about `==` in contracts.
impl<T, S: SwapSlot<T>> vstd::std_specs::cmp::PartialEqSpecImpl for AsyncSubscriber<T, S> {
    open spec fn obeys_eq_spec() -> bool {
        false
    }

    open spec fn eq_spec(&self, _other: &Self) -> bool {
        true
    }
}

impl<T, S: SwapSlot<T>> Eq for AsyncSubscriber<T, S> {}

} // verus!
