//! A bounded, non-blocking publish/subscribe queue.
//!
//! One publisher broadcasts values to any number of subscribers. The queue
//! never blocks the publisher: it keeps only the most recent `N` messages, and
//! a subscriber that falls behind loses the oldest unread messages instead of
//! stalling the producer. Messages travel as shared, reference-counted
//! handles, so fanning a value out to many subscribers never copies it.
//!
//! The heart of the crate is [`RingBuffer`], a fixed-capacity ring of slots
//! with a wrapping write cursor. Each subscriber owns a private read cursor
//! and a skip policy that decides how far a lapped reader jumps forward.
//! [`bounded`] wires a ring into a ([`Sender`], [`Receiver`]) pair that share
//! it behind a reader/writer lock; [`async_bounded`] adds an event layer so
//! that consumers can sleep between messages.

mod async_publisher;
mod async_subscriber;
pub mod channel;
mod event;
pub mod flavors;
mod refcount;
mod ring_buffer;
mod swap_slot;

pub use async_publisher::AsyncPublisher;
pub use async_subscriber::AsyncSubscriber;
pub use async_subscriber::RecvStep;
pub use channel::Receiver;
pub use channel::Sender;
pub use ring_buffer::RingBuffer;
pub use ring_buffer::SendError;
pub use ring_buffer::TryRecvError;
pub use swap_slot::SwapSlot;

use crate::channel::RingPred;
use crate::refcount::{arc_dup, watch, watch_clone, LifeToken};
use std::sync::Arc;
use vstd::prelude::*;
use vstd::rwlock::RwLock;

verus! {

/// The publishing half of a channel, under its traditional name.
pub type Publisher<T, S> = channel::sender::Sender<T, S>;

/// The subscribing half of a channel, under its traditional name.
pub type Subscriber<T, S> = channel::receiver::Receiver<T, S>;

/// A channel of capacity `size`: a sender and one first subscriber sharing
/// a fresh ring. Further subscribers come from cloning the first.
pub fn bounded<T, S: SwapSlot<T>>(size: usize) -> (r: (Sender<T, S>, Receiver<T, S>))
    requires
        1 <= size < usize::MAX,
    ensures
        r.0.spec_capacity() == size,
        r.1.spec_capacity() == size,
        r.1.spec_read_index() == 0,
        r.1.spec_skip_items() == 0,
{
    let ring = RingBuffer::<T, S>::new(size);
    let ghost pred = RingPred { size: ring.size as int };
    let lock = RwLock::<RingBuffer<T, S>, RingPred>::new(ring, Ghost(pred));
    let channel = Arc::new(lock);
    let alive = Arc::new(LifeToken {});
    let token = Arc::new(LifeToken {});
    let sender_alive = watch(&alive);
    let readers = watch(&token);
    let readers_for_sender = watch_clone(&readers);
    let sender = Sender::from_parts(
        arc_dup(&channel),
        alive,
        readers_for_sender,
        Ghost(size as int + 1),
    );
    let receiver = Receiver::from_parts(
        channel,
        token,
        sender_alive,
        readers,
        Ghost(size as int + 1),
    );
    (sender, receiver)
}

/// A channel of capacity `size` with a wake layer: the publisher's
/// broadcasts wake subscribers that went to sleep between messages.
pub fn async_bounded<T, S: SwapSlot<T>>(size: usize) -> (r: (
    AsyncPublisher<T, S>,
    AsyncSubscriber<T, S>,
))
    requires
        1 <= size < usize::MAX,
    ensures
        r.0.spec_capacity() == size,
        r.1.spec_capacity() == size,
        r.1.spec_read_index() == 0,
        r.1.spec_skip_items() == 0,
{
    let (publisher, subscriber) = bounded::<T, S>(size);
    let event = Arc::new(event_listener::Event::new());
    let async_publisher = AsyncPublisher::from_parts(publisher, arc_dup(&event));
    let async_subscriber = AsyncSubscriber::from_parts(subscriber, event);
    (async_publisher, async_subscriber)
}

} // verus!
