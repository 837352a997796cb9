//! Trusted bridge to the `event_listener` crate: the wake/sleep primitive
//! that bridges the non-blocking ring to consumers that want to sleep
//! between messages.
//!
//! An `Event` carries no data; `listen` registers interest, and a listener
//! completes once a notification arrives after its registration. Nothing
//! about the ring's contents is claimed here.

use vstd::prelude::*;

verus! {

#[verifier::external_type_specification]
#[verifier::external_body]
pub struct ExEvent(event_listener::Event);

#[verifier::external_type_specification]
#[verifier::external_body]
pub struct ExEventListener(event_listener::EventListener);

/// Relies on `event_listener::Event::new`: a fresh event with no listeners.
pub assume_specification [ event_listener::Event::new ]() -> event_listener::Event;

/// Relies on `event_listener::Event::listen`: registers a listener that
/// completes once a notification arrives after this registration.
pub assume_specification [ event_listener::Event::listen ](
    e: &event_listener::Event,
) -> event_listener::EventListener;

/// Relies on `event_listener::Event::notify`: wakes up to `n` of the
/// currently registered listeners.
pub assume_specification [ event_listener::Event::notify ](e: &event_listener::Event, n: usize);

/// Wake every listener currently registered on `ev`.
pub(crate) fn notify_all(ev: &event_listener::Event) {
    ev.notify(usize::MAX);
}

} // verus!
