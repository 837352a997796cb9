//! Concrete slot realizations and the channel constructors built on them.

pub mod rw_lock;
