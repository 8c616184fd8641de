//! Verified core of a UDP stream forwarder.
//!
//! The library models the three decision layers of the forwarder: socket
//! setup for unicast and multicast targets, the per-chunk dispatch step of
//! the streaming loop, and the date-bucketed backup rotation rules.
use vstd::prelude::*;

pub mod addr;
pub mod backup;
pub mod binder;
pub mod dispatch;
pub mod session;

verus! {

/// Largest number of bytes a single chunk read from the input may hold.
pub const MAX_CHUNK_SIZE: usize = 8096;

} // verus!
