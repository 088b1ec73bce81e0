//! A small toolkit of concurrency primitives, modelled as verified state
//! machines: atomically reference-counted shared ownership, a mutual-exclusion
//! lock with poisoning, a run-once initializer, a reusable rendezvous
//! barrier, and a multi-producer/single-consumer channel (bounded and
//! unbounded).
//!
//! Each primitive's shared state is an owned value whose transitions are
//! verified functions with full contracts. Blocking is expressed by outcomes
//! such as `Full`, `Empty` or a pending arrival ticket: a caller that would
//! block re-runs the transition (parking between attempts) until it takes
//! effect, so an embedding runtime supplies only the waiting, never the logic.

use vstd::prelude::*;

pub mod barrier;
pub mod channel;
pub mod lock;
pub mod once;
pub mod shared;

verus! {

/// Placeholder for a blocking fetch of one resource, as handed to worker
/// threads by an embedding runtime; this toolkit only coordinates such
/// workers, so the fetch itself always reports success.
pub fn download(p0: &str) -> (r: bool)
    ensures
        r == true,
{
    true
}

/// Placeholder for the non-blocking counterpart of [`download`]: starting the
/// fetch has no observable effect on the toolkit's state.
pub fn download_async(p0: &str) {
}

} // verus!
