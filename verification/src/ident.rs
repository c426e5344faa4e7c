//! Allocation of listener identifiers.

use vstd::prelude::*;

verus! {

/// Draws a listener identifier with `rand::random::<u64>()`, which samples
/// the thread-local generator of the `rand` crate.
///
/// The value is uniformly distributed over all of `u64` and differs from call
/// to call, so the contract claims nothing of it: callers are verified for
/// every value that may come back. Identifiers are unique only with
/// overwhelming probability. The call takes no argument; it panics only where
/// the operating system cannot seed the generator of a thread.
#[verifier::external_body]
pub(crate) fn next_id() -> (id: u64) {
    rand::random::<u64>()
}

} // verus!
