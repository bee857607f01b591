//! Failure of the run and branch concurrency limiter.
use vstd::prelude::*;

verus! {

/// The limiter's semaphores were closed while a node waited for capacity.
#[derive(Clone, Copy, Debug, PartialEq, Eq, Structural)]
pub enum ConcurrencyError {
    Closed,
}

} // verus!
