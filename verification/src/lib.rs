//! A concurrent proof-of-work solver core.
//!
//! Given a numeric target and an initial payload hash, several workers
//! search disjoint slices of the nonce space until one finds a nonce whose
//! derived digest value is at or below the target. A coordinator races the
//! first success against consumer-side cancellation, stops every worker on
//! either event, and forwards the winning `(trial value, nonce)` pair to the
//! consumer at most once.

use vstd::prelude::*;

pub mod channel;
pub mod coordinator;
pub mod digest;
pub mod message;
pub mod protocol;
pub mod worker;

verus! {

/// The concurrent proof-of-work solver.
pub struct AsyncPoW {}

} // verus!
