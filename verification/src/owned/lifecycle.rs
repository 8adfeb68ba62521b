//! The states every owned request goes through.
//!
//! A request is *prepared*, becomes a *ticket* when it is queued, and is
//! *done* when a receipt for it has been redeemed. These are the values
//! that the contracts of all request types speak of.

use super::identity::{RequestId, RingId};
use vstd::prelude::*;

verus! {

/// A request that has been queued: what was asked, and who may answer.
pub struct Ticket<R> {
    /// The queue that accepted it.
    pub ring: RingId,
    /// The identity the kernel echoes back.
    pub id: RequestId,
    /// What was asked for.
    pub request: R,
}

/// A request that is over: what was asked, and the raw answer.
pub struct Done<R> {
    /// The identity it had.
    pub id: RequestId,
    /// The raw result of its completion.
    pub result: i32,
    /// What was asked for.
    pub request: R,
}

} // verus!
