//! Typed failures of the market protocol.

use vstd::prelude::*;

verus! {

/// Every way a bet, a resolution or a callback can be refused.
///
/// None of these is silently swallowed: each public operation of the crate
/// says in its contract exactly which inputs produce which variant.
#[derive(Clone, Copy, Debug, PartialEq, Eq, Structural)]
pub enum MarketError {
    /// A bet or a resolution was attempted on a market that is already resolved.
    MarketClosed,
    /// A second computation was requested for a market while one is still queued.
    ComputationInFlight,
    /// The callback's signature or authenticity check failed; nothing was committed.
    AbortedComputation,
    /// The callback referenced a request that is unknown or no longer queued.
    UnknownOrStaleRequest,
    /// A pool or payout computation would exceed the unsigned 64-bit range.
    ArithmeticOverflow,
}

} // verus!
