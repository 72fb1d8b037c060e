//! Failure taxonomy of the auction operations. Every error is a terminal
//! rejection of one invocation; nothing here is retryable.
use vstd::prelude::*;

verus! {

/// Why an auction operation rejected a call.
#[derive(Debug, Clone, PartialEq, Eq)]
pub enum ContractError {
    /// The caller is not the recorded owner; carries the owner identity.
    Unauthorized { owner: String },
    /// A bid (or a second close) was attempted while the auction is closed.
    AuctionInactive {},
    /// The candidate cumulative amount does not strictly exceed the current
    /// leader's amount; carries the minimum to beat, the bid denomination,
    /// and the caller's prior cumulative amount.
    BidTooLow { minimum_bid_amount: u128, bid_denom: String, current_bid_amount: u128 },
    /// A bid was attempted with no value attached in the bid denomination.
    InvalidBidAmount {},
    /// The caller is the current leader, or holds a zero (or absent) entry.
    NothingToWithdraw {},
    /// A retraction was attempted while the auction is still open.
    AuctionActive {},
}

} // verus!
