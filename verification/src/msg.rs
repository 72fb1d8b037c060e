//! Messages exchanged at the contract boundary: the creation message, the
//! three operations, the two queries, and their acknowledgement records.
use vstd::prelude::*;

verus! {

/// An amount of one denomination, as attached to a call or returned by one.
#[derive(Debug, Clone, PartialEq, Eq)]
pub struct Coin {
    pub denom: String,
    pub amount: u128,
}

/// Inputs of auction creation. `owner` defaults to the creator and
/// `commission_percentage` (fixed-point atomics, eighteen decimal places)
/// defaults to [`crate::state::DEFAULT_COMMISSION_ATOMICS`].
#[derive(Debug, Clone, PartialEq, Eq)]
pub struct InstantiateMsg {
    pub owner: Option<String>,
    pub auction_item_title: String,
    pub commission_percentage: Option<u128>,
}

/// The three mutating operations.
#[derive(Debug, Clone, PartialEq, Eq)]
pub enum ExecuteMsg {
    Bid {},
    RetractFunds { withdraw_address: Option<String> },
    CloseBidding {},
}

/// The two read-only queries.
#[derive(Debug, Clone, PartialEq, Eq)]
pub enum QueryMsg {
    GetAuctionStatus {},
    GetUserBid { bidder: String },
}

/// One identity's standing: the identity and its cumulative bid.
#[derive(Debug, Clone, PartialEq, Eq)]
pub struct BidResponse {
    pub bidder: String,
    pub bid: Coin,
}

/// Answer to the status query. `bidders_count` counts every identity ever
/// recorded, zeroed-by-retraction entries included.
#[derive(Debug, Clone, PartialEq, Eq)]
pub struct AuctionStatusResponse {
    pub owner: String,
    pub active: bool,
    pub auction_item_title: String,
    pub highest_bid: BidResponse,
    pub bidders_count: usize,
    pub commission_percentage: u128,
}

/// A one-shot instruction to the host ledger to move funds out of the
/// auction's custody.
#[derive(Debug, Clone, PartialEq, Eq)]
pub struct BankTransfer {
    pub to_address: String,
    pub amount: Coin,
}

/// Acknowledgement of a mutating operation.
#[derive(Debug, Clone, PartialEq, Eq)]
pub enum ExecuteReply {
    /// The bid was accepted; carries the sender's new cumulative bid.
    Bid { new_bid: Coin },
    /// The auction is now closed.
    CloseBidding {},
    /// The retraction was accepted; the host must perform the transfer.
    RetractFunds { transfer: BankTransfer },
}

/// Answer of the query dispatcher.
#[derive(Debug, Clone, PartialEq, Eq)]
pub enum QueryReply {
    AuctionStatus { status: AuctionStatusResponse },
    UserBid { bid: BidResponse },
}

} // verus!
