//! The two read-only queries: auction status and one identity's standing.
use vstd::prelude::*;

use crate::contract::{calc_highest_bid, new_bid_denom};
use crate::msg::{AuctionStatusResponse, BidResponse, Coin};
use crate::spec_bid_denom;
use crate::state::Auction;

verus! {

/// What the status query reports: the configuration, the lifecycle flag, the
/// current leader with the maximum amount, and the count of every identity
/// ever recorded (zeroed entries included).
pub open spec fn status_post(a: Auction, r: AuctionStatusResponse) -> bool {
    &&& r.owner == a.owner
    &&& r.active == a.active
    &&& r.auction_item_title == a.auction_item_title
    &&& a.bids.is_leader(r.highest_bid.bidder@)
    &&& r.highest_bid.bid.amount == a.bids.max_amount()
    &&& r.highest_bid.bid.denom@ == spec_bid_denom()
    &&& r.bidders_count == a.bids.len()
    &&& r.commission_percentage == a.commission_percentage
}

/// Reports the auction status. Read-only.
pub fn status(auction: &Auction) -> (r: AuctionStatusResponse)
    requires
        auction.well_formed(),
    ensures
        status_post(*auction, r),
{
    let (bidder, bid) = calc_highest_bid(&auction.bids);
    AuctionStatusResponse {
        owner: auction.owner.clone(),
        active: auction.active,
        auction_item_title: auction.auction_item_title.clone(),
        highest_bid: BidResponse { bidder, bid },
        bidders_count: auction.bids.entries.len(),
        commission_percentage: auction.commission_percentage,
    }
}

/// What the user-bid query reports: the queried identity's cumulative amount,
/// zero for an identity with no entry (indistinguishable from a retracted
/// one).
pub open spec fn user_bid_post(a: Auction, bidder: Seq<char>, r: BidResponse) -> bool {
    &&& r.bidder@ == bidder
    &&& r.bid.amount == a.bids.amount_of(bidder)
    &&& r.bid.denom@ == spec_bid_denom()
}

/// Reports one identity's cumulative bid. Read-only.
pub fn get_user_bid(auction: &Auction, bidder: String) -> (r: BidResponse)
    requires
        auction.bids.well_formed(),
    ensures
        user_bid_post(*auction, bidder@, r),
{
    let amount = auction.bids.get_amount(&bidder);
    BidResponse { bidder, bid: Coin { denom: new_bid_denom(), amount } }
}

} // verus!
