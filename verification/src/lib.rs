//! Core of a single-item, open, ascending-price auction: bid acceptance and
//! validation, highest-bid tracking, the open/closed lifecycle, and
//! fund-retraction accounting for non-winning participants.
//!
//! The auction state is held as a plain value ([`state::Auction`]) and every
//! operation is a function from state and inputs to a new state and an
//! acknowledgement or error; the host that persists the state and moves funds
//! lives outside this crate.
use vstd::prelude::*;

pub mod contract;
pub mod error;
pub mod execute;
pub mod laws;
pub mod lex;
pub mod msg;
pub mod query;
pub mod state;

verus! {

/// The only denomination this auction honours for bids.
pub open spec fn spec_bid_denom() -> Seq<char> {
    "ubtc"@
}

} // verus!
