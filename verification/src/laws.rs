//! Laws of the auction as a whole: consequences of the operations'
//! transition predicates that span more than one call.
use vstd::prelude::*;

use crate::error::ContractError;
use crate::execute::{bid_transition, close_transition, retract_transition};
use crate::msg::{BankTransfer, Coin};
use crate::state::Auction;

verus! {

/// A bid never lowers the highest bid: across any bid call the ledger
/// maximum is non-decreasing, and a successful bid strictly raises it. Over
/// any sequence of bid calls the highest amount is therefore monotonically
/// non-decreasing.
pub proof fn lemma_bid_never_lowers_max(
    pre: Auction,
    post: Auction,
    sender: Seq<char>,
    attached: u128,
    r: Result<Coin, ContractError>,
)
    requires
        bid_transition(pre, post, sender, attached, r),
    ensures
        post.bids.max_amount() >= pre.bids.max_amount(),
        r matches Ok(_) ==> post.bids.max_amount() > pre.bids.max_amount(),
{
}

/// Each adjacent pair of `states` is joined by some bid call (successful or
/// not, by whomever, with whatever attachment).
pub open spec fn bid_chain(states: Seq<Auction>) -> bool {
    forall|k: int|
        0 <= k < states.len() - 1 ==> exists|t: (Seq<char>, u128, Result<Coin, ContractError>)|
            bid_transition(#[trigger] states[k], states[k + 1], t.0, t.1, t.2)
}

/// Across a whole chain of states joined by bid calls, the highest bid never
/// decreases.
pub proof fn lemma_bid_chain_monotonic(states: Seq<Auction>, i: int, j: int)
    requires
        0 <= i <= j < states.len(),
        bid_chain(states),
    ensures
        states[i].bids.max_amount() <= states[j].bids.max_amount(),
    decreases j - i,
{
    if i < j {
        lemma_bid_chain_monotonic(states, i, j - 1);
        assert(0 <= j - 1 < states.len() - 1);
        assert(exists|t: (Seq<char>, u128, Result<Coin, ContractError>)|
            bid_transition(states[j - 1], states[j], t.0, t.1, t.2));
        let t = choose|t: (Seq<char>, u128, Result<Coin, ContractError>)|
            bid_transition(states[j - 1], states[j], t.0, t.1, t.2);
        lemma_bid_never_lowers_max(states[j - 1], states[j], t.0, t.1, t.2);
    }
}

/// A bid whose candidate amount exactly equals the current leader's amount
/// is rejected: only a strictly greater cumulative amount is accepted.
pub proof fn lemma_equal_bid_rejected(
    pre: Auction,
    post: Auction,
    sender: Seq<char>,
    attached: u128,
    r: Result<Coin, ContractError>,
)
    requires
        bid_transition(pre, post, sender, attached, r),
        pre.active,
        attached > 0,
        pre.bids.amount_of(sender) + attached == pre.bids.max_amount(),
    ensures
        r matches Err(ContractError::BidTooLow { .. }),
        post == pre,
{
}

/// Once the auction is closed, every subsequent bid fails with the
/// inactive-lifecycle error and leaves the ledger unchanged.
pub proof fn lemma_no_bids_after_close(
    s0: Auction,
    s1: Auction,
    s2: Auction,
    closer: Seq<char>,
    bidder: Seq<char>,
    attached: u128,
    rc: Result<(), ContractError>,
    rb: Result<Coin, ContractError>,
)
    requires
        close_transition(s0, s1, closer, rc),
        rc matches Ok(_),
        bid_transition(s1, s2, bidder, attached, rb),
    ensures
        rb matches Err(ContractError::AuctionInactive {  }),
        s2 == s1,
{
}

/// After the close, the recorded leader can never retract: the call fails
/// with the nothing-to-withdraw error and changes nothing.
pub proof fn lemma_leader_retract_rejected(
    pre: Auction,
    post: Auction,
    sender: Seq<char>,
    withdraw_address: Option<String>,
    r: Result<BankTransfer, ContractError>,
)
    requires
        retract_transition(pre, post, sender, withdraw_address, r),
        !pre.active,
        pre.bids.is_leader(sender),
    ensures
        r matches Err(ContractError::NothingToWithdraw {  }),
        post == pre,
{
}

/// No retraction — by whomever, with whatever outcome — changes who the
/// leader is. Together with [`lemma_leader_retract_rejected`] this means the
/// leader's retraction fails regardless of its order relative to other
/// participants' retractions.
pub proof fn lemma_retract_preserves_leadership(
    pre: Auction,
    post: Auction,
    sender: Seq<char>,
    withdraw_address: Option<String>,
    r: Result<BankTransfer, ContractError>,
    k: Seq<char>,
)
    requires
        retract_transition(pre, post, sender, withdraw_address, r),
    ensures
        post.bids.is_leader(k) == pre.bids.is_leader(k),
{
}

/// Retraction is single-shot: a non-leader's first post-close retraction
/// succeeds with their full recorded amount and zeroes their entry, and a
/// second attempt by the same identity fails with the nothing-to-withdraw
/// error, exactly as for an identity that never bid.
pub proof fn lemma_retraction_single_shot(
    s0: Auction,
    s1: Auction,
    s2: Auction,
    sender: Seq<char>,
    addr1: Option<String>,
    addr2: Option<String>,
    r1: Result<BankTransfer, ContractError>,
    r2: Result<BankTransfer, ContractError>,
)
    requires
        !s0.active,
        !s0.bids.is_leader(sender),
        s0.bids.amount_of(sender) > 0,
        retract_transition(s0, s1, sender, addr1, r1),
        retract_transition(s1, s2, sender, addr2, r2),
    ensures
        r1 matches Ok(t) && t.amount.amount == s0.bids.amount_of(sender),
        s1.bids.amount_of(sender) == 0,
        r2 matches Err(ContractError::NothingToWithdraw {  }),
        s2 == s1,
{
}

/// An identity with no recorded entry is defined to hold zero: the user-bid
/// query reports amount zero for it.
pub proof fn lemma_no_history_reads_zero(a: Auction, k: Seq<char>)
    requires
        !a.bids.has_entry(k),
    ensures
        a.bids.amount_of(k) == 0,
{
}

} // verus!
