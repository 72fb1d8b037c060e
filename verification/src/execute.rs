//! The three mutating operations: bid placement, closing, and fund
//! retraction. Each is specified by a transition predicate from the state
//! before the call, the state after it, and the caller's inputs to the
//! outcome; a failed call leaves the state exactly as it was.
use vstd::prelude::*;

use crate::contract::{attached_bid_amount, calc_highest_bid, new_bid_denom, spec_attached_amount};
use crate::error::ContractError;
use crate::msg::{BankTransfer, Coin};
use crate::spec_bid_denom;
use crate::state::{lemma_max_amount_of, Auction};

verus! {

/// The bid-placement transition. A bid is accepted exactly when the auction
/// is open, a positive amount is attached in the auction denomination, and
/// the sender's new cumulative amount strictly exceeds the current leader's;
/// then the sender's entry holds the new amount, every other entry is
/// untouched, and the sender is the new leader. Every rejection names its
/// reason and leaves the state unchanged.
pub open spec fn bid_transition(
    pre: Auction,
    post: Auction,
    sender: Seq<char>,
    attached: u128,
    r: Result<Coin, ContractError>,
) -> bool {
    let prev = pre.bids.amount_of(sender);
    let candidate = prev + attached;
    let max = pre.bids.max_amount();
    &&& (!pre.active ==> post == pre && r matches Err(ContractError::AuctionInactive {  }))
    &&& (pre.active && attached == 0 ==> post == pre && r matches Err(
        ContractError::InvalidBidAmount {  },
    ))
    &&& (pre.active && attached > 0 && candidate <= max ==> post == pre && (r matches Err(
        ContractError::BidTooLow { minimum_bid_amount, bid_denom, current_bid_amount },
    ) && minimum_bid_amount == max && bid_denom@ == spec_bid_denom() && current_bid_amount
        == prev))
    &&& (pre.active && attached > 0 && candidate > max ==> {
        &&& r matches Ok(c) && c.amount == candidate && c.denom@ == spec_bid_denom()
        &&& post.well_formed()
        &&& post.owner == pre.owner
        &&& post.auction_item_title == pre.auction_item_title
        &&& post.commission_percentage == pre.commission_percentage
        &&& post.active
        &&& post.bids.amount_of(sender) == candidate
        &&& forall|k: Seq<char>|
            k != sender ==> #[trigger] post.bids.amount_of(k) == pre.bids.amount_of(k)
        &&& forall|k: Seq<char>|
            #[trigger] post.bids.has_entry(k) == (pre.bids.has_entry(k) || k == sender)
        &&& post.bids.len() == pre.bids.len() + (if pre.bids.has_entry(sender) {
            0int
        } else {
            1int
        })
        &&& post.bids.max_amount() == candidate
        &&& post.bids.is_leader(sender)
    })
}

/// Places a bid: the sender's attached amount in the auction denomination is
/// added to their cumulative standing, which must strictly exceed the current
/// leader's amount (an equal bid is rejected).
pub fn bid(auction: &mut Auction, sender: &String, funds: &Vec<Coin>) -> (r: Result<
    Coin,
    ContractError,
>)
    requires
        old(auction).well_formed(),
        old(auction).active && spec_attached_amount(funds@) > 0 ==> old(auction).bids.amount_of(
            sender@,
        ) + spec_attached_amount(funds@) <= u128::MAX,
    ensures
        bid_transition(*old(auction), *final(auction), sender@, spec_attached_amount(funds@), r),
{
    if !auction.active {
        return Err(ContractError::AuctionInactive {  });
    }
    let new_bid_funds = attached_bid_amount(funds);
    if new_bid_funds == 0 {
        return Err(ContractError::InvalidBidAmount {  });
    }
    let (highest_bid_address, highest_bid) = calc_highest_bid(&auction.bids);

    let previous_bid = if highest_bid_address == *sender {
        highest_bid.amount
    } else {
        auction.bids.get_amount(sender)
    };
    assert(previous_bid == auction.bids.amount_of(sender@));

    let new_amount = previous_bid + new_bid_funds;

    if highest_bid.amount >= new_amount {
        return Err(
            ContractError::BidTooLow {
                minimum_bid_amount: highest_bid.amount,
                bid_denom: new_bid_denom(),
                current_bid_amount: previous_bid,
            },
        );
    }
    auction.bids.set_amount(sender, new_amount);
    proof {
        lemma_new_top_bid_leads(*old(auction), *auction, sender@, new_amount);
    }
    Ok(Coin { denom: new_bid_denom(), amount: new_amount })
}

/// After writing a cumulative amount that strictly exceeds the old maximum
/// for `sender` and touching nothing else, the ledger's maximum is that
/// amount and `sender` is the unique leader.
proof fn lemma_new_top_bid_leads(pre: Auction, post: Auction, sender: Seq<char>, new_amount: u128)
    requires
        pre.well_formed(),
        post.bids.well_formed(),
        new_amount > pre.bids.max_amount(),
        post.bids.has_entry(sender),
        post.bids.amount_of(sender) == new_amount,
        forall|k: Seq<char>|
            k != sender ==> #[trigger] post.bids.amount_of(k) == pre.bids.amount_of(k),
        forall|k: Seq<char>|
            #[trigger] post.bids.has_entry(k) == (pre.bids.has_entry(k) || k == sender),
    ensures
        post.bids.max_amount() == new_amount,
        post.bids.is_leader(sender),
{
    lemma_max_amount_of(post.bids.entries@);
    assert forall|i: int| 0 <= i < post.bids.len() implies #[trigger] post.bids.entries@[i].amount
        <= new_amount by {
        post.bids.lemma_entry_at(i);
        let k = post.bids.key_at(i);
        if k != sender {
            assert(post.bids.has_entry(k));
            pre.bids.lemma_amount_le_max(k);
        }
    }
    let j = post.bids.index_of(sender);
    assert(post.bids.entries@[j].amount == new_amount);
    assert(post.bids.max_amount() == new_amount);
    assert forall|i: int|
        0 <= i < post.bids.len() && #[trigger] post.bids.amount_at(i)
            == post.bids.max_amount() implies crate::lex::lex_le(
        post.bids.key_at(i),
        sender,
    ) by {
        post.bids.lemma_entry_at(i);
        let k = post.bids.key_at(i);
        if k != sender {
            pre.bids.lemma_amount_le_max(k);
            assert(false);
        }
    }
}

/// The close transition. Closing is permitted exactly once, only to the
/// owner, and only while the auction is open; it flips the lifecycle flag and
/// touches nothing else. A second close fails with the lifecycle error, and a
/// non-owner's attempt fails with the authorization error.
pub open spec fn close_transition(
    pre: Auction,
    post: Auction,
    sender: Seq<char>,
    r: Result<(), ContractError>,
) -> bool {
    &&& (sender != pre.owner@ ==> post == pre && (r matches Err(
        ContractError::Unauthorized { owner },
    ) && owner == pre.owner))
    &&& (sender == pre.owner@ && !pre.active ==> post == pre && r matches Err(
        ContractError::AuctionInactive {  },
    ))
    &&& (sender == pre.owner@ && pre.active ==> {
        &&& r matches Ok(_)
        &&& !post.active
        &&& post.owner == pre.owner
        &&& post.auction_item_title == pre.auction_item_title
        &&& post.commission_percentage == pre.commission_percentage
        &&& post.bids == pre.bids
    })
}

/// The fund-retraction transition. Retraction is permitted exactly when the
/// auction is closed, the caller is not the recorded leader, and the caller's
/// entry holds a positive amount; then the entry is zeroed (not removed), a
/// transfer of the previously held amount to the chosen destination is
/// instructed, and every other entry — and the identity of the leader — is
/// untouched. A caller who never bid and a caller who already retracted fail
/// alike.
pub open spec fn retract_transition(
    pre: Auction,
    post: Auction,
    sender: Seq<char>,
    withdraw_address: Option<String>,
    r: Result<BankTransfer, ContractError>,
) -> bool {
    &&& (pre.active ==> post == pre && r matches Err(ContractError::AuctionActive {  }))
    &&& (!pre.active && pre.bids.is_leader(sender) ==> post == pre && r matches Err(
        ContractError::NothingToWithdraw {  },
    ))
    &&& (!pre.active && !pre.bids.is_leader(sender) && pre.bids.amount_of(sender) == 0 ==> post
        == pre && r matches Err(ContractError::NothingToWithdraw {  }))
    &&& (!pre.active && !pre.bids.is_leader(sender) && pre.bids.amount_of(sender) > 0 ==> {
        &&& r matches Ok(t) && t.amount.amount == pre.bids.amount_of(sender) && t.amount.denom@
            == spec_bid_denom() && t.to_address@ == (match withdraw_address {
            Some(w) => w@,
            None => sender,
        })
        &&& post.well_formed()
        &&& post.owner == pre.owner
        &&& post.auction_item_title == pre.auction_item_title
        &&& post.commission_percentage == pre.commission_percentage
        &&& post.active == pre.active
        &&& post.bids.amount_of(sender) == 0
        &&& forall|k: Seq<char>|
            k != sender ==> #[trigger] post.bids.amount_of(k) == pre.bids.amount_of(k)
        &&& forall|k: Seq<char>| #[trigger] post.bids.has_entry(k) == pre.bids.has_entry(k)
        &&& post.bids.len() == pre.bids.len()
        &&& post.bids.max_amount() == pre.bids.max_amount()
        &&& forall|k: Seq<char>| #[trigger] post.bids.is_leader(k) == pre.bids.is_leader(k)
    })
}

/// Retracts a non-winning participant's funds after the close: zeroes the
/// caller's entry and instructs a transfer of the previously held amount to
/// the destination (the caller when none is named). The ledger is zeroed
/// before the transfer is instructed, so the same stored amount can never be
/// referenced twice.
pub fn retract(auction: &mut Auction, sender: &String, withdraw_address: Option<String>) -> (r:
    Result<BankTransfer, ContractError>)
    requires
        old(auction).well_formed(),
    ensures
        retract_transition(*old(auction), *final(auction), sender@, withdraw_address, r),
{
    if auction.active {
        return Err(ContractError::AuctionActive {  });
    }
    let (highest_bidder_address, _highest_bid) = calc_highest_bid(&auction.bids);

    if *sender == highest_bidder_address {
        return Err(ContractError::NothingToWithdraw {  });
    }
    proof {
        if auction.bids.is_leader(sender@) {
            auction.bids.lemma_leader_unique(sender@, highest_bidder_address@);
        }
    }
    let withdrawal = auction.bids.get_amount(sender);
    if withdrawal == 0 {
        return Err(ContractError::NothingToWithdraw {  });
    }
    let to_address = match withdraw_address {
        Some(ref w) => w.clone(),
        None => sender.clone(),
    };
    auction.bids.set_amount(sender, 0);
    proof {
        lemma_retract_preserves_leader(
            *old(auction),
            *auction,
            sender@,
            highest_bidder_address@,
        );
    }
    Ok(BankTransfer { to_address, amount: Coin { denom: new_bid_denom(), amount: withdrawal } })
}

/// Zeroing a non-leader's positive entry changes neither the ledger maximum
/// nor who the leader is.
proof fn lemma_retract_preserves_leader(
    pre: Auction,
    post: Auction,
    sender: Seq<char>,
    leader: Seq<char>,
)
    requires
        pre.well_formed(),
        post.bids.well_formed(),
        pre.bids.is_leader(leader),
        leader != sender,
        pre.bids.amount_of(sender) > 0,
        post.bids.amount_of(sender) == 0,
        forall|k: Seq<char>|
            k != sender ==> #[trigger] post.bids.amount_of(k) == pre.bids.amount_of(k),
        forall|k: Seq<char>|
            #[trigger] post.bids.has_entry(k) == (pre.bids.has_entry(k) || k == sender),
    ensures
        post.bids.max_amount() == pre.bids.max_amount(),
        forall|k: Seq<char>| #[trigger] post.bids.is_leader(k) == pre.bids.is_leader(k),
{
    let max = pre.bids.max_amount();
    pre.bids.lemma_amount_le_max(sender);
    assert(max > 0);
    lemma_max_amount_of(post.bids.entries@);
    assert forall|i: int| 0 <= i < post.bids.len() implies #[trigger] post.bids.entries@[i].amount
        <= max by {
        post.bids.lemma_entry_at(i);
        let k = post.bids.key_at(i);
        if k != sender {
            pre.bids.lemma_amount_le_max(k);
        }
    }
    assert(post.bids.amount_of(leader) == max);
    let j = post.bids.index_of(leader);
    assert(post.bids.entries@[j].amount == max);
    assert(post.bids.max_amount() == max);
    assert forall|i: int|
        0 <= i < post.bids.len() && #[trigger] post.bids.amount_at(i)
            == post.bids.max_amount() implies crate::lex::lex_le(
        post.bids.key_at(i),
        leader,
    ) by {
        post.bids.lemma_entry_at(i);
        let k = post.bids.key_at(i);
        assert(k != sender);
        assert(pre.bids.amount_of(k) == max);
        let j2 = pre.bids.index_of(k);
        assert(pre.bids.amount_at(j2) == max);
        assert(crate::lex::lex_le(pre.bids.key_at(j2), leader));
    }
    assert(post.bids.is_leader(leader));
    assert forall|k: Seq<char>| #[trigger] post.bids.is_leader(k) == pre.bids.is_leader(k) by {
        if pre.bids.is_leader(k) {
            pre.bids.lemma_leader_unique(k, leader);
        }
        if post.bids.is_leader(k) {
            post.bids.lemma_leader_unique(k, leader);
        }
    }
}

/// Closes the auction: the one-way lifecycle transition from open to closed,
/// permitted only to the owner.
pub fn close(auction: &mut Auction, sender: &String) -> (r: Result<(), ContractError>)
    ensures
        close_transition(*old(auction), *final(auction), sender@, r),
{
    if !(*sender == auction.owner) {
        return Err(ContractError::Unauthorized { owner: auction.owner.clone() });
    }
    if !auction.active {
        return Err(ContractError::AuctionInactive {  });
    }
    auction.active = false;
    Ok(())
}

} // verus!
