//! Creation, the highest-bid scan, and the two dispatchers.
use vstd::prelude::*;

use crate::error::ContractError;
use crate::execute::{bid, bid_transition, close, close_transition, retract, retract_transition};
use crate::lex::{lex_le, lemma_lex_le_total, lemma_lex_le_transitive, str_lex_le};
use crate::msg::{Coin, ExecuteMsg, ExecuteReply, InstantiateMsg, QueryMsg, QueryReply};
use crate::query::{get_user_bid, status, status_post, user_bid_post};
use crate::spec_bid_denom;
use crate::state::{
    lemma_max_amount_of, Auction, BidEntry, BidLedger, DEFAULT_COMMISSION_ATOMICS,
    RATE_ONE_ATOMICS,
};

verus! {

/// A fresh owned copy of the auction denomination tag.
pub fn new_bid_denom() -> (s: String)
    ensures
        s@ == spec_bid_denom(),
{
    "ubtc".to_owned()
}

/// The amount attached in the auction denomination: the first coin whose
/// denomination is the auction's, or zero when none is attached. Amounts of
/// any other denomination are ignored.
pub open spec fn spec_attached_amount(funds: Seq<Coin>) -> u128
    decreases funds.len(),
{
    if funds.len() == 0 {
        0
    } else if funds[0].denom@ == spec_bid_denom() {
        funds[0].amount
    } else {
        spec_attached_amount(funds.skip(1))
    }
}

/// Extracts the attached amount in the auction denomination from a list of
/// attached coins.
pub fn attached_bid_amount(funds: &Vec<Coin>) -> (r: u128)
    ensures
        r == spec_attached_amount(funds@),
{
    let denom = new_bid_denom();
    let n = funds.len();
    let mut i: usize = 0;
    proof {
        assert(funds@.skip(0) =~= funds@);
    }
    while i < n
        invariant
            0 <= i <= n,
            n == funds@.len(),
            denom@ == spec_bid_denom(),
            spec_attached_amount(funds@) == spec_attached_amount(funds@.skip(i as int)),
        decreases n - i,
    {
        proof {
            assert(funds@.skip(i as int)[0] == funds@[i as int]);
        }
        if funds[i].denom == denom {
            return funds[i].amount;
        }
        proof {
            assert(funds@.skip(i as int).skip(1) =~= funds@.skip(i as int + 1));
        }
        i = i + 1;
    }
    0
}

/// Scans the ledger and returns the current leader: the entry with the
/// maximum amount, ties resolved towards the lexicographically greater
/// identity.
pub fn calc_highest_bid(bids: &BidLedger) -> (r: (String, Coin))
    requires
        bids.well_formed(),
        bids.len() > 0,
    ensures
        bids.is_leader(r.0@),
        r.1.amount == bids.max_amount(),
        r.1.amount == bids.amount_of(r.0@),
        r.1.denom@ == spec_bid_denom(),
{
    let n = bids.entries.len();
    let mut best: usize = 0;
    let mut i: usize = 1;
    while i < n
        invariant
            bids.well_formed(),
            n == bids.len(),
            1 <= i <= n,
            0 <= best < i,
            forall|j: int| 0 <= j < i ==> #[trigger] bids.amount_at(j) <= bids.amount_at(
                best as int,
            ),
            forall|j: int|
                0 <= j < i && #[trigger] bids.amount_at(j) == bids.amount_at(best as int)
                    ==> lex_le(bids.key_at(j), bids.key_at(best as int)),
        decreases n - i,
    {
        if bids.entries[i].amount > bids.entries[best].amount {
            best = i;
        } else if bids.entries[i].amount == bids.entries[best].amount {
            if str_lex_le(bids.entries[best].bidder.as_str(), bids.entries[i].bidder.as_str()) {
                proof {
                    assert forall|j: int|
                        0 <= j < i + 1 && #[trigger] bids.amount_at(j) == bids.amount_at(
                            i as int,
                        ) implies lex_le(bids.key_at(j), bids.key_at(i as int)) by {
                        if j < i {
                            lemma_lex_le_transitive(
                                bids.key_at(j),
                                bids.key_at(best as int),
                                bids.key_at(i as int),
                            );
                        }
                    }
                }
                best = i;
            } else {
                proof {
                    lemma_lex_le_total(bids.key_at(best as int), bids.key_at(i as int));
                }
            }
        }
        i = i + 1;
    }
    proof {
        lemma_max_amount_of(bids.entries@);
        bids.lemma_entry_at(best as int);
        let j = choose|j: int|
            0 <= j < bids.entries@.len() && #[trigger] bids.entries@[j].amount
                == bids.max_amount();
        assert(bids.amount_at(j) <= bids.amount_at(best as int));
        assert(bids.entries@[best as int].amount <= bids.max_amount());
        assert(bids.amount_at(best as int) == bids.max_amount());
    }
    let bidder = bids.entries[best].bidder.clone();
    let amount = bids.entries[best].amount;
    (bidder, Coin { denom: new_bid_denom(), amount })
}

/// What creation establishes: the configuration as chosen (owner and
/// commission rate defaulted when absent), the auction open, and the ledger
/// seeded with exactly the creator's entry holding the attached amount.
pub open spec fn instantiate_post(
    a: Auction,
    sender: Seq<char>,
    attached: u128,
    msg: InstantiateMsg,
) -> bool {
    &&& a.well_formed()
    &&& a.owner@ == (match msg.owner {
        Some(o) => o@,
        None => sender,
    })
    &&& a.auction_item_title == msg.auction_item_title
    &&& a.commission_percentage == (match msg.commission_percentage {
        Some(c) => c,
        None => DEFAULT_COMMISSION_ATOMICS,
    })
    &&& a.active
    &&& a.bids.len() == 1
    &&& a.bids.key_at(0) == sender
    &&& a.bids.amount_at(0) == attached
    &&& a.bids.amount_of(sender) == attached
    &&& a.bids.max_amount() == attached
    &&& a.bids.is_leader(sender)
}

/// Creates the auction: writes the configuration, opens the lifecycle, and
/// seeds the ledger with the creator's entry (possibly zero), the one entry
/// ever written outside of bidding and retraction.
pub fn instantiate(sender: &String, funds: &Vec<Coin>, msg: InstantiateMsg) -> (a: Auction)
    requires
        msg.commission_percentage matches Some(c) ==> c <= RATE_ONE_ATOMICS,
    ensures
        instantiate_post(a, sender@, spec_attached_amount(funds@), msg),
{
    let owner = match &msg.owner {
        Some(o) => o.clone(),
        None => sender.clone(),
    };
    let new_bid_funds = attached_bid_amount(funds);
    let commission_percentage = match msg.commission_percentage {
        Some(c) => c,
        None => DEFAULT_COMMISSION_ATOMICS,
    };
    let mut entries: Vec<BidEntry> = Vec::new();
    entries.push(BidEntry { bidder: sender.clone(), amount: new_bid_funds });
    let bids = BidLedger { entries };
    proof {
        bids.lemma_entry_at(0);
        lemma_max_amount_of(bids.entries@);
    }
    Auction {
        owner,
        auction_item_title: msg.auction_item_title,
        commission_percentage,
        active: true,
        bids,
    }
}

/// Routes a mutating call to its operation and wraps the acknowledgement.
pub fn execute(auction: &mut Auction, sender: &String, funds: &Vec<Coin>, msg: ExecuteMsg) -> (r:
    Result<ExecuteReply, ContractError>)
    requires
        old(auction).well_formed(),
        msg matches ExecuteMsg::Bid {  } && old(auction).active && spec_attached_amount(funds@) > 0
            ==> old(auction).bids.amount_of(sender@) + spec_attached_amount(funds@) <= u128::MAX,
    ensures
        msg matches ExecuteMsg::Bid {  } ==> {
            ||| r matches Ok(rep) && rep matches ExecuteReply::Bid { new_bid } && bid_transition(
                *old(auction),
                *final(auction),
                sender@,
                spec_attached_amount(funds@),
                Ok(new_bid),
            )
            ||| r matches Err(e) && bid_transition(
                *old(auction),
                *final(auction),
                sender@,
                spec_attached_amount(funds@),
                Err(e),
            )
        },
        msg matches ExecuteMsg::CloseBidding {  } ==> {
            ||| r matches Ok(rep) && rep matches ExecuteReply::CloseBidding {  }
                && close_transition(*old(auction), *final(auction), sender@, Ok(()))
            ||| r matches Err(e) && close_transition(
                *old(auction),
                *final(auction),
                sender@,
                Err(e),
            )
        },
        msg matches ExecuteMsg::RetractFunds { withdraw_address } ==> {
            ||| r matches Ok(rep) && rep matches ExecuteReply::RetractFunds { transfer }
                && retract_transition(
                *old(auction),
                *final(auction),
                sender@,
                withdraw_address,
                Ok(transfer),
            )
            ||| r matches Err(e) && retract_transition(
                *old(auction),
                *final(auction),
                sender@,
                withdraw_address,
                Err(e),
            )
        },
{
    match msg {
        ExecuteMsg::Bid {  } => match bid(auction, sender, funds) {
            Ok(new_bid) => Ok(ExecuteReply::Bid { new_bid }),
            Err(e) => Err(e),
        },
        ExecuteMsg::CloseBidding {  } => match close(auction, sender) {
            Ok(_) => Ok(ExecuteReply::CloseBidding {  }),
            Err(e) => Err(e),
        },
        ExecuteMsg::RetractFunds { withdraw_address } => match retract(
            auction,
            sender,
            withdraw_address,
        ) {
            Ok(transfer) => Ok(ExecuteReply::RetractFunds { transfer }),
            Err(e) => Err(e),
        },
    }
}

/// Routes a read-only call to its query and wraps the answer.
pub fn query(auction: &Auction, msg: QueryMsg) -> (r: QueryReply)
    requires
        auction.well_formed(),
    ensures
        msg matches QueryMsg::GetAuctionStatus {  } ==> r matches QueryReply::AuctionStatus {
            status,
        } && status_post(*auction, status),
        msg matches QueryMsg::GetUserBid { bidder } ==> r matches QueryReply::UserBid { bid }
            && user_bid_post(*auction, bidder@, bid),
{
    match msg {
        QueryMsg::GetAuctionStatus {  } => QueryReply::AuctionStatus {
            status: status(auction),
        },
        QueryMsg::GetUserBid { bidder } => QueryReply::UserBid {
            bid: get_user_bid(auction, bidder),
        },
    }
}

} // verus!
