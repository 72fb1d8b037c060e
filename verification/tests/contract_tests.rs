//! Scenario tests for the boundary rules, the lifecycle gates, the
//! retraction accounting, the tie-break, and the denomination filter.
use auction::contract::{attached_bid_amount, calc_highest_bid, instantiate};
use auction::error::ContractError;
use auction::execute::{bid, close, retract};
use auction::lex::str_lex_le;
use auction::msg::{Coin, InstantiateMsg};
use auction::query::{get_user_bid, status};
use auction::state::{Auction, BidEntry, BidLedger, DEFAULT_COMMISSION_ATOMICS, RATE_ONE_ATOMICS};

fn coins(amount: u128, denom: &str) -> Vec<Coin> {
    vec![Coin { denom: denom.to_string(), amount }]
}

fn new_auction(creator: &str, seed: u128) -> Auction {
    instantiate(
        &creator.to_string(),
        &coins(seed, "ubtc"),
        InstantiateMsg {
            owner: None,
            auction_item_title: "Test Auction".to_string(),
            commission_percentage: None,
        },
    )
}

#[test]
fn highest_bid_is_monotonic() {
    let mut auction = new_auction("sender", 100_000);
    let mut last_highest: u128 = 0;
    let rounds: Vec<(&str, u128)> = vec![
        ("bidder", 150_000),
        ("bidder_two", 120_000),
        ("sender", 60_000),
        ("bidder", 1),
        ("bidder_two", 200_000),
    ];
    for (sender, amount) in rounds {
        let _ = bid(&mut auction, &sender.to_string(), &coins(amount, "ubtc"));
        let highest = status(&auction).highest_bid.bid.amount;
        assert!(highest >= last_highest);
        last_highest = highest;
    }
    assert_eq!(last_highest, 200_000);
}

#[test]
fn equal_candidate_is_rejected() {
    let mut auction = new_auction("sender", 100_000);
    let r = bid(&mut auction, &"bidder".to_string(), &coins(150_000, "ubtc"));
    assert!(r.is_ok());

    // The creator stands at 100,000; 50,000 more makes exactly the leader's
    // 150,000, which must be rejected as too low.
    let r = bid(&mut auction, &"sender".to_string(), &coins(50_000, "ubtc"));
    assert_eq!(
        r,
        Err(ContractError::BidTooLow {
            minimum_bid_amount: 150_000,
            bid_denom: "ubtc".to_string(),
            current_bid_amount: 100_000,
        })
    );
    assert_eq!(get_user_bid(&auction, "sender".to_string()).bid.amount, 100_000);
}

#[test]
fn leader_raising_own_bid_succeeds() {
    let mut auction = new_auction("sender", 100_000);
    let r = bid(&mut auction, &"sender".to_string(), &coins(1, "ubtc"));
    let new_bid = r.unwrap();
    assert_eq!(new_bid.amount, 100_001);
    let s = status(&auction);
    assert_eq!(s.highest_bid.bidder, "sender".to_string());
    assert_eq!(s.highest_bid.bid.amount, 100_001);
    assert_eq!(s.bidders_count, 1);
}

#[test]
fn bid_after_close_fails_inactive() {
    let mut auction = new_auction("sender", 100_000);
    let r = close(&mut auction, &"sender".to_string());
    assert!(r.is_ok());

    let r = bid(&mut auction, &"bidder".to_string(), &coins(500_000, "ubtc"));
    assert_eq!(r, Err(ContractError::AuctionInactive {}));

    let s = status(&auction);
    assert_eq!(s.bidders_count, 1);
    assert_eq!(s.highest_bid.bid.amount, 100_000);
    assert_eq!(get_user_bid(&auction, "bidder".to_string()).bid.amount, 0);
}

#[test]
fn close_twice_fails_and_stays_closed() {
    let mut auction = new_auction("sender", 100_000);
    assert!(close(&mut auction, &"sender".to_string()).is_ok());

    let r = close(&mut auction, &"sender".to_string());
    assert_eq!(r, Err(ContractError::AuctionInactive {}));
    assert_eq!(status(&auction).active, false);
}

#[test]
fn non_owner_close_is_unauthorized() {
    let mut auction = new_auction("sender", 100_000);
    let r = close(&mut auction, &"bidder".to_string());
    assert_eq!(r, Err(ContractError::Unauthorized { owner: "sender".to_string() }));
    assert_eq!(status(&auction).active, true);
}

#[test]
fn retract_while_open_fails_active() {
    let mut auction = new_auction("sender", 100_000);
    let r = bid(&mut auction, &"bidder".to_string(), &coins(150_000, "ubtc"));
    assert!(r.is_ok());
    let r = retract(&mut auction, &"sender".to_string(), None);
    assert_eq!(r, Err(ContractError::AuctionActive {}));
    assert_eq!(get_user_bid(&auction, "sender".to_string()).bid.amount, 100_000);
}

#[test]
fn leader_retract_fails_regardless_of_order() {
    let mut auction = new_auction("sender", 100_000);
    assert!(bid(&mut auction, &"bidder".to_string(), &coins(150_000, "ubtc")).is_ok());
    assert!(bid(&mut auction, &"bidder_two".to_string(), &coins(250_000, "ubtc")).is_ok());
    assert!(close(&mut auction, &"sender".to_string()).is_ok());

    // Before any retraction.
    let r = retract(&mut auction, &"bidder_two".to_string(), None);
    assert_eq!(r, Err(ContractError::NothingToWithdraw {}));

    // After another participant retracted.
    let r = retract(&mut auction, &"bidder".to_string(), None);
    assert!(r.is_ok());
    let r = retract(&mut auction, &"bidder_two".to_string(), None);
    assert_eq!(r, Err(ContractError::NothingToWithdraw {}));

    // And after every other participant retracted.
    let r = retract(&mut auction, &"sender".to_string(), None);
    assert!(r.is_ok());
    let r = retract(&mut auction, &"bidder_two".to_string(), None);
    assert_eq!(r, Err(ContractError::NothingToWithdraw {}));
}

#[test]
fn retract_is_single_shot() {
    let mut auction = new_auction("sender", 100_000);
    assert!(bid(&mut auction, &"bidder".to_string(), &coins(150_000, "ubtc")).is_ok());
    assert!(close(&mut auction, &"sender".to_string()).is_ok());

    let r = retract(&mut auction, &"sender".to_string(), None);
    let transfer = r.unwrap();
    assert_eq!(transfer.to_address, "sender".to_string());
    assert_eq!(transfer.amount.amount, 100_000);
    assert_eq!(transfer.amount.denom, "ubtc".to_string());
    assert_eq!(get_user_bid(&auction, "sender".to_string()).bid.amount, 0);
    // The entry is zeroed, not removed.
    assert_eq!(status(&auction).bidders_count, 2);

    let r = retract(&mut auction, &"sender".to_string(), None);
    assert_eq!(r, Err(ContractError::NothingToWithdraw {}));
}

#[test]
fn retract_to_named_destination() {
    let mut auction = new_auction("sender", 100_000);
    assert!(bid(&mut auction, &"bidder".to_string(), &coins(150_000, "ubtc")).is_ok());
    assert!(close(&mut auction, &"sender".to_string()).is_ok());

    let r = retract(&mut auction, &"sender".to_string(), Some("treasury".to_string()));
    let transfer = r.unwrap();
    assert_eq!(transfer.to_address, "treasury".to_string());
    assert_eq!(transfer.amount.amount, 100_000);
}

#[test]
fn retract_without_history_fails() {
    let mut auction = new_auction("sender", 100_000);
    assert!(bid(&mut auction, &"bidder".to_string(), &coins(150_000, "ubtc")).is_ok());
    assert!(close(&mut auction, &"sender".to_string()).is_ok());

    let r = retract(&mut auction, &"stranger".to_string(), None);
    assert_eq!(r, Err(ContractError::NothingToWithdraw {}));
    assert_eq!(status(&auction).bidders_count, 2);
}

#[test]
fn user_bid_without_history_is_zero() {
    let auction = new_auction("sender", 100_000);
    let resp = get_user_bid(&auction, "stranger".to_string());
    assert_eq!(resp.bidder, "stranger".to_string());
    assert_eq!(resp.bid.amount, 0);
    assert_eq!(resp.bid.denom, "ubtc".to_string());
}

#[test]
fn zero_attachment_is_invalid() {
    let mut auction = new_auction("sender", 100_000);

    let r = bid(&mut auction, &"bidder".to_string(), &vec![]);
    assert_eq!(r, Err(ContractError::InvalidBidAmount {}));

    let r = bid(&mut auction, &"bidder".to_string(), &coins(0, "ubtc"));
    assert_eq!(r, Err(ContractError::InvalidBidAmount {}));

    // Value in another denomination does not count as a bid.
    let r = bid(&mut auction, &"bidder".to_string(), &coins(999_000, "uatom"));
    assert_eq!(r, Err(ContractError::InvalidBidAmount {}));
}

#[test]
fn other_denominations_are_ignored() {
    let funds = vec![
        Coin { denom: "uatom".to_string(), amount: 999_000 },
        Coin { denom: "ubtc".to_string(), amount: 150_000 },
        Coin { denom: "ubtc".to_string(), amount: 1 },
    ];
    assert_eq!(attached_bid_amount(&funds), 150_000);

    let mut auction = new_auction("sender", 100_000);
    let r = bid(&mut auction, &"bidder".to_string(), &funds);
    assert_eq!(r.unwrap().amount, 150_000);
}

#[test]
fn empty_seed_starts_at_zero() {
    let auction = new_auction("sender", 0);
    let s = status(&auction);
    assert_eq!(s.bidders_count, 1);
    assert_eq!(s.highest_bid.bidder, "sender".to_string());
    assert_eq!(s.highest_bid.bid.amount, 0);
}

#[test]
fn commission_rate_boundary_is_kept() {
    let auction = instantiate(
        &"sender".to_string(),
        &coins(1, "ubtc"),
        InstantiateMsg {
            owner: None,
            auction_item_title: "Test Auction".to_string(),
            commission_percentage: Some(RATE_ONE_ATOMICS),
        },
    );
    assert_eq!(status(&auction).commission_percentage, RATE_ONE_ATOMICS);
    assert_eq!(DEFAULT_COMMISSION_ATOMICS, 50_000_000_000_000_000);
}

fn ledger(entries: Vec<(&str, u128)>) -> BidLedger {
    BidLedger {
        entries: entries
            .into_iter()
            .map(|(bidder, amount)| BidEntry { bidder: bidder.to_string(), amount })
            .collect(),
    }
}

#[test]
fn tie_breaks_towards_greater_identity() {
    let bids = ledger(vec![("alice", 5), ("bob", 5), ("carl", 3)]);
    let (bidder, highest) = calc_highest_bid(&bids);
    assert_eq!(bidder, "bob".to_string());
    assert_eq!(highest.amount, 5);

    // The same entries in another storage order give the same leader.
    let bids = ledger(vec![("carl", 3), ("bob", 5), ("alice", 5)]);
    let (bidder, highest) = calc_highest_bid(&bids);
    assert_eq!(bidder, "bob".to_string());
    assert_eq!(highest.amount, 5);
}

#[test]
fn lexicographic_comparison() {
    assert!(str_lex_le("abc", "abd"));
    assert!(!str_lex_le("abd", "abc"));
    assert!(str_lex_le("ab", "abc"));
    assert!(!str_lex_le("abc", "ab"));
    assert!(str_lex_le("abc", "abc"));
    assert!(str_lex_le("", "a"));
    assert!(str_lex_le("Z", "a"));
}
