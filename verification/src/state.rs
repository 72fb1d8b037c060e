//! Durable auction state, modelled as plain values: the write-once
//! configuration, the lifecycle flag, and the bid ledger mapping each
//! participant identity to its cumulative outstanding amount.
use vstd::prelude::*;

use crate::lex::{lex_le, lemma_lex_le_antisymmetric};

verus! {

/// One unit of the fixed-point scale used for the commission rate: rates are
/// stored as integer atomics with eighteen decimal places, so this atomics
/// value stands for the rate 1.0.
pub const RATE_ONE_ATOMICS: u128 = 1_000_000_000_000_000_000;

/// The commission rate recorded when the creator does not choose one: 0.05.
pub const DEFAULT_COMMISSION_ATOMICS: u128 = 50_000_000_000_000_000;

/// One ledger entry: a participant identity and its cumulative outstanding
/// bid amount in the auction denomination.
pub struct BidEntry {
    pub bidder: String,
    pub amount: u128,
}

/// The bid ledger: a mapping from participant identity to cumulative amount,
/// held as a vector of entries with pairwise distinct identities. Entries are
/// never removed; a retraction zeroes an entry instead.
pub struct BidLedger {
    pub entries: Vec<BidEntry>,
}

/// The greatest amount held by any entry of `s` (zero when `s` is empty).
pub open spec fn max_amount_of(s: Seq<BidEntry>) -> u128
    decreases s.len(),
{
    if s.len() == 0 {
        0
    } else {
        let m = max_amount_of(s.drop_last());
        if s.last().amount >= m {
            s.last().amount
        } else {
            m
        }
    }
}

/// The maximum of a sequence of entries bounds every entry and, when the
/// sequence is not empty, is attained by one of them.
pub proof fn lemma_max_amount_of(s: Seq<BidEntry>)
    ensures
        forall|i: int| 0 <= i < s.len() ==> #[trigger] s[i].amount <= max_amount_of(s),
        s.len() > 0 ==> exists|i: int|
            0 <= i < s.len() && #[trigger] s[i].amount == max_amount_of(s),
    decreases s.len(),
{
    if s.len() > 0 {
        lemma_max_amount_of(s.drop_last());
        assert forall|i: int| 0 <= i < s.len() implies #[trigger] s[i].amount <= max_amount_of(
            s,
        ) by {
            if i < s.len() - 1 {
                assert(s.drop_last()[i] == s[i]);
            }
        }
        if s.last().amount >= max_amount_of(s.drop_last()) {
            assert(s[s.len() - 1].amount == max_amount_of(s));
        } else {
            let i = choose|i: int|
                0 <= i < s.drop_last().len() && #[trigger] s.drop_last()[i].amount
                    == max_amount_of(s.drop_last());
            assert(s[i].amount == max_amount_of(s));
        }
    }
}

impl BidLedger {
    /// Number of recorded identities (retracted entries included).
    pub open spec fn len(self) -> nat {
        self.entries@.len()
    }

    /// The identity of the entry at index `i`.
    pub open spec fn key_at(self, i: int) -> Seq<char> {
        self.entries@[i].bidder@
    }

    /// The amount of the entry at index `i`.
    pub open spec fn amount_at(self, i: int) -> u128 {
        self.entries@[i].amount
    }

    /// Identities are pairwise distinct: each participant has one entry.
    pub open spec fn well_formed(self) -> bool {
        forall|i: int, j: int|
            0 <= i < j < self.len() ==> #[trigger] self.key_at(i) != #[trigger] self.key_at(j)
    }

    /// Does identity `k` have a recorded entry (zeroed entries included)?
    pub open spec fn has_entry(self, k: Seq<char>) -> bool {
        exists|i: int| 0 <= i < self.len() && #[trigger] self.key_at(i) == k
    }

    /// Index of identity `k`'s entry (meaningful only when `has_entry(k)`).
    pub open spec fn index_of(self, k: Seq<char>) -> int {
        choose|i: int| 0 <= i < self.len() && #[trigger] self.key_at(i) == k
    }

    /// The cumulative amount recorded for `k`; an identity with no entry is
    /// defined to hold zero.
    pub open spec fn amount_of(self, k: Seq<char>) -> u128 {
        if self.has_entry(k) {
            self.amount_at(self.index_of(k))
        } else {
            0
        }
    }

    /// The greatest recorded amount (zero for an empty ledger).
    pub open spec fn max_amount(self) -> u128 {
        max_amount_of(self.entries@)
    }

    /// Identity `k` is the current leader: it holds the greatest recorded
    /// amount, and every entry tying that amount is lexicographically at most
    /// `k` (the greater identity wins a tie).
    pub open spec fn is_leader(self, k: Seq<char>) -> bool {
        &&& self.has_entry(k)
        &&& self.amount_of(k) == self.max_amount()
        &&& forall|i: int|
            0 <= i < self.len() && #[trigger] self.amount_at(i) == self.max_amount() ==> lex_le(
                self.key_at(i),
                k,
            )
    }

    /// In a well-formed ledger, the entry at index `i` is the entry of its
    /// own identity: lookups through `amount_of` agree with it.
    pub proof fn lemma_entry_at(self, i: int)
        requires
            self.well_formed(),
            0 <= i < self.len(),
        ensures
            self.has_entry(self.key_at(i)),
            self.index_of(self.key_at(i)) == i,
            self.amount_of(self.key_at(i)) == self.amount_at(i),
    {
        let k = self.key_at(i);
        assert(self.has_entry(k));
        let j = self.index_of(k);
        assert(0 <= j < self.len() && self.key_at(j) == k);
        if i != j {
            assert(self.key_at(i) != self.key_at(j));
        }
    }

    /// Every recorded amount is bounded by the ledger maximum.
    pub proof fn lemma_amount_le_max(self, k: Seq<char>)
        ensures
            self.amount_of(k) <= self.max_amount(),
    {
        lemma_max_amount_of(self.entries@);
        if self.has_entry(k) {
            let i = self.index_of(k);
            assert(self.entries@[i].amount <= self.max_amount());
        }
    }

    /// Looks an identity's cumulative amount up; an identity with no entry
    /// holds zero.
    pub fn get_amount(&self, bidder: &String) -> (r: u128)
        requires
            self.well_formed(),
        ensures
            r == self.amount_of(bidder@),
    {
        let n = self.entries.len();
        let mut i: usize = 0;
        while i < n
            invariant
                self.well_formed(),
                0 <= i <= n,
                n == self.len(),
                forall|j: int| 0 <= j < i ==> #[trigger] self.key_at(j) != bidder@,
            decreases n - i,
        {
            if self.entries[i].bidder == *bidder {
                proof {
                    self.lemma_entry_at(i as int);
                }
                return self.entries[i].amount;
            }
            i = i + 1;
        }
        assert(!self.has_entry(bidder@));
        0
    }

    /// Writes `amount` as the cumulative amount of `bidder`, overwriting the
    /// entry in place or appending a fresh one. Every other entry, and the
    /// order of entries, is untouched.
    pub fn set_amount(&mut self, bidder: &String, amount: u128)
        requires
            old(self).well_formed(),
        ensures
            final(self).well_formed(),
            final(self).has_entry(bidder@),
            final(self).amount_of(bidder@) == amount,
            forall|k: Seq<char>|
                k != bidder@ ==> #[trigger] final(self).amount_of(k) == old(self).amount_of(k),
            forall|k: Seq<char>|
                #[trigger] final(self).has_entry(k) == (old(self).has_entry(k) || k == bidder@),
            final(self).len() == old(self).len() + (if old(self).has_entry(bidder@) {
                0int
            } else {
                1int
            }),
            forall|i: int| 0 <= i < old(self).len() ==> final(self).key_at(i) == old(
                self,
            ).key_at(i),
    {
        let n = self.entries.len();
        let mut i: usize = 0;
        while i < n
            invariant
                *self == *old(self),
                self.well_formed(),
                0 <= i <= n,
                n == self.len(),
                forall|j: int| 0 <= j < i ==> #[trigger] self.key_at(j) != bidder@,
            decreases n - i,
        {
            if self.entries[i].bidder == *bidder {
                proof {
                    self.lemma_entry_at(i as int);
                }
                let ghost prev = *self;
                let entry = &mut self.entries[i];
                entry.amount = amount;
                proof {
                    assert(self.entries@ =~= prev.entries@.update(
                        i as int,
                        BidEntry { bidder: prev.entries@[i as int].bidder, amount },
                    ));
                    assert(forall|j: int|
                        0 <= j < self.len() ==> #[trigger] self.key_at(j) == prev.key_at(j));
                    self.lemma_updated_entry(prev, i as int, bidder@, amount);
                    assert(prev.has_entry(bidder@));
                }
                return ;
            }
            i = i + 1;
        }
        let ghost prev = *self;
        self.entries.push(BidEntry { bidder: bidder.clone(), amount });
        proof {
            assert(forall|j: int|
                0 <= j < prev.len() ==> #[trigger] self.key_at(j) == prev.key_at(j));
            assert(self.key_at(prev.len() as int) == bidder@);
            self.lemma_appended_entry(prev, bidder@, amount);
        }
    }

    /// After overwriting the amount at the entry of `k` (index `i`), lookups
    /// of `k` see the new amount and every other identity is unchanged.
    proof fn lemma_updated_entry(self, prev: Self, i: int, k: Seq<char>, amount: u128)
        requires
            prev.well_formed(),
            0 <= i < prev.len(),
            prev.key_at(i) == k,
            self.len() == prev.len(),
            forall|j: int| 0 <= j < self.len() ==> #[trigger] self.key_at(j) == prev.key_at(j),
            forall|j: int|
                0 <= j < self.len() && j != i ==> #[trigger] self.amount_at(j) == prev.amount_at(
                    j,
                ),
            self.amount_at(i) == amount,
        ensures
            self.well_formed(),
            self.has_entry(k),
            self.amount_of(k) == amount,
            forall|k2: Seq<char>|
                k2 != k ==> #[trigger] self.amount_of(k2) == prev.amount_of(k2),
            forall|k2: Seq<char>| #[trigger] self.has_entry(k2) == prev.has_entry(k2),
    {
        assert(self.key_at(i) == k);
        assert(self.has_entry(k));
        self.lemma_entry_at(i);
        assert forall|k2: Seq<char>| #[trigger] self.has_entry(k2) == prev.has_entry(k2) by {
            if self.has_entry(k2) {
                let j = choose|j: int| 0 <= j < self.len() && #[trigger] self.key_at(j) == k2;
                assert(prev.key_at(j) == k2);
            }
            if prev.has_entry(k2) {
                let j = choose|j: int| 0 <= j < prev.len() && #[trigger] prev.key_at(j) == k2;
                assert(self.key_at(j) == k2);
            }
        }
        assert forall|k2: Seq<char>| k2 != k implies #[trigger] self.amount_of(k2)
            == prev.amount_of(k2) by {
            if prev.has_entry(k2) {
                let j = choose|j: int| 0 <= j < prev.len() && #[trigger] prev.key_at(j) == k2;
                prev.lemma_entry_at(j);
                self.lemma_entry_at(j);
                assert(j != i);
            }
        }
    }

    /// After appending a fresh entry for `k`, lookups of `k` see its amount
    /// and every other identity is unchanged.
    proof fn lemma_appended_entry(self, prev: Self, k: Seq<char>, amount: u128)
        requires
            prev.well_formed(),
            !prev.has_entry(k),
            self.len() == prev.len() + 1,
            forall|j: int| 0 <= j < prev.len() ==> #[trigger] self.key_at(j) == prev.key_at(j),
            forall|j: int|
                0 <= j < prev.len() ==> #[trigger] self.amount_at(j) == prev.amount_at(j),
            self.key_at(prev.len() as int) == k,
            self.amount_at(prev.len() as int) == amount,
        ensures
            self.well_formed(),
            self.has_entry(k),
            self.amount_of(k) == amount,
            forall|k2: Seq<char>|
                k2 != k ==> #[trigger] self.amount_of(k2) == prev.amount_of(k2),
            forall|k2: Seq<char>|
                #[trigger] self.has_entry(k2) == (prev.has_entry(k2) || k2 == k),
    {
        let last = prev.len() as int;
        assert forall|i: int, j: int| 0 <= i < j < self.len() implies #[trigger] self.key_at(i)
            != #[trigger] self.key_at(j) by {
            if j < last {
                assert(prev.key_at(i) != prev.key_at(j));
            } else {
                assert(self.key_at(j) == k);
                if prev.key_at(i) == k {
                    assert(prev.has_entry(k));
                }
            }
        }
        assert(self.has_entry(k));
        self.lemma_entry_at(last);
        assert forall|k2: Seq<char>| #[trigger] self.has_entry(k2) == (prev.has_entry(k2) || k2
            == k) by {
            if self.has_entry(k2) && k2 != k {
                let j = choose|j: int| 0 <= j < self.len() && #[trigger] self.key_at(j) == k2;
                assert(j != last);
                assert(prev.key_at(j) == k2);
            }
            if prev.has_entry(k2) {
                let j = choose|j: int| 0 <= j < prev.len() && #[trigger] prev.key_at(j) == k2;
                assert(self.key_at(j) == k2);
            }
        }
        assert forall|k2: Seq<char>| k2 != k implies #[trigger] self.amount_of(k2)
            == prev.amount_of(k2) by {
            if prev.has_entry(k2) {
                let j = choose|j: int| 0 <= j < prev.len() && #[trigger] prev.key_at(j) == k2;
                prev.lemma_entry_at(j);
                self.lemma_entry_at(j);
            }
        }
    }

    /// The ledger has at most one leader.
    pub proof fn lemma_leader_unique(self, a: Seq<char>, b: Seq<char>)
        requires
            self.is_leader(a),
            self.is_leader(b),
        ensures
            a == b,
    {
        let i = self.index_of(a);
        let j = self.index_of(b);
        assert(self.amount_at(i) == self.max_amount());
        assert(self.amount_at(j) == self.max_amount());
        assert(lex_le(self.key_at(i), b));
        assert(lex_le(self.key_at(j), a));
        lemma_lex_le_antisymmetric(a, b);
    }
}

/// The whole durable state of one auction: the write-once configuration
/// (owner, item title, commission rate), the lifecycle flag, and the ledger.
pub struct Auction {
    pub owner: String,
    pub auction_item_title: String,
    pub commission_percentage: u128,
    pub active: bool,
    pub bids: BidLedger,
}

impl Auction {
    /// State invariant: the ledger is well formed and never empty (creation
    /// seeds it with the creator's entry), and the commission rate is a
    /// fraction in [0, 1].
    pub open spec fn well_formed(self) -> bool {
        &&& self.bids.well_formed()
        &&& self.bids.len() >= 1
        &&& self.commission_percentage <= RATE_ONE_ATOMICS
    }
}

} // verus!
