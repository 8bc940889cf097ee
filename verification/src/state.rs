use vstd::prelude::*;

verus! {

/// An amount of some currency denomination.
#[derive(Clone, Debug, PartialEq, Eq)]
pub struct Coin {
    pub denom: String,
    pub amount: u128,
}

/// The auction's configuration and status: the singleton record of the
/// registry. `active` is the only field that is ever mutated after
/// creation; it flips from true to false exactly once, on close.
#[derive(Clone, Debug, PartialEq, Eq)]
pub struct BaseInfo {
    pub owner: String,
    pub commodity: String,
    pub bidding_denom: String,
    /// Commission rate as a fixed-point fraction of one, in atomic units
    /// of `crate::ATOMICS_PER_UNIT`; always at most one whole unit.
    pub commission: u128,
    pub active: bool,
}

/// The single most recent bid that became the leader: the bidder and the
/// gross amount of that one triggering bid (not the bidder's cumulative
/// escrow).
#[derive(Clone, Debug, PartialEq, Eq)]
pub struct Bid {
    pub address: String,
    pub bid: Coin,
}

/// One bidder's cumulative escrowed amount, net of commission. A consumed
/// entry is kept with amount zero, so the funds can never be paid twice.
#[derive(Clone, Debug, PartialEq, Eq)]
pub struct EscrowEntry {
    pub bidder: String,
    pub amount: u128,
}

/// The cumulative escrow recorded for `who`: the amount of the first
/// entry carrying that bidder, and zero if there is none.
pub open spec fn escrow_in(entries: Seq<EscrowEntry>, who: Seq<char>) -> u128
    decreases entries.len(),
{
    if entries.len() == 0 {
        0
    } else if entries[0].bidder@ == who {
        entries[0].amount
    } else {
        escrow_in(entries.drop_first(), who)
    }
}

/// No two entries carry the same bidder, so `escrow_in` reads the unique
/// entry of each bidder that has one.
pub open spec fn bidders_distinct(entries: Seq<EscrowEntry>) -> bool {
    forall|i: int, j: int|
        0 <= i < j < entries.len() ==> entries[i].bidder@ != entries[j].bidder@
}

/// A bidder that occurs in no entry has escrow zero.
pub proof fn lemma_escrow_absent(entries: Seq<EscrowEntry>, who: Seq<char>)
    requires
        forall|j: int| 0 <= j < entries.len() ==> entries[j].bidder@ != who,
    ensures
        escrow_in(entries, who) == 0,
    decreases entries.len(),
{
    if entries.len() > 0 {
        lemma_escrow_absent(entries.drop_first(), who);
    }
}

/// If the first entry of `who` stands at index `i`, the recorded escrow
/// is that entry's amount.
pub proof fn lemma_escrow_at(entries: Seq<EscrowEntry>, who: Seq<char>, i: int)
    requires
        0 <= i < entries.len(),
        entries[i].bidder@ == who,
        forall|j: int| 0 <= j < i ==> entries[j].bidder@ != who,
    ensures
        escrow_in(entries, who) == entries[i].amount,
    decreases i,
{
    if i > 0 {
        lemma_escrow_at(entries.drop_first(), who, i - 1);
    }
}

/// Replacing the entry at index `i` by one of the same bidder changes
/// that bidder's escrow to the new amount and no other bidder's.
pub proof fn lemma_escrow_update(entries: Seq<EscrowEntry>, i: int, e: EscrowEntry)
    requires
        bidders_distinct(entries),
        0 <= i < entries.len(),
        entries[i].bidder@ == e.bidder@,
    ensures
        bidders_distinct(entries.update(i, e)),
        escrow_in(entries.update(i, e), e.bidder@) == e.amount,
        forall|w: Seq<char>|
            w != e.bidder@ ==> escrow_in(entries.update(i, e), w) == escrow_in(entries, w),
    decreases i,
{
    let s2 = entries.update(i, e);
    assert forall|a: int, b: int| 0 <= a < b < s2.len() implies s2[a].bidder@ != s2[b].bidder@ by {
        assert(entries[a].bidder@ != entries[b].bidder@);
    }
    if i == 0 {
        assert(s2.drop_first() =~= entries.drop_first());
        assert forall|w: Seq<char>| w != e.bidder@ implies escrow_in(s2, w) == escrow_in(
            entries,
            w,
        ) by {
            assert(escrow_in(s2, w) == escrow_in(s2.drop_first(), w));
            assert(escrow_in(entries, w) == escrow_in(entries.drop_first(), w));
        }
    } else {
        let d2 = entries.drop_first().update(i - 1, e);
        assert(s2.drop_first() =~= d2);
        assert forall|a: int, b: int|
            0 <= a < b < entries.drop_first().len() implies entries.drop_first()[a].bidder@
            != entries.drop_first()[b].bidder@ by {
            assert(entries[a + 1].bidder@ != entries[b + 1].bidder@);
        }
        lemma_escrow_update(entries.drop_first(), i - 1, e);
        assert(entries[0].bidder@ != e.bidder@);
        assert(escrow_in(s2, e.bidder@) == escrow_in(d2, e.bidder@));
        assert forall|w: Seq<char>| w != e.bidder@ implies escrow_in(s2, w) == escrow_in(
            entries,
            w,
        ) by {
            if entries[0].bidder@ != w {
                assert(escrow_in(s2, w) == escrow_in(d2, w));
                assert(escrow_in(d2, w) == escrow_in(entries.drop_first(), w));
                assert(escrow_in(entries, w) == escrow_in(entries.drop_first(), w));
            }
        }
    }
}

/// Appending an entry of a bidder that occurs in no existing entry sets
/// that bidder's escrow to the new amount and no other bidder's.
pub proof fn lemma_escrow_push(entries: Seq<EscrowEntry>, e: EscrowEntry)
    requires
        bidders_distinct(entries),
        forall|j: int| 0 <= j < entries.len() ==> entries[j].bidder@ != e.bidder@,
    ensures
        bidders_distinct(entries.push(e)),
        escrow_in(entries.push(e), e.bidder@) == e.amount,
        forall|w: Seq<char>|
            w != e.bidder@ ==> escrow_in(entries.push(e), w) == escrow_in(entries, w),
    decreases entries.len(),
{
    let s2 = entries.push(e);
    assert forall|a: int, b: int| 0 <= a < b < s2.len() implies s2[a].bidder@ != s2[b].bidder@ by {
        if b < entries.len() {
            assert(entries[a].bidder@ != entries[b].bidder@);
        } else {
            assert(entries[a].bidder@ != e.bidder@);
        }
    }
    if entries.len() == 0 {
        assert(escrow_in(s2, e.bidder@) == e.amount);
        assert forall|w: Seq<char>| w != e.bidder@ implies escrow_in(s2, w) == escrow_in(
            entries,
            w,
        ) by {
            assert(s2.drop_first() =~= entries);
        }
    } else {
        let d2 = entries.drop_first().push(e);
        assert(s2.drop_first() =~= d2);
        assert forall|a: int, b: int|
            0 <= a < b < entries.drop_first().len() implies entries.drop_first()[a].bidder@
            != entries.drop_first()[b].bidder@ by {
            assert(entries[a + 1].bidder@ != entries[b + 1].bidder@);
        }
        lemma_escrow_push(entries.drop_first(), e);
        assert(entries[0].bidder@ != e.bidder@);
        assert(escrow_in(s2, e.bidder@) == escrow_in(d2, e.bidder@));
        assert forall|w: Seq<char>| w != e.bidder@ implies escrow_in(s2, w) == escrow_in(
            entries,
            w,
        ) by {
            if entries[0].bidder@ != w {
                assert(escrow_in(s2, w) == escrow_in(d2, w));
                assert(escrow_in(d2, w) == escrow_in(entries.drop_first(), w));
                assert(escrow_in(entries, w) == escrow_in(entries.drop_first(), w));
            }
        }
    }
}

/// The ledger of escrowed bids: one cumulative entry per bidder, and the
/// pointer to the most recent bid that became the leader. The pointer is
/// absent until the first accepted bid and is never cleared.
pub struct BidLedger {
    pub bids: Vec<EscrowEntry>,
    pub highest: Option<Bid>,
}

impl BidLedger {
    /// The ledger's bidders are pairwise distinct.
    pub open spec fn wf(self) -> bool {
        bidders_distinct(self.bids@)
    }

    /// The cumulative escrow recorded for `who`; zero if absent or consumed.
    pub open spec fn escrow(self, who: Seq<char>) -> u128 {
        escrow_in(self.bids@, who)
    }

    /// An empty ledger: no escrow entries and no leader yet.
    pub fn new() -> (r: BidLedger)
        ensures
            r.wf(),
            r.highest is None,
            r.bids@.len() == 0,
            forall|w: Seq<char>| r.escrow(w) == 0,
    {
        let r = BidLedger { bids: Vec::new(), highest: None };
        proof {
            assert forall|w: Seq<char>| r.escrow(w) == 0 by {
                lemma_escrow_absent(r.bids@, w);
            }
        }
        r
    }

    /// Reads a bidder's cumulative escrow; zero if the bidder never bid
    /// or the entry was consumed.
    pub fn get_escrow(&self, bidder: &String) -> (r: u128)
        ensures
            r == self.escrow(bidder@),
    {
        let n: usize = self.bids.len();
        let mut i: usize = 0;
        while i < n
            invariant
                n == self.bids@.len(),
                0 <= i <= n,
                forall|j: int| 0 <= j < i ==> self.bids@[j].bidder@ != bidder@,
            decreases n - i,
        {
            if self.bids[i].bidder == *bidder {
                proof {
                    lemma_escrow_at(self.bids@, bidder@, i as int);
                }
                return self.bids[i].amount;
            }
            i = i + 1;
        }
        proof {
            lemma_escrow_absent(self.bids@, bidder@);
        }
        0
    }

    /// Increases `bidder`'s cumulative escrow by `delta`, creating the
    /// entry if absent, and returns the new total. Touches no other
    /// bidder's escrow and not the leader pointer.
    pub fn add_escrow(&mut self, bidder: &String, delta: u128) -> (r: u128)
        requires
            old(self).wf(),
            old(self).escrow(bidder@) + delta <= u128::MAX,
        ensures
            final(self).wf(),
            r == old(self).escrow(bidder@) + delta,
            final(self).escrow(bidder@) == r,
            forall|w: Seq<char>| w != bidder@ ==> final(self).escrow(w) == old(self).escrow(w),
            final(self).highest == old(self).highest,
    {
        let n: usize = self.bids.len();
        let mut i: usize = 0;
        while i < n
            invariant
                *self == *old(self),
                n == self.bids@.len(),
                0 <= i <= n,
                forall|j: int| 0 <= j < i ==> self.bids@[j].bidder@ != bidder@,
            decreases n - i,
        {
            if self.bids[i].bidder == *bidder {
                proof {
                    lemma_escrow_at(self.bids@, bidder@, i as int);
                }
                let total: u128 = self.bids[i].amount + delta;
                let e = EscrowEntry { bidder: bidder.clone(), amount: total };
                proof {
                    lemma_escrow_update(self.bids@, i as int, e);
                }
                self.bids[i] = e;
                return total;
            }
            i = i + 1;
        }
        let e = EscrowEntry { bidder: bidder.clone(), amount: delta };
        proof {
            lemma_escrow_absent(self.bids@, bidder@);
            lemma_escrow_push(self.bids@, e);
        }
        self.bids.push(e);
        delta
    }

    /// Consumes `bidder`'s escrow entry: zeroes it and returns the amount
    /// that was held. Returns nothing if the bidder has no unconsumed
    /// entry, and then changes nothing.
    pub fn take_escrow(&mut self, bidder: &String) -> (r: Option<u128>)
        requires
            old(self).wf(),
        ensures
            final(self).wf(),
            final(self).highest == old(self).highest,
            old(self).escrow(bidder@) == 0 ==> r is None && *final(self) == *old(self),
            old(self).escrow(bidder@) > 0 ==> r == Some(old(self).escrow(bidder@)),
            final(self).escrow(bidder@) == 0,
            forall|w: Seq<char>| w != bidder@ ==> final(self).escrow(w) == old(self).escrow(w),
    {
        let n: usize = self.bids.len();
        let mut i: usize = 0;
        while i < n
            invariant
                *self == *old(self),
                n == self.bids@.len(),
                0 <= i <= n,
                forall|j: int| 0 <= j < i ==> self.bids@[j].bidder@ != bidder@,
            decreases n - i,
        {
            if self.bids[i].bidder == *bidder {
                proof {
                    lemma_escrow_at(self.bids@, bidder@, i as int);
                }
                let held: u128 = self.bids[i].amount;
                if held == 0 {
                    return None;
                }
                let e = EscrowEntry { bidder: bidder.clone(), amount: 0 };
                proof {
                    lemma_escrow_update(self.bids@, i as int, e);
                }
                self.bids[i] = e;
                return Some(held);
            }
            i = i + 1;
        }
        proof {
            lemma_escrow_absent(self.bids@, bidder@);
        }
        None
    }

    /// Reads the leader pointer.
    pub fn get_highest(&self) -> (r: &Option<Bid>)
        ensures
            *r == self.highest,
    {
        &self.highest
    }

    /// Overwrites the leader pointer with the given bidder and the gross
    /// amount of the triggering bid; the caller has already validated the
    /// ordering. Touches no escrow entry.
    pub fn set_highest(&mut self, bidder: &String, gross: u128, denom: &String)
        ensures
            final(self).bids == old(self).bids,
            final(self).highest matches Some(hb) && hb.address@ == bidder@
                && hb.bid.denom@ == denom@ && hb.bid.amount == gross,
    {
        self.highest = Some(
            Bid { address: bidder.clone(), bid: Coin { denom: denom.clone(), amount: gross } },
        );
    }
}

} // verus!
