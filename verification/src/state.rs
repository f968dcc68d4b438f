//! The auction record and the escrow ledger.

use vstd::prelude::*;

use crate::helper::Coin;
use vstd::pervasive::VecAdditionalExecFns;

verus! {

/// Whether the auction still accepts bids or has been closed.
///
/// The status starts as `Opening` and moves to `Closed` exactly once;
/// it never reverts.
#[derive(Debug, Clone, Copy, PartialEq, Eq, Structural)]
pub enum BidStatus {
    Opening {},
    Closed {},
}

impl Default for BidStatus {
    fn default() -> (s: Self)
        ensures
            s is Opening,
    {
        BidStatus::Opening {}
    }
}

impl BidStatus {
    pub fn is_closed(&self) -> (r: bool)
        ensures
            r == (*self is Closed),
    {
        matches!(self, BidStatus::Closed {})
    }
}

/// The current leading cumulative bid and who placed it.
#[derive(Debug, PartialEq, Eq)]
pub struct Bid {
    pub bid: Coin,
    pub bidder: String,
}

impl Clone for Bid {
    fn clone(&self) -> (b: Self)
        ensures
            b == *self,
    {
        Bid { bid: self.bid.clone(), bidder: self.bidder.clone() }
    }
}

/// The durable auction record.
#[derive(Debug, PartialEq, Eq)]
pub struct State {
    /// Contract owner, set at creation, immutable.
    pub owner: String,
    /// Opaque label of the auction, immutable.
    pub name: String,
    /// Minimum required size of a single round's contribution.
    pub tick: Coin,
    /// Fixed amount deducted from a losing bidder's refund.
    pub commission: Coin,
    /// Starts `Opening`, moves to `Closed` exactly once.
    pub status: BidStatus,
    /// The current leading cumulative bid; `None` until a first valid bid.
    pub highest: Option<Bid>,
    /// Set only at close, to the leading bidder if any bid exists.
    pub winner: Option<String>,
}

impl State {
    pub fn new(owner: String, name: String, tick: Coin, commission: Coin) -> (s: State)
        ensures
            s.owner == owner,
            s.name == name,
            s.tick == tick,
            s.commission == commission,
            s.status is Opening,
            s.highest is None,
            s.winner is None,
    {
        State {
            owner,
            name,
            tick,
            commission,
            status: BidStatus::default(),
            highest: None,
            winner: None,
        }
    }
}

/// The keys of the entries are pairwise distinct.
pub open spec fn keys_distinct(entries: Seq<(String, u128)>) -> bool {
    forall|i: int, j: int|
        0 <= i < j < entries.len() ==> entries[i].0@ != entries[j].0@
}

/// The mapping an entry sequence denotes: later entries win, though under
/// [`keys_distinct`] there is at most one entry per key.
spec fn map_of(entries: Seq<(String, u128)>) -> Map<Seq<char>, u128>
    decreases entries.len(),
{
    if entries.len() == 0 {
        Map::empty()
    } else {
        map_of(entries.drop_last()).insert(entries.last().0@, entries.last().1)
    }
}

proof fn lemma_map_of_domain(entries: Seq<(String, u128)>, k: Seq<char>)
    ensures
        map_of(entries).contains_key(k)
            <==> exists|i: int| 0 <= i < entries.len() && entries[i].0@ == k,
    decreases entries.len(),
{
    if entries.len() > 0 {
        let prev = entries.drop_last();
        lemma_map_of_domain(prev, k);
        if entries.last().0@ == k {
            assert(entries[entries.len() - 1].0@ == k);
        } else {
            if map_of(entries).contains_key(k) {
                let i = choose|i: int| 0 <= i < prev.len() && prev[i].0@ == k;
                assert(entries[i].0@ == k);
            }
            if exists|i: int| 0 <= i < entries.len() && entries[i].0@ == k {
                let i = choose|i: int| 0 <= i < entries.len() && entries[i].0@ == k;
                assert(i < prev.len());
                assert(prev[i].0@ == k);
            }
        }
    }
}

proof fn lemma_map_of_value(entries: Seq<(String, u128)>, i: int)
    requires
        keys_distinct(entries),
        0 <= i < entries.len(),
    ensures
        map_of(entries).contains_key(entries[i].0@),
        map_of(entries)[entries[i].0@] == entries[i].1,
    decreases entries.len(),
{
    let prev = entries.drop_last();
    if i < entries.len() - 1 {
        lemma_map_of_value(prev, i);
        assert(prev[i] == entries[i]);
        assert(entries[i].0@ != entries.last().0@);
    }
}

proof fn lemma_map_of_update(entries: Seq<(String, u128)>, i: int, v: (String, u128))
    requires
        keys_distinct(entries),
        0 <= i < entries.len(),
        v.0@ == entries[i].0@,
    ensures
        map_of(entries.update(i, v)) == map_of(entries).insert(v.0@, v.1),
    decreases entries.len(),
{
    let upd = entries.update(i, v);
    let prev = entries.drop_last();
    if i == entries.len() - 1 {
        assert(upd.drop_last() =~= prev);
        assert(upd.last() == v);
        assert(map_of(prev).insert(v.0@, v.1)
            =~= map_of(prev).insert(entries.last().0@, entries.last().1).insert(v.0@, v.1));
    } else {
        lemma_map_of_update(prev, i, v);
        assert(upd.drop_last() =~= prev.update(i, v));
        assert(upd.last() == entries.last());
        assert(v.0@ != entries.last().0@);
        assert(map_of(prev).insert(v.0@, v.1).insert(entries.last().0@, entries.last().1)
            =~= map_of(prev).insert(entries.last().0@, entries.last().1).insert(v.0@, v.1));
    }
}

/// The escrow ledger: cumulative amount contributed so far, per bidder.
/// Absence of a key means zero was contributed.
pub struct Biddings {
    entries: Vec<(String, u128)>,
}

impl View for Biddings {
    type V = Map<Seq<char>, u128>;

    closed spec fn view(&self) -> Map<Seq<char>, u128> {
        map_of(self.entries@)
    }
}

impl Biddings {
    /// Each bidder has at most one entry.
    pub closed spec fn wf(&self) -> bool {
        keys_distinct(self.entries@)
    }

    /// An empty ledger.
    pub fn new() -> (b: Biddings)
        ensures
            b.wf(),
            b@ == Map::<Seq<char>, u128>::empty(),
    {
        Biddings { entries: Vec::new() }
    }

    /// The cumulative amount this bidder has contributed, if any entry exists.
    pub fn may_load(&self, addr: &str) -> (r: Option<u128>)
        requires
            self.wf(),
        ensures
            r == (if self@.contains_key(addr@) {
                Some(self@[addr@])
            } else {
                None::<u128>
            }),
    {
        let needle: String = addr.to_string();
        let mut i: usize = 0;
        while i < self.entries.len()
            invariant
                self.wf(),
                needle@ == addr@,
                i <= self.entries@.len(),
                forall|j: int| 0 <= j < i ==> self.entries@[j].0@ != addr@,
            decreases self.entries@.len() - i,
        {
            if self.entries[i].0 == needle {
                proof {
                    lemma_map_of_value(self.entries@, i as int);
                }
                return Some(self.entries[i].1);
            }
            i = i + 1;
        }
        proof {
            lemma_map_of_domain(self.entries@, addr@);
        }
        None
    }

    /// Record this bidder's cumulative amount, replacing any earlier entry.
    pub fn save(&mut self, addr: &str, amount: u128)
        requires
            old(self).wf(),
        ensures
            final(self).wf(),
            final(self)@ == old(self)@.insert(addr@, amount),
    {
        let needle: String = addr.to_string();
        let mut i: usize = 0;
        while i < self.entries.len()
            invariant
                self.entries@ == old(self).entries@,
                old(self).wf(),
                needle@ == addr@,
                i <= self.entries@.len(),
                forall|j: int| 0 <= j < i ==> self.entries@[j].0@ != addr@,
            decreases self.entries@.len() - i,
        {
            if self.entries[i].0 == needle {
                let ghost pre = self.entries@;
                self.entries.set(i, (needle, amount));
                proof {
                    lemma_map_of_update(pre, i as int, (needle, amount));
                    assert(forall|x: int, y: int|
                        0 <= x < y < self.entries@.len()
                            ==> self.entries@[x].0@ != self.entries@[y].0@);
                }
                return;
            }
            i = i + 1;
        }
        let ghost pre = self.entries@;
        proof {
            lemma_map_of_domain(pre, addr@);
        }
        self.entries.push((needle, amount));
        proof {
            assert(self.entries@.drop_last() =~= pre);
            assert(self.entries@.last() == (needle, amount));
            assert(forall|x: int, y: int|
                0 <= x < y < self.entries@.len()
                    ==> self.entries@[x].0@ != self.entries@[y].0@);
        }
    }
}

} // verus!
