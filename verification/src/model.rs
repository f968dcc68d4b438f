//! A mathematical model of the auction, and the laws proved about it.
//!
//! [`abs`] maps a concrete record and ledger to an [`AuctionModel`]; the
//! engine's contracts relate each operation to a step function on the
//! model, and the lemmas here state what any sequence of such steps
//! guarantees.

use vstd::prelude::*;

use crate::helper::{all_denom, sum_amounts, Coin};
use crate::state::{BidStatus, State};
use crate::ATOM_DENOM;

verus! {

/// The leading cumulative bid, seen abstractly.
pub ghost struct HighestBid {
    pub amount: u128,
    pub bidder: Seq<char>,
}

/// The whole auction, seen abstractly: the record plus the escrow ledger.
pub ghost struct AuctionModel {
    pub owner: Seq<char>,
    pub tick: u128,
    pub commission: u128,
    pub status: BidStatus,
    pub highest: Option<HighestBid>,
    pub winner: Option<Seq<char>>,
    pub ledger: Map<Seq<char>, u128>,
}

/// The abstraction of a concrete record and ledger.
pub open spec fn abs(state: State, ledger: Map<Seq<char>, u128>) -> AuctionModel {
    AuctionModel {
        owner: state.owner@,
        tick: state.tick.amount,
        commission: state.commission.amount,
        status: state.status,
        highest: match state.highest {
            Some(b) => Some(HighestBid { amount: b.bid.amount, bidder: b.bidder@ }),
            None => None,
        },
        winner: match state.winner {
            Some(w) => Some(w@),
            None => None,
        },
        ledger,
    }
}

/// The leading cumulative amount recorded in a concrete record.
pub open spec fn state_highest(s: State) -> u128 {
    match s.highest {
        Some(b) => b.bid.amount,
        None => 0,
    }
}

/// The amount a new cumulative bid must strictly exceed; zero before any bid.
pub open spec fn highest_amount(m: AuctionModel) -> u128 {
    match m.highest {
        Some(h) => h.amount,
        None => 0,
    }
}

/// A bidder's cumulative contribution so far; absence means zero.
pub open spec fn prior_of(m: AuctionModel, bidder: Seq<char>) -> u128 {
    if m.ledger.contains_key(bidder) {
        m.ledger[bidder]
    } else {
        0
    }
}

/// Whether a bid by `sender` attaching `funds` is accepted. Bidding is
/// possible only while the auction is opening.
pub open spec fn bid_ok(m: AuctionModel, sender: Seq<char>, funds: Seq<Coin>) -> bool {
    let spread = sum_amounts(funds);
    let candidate = prior_of(m, sender) + spread;
    &&& m.status is Opening
    &&& sender != m.owner
    &&& all_denom(funds, ATOM_DENOM@)
    &&& spread <= u128::MAX
    &&& spread >= m.tick
    &&& spread >= m.commission
    &&& candidate <= u128::MAX
    &&& candidate > highest_amount(m)
}

/// The model after an accepted bid: the sender leads with their new
/// cumulative amount, and the ledger records it.
pub open spec fn bid_step(m: AuctionModel, sender: Seq<char>, funds: Seq<Coin>) -> AuctionModel {
    let candidate = (prior_of(m, sender) + sum_amounts(funds)) as u128;
    AuctionModel {
        highest: Some(HighestBid { amount: candidate, bidder: sender }),
        ledger: m.ledger.insert(sender, candidate),
        ..m
    }
}

/// The model after a successful close: the status is terminal and the
/// winner is fixed to the leading bidder, if any bid exists.
pub open spec fn close_step(m: AuctionModel) -> AuctionModel {
    AuctionModel {
        status: BidStatus::Closed {},
        winner: match m.highest {
            Some(h) => Some(h.bidder),
            None => None,
        },
        ..m
    }
}

/// The identity that receives a retraction's refund.
pub open spec fn target_of(receiver: Option<String>, sender: Seq<char>) -> Seq<char> {
    match receiver {
        Some(r) => r@,
        None => sender,
    }
}

/// Whether a retraction by `sender` on behalf of `target` succeeds, with
/// the contract holding `balances`.
pub open spec fn retract_ok(
    m: AuctionModel,
    sender: Seq<char>,
    target: Seq<char>,
    balances: Seq<Coin>,
) -> bool {
    &&& m.status is Closed
    &&& sender != m.owner
    &&& m.winner != Some(sender)
    &&& m.ledger.contains_key(target)
    &&& m.ledger[target] > 0
    &&& m.ledger[target] >= m.commission
    &&& all_denom(balances, ATOM_DENOM@)
    &&& sum_amounts(balances) <= u128::MAX
    &&& sum_amounts(balances) >= m.ledger[target] - m.commission
}

/// The model after a successful retraction. The entry is cleared, so a
/// second retraction for the same escrow cannot pay it out again.
pub open spec fn retract_step(m: AuctionModel, target: Seq<char>) -> AuctionModel {
    AuctionModel { ledger: m.ledger.insert(target, 0), ..m }
}

/// The structural invariants of the record and the ledger: the leading
/// bidder, if any, is a known non-owner bidder; the owner never appears
/// in the ledger; the owner is never the winner.
pub open spec fn inv(m: AuctionModel) -> bool {
    &&& (m.highest matches Some(h) ==> h.bidder != m.owner && m.ledger.contains_key(h.bidder))
    &&& !m.ledger.contains_key(m.owner)
    &&& m.winner != Some(m.owner)
}

/// While bids are the only transitions taken, the ledger backs the
/// leading bid exactly.
pub open spec fn ledger_backs_highest(m: AuctionModel) -> bool {
    m.highest matches Some(h) ==> m.ledger[h.bidder] == h.amount
}

/// A freshly created record with an empty ledger satisfies the
/// invariants, whoever the owner is.
pub proof fn lemma_new_auction_inv(state: State)
    requires
        state.highest is None,
        state.winner is None,
    ensures
        inv(abs(state, Map::empty())),
{
}

/// An accepted bid preserves the invariants, and always leaves the ledger
/// backing the new leading bid.
pub proof fn lemma_bid_preserves_inv(m: AuctionModel, sender: Seq<char>, funds: Seq<Coin>)
    requires
        inv(m),
        bid_ok(m, sender, funds),
    ensures
        inv(bid_step(m, sender, funds)),
        ledger_backs_highest(bid_step(m, sender, funds)),
{
}

/// A close preserves the invariants; in particular the winner it fixes
/// is never the owner, because the owner never appears in the ledger.
pub proof fn lemma_close_preserves_inv(m: AuctionModel)
    requires
        inv(m),
    ensures
        inv(close_step(m)),
{
}

/// A successful retraction preserves the invariants.
pub proof fn lemma_retract_preserves_inv(
    m: AuctionModel,
    sender: Seq<char>,
    target: Seq<char>,
    balances: Seq<Coin>,
)
    requires
        inv(m),
        retract_ok(m, sender, target, balances),
    ensures
        inv(retract_step(m, target)),
{
}

/// A close never succeeds twice: once the status is terminal, no later
/// close attempt can be accepted, whoever makes it and whatever the
/// contract's balance is.
pub proof fn lemma_close_once(
    m: AuctionModel,
    sender: Seq<char>,
    balances: Seq<Coin>,
)
    ensures
        !(close_step(m).status is Opening),
        !close_ok(close_step(m), sender, balances),
{
}

/// A closed auction accepts no bid, whoever sends it and whatever funds
/// come with it: the leading bid and the winner are fixed for good.
pub proof fn lemma_closed_auction_rejects_bids(
    m: AuctionModel,
    sender: Seq<char>,
    funds: Seq<Coin>,
)
    requires
        m.status is Closed,
    ensures
        !bid_ok(m, sender, funds),
{
}

/// Whether a close by `sender`, with the contract holding `balances`,
/// succeeds.
pub open spec fn close_ok(m: AuctionModel, sender: Seq<char>, balances: Seq<Coin>) -> bool {
    &&& sender == m.owner
    &&& m.status is Opening
    &&& all_denom(balances, ATOM_DENOM@)
    &&& sum_amounts(balances) <= u128::MAX
    &&& sum_amounts(balances) >= highest_amount(m)
}

/// Retraction never succeeds for the owner, nor for the winner, whatever
/// the status, the receiver, or the balances.
pub proof fn lemma_owner_winner_cannot_retract(
    m: AuctionModel,
    target: Seq<char>,
    balances: Seq<Coin>,
)
    ensures
        !retract_ok(m, m.owner, target, balances),
        m.winner matches Some(w) ==> !retract_ok(m, w, target, balances),
{
}

/// One bid call: who sent it and what funds came with it.
pub ghost struct BidEvent {
    pub sender: Seq<char>,
    pub funds: Seq<Coin>,
}

/// Every event in the sequence is accepted, each against the model the
/// previous ones produced.
pub open spec fn bids_accepted(m: AuctionModel, events: Seq<BidEvent>) -> bool
    decreases events.len(),
{
    events.len() == 0 || {
        &&& bid_ok(m, events[0].sender, events[0].funds)
        &&& bids_accepted(bid_step(m, events[0].sender, events[0].funds), events.drop_first())
    }
}

/// The model after a sequence of accepted bids.
pub open spec fn run_bids(m: AuctionModel, events: Seq<BidEvent>) -> AuctionModel
    decreases events.len(),
{
    if events.len() == 0 {
        m
    } else {
        run_bids(bid_step(m, events[0].sender, events[0].funds), events.drop_first())
    }
}

/// Across any non-empty sequence of accepted bids the leading amount
/// strictly increases, and the leader is the sender of the most recent
/// accepted bid.
pub proof fn lemma_highest_strictly_increasing(m: AuctionModel, events: Seq<BidEvent>)
    requires
        bids_accepted(m, events),
        events.len() > 0,
    ensures
        highest_amount(run_bids(m, events)) > highest_amount(m),
        run_bids(m, events).highest matches Some(h) && h.bidder == events.last().sender,
    decreases events.len(),
{
    let m1 = bid_step(m, events[0].sender, events[0].funds);
    if events.len() == 1 {
        assert(events.drop_first().len() == 0);
    } else {
        lemma_highest_strictly_increasing(m1, events.drop_first());
        assert(events.drop_first().last() == events.last());
    }
}

/// The sum of the spreads contributed by `who` across the events.
pub open spec fn spreads_of(events: Seq<BidEvent>, who: Seq<char>) -> int
    decreases events.len(),
{
    if events.len() == 0 {
        0
    } else {
        (if events[0].sender == who {
            sum_amounts(events[0].funds)
        } else {
            0
        }) + spreads_of(events.drop_first(), who)
    }
}

/// After any sequence of accepted bids, each bidder's cumulative escrow
/// grew by exactly the sum of that bidder's accepted spreads.
pub proof fn lemma_ledger_sums_spreads(m: AuctionModel, events: Seq<BidEvent>, who: Seq<char>)
    requires
        bids_accepted(m, events),
    ensures
        prior_of(run_bids(m, events), who) == prior_of(m, who) + spreads_of(events, who),
    decreases events.len(),
{
    if events.len() > 0 {
        let m1 = bid_step(m, events[0].sender, events[0].funds);
        lemma_ledger_sums_spreads(m1, events.drop_first(), who);
    }
}

proof fn lemma_run_bids_keeps_key(m: AuctionModel, events: Seq<BidEvent>, who: Seq<char>)
    requires
        bids_accepted(m, events),
        m.ledger.contains_key(who),
    ensures
        run_bids(m, events).ledger.contains_key(who),
    decreases events.len(),
{
    if events.len() > 0 {
        lemma_run_bids_keeps_key(
            bid_step(m, events[0].sender, events[0].funds),
            events.drop_first(),
            who,
        );
    }
}

/// Round trip: after a non-empty sequence of accepted bids all sent by
/// `who`, who had no prior escrow, the ledger holds exactly the sum `S`
/// of the spreads, `S` is at least the commission, and the net refundable
/// amount is therefore `S` minus the commission.
pub proof fn lemma_total_bid_round_trip(m: AuctionModel, events: Seq<BidEvent>, who: Seq<char>)
    requires
        bids_accepted(m, events),
        prior_of(m, who) == 0,
        events.len() > 0,
        forall|i: int| 0 <= i < events.len() ==> events[i].sender == who,
    ensures
        run_bids(m, events).ledger.contains_key(who),
        run_bids(m, events).ledger[who] == spreads_of(events, who),
        spreads_of(events, who) >= m.commission,
    decreases events.len(),
{
    let m1 = bid_step(m, events[0].sender, events[0].funds);
    lemma_ledger_sums_spreads(m, events, who);
    lemma_run_bids_keeps_key(m1, events.drop_first(), who);
    lemma_spreads_nonneg(events.drop_first(), who);
}

proof fn lemma_spreads_nonneg(events: Seq<BidEvent>, who: Seq<char>)
    ensures
        spreads_of(events, who) >= 0,
    decreases events.len(),
{
    if events.len() > 0 {
        lemma_sum_amounts_nonneg(events[0].funds);
        lemma_spreads_nonneg(events.drop_first(), who);
    }
}

proof fn lemma_sum_amounts_nonneg(coins: Seq<Coin>)
    ensures
        sum_amounts(coins) >= 0,
    decreases coins.len(),
{
    if coins.len() > 0 {
        lemma_sum_amounts_nonneg(coins.drop_last());
    }
}

} // verus!
