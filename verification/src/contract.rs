//! The auction engine: Bid, Close and Retract against the auction record
//! and the escrow ledger, and the read-only query surface.
//!
//! Every operation validates fully before it writes anything, so a
//! rejected invocation leaves both aggregates exactly as they were. Fund
//! movement is never performed here: a successful Close or Retract only
//! returns the transfer instruction it computed.

use vstd::prelude::*;

use crate::error::ContractError;
use crate::helper::{self, add_coin, collect_coins, dec_str, u128_to_string, Coin};
use crate::model::{abs, bid_ok, bid_step, highest_amount, prior_of, retract_ok, state_highest, target_of};
use crate::msg::{
    ExecuteMsg, HighestOfBidResp, InstantiateMsg, QueryMsg, QueryResp, TotalBidResp, WinnerResp,
};
use crate::response::{attr_is, BankMsg, Response};
use crate::state::{Bid, Biddings, BidStatus, State};
use crate::ATOM_DENOM;

verus! {

/// Creates the auction record: the caller becomes the immutable owner,
/// the status starts `Opening` with no bid and no winner, and the tick
/// and commission thresholds are fixed in the supported denomination.
pub fn instantiate(sender: String, msg: InstantiateMsg) -> (s: State)
    ensures
        s.owner == sender,
        s.name == msg.name,
        s.tick.amount == msg.tick,
        s.tick.denom@ == ATOM_DENOM@,
        s.commission.amount == msg.commission,
        s.commission.denom@ == ATOM_DENOM@,
        s.status is Opening,
        s.highest is None,
        s.winner is None,
{
    State::new(
        sender,
        msg.name,
        Coin::new(msg.tick, ATOM_DENOM),
        Coin::new(msg.commission, ATOM_DENOM),
    )
}

/// Whether the sender is the auction's owner.
pub fn is_owner(sender: &String, owner: &String) -> (r: bool)
    ensures
        r == (sender@ == owner@),
{
    *owner == *sender
}

/// Only a non-owner may bid or be refunded.
pub fn can_bid(sender: &String, owner: &String) -> (r: Result<(), ContractError>)
    ensures
        r is Ok <==> sender@ != owner@,
        sender@ == owner@ ==> (r matches Err(e) && e is Unauthorized),
{
    if is_owner(sender, owner) {
        return Err(ContractError::Unauthorized {});
    }
    Ok(())
}

/// Only the owner may close.
pub fn validiate_owner(sender: &String, owner: &String) -> (r: Result<(), ContractError>)
    ensures
        r is Ok <==> sender@ == owner@,
        sender@ != owner@ ==> (r matches Err(e) && e is Unauthorized),
{
    if !is_owner(sender, owner) {
        return Err(ContractError::Unauthorized {});
    }
    Ok(())
}

/// A round's contribution must reach both the tick and the commission.
pub fn validiate_bid(state: &State, spread: &Coin) -> (r: Result<(), ContractError>)
    ensures
        r is Ok <==> (spread.amount >= state.tick.amount
            && spread.amount >= state.commission.amount),
        (spread.amount < state.tick.amount || spread.amount < state.commission.amount)
            ==> (r matches Err(e) && e.is_invalid_bid(spread.amount, spread.denom@)),
{
    if spread.amount < state.tick.amount || spread.amount < state.commission.amount {
        return Err(ContractError::InvalidBidErr { total_bid: spread.clone() });
    }
    Ok(())
}

/// Every attached coin must be of the supported denomination.
pub fn validiate_denom(denom: &[Coin], atom_denom: &str) -> (r: Result<(), ContractError>)
    ensures
        r is Ok <==> helper::all_denom(denom@, atom_denom@),
        !helper::all_denom(denom@, atom_denom@)
            ==> (r matches Err(e) && e.is_coin_supported_only(atom_denom@)),
{
    helper::validiate_denom(denom, atom_denom)
}

/// The contract's observable balance must cover what is about to be paid.
pub fn validiate_balances(contract_balances: &[Coin], highest_coin: &[Coin]) -> (r: Result<
    (),
    ContractError,
>)
    ensures
        r is Ok <==> (helper::all_denom(contract_balances@, ATOM_DENOM@)
            && helper::sum_amounts(contract_balances@) <= u128::MAX
            && helper::all_denom(highest_coin@, ATOM_DENOM@)
            && helper::sum_amounts(highest_coin@) <= u128::MAX
            && helper::sum_amounts(contract_balances@) >= helper::sum_amounts(highest_coin@)),
        !helper::all_denom(contract_balances@, ATOM_DENOM@)
            ==> (r matches Err(e) && e.is_coin_supported_only(ATOM_DENOM@)),
        (helper::all_denom(contract_balances@, ATOM_DENOM@)
            && helper::sum_amounts(contract_balances@) > u128::MAX)
            ==> (r matches Err(e) && e is OverflowErr),
        (helper::all_denom(contract_balances@, ATOM_DENOM@)
            && helper::sum_amounts(contract_balances@) <= u128::MAX
            && !helper::all_denom(highest_coin@, ATOM_DENOM@))
            ==> (r matches Err(e) && e.is_coin_supported_only(ATOM_DENOM@)),
        (helper::all_denom(contract_balances@, ATOM_DENOM@)
            && helper::sum_amounts(contract_balances@) <= u128::MAX
            && helper::all_denom(highest_coin@, ATOM_DENOM@)
            && helper::sum_amounts(highest_coin@) > u128::MAX)
            ==> (r matches Err(e) && e is OverflowErr),
        (helper::all_denom(contract_balances@, ATOM_DENOM@)
            && helper::sum_amounts(contract_balances@) <= u128::MAX
            && helper::all_denom(highest_coin@, ATOM_DENOM@)
            && helper::sum_amounts(highest_coin@) <= u128::MAX
            && helper::sum_amounts(contract_balances@) < helper::sum_amounts(highest_coin@))
            ==> (r matches Err(e)
                && e.is_balance_invalid(
                helper::sum_amounts(contract_balances@) as u128,
                ATOM_DENOM@,
            )),
{
    let contract_total = match collect_coins(contract_balances, ATOM_DENOM) {
        Ok(c) => c,
        Err(e) => {
            return Err(e);
        },
    };
    let highest_total = match collect_coins(highest_coin, ATOM_DENOM) {
        Ok(c) => c,
        Err(e) => {
            return Err(e);
        },
    };
    if contract_total.amount >= highest_total.amount {
        Ok(())
    } else {
        Err(ContractError::ContractBalanceInvalidErr { amount: contract_total })
    }
}

/// Retraction is only possible once the auction is closed, and never for
/// the owner or the winner: the owner is paid at close, and the winner's
/// escrow is the sale price.
pub fn can_retract(state: &State, sender: &String) -> (r: Result<(), ContractError>)
    ensures
        r is Ok <==> (state.status is Closed && sender@ != state.owner@ && (match state.winner {
            Some(w) => w@ != sender@,
            None => true,
        })),
        !(state.status is Closed) ==> (r matches Err(e) && e is BidIsOpening),
        (state.status is Closed && (sender@ == state.owner@ || (match state.winner {
            Some(w) => w@ == sender@,
            None => false,
        }))) ==> (r matches Err(e) && e is Unauthorized),
{
    if !state.status.is_closed() {
        return Err(ContractError::BidIsOpening {});
    }
    if is_owner(sender, &state.owner) {
        return Err(ContractError::Unauthorized {});
    }
    match &state.winner {
        Some(w) => {
            if *w == *sender {
                return Err(ContractError::Unauthorized {});
            }
        },
        None => {},
    }
    Ok(())
}

/// Folds the prior cumulative escrow with this round's spread and, if the
/// result strictly exceeds the current leading bid, installs it as the new
/// leading bid and returns it.
pub fn update_state(state: &mut State, sender: &String, bid: Option<Coin>, spread: &Coin) -> (r:
    Result<Coin, ContractError>)
    ensures
        ({
            let prior_amount = (match bid {
                Some(c) => c.amount,
                None => 0u128,
            });
            let prior_denom = (match bid {
                Some(c) => c.denom@,
                None => ATOM_DENOM@,
            });
            let candidate = prior_amount + spread.amount;
            let highest = state_highest(*old(state));
            let highest_denom = (match old(state).highest {
                Some(b) => b.bid.denom@,
                None => ATOM_DENOM@,
            });
            &&& (r is Ok <==> (prior_denom == spread.denom@ && candidate <= u128::MAX && candidate
                > highest))
            &&& (r is Err ==> *final(state) == *old(state))
            &&& (prior_denom != spread.denom@ ==> (r matches Err(e) && e.is_coin_operation(
                prior_denom,
                spread.denom@,
            )))
            &&& ((prior_denom == spread.denom@ && candidate > u128::MAX) ==> (r matches Err(e)
                && e is OverflowErr))
            &&& ((prior_denom == spread.denom@ && candidate <= u128::MAX && candidate <= highest)
                ==> (r matches Err(e) && e.is_bid_too_low(highest, highest_denom)))
            &&& (r matches Ok(c) ==> {
                &&& c.amount == candidate
                &&& c.denom@ == prior_denom
                &&& (final(state).highest matches Some(b) && b.bidder == *sender && b.bid == c)
                &&& final(state).owner == old(state).owner
                &&& final(state).name == old(state).name
                &&& final(state).tick == old(state).tick
                &&& final(state).commission == old(state).commission
                &&& final(state).status == old(state).status
                &&& final(state).winner == old(state).winner
            })
        }),
{
    let prior = match bid {
        Some(c) => c,
        None => Coin::new(0, ATOM_DENOM),
    };
    let current_bid = match add_coin(&prior, spread) {
        Ok(c) => c,
        Err(e) => {
            return Err(e);
        },
    };
    let current_amount = current_bid.amount;
    let highest_amount = match &state.highest {
        Some(b) => b.bid.amount,
        None => 0,
    };
    if current_amount > highest_amount {
        let highest = Bid { bid: current_bid.clone(), bidder: sender.clone() };
        state.highest = Some(highest);
        Ok(current_bid)
    } else {
        // the error names the threshold the caller must exceed
        let threshold = match &state.highest {
            Some(b) => b.bid.clone(),
            None => Coin::new(0, ATOM_DENOM),
        };
        Err(ContractError::BidTooLowErr { less_than: threshold })
    }
}

/// The whole contract of [`bid`]: when it is accepted, what it changes,
/// what it answers, and which error each rejected input produces.
pub open spec fn bid_full(
    pre: State,
    prel: Map<Seq<char>, u128>,
    post: State,
    postl: Map<Seq<char>, u128>,
    sender: String,
    funds: Seq<Coin>,
    r: Result<Response, ContractError>,
) -> bool {
    let m = abs(pre, prel);
    let spread = helper::sum_amounts(funds);
    let candidate = prior_of(m, sender@) + spread;
    let atom_funds = helper::all_denom(funds, ATOM_DENOM@);
    let opening = pre.status is Opening;
    let threshold_denom = (match pre.highest {
        Some(b) => b.bid.denom@,
        None => ATOM_DENOM@,
    });
    &&& (r is Ok <==> bid_ok(m, sender@, funds))
    &&& (r is Err ==> post == pre && postl == prel)
    &&& (r matches Ok(resp) ==> {
        &&& abs(post, postl) == bid_step(m, sender@, funds)
        &&& post.owner == pre.owner
        &&& post.name == pre.name
        &&& post.tick == pre.tick
        &&& post.commission == pre.commission
        &&& post.status == pre.status
        &&& post.winner == pre.winner
        &&& (post.highest matches Some(b) && b.bidder == sender && b.bid.amount == candidate
            && b.bid.denom@ == ATOM_DENOM@)
        &&& postl == prel.insert(sender@, candidate as u128)
        &&& resp.messages@.len() == 0
        &&& resp.attributes@.len() == 3
        &&& attr_is(resp.attributes@[0], "action"@, "bid"@)
        &&& attr_is(resp.attributes@[1], "sender"@, sender@)
        &&& attr_is(resp.attributes@[2], "spread"@, dec_str(spread as u128))
    })
    &&& (!opening ==> (r matches Err(e) && e is BidAlreadyClosed))
    &&& ((opening && sender@ == m.owner) ==> (r matches Err(e) && e is Unauthorized))
    &&& ((opening && sender@ != m.owner && !atom_funds) ==> (r matches Err(e)
        && e.is_coin_supported_only(ATOM_DENOM@)))
    &&& ((opening && sender@ != m.owner && atom_funds && spread > u128::MAX) ==> (r matches Err(e)
        && e is OverflowErr))
    &&& ((opening && sender@ != m.owner && atom_funds && spread <= u128::MAX && (spread < m.tick
        || spread < m.commission)) ==> (r matches Err(e) && e.is_invalid_bid(
        spread as u128,
        ATOM_DENOM@,
    )))
    &&& ((opening && sender@ != m.owner && atom_funds && spread <= u128::MAX && spread >= m.tick
        && spread >= m.commission && candidate > u128::MAX) ==> (r matches Err(e)
        && e is OverflowErr))
    &&& ((opening && sender@ != m.owner && atom_funds && spread <= u128::MAX && spread >= m.tick
        && spread >= m.commission && candidate <= u128::MAX && candidate <= highest_amount(m))
        ==> (r matches Err(e) && e.is_bid_too_low(highest_amount(m), threshold_denom)))
}

/// A bid round: while the auction is opening, the caller escrows the
/// attached funds, and if the new cumulative amount strictly exceeds the
/// current leading bid, the caller becomes the leader. No funds move;
/// they arrived with the call.
pub fn bid(state: &mut State, biddings: &mut Biddings, sender: &String, funds: &Vec<Coin>) -> (r:
    Result<Response, ContractError>)
    requires
        old(biddings).wf(),
    ensures
        final(biddings).wf(),
        bid_full(
            *old(state),
            old(biddings)@,
            *final(state),
            final(biddings)@,
            *sender,
            funds@,
            r,
        ),
{
    if state.status.is_closed() {
        return Err(ContractError::BidAlreadyClosed {});
    }
    if let Err(e) = can_bid(sender, &state.owner) {
        return Err(e);
    }
    let spread = match collect_coins(funds.as_slice(), ATOM_DENOM) {
        Ok(c) => c,
        Err(e) => {
            return Err(e);
        },
    };
    if let Err(e) = validiate_bid(state, &spread) {
        return Err(e);
    }
    let prior = match biddings.may_load(sender.as_str()) {
        Some(a) => Some(Coin::new(a, ATOM_DENOM)),
        None => None,
    };
    let current_bid = match update_state(state, sender, prior, &spread) {
        Ok(c) => c,
        Err(e) => {
            return Err(e);
        },
    };
    biddings.save(sender.as_str(), current_bid.amount);
    let resp = Response::new().add_attribute("action", "bid").add_attribute(
        "sender",
        sender.as_str(),
    ).add_attribute("spread", u128_to_string(spread.amount).as_str());
    Ok(resp)
}

/// The whole contract of [`close`]: when it succeeds, how the record
/// changes, what transfer it emits, and which error each rejected input
/// produces.
pub open spec fn close_full(
    pre: State,
    post: State,
    balances: Seq<Coin>,
    sender: String,
    r: Result<Response, ContractError>,
) -> bool {
    let payout = state_highest(pre);
    let balances_ok = helper::all_denom(balances, ATOM_DENOM@) && helper::sum_amounts(balances)
        <= u128::MAX;
    let payout_atom = (match pre.highest {
        Some(b) => b.bid.denom@ == ATOM_DENOM@,
        None => true,
    });
    &&& (r is Ok <==> (sender@ == pre.owner@ && pre.status is Opening && balances_ok && payout_atom
        && helper::sum_amounts(balances) >= payout))
    &&& (r is Err ==> post == pre)
    &&& (r matches Ok(resp) ==> {
        &&& post.status is Closed
        &&& post.winner == (match pre.highest {
            Some(b) => Some(b.bidder),
            None => None::<String>,
        })
        &&& post.owner == pre.owner
        &&& post.name == pre.name
        &&& post.tick == pre.tick
        &&& post.commission == pre.commission
        &&& post.highest == pre.highest
        &&& resp.attributes@.len() == 2
        &&& attr_is(resp.attributes@[0], "action"@, "close"@)
        &&& attr_is(resp.attributes@[1], "sender"@, sender@)
        &&& (match pre.highest {
            Some(b) => resp.messages@.len() == 1 && resp.messages@[0].to_address == sender
                && resp.messages@[0].amount@.len() == 1 && resp.messages@[0].amount@[0] == b.bid,
            None => resp.messages@.len() == 0,
        })
    })
    &&& (sender@ != pre.owner@ ==> (r matches Err(e) && e is Unauthorized))
    &&& ((sender@ == pre.owner@ && pre.status is Closed) ==> (r matches Err(e)
        && e is BidAlreadyClosed))
    &&& ((sender@ == pre.owner@ && pre.status is Opening && !helper::all_denom(
        balances,
        ATOM_DENOM@,
    )) ==> (r matches Err(e) && e.is_coin_supported_only(ATOM_DENOM@)))
    &&& ((sender@ == pre.owner@ && pre.status is Opening && helper::all_denom(
        balances,
        ATOM_DENOM@,
    ) && helper::sum_amounts(balances) > u128::MAX) ==> (r matches Err(e) && e is OverflowErr))
    &&& ((sender@ == pre.owner@ && pre.status is Opening && balances_ok && !payout_atom) ==> (
    r matches Err(e) && e.is_coin_supported_only(ATOM_DENOM@)))
    &&& ((sender@ == pre.owner@ && pre.status is Opening && balances_ok && payout_atom
        && helper::sum_amounts(balances) < payout) ==> (r matches Err(e) && e.is_balance_invalid(
        helper::sum_amounts(balances) as u128,
        ATOM_DENOM@,
    )))
}

/// Closes the auction: only the owner may do it, and only once. The
/// winner is fixed to the leading bidder, and the payout instruction for
/// the winning amount is returned, provided the contract's observable
/// balance backs it. With no bid at all the transition still happens and
/// no instruction is emitted.
pub fn close(state: &mut State, contract_balances: &[Coin], sender: &String) -> (r: Result<
    Response,
    ContractError,
>)
    ensures
        close_full(*old(state), *final(state), contract_balances@, *sender, r),
{
    if let Err(e) = validiate_owner(sender, &state.owner) {
        return Err(e);
    }
    if state.status.is_closed() {
        return Err(ContractError::BidAlreadyClosed {});
    }
    let highest_coin: Vec<Coin> = match &state.highest {
        Some(b) => {
            let mut v = Vec::new();
            v.push(b.bid.clone());
            v
        },
        None => Vec::new(),
    };
    proof {
        match old(state).highest {
            Some(b) => {
                assert(highest_coin@[0] == b.bid);
                assert(highest_coin@.last() == b.bid);
                assert(highest_coin@.drop_last() =~= Seq::<Coin>::empty());
                assert(helper::sum_amounts(Seq::<Coin>::empty()) == 0);
                assert(helper::sum_amounts(highest_coin@) == b.bid.amount);
                assert(helper::all_denom(highest_coin@, ATOM_DENOM@) <==> b.bid.denom@
                    == ATOM_DENOM@);
            },
            None => {
                assert(highest_coin@ =~= Seq::<Coin>::empty());
                assert(helper::sum_amounts(highest_coin@) == 0);
                assert(helper::all_denom(highest_coin@, ATOM_DENOM@));
            },
        }
    }
    // the payout must be backed before the transition is committed
    if let Err(e) = validiate_balances(contract_balances, highest_coin.as_slice()) {
        return Err(e);
    }
    state.status = BidStatus::Closed {};
    let winner = match &state.highest {
        Some(b) => Some(b.bidder.clone()),
        None => None,
    };
    state.winner = winner;
    let resp = if highest_coin.len() > 0 {
        Response::new().add_message(
            BankMsg { to_address: sender.clone(), amount: highest_coin },
        )
    } else {
        Response::new()
    };
    let resp = resp.add_attribute("action", "close").add_attribute("sender", sender.as_str());
    Ok(resp)
}

/// The whole contract of [`retract`]: when it succeeds, what it clears,
/// what transfer it emits, and which error each rejected input produces.
pub open spec fn retract_full(
    pre: State,
    prel: Map<Seq<char>, u128>,
    postl: Map<Seq<char>, u128>,
    balances: Seq<Coin>,
    sender: String,
    receiver: Option<String>,
    r: Result<Response, ContractError>,
) -> bool {
    let m = abs(pre, prel);
    let target = target_of(receiver, sender@);
    let commission = pre.commission.amount;
    let entry_ok = prel.contains_key(target) && prel[target] > 0;
    let refund = prel[target] - commission;
    let balances_ok = helper::all_denom(balances, ATOM_DENOM@) && helper::sum_amounts(balances)
        <= u128::MAX;
    let allowed = pre.status is Closed && sender@ != pre.owner@ && (match pre.winner {
        Some(w) => w@ != sender@,
        None => true,
    });
    &&& (r is Ok <==> retract_ok(m, sender@, target, balances))
    &&& (r is Err ==> postl == prel)
    &&& (r matches Ok(resp) ==> {
        &&& postl == prel.insert(target, 0u128)
        &&& resp.messages@.len() == 1
        &&& resp.messages@[0].to_address@ == target
        &&& resp.messages@[0].amount@.len() == 1
        &&& resp.messages@[0].amount@[0].amount == refund
        &&& resp.messages@[0].amount@[0].denom@ == ATOM_DENOM@
        &&& resp.attributes@.len() == 3
        &&& attr_is(resp.attributes@[0], "action"@, "retract"@)
        &&& attr_is(resp.attributes@[1], "sender"@, sender@)
        &&& attr_is(resp.attributes@[2], "receiver"@, target)
    })
    &&& (!(pre.status is Closed) ==> (r matches Err(e) && e is BidIsOpening))
    &&& ((pre.status is Closed && (sender@ == pre.owner@ || (match pre.winner {
        Some(w) => w@ == sender@,
        None => false,
    }))) ==> (r matches Err(e) && e is Unauthorized))
    &&& ((allowed && !entry_ok) ==> (r matches Err(e) && e is Unauthorized))
    &&& ((allowed && entry_ok && prel[target] < commission) ==> (r matches Err(e)
        && e is OverflowErr))
    &&& ((allowed && entry_ok && prel[target] >= commission && !helper::all_denom(
        balances,
        ATOM_DENOM@,
    )) ==> (r matches Err(e) && e.is_coin_supported_only(ATOM_DENOM@)))
    &&& ((allowed && entry_ok && prel[target] >= commission && helper::all_denom(
        balances,
        ATOM_DENOM@,
    ) && helper::sum_amounts(balances) > u128::MAX) ==> (r matches Err(e) && e is OverflowErr))
    &&& ((allowed && entry_ok && prel[target] >= commission && balances_ok
        && helper::sum_amounts(balances) < refund) ==> (r matches Err(e) && e.is_balance_invalid(
        helper::sum_amounts(balances) as u128,
        ATOM_DENOM@,
    )))
}

/// Refunds a losing bidder's escrow minus the commission, once the
/// auction is closed. The refund goes to the named receiver, or to the
/// caller if none is named; authorization is always checked against the
/// caller. The cleared entry cannot be retracted a second time.
pub fn retract(
    state: &State,
    biddings: &mut Biddings,
    contract_balances: &[Coin],
    sender: &String,
    receiver: Option<String>,
) -> (r: Result<Response, ContractError>)
    requires
        old(biddings).wf(),
    ensures
        final(biddings).wf(),
        retract_full(
            *state,
            old(biddings)@,
            final(biddings)@,
            contract_balances@,
            *sender,
            receiver,
            r,
        ),
{
    if let Err(e) = can_retract(state, sender) {
        return Err(e);
    }
    let receiver_ref: &String = match &receiver {
        Some(target) => target,
        None => sender,
    };
    let amount = match biddings.may_load(receiver_ref.as_str()) {
        Some(a) => a,
        None => {
            return Err(ContractError::Unauthorized {});
        },
    };
    if amount == 0 {
        return Err(ContractError::Unauthorized {});
    }
    let refund = match amount.checked_sub(state.commission.amount) {
        Some(x) => x,
        None => {
            return Err(ContractError::OverflowErr {});
        },
    };
    let mut bids: Vec<Coin> = Vec::new();
    bids.push(Coin::new(refund, ATOM_DENOM));
    proof {
        assert(bids@.drop_last() =~= Seq::<Coin>::empty());
        assert(helper::sum_amounts(Seq::<Coin>::empty()) == 0);
        assert(helper::sum_amounts(bids@) == refund);
        assert(helper::all_denom(bids@, ATOM_DENOM@));
    }
    if let Err(e) = validiate_balances(contract_balances, bids.as_slice()) {
        return Err(e);
    }
    // clear the entry so a second retraction cannot pay it out again
    biddings.save(receiver_ref.as_str(), 0);
    let resp = Response::new().add_message(
        BankMsg { to_address: receiver_ref.clone(), amount: bids },
    ).add_attribute("action", "retract").add_attribute("sender", sender.as_str()).add_attribute(
        "receiver",
        receiver_ref.as_str(),
    );
    Ok(resp)
}

/// Dispatches a typed command to [`bid`], [`close`] or [`retract`].
pub fn execute(
    state: &mut State,
    biddings: &mut Biddings,
    contract_balances: &[Coin],
    sender: &String,
    funds: &Vec<Coin>,
    msg: ExecuteMsg,
) -> (r: Result<Response, ContractError>)
    requires
        old(biddings).wf(),
    ensures
        final(biddings).wf(),
        msg matches ExecuteMsg::Bidding { .. } ==> bid_full(
            *old(state),
            old(biddings)@,
            *final(state),
            final(biddings)@,
            *sender,
            funds@,
            r,
        ),
        msg matches ExecuteMsg::Close { .. } ==> close_full(
            *old(state),
            *final(state),
            contract_balances@,
            *sender,
            r,
        ) && final(biddings)@ == old(biddings)@,
        msg matches ExecuteMsg::Retract { receiver } ==> retract_full(
            *old(state),
            old(biddings)@,
            final(biddings)@,
            contract_balances@,
            *sender,
            receiver,
            r,
        ) && *final(state) == *old(state),
{
    match msg {
        ExecuteMsg::Bidding {} => bid(state, biddings, sender, funds),
        ExecuteMsg::Close {} => close(state, contract_balances, sender),
        ExecuteMsg::Retract { receiver } => retract(
            state,
            biddings,
            contract_balances,
            sender,
            receiver,
        ),
    }
}

/// The net refundable amount for an address: the cumulative escrow minus
/// the commission if a non-zero entry exists, else the zero coin. An
/// entry cleared by a retraction answers the zero coin, like an absent
/// one: nothing is left to retract.
pub fn query_total_bid(state: &State, biddings: &Biddings, sender: &str) -> (r: Result<
    TotalBidResp,
    ContractError,
>)
    requires
        biddings.wf(),
    ensures
        (!biddings@.contains_key(sender@) || biddings@[sender@] == 0) ==> (r matches Ok(t)
            && t.total.amount == 0 && t.total.denom@ == ATOM_DENOM@),
        (biddings@.contains_key(sender@) && biddings@[sender@] > 0 && biddings@[sender@]
            >= state.commission.amount) ==> (r matches Ok(t) && t.total.amount
            == biddings@[sender@] - state.commission.amount && t.total.denom@ == ATOM_DENOM@),
        (biddings@.contains_key(sender@) && biddings@[sender@] > 0 && biddings@[sender@]
            < state.commission.amount) ==> (r matches Err(e) && e is OverflowErr),
{
    match biddings.may_load(sender) {
        Some(amount) => {
            if amount == 0 {
                return Ok(TotalBidResp { total: Coin::new(0, ATOM_DENOM) });
            }
            match amount.checked_sub(state.commission.amount) {
                Some(total) => Ok(TotalBidResp { total: Coin::new(total, ATOM_DENOM) }),
                None => Err(ContractError::OverflowErr {}),
            }
        },
        None => Ok(TotalBidResp { total: Coin::new(0, ATOM_DENOM) }),
    }
}

/// The current leading cumulative bid, verbatim.
pub fn query_highest_of_bid(state: &State) -> (r: HighestOfBidResp)
    ensures
        r.bid == state.highest,
{
    HighestOfBidResp { bid: state.highest.clone() }
}

/// The winner fixed at close, verbatim.
pub fn query_winner(state: &State) -> (r: WinnerResp)
    ensures
        r.winner == state.winner,
{
    WinnerResp { winner: state.winner.clone() }
}

/// Answers a query without mutating anything.
pub fn query(state: &State, biddings: &Biddings, msg: QueryMsg) -> (r: Result<
    QueryResp,
    ContractError,
>)
    requires
        biddings.wf(),
    ensures
        (msg matches QueryMsg::HighestOfBid { .. }) ==> (r matches Ok(q)
            && q matches QueryResp::HighestOfBid(h) && h.bid == state.highest),
        (msg matches QueryMsg::Winner { .. }) ==> (r matches Ok(q) && q matches QueryResp::Winner(
            w,
        ) && w.winner == state.winner),
        msg matches QueryMsg::TotalBid { addr } ==> {
            &&& ((!biddings@.contains_key(addr@) || biddings@[addr@] == 0) ==> (r matches Ok(q)
                && q matches QueryResp::TotalBid(t) && t.total.amount == 0 && t.total.denom@
                == ATOM_DENOM@))
            &&& ((biddings@.contains_key(addr@) && biddings@[addr@] > 0 && biddings@[addr@]
                >= state.commission.amount) ==> (r matches Ok(q) && q matches QueryResp::TotalBid(
                t,
            ) && t.total.amount == biddings@[addr@] - state.commission.amount && t.total.denom@
                == ATOM_DENOM@))
            &&& ((biddings@.contains_key(addr@) && biddings@[addr@] > 0 && biddings@[addr@]
                < state.commission.amount) ==> (r matches Err(e) && e is OverflowErr))
        },
{
    match msg {
        QueryMsg::TotalBid { addr } => {
            match query_total_bid(state, biddings, addr.as_str()) {
                Ok(t) => Ok(QueryResp::TotalBid(t)),
                Err(e) => Err(e),
            }
        },
        QueryMsg::HighestOfBid {} => Ok(QueryResp::HighestOfBid(query_highest_of_bid(state))),
        QueryMsg::Winner {} => Ok(QueryResp::Winner(query_winner(state))),
    }
}

} // verus!
