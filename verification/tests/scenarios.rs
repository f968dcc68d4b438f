//! Scenario coverage of the state machine: tie-breaking, authorization,
//! the one-shot close transition, and retraction ordering.

use bidding::contract::{
    bid, close, execute, instantiate, query, query_total_bid, query_winner, retract,
};
use bidding::error::ContractError;
use bidding::helper::Coin;
use bidding::msg::{ExecuteMsg, InstantiateMsg, QueryMsg, QueryResp};
use bidding::state::{BidStatus, Biddings, State};
use bidding::ATOM_DENOM;

fn bidder1() -> String {
    "sei18rszd3tmgpjvjwq2qajtmn5jqvtscd2yuygl4z".to_string()
}

fn bidder2() -> String {
    "sei1aan9kqywf4rf274cal0hj6eyly6wu0uv7edxy2".to_string()
}

fn owner() -> String {
    "sei1zj6fjsc2gkce878ukzg6g9wy8cl8p554dlggxd".to_string()
}

fn coin(amount: u128) -> Coin {
    Coin::new(amount, ATOM_DENOM)
}

fn coins(amount: u128) -> Vec<Coin> {
    vec![coin(amount)]
}

fn setup(tick: u128, commission: u128) -> (State, Biddings) {
    let state = instantiate(
        owner(),
        InstantiateMsg::new("bidding".to_string(), tick, commission),
    );
    (state, Biddings::new())
}

#[test]
fn tie_bid_is_rejected_and_higher_wins() {
    let (mut state, mut biddings) = setup(1, 1);

    bid(&mut state, &mut biddings, &bidder1(), &coins(2)).unwrap();
    let highest = state.highest.as_ref().unwrap();
    assert_eq!(highest.bid, coin(2));
    assert_eq!(highest.bidder, bidder1());

    // a tie does not take the lead; the error names the current highest
    // as the threshold to exceed
    let err = bid(&mut state, &mut biddings, &bidder2(), &coins(2)).unwrap_err();
    assert_eq!(err, ContractError::BidTooLowErr { less_than: coin(2) });
    let highest = state.highest.as_ref().unwrap();
    assert_eq!(highest.bid, coin(2));
    assert_eq!(highest.bidder, bidder1());

    bid(&mut state, &mut biddings, &bidder2(), &coins(3)).unwrap();
    let highest = state.highest.as_ref().unwrap();
    assert_eq!(highest.bid, coin(3));
    assert_eq!(highest.bidder, bidder2());
}

#[test]
fn bid_too_low_reports_the_highest() {
    let (mut state, mut biddings) = setup(1, 1);

    bid(&mut state, &mut biddings, &bidder1(), &coins(5)).unwrap();

    // bidder2's cumulative amount is 1; the error carries the leading 5
    let err = bid(&mut state, &mut biddings, &bidder2(), &coins(1)).unwrap_err();
    assert_eq!(err, ContractError::BidTooLowErr { less_than: coin(5) });
}

#[test]
fn bid_after_close_is_rejected() {
    let (mut state, mut biddings) = setup(1, 1);

    bid(&mut state, &mut biddings, &bidder1(), &coins(2)).unwrap();
    close(&mut state, &coins(2), &owner()).unwrap();

    // a closed auction accepts no further bid, however high
    let err = bid(&mut state, &mut biddings, &bidder2(), &coins(9)).unwrap_err();
    assert_eq!(err, ContractError::BidAlreadyClosed {});
    assert_eq!(state.highest.as_ref().unwrap().bidder, bidder1());
    assert_eq!(state.winner, Some(bidder1()));
    assert_eq!(biddings.may_load(&bidder2()), None);
}

#[test]
fn total_bid_after_retract_is_zero() {
    let (mut state, mut biddings) = setup(1, 1);

    bid(&mut state, &mut biddings, &bidder1(), &coins(2)).unwrap();
    bid(&mut state, &mut biddings, &bidder2(), &coins(3)).unwrap();
    close(&mut state, &coins(5), &owner()).unwrap();
    retract(&state, &mut biddings, &coins(2), &bidder1(), None).unwrap();

    // the cleared entry leaves nothing to retract
    let resp = query_total_bid(&state, &biddings, &bidder1()).unwrap();
    assert_eq!(resp.total, coin(0));
}

#[test]
fn owner_bid_is_unauthorized() {
    let (mut state, mut biddings) = setup(1, 1);

    let err = bid(&mut state, &mut biddings, &owner(), &coins(2)).unwrap_err();
    assert_eq!(err, ContractError::Unauthorized {});
    assert_eq!(state.highest, None);
}

#[test]
fn close_pays_owner_and_losers_retract() {
    let (mut state, mut biddings) = setup(1, 1);

    bid(&mut state, &mut biddings, &bidder1(), &coins(2)).unwrap();
    bid(&mut state, &mut biddings, &bidder2(), &coins(3)).unwrap();

    let resp = close(&mut state, &coins(5), &owner()).unwrap();
    assert_eq!(state.status, BidStatus::Closed {});
    assert_eq!(state.winner, Some(bidder2()));
    assert_eq!(resp.messages.len(), 1);
    assert_eq!(resp.messages[0].to_address, owner());
    assert_eq!(resp.messages[0].amount, coins(3));

    // the loser gets the escrow minus the commission
    let resp = retract(&state, &mut biddings, &coins(2), &bidder1(), None).unwrap();
    assert_eq!(resp.messages.len(), 1);
    assert_eq!(resp.messages[0].to_address, bidder1());
    assert_eq!(resp.messages[0].amount, coins(1));

    // the winner's escrow is the sale price, never refundable
    let err = retract(&state, &mut biddings, &coins(1), &bidder2(), None).unwrap_err();
    assert_eq!(err, ContractError::Unauthorized {});
}

#[test]
fn close_by_non_owner_keeps_opening() {
    let (mut state, _biddings) = setup(1, 1);

    let err = close(&mut state, &[], &bidder1()).unwrap_err();
    assert_eq!(err, ContractError::Unauthorized {});
    assert_eq!(state.status, BidStatus::Opening {});
    assert_eq!(state.winner, None);
}

#[test]
fn retract_before_close_is_rejected() {
    let (mut state, mut biddings) = setup(1, 1);

    bid(&mut state, &mut biddings, &bidder1(), &coins(2)).unwrap();

    let err = retract(&state, &mut biddings, &coins(2), &bidder1(), None).unwrap_err();
    assert_eq!(err, ContractError::BidIsOpening {});
}

#[test]
fn second_close_fails_and_keeps_winner() {
    let (mut state, mut biddings) = setup(1, 1);

    bid(&mut state, &mut biddings, &bidder1(), &coins(2)).unwrap();
    close(&mut state, &coins(2), &owner()).unwrap();
    assert_eq!(state.winner, Some(bidder1()));

    let err = close(&mut state, &coins(2), &owner()).unwrap_err();
    assert_eq!(err, ContractError::BidAlreadyClosed {});
    assert_eq!(state.status, BidStatus::Closed {});
    assert_eq!(state.winner, Some(bidder1()));
}

#[test]
fn close_without_bids_emits_no_transfer() {
    let (mut state, _biddings) = setup(1, 1);

    let resp = close(&mut state, &[], &owner()).unwrap();
    assert_eq!(state.status, BidStatus::Closed {});
    assert_eq!(state.winner, None);
    assert_eq!(resp.messages.len(), 0);
}

#[test]
fn close_with_unbacked_payout_is_rejected() {
    let (mut state, mut biddings) = setup(1, 1);

    bid(&mut state, &mut biddings, &bidder1(), &coins(5)).unwrap();

    let err = close(&mut state, &coins(4), &owner()).unwrap_err();
    assert_eq!(
        err,
        ContractError::ContractBalanceInvalidErr { amount: coin(4) }
    );
    assert_eq!(state.status, BidStatus::Opening {});
}

#[test]
fn retract_twice_is_rejected() {
    let (mut state, mut biddings) = setup(1, 1);

    bid(&mut state, &mut biddings, &bidder1(), &coins(2)).unwrap();
    bid(&mut state, &mut biddings, &bidder2(), &coins(3)).unwrap();
    close(&mut state, &coins(5), &owner()).unwrap();

    retract(&state, &mut biddings, &coins(2), &bidder1(), None).unwrap();

    // the cleared entry cannot be paid out a second time
    let err = retract(&state, &mut biddings, &coins(1), &bidder1(), None).unwrap_err();
    assert_eq!(err, ContractError::Unauthorized {});
}

#[test]
fn retract_with_receiver_pays_the_receiver() {
    let (mut state, mut biddings) = setup(1, 1);

    bid(&mut state, &mut biddings, &bidder1(), &coins(2)).unwrap();
    bid(&mut state, &mut biddings, &bidder2(), &coins(3)).unwrap();
    close(&mut state, &coins(5), &owner()).unwrap();

    // a third party may trigger the refund of bidder1's escrow, and the
    // transfer goes to the named receiver; authorization is checked
    // against the caller
    let caller: String = "inj1g9v8suckezwx93zypckd4xg03r26h6ejlmsptz".to_string();
    let resp = retract(&state, &mut biddings, &coins(2), &caller, Some(bidder1())).unwrap();
    assert_eq!(resp.messages[0].to_address, bidder1());
    assert_eq!(resp.messages[0].amount, coins(1));
}

#[test]
fn execute_dispatches_commands() {
    let (mut state, mut biddings) = setup(1, 1);

    execute(
        &mut state,
        &mut biddings,
        &[],
        &bidder1(),
        &coins(2),
        ExecuteMsg::Bidding {},
    )
    .unwrap();
    assert_eq!(state.highest.as_ref().unwrap().bid, coin(2));

    execute(
        &mut state,
        &mut biddings,
        &coins(2),
        &owner(),
        &Vec::new(),
        ExecuteMsg::Close {},
    )
    .unwrap();
    assert_eq!(state.status, BidStatus::Closed {});

    let err = execute(
        &mut state,
        &mut biddings,
        &coins(2),
        &bidder1(),
        &Vec::new(),
        ExecuteMsg::Retract { receiver: None },
    )
    .unwrap_err();
    assert_eq!(err, ContractError::Unauthorized {});
}

#[test]
fn query_dispatches_questions() {
    let (mut state, mut biddings) = setup(1, 1);

    bid(&mut state, &mut biddings, &bidder1(), &coins(2)).unwrap();

    let answer = query(
        &state,
        &biddings,
        QueryMsg::TotalBid { addr: bidder1() },
    )
    .unwrap();
    match answer {
        QueryResp::TotalBid(t) => assert_eq!(t.total, coin(1)),
        _ => panic!("wrong answer kind"),
    }

    let answer = query(&state, &biddings, QueryMsg::HighestOfBid {}).unwrap();
    match answer {
        QueryResp::HighestOfBid(h) => assert_eq!(h.bid.unwrap().bid, coin(2)),
        _ => panic!("wrong answer kind"),
    }

    let answer = query(&state, &biddings, QueryMsg::Winner {}).unwrap();
    match answer {
        QueryResp::Winner(w) => assert_eq!(w.winner, None),
        _ => panic!("wrong answer kind"),
    }
    assert_eq!(query_winner(&state).winner, None);
}
