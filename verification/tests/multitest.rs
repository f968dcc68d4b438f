//! The end-to-end auction flows, driven against the engine with a small
//! simulated host: the tests track each wallet and the contract balance
//! themselves and apply the transfer instructions the engine returns.

use bidding::contract::{
    bid, close, instantiate, query_highest_of_bid, query_total_bid, query_winner, retract,
};
use bidding::error::ContractError;
use bidding::helper::{zero_atom, Coin};
use bidding::msg::InstantiateMsg;
use bidding::response::Response;
use bidding::state::{Bid, Biddings, State};
use bidding::ATOM_DENOM;

fn alice() -> String {
    "sei18rszd3tmgpjvjwq2qajtmn5jqvtscd2yuygl4z".to_string()
}

fn bob() -> String {
    "sei1aan9kqywf4rf274cal0hj6eyly6wu0uv7edxy2".to_string()
}

fn owner() -> String {
    "sei1zj6fjsc2gkce878ukzg6g9wy8cl8p554dlggxd".to_string()
}

fn coin(amount: u128) -> Coin {
    Coin::new(amount, ATOM_DENOM)
}

fn coins(amount: u128) -> Vec<Coin> {
    vec![coin(amount)]
}

fn setup(owner: String, tick: u128, commission: u128) -> (State, Biddings) {
    let state = instantiate(
        owner,
        InstantiateMsg::new("bidding".to_string(), tick, commission),
    );
    (state, Biddings::new())
}

/// The total the response instructs the host to pay to `addr`.
fn paid_to(resp: &Response, addr: &str) -> u128 {
    let mut total: u128 = 0;
    for msg in &resp.messages {
        if msg.to_address == addr {
            for c in &msg.amount {
                assert_eq!(c.denom, ATOM_DENOM);
                total += c.amount;
            }
        }
    }
    total
}

#[test]
fn query_total_bid_should_works() {
    let (state, biddings) = setup(alice(), 2, 1);

    let resp = query_total_bid(&state, &biddings, &bob()).unwrap();

    assert_eq!(resp.total, zero_atom());
}

#[test]
fn query_winner_highest_not_closed_should_works() {
    let (state, _biddings) = setup(alice(), 1, 1);

    let resp = query_winner(&state);
    assert_eq!(resp.winner, None);

    let resp = query_highest_of_bid(&state);
    assert_eq!(resp.bid, None);
}

#[test]
fn bid_should_works() {
    let (mut state, mut biddings) = setup(owner(), 1, 1);
    let mut contract_balance: u128 = 0;

    // alice bids first
    bid(&mut state, &mut biddings, &alice(), &coins(2)).unwrap();
    contract_balance += 2;

    let alice_total = query_total_bid(&state, &biddings, &alice()).unwrap();
    assert_eq!(alice_total.total, coin(1));

    let highest = query_highest_of_bid(&state);
    assert_eq!(
        highest.bid,
        Some(Bid {
            bid: coin(2),
            bidder: alice()
        })
    );

    let winner = query_winner(&state);
    assert!(winner.winner.is_none());

    // bob bids second, but fails
    let err = bid(&mut state, &mut biddings, &bob(), &coins(2)).unwrap_err();
    assert_eq!(err, ContractError::BidTooLowErr { less_than: coin(2) });

    // bob bids again
    bid(&mut state, &mut biddings, &bob(), &coins(3)).unwrap();
    contract_balance += 3;

    let bob_total = query_total_bid(&state, &biddings, &bob()).unwrap();
    assert_eq!(bob_total.total, coin(2));

    let highest = query_highest_of_bid(&state);
    assert_eq!(
        highest.bid,
        Some(Bid {
            bid: coin(3),
            bidder: bob()
        })
    );

    // bob adds to his cumulative amount
    bid(&mut state, &mut biddings, &bob(), &coins(1)).unwrap();
    contract_balance += 1;

    let highest = query_highest_of_bid(&state);
    assert_eq!(
        highest.bid,
        Some(Bid {
            bid: coin(4),
            bidder: bob()
        })
    );

    // alice bids again, too low
    let err = bid(&mut state, &mut biddings, &alice(), &coins(2)).unwrap_err();
    assert_eq!(err, ContractError::BidTooLowErr { less_than: coin(4) });

    bid(&mut state, &mut biddings, &alice(), &coins(3)).unwrap();
    contract_balance += 3;

    let highest = query_highest_of_bid(&state);
    assert_eq!(
        highest.bid,
        Some(Bid {
            bid: coin(5),
            bidder: alice()
        })
    );

    let alice_total = query_total_bid(&state, &biddings, &alice()).unwrap();
    assert_eq!(alice_total.total, coin(4));

    assert_eq!(contract_balance, 9);
}

#[test]
fn close_bid_retract_should_works() {
    let (mut state, mut biddings) = setup(owner(), 1, 1);
    let mut contract_balance: u128 = 0;
    let mut bob_balance: u128 = 10;
    let mut owner_balance: u128 = 0;

    // alice bids first
    bid(&mut state, &mut biddings, &alice(), &coins(2)).unwrap();
    contract_balance += 2;

    // bob bids second
    bid(&mut state, &mut biddings, &bob(), &coins(3)).unwrap();
    bob_balance -= 3;
    contract_balance += 3;

    // alice bids again
    bid(&mut state, &mut biddings, &alice(), &coins(3)).unwrap();
    contract_balance += 3;

    let highest = query_highest_of_bid(&state);
    assert_eq!(
        highest.bid,
        Some(Bid {
            bid: coin(5),
            bidder: alice()
        })
    );

    // check the contract total and balance
    let alice_total = query_total_bid(&state, &biddings, &alice()).unwrap();
    assert_eq!(alice_total.total, coin(4));

    assert_eq!(contract_balance, 8);

    // the owner closes the bid
    let resp = close(&mut state, &coins(contract_balance), &owner()).unwrap();
    let payout: u128 = paid_to(&resp, &owner());
    contract_balance -= payout;
    owner_balance += payout;

    assert_eq!(contract_balance, 3);
    assert_eq!(owner_balance, 5);

    // bob retracts his funds
    let resp = retract(
        &state,
        &mut biddings,
        &coins(contract_balance),
        &bob(),
        None,
    )
    .unwrap();
    let refund: u128 = paid_to(&resp, &bob());
    contract_balance -= refund;
    bob_balance += refund;

    assert_eq!(bob_balance, 9);

    let err = retract(
        &state,
        &mut biddings,
        &coins(contract_balance),
        &alice(),
        None,
    )
    .unwrap_err();
    assert_eq!(err, ContractError::Unauthorized {});
}

#[test]
fn close_not_owner_should_fails() {
    let (mut state, _biddings) = setup(owner(), 1, 1);

    let err = close(&mut state, &[], &alice()).unwrap_err();
    assert_eq!(err, ContractError::Unauthorized {});
}
