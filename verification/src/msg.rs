//! The typed command and query surface of the auction.

use vstd::prelude::*;

use crate::helper::Coin;
use crate::state::Bid;

verus! {

/// What the auction is created with.
#[derive(Debug, PartialEq, Eq)]
pub struct InstantiateMsg {
    pub name: String,
    pub tick: u128,
    pub commission: u128,
}

impl InstantiateMsg {
    pub fn new(name: String, tick: u128, commission: u128) -> (m: InstantiateMsg)
        ensures
            m.name == name,
            m.tick == tick,
            m.commission == commission,
    {
        InstantiateMsg { name, tick, commission }
    }
}

/// A command entering the auction engine.
#[derive(Debug, PartialEq, Eq)]
pub enum ExecuteMsg {
    Bidding {},
    Close {},
    Retract { receiver: Option<String> },
}

/// A read-only question about the auction.
#[derive(Debug, PartialEq, Eq)]
pub enum QueryMsg {
    TotalBid { addr: String },
    HighestOfBid {},
    Winner {},
}

/// The net refundable amount for an address.
#[derive(Debug, PartialEq, Eq)]
pub struct TotalBidResp {
    pub total: Coin,
}

/// The current leading cumulative bid, if any.
#[derive(Debug, PartialEq, Eq)]
pub struct HighestOfBidResp {
    pub bid: Option<Bid>,
}

/// The winner fixed at close, if any.
#[derive(Debug, PartialEq, Eq)]
pub struct WinnerResp {
    pub winner: Option<String>,
}

/// The typed answer to a [`QueryMsg`].
#[derive(Debug, PartialEq, Eq)]
pub enum QueryResp {
    TotalBid(TotalBidResp),
    HighestOfBid(HighestOfBidResp),
    Winner(WinnerResp),
}

} // verus!
