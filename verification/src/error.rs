//! The error taxonomy of the auction engine.

use vstd::prelude::*;

use crate::helper::Coin;

verus! {

/// Every way an auction operation can be rejected. Each operation's
/// contract says exactly which variant comes back on which inputs.
#[derive(Debug, PartialEq, Eq)]
pub enum ContractError {
    /// The caller may not perform this action.
    Unauthorized {},
    /// Close was attempted a second time, or Bid after a close.
    BidAlreadyClosed {},
    /// Retract was attempted while the auction is still open.
    BidIsOpening {},
    /// The cumulative bid does not strictly exceed the current highest;
    /// `less_than` carries the current highest as the threshold the
    /// caller must exceed.
    BidTooLowErr { less_than: Coin },
    /// Two coins of different denominations were combined.
    CoinOperationErr { first: String, second: String },
    /// A coin of an unsupported denomination was attached.
    CoinSupportedOnlyErr { denom: String },
    /// The contract's observable balance does not back the owed payout;
    /// `amount` carries the balance that was found.
    ContractBalanceInvalidErr { amount: Coin },
    /// A round's contribution is below the tick or the commission;
    /// `total_bid` carries the rejected contribution.
    InvalidBidErr { total_bid: Coin },
    /// Unsigned arithmetic would have wrapped.
    OverflowErr {},
}

impl ContractError {
    /// The error is `BidTooLowErr` carrying exactly this coin.
    pub open spec fn is_bid_too_low(self, amount: u128, denom: Seq<char>) -> bool {
        self matches ContractError::BidTooLowErr { less_than }
            && less_than.amount == amount && less_than.denom@ == denom
    }

    /// The error is `CoinOperationErr` carrying exactly these denominations.
    pub open spec fn is_coin_operation(self, first: Seq<char>, second: Seq<char>) -> bool {
        self matches ContractError::CoinOperationErr { first: f, second: s }
            && f@ == first && s@ == second
    }

    /// The error is `CoinSupportedOnlyErr` carrying exactly this denomination.
    pub open spec fn is_coin_supported_only(self, denom: Seq<char>) -> bool {
        self matches ContractError::CoinSupportedOnlyErr { denom: d } && d@ == denom
    }

    /// The error is `ContractBalanceInvalidErr` carrying exactly this coin.
    pub open spec fn is_balance_invalid(self, amount: u128, denom: Seq<char>) -> bool {
        self matches ContractError::ContractBalanceInvalidErr { amount: a }
            && a.amount == amount && a.denom@ == denom
    }

    /// The error is `InvalidBidErr` carrying exactly this coin.
    pub open spec fn is_invalid_bid(self, amount: u128, denom: Seq<char>) -> bool {
        self matches ContractError::InvalidBidErr { total_bid }
            && total_bid.amount == amount && total_bid.denom@ == denom
    }
}

} // verus!
