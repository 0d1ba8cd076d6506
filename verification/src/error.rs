//! The reasons for which an operation on the auction is refused.

use vstd::prelude::*;

use crate::msg::{Coin, CoinView};

verus! {

/// The arithmetic operation that left the range of 128-bit amounts.
#[derive(Clone, Copy, Debug, PartialEq, Eq)]
pub enum OverflowOperation {
    Add,
    Sub,
}

/// A failure that is not particular to auctions.
#[derive(Clone, Debug, PartialEq, Eq)]
pub enum StdError {
    /// A refusal by the host, such as that of the identity validator, with its reason.
    GenericErr { msg: String },
    /// `operand1 operation operand2` is not a 128-bit amount.
    Overflow { operation: OverflowOperation, operand1: u128, operand2: u128 },
}

/// What a [`StdError`] says, with its text as a sequence of characters.
pub enum StdErrorView {
    GenericErr { msg: Seq<char> },
    Overflow { operation: OverflowOperation, operand1: nat, operand2: nat },
}

impl View for StdError {
    type V = StdErrorView;

    open spec fn view(&self) -> StdErrorView {
        match *self {
            StdError::GenericErr { msg } => StdErrorView::GenericErr { msg: msg@ },
            StdError::Overflow { operation, operand1, operand2 } => StdErrorView::Overflow {
                operation,
                operand1: operand1 as nat,
                operand2: operand2 as nat,
            },
        }
    }
}

/// Why the auction refused a call. A refused call leaves the auction as it was.
#[derive(Clone, Debug, PartialEq, Eq)]
pub enum ContractError {
    /// A failure that is not particular to auctions.
    Std(StdError),
    /// The proportional commission asked for at creation exceeds 25%.
    InvalidCommissionPart,
    /// Only `owner` may make this call.
    Unauthorized { owner: String },
    /// The owner of the item cannot bid on it.
    OwnerCannotBid,
    /// The bidder's cumulative total does not exceed the leading bid, `highest_bid`.
    BidRejected { highest_bid: Coin },
    /// The call carried no funds in the denomination of the auction, `denom`.
    BidRejectedMissingTokensInDenom { denom: String },
    /// The auction is closed.
    BidClosed,
    /// The auction is still open.
    BidOpen,
}

/// What a [`ContractError`] says, over the views of its fields.
pub enum ContractErrorView {
    Std(StdErrorView),
    InvalidCommissionPart,
    Unauthorized { owner: Seq<char> },
    OwnerCannotBid,
    BidRejected { highest_bid: CoinView },
    BidRejectedMissingTokensInDenom { denom: Seq<char> },
    BidClosed,
    BidOpen,
}

impl View for ContractError {
    type V = ContractErrorView;

    open spec fn view(&self) -> ContractErrorView {
        match *self {
            ContractError::Std(e) => ContractErrorView::Std(e@),
            ContractError::InvalidCommissionPart => ContractErrorView::InvalidCommissionPart,
            ContractError::Unauthorized { owner } => ContractErrorView::Unauthorized {
                owner: owner@,
            },
            ContractError::OwnerCannotBid => ContractErrorView::OwnerCannotBid,
            ContractError::BidRejected { highest_bid } => ContractErrorView::BidRejected {
                highest_bid: highest_bid@,
            },
            ContractError::BidRejectedMissingTokensInDenom { denom } =>
                ContractErrorView::BidRejectedMissingTokensInDenom { denom: denom@ },
            ContractError::BidClosed => ContractErrorView::BidClosed,
            ContractError::BidOpen => ContractErrorView::BidOpen,
        }
    }
}

} // verus!
