//! The calls that change the auction: bidding, closing, and retracting an escrow.

use vstd::prelude::*;

use crate::commission::compute_commission;
use crate::error::{ContractError, OverflowOperation, StdError};
use crate::model::{
    after_bid, after_close, after_retract, answers, attached, bid_result, close_result,
    retract_result,
};
use crate::msg::{
    coins_view, receiver_view, BidSummary, ClosingSummary, Coin, MessageInfo, RefundSummary,
    Transfer,
};
use crate::state::AuctionState;

verus! {

/// The amount of the first of `funds` in `denom`.
pub fn bid_funds(funds: &Vec<Coin>, denom: &String) -> (found: Option<u128>)
    ensures
        match found {
            Some(amount) => attached(coins_view(funds@), denom@) == Some(amount as nat),
            None => attached(coins_view(funds@), denom@) is None,
        },
{
    let ghost all = coins_view(funds@);
    assert(all.skip(0) =~= all);
    let mut i: usize = 0;
    while i < funds.len()
        invariant
            i <= funds@.len(),
            all == coins_view(funds@),
            attached(all, denom@) == attached(all.skip(i as int), denom@),
        decreases funds@.len() - i,
    {
        assert(all.skip(i as int)[0] == funds@[i as int]@);
        if funds[i].denom == *denom {
            return Some(funds[i].amount);
        }
        assert(all.skip(i as int).drop_first() =~= all.skip(i as int + 1));
        i += 1;
    }
    None
}

/// Bids with the funds attached to the call.
///
/// The first of the funds in the denomination of the auction is the contribution. The
/// commission is taken from it, the rest is added to what the bidder has escrowed before, and
/// the bid is accepted if that total exceeds the leading bid. An accepted bid becomes the
/// leading bid, and the commission, where there is any, is to be transferred to the owner. A
/// refused bid changes nothing.
pub fn bid(state: &mut AuctionState, info: MessageInfo) -> (res: Result<
    BidSummary,
    ContractError,
>)
    requires
        old(state).wf(),
    ensures
        final(state).wf(),
        final(state)@ == after_bid(old(state)@, info@),
        answers(res, bid_result(old(state)@, info@)),
{
    if !state.is_open() {
        return Err(ContractError::BidClosed);
    }
    if info.sender == *state.owner() {
        return Err(ContractError::OwnerCannotBid);
    }
    let gross: u128 = match bid_funds(&info.funds, state.bid_denom()) {
        Some(amount) => amount,
        None => 0,
    };
    if gross == 0 {
        return Err(
            ContractError::BidRejectedMissingTokensInDenom { denom: state.bid_denom().clone() },
        );
    }
    let policy = state.commission();
    let commission: u128 = compute_commission(gross, &policy);
    if commission > gross {
        return Err(
            ContractError::Std(
                StdError::Overflow {
                    operation: OverflowOperation::Sub,
                    operand1: gross,
                    operand2: commission,
                },
            ),
        );
    }
    let net_amount: u128 = gross - commission;
    let previous: u128 = match state.total_of(&info.sender) {
        Some(amount) => amount,
        None => 0,
    };
    if previous > u128::MAX - net_amount {
        return Err(
            ContractError::Std(
                StdError::Overflow {
                    operation: OverflowOperation::Add,
                    operand1: net_amount,
                    operand2: previous,
                },
            ),
        );
    }
    let total_amount: u128 = net_amount + previous;
    if total_amount <= state.highest_bid() {
        return Err(
            ContractError::BidRejected {
                highest_bid: Coin {
                    denom: state.bid_denom().clone(),
                    amount: state.highest_bid(),
                },
            },
        );
    }
    let transfer = if commission > 0 {
        Some(
            Transfer {
                to_address: state.owner().clone(),
                amount: Coin { denom: state.bid_denom().clone(), amount: commission },
            },
        )
    } else {
        None
    };
    state.record_bid(info.sender, total_amount);
    Ok(BidSummary { commission, net_amount, total_amount, transfer })
}

/// Closes the auction, which only its owner can do, and only once. Where a bid was accepted,
/// the leading bid is to be transferred to the owner and its bidder is the winner. The
/// winner's entry stays in the ledger.
pub fn close(state: &mut AuctionState, info: MessageInfo) -> (res: Result<
    ClosingSummary,
    ContractError,
>)
    requires
        old(state).wf(),
    ensures
        final(state).wf(),
        final(state)@ == after_close(old(state)@, info@.sender),
        answers(res, close_result(old(state)@, info@.sender)),
{
    if !state.is_open() {
        return Err(ContractError::BidClosed);
    }
    if !(info.sender == *state.owner()) {
        return Err(ContractError::Unauthorized { owner: state.owner().clone() });
    }
    state.set_closed();
    let closing_bid: u128 = state.highest_bid();
    if closing_bid == 0 {
        return Ok(ClosingSummary { winner: None, closing_bid, transfer: None });
    }
    let winner = match state.highest_bidder() {
        Some(bidder) => Some(bidder.clone()),
        None => None,
    };
    let transfer = Transfer {
        to_address: state.owner().clone(),
        amount: Coin { denom: state.bid_denom().clone(), amount: closing_bid },
    };
    Ok(ClosingSummary { winner, closing_bid, transfer: Some(transfer) })
}

/// Withdraws the caller's escrow from a closed auction.
///
/// `receiver` is what the identity validator answered for the beneficiary that the caller
/// named, if any. A caller without an entry in the ledger gets nothing, whatever the receiver.
/// Otherwise the entry leaves the ledger and its amount is to be transferred to the validated
/// receiver, or to the caller where none was named; a receiver that the validator refused
/// fails the call with the validator's reason.
pub fn retract(
    state: &mut AuctionState,
    info: MessageInfo,
    receiver: Option<Result<String, StdError>>,
) -> (res: Result<RefundSummary, ContractError>)
    requires
        old(state).wf(),
    ensures
        final(state).wf(),
        final(state)@ == after_retract(old(state)@, info@.sender, receiver_view(receiver)),
        answers(res, retract_result(old(state)@, info@.sender, receiver_view(receiver))),
{
    if state.is_open() {
        return Err(ContractError::BidOpen);
    }
    let amount: u128 = match state.total_of(&info.sender) {
        Some(amount) => amount,
        None => {
            assert(state@.bids.remove(info@.sender) =~= state@.bids);
            return Ok(RefundSummary { transfer: None });
        },
    };
    let beneficiary = match receiver {
        Some(Err(refusal)) => {
            return Err(ContractError::Std(refusal));
        },
        Some(Ok(validated)) => validated,
        None => info.sender.clone(),
    };
    let denom = state.bid_denom().clone();
    state.remove_account(&info.sender);
    Ok(
        RefundSummary {
            transfer: Some(Transfer { to_address: beneficiary, amount: Coin { denom, amount } }),
        },
    )
}

} // verus!
