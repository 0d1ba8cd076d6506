//! The questions that an observer may ask of the auction. They change nothing.

use vstd::prelude::*;

use crate::model::{highest_bid_view, total_bid_view};
use crate::msg::{Coin, HighestBidResponse, TotalBidResponse};
use crate::state::AuctionState;

verus! {

/// The leading bid and its bidder, where a bid was accepted, and whether the auction is
/// closed. The leading bidder of a closed auction is its winner.
pub fn highest_bid(state: &AuctionState) -> (resp: HighestBidResponse)
    requires
        state.wf(),
    ensures
        resp@ == highest_bid_view(state@),
{
    let mut resp = HighestBidResponse::default();
    let highest_bid: u128 = state.highest_bid();
    if highest_bid > 0 {
        resp.amount = Some(Coin { denom: state.bid_denom().clone(), amount: highest_bid });
        if let Some(highest_bidder) = state.highest_bidder() {
            resp.bidder = Some(highest_bidder.clone());
        }
    }
    if !state.is_open() {
        resp.bid_closed = true;
        resp.winner =
        match &resp.bidder {
            Some(bidder) => Some(bidder.clone()),
            None => None,
        };
    }
    resp
}

/// What the bidder with the validated identity `addr` has escrowed, where the ledger holds an
/// entry for them, and whether the auction is closed.
pub fn total_bid(state: &AuctionState, addr: String) -> (resp: TotalBidResponse)
    requires
        state.wf(),
    ensures
        resp@ == total_bid_view(state@, addr@),
{
    let mut resp = TotalBidResponse::default();
    resp.bid_closed = !state.is_open();
    if let Some(amount) = state.total_of(&addr) {
        resp.amount = Some(Coin { denom: state.bid_denom().clone(), amount });
    }
    resp
}

} // verus!
