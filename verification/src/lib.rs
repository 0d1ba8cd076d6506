//! A single-item English auction with escrowed bids.
//!
//! Bidders escrow funds with each bid; the auction tracks every bidder's cumulative
//! contribution net of commission, and the highest of them. The owner closes the auction and is
//! paid the winning amount; afterwards the other bidders withdraw what they escrowed.
//!
//! The auction is an explicit [`state::AuctionState`] that every operation takes by reference.
//! Funds are never moved here: operations answer with transfer instructions for the host.

use vstd::prelude::*;

use crate::error::ContractError;
use crate::model::{
    after_execute, answers, execute_result, instantiate_result, query_view,
};
use crate::msg::{
    ExecuteMsg, InstantiateMsg, MessageInfo, QueryMsg, QueryResponse, Response,
};
use crate::state::AuctionState;

pub mod commission;
pub mod contract;
pub mod error;
pub mod laws;
pub mod model;
pub mod msg;
pub mod state;

verus! {

/// Creates an auction on the terms of `msg`, owned by the owner that `msg` names or else by
/// the caller.
pub fn instantiate(info: MessageInfo, msg: InstantiateMsg) -> (res: Result<
    AuctionState,
    ContractError,
>)
    ensures
        answers(res, instantiate_result(info@, msg@)),
        res matches Ok(state) ==> state.wf(),
{
    contract::instantiate(info, msg)
}

/// Answers a question about the auction.
pub fn query(state: &AuctionState, msg: QueryMsg) -> (resp: QueryResponse)
    requires
        state.wf(),
    ensures
        resp@ == query_view(state@, msg@),
{
    match msg {
        QueryMsg::HighestBid {  } => QueryResponse::HighestBid(
            contract::query::highest_bid(state),
        ),
        QueryMsg::TotalBid { addr } => QueryResponse::TotalBid(
            contract::query::total_bid(state, addr),
        ),
    }
}

/// Makes the call that `msg` asks for on behalf of the caller in `info`. A call that fails
/// leaves the auction as it was.
pub fn execute(state: &mut AuctionState, info: MessageInfo, msg: ExecuteMsg) -> (res: Result<
    Response,
    ContractError,
>)
    requires
        old(state).wf(),
    ensures
        final(state).wf(),
        final(state)@ == after_execute(old(state)@, info@, msg@),
        answers(res, execute_result(old(state)@, info@, msg@)),
{
    match msg {
        ExecuteMsg::Bid {  } => match contract::execute::bid(state, info) {
            Ok(summary) => Ok(Response::Bid(summary)),
            Err(e) => Err(e),
        },
        ExecuteMsg::Close {  } => match contract::execute::close(state, info) {
            Ok(summary) => Ok(Response::Close(summary)),
            Err(e) => Err(e),
        },
        ExecuteMsg::Retract { receiver } => match contract::execute::retract(
            state,
            info,
            receiver,
        ) {
            Ok(summary) => Ok(Response::Retract(summary)),
            Err(e) => Err(e),
        },
    }
}

} // verus!
