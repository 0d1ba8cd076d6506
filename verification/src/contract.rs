//! The operations of the auction: its creation here, the calls that change it in
//! [`execute`], and the questions about it in [`query`].

use vstd::prelude::*;

use crate::commission::MAX_COMMISSION_PART;
use crate::error::ContractError;
use crate::model::{answers, instantiate_result};
use crate::msg::{InstantiateMsg, MessageInfo};
use crate::state::{AuctionState, CommissionParams};

pub mod execute;
pub mod query;

verus! {

/// Creates an auction on the terms of `msg`: open, with no bid yet, and owned by the owner
/// that `msg` names or else by the caller. A proportional commission of more than 25% is
/// refused.
pub fn instantiate(info: MessageInfo, msg: InstantiateMsg) -> (res: Result<
    AuctionState,
    ContractError,
>)
    ensures
        answers(res, instantiate_result(info@, msg@)),
        res matches Ok(state) ==> state.wf(),
{
    if msg.commission_part.atomics > MAX_COMMISSION_PART {
        return Err(ContractError::InvalidCommissionPart);
    }
    let owner = match msg.owner {
        Some(specified_owner) => specified_owner,
        None => info.sender,
    };
    let commission = CommissionParams {
        part: msg.commission_part,
        minimum_tokens: msg.commission_minimum_tokens,
    };
    Ok(AuctionState::open(msg.item, msg.bid_denom, owner, commission))
}

} // verus!
