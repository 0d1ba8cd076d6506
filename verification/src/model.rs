//! The auction as a state machine over mathematical values.
//!
//! [`Auction`] is what an [`AuctionState`](crate::state::AuctionState) stands for. Each
//! operation of the auction is given here twice: as the answer it owes (`*_result`) and as the
//! auction it leaves behind (`after_*`). The executable operations are specified by these.

use vstd::prelude::*;

use crate::commission::{commission_fee, MAX_COMMISSION_PART};
use crate::error::{ContractErrorView, OverflowOperation, StdErrorView};
use crate::msg::{
    BidSummaryView, ClosingSummaryView, CoinView, ExecuteMsgView, HighestBidResponseView,
    InstantiateMsgView, MessageInfoView, QueryMsgView, QueryResponseView, RefundSummaryView,
    ResponseView, TotalBidResponseView, TransferView,
};
use crate::state::CommissionParams;

verus! {

/// The ledger of one auction.
pub struct Auction {
    /// A description of the item for sale.
    pub item: Seq<char>,
    /// The one denomination in which bids count.
    pub bid_denom: Seq<char>,
    /// Who sells the item, collects the commission and is paid at closing.
    pub owner: Seq<char>,
    /// The commission policy.
    pub commission: CommissionParams,
    /// Whether bids are still taken.
    pub bid_open: bool,
    /// Every bidder's cumulative contribution, net of commission.
    pub bids: Map<Seq<char>, nat>,
    /// The leading bid; zero before the first accepted bid.
    pub highest_bid: nat,
    /// Who holds the leading bid.
    pub highest_bidder: Option<Seq<char>>,
}

impl Auction {
    /// What `bidder` has escrowed so far.
    pub open spec fn total_of(self, bidder: Seq<char>) -> nat {
        if self.bids.dom().contains(bidder) {
            self.bids[bidder]
        } else {
            0
        }
    }

    /// The leading bid is the greatest of the escrowed totals, and zero where there is none.
    pub open spec fn highest_is_maximum(self) -> bool {
        &&& forall|b: Seq<char>| #[trigger]
            self.bids.dom().contains(b) ==> self.bids[b] <= self.highest_bid
        &&& if self.highest_bid == 0 {
            self.bids.dom() =~= Set::<Seq<char>>::empty()
        } else {
            exists|b: Seq<char>| #[trigger]
                self.bids.dom().contains(b) && self.bids[b] == self.highest_bid
        }
    }

    /// What holds of every auction that was created and then only bid on, closed and
    /// retracted from: the proportional commission is at most 25%; every entry is above zero
    /// and not above the leading bid; the owner has none; there is a leading bidder exactly
    /// where the leading bid is above zero; the leading bidder's entry is the leading bid, and
    /// cannot be missing before the auction is closed.
    pub open spec fn wf(self) -> bool {
        &&& self.commission.part.atomics <= MAX_COMMISSION_PART
        &&& self.highest_bid <= u128::MAX
        &&& forall|b: Seq<char>| #[trigger]
            self.bids.dom().contains(b) ==> 0 < self.bids[b] <= self.highest_bid
        &&& !self.bids.dom().contains(self.owner)
        &&& (self.highest_bidder is None <==> self.highest_bid == 0)
        &&& match self.highest_bidder {
            Some(b) => {
                &&& self.bid_open ==> self.bids.dom().contains(b)
                &&& self.bids.dom().contains(b) ==> self.bids[b] == self.highest_bid
            },
            None => true,
        }
    }
}

/// `res` is the answer `owed`, view for view.
pub open spec fn answers<T: View, E: View>(res: Result<T, E>, owed: Result<T::V, E::V>) -> bool {
    match res {
        Ok(t) => owed == Ok::<T::V, E::V>(t@),
        Err(e) => owed == Err::<T::V, E::V>(e@),
    }
}

/// The auction that `instantiate` creates, or why it creates none.
pub open spec fn instantiate_result(info: MessageInfoView, msg: InstantiateMsgView) -> Result<
    Auction,
    ContractErrorView,
> {
    if msg.commission_part.atomics > MAX_COMMISSION_PART {
        Err(ContractErrorView::InvalidCommissionPart)
    } else {
        Ok(
            Auction {
                item: msg.item,
                bid_denom: msg.bid_denom,
                owner: match msg.owner {
                    Some(owner) => owner,
                    None => info.sender,
                },
                commission: CommissionParams {
                    part: msg.commission_part,
                    minimum_tokens: msg.commission_minimum_tokens,
                },
                bid_open: true,
                bids: Map::empty(),
                highest_bid: 0,
                highest_bidder: None,
            },
        )
    }
}

/// The amount of the first of `funds` in `denom`.
pub open spec fn attached(funds: Seq<CoinView>, denom: Seq<char>) -> Option<nat>
    decreases funds.len(),
{
    if funds.len() == 0 {
        None
    } else if funds[0].denom == denom {
        Some(funds[0].amount)
    } else {
        attached(funds.drop_first(), denom)
    }
}

/// The answer that a bid is owed. The checks come in this order: the auction is open; the
/// bidder is not the owner; funds in the denomination of the auction are attached and not
/// zero; they cover the commission; the bidder's new total is a 128-bit amount; it exceeds the
/// leading bid.
pub open spec fn bid_result(a: Auction, info: MessageInfoView) -> Result<
    BidSummaryView,
    ContractErrorView,
> {
    if !a.bid_open {
        Err(ContractErrorView::BidClosed)
    } else if info.sender == a.owner {
        Err(ContractErrorView::OwnerCannotBid)
    } else {
        match attached(info.funds, a.bid_denom) {
            None => Err(ContractErrorView::BidRejectedMissingTokensInDenom { denom: a.bid_denom }),
            Some(gross) => {
                let fee = commission_fee(gross, a.commission);
                let net = (gross - fee) as nat;
                let total = net + a.total_of(info.sender);
                if gross == 0 {
                    Err(ContractErrorView::BidRejectedMissingTokensInDenom { denom: a.bid_denom })
                } else if fee > gross {
                    Err(
                        ContractErrorView::Std(
                            StdErrorView::Overflow {
                                operation: OverflowOperation::Sub,
                                operand1: gross,
                                operand2: fee,
                            },
                        ),
                    )
                } else if total > u128::MAX {
                    Err(
                        ContractErrorView::Std(
                            StdErrorView::Overflow {
                                operation: OverflowOperation::Add,
                                operand1: net,
                                operand2: a.total_of(info.sender),
                            },
                        ),
                    )
                } else if total <= a.highest_bid {
                    Err(
                        ContractErrorView::BidRejected {
                            highest_bid: CoinView { denom: a.bid_denom, amount: a.highest_bid },
                        },
                    )
                } else {
                    Ok(
                        BidSummaryView {
                            commission: fee,
                            net_amount: net,
                            total_amount: total,
                            transfer: if fee > 0 {
                                Some(
                                    TransferView {
                                        to_address: a.owner,
                                        amount: CoinView { denom: a.bid_denom, amount: fee },
                                    },
                                )
                            } else {
                                None
                            },
                        },
                    )
                }
            },
        }
    }
}

/// The auction after a bid: an accepted bid becomes the bidder's total and the leading bid, a
/// refused one changes nothing.
pub open spec fn after_bid(a: Auction, info: MessageInfoView) -> Auction {
    match bid_result(a, info) {
        Ok(summary) => Auction {
            bids: a.bids.insert(info.sender, summary.total_amount),
            highest_bid: summary.total_amount,
            highest_bidder: Some(info.sender),
            ..a
        },
        Err(_) => a,
    }
}

/// The answer that a closing by `sender` is owed: only the owner closes, and only once.
pub open spec fn close_result(a: Auction, sender: Seq<char>) -> Result<
    ClosingSummaryView,
    ContractErrorView,
> {
    if !a.bid_open {
        Err(ContractErrorView::BidClosed)
    } else if sender != a.owner {
        Err(ContractErrorView::Unauthorized { owner: a.owner })
    } else if a.highest_bid == 0 {
        Ok(ClosingSummaryView { winner: None, closing_bid: 0, transfer: None })
    } else {
        Ok(
            ClosingSummaryView {
                winner: a.highest_bidder,
                closing_bid: a.highest_bid,
                transfer: Some(
                    TransferView {
                        to_address: a.owner,
                        amount: CoinView { denom: a.bid_denom, amount: a.highest_bid },
                    },
                ),
            },
        )
    }
}

/// The auction after a closing by `sender`. The winner's entry stays in the ledger.
pub open spec fn after_close(a: Auction, sender: Seq<char>) -> Auction {
    if close_result(a, sender) is Ok {
        Auction { bid_open: false, ..a }
    } else {
        a
    }
}

/// The answer that a retraction by `sender` is owed. `receiver` is what the identity validator
/// said of the beneficiary that the caller named, if any; a refusal matters only where a
/// refund is due.
pub open spec fn retract_result(
    a: Auction,
    sender: Seq<char>,
    receiver: Option<Result<Seq<char>, StdErrorView>>,
) -> Result<RefundSummaryView, ContractErrorView> {
    if a.bid_open {
        Err(ContractErrorView::BidOpen)
    } else if !a.bids.dom().contains(sender) {
        Ok(RefundSummaryView { transfer: None })
    } else {
        match receiver {
            Some(Err(refusal)) => Err(ContractErrorView::Std(refusal)),
            Some(Ok(beneficiary)) => Ok(
                RefundSummaryView {
                    transfer: Some(
                        TransferView {
                            to_address: beneficiary,
                            amount: CoinView { denom: a.bid_denom, amount: a.bids[sender] },
                        },
                    ),
                },
            ),
            None => Ok(
                RefundSummaryView {
                    transfer: Some(
                        TransferView {
                            to_address: sender,
                            amount: CoinView { denom: a.bid_denom, amount: a.bids[sender] },
                        },
                    ),
                },
            ),
        }
    }
}

/// The auction after a retraction by `sender`: a refund takes the caller's entry out of the
/// ledger.
pub open spec fn after_retract(
    a: Auction,
    sender: Seq<char>,
    receiver: Option<Result<Seq<char>, StdErrorView>>,
) -> Auction {
    if retract_result(a, sender, receiver) is Ok {
        Auction { bids: a.bids.remove(sender), ..a }
    } else {
        a
    }
}

/// The leading bid as an observer sees it: nothing before the first accepted bid, and the
/// leading bidder as winner once the auction is closed.
pub open spec fn highest_bid_view(a: Auction) -> HighestBidResponseView {
    let bidder = if a.highest_bid > 0 {
        a.highest_bidder
    } else {
        None
    };
    HighestBidResponseView {
        bid_closed: !a.bid_open,
        winner: if a.bid_open {
            None
        } else {
            bidder
        },
        bidder,
        amount: if a.highest_bid > 0 {
            Some(CoinView { denom: a.bid_denom, amount: a.highest_bid })
        } else {
            None
        },
    }
}

/// The escrow of `addr` as an observer sees it, whether the auction is open or closed.
pub open spec fn total_bid_view(a: Auction, addr: Seq<char>) -> TotalBidResponseView {
    TotalBidResponseView {
        bid_closed: !a.bid_open,
        amount: if a.bids.dom().contains(addr) {
            Some(CoinView { denom: a.bid_denom, amount: a.bids[addr] })
        } else {
            None
        },
    }
}

/// The answer that a call is owed, by the kind of the call.
pub open spec fn execute_result(a: Auction, info: MessageInfoView, msg: ExecuteMsgView) -> Result<
    ResponseView,
    ContractErrorView,
> {
    match msg {
        ExecuteMsgView::Bid => match bid_result(a, info) {
            Ok(summary) => Ok(ResponseView::Bid(summary)),
            Err(e) => Err(e),
        },
        ExecuteMsgView::Close => match close_result(a, info.sender) {
            Ok(summary) => Ok(ResponseView::Close(summary)),
            Err(e) => Err(e),
        },
        ExecuteMsgView::Retract { receiver } => match retract_result(a, info.sender, receiver) {
            Ok(summary) => Ok(ResponseView::Retract(summary)),
            Err(e) => Err(e),
        },
    }
}

/// The auction after a call, by the kind of the call.
pub open spec fn after_execute(a: Auction, info: MessageInfoView, msg: ExecuteMsgView) -> Auction {
    match msg {
        ExecuteMsgView::Bid => after_bid(a, info),
        ExecuteMsgView::Close => after_close(a, info.sender),
        ExecuteMsgView::Retract { receiver } => after_retract(a, info.sender, receiver),
    }
}

/// The answer to a question, by the kind of the question.
pub open spec fn query_view(a: Auction, msg: QueryMsgView) -> QueryResponseView {
    match msg {
        QueryMsgView::HighestBid => QueryResponseView::HighestBid(highest_bid_view(a)),
        QueryMsgView::TotalBid { addr } => QueryResponseView::TotalBid(total_bid_view(a, addr)),
    }
}

} // verus!
