//! The messages that the auction takes and the answers it gives.

use vstd::prelude::*;

use crate::commission::Decimal;
use crate::error::{StdError, StdErrorView};

verus! {

/// An amount of one currency.
#[derive(Clone, Debug, PartialEq, Eq)]
pub struct Coin {
    pub denom: String,
    pub amount: u128,
}

/// What a [`Coin`] holds.
pub struct CoinView {
    pub denom: Seq<char>,
    pub amount: nat,
}

impl View for Coin {
    type V = CoinView;

    open spec fn view(&self) -> CoinView {
        CoinView { denom: self.denom@, amount: self.amount as nat }
    }
}

/// The coins of a list, one by one.
pub open spec fn coins_view(coins: Seq<Coin>) -> Seq<CoinView> {
    Seq::new(coins.len(), |i: int| coins[i]@)
}

/// The characters of a text that may be absent.
pub open spec fn text_view(text: Option<String>) -> Option<Seq<char>> {
    match text {
        Some(t) => Some(t@),
        None => None,
    }
}

/// Who makes a call, and the funds that come with it.
#[derive(Clone, Debug, PartialEq, Eq)]
pub struct MessageInfo {
    /// The validated identity of the caller.
    pub sender: String,
    /// The funds attached to the call. Only the first entry in the denomination of the auction
    /// counts as a bid.
    pub funds: Vec<Coin>,
}

/// What a [`MessageInfo`] holds.
pub struct MessageInfoView {
    pub sender: Seq<char>,
    pub funds: Seq<CoinView>,
}

impl View for MessageInfo {
    type V = MessageInfoView;

    open spec fn view(&self) -> MessageInfoView {
        MessageInfoView { sender: self.sender@, funds: coins_view(self.funds@) }
    }
}

/// The terms on which an auction is created.
#[derive(Clone, Debug, PartialEq, Eq)]
pub struct InstantiateMsg {
    /// A description of the item for sale.
    pub item: String,
    /// The one denomination in which bids count.
    pub bid_denom: String,
    /// The validated identity of the owner, where it is not the creator.
    pub owner: Option<String>,
    /// The flat fee that every contribution pays at least.
    pub commission_minimum_tokens: u128,
    /// The proportional part of every contribution that goes to the owner, at most 25%.
    pub commission_part: Decimal,
}

/// What an [`InstantiateMsg`] holds.
pub struct InstantiateMsgView {
    pub item: Seq<char>,
    pub bid_denom: Seq<char>,
    pub owner: Option<Seq<char>>,
    pub commission_minimum_tokens: u128,
    pub commission_part: Decimal,
}

impl View for InstantiateMsg {
    type V = InstantiateMsgView;

    open spec fn view(&self) -> InstantiateMsgView {
        InstantiateMsgView {
            item: self.item@,
            bid_denom: self.bid_denom@,
            owner: text_view(self.owner),
            commission_minimum_tokens: self.commission_minimum_tokens,
            commission_part: self.commission_part,
        }
    }
}

/// The questions that an observer may ask.
#[derive(Clone, Debug, PartialEq, Eq)]
pub enum QueryMsg {
    /// What is the leading bid, and whose?
    HighestBid {},
    /// What has the bidder with the validated identity `addr` escrowed?
    TotalBid { addr: String },
}

/// What a [`QueryMsg`] asks.
pub enum QueryMsgView {
    HighestBid,
    TotalBid { addr: Seq<char> },
}

impl View for QueryMsg {
    type V = QueryMsgView;

    open spec fn view(&self) -> QueryMsgView {
        match *self {
            QueryMsg::HighestBid {  } => QueryMsgView::HighestBid,
            QueryMsg::TotalBid { addr } => QueryMsgView::TotalBid { addr: addr@ },
        }
    }
}

/// What the identity validator answered for the beneficiary that a retraction names: the
/// validated identity, or the validator's refusal.
pub open spec fn receiver_view(receiver: Option<Result<String, StdError>>) -> Option<
    Result<Seq<char>, StdErrorView>,
> {
    match receiver {
        Some(Ok(r)) => Some(Ok(r@)),
        Some(Err(e)) => Some(Err(e@)),
        None => None,
    }
}

/// The calls that change the auction.
#[derive(Clone, Debug, PartialEq, Eq)]
pub enum ExecuteMsg {
    /// Bid with the funds attached to the call.
    Bid {},
    /// Close the auction and pay the owner.
    Close {},
    /// Withdraw the caller's escrow, to `receiver` where one is named. `receiver` carries the
    /// identity validator's answer for the name given.
    Retract { receiver: Option<Result<String, StdError>> },
}

/// What an [`ExecuteMsg`] asks.
pub enum ExecuteMsgView {
    Bid,
    Close,
    Retract { receiver: Option<Result<Seq<char>, StdErrorView>> },
}

impl View for ExecuteMsg {
    type V = ExecuteMsgView;

    open spec fn view(&self) -> ExecuteMsgView {
        match *self {
            ExecuteMsg::Bid {  } => ExecuteMsgView::Bid,
            ExecuteMsg::Close {  } => ExecuteMsgView::Close,
            ExecuteMsg::Retract { receiver } => ExecuteMsgView::Retract {
                receiver: receiver_view(receiver),
            },
        }
    }
}

/// An instruction to the host to move `amount` from the auction's escrow to `to_address`.
#[derive(Clone, Debug, PartialEq, Eq)]
pub struct Transfer {
    pub to_address: String,
    pub amount: Coin,
}

/// What a [`Transfer`] holds.
pub struct TransferView {
    pub to_address: Seq<char>,
    pub amount: CoinView,
}

impl View for Transfer {
    type V = TransferView;

    open spec fn view(&self) -> TransferView {
        TransferView { to_address: self.to_address@, amount: self.amount@ }
    }
}

/// The view of a transfer that may be absent.
pub open spec fn transfer_view(transfer: Option<Transfer>) -> Option<TransferView> {
    match transfer {
        Some(t) => Some(t@),
        None => None,
    }
}

/// The account of an accepted bid.
#[derive(Clone, Debug, PartialEq, Eq)]
pub struct BidSummary {
    /// The commission taken from this contribution.
    pub commission: u128,
    /// What this contribution added to the bidder's total.
    pub net_amount: u128,
    /// The bidder's cumulative total, now the leading bid.
    pub total_amount: u128,
    /// The payment of the commission to the owner, where there is any.
    pub transfer: Option<Transfer>,
}

/// What a [`BidSummary`] holds.
pub struct BidSummaryView {
    pub commission: nat,
    pub net_amount: nat,
    pub total_amount: nat,
    pub transfer: Option<TransferView>,
}

impl View for BidSummary {
    type V = BidSummaryView;

    open spec fn view(&self) -> BidSummaryView {
        BidSummaryView {
            commission: self.commission as nat,
            net_amount: self.net_amount as nat,
            total_amount: self.total_amount as nat,
            transfer: transfer_view(self.transfer),
        }
    }
}

/// The account of a closing.
#[derive(Clone, Debug, PartialEq, Eq)]
pub struct ClosingSummary {
    /// The leading bidder at closing, where any bid was accepted.
    pub winner: Option<String>,
    /// The winning amount; zero where no bid was accepted.
    pub closing_bid: u128,
    /// The payment of the winning amount to the owner, where there is any.
    pub transfer: Option<Transfer>,
}

/// What a [`ClosingSummary`] holds.
pub struct ClosingSummaryView {
    pub winner: Option<Seq<char>>,
    pub closing_bid: nat,
    pub transfer: Option<TransferView>,
}

impl View for ClosingSummary {
    type V = ClosingSummaryView;

    open spec fn view(&self) -> ClosingSummaryView {
        ClosingSummaryView {
            winner: text_view(self.winner),
            closing_bid: self.closing_bid as nat,
            transfer: transfer_view(self.transfer),
        }
    }
}

/// The account of a retraction.
#[derive(Clone, Debug, PartialEq, Eq)]
pub struct RefundSummary {
    /// The refund of the caller's escrow, where the caller had any.
    pub transfer: Option<Transfer>,
}

/// What a [`RefundSummary`] holds.
pub struct RefundSummaryView {
    pub transfer: Option<TransferView>,
}

impl View for RefundSummary {
    type V = RefundSummaryView;

    open spec fn view(&self) -> RefundSummaryView {
        RefundSummaryView { transfer: transfer_view(self.transfer) }
    }
}

/// The answer to a call that changes the auction.
#[derive(Clone, Debug, PartialEq, Eq)]
pub enum Response {
    Bid(BidSummary),
    Close(ClosingSummary),
    Retract(RefundSummary),
}

/// What a [`Response`] holds.
pub enum ResponseView {
    Bid(BidSummaryView),
    Close(ClosingSummaryView),
    Retract(RefundSummaryView),
}

impl View for Response {
    type V = ResponseView;

    open spec fn view(&self) -> ResponseView {
        match *self {
            Response::Bid(s) => ResponseView::Bid(s@),
            Response::Close(s) => ResponseView::Close(s@),
            Response::Retract(s) => ResponseView::Retract(s@),
        }
    }
}

/// The leading bid as an observer sees it.
#[derive(Clone, Debug, PartialEq, Eq)]
pub struct HighestBidResponse {
    /// Whether the auction is closed.
    pub bid_closed: bool,
    /// The leading bidder of a closed auction.
    pub winner: Option<String>,
    /// The leading bidder.
    pub bidder: Option<String>,
    /// The leading bid, where any bid was accepted.
    pub amount: Option<Coin>,
}

/// What a [`HighestBidResponse`] holds.
pub struct HighestBidResponseView {
    pub bid_closed: bool,
    pub winner: Option<Seq<char>>,
    pub bidder: Option<Seq<char>>,
    pub amount: Option<CoinView>,
}

/// The view of a coin that may be absent.
pub open spec fn coin_view(coin: Option<Coin>) -> Option<CoinView> {
    match coin {
        Some(c) => Some(c@),
        None => None,
    }
}

impl View for HighestBidResponse {
    type V = HighestBidResponseView;

    open spec fn view(&self) -> HighestBidResponseView {
        HighestBidResponseView {
            bid_closed: self.bid_closed,
            winner: text_view(self.winner),
            bidder: text_view(self.bidder),
            amount: coin_view(self.amount),
        }
    }
}

impl Default for HighestBidResponse {
    /// The answer while the auction is open and no bid was accepted.
    fn default() -> (resp: HighestBidResponse)
        ensures
            resp@ == (HighestBidResponseView {
                bid_closed: false,
                winner: None,
                bidder: None,
                amount: None,
            }),
    {
        HighestBidResponse { bid_closed: false, winner: None, bidder: None, amount: None }
    }
}

impl HighestBidResponse {
    /// The same answer with `winner` as the winner.
    pub fn with_winner(self, winner: String) -> (resp: HighestBidResponse)
        ensures
            resp@ == (HighestBidResponseView { winner: Some(winner@), ..self@ }),
    {
        let mut resp = self;
        resp.winner = Some(winner);
        resp
    }

    /// The same answer with `amount` as the leading bid, held by `bidder`.
    pub fn with_bidder(self, bidder: String, amount: Coin) -> (resp: HighestBidResponse)
        ensures
            resp@ == (HighestBidResponseView {
                bidder: Some(bidder@),
                amount: Some(amount@),
                ..self@
            }),
    {
        let mut resp = self;
        resp.bidder = Some(bidder);
        resp.amount = Some(amount);
        resp
    }
}

/// One bidder's escrow as an observer sees it.
#[derive(Clone, Debug, PartialEq, Eq)]
pub struct TotalBidResponse {
    /// Whether the auction is closed.
    pub bid_closed: bool,
    /// The bidder's cumulative total, where the ledger holds one.
    pub amount: Option<Coin>,
}

/// What a [`TotalBidResponse`] holds.
pub struct TotalBidResponseView {
    pub bid_closed: bool,
    pub amount: Option<CoinView>,
}

impl View for TotalBidResponse {
    type V = TotalBidResponseView;

    open spec fn view(&self) -> TotalBidResponseView {
        TotalBidResponseView { bid_closed: self.bid_closed, amount: coin_view(self.amount) }
    }
}

impl Default for TotalBidResponse {
    /// The answer for an identity without an entry while the auction is open.
    fn default() -> (resp: TotalBidResponse)
        ensures
            resp@ == (TotalBidResponseView { bid_closed: false, amount: None }),
    {
        TotalBidResponse { bid_closed: false, amount: None }
    }
}

/// The answer to a question.
#[derive(Clone, Debug, PartialEq, Eq)]
pub enum QueryResponse {
    HighestBid(HighestBidResponse),
    TotalBid(TotalBidResponse),
}

/// What a [`QueryResponse`] holds.
pub enum QueryResponseView {
    HighestBid(HighestBidResponseView),
    TotalBid(TotalBidResponseView),
}

impl View for QueryResponse {
    type V = QueryResponseView;

    open spec fn view(&self) -> QueryResponseView {
        match *self {
            QueryResponse::HighestBid(r) => QueryResponseView::HighestBid(r@),
            QueryResponse::TotalBid(r) => QueryResponseView::TotalBid(r@),
        }
    }
}

} // verus!
