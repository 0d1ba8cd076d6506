//! What holds of the auction whatever calls are made.

use vstd::prelude::*;

use crate::commission::{commission_fee, scaled_ceil, DECIMAL_FRACTIONAL};
use crate::error::{ContractErrorView, StdErrorView};
use crate::model::{
    after_bid, after_close, after_retract, attached, bid_result, close_result,
    instantiate_result, retract_result, Auction,
};
use crate::msg::{CoinView, InstantiateMsgView, MessageInfoView};
use crate::state::CommissionParams;

verus! {

/// The auction after each of `calls` has bid in turn, accepted or not.
pub open spec fn after_bids(a: Auction, calls: Seq<MessageInfoView>) -> Auction
    decreases calls.len(),
{
    if calls.len() == 0 {
        a
    } else {
        after_bid(after_bids(a, calls.drop_last()), calls.last())
    }
}

/// A new auction is sound and open, and has no bid.
pub proof fn lemma_new_auction(info: MessageInfoView, msg: InstantiateMsgView)
    requires
        instantiate_result(info, msg) is Ok,
    ensures
        instantiate_result(info, msg)->Ok_0.wf(),
        instantiate_result(info, msg)->Ok_0.bid_open,
        instantiate_result(info, msg)->Ok_0.highest_bid == 0,
        instantiate_result(info, msg)->Ok_0.bids == Map::<Seq<char>, nat>::empty(),
{
}

/// A sound auction is sound after a bid, accepted or not, and stays open.
pub proof fn lemma_bid_keeps_wf(a: Auction, info: MessageInfoView)
    requires
        a.wf(),
    ensures
        after_bid(a, info).wf(),
        after_bid(a, info).bid_open == a.bid_open,
{
}

/// A sound auction is sound after a closing, granted or not.
pub proof fn lemma_close_keeps_wf(a: Auction, sender: Seq<char>)
    requires
        a.wf(),
    ensures
        after_close(a, sender).wf(),
{
}

/// A sound auction is sound after a retraction, granted or not.
pub proof fn lemma_retract_keeps_wf(
    a: Auction,
    sender: Seq<char>,
    receiver: Option<Result<Seq<char>, StdErrorView>>,
)
    requires
        a.wf(),
    ensures
        after_retract(a, sender, receiver).wf(),
{
}

/// While a sound auction is open, its leading bid is the greatest of the escrowed totals, and
/// zero where nothing is escrowed.
pub proof fn lemma_highest_is_maximum(a: Auction)
    requires
        a.wf(),
        a.bid_open,
    ensures
        a.highest_is_maximum(),
{
    match a.highest_bidder {
        Some(b) => {
            assert(a.bids.dom().contains(b) && a.bids[b] == a.highest_bid);
        },
        None => {
            assert forall|b: Seq<char>| !a.bids.dom().contains(b) by {
                if a.bids.dom().contains(b) {
                    assert(0 < a.bids[b] <= a.highest_bid);
                }
            }
        },
    }
}

/// Through any sequence of bids on a sound open auction, accepted or not, the leading bid is
/// at every point the greatest of the escrowed totals.
pub proof fn lemma_highest_is_maximum_after_bids(a: Auction, calls: Seq<MessageInfoView>)
    requires
        a.wf(),
        a.bid_open,
    ensures
        forall|n: int|
            0 <= n <= calls.len() ==> (#[trigger] after_bids(a, calls.take(n))).highest_is_maximum(),
        after_bids(a, calls).wf(),
        after_bids(a, calls).bid_open,
    decreases calls.len(),
{
    assert forall|n: int| 0 <= n <= calls.len() implies (#[trigger] after_bids(
        a,
        calls.take(n),
    )).highest_is_maximum() && after_bids(a, calls.take(n)).wf() && after_bids(
        a,
        calls.take(n),
    ).bid_open by {
        let prefix = calls.take(n);
        if n == 0 {
            lemma_highest_is_maximum(a);
        } else {
            let before = prefix.drop_last();
            lemma_highest_is_maximum_after_bids(a, before);
            lemma_bid_keeps_wf(after_bids(a, before), prefix.last());
            lemma_highest_is_maximum(after_bids(a, prefix));
        }
    }
    assert(calls.take(calls.len() as int) =~= calls);
}

/// A bid whose total does not exceed the leading bid is refused, and the auction is as it was.
/// Where nothing else stands against the bid, the refusal names the leading bid.
pub proof fn lemma_bid_not_above_highest_is_rejected(a: Auction, info: MessageInfoView)
    requires
        a.wf(),
        attached(info.funds, a.bid_denom) matches Some(gross) && {
            let fee = commission_fee(gross, a.commission);
            fee <= gross && gross - fee + a.total_of(info.sender) <= a.highest_bid
        },
    ensures
        bid_result(a, info) is Err,
        after_bid(a, info) == a,
        a.bid_open && info.sender != a.owner && attached(info.funds, a.bid_denom) != Some(0nat)
            ==> (bid_result(a, info) matches Err(ContractErrorView::BidRejected { highest_bid })
            && highest_bid == CoinView { denom: a.bid_denom, amount: a.highest_bid }),
{
}

/// A refused bid, closing or retraction leaves the auction as it was.
pub proof fn lemma_refused_call_changes_nothing(
    a: Auction,
    info: MessageInfoView,
    receiver: Option<Result<Seq<char>, StdErrorView>>,
)
    ensures
        bid_result(a, info) is Err ==> after_bid(a, info) == a,
        close_result(a, info.sender) is Err ==> after_close(a, info.sender) == a,
        retract_result(a, info.sender, receiver) is Err ==> after_retract(
            a,
            info.sender,
            receiver,
        ) == a,
{
}

/// The commission is the proportional part of the contribution rounded up to the next whole
/// unit, or the flat minimum where that is more; with no part and no minimum it is zero.
pub proof fn lemma_commission(gross_amount: nat, policy: CommissionParams)
    ensures
        commission_fee(gross_amount, policy) >= 0,
        policy.part.atomics == 0 && policy.minimum_tokens == 0 ==> commission_fee(
            gross_amount,
            policy,
        ) == 0,
        ({
            let proportional = scaled_ceil(gross_amount, policy.part.atomics as nat);
            &&& proportional * DECIMAL_FRACTIONAL >= gross_amount * policy.part.atomics
            &&& (proportional - 1) * DECIMAL_FRACTIONAL < gross_amount * policy.part.atomics
            &&& commission_fee(gross_amount, policy) == if proportional
                >= policy.minimum_tokens {
                proportional
            } else {
                policy.minimum_tokens as nat
            }
        }),
{
    let product = gross_amount * (policy.part.atomics as nat);
    assert(policy.part.atomics == 0 ==> product == 0) by (nonlinear_arith)
        requires
            product == gross_amount * (policy.part.atomics as nat),
    ;
    let proportional = scaled_ceil(gross_amount, policy.part.atomics as nat);
    assert(product == (product / 1_000_000_000_000_000_000) * 1_000_000_000_000_000_000 + product
        % 1_000_000_000_000_000_000);
}

/// Once the auction is closed, every bid and every closing fails for that reason, and no
/// retraction fails for want of a closing.
pub proof fn lemma_closed_auction(
    a: Auction,
    info: MessageInfoView,
    receiver: Option<Result<Seq<char>, StdErrorView>>,
)
    requires
        !a.bid_open,
    ensures
        bid_result(a, info) matches Err(ContractErrorView::BidClosed),
        close_result(a, info.sender) matches Err(ContractErrorView::BidClosed),
        after_bid(a, info) == a,
        after_close(a, info.sender) == a,
        !(retract_result(a, info.sender, receiver) matches Err(ContractErrorView::BidOpen)),
        retract_result(a, info.sender, receiver) is Err ==> a.bids.dom().contains(info.sender)
            && receiver matches Some(Err(_)),
        !after_close(a, info.sender).bid_open,
        !after_bid(a, info).bid_open,
        !after_retract(a, info.sender, receiver).bid_open,
{
}

/// While the auction is open, every retraction fails for that reason, and a closing fails
/// only for a caller who is not the owner.
pub proof fn lemma_open_auction(
    a: Auction,
    info: MessageInfoView,
    receiver: Option<Result<Seq<char>, StdErrorView>>,
)
    requires
        a.bid_open,
    ensures
        retract_result(a, info.sender, receiver) matches Err(ContractErrorView::BidOpen),
        after_retract(a, info.sender, receiver) == a,
        !(close_result(a, info.sender) matches Err(ContractErrorView::BidClosed)),
        info.sender == a.owner <==> close_result(a, info.sender) is Ok,
        info.sender != a.owner ==> (close_result(a, info.sender) matches Err(
            ContractErrorView::Unauthorized { owner },
        ) && owner == a.owner),
{
}

} // verus!
