//! The ledger of one auction.
//!
//! [`AuctionState`] records the terms of an auction, every bidder's escrow and the leading
//! bid. It stands for an [`Auction`]; readers are public, and only the operations of this
//! crate write.

use vstd::prelude::*;

use crate::commission::{Decimal, MAX_COMMISSION_PART};
use crate::model::Auction;
use crate::msg::text_view;

verus! {

/// The commission policy of an auction: on every contribution the owner collects the
/// proportional `part` of it, rounded up, and at least `minimum_tokens`.
#[derive(Clone, Copy, Debug, PartialEq, Eq)]
pub struct CommissionParams {
    pub part: Decimal,
    pub minimum_tokens: u128,
}

/// One bidder's entry in the ledger: the cumulative contribution, net of commission.
#[derive(Clone, Debug, PartialEq, Eq)]
pub struct BidderAccount {
    pub bidder: String,
    pub amount: u128,
}

/// No bidder has two entries.
pub open spec fn distinct_bidders(accounts: Seq<BidderAccount>) -> bool {
    forall|i: int, j: int|
        0 <= i < j < accounts.len() ==> (#[trigger] accounts[i]).bidder@ != (
        #[trigger] accounts[j]).bidder@
}

/// `bidder` has an entry.
pub open spec fn has_account(accounts: Seq<BidderAccount>, bidder: Seq<char>) -> bool {
    exists|i: int| 0 <= i < accounts.len() && (#[trigger] accounts[i]).bidder@ == bidder
}

/// Where the entry of `bidder` stands.
pub open spec fn account_index(accounts: Seq<BidderAccount>, bidder: Seq<char>) -> int {
    choose|i: int| 0 <= i < accounts.len() && (#[trigger] accounts[i]).bidder@ == bidder
}

/// The entries as a map from bidder to amount.
pub open spec fn accounts_map(accounts: Seq<BidderAccount>) -> Map<Seq<char>, nat> {
    Map::new(
        |bidder: Seq<char>| has_account(accounts, bidder),
        |bidder: Seq<char>| accounts[account_index(accounts, bidder)].amount as nat,
    )
}

proof fn lemma_account_at(accounts: Seq<BidderAccount>, i: int)
    requires
        distinct_bidders(accounts),
        0 <= i < accounts.len(),
    ensures
        has_account(accounts, accounts[i].bidder@),
        account_index(accounts, accounts[i].bidder@) == i,
        accounts_map(accounts).dom().contains(accounts[i].bidder@),
        accounts_map(accounts)[accounts[i].bidder@] == accounts[i].amount,
{
    let bidder = accounts[i].bidder@;
    assert(accounts[i].bidder@ == bidder);
    let k = account_index(accounts, bidder);
    assert(0 <= k < accounts.len() && accounts[k].bidder@ == bidder);
    if k < i {
        assert(accounts[k].bidder@ != accounts[i].bidder@);
    } else if i < k {
        assert(accounts[i].bidder@ != accounts[k].bidder@);
    }
}

proof fn lemma_push_account(accounts: Seq<BidderAccount>, account: BidderAccount)
    requires
        distinct_bidders(accounts),
        !has_account(accounts, account.bidder@),
    ensures
        distinct_bidders(accounts.push(account)),
        accounts_map(accounts.push(account)) == accounts_map(accounts).insert(
            account.bidder@,
            account.amount as nat,
        ),
{
    let after = accounts.push(account);
    assert forall|i: int, j: int| 0 <= i < j < after.len() implies (#[trigger] after[i]).bidder@
        != (#[trigger] after[j]).bidder@ by {
        if j == accounts.len() {
            assert(accounts[i].bidder@ != account.bidder@);
        } else {
            assert(accounts[i].bidder@ != accounts[j].bidder@);
        }
    }
    let expected = accounts_map(accounts).insert(account.bidder@, account.amount as nat);
    assert forall|b: Seq<char>| #[trigger]
        accounts_map(after).dom().contains(b) <==> expected.dom().contains(b) by {
        if has_account(after, b) {
            let i = account_index(after, b);
            if i < accounts.len() {
                assert(accounts[i].bidder@ == b);
            }
        }
        if has_account(accounts, b) {
            let i = account_index(accounts, b);
            assert(after[i].bidder@ == b);
        }
        if b == account.bidder@ {
            assert(after[accounts.len() as int].bidder@ == b);
        }
    }
    assert forall|b: Seq<char>| #[trigger] expected.dom().contains(b) implies accounts_map(
        after,
    )[b] == expected[b] by {
        if b == account.bidder@ {
            lemma_account_at(after, accounts.len() as int);
        } else {
            let i = account_index(accounts, b);
            assert(after[i] == accounts[i]);
            lemma_account_at(after, i);
        }
    }
    assert(accounts_map(after) =~= expected);
}

proof fn lemma_update_account(accounts: Seq<BidderAccount>, i: int, account: BidderAccount)
    requires
        distinct_bidders(accounts),
        0 <= i < accounts.len(),
        accounts[i].bidder@ == account.bidder@,
    ensures
        distinct_bidders(accounts.update(i, account)),
        accounts_map(accounts.update(i, account)) == accounts_map(accounts).insert(
            account.bidder@,
            account.amount as nat,
        ),
{
    let after = accounts.update(i, account);
    assert forall|j: int, k: int| 0 <= j < k < after.len() implies (#[trigger] after[j]).bidder@
        != (#[trigger] after[k]).bidder@ by {
        assert(accounts[j].bidder@ != accounts[k].bidder@);
    }
    let expected = accounts_map(accounts).insert(account.bidder@, account.amount as nat);
    assert forall|b: Seq<char>| #[trigger]
        accounts_map(after).dom().contains(b) <==> expected.dom().contains(b) by {
        if has_account(after, b) {
            let j = account_index(after, b);
            assert(accounts[j].bidder@ == b);
        }
        if has_account(accounts, b) {
            let j = account_index(accounts, b);
            assert(after[j].bidder@ == b);
        }
        if b == account.bidder@ {
            assert(after[i].bidder@ == b);
        }
    }
    assert forall|b: Seq<char>| #[trigger] expected.dom().contains(b) implies accounts_map(
        after,
    )[b] == expected[b] by {
        if b == account.bidder@ {
            lemma_account_at(after, i);
        } else {
            let j = account_index(accounts, b);
            assert(after[j] == accounts[j]);
            lemma_account_at(after, j);
        }
    }
    assert(accounts_map(after) =~= expected);
}

proof fn lemma_remove_account(accounts: Seq<BidderAccount>, i: int)
    requires
        distinct_bidders(accounts),
        0 <= i < accounts.len(),
    ensures
        distinct_bidders(accounts.remove(i)),
        accounts_map(accounts.remove(i)) == accounts_map(accounts).remove(accounts[i].bidder@),
{
    let after = accounts.remove(i);
    let gone = accounts[i].bidder@;
    assert forall|j: int| 0 <= j < after.len() implies #[trigger] after[j] == accounts[if j
        < i {
        j
    } else {
        j + 1
    }] by {}
    assert forall|j: int, k: int| 0 <= j < k < after.len() implies (#[trigger] after[j]).bidder@
        != (#[trigger] after[k]).bidder@ by {
        let jj = if j < i {
            j
        } else {
            j + 1
        };
        let kk = if k < i {
            k
        } else {
            k + 1
        };
        assert(accounts[jj].bidder@ != accounts[kk].bidder@);
    }
    let expected = accounts_map(accounts).remove(gone);
    assert forall|b: Seq<char>| #[trigger]
        accounts_map(after).dom().contains(b) <==> expected.dom().contains(b) by {
        if has_account(after, b) {
            let j = account_index(after, b);
            let jj = if j < i {
                j
            } else {
                j + 1
            };
            assert(accounts[jj].bidder@ == b);
            if b == gone {
                if jj < i {
                    assert(accounts[jj].bidder@ != accounts[i].bidder@);
                } else {
                    assert(accounts[i].bidder@ != accounts[jj].bidder@);
                }
            }
        }
        if has_account(accounts, b) && b != gone {
            let j = account_index(accounts, b);
            let jj = if j < i {
                j
            } else {
                j - 1
            };
            assert(after[jj].bidder@ == b);
        }
    }
    assert forall|b: Seq<char>| #[trigger] expected.dom().contains(b) implies accounts_map(
        after,
    )[b] == expected[b] by {
        let j = account_index(accounts, b);
        let jj = if j < i {
            j
        } else {
            j - 1
        };
        assert(after[jj] == accounts[j]);
        lemma_account_at(after, jj);
    }
    assert(accounts_map(after) =~= expected);
}

/// Every entry holds an amount that is not zero and not above `highest_bid`.
pub open spec fn amounts_within(accounts: Seq<BidderAccount>, highest_bid: u128) -> bool {
    forall|i: int| 0 <= i < accounts.len() ==> 0 < (#[trigger] accounts[i]).amount <= highest_bid
}

/// The auction that the parts of a ledger stand for.
pub open spec fn recorded(
    item: Seq<char>,
    bid_denom: Seq<char>,
    owner: Seq<char>,
    commission: CommissionParams,
    bid_open: bool,
    accounts: Seq<BidderAccount>,
    highest_bid: u128,
    highest_bidder: Option<Seq<char>>,
) -> Auction {
    Auction {
        item,
        bid_denom,
        owner,
        commission,
        bid_open,
        bids: accounts_map(accounts),
        highest_bid: highest_bid as nat,
        highest_bidder,
    }
}

/// Whether no bidder has two entries and every amount is within its bounds.
fn accounts_sound(accounts: &Vec<BidderAccount>, highest_bid: u128) -> (sound: bool)
    ensures
        sound == (distinct_bidders(accounts@) && amounts_within(accounts@, highest_bid)),
{
    let mut j: usize = 0;
    while j < accounts.len()
        invariant
            j <= accounts@.len(),
            forall|a: int, b: int|
                0 <= a < b < j ==> (#[trigger] accounts@[a]).bidder@ != (
                #[trigger] accounts@[b]).bidder@,
            forall|a: int| 0 <= a < j ==> 0 < (#[trigger] accounts@[a]).amount <= highest_bid,
        decreases accounts@.len() - j,
    {
        if accounts[j].amount == 0 || accounts[j].amount > highest_bid {
            return false;
        }
        let mut i: usize = 0;
        while i < j
            invariant
                i <= j < accounts@.len(),
                forall|a: int|
                    0 <= a < i ==> (#[trigger] accounts@[a]).bidder@ != accounts@[j as int].bidder@,
            decreases j - i,
        {
            if accounts[i].bidder == accounts[j].bidder {
                return false;
            }
            i += 1;
        }
        j += 1;
    }
    true
}

/// The ledger of one auction: its terms, every bidder's escrow, and the leading bid.
#[derive(Clone, Debug, PartialEq, Eq)]
pub struct AuctionState {
    item: String,
    bid_denom: String,
    owner: String,
    commission: CommissionParams,
    bid_open: bool,
    bids: Vec<BidderAccount>,
    highest_bid: u128,
    highest_bidder: Option<String>,
}

impl View for AuctionState {
    type V = Auction;

    closed spec fn view(&self) -> Auction {
        Auction {
            item: self.item@,
            bid_denom: self.bid_denom@,
            owner: self.owner@,
            commission: self.commission,
            bid_open: self.bid_open,
            bids: accounts_map(self.bids@),
            highest_bid: self.highest_bid as nat,
            highest_bidder: text_view(self.highest_bidder),
        }
    }
}

impl AuctionState {
    /// The ledger holds one entry for each bidder.
    pub closed spec fn inv(&self) -> bool {
        distinct_bidders(self.bids@)
    }

    /// The ledger is sound, and so is the auction that it stands for.
    pub open spec fn wf(&self) -> bool {
        self.inv() && self@.wf()
    }

    /// The ledger of a new auction: open, with no bid yet.
    pub(crate) fn open(
        item: String,
        bid_denom: String,
        owner: String,
        commission: CommissionParams,
    ) -> (state: AuctionState)
        requires
            commission.part.atomics <= MAX_COMMISSION_PART,
        ensures
            state.wf(),
            state@ == (Auction {
                item: item@,
                bid_denom: bid_denom@,
                owner: owner@,
                commission,
                bid_open: true,
                bids: Map::empty(),
                highest_bid: 0,
                highest_bidder: None,
            }),
    {
        let state = AuctionState {
            item,
            bid_denom,
            owner,
            commission,
            bid_open: true,
            bids: Vec::new(),
            highest_bid: 0,
            highest_bidder: None,
        };
        assert(accounts_map(state.bids@) =~= Map::empty());
        state
    }

    /// The ledger with the given parts, where no bidder has two entries and the parts make a
    /// sound auction.
    pub fn restore(
        item: String,
        bid_denom: String,
        owner: String,
        commission: CommissionParams,
        bid_open: bool,
        bids: Vec<BidderAccount>,
        highest_bid: u128,
        highest_bidder: Option<String>,
    ) -> (restored: Option<AuctionState>)
        ensures
            match restored {
                Some(state) => state.wf() && state@ == recorded(
                    item@,
                    bid_denom@,
                    owner@,
                    commission,
                    bid_open,
                    bids@,
                    highest_bid,
                    text_view(highest_bidder),
                ),
                None => !(distinct_bidders(bids@) && recorded(
                    item@,
                    bid_denom@,
                    owner@,
                    commission,
                    bid_open,
                    bids@,
                    highest_bid,
                    text_view(highest_bidder),
                ).wf()),
            },
    {
        let ghost auction = recorded(
            item@,
            bid_denom@,
            owner@,
            commission,
            bid_open,
            bids@,
            highest_bid,
            text_view(highest_bidder),
        );
        if commission.part.atomics > MAX_COMMISSION_PART {
            return None;
        }
        if highest_bidder.is_none() != (highest_bid == 0) {
            return None;
        }
        if !accounts_sound(&bids, highest_bid) {
            proof {
                if distinct_bidders(bids@) {
                    let i = choose|i: int|
                        0 <= i < bids@.len() && !(0 < (#[trigger] bids@[i]).amount <= highest_bid);
                    lemma_account_at(bids@, i);
                    assert(auction.bids.dom().contains(bids@[i].bidder@));
                }
            }
            return None;
        }
        let state = AuctionState {
            item,
            bid_denom,
            owner,
            commission,
            bid_open,
            bids,
            highest_bid,
            highest_bidder,
        };
        assert(state@ == auction);
        assert forall|b: Seq<char>| #[trigger] auction.bids.dom().contains(b) implies 0
            < auction.bids[b] <= auction.highest_bid by {
            let i = account_index(state.bids@, b);
            assert(0 < state.bids@[i].amount <= highest_bid);
        }
        if state.find_account(&state.owner).is_some() {
            return None;
        }
        if let Some(leader) = &state.highest_bidder {
            match state.find_account(leader) {
                Some(i) => {
                    proof {
                        lemma_account_at(state.bids@, i as int);
                    }
                    if state.bids[i].amount != highest_bid {
                        return None;
                    }
                },
                None => {
                    if bid_open {
                        return None;
                    }
                },
            }
        }
        Some(state)
    }

    /// A description of the item for sale.
    pub fn item(&self) -> (item: &String)
        ensures
            item@ == self@.item,
    {
        &self.item
    }

    /// The entries of the ledger, one for each bidder.
    pub fn accounts(&self) -> (accounts: &Vec<BidderAccount>)
        ensures
            accounts_map(accounts@) == self@.bids,
            self.wf() ==> distinct_bidders(accounts@),
    {
        &self.bids
    }

    /// Whether bids are still taken.
    pub fn is_open(&self) -> (open: bool)
        ensures
            open == self@.bid_open,
    {
        self.bid_open
    }

    /// Who sells the item.
    pub fn owner(&self) -> (owner: &String)
        ensures
            owner@ == self@.owner,
    {
        &self.owner
    }

    /// The one denomination in which bids count.
    pub fn bid_denom(&self) -> (denom: &String)
        ensures
            denom@ == self@.bid_denom,
    {
        &self.bid_denom
    }

    /// The commission policy.
    pub fn commission(&self) -> (policy: CommissionParams)
        ensures
            policy == self@.commission,
    {
        self.commission
    }

    /// The leading bid; zero before the first accepted bid.
    pub fn highest_bid(&self) -> (amount: u128)
        ensures
            amount == self@.highest_bid,
    {
        self.highest_bid
    }

    /// Who holds the leading bid.
    pub fn highest_bidder(&self) -> (bidder: Option<&String>)
        ensures
            match bidder {
                Some(b) => self@.highest_bidder == Some(b@),
                None => self@.highest_bidder is None,
            },
    {
        match &self.highest_bidder {
            Some(b) => Some(b),
            None => None,
        }
    }

    fn find_account(&self, bidder: &String) -> (found: Option<usize>)
        ensures
            match found {
                Some(i) => i < self.bids@.len() && self.bids@[i as int].bidder@ == bidder@,
                None => !has_account(self.bids@, bidder@),
            },
    {
        let mut i: usize = 0;
        while i < self.bids.len()
            invariant
                i <= self.bids@.len(),
                forall|k: int| 0 <= k < i ==> (#[trigger] self.bids@[k]).bidder@ != bidder@,
            decreases self.bids@.len() - i,
        {
            if self.bids[i].bidder == *bidder {
                return Some(i);
            }
            i += 1;
        }
        None
    }

    /// What `bidder` has escrowed, where the ledger holds an entry for them.
    pub fn total_of(&self, bidder: &String) -> (total: Option<u128>)
        requires
            self.wf(),
        ensures
            match total {
                Some(amount) => self@.bids.dom().contains(bidder@) && self@.bids[bidder@]
                    == amount,
                None => !self@.bids.dom().contains(bidder@),
            },
    {
        match self.find_account(bidder) {
            Some(i) => {
                proof {
                    lemma_account_at(self.bids@, i as int);
                }
                Some(self.bids[i].amount)
            },
            None => None,
        }
    }

    /// Enters `total` as the cumulative contribution of `bidder` and as the leading bid.
    pub(crate) fn record_bid(&mut self, bidder: String, total: u128)
        requires
            old(self).wf(),
            old(self)@.bid_open,
            bidder@ != old(self)@.owner,
            total > old(self)@.highest_bid,
        ensures
            final(self).wf(),
            final(self)@ == (Auction {
                bids: old(self)@.bids.insert(bidder@, total as nat),
                highest_bid: total as nat,
                highest_bidder: Some(bidder@),
                ..old(self)@
            }),
    {
        let leader = bidder.clone();
        let account = BidderAccount { bidder, amount: total };
        match self.find_account(&account.bidder) {
            Some(i) => {
                proof {
                    lemma_update_account(self.bids@, i as int, account);
                }
                self.bids.set(i, account);
            },
            None => {
                proof {
                    lemma_push_account(self.bids@, account);
                }
                self.bids.push(account);
            },
        }
        self.highest_bid = total;
        self.highest_bidder = Some(leader);
    }

    /// Ends the bidding.
    pub(crate) fn set_closed(&mut self)
        requires
            old(self).wf(),
        ensures
            final(self).wf(),
            final(self)@ == (Auction { bid_open: false, ..old(self)@ }),
    {
        self.bid_open = false;
    }

    /// Takes the entry of `bidder` out of the ledger of a closed auction and returns what it
    /// held.
    pub(crate) fn remove_account(&mut self, bidder: &String) -> (total: Option<u128>)
        requires
            old(self).wf(),
            !old(self)@.bid_open,
        ensures
            final(self).wf(),
            final(self)@ == (Auction { bids: old(self)@.bids.remove(bidder@), ..old(self)@ }),
            match total {
                Some(amount) => old(self)@.bids.dom().contains(bidder@) && old(self)@.bids[bidder@]
                    == amount,
                None => !old(self)@.bids.dom().contains(bidder@),
            },
    {
        match self.find_account(bidder) {
            Some(i) => {
                proof {
                    lemma_account_at(self.bids@, i as int);
                    lemma_remove_account(self.bids@, i as int);
                }
                let account = self.bids.remove(i);
                Some(account.amount)
            },
            None => {
                assert(self@.bids.remove(bidder@) =~= self@.bids);
                None
            },
        }
    }
}

} // verus!
