//! Whole auctions, played against a bank that holds every balance and carries out the
//! transfers that the auction asks for.

use std::collections::HashMap;

use bidding::commission::Decimal as Part;
use bidding::error::ContractError;
use bidding::msg::{
    Coin as Funds, ExecuteMsg, HighestBidResponse, InstantiateMsg, MessageInfo, QueryMsg,
    QueryResponse, Response, TotalBidResponse, Transfer,
};
use bidding::state::AuctionState;
use bidding::{execute, instantiate, query};
use cosmwasm_std::{coin, coins, Addr, Coin, Decimal};

const ATOM: &str = "atom";
const BIDDING_CONTRACT: &str = "bidding contract";
const ANTIQUE_ITEM: &str = "antique item";

/// The bank: who holds how much of which denomination.
struct App {
    balances: HashMap<(String, String), u128>,
}

impl App {
    fn new() -> App {
        App { balances: HashMap::new() }
    }

    fn init_balance(&mut self, addr: &Addr, amount: Vec<Coin>) {
        for c in amount {
            self.balances.insert((addr.to_string(), c.denom), c.amount.u128());
        }
    }

    fn query_balance(&self, addr: &Addr, denom: &str) -> Coin {
        let held = self.balances.get(&(addr.to_string(), denom.to_string())).copied();
        coin(held.unwrap_or(0), denom)
    }

    fn send(&mut self, from: &str, to: &str, denom: &str, amount: u128) {
        let source = self.balances.entry((from.to_string(), denom.to_string())).or_insert(0);
        assert!(*source >= amount, "{} cannot pay {}{}", from, amount, denom);
        *source -= amount;
        *self.balances.entry((to.to_string(), denom.to_string())).or_insert(0) += amount;
    }
}

/// One auction and the address under which the bank holds its escrow.
struct BiddingContract {
    addr: Addr,
    state: AuctionState,
}

fn transfer_of(resp: Response) -> Option<Transfer> {
    match resp {
        Response::Bid(summary) => summary.transfer,
        Response::Close(summary) => summary.transfer,
        Response::Retract(summary) => summary.transfer,
    }
}

impl BiddingContract {
    fn addr(&self) -> &Addr {
        &self.addr
    }

    fn instantiate(
        sender: &Addr,
        label: &str,
        item: &str,
        bid_denom: &str,
        owner: Option<&Addr>,
        commission_minimum_tokens: u128,
        commission_part: Decimal,
    ) -> Result<BiddingContract, ContractError> {
        let info = MessageInfo { sender: sender.to_string(), funds: vec![] };
        let msg = InstantiateMsg {
            item: item.to_string(),
            bid_denom: bid_denom.to_string(),
            owner: owner.map(Addr::to_string),
            commission_minimum_tokens,
            commission_part: Part::new(commission_part.atomics().u128()),
        };
        let state = instantiate(info, msg)?;
        Ok(BiddingContract { addr: Addr::unchecked(label), state })
    }

    fn query_highest_bid(&self) -> HighestBidResponse {
        match query(&self.state, QueryMsg::HighestBid {}) {
            QueryResponse::HighestBid(resp) => resp,
            QueryResponse::TotalBid(_) => panic!("the answer to another question"),
        }
    }

    fn query_total_bid(&self, addr: &Addr) -> TotalBidResponse {
        match query(&self.state, QueryMsg::TotalBid { addr: addr.to_string() }) {
            QueryResponse::TotalBid(resp) => resp,
            QueryResponse::HighestBid(_) => panic!("the answer to another question"),
        }
    }

    /// Moves the attached funds into escrow, makes the call, and carries out the transfer that
    /// it asks for. A refused call gets its funds back.
    fn call(
        &mut self,
        app: &mut App,
        sender: &Addr,
        msg: ExecuteMsg,
        funds: &[Coin],
    ) -> Result<(), ContractError> {
        let before = app.balances.clone();
        for c in funds {
            app.send(sender.as_str(), self.addr.as_str(), &c.denom, c.amount.u128());
        }
        let info = MessageInfo {
            sender: sender.to_string(),
            funds: funds
                .iter()
                .map(|c| Funds { denom: c.denom.clone(), amount: c.amount.u128() })
                .collect(),
        };
        match execute(&mut self.state, info, msg) {
            Ok(resp) => {
                if let Some(t) = transfer_of(resp) {
                    app.send(self.addr.as_str(), &t.to_address, &t.amount.denom, t.amount.amount);
                }
                Ok(())
            }
            Err(e) => {
                app.balances = before;
                Err(e)
            }
        }
    }

    fn bid(&mut self, app: &mut App, bidder: &Addr, tokens: Coin) -> Result<(), ContractError> {
        self.call(app, bidder, ExecuteMsg::Bid {}, &[tokens])
    }

    fn close(&mut self, app: &mut App, sender: &Addr) -> Result<(), ContractError> {
        self.call(app, sender, ExecuteMsg::Close {}, &[])
    }

    fn retract(
        &mut self,
        app: &mut App,
        sender: &Addr,
        receiver: Option<String>,
    ) -> Result<(), ContractError> {
        self.call(app, sender, ExecuteMsg::Retract { receiver: receiver.map(Ok) }, &[])
    }
}

fn funds(amount: u128, denom: &str) -> Funds {
    Funds { denom: denom.to_string(), amount }
}

#[test]
fn bid_example_flow() {
    let owner = Addr::unchecked("owner");
    let alex = Addr::unchecked("alex");
    let ann = Addr::unchecked("ann");

    let mut app = App::new();
    app.init_balance(&alex, coins(25, ATOM));
    app.init_balance(&ann, coins(25, ATOM));

    let mut contract = BiddingContract::instantiate(
        &owner,
        BIDDING_CONTRACT,
        ANTIQUE_ITEM,
        ATOM,
        None,
        0,
        Decimal::percent(0),
    )
    .unwrap();

    let highest_bid = contract.query_highest_bid();
    assert_eq!(highest_bid, HighestBidResponse::default());
    assert_eq!(app.query_balance(contract.addr(), ATOM), coin(0, ATOM));

    contract.bid(&mut app, &alex, coin(15, ATOM)).unwrap();
    assert_eq!(
        contract.query_highest_bid(),
        HighestBidResponse::default().with_bidder(alex.to_string(), funds(15, ATOM))
    );

    contract.bid(&mut app, &ann, coin(17, ATOM)).unwrap();
    assert_eq!(
        contract.query_highest_bid(),
        HighestBidResponse::default().with_bidder(ann.to_string(), funds(17, ATOM))
    );

    contract.bid(&mut app, &ann, coin(2, ATOM)).unwrap();
    assert_eq!(
        contract.query_highest_bid(),
        HighestBidResponse::default().with_bidder(ann.to_string(), funds(19, ATOM))
    );

    let err = contract.bid(&mut app, &alex, coin(1, ATOM)).unwrap_err();
    assert_eq!(err, ContractError::BidRejected { highest_bid: funds(19, ATOM) });

    contract.bid(&mut app, &alex, coin(5, ATOM)).unwrap();
    assert_eq!(
        contract.query_highest_bid(),
        HighestBidResponse::default().with_bidder(alex.to_string(), funds(20, ATOM))
    );

    assert_eq!(app.query_balance(contract.addr(), ATOM), coin(39, ATOM));

    contract.close(&mut app, &owner).unwrap();

    assert_eq!(app.query_balance(&owner, ATOM), coin(20, ATOM));

    assert_eq!(app.query_balance(&alex, ATOM), coin(5, ATOM));

    assert_eq!(app.query_balance(&ann, ATOM), coin(6, ATOM));

    assert_eq!(app.query_balance(contract.addr(), ATOM), coin(19, ATOM));

    contract.retract(&mut app, &ann, None).unwrap();
    assert_eq!(app.query_balance(&ann, ATOM), coin(25, ATOM));

    assert_eq!(app.query_balance(contract.addr(), ATOM), coin(0, ATOM));
}

#[test]
fn bid_with_commission_flow() {
    let owner = Addr::unchecked("owner");
    let alex = Addr::unchecked("alex");
    let ann = Addr::unchecked("ann");

    let mut app = App::new();
    app.init_balance(&alex, coins(25, ATOM));
    app.init_balance(&ann, coins(25, ATOM));

    let mut contract = BiddingContract::instantiate(
        &owner,
        BIDDING_CONTRACT,
        ANTIQUE_ITEM,
        ATOM,
        None,
        1,
        Decimal::percent(0),
    )
    .unwrap();

    let highest_bid = contract.query_highest_bid();
    assert_eq!(highest_bid, HighestBidResponse::default());
    assert_eq!(app.query_balance(contract.addr(), ATOM), coin(0, ATOM));

    contract.bid(&mut app, &alex, coin(15, ATOM)).unwrap();
    assert_eq!(
        contract.query_highest_bid(),
        HighestBidResponse::default().with_bidder(alex.to_string(), funds(14, ATOM))
    );
    assert_eq!(app.query_balance(contract.addr(), ATOM), coin(14, ATOM));
    assert_eq!(app.query_balance(&owner, ATOM), coin(1, ATOM));

    contract.bid(&mut app, &ann, coin(17, ATOM)).unwrap();
    assert_eq!(
        contract.query_highest_bid(),
        HighestBidResponse::default().with_bidder(ann.to_string(), funds(16, ATOM))
    );

    assert_eq!(app.query_balance(contract.addr(), ATOM), coin(30, ATOM));
    assert_eq!(app.query_balance(&owner, ATOM), coin(2, ATOM));

    contract.close(&mut app, &owner).unwrap();

    assert_eq!(app.query_balance(&owner, ATOM), coin(18, ATOM));

    assert_eq!(app.query_balance(&alex, ATOM), coin(10, ATOM));

    assert_eq!(app.query_balance(&ann, ATOM), coin(8, ATOM));

    assert_eq!(app.query_balance(contract.addr(), ATOM), coin(14, ATOM));

    contract.retract(&mut app, &alex, None).unwrap();
    assert_eq!(app.query_balance(&alex, ATOM), coin(24, ATOM));

    assert_eq!(app.query_balance(contract.addr(), ATOM), coin(0, ATOM));
}

#[test]
fn owner_cannot_bid() {
    let owner = Addr::unchecked("owner");

    let mut app = App::new();
    app.init_balance(&owner, coins(10, ATOM));

    let mut contract = BiddingContract::instantiate(
        &owner,
        BIDDING_CONTRACT,
        ANTIQUE_ITEM,
        ATOM,
        None,
        0,
        Decimal::percent(0),
    )
    .unwrap();

    let err = contract.bid(&mut app, &owner, coin(5, ATOM)).unwrap_err();
    assert_eq!(err, ContractError::OwnerCannotBid {});
}

#[test]
fn open_bid_cannot_retract() {
    let owner = Addr::unchecked("owner");

    let mut app = App::new();
    app.init_balance(&owner, coins(10, ATOM));

    let mut contract = BiddingContract::instantiate(
        &owner,
        BIDDING_CONTRACT,
        ANTIQUE_ITEM,
        ATOM,
        None,
        0,
        Decimal::percent(0),
    )
    .unwrap();

    let err = contract.retract(&mut app, &owner, None).unwrap_err();
    assert_eq!(err, ContractError::BidOpen {});
}

#[test]
fn refused_bid_returns_the_funds_and_keeps_the_ledger() {
    let owner = Addr::unchecked("owner");
    let alex = Addr::unchecked("alex");
    let ann = Addr::unchecked("ann");

    let mut app = App::new();
    app.init_balance(&alex, coins(25, ATOM));
    app.init_balance(&ann, coins(25, ATOM));

    let mut contract = BiddingContract::instantiate(
        &owner,
        BIDDING_CONTRACT,
        ANTIQUE_ITEM,
        ATOM,
        None,
        0,
        Decimal::percent(0),
    )
    .unwrap();
    contract.bid(&mut app, &alex, coin(15, ATOM)).unwrap();

    let before = contract.state.clone();
    let err = contract.bid(&mut app, &ann, coin(15, ATOM)).unwrap_err();
    assert_eq!(err, ContractError::BidRejected { highest_bid: funds(15, ATOM) });
    assert_eq!(contract.state, before);
    assert_eq!(app.query_balance(&ann, ATOM), coin(25, ATOM));
    assert_eq!(app.query_balance(contract.addr(), ATOM), coin(15, ATOM));
    assert_eq!(contract.query_total_bid(&ann), TotalBidResponse::default());
}

#[test]
fn proportional_commission_is_paid_to_the_owner_at_once() {
    let owner = Addr::unchecked("owner");
    let seller = Addr::unchecked("seller");
    let alex = Addr::unchecked("alex");

    let mut app = App::new();
    app.init_balance(&alex, coins(1000, ATOM));

    let mut contract = BiddingContract::instantiate(
        &owner,
        BIDDING_CONTRACT,
        ANTIQUE_ITEM,
        ATOM,
        Some(&seller),
        2,
        Decimal::percent(10),
    )
    .unwrap();

    contract.bid(&mut app, &alex, coin(105, ATOM)).unwrap();
    assert_eq!(app.query_balance(&seller, ATOM), coin(11, ATOM));
    assert_eq!(app.query_balance(&owner, ATOM), coin(0, ATOM));
    assert_eq!(app.query_balance(contract.addr(), ATOM), coin(94, ATOM));
    assert_eq!(
        contract.query_highest_bid(),
        HighestBidResponse::default().with_bidder(alex.to_string(), funds(94, ATOM))
    );

    contract.bid(&mut app, &alex, coin(10, ATOM)).unwrap();
    assert_eq!(app.query_balance(&seller, ATOM), coin(13, ATOM));
    assert_eq!(
        contract.query_total_bid(&alex),
        TotalBidResponse { bid_closed: false, amount: Some(funds(102, ATOM)) }
    );

    assert_eq!(
        contract.close(&mut app, &owner).unwrap_err(),
        ContractError::Unauthorized { owner: "seller".to_string() }
    );
    contract.close(&mut app, &seller).unwrap();
    assert_eq!(app.query_balance(&seller, ATOM), coin(115, ATOM));
    assert_eq!(app.query_balance(contract.addr(), ATOM), coin(0, ATOM));
    assert_eq!(
        contract.query_highest_bid(),
        HighestBidResponse {
            bid_closed: true,
            winner: None,
            bidder: None,
            amount: None,
        }
        .with_bidder(alex.to_string(), funds(102, ATOM))
        .with_winner(alex.to_string())
    );
}

#[test]
fn retraction_pays_the_named_receiver() {
    let owner = Addr::unchecked("owner");
    let alex = Addr::unchecked("alex");
    let ann = Addr::unchecked("ann");
    let heir = Addr::unchecked("heir");

    let mut app = App::new();
    app.init_balance(&alex, coins(25, ATOM));
    app.init_balance(&ann, coins(25, ATOM));

    let mut contract = BiddingContract::instantiate(
        &owner,
        BIDDING_CONTRACT,
        ANTIQUE_ITEM,
        ATOM,
        None,
        0,
        Decimal::percent(0),
    )
    .unwrap();
    contract.bid(&mut app, &alex, coin(15, ATOM)).unwrap();
    contract.bid(&mut app, &ann, coin(17, ATOM)).unwrap();
    contract.close(&mut app, &owner).unwrap();

    contract.retract(&mut app, &alex, Some(heir.to_string())).unwrap();
    assert_eq!(app.query_balance(&heir, ATOM), coin(15, ATOM));
    assert_eq!(app.query_balance(&alex, ATOM), coin(10, ATOM));
    assert_eq!(app.query_balance(contract.addr(), ATOM), coin(0, ATOM));
    assert_eq!(
        contract.query_total_bid(&alex),
        TotalBidResponse { bid_closed: true, amount: None }
    );

    contract.retract(&mut app, &alex, Some(heir.to_string())).unwrap();
    assert_eq!(app.query_balance(&heir, ATOM), coin(15, ATOM));
}
