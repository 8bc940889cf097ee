use auction::contract::{bid, close, retract, winner, Auction};
use auction::error::ContractError;
use auction::msg::{ActionAttrs, ExecMsg, HighestBidResp, InstantiateMsg, QueryMsg, QueryResp};
use auction::state::Coin;
use cosmwasm_std::Decimal;

const ATOM: &str = "atom";
const OWNER: &str = "owner";
const BIDDER_ONE: &str = "bidder_one";
const BIDDER_TWO: &str = "bidder_two";

fn percent_10() -> u128 {
    Decimal::percent(10).atomics().u128()
}

fn coins(amount: u128, denom: &str) -> Vec<Coin> {
    vec![Coin { denom: denom.to_string(), amount }]
}

fn init_contract() -> Auction {
    auction::contract::instantiate(
        &OWNER.to_string(),
        None,
        "Gold".to_string(),
        ATOM.to_string(),
        percent_10(),
    )
}

#[test]
fn bid_pays_commission_and_escrows_remainder() {
    let mut contract = init_contract();

    let resp = bid(&mut contract, &BIDDER_ONE.to_string(), &coins(50, ATOM)).unwrap();

    assert_eq!(resp.messages.len(), 1);
    assert_eq!(resp.messages[0].to_address, OWNER.to_string());
    assert_eq!(resp.messages[0].amount, Coin { denom: ATOM.to_string(), amount: 5 });
    assert_eq!(
        resp.attributes,
        ActionAttrs::Bid { sender: BIDDER_ONE.to_string(), commission: 5 }
    );
    assert_eq!(
        auction::contract::bids(&contract, &BIDDER_ONE.to_string()),
        Coin { denom: ATOM.to_string(), amount: 45 }
    );
}

#[test]
fn commission_rounds_down() {
    let mut contract = init_contract();

    let resp = bid(&mut contract, &BIDDER_ONE.to_string(), &coins(33, ATOM)).unwrap();

    assert_eq!(resp.messages[0].amount.amount, 3);
    assert_eq!(
        auction::contract::bids(&contract, &BIDDER_ONE.to_string()),
        Coin { denom: ATOM.to_string(), amount: 30 }
    );
}

#[test]
fn second_bid_takes_the_lead() {
    let mut contract = init_contract();

    bid(&mut contract, &BIDDER_ONE.to_string(), &coins(50, ATOM)).unwrap();
    let resp = bid(&mut contract, &BIDDER_TWO.to_string(), &coins(100, ATOM)).unwrap();

    assert_eq!(resp.messages[0].amount.amount, 10);
    assert_eq!(
        auction::contract::bids(&contract, &BIDDER_TWO.to_string()),
        Coin { denom: ATOM.to_string(), amount: 90 }
    );
    let highest = auction::contract::highest_bid(&contract);
    assert_eq!(highest.address, BIDDER_TWO.to_string());
    assert_eq!(highest.bid, Coin { denom: ATOM.to_string(), amount: 100 });
}

#[test]
fn equal_cumulative_bid_does_not_unseat_the_leader() {
    let mut contract = init_contract();

    bid(&mut contract, &BIDDER_ONE.to_string(), &coins(50, ATOM)).unwrap();
    // bidder_two's cumulative escrow would be 45, equal to the leader's.
    let err = bid(&mut contract, &BIDDER_TWO.to_string(), &coins(50, ATOM)).unwrap_err();

    assert_eq!(err, ContractError::BidTooLow { highest_bid: 45 });
}

#[test]
fn too_low_bid_reports_current_highest() {
    let mut contract = init_contract();

    bid(&mut contract, &BIDDER_ONE.to_string(), &coins(50, ATOM)).unwrap();
    let err = bid(&mut contract, &BIDDER_TWO.to_string(), &coins(10, ATOM)).unwrap_err();

    assert_eq!(err, ContractError::BidTooLow { highest_bid: 45 });
}

#[test]
fn close_settles_the_leaders_cumulative_escrow() {
    let mut contract = init_contract();

    bid(&mut contract, &BIDDER_ONE.to_string(), &coins(50, ATOM)).unwrap();
    bid(&mut contract, &BIDDER_TWO.to_string(), &coins(100, ATOM)).unwrap();
    let resp = close(&mut contract, &OWNER.to_string()).unwrap();

    // The settlement pays the winner's cumulative escrow of 90, not the
    // gross 100 of the triggering bid.
    assert_eq!(resp.messages.len(), 1);
    assert_eq!(resp.messages[0].to_address, OWNER.to_string());
    assert_eq!(resp.messages[0].amount, Coin { denom: ATOM.to_string(), amount: 90 });
    assert_eq!(
        resp.attributes,
        ActionAttrs::Close {
            sender: OWNER.to_string(),
            winner: Some(BIDDER_TWO.to_string()),
            highest_bid: Some(90),
        }
    );
    assert!(!auction::contract::info(&contract).active);
}

#[test]
fn close_by_non_owner_is_unauthorized() {
    let mut contract = init_contract();

    let err = close(&mut contract, &BIDDER_ONE.to_string()).unwrap_err();

    assert_eq!(err, ContractError::Unauthorized { owner: OWNER.to_string() });
}

#[test]
fn close_twice_fails() {
    let mut contract = init_contract();

    close(&mut contract, &OWNER.to_string()).unwrap();
    let err = close(&mut contract, &OWNER.to_string()).unwrap_err();

    assert_eq!(err, ContractError::AuctionClosed {});
}

#[test]
fn retract_before_close_fails() {
    let mut contract = init_contract();

    bid(&mut contract, &BIDDER_ONE.to_string(), &coins(50, ATOM)).unwrap();
    let err = retract(&mut contract, &BIDDER_ONE.to_string(), None).unwrap_err();

    assert_eq!(err, ContractError::AuctionNotClosed {});
}

#[test]
fn loser_retracts_exactly_once() {
    let mut contract = init_contract();

    bid(&mut contract, &BIDDER_ONE.to_string(), &coins(50, ATOM)).unwrap();
    bid(&mut contract, &BIDDER_TWO.to_string(), &coins(100, ATOM)).unwrap();
    close(&mut contract, &OWNER.to_string()).unwrap();

    let resp = retract(&mut contract, &BIDDER_ONE.to_string(), None).unwrap();
    assert_eq!(resp.messages.len(), 1);
    assert_eq!(resp.messages[0].to_address, BIDDER_ONE.to_string());
    assert_eq!(resp.messages[0].amount, Coin { denom: ATOM.to_string(), amount: 45 });
    assert_eq!(resp.attributes, ActionAttrs::Retract { sender: BIDDER_ONE.to_string() });

    let err = retract(&mut contract, &BIDDER_ONE.to_string(), None).unwrap_err();
    assert_eq!(err, ContractError::NoFundsToRetract {});

    let err = retract(&mut contract, &BIDDER_TWO.to_string(), None).unwrap_err();
    assert_eq!(err, ContractError::NoFundsToRetract {});
}

#[test]
fn retract_pays_the_given_receiver() {
    let mut contract = init_contract();

    bid(&mut contract, &BIDDER_ONE.to_string(), &coins(50, ATOM)).unwrap();
    bid(&mut contract, &BIDDER_TWO.to_string(), &coins(100, ATOM)).unwrap();
    close(&mut contract, &OWNER.to_string()).unwrap();

    let resp = retract(
        &mut contract,
        &BIDDER_ONE.to_string(),
        Some("charity".to_string()),
    )
    .unwrap();

    assert_eq!(resp.messages[0].to_address, "charity".to_string());
    assert_eq!(resp.messages[0].amount.amount, 45);
    assert_eq!(resp.attributes, ActionAttrs::Retract { sender: "charity".to_string() });
}

#[test]
fn close_without_bids_emits_no_transfer() {
    let mut contract = init_contract();

    let resp = close(&mut contract, &OWNER.to_string()).unwrap();

    assert_eq!(resp.messages.len(), 0);
    assert_eq!(
        resp.attributes,
        ActionAttrs::Close { sender: OWNER.to_string(), winner: None, highest_bid: None }
    );
    assert_eq!(
        winner(&contract),
        HighestBidResp {
            address: "".to_string(),
            bid: Coin { denom: ATOM.to_string(), amount: 0 },
        }
    );
}

#[test]
fn winner_is_withheld_while_open() {
    let mut contract = init_contract();

    bid(&mut contract, &BIDDER_ONE.to_string(), &coins(50, ATOM)).unwrap();

    assert_eq!(
        winner(&contract),
        HighestBidResp {
            address: "".to_string(),
            bid: Coin { denom: ATOM.to_string(), amount: 0 },
        }
    );

    close(&mut contract, &OWNER.to_string()).unwrap();

    assert_eq!(winner(&contract).address, BIDDER_ONE.to_string());
}

#[test]
fn wrong_denom_bid_changes_nothing() {
    let mut contract = init_contract();

    let err = bid(&mut contract, &BIDDER_ONE.to_string(), &coins(100, "btc")).unwrap_err();

    assert_eq!(err, ContractError::InvalidDenom { denom: ATOM.to_string() });
    assert_eq!(
        auction::contract::bids(&contract, &BIDDER_ONE.to_string()),
        Coin { denom: ATOM.to_string(), amount: 0 }
    );
    assert_eq!(auction::contract::highest_bid(&contract).address, "".to_string());
}

#[test]
fn instantiate_with_explicit_owner() {
    let contract = auction::instantiate(
        &"creator".to_string(),
        InstantiateMsg {
            owner: Some(OWNER.to_string()),
            commodity: "Gold".to_string(),
            bidding_denom: ATOM.to_string(),
            commission: percent_10(),
        },
    );

    assert_eq!(auction::contract::info(&contract).owner, OWNER.to_string());
}

#[test]
fn execute_and_query_dispatch() {
    let mut contract = auction::instantiate(
        &OWNER.to_string(),
        InstantiateMsg {
            owner: None,
            commodity: "Gold".to_string(),
            bidding_denom: ATOM.to_string(),
            commission: percent_10(),
        },
    );

    auction::execute(
        &mut contract,
        &BIDDER_ONE.to_string(),
        &coins(50, ATOM),
        ExecMsg::Bid {},
    )
    .unwrap();
    auction::execute(&mut contract, &OWNER.to_string(), &Vec::new(), ExecMsg::Close {}).unwrap();
    let err = auction::execute(
        &mut contract,
        &BIDDER_ONE.to_string(),
        &Vec::new(),
        ExecMsg::Retract { receiver: None },
    )
    .unwrap_err();
    // bidder_one won, so the escrow was settled to the owner already.
    assert_eq!(err, ContractError::NoFundsToRetract {});

    let resp = auction::query(&contract, QueryMsg::Bids { address: BIDDER_ONE.to_string() });
    assert_eq!(resp, QueryResp::Bids(Coin { denom: ATOM.to_string(), amount: 0 }));
    let resp = auction::query(&contract, QueryMsg::Winner {});
    match resp {
        QueryResp::Winner(w) => {
            assert_eq!(w.address, BIDDER_ONE.to_string());
            assert_eq!(w.bid, Coin { denom: ATOM.to_string(), amount: 50 });
        }
        other => panic!("unexpected answer: {:?}", other),
    }
}
