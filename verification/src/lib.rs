#![verifier::loop_isolation(false)]

pub mod commission;
pub mod contract;
pub mod error;
pub mod laws;
pub mod msg;
pub mod state;

use vstd::prelude::*;

use crate::contract::Auction;
use crate::error::ContractError;
use crate::msg::{ExecMsg, InstantiateMsg, QueryMsg, QueryResp, Response};
use crate::state::Coin;

verus! {

/// One atomic unit per whole unit of a fixed-point fraction with
/// eighteen decimal places; a commission rate is stored as its
/// number of atomic units, so a rate of one half is `ATOMICS_PER_UNIT / 2`.
pub const ATOMICS_PER_UNIT: u128 = 1_000_000_000_000_000_000;

/// Creates the auction from its construction parameters; an absent owner
/// defaults to the sender.
pub fn instantiate(sender: &String, msg: InstantiateMsg) -> (r: Auction)
    requires
        msg.commission <= ATOMICS_PER_UNIT,
    ensures
        r.wf(),
        r.base_info.active,
        r.base_info.commission == msg.commission,
        r.base_info.commodity@ == msg.commodity@,
        r.base_info.bidding_denom@ == msg.bidding_denom@,
        r.base_info.owner@ == (match msg.owner {
            Some(o) => o@,
            None => sender@,
        }),
        r.ledger.highest is None,
        forall|w: Seq<char>| #[trigger] r.escrow(w) == 0,
{
    contract::instantiate(sender, msg.owner, msg.commodity, msg.bidding_denom, msg.commission)
}

/// Dispatches one state-transition operation.
pub fn execute(auction: &mut Auction, sender: &String, funds: &Vec<Coin>, msg: ExecMsg) -> (r:
    Result<Response, ContractError>)
    requires
        old(auction).wf(),
    ensures
        final(auction).wf(),
        match msg {
            ExecMsg::Bid {} => match contract::bid_rejection(*old(auction), sender@, funds@) {
                Some(em) => r matches Err(e) && e@ == em && *final(auction) == *old(auction),
                None => r matches Ok(resp) && contract::bid_ok(
                    *old(auction),
                    *final(auction),
                    sender@,
                    funds@,
                    resp,
                ),
            },
            ExecMsg::Close {} => match contract::close_rejection(*old(auction), sender@) {
                Some(em) => r matches Err(e) && e@ == em && *final(auction) == *old(auction),
                None => r matches Ok(resp) && contract::close_ok(
                    *old(auction),
                    *final(auction),
                    sender@,
                    resp,
                ),
            },
            ExecMsg::Retract { receiver } => match contract::retract_rejection(
                *old(auction),
                sender@,
            ) {
                Some(em) => r matches Err(e) && e@ == em && *final(auction) == *old(auction),
                None => r matches Ok(resp) && contract::retract_ok(
                    *old(auction),
                    *final(auction),
                    sender@,
                    receiver,
                    resp,
                ),
            },
        },
{
    match msg {
        ExecMsg::Bid {} => contract::bid(auction, sender, funds),
        ExecMsg::Close {} => contract::close(auction, sender),
        ExecMsg::Retract { receiver } => contract::retract(auction, sender, receiver),
    }
}

/// Dispatches one read operation.
pub fn query(auction: &Auction, msg: QueryMsg) -> (r: QueryResp)
    ensures
        match msg {
            QueryMsg::Info {} => r matches QueryResp::Info(resp) && contract::info_resp_ok(
                *auction,
                resp,
            ),
            QueryMsg::Bids { address } => r matches QueryResp::Bids(resp)
                && contract::bids_resp_ok(*auction, address@, resp),
            QueryMsg::HighestBid {} => r matches QueryResp::HighestBid(resp)
                && contract::highest_resp_ok(*auction, resp),
            QueryMsg::Winner {} => r matches QueryResp::Winner(resp) && contract::winner_resp_ok(
                *auction,
                resp,
            ),
        },
{
    match msg {
        QueryMsg::Info {} => QueryResp::Info(contract::info(auction)),
        QueryMsg::Bids { address } => QueryResp::Bids(contract::bids(auction, &address)),
        QueryMsg::HighestBid {} => QueryResp::HighestBid(contract::highest_bid(auction)),
        QueryMsg::Winner {} => QueryResp::Winner(contract::winner(auction)),
    }
}

} // verus!
