use vstd::prelude::*;

use crate::state::Coin;

verus! {

/// Construction parameters of the auction. The commission rate is a
/// fixed-point fraction of one in atomic units of
/// `crate::ATOMICS_PER_UNIT`; an absent owner defaults to the creator.
#[derive(Clone, Debug, PartialEq, Eq)]
pub struct InstantiateMsg {
    pub owner: Option<String>,
    pub commodity: String,
    pub bidding_denom: String,
    pub commission: u128,
}

/// The three state-transition operations.
#[derive(Clone, Debug, PartialEq, Eq)]
pub enum ExecMsg {
    Bid {},
    Close {},
    Retract { receiver: Option<String> },
}

/// The four read operations.
#[derive(Clone, Debug, PartialEq, Eq)]
pub enum QueryMsg {
    Info {},
    Bids { address: String },
    HighestBid {},
    Winner {},
}

/// The auction configuration, verbatim.
#[derive(Clone, Debug, PartialEq, Eq)]
pub struct InfoResp {
    pub owner: String,
    pub commodity: String,
    pub bidding_denom: String,
    pub commission: u128,
    pub active: bool,
}

/// A bidder and a coin: the leader pointer, or the zero-valued
/// placeholder with an empty identity when no leader applies.
#[derive(Clone, Debug, PartialEq, Eq)]
pub struct HighestBidResp {
    pub address: String,
    pub bid: Coin,
}

/// The answer to one read operation.
#[derive(Clone, Debug, PartialEq, Eq)]
pub enum QueryResp {
    Info(InfoResp),
    Bids(Coin),
    HighestBid(HighestBidResp),
    Winner(HighestBidResp),
}

/// One outbound fund-transfer instruction.
#[derive(Clone, Debug, PartialEq, Eq)]
pub struct Transfer {
    pub to_address: String,
    pub amount: Coin,
}

/// Structured attributes describing a completed state transition.
#[derive(Clone, Debug, PartialEq, Eq)]
pub enum ActionAttrs {
    /// A bid was accepted: who sent it and the commission paid out.
    Bid { sender: String, commission: u128 },
    /// The auction was closed: the winner and the settled amount, both
    /// absent when no bid was ever placed.
    Close { sender: String, winner: Option<String>, highest_bid: Option<u128> },
    /// An escrow entry was retracted to the given destination.
    Retract { sender: String },
}

/// The result of a successful mutating operation: the outbound transfer
/// instructions and the attributes describing the transition.
#[derive(Clone, Debug, PartialEq, Eq)]
pub struct Response {
    pub messages: Vec<Transfer>,
    pub attributes: ActionAttrs,
}

} // verus!
