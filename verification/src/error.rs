use vstd::prelude::*;

verus! {

/// The mathematical image of a `ContractError`: identities and
/// denominations as character sequences. Contracts compare errors
/// through this view.
pub enum ErrModel {
    Unauthorized { owner: Seq<char> },
    AuctionClosed,
    AuctionNotClosed,
    BiddingByOwner,
    InvalidDenom { denom: Seq<char> },
    BidTooLow { highest_bid: u128 },
    NoFundsToRetract,
    Overflow,
}

/// Why a mutating operation was refused. Every failure leaves the
/// auction exactly as it was before the call.
#[derive(Clone, Debug, PartialEq, Eq)]
pub enum ContractError {
    /// The caller of an owner-only action is not the owner.
    Unauthorized { owner: String },
    /// A mutating action that needs the auction open found it closed.
    AuctionClosed {},
    /// Retraction was attempted while the auction is still open.
    AuctionNotClosed {},
    /// The owner attempted to place a bid.
    BiddingByOwner {},
    /// The attached funds hold no coin of the accepted denomination.
    InvalidDenom { denom: String },
    /// The new cumulative escrow does not strictly exceed the leader's.
    BidTooLow { highest_bid: u128 },
    /// The caller has no consumable escrow entry.
    NoFundsToRetract {},
    /// Adding to the cumulative escrow would overflow the amount type.
    Overflow {},
}

impl View for ContractError {
    type V = ErrModel;

    open spec fn view(&self) -> ErrModel {
        match self {
            ContractError::Unauthorized { owner } => ErrModel::Unauthorized { owner: owner@ },
            ContractError::AuctionClosed {} => ErrModel::AuctionClosed,
            ContractError::AuctionNotClosed {} => ErrModel::AuctionNotClosed,
            ContractError::BiddingByOwner {} => ErrModel::BiddingByOwner,
            ContractError::InvalidDenom { denom } => ErrModel::InvalidDenom { denom: denom@ },
            ContractError::BidTooLow { highest_bid } => ErrModel::BidTooLow {
                highest_bid: *highest_bid,
            },
            ContractError::NoFundsToRetract {} => ErrModel::NoFundsToRetract,
            ContractError::Overflow {} => ErrModel::Overflow,
        }
    }
}

} // verus!
