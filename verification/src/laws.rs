use vstd::prelude::*;

use crate::contract::{
    bid_rejection, close_ok, close_rejection, retract_ok, retract_rejection, Auction,
};
use crate::error::ErrModel;
use crate::msg::Response;
use crate::state::{Bid, Coin};

verus! {

/// The owner can never place a bid: while the auction is open a bid by
/// the owner is rejected as bidding by the owner, and once it is closed
/// as bidding on a closed auction; it is rejected either way.
pub proof fn owner_bid_always_rejected(a: Auction, funds: Seq<Coin>)
    ensures
        a.base_info.active ==> bid_rejection(a, a.base_info.owner@, funds) == Some(
            ErrModel::BiddingByOwner,
        ),
        !a.base_info.active ==> bid_rejection(a, a.base_info.owner@, funds) == Some(
            ErrModel::AuctionClosed,
        ),
        bid_rejection(a, a.base_info.owner@, funds) is Some,
{
}

/// On a closed auction no bid by anyone succeeds, and closing again
/// fails too: the owner's repeated close is rejected as acting on a
/// closed auction, anyone else's as unauthorized.
pub proof fn closed_auction_is_final(a: Auction, sender: Seq<char>, funds: Seq<Coin>)
    requires
        !a.base_info.active,
    ensures
        bid_rejection(a, sender, funds) == Some(ErrModel::AuctionClosed),
        sender == a.base_info.owner@ ==> close_rejection(a, sender) == Some(
            ErrModel::AuctionClosed,
        ),
        close_rejection(a, sender) is Some,
{
}

/// A completed close leaves the auction closed for good: every later bid
/// is rejected as acting on a closed auction, and so is every later
/// close by the owner.
pub proof fn close_happens_once(
    pre: Auction,
    post: Auction,
    sender: Seq<char>,
    resp: Response,
    later_sender: Seq<char>,
    later_funds: Seq<Coin>,
)
    requires
        close_ok(pre, post, sender, resp),
    ensures
        bid_rejection(post, later_sender, later_funds) == Some(ErrModel::AuctionClosed),
        close_rejection(post, later_sender) is Some,
        later_sender == post.base_info.owner@ ==> close_rejection(post, later_sender) == Some(
            ErrModel::AuctionClosed,
        ),
{
}

/// While the auction is open every retraction is rejected: funds are
/// released only after the close.
pub proof fn retract_needs_closed_auction(a: Auction, sender: Seq<char>)
    requires
        a.base_info.active,
    ensures
        retract_rejection(a, sender) == Some(ErrModel::AuctionNotClosed),
{
}

/// After the close the recorded leader's retraction is always rejected
/// for want of funds: the leader's escrow was settled to the owner by
/// the close itself.
pub proof fn leader_cannot_retract(a: Auction, hb: Bid)
    requires
        !a.base_info.active,
        a.ledger.highest == Some(hb),
    ensures
        retract_rejection(a, hb.address@) == Some(ErrModel::NoFundsToRetract),
{
}

/// After the close a bidder other than the recorded leader retracts at
/// most once: while the bidder still holds escrow the retraction is
/// accepted, and it consumes the entry, so the same bidder's next
/// retraction is rejected for want of funds.
pub proof fn retract_consumes_exactly_once(
    pre: Auction,
    post: Auction,
    sender: Seq<char>,
    receiver: Option<String>,
    resp: Response,
)
    requires
        !pre.base_info.active,
        pre.ledger.highest matches Some(hb) ==> hb.address@ != sender,
        pre.escrow(sender) > 0,
        retract_ok(pre, post, sender, receiver, resp),
    ensures
        retract_rejection(pre, sender) is None,
        retract_rejection(post, sender) == Some(ErrModel::NoFundsToRetract),
{
}

} // verus!
