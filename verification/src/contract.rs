use vstd::prelude::*;

use crate::commission::{lemma_tax_le_gross, mul_floor, tax_of};
use crate::error::{ContractError, ErrModel};
use crate::msg::{ActionAttrs, HighestBidResp, InfoResp, Response, Transfer};
use crate::state::{BaseInfo, BidLedger, Coin};
use crate::ATOMICS_PER_UNIT;

verus! {

/// The whole auction: the configuration record and the ledger of bids.
/// Each invocation below observes a committed state and either completes
/// in full or returns an error and leaves the state untouched.
pub struct Auction {
    pub base_info: BaseInfo,
    pub ledger: BidLedger,
}

impl Auction {
    /// The cumulative escrow recorded for `who`; zero if none.
    pub open spec fn escrow(self, who: Seq<char>) -> u128 {
        self.ledger.escrow(who)
    }

    /// The leader's cumulative escrow: the amount a new bid must strictly
    /// exceed. Zero while no bid was ever accepted.
    pub open spec fn current_high(self) -> u128 {
        match self.ledger.highest {
            Some(hb) => self.escrow(hb.address@),
            None => 0,
        }
    }

    /// The auction's invariant. The commission rate is at most one whole
    /// unit; bidders are distinct; the owner never holds escrow; while no
    /// bid was accepted the ledger is empty; an open auction's leader
    /// holds the maximal escrow, and a closed auction's leader has been
    /// settled (consumed) already.
    pub open spec fn wf(self) -> bool {
        &&& self.base_info.commission <= ATOMICS_PER_UNIT
        &&& self.ledger.wf()
        &&& self.escrow(self.base_info.owner@) == 0
        &&& match self.ledger.highest {
            Some(hb) => {
                &&& hb.bid.denom@ == self.base_info.bidding_denom@
                &&& hb.address@ != self.base_info.owner@
                &&& self.base_info.active ==> self.escrow(hb.address@) > 0
                &&& self.base_info.active ==> forall|w: Seq<char>|
                    #[trigger] self.escrow(w) <= self.escrow(hb.address@)
                &&& !self.base_info.active ==> self.escrow(hb.address@) == 0
            },
            None => self.ledger.bids@.len() == 0,
        }
    }
}

/// The first attached coin of the accepted denomination, if any.
pub open spec fn find_fund(funds: Seq<Coin>, denom: Seq<char>) -> Option<Coin>
    decreases funds.len(),
{
    if funds.len() == 0 {
        None
    } else if funds[0].denom@ == denom {
        Some(funds[0])
    } else {
        find_fund(funds.drop_first(), denom)
    }
}

proof fn lemma_find_fund_at(funds: Seq<Coin>, denom: Seq<char>, i: int)
    requires
        0 <= i < funds.len(),
        funds[i].denom@ == denom,
        forall|j: int| 0 <= j < i ==> funds[j].denom@ != denom,
    ensures
        find_fund(funds, denom) == Some(funds[i]),
    decreases i,
{
    if i > 0 {
        lemma_find_fund_at(funds.drop_first(), denom, i - 1);
    }
}

proof fn lemma_find_fund_absent(funds: Seq<Coin>, denom: Seq<char>)
    requires
        forall|j: int| 0 <= j < funds.len() ==> funds[j].denom@ != denom,
    ensures
        find_fund(funds, denom) is None,
    decreases funds.len(),
{
    if funds.len() > 0 {
        lemma_find_fund_absent(funds.drop_first(), denom);
    }
}

/// Why a bid by `sender` with the given attached funds is rejected on
/// auction `a`; `None` when it is accepted.
pub open spec fn bid_rejection(a: Auction, sender: Seq<char>, funds: Seq<Coin>) -> Option<
    ErrModel,
> {
    if !a.base_info.active {
        Some(ErrModel::AuctionClosed)
    } else if sender == a.base_info.owner@ {
        Some(ErrModel::BiddingByOwner)
    } else {
        match find_fund(funds, a.base_info.bidding_denom@) {
            None => Some(ErrModel::InvalidDenom { denom: a.base_info.bidding_denom@ }),
            Some(coin) => {
                let tax = tax_of(coin.amount as int, a.base_info.commission as int);
                let remainder = coin.amount - tax;
                if a.escrow(sender) + remainder > u128::MAX {
                    Some(ErrModel::Overflow)
                } else if a.escrow(sender) + remainder <= a.current_high() {
                    Some(ErrModel::BidTooLow { highest_bid: a.current_high() })
                } else {
                    None
                }
            },
        }
    }
}

/// What an accepted bid did: the sender's escrow grew by the net
/// remainder, nobody else's moved, the leader pointer records the
/// triggering bid's gross amount, and the commission was routed to the
/// owner in one transfer.
pub open spec fn bid_ok(
    pre: Auction,
    post: Auction,
    sender: Seq<char>,
    funds: Seq<Coin>,
    resp: Response,
) -> bool {
    match find_fund(funds, pre.base_info.bidding_denom@) {
        None => false,
        Some(coin) => {
            let tax = tax_of(coin.amount as int, pre.base_info.commission as int);
            let remainder = coin.amount - tax;
            &&& post.base_info == pre.base_info
            &&& post.escrow(sender) == pre.escrow(sender) + remainder
            &&& forall|w: Seq<char>| w != sender ==> #[trigger] post.escrow(w) == pre.escrow(w)
            &&& (post.ledger.highest matches Some(hb) && hb.address@ == sender
                && hb.bid.amount == coin.amount && hb.bid.denom@ == pre.base_info.bidding_denom@)
            &&& resp.messages@.len() == 1
            &&& resp.messages@[0].to_address@ == pre.base_info.owner@
            &&& resp.messages@[0].amount.denom@ == pre.base_info.bidding_denom@
            &&& resp.messages@[0].amount.amount == tax
            &&& (resp.attributes matches ActionAttrs::Bid { sender: s, commission } && s@ == sender
                && commission == tax)
        },
    }
}

/// Why a close by `sender` is rejected on auction `a`; `None` when it
/// goes through.
pub open spec fn close_rejection(a: Auction, sender: Seq<char>) -> Option<ErrModel> {
    if sender != a.base_info.owner@ {
        Some(ErrModel::Unauthorized { owner: a.base_info.owner@ })
    } else if !a.base_info.active {
        Some(ErrModel::AuctionClosed)
    } else {
        None
    }
}

/// What a completed close did: the auction became inactive, the leader's
/// entire cumulative escrow was consumed and routed to the owner in one
/// transfer (none when no bid was ever placed), and everything else is
/// unchanged.
pub open spec fn close_ok(pre: Auction, post: Auction, sender: Seq<char>, resp: Response) -> bool {
    &&& !post.base_info.active
    &&& post.base_info.owner == pre.base_info.owner
    &&& post.base_info.commodity == pre.base_info.commodity
    &&& post.base_info.bidding_denom == pre.base_info.bidding_denom
    &&& post.base_info.commission == pre.base_info.commission
    &&& post.ledger.highest == pre.ledger.highest
    &&& match pre.ledger.highest {
        Some(hb) => {
            let settled = pre.escrow(hb.address@);
            &&& post.escrow(hb.address@) == 0
            &&& forall|w: Seq<char>|
                w != hb.address@ ==> #[trigger] post.escrow(w) == pre.escrow(w)
            &&& resp.messages@.len() == 1
            &&& resp.messages@[0].to_address@ == pre.base_info.owner@
            &&& resp.messages@[0].amount.denom@ == pre.base_info.bidding_denom@
            &&& resp.messages@[0].amount.amount == settled
            &&& (resp.attributes matches ActionAttrs::Close { sender: s, winner, highest_bid }
                && s@ == sender && (winner matches Some(wn) && wn@ == hb.address@)
                && highest_bid == Some(settled))
        },
        None => {
            &&& forall|w: Seq<char>| #[trigger] post.escrow(w) == pre.escrow(w)
            &&& resp.messages@.len() == 0
            &&& (resp.attributes matches ActionAttrs::Close { sender: s, winner, highest_bid }
                && s@ == sender && winner is None && highest_bid is None)
        },
    }
}

/// Why a retraction by `sender` is rejected on auction `a`; `None` when
/// it goes through.
pub open spec fn retract_rejection(a: Auction, sender: Seq<char>) -> Option<ErrModel> {
    if a.base_info.active {
        Some(ErrModel::AuctionNotClosed)
    } else if a.ledger.highest matches Some(hb) && hb.address@ == sender {
        Some(ErrModel::NoFundsToRetract)
    } else if a.escrow(sender) == 0 {
        Some(ErrModel::NoFundsToRetract)
    } else {
        None
    }
}

/// What a completed retraction did: the sender's whole escrow entry was
/// consumed and routed to the destination (the given receiver, or the
/// sender) in one transfer; everything else is unchanged.
pub open spec fn retract_ok(
    pre: Auction,
    post: Auction,
    sender: Seq<char>,
    receiver: Option<String>,
    resp: Response,
) -> bool {
    let dest = match receiver {
        Some(recv) => recv@,
        None => sender,
    };
    let amount = pre.escrow(sender);
    &&& post.base_info == pre.base_info
    &&& post.ledger.highest == pre.ledger.highest
    &&& post.escrow(sender) == 0
    &&& forall|w: Seq<char>| w != sender ==> #[trigger] post.escrow(w) == pre.escrow(w)
    &&& resp.messages@.len() == 1
    &&& resp.messages@[0].to_address@ == dest
    &&& resp.messages@[0].amount.denom@ == pre.base_info.bidding_denom@
    &&& resp.messages@[0].amount.amount == amount
    &&& (resp.attributes matches ActionAttrs::Retract { sender: s } && s@ == dest)
}

/// Creates the auction: open, with the given configuration, an empty
/// ledger and no leader. An absent owner defaults to the creator.
pub fn instantiate(
    sender: &String,
    owner: Option<String>,
    commodity: String,
    bidding_denom: String,
    commission: u128,
) -> (r: Auction)
    requires
        commission <= ATOMICS_PER_UNIT,
    ensures
        r.wf(),
        r.base_info.active,
        r.base_info.commission == commission,
        r.base_info.commodity@ == commodity@,
        r.base_info.bidding_denom@ == bidding_denom@,
        r.base_info.owner@ == (match owner {
            Some(o) => o@,
            None => sender@,
        }),
        r.ledger.highest is None,
        forall|w: Seq<char>| #[trigger] r.escrow(w) == 0,
{
    let owner_addr: String = match owner {
        Some(o) => o,
        None => sender.clone(),
    };
    Auction {
        base_info: BaseInfo {
            owner: owner_addr,
            commodity,
            bidding_denom,
            commission,
            active: true,
        },
        ledger: BidLedger::new(),
    }
}

/// Locates the first attached coin of the accepted denomination.
fn find_matching(funds: &Vec<Coin>, denom: &String) -> (r: Option<usize>)
    ensures
        match r {
            Some(i) => i < funds@.len() && funds@[i as int].denom@ == denom@ && find_fund(
                funds@,
                denom@,
            ) == Some(funds@[i as int]),
            None => find_fund(funds@, denom@) is None,
        },
{
    let n: usize = funds.len();
    let mut i: usize = 0;
    while i < n
        invariant
            0 <= i <= n,
            forall|j: int| 0 <= j < i ==> funds@[j].denom@ != denom@,
        decreases n - i,
    {
        if funds[i].denom == *denom {
            proof {
                lemma_find_fund_at(funds@, denom@, i as int);
            }
            return Some(i);
        }
        i = i + 1;
    }
    proof {
        lemma_find_fund_absent(funds@, denom@);
    }
    None
}

/// Places a bid: escrows the attached funds net of commission, makes the
/// sender the leader, and routes the commission to the owner. Rejected
/// when the auction is closed, the sender is the owner, no attached coin
/// is of the accepted denomination, or the new cumulative escrow does not
/// strictly exceed the leader's.
pub fn bid(auction: &mut Auction, sender: &String, funds: &Vec<Coin>) -> (r: Result<
    Response,
    ContractError,
>)
    requires
        old(auction).wf(),
    ensures
        final(auction).wf(),
        match bid_rejection(*old(auction), sender@, funds@) {
            Some(em) => r matches Err(e) && e@ == em && *final(auction) == *old(auction),
            None => r matches Ok(resp) && bid_ok(
                *old(auction),
                *final(auction),
                sender@,
                funds@,
                resp,
            ),
        },
{
    if !auction.base_info.active {
        return Err(ContractError::AuctionClosed {});
    }
    if *sender == auction.base_info.owner {
        return Err(ContractError::BiddingByOwner {});
    }
    match find_matching(funds, &auction.base_info.bidding_denom) {
        None => Err(ContractError::InvalidDenom { denom: auction.base_info.bidding_denom.clone() }),
        Some(fi) => {
            let gross: u128 = funds[fi].amount;
            let tax: u128 = mul_floor(gross, auction.base_info.commission);
            proof {
                lemma_tax_le_gross(gross, auction.base_info.commission);
            }
            let remainder: u128 = gross - tax;
            let prior: u128 = auction.ledger.get_escrow(sender);
            if prior > u128::MAX - remainder {
                return Err(ContractError::Overflow {});
            }
            let new_total: u128 = prior + remainder;
            let current_high: u128 = match auction.ledger.get_highest() {
                Some(hb) => auction.ledger.get_escrow(&hb.address),
                None => 0,
            };
            if new_total <= current_high {
                return Err(ContractError::BidTooLow { highest_bid: current_high });
            }
            auction.ledger.add_escrow(sender, remainder);
            auction.ledger.set_highest(sender, gross, &auction.base_info.bidding_denom);
            proof {
                assert forall|w: Seq<char>| #[trigger] auction.escrow(w) <= auction.escrow(
                    sender@,
                ) by {
                    if w != sender@ {
                        assert(auction.escrow(w) == old(auction).escrow(w));
                        match old(auction).ledger.highest {
                            Some(hb0) => {
                                assert(old(auction).escrow(w) <= old(auction).escrow(
                                    hb0.address@,
                                ));
                            },
                            None => {
                                assert(old(auction).ledger.bids@.len() == 0);
                                assert(old(auction).escrow(w) == 0);
                            },
                        }
                    }
                }
            }
            let resp = Response {
                messages: vec![
                    Transfer {
                        to_address: auction.base_info.owner.clone(),
                        amount: Coin {
                            denom: auction.base_info.bidding_denom.clone(),
                            amount: tax,
                        },
                    },
                ],
                attributes: ActionAttrs::Bid { sender: sender.clone(), commission: tax },
            };
            Ok(resp)
        },
    }
}

/// Closes the auction: only the owner, only while open. Locks in the
/// leader as winner and routes the leader's entire cumulative escrow to
/// the owner; with no bids ever placed nothing is transferred.
pub fn close(auction: &mut Auction, sender: &String) -> (r: Result<Response, ContractError>)
    requires
        old(auction).wf(),
    ensures
        final(auction).wf(),
        match close_rejection(*old(auction), sender@) {
            Some(em) => r matches Err(e) && e@ == em && *final(auction) == *old(auction),
            None => r matches Ok(resp) && close_ok(*old(auction), *final(auction), sender@, resp),
        },
{
    if *sender != auction.base_info.owner {
        return Err(ContractError::Unauthorized { owner: auction.base_info.owner.clone() });
    }
    if !auction.base_info.active {
        return Err(ContractError::AuctionClosed {});
    }
    let winner_addr: Option<String> = match auction.ledger.get_highest() {
        Some(hb) => Some(hb.address.clone()),
        None => None,
    };
    match winner_addr {
        Some(addr) => {
            let settled: u128 = match auction.ledger.take_escrow(&addr) {
                Some(amount) => amount,
                None => {
                    proof {
                        assert(false);
                    }
                    0
                },
            };
            auction.base_info.active = false;
            Ok(
                Response {
                    messages: vec![
                        Transfer {
                            to_address: auction.base_info.owner.clone(),
                            amount: Coin {
                                denom: auction.base_info.bidding_denom.clone(),
                                amount: settled,
                            },
                        },
                    ],
                    attributes: ActionAttrs::Close {
                        sender: sender.clone(),
                        winner: Some(addr),
                        highest_bid: Some(settled),
                    },
                },
            )
        },
        None => {
            auction.base_info.active = false;
            Ok(
                Response {
                    messages: Vec::new(),
                    attributes: ActionAttrs::Close {
                        sender: sender.clone(),
                        winner: None,
                        highest_bid: None,
                    },
                },
            )
        },
    }
}

/// Retracts the caller's escrowed funds after the close: consumes the
/// entry exactly once and routes it to the receiver, or to the caller if
/// none is given. The settled leader has nothing left to retract.
pub fn retract(auction: &mut Auction, sender: &String, receiver: Option<String>) -> (r: Result<
    Response,
    ContractError,
>)
    requires
        old(auction).wf(),
    ensures
        final(auction).wf(),
        match retract_rejection(*old(auction), sender@) {
            Some(em) => r matches Err(e) && e@ == em && *final(auction) == *old(auction),
            None => r matches Ok(resp) && retract_ok(
                *old(auction),
                *final(auction),
                sender@,
                receiver,
                resp,
            ),
        },
{
    if auction.base_info.active {
        return Err(ContractError::AuctionNotClosed {});
    }
    match auction.ledger.get_highest() {
        Some(hb) => {
            if *sender == hb.address {
                return Err(ContractError::NoFundsToRetract {});
            }
        },
        None => {},
    }
    let dest: String = match receiver {
        Some(recv) => recv,
        None => sender.clone(),
    };
    match auction.ledger.take_escrow(sender) {
        Some(amount) => Ok(
            Response {
                messages: vec![
                    Transfer {
                        to_address: dest.clone(),
                        amount: Coin {
                            denom: auction.base_info.bidding_denom.clone(),
                            amount,
                        },
                    },
                ],
                attributes: ActionAttrs::Retract { sender: dest },
            },
        ),
        None => Err(ContractError::NoFundsToRetract {}),
    }
}

/// What the info query reports: the configuration verbatim.
pub open spec fn info_resp_ok(a: Auction, r: InfoResp) -> bool {
    &&& r.owner@ == a.base_info.owner@
    &&& r.commodity@ == a.base_info.commodity@
    &&& r.bidding_denom@ == a.base_info.bidding_denom@
    &&& r.commission == a.base_info.commission
    &&& r.active == a.base_info.active
}

/// What the per-bidder query reports: the bidder's cumulative escrow in
/// the accepted denomination, zero-valued if none.
pub open spec fn bids_resp_ok(a: Auction, address: Seq<char>, r: Coin) -> bool {
    &&& r.denom@ == a.base_info.bidding_denom@
    &&& r.amount == a.escrow(address)
}

/// What the highest-bid query reports: the leader pointer, or the
/// zero-valued placeholder with an empty identity when no bid was ever
/// accepted.
pub open spec fn highest_resp_ok(a: Auction, r: HighestBidResp) -> bool {
    match a.ledger.highest {
        Some(hb) => {
            &&& r.address@ == hb.address@
            &&& r.bid.denom@ == hb.bid.denom@
            &&& r.bid.amount == hb.bid.amount
        },
        None => {
            &&& r.address@ == Seq::<char>::empty()
            &&& r.bid.denom@ == a.base_info.bidding_denom@
            &&& r.bid.amount == 0
        },
    }
}

/// What the winner query reports: the same as the highest-bid query once
/// the auction is closed; while it is open, always the zero-valued
/// placeholder, deliberately withholding the in-progress leader.
pub open spec fn winner_resp_ok(a: Auction, r: HighestBidResp) -> bool {
    if a.base_info.active {
        &&& r.address@ == Seq::<char>::empty()
        &&& r.bid.denom@ == a.base_info.bidding_denom@
        &&& r.bid.amount == 0
    } else {
        highest_resp_ok(a, r)
    }
}

/// Returns the current configuration verbatim.
pub fn info(auction: &Auction) -> (r: InfoResp)
    ensures
        info_resp_ok(*auction, r),
{
    InfoResp {
        owner: auction.base_info.owner.clone(),
        commodity: auction.base_info.commodity.clone(),
        bidding_denom: auction.base_info.bidding_denom.clone(),
        commission: auction.base_info.commission,
        active: auction.base_info.active,
    }
}

/// Returns `address`'s cumulative escrow as a coin of the accepted
/// denomination; zero-valued if the bidder holds none.
pub fn bids(auction: &Auction, address: &String) -> (r: Coin)
    ensures
        bids_resp_ok(*auction, address@, r),
{
    let amount: u128 = auction.ledger.get_escrow(address);
    Coin { denom: auction.base_info.bidding_denom.clone(), amount }
}

/// Returns the leader pointer, or the zero-valued placeholder when no
/// bid was ever accepted.
pub fn highest_bid(auction: &Auction) -> (r: HighestBidResp)
    ensures
        highest_resp_ok(*auction, r),
{
    match auction.ledger.get_highest() {
        Some(hb) => HighestBidResp {
            address: hb.address.clone(),
            bid: Coin { denom: hb.bid.denom.clone(), amount: hb.bid.amount },
        },
        None => HighestBidResp {
            address: String::new(),
            bid: Coin { denom: auction.base_info.bidding_denom.clone(), amount: 0 },
        },
    }
}

/// Returns the winner once the auction is closed; while it is open,
/// always the zero-valued placeholder.
pub fn winner(auction: &Auction) -> (r: HighestBidResp)
    ensures
        winner_resp_ok(*auction, r),
{
    if !auction.base_info.active {
        return highest_bid(auction);
    }
    HighestBidResp {
        address: String::new(),
        bid: Coin { denom: auction.base_info.bidding_denom.clone(), amount: 0 },
    }
}

} // verus!
