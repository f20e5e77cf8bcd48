//! Second-price (Vickrey) sealed-bid auction: the highest bidder wins and pays
//! the second-highest bid, so the state also tracks second place.

use vstd::prelude::*;

use crate::auction::{BidEvaluation, BidResult, EncryptedBid};
use crate::oblivious::{both, select_u64};

verus! {

/// Running leaderboard of a second-price auction.
#[derive(Clone, Copy, Debug, PartialEq, Eq, Structural)]
pub struct VickreyState {
    pub highest_bid: u64,
    pub highest_bidder: u64,
    pub second_bid: u64,
    pub bid_count: u32,
    pub is_open: bool,
}

/// Outcome of a second-price auction, revealed to the closer.
#[derive(Clone, Copy, Debug, PartialEq, Eq, Structural)]
pub struct VickreyResult {
    /// Zero, together with `total_bids == 0`, means that nobody bid.
    pub winner_id: u64,
    /// The second-highest bid.
    pub price_to_pay: u64,
    pub total_bids: u32,
}

impl VickreyState {
    /// Second place never exceeds first place.
    pub open spec fn wf(self) -> bool {
        self.second_bid <= self.highest_bid
    }
}

/// A bid leads when the auction is open and it strictly beats the current
/// highest bid: on a tie the incumbent keeps the lead.
pub open spec fn takes_lead(state: VickreyState, bid: EncryptedBid) -> bool {
    state.is_open && bid.amount > state.highest_bid
}

/// A bid takes second place when the auction is open, it does not lead, and
/// it strictly beats the current second place.
pub open spec fn takes_second(state: VickreyState, bid: EncryptedBid) -> bool {
    state.is_open && !takes_lead(state, bid) && bid.amount > state.second_bid
}

/// Whether the state can count one more bid.
pub open spec fn can_count(state: VickreyState) -> bool {
    state.is_open ==> state.bid_count < u32::MAX
}

/// The state after one bid. A new leader pushes the former leader's amount
/// down to second place.
pub open spec fn after_bid(state: VickreyState, bid: EncryptedBid) -> VickreyState {
    VickreyState {
        highest_bid: if takes_lead(state, bid) { bid.amount } else { state.highest_bid },
        highest_bidder: if takes_lead(state, bid) { bid.bidder_id } else { state.highest_bidder },
        second_bid: if takes_lead(state, bid) {
            state.highest_bid
        } else if takes_second(state, bid) {
            bid.amount
        } else {
            state.second_bid
        },
        bid_count: if state.is_open { (state.bid_count + 1) as u32 } else { state.bid_count },
        is_open: state.is_open,
    }
}

/// The state after a sequence of bids, applied in order.
pub open spec fn after_bids(state: VickreyState, bids: Seq<EncryptedBid>) -> VickreyState
    decreases bids.len(),
{
    if bids.len() == 0 {
        state
    } else {
        after_bid(after_bids(state, bids.drop_last()), bids.last())
    }
}

/// The state every second-price auction starts from.
pub open spec fn initial_state() -> VickreyState {
    VickreyState { highest_bid: 0, highest_bidder: 0, second_bid: 0, bid_count: 0, is_open: true }
}

/// One bid never lowers first or second place, and keeps second place at or
/// below first place.
pub proof fn lemma_vickrey_bid_monotone(state: VickreyState, bid: EncryptedBid)
    requires
        state.wf(),
    ensures
        state.highest_bid <= after_bid(state, bid).highest_bid,
        state.second_bid <= after_bid(state, bid).second_bid,
        after_bid(state, bid).wf(),
{
}

/// Along any sequence of bids from a well-formed state, first and second
/// place never decrease, and second place stays at or below first place:
/// after the first `i` bids each is at most what it is after the first `j`,
/// for `i <= j`.
pub proof fn lemma_vickrey_monotone(state: VickreyState, bids: Seq<EncryptedBid>, i: int, j: int)
    requires
        state.wf(),
        0 <= i <= j <= bids.len(),
    ensures
        after_bids(state, bids.take(j)).wf(),
        after_bids(state, bids.take(i)).highest_bid <= after_bids(state, bids.take(j)).highest_bid,
        after_bids(state, bids.take(i)).second_bid <= after_bids(state, bids.take(j)).second_bid,
    decreases j,
{
    if j == 0 {
        assert(bids.take(0) =~= Seq::<EncryptedBid>::empty());
    } else if i < j {
        lemma_vickrey_monotone(state, bids, i, j - 1);
        assert(bids.take(j).drop_last() =~= bids.take(j - 1));
        lemma_vickrey_bid_monotone(after_bids(state, bids.take(j - 1)), bids.take(j).last());
    } else {
        lemma_vickrey_monotone(state, bids, j - 1, j - 1);
        assert(bids.take(j).drop_last() =~= bids.take(j - 1));
        lemma_vickrey_bid_monotone(after_bids(state, bids.take(j - 1)), bids.take(j).last());
    }
}

/// A bid equal to the highest bid changes neither the highest bid nor its
/// bidder: the incumbent wins ties.
pub proof fn lemma_vickrey_tie_keeps_leader(state: VickreyState, bid: EncryptedBid)
    requires
        bid.amount == state.highest_bid,
    ensures
        !takes_lead(state, bid),
        after_bid(state, bid).highest_bid == state.highest_bid,
        after_bid(state, bid).highest_bidder == state.highest_bidder,
{
}

/// On an open auction with highest bid `h`, a bid above `h` makes `h` the
/// new second place.
pub proof fn lemma_displaced_leader(state: VickreyState, bid: EncryptedBid)
    requires
        state.is_open,
        bid.amount > state.highest_bid,
    ensures
        after_bid(state, bid).second_bid == state.highest_bid,
        after_bid(state, bid).highest_bid == bid.amount,
        after_bid(state, bid).highest_bidder == bid.bidder_id,
{
}

/// On a closed auction any bid leaves the state, second place included, as
/// it is and does not win.
pub proof fn lemma_vickrey_closed_auction_ignores_bids(state: VickreyState, bid: EncryptedBid)
    requires
        !state.is_open,
    ensures
        after_bid(state, bid) == state,
        !takes_lead(state, bid),
{
}

/// After `n` bids on a fresh auction the bid count is exactly `n`, whatever
/// the amounts, and the auction is still open.
pub proof fn lemma_vickrey_bid_count(bids: Seq<EncryptedBid>)
    requires
        bids.len() <= u32::MAX,
    ensures
        after_bids(initial_state(), bids).bid_count == bids.len(),
        after_bids(initial_state(), bids).is_open,
    decreases bids.len(),
{
    if bids.len() > 0 {
        lemma_vickrey_bid_count(bids.drop_last());
    }
}


/// A fresh second-price auction: no leader, no bids, open.
pub fn init_vickrey_auction() -> (r: VickreyState)
    ensures
        r == initial_state(),
        r.wf(),
{
    VickreyState { highest_bid: 0, highest_bidder: 0, second_bid: 0, bid_count: 0, is_open: true }
}

/// Evaluates a bid against the state. The three predicates are computed
/// together, and first and second place exclude each other through the
/// negated first-place flag rather than through a branch.
pub fn evaluate_vickrey_bid(state: &VickreyState, bid: &EncryptedBid) -> (r: BidEvaluation)
    ensures
        r.auction_open == state.is_open,
        r.is_first_place == takes_lead(*state, *bid),
        r.is_second_place == takes_second(*state, *bid),
{
    let auction_open = state.is_open;
    let is_higher = bid.amount > state.highest_bid;
    let beats_second = bid.amount > state.second_bid;
    let is_first_place = both(auction_open, is_higher);
    let is_second_place = both(both(auction_open, !is_first_place), beats_second);
    BidEvaluation { auction_open, is_first_place, is_second_place }
}

/// Applies a bid under the given predicates, with second-place bookkeeping.
pub fn update_vickrey_state(
    state: &VickreyState,
    bid: &EncryptedBid,
    auction_open: bool,
    is_first_place: bool,
    is_second_place: bool,
) -> (r: (VickreyState, BidResult))
    requires
        auction_open ==> state.bid_count < u32::MAX,
    ensures
        r.0.highest_bid == if auction_open && is_first_place { bid.amount } else { state.highest_bid },
        r.0.highest_bidder == if auction_open && is_first_place { bid.bidder_id } else { state.highest_bidder },
        r.0.second_bid == if auction_open && is_first_place {
            state.highest_bid
        } else if auction_open && is_second_place {
            bid.amount
        } else {
            state.second_bid
        },
        r.0.bid_count == state.bid_count + if auction_open { 1int } else { 0int },
        r.0.is_open == state.is_open,
        r.1.is_winning == (auction_open && is_first_place),
        r.1.total_bids == r.0.bid_count,
{
    let lead = both(auction_open, is_first_place);
    let second = both(auction_open, is_second_place);
    let next = VickreyState {
        highest_bid: select_u64(lead, bid.amount, state.highest_bid),
        highest_bidder: select_u64(lead, bid.bidder_id, state.highest_bidder),
        second_bid: select_u64(lead, state.highest_bid, select_u64(second, bid.amount, state.second_bid)),
        bid_count: state.bid_count + auction_open as u32,
        is_open: state.is_open,
    };
    let result = BidResult { is_winning: lead, total_bids: next.bid_count };
    (next, result)
}

/// Processes one bid: the next state, and what the bidder learns. Second
/// place is never revealed to the bidder.
pub fn place_vickrey_bid(current_state: VickreyState, new_bid: EncryptedBid) -> (r: (VickreyState, BidResult))
    requires
        can_count(current_state),
    ensures
        r.0 == after_bid(current_state, new_bid),
        r.1.is_winning == takes_lead(current_state, new_bid),
        r.1.total_bids == r.0.bid_count,
        current_state.wf() ==> r.0.wf(),
{
    let e = evaluate_vickrey_bid(&current_state, &new_bid);
    update_vickrey_state(&current_state, &new_bid, e.auction_open, e.is_first_place, e.is_second_place)
}

/// Reveals the outcome: the leader wins and pays the second-highest bid.
pub fn close_vickrey_auction(current_state: VickreyState) -> (r: VickreyResult)
    ensures
        r.winner_id == current_state.highest_bidder,
        r.price_to_pay == current_state.second_bid,
        r.total_bids == current_state.bid_count,
{
    VickreyResult {
        winner_id: current_state.highest_bidder,
        price_to_pay: current_state.second_bid,
        total_bids: current_state.bid_count,
    }
}

} // verus!
