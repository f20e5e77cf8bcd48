//! First-price sealed-bid auction: the bid evaluator, the state updater and
//! the final reveal. The highest bidder wins and pays its own bid.

use vstd::prelude::*;

use crate::oblivious::{both, select_u64};

verus! {

/// One submitted bid, as the evaluator receives it once the bidder's
/// ciphertext has been opened inside the secure computation.
#[derive(Clone, Copy, Debug, PartialEq, Eq, Structural)]
pub struct EncryptedBid {
    /// Pseudonymous handle of the bidder (a hash of its public key).
    pub bidder_id: u64,
    /// Amount offered.
    pub amount: u64,
}

/// Running leaderboard of a first-price auction.
#[derive(Clone, Copy, Debug, PartialEq, Eq, Structural)]
pub struct AuctionState {
    pub highest_bid: u64,
    pub highest_bidder: u64,
    pub bid_count: u32,
    pub is_open: bool,
}

/// What the submitting bidder learns about its own bid.
#[derive(Clone, Copy, Debug, PartialEq, Eq, Structural)]
pub struct BidResult {
    /// Whether this bid now leads the auction.
    pub is_winning: bool,
    /// Bids processed so far, this one included.
    pub total_bids: u32,
}

/// Outcome of a first-price auction, revealed to the closer.
#[derive(Clone, Copy, Debug, PartialEq, Eq, Structural)]
pub struct AuctionResult {
    /// Zero, together with `total_bids == 0`, means that nobody bid.
    pub winner_id: u64,
    pub winning_amount: u64,
    pub total_bids: u32,
}

/// The predicates that decide how a bid changes the state.
#[derive(Clone, Copy, Debug, PartialEq, Eq, Structural)]
pub struct BidEvaluation {
    pub auction_open: bool,
    pub is_first_place: bool,
    /// Used by the second-price variant only; false in a first-price evaluation.
    pub is_second_place: bool,
}

/// A bid leads when the auction is open and it strictly beats the current
/// highest bid: on a tie the incumbent keeps the lead.
pub open spec fn takes_lead(state: AuctionState, bid: EncryptedBid) -> bool {
    state.is_open && bid.amount > state.highest_bid
}

/// Whether the state can count one more bid.
pub open spec fn can_count(state: AuctionState) -> bool {
    state.is_open ==> state.bid_count < u32::MAX
}

/// The state after one bid.
pub open spec fn after_bid(state: AuctionState, bid: EncryptedBid) -> AuctionState {
    AuctionState {
        highest_bid: if takes_lead(state, bid) { bid.amount } else { state.highest_bid },
        highest_bidder: if takes_lead(state, bid) { bid.bidder_id } else { state.highest_bidder },
        bid_count: if state.is_open { (state.bid_count + 1) as u32 } else { state.bid_count },
        is_open: state.is_open,
    }
}

/// The state after a sequence of bids, applied in order.
pub open spec fn after_bids(state: AuctionState, bids: Seq<EncryptedBid>) -> AuctionState
    decreases bids.len(),
{
    if bids.len() == 0 {
        state
    } else {
        after_bid(after_bids(state, bids.drop_last()), bids.last())
    }
}

/// The state every first-price auction starts from.
pub open spec fn initial_state() -> AuctionState {
    AuctionState { highest_bid: 0, highest_bidder: 0, bid_count: 0, is_open: true }
}

/// A bid never lowers the highest bid.
pub proof fn lemma_bid_keeps_or_raises_highest(state: AuctionState, bid: EncryptedBid)
    ensures
        state.highest_bid <= after_bid(state, bid).highest_bid,
{
}

/// Along any sequence of bids, the highest bid never decreases: after the
/// first `i` bids it is at most what it is after the first `j`, for `i <= j`.
pub proof fn lemma_highest_bid_monotone(state: AuctionState, bids: Seq<EncryptedBid>, i: int, j: int)
    requires
        0 <= i <= j <= bids.len(),
    ensures
        after_bids(state, bids.take(i)).highest_bid <= after_bids(state, bids.take(j)).highest_bid,
    decreases j - i,
{
    if i < j {
        lemma_highest_bid_monotone(state, bids, i, j - 1);
        assert(bids.take(j).drop_last() =~= bids.take(j - 1));
        lemma_bid_keeps_or_raises_highest(after_bids(state, bids.take(j - 1)), bids.take(j).last());
    }
}

/// A bid equal to the highest bid changes neither the highest bid nor its
/// bidder: the incumbent wins ties.
pub proof fn lemma_tie_keeps_leader(state: AuctionState, bid: EncryptedBid)
    requires
        bid.amount == state.highest_bid,
    ensures
        !takes_lead(state, bid),
        after_bid(state, bid).highest_bid == state.highest_bid,
        after_bid(state, bid).highest_bidder == state.highest_bidder,
{
}

/// On a closed auction any bid leaves the state as it is and does not win.
pub proof fn lemma_closed_auction_ignores_bids(state: AuctionState, bid: EncryptedBid)
    requires
        !state.is_open,
    ensures
        after_bid(state, bid) == state,
        !takes_lead(state, bid),
{
}

/// After `n` bids on a fresh auction the bid count is exactly `n`, whatever
/// the amounts, and the auction is still open.
pub proof fn lemma_bid_count(bids: Seq<EncryptedBid>)
    requires
        bids.len() <= u32::MAX,
    ensures
        after_bids(initial_state(), bids).bid_count == bids.len(),
        after_bids(initial_state(), bids).is_open,
    decreases bids.len(),
{
    if bids.len() > 0 {
        lemma_bid_count(bids.drop_last());
    }
}


/// A fresh auction: no leader, no bids, open.
pub fn init_auction() -> (r: AuctionState)
    ensures
        r == initial_state(),
{
    AuctionState { highest_bid: 0, highest_bidder: 0, bid_count: 0, is_open: true }
}

/// Evaluates a bid against the state; every comparison is made whatever the
/// outcome of the others.
pub fn evaluate_bid(state: &AuctionState, bid: &EncryptedBid) -> (r: BidEvaluation)
    ensures
        r.auction_open == state.is_open,
        r.is_first_place == takes_lead(*state, *bid),
        !r.is_second_place,
{
    let auction_open = state.is_open;
    let is_higher = bid.amount > state.highest_bid;
    BidEvaluation {
        auction_open,
        is_first_place: both(auction_open, is_higher),
        is_second_place: false,
    }
}

/// Applies a bid under the given predicates: the leader changes only where
/// the auction is open and the bid is first place, and an open auction
/// counts the bid.
pub fn update_state(
    state: &AuctionState,
    bid: &EncryptedBid,
    auction_open: bool,
    is_first_place: bool,
) -> (r: (AuctionState, BidResult))
    requires
        auction_open ==> state.bid_count < u32::MAX,
    ensures
        r.0.highest_bid == if auction_open && is_first_place { bid.amount } else { state.highest_bid },
        r.0.highest_bidder == if auction_open && is_first_place { bid.bidder_id } else { state.highest_bidder },
        r.0.bid_count == state.bid_count + if auction_open { 1int } else { 0int },
        r.0.is_open == state.is_open,
        r.1.is_winning == (auction_open && is_first_place),
        r.1.total_bids == r.0.bid_count,
{
    let lead = both(auction_open, is_first_place);
    let next = AuctionState {
        highest_bid: select_u64(lead, bid.amount, state.highest_bid),
        highest_bidder: select_u64(lead, bid.bidder_id, state.highest_bidder),
        bid_count: state.bid_count + auction_open as u32,
        is_open: state.is_open,
    };
    let result = BidResult { is_winning: lead, total_bids: next.bid_count };
    (next, result)
}

/// Processes one bid: the next state, and what the bidder learns.
pub fn place_bid(current_state: AuctionState, new_bid: EncryptedBid) -> (r: (AuctionState, BidResult))
    requires
        can_count(current_state),
    ensures
        r.0 == after_bid(current_state, new_bid),
        r.1.is_winning == takes_lead(current_state, new_bid),
        r.1.total_bids == r.0.bid_count,
{
    let e = evaluate_bid(&current_state, &new_bid);
    update_state(&current_state, &new_bid, e.auction_open, e.is_first_place)
}

/// Reveals the outcome: the leader wins and pays its own bid. A state with no
/// bids yields winner zero and no bids, with no special case.
pub fn close_auction(current_state: AuctionState) -> (r: AuctionResult)
    ensures
        r.winner_id == current_state.highest_bidder,
        r.winning_amount == current_state.highest_bid,
        r.total_bids == current_state.bid_count,
{
    AuctionResult {
        winner_id: current_state.highest_bidder,
        winning_amount: current_state.highest_bid,
        total_bids: current_state.bid_count,
    }
}

} // verus!
