//! The orchestrator's side of an auction: its public metadata, the guards it
//! checks in the clear before handing a bid or a close to the secure
//! computation, and the events it records. Keys are 32-byte public keys.

use vstd::prelude::*;

verus! {

/// Public metadata of one auction.
#[derive(Clone, Copy, Debug, PartialEq, Eq)]
pub struct Auction {
    pub auction_id: [u8; 32],
    /// Key of the account that created the auction and alone may close it.
    pub authority: [u8; 32],
    /// Unix time at which bidding ends and closing becomes possible.
    pub end_time: i64,
    /// Recorded only: bids below it are not rejected here.
    pub min_bid: u64,
    pub is_finalized: bool,
    pub bump: u8,
}

impl Auction {
    /// Stored size of the metadata: an 8-byte tag, then the fields.
    pub const SIZE: usize = 8 + 32 + 32 + 8 + 8 + 1 + 1;
}

/// Why the orchestrator refuses a call.
#[derive(Clone, Copy, Debug, PartialEq, Eq, Structural)]
pub enum ErrorCode {
    ComputationFailed,
    ClusterNotSet,
    AuctionEnded,
    AuctionNotEnded,
    AuctionFinalized,
    Unauthorized,
}

#[derive(Clone, Copy, Debug, PartialEq, Eq)]
pub struct AuctionCreated {
    pub auction_id: [u8; 32],
    pub authority: [u8; 32],
    pub end_time: i64,
    pub min_bid: u64,
}

#[derive(Clone, Copy, Debug, PartialEq, Eq, Structural)]
pub struct AuctionInitialized {}

#[derive(Clone, Copy, Debug, PartialEq, Eq)]
pub struct BidPlaced {
    pub auction_id: [u8; 32],
    pub bidder: [u8; 32],
}

#[derive(Clone, Copy, Debug, PartialEq, Eq, Structural)]
pub struct BidProcessed {}

#[derive(Clone, Copy, Debug, PartialEq, Eq)]
pub struct AuctionClosing {
    pub auction_id: [u8; 32],
}

#[derive(Clone, Copy, Debug, PartialEq, Eq, Structural)]
pub struct AuctionFinalized {}

/// Whether two keys hold the same bytes.
pub fn keys_match(a: &[u8; 32], b: &[u8; 32]) -> (r: bool)
    ensures
        r == (a@ == b@),
{
    let mut i: usize = 0;
    while i < 32
        invariant
            i <= 32,
            a@.len() == 32,
            b@.len() == 32,
            forall|k: int| 0 <= k < i ==> a@[k] == b@[k],
        decreases 32 - i,
    {
        if a[i] != b[i] {
            return false;
        }
        i = i + 1;
    }
    assert(a@ =~= b@);
    true
}

/// Records a new auction, created by `authority`, and the event announcing it.
pub fn init_auction(
    auction_id: [u8; 32],
    authority: [u8; 32],
    end_time: i64,
    min_bid: u64,
    bump: u8,
) -> (r: (Auction, AuctionCreated))
    ensures
        r.0.auction_id == auction_id,
        r.0.authority == authority,
        r.0.end_time == end_time,
        r.0.min_bid == min_bid,
        !r.0.is_finalized,
        r.0.bump == bump,
        r.1.auction_id == auction_id,
        r.1.authority == authority,
        r.1.end_time == end_time,
        r.1.min_bid == min_bid,
{
    let auction = Auction { auction_id, authority, end_time, min_bid, is_finalized: false, bump };
    let event = AuctionCreated { auction_id, authority, end_time, min_bid };
    (auction, event)
}

/// Admits a bid from `bidder` at time `now`: refused once the end time is
/// reached, then once the auction is finalized.
pub fn place_bid(auction: &Auction, bidder: [u8; 32], now: i64) -> (r: Result<BidPlaced, ErrorCode>)
    ensures
        now >= auction.end_time ==> r == Err::<BidPlaced, ErrorCode>(ErrorCode::AuctionEnded),
        now < auction.end_time && auction.is_finalized ==> r == Err::<BidPlaced, ErrorCode>(
            ErrorCode::AuctionFinalized,
        ),
        now < auction.end_time && !auction.is_finalized ==> r == Ok::<BidPlaced, ErrorCode>(
            (BidPlaced { auction_id: auction.auction_id, bidder }),
        ),
{
    if now >= auction.end_time {
        return Err(ErrorCode::AuctionEnded);
    }
    if auction.is_finalized {
        return Err(ErrorCode::AuctionFinalized);
    }
    Ok(BidPlaced { auction_id: auction.auction_id, bidder })
}

/// Closes the auction on behalf of `caller` at time `now`: refused unless the
/// caller is the authority, then before the end time, then once finalized.
/// On success the auction is marked finalized; on refusal it is unchanged.
pub fn close_auction(auction: &mut Auction, caller: [u8; 32], now: i64) -> (r: Result<
    AuctionClosing,
    ErrorCode,
>)
    ensures
        caller@ != old(auction).authority@ ==> r == Err::<AuctionClosing, ErrorCode>(
            ErrorCode::Unauthorized,
        ),
        caller@ == old(auction).authority@ && now < old(auction).end_time ==> r == Err::<
            AuctionClosing,
            ErrorCode,
        >(ErrorCode::AuctionNotEnded),
        caller@ == old(auction).authority@ && now >= old(auction).end_time
            && old(auction).is_finalized ==> r == Err::<AuctionClosing, ErrorCode>(
            ErrorCode::AuctionFinalized,
        ),
        caller@ == old(auction).authority@ && now >= old(auction).end_time
            && !old(auction).is_finalized ==> r == Ok::<AuctionClosing, ErrorCode>(
            (AuctionClosing { auction_id: old(auction).auction_id }),
        ),
        r is Ok ==> *final(auction) == (Auction { is_finalized: true, ..*old(auction) }),
        r is Err ==> *final(auction) == *old(auction),
{
    if !keys_match(&caller, &auction.authority) {
        return Err(ErrorCode::Unauthorized);
    }
    if now < auction.end_time {
        return Err(ErrorCode::AuctionNotEnded);
    }
    if auction.is_finalized {
        return Err(ErrorCode::AuctionFinalized);
    }
    let auction_id = auction.auction_id;
    auction.is_finalized = true;
    Ok(AuctionClosing { auction_id })
}

/// Accepts the result of auction initialisation only where its signature
/// was verified.
pub fn init_auction_callback(output_verified: bool) -> (r: Result<AuctionInitialized, ErrorCode>)
    ensures
        output_verified ==> r == Ok::<AuctionInitialized, ErrorCode>((AuctionInitialized {  })),
        !output_verified ==> r == Err::<AuctionInitialized, ErrorCode>(ErrorCode::ComputationFailed),
{
    if !output_verified {
        return Err(ErrorCode::ComputationFailed);
    }
    Ok(AuctionInitialized {  })
}

/// Accepts the result of a bid evaluation only where its signature was
/// verified.
pub fn place_bid_callback(output_verified: bool) -> (r: Result<BidProcessed, ErrorCode>)
    ensures
        output_verified ==> r == Ok::<BidProcessed, ErrorCode>((BidProcessed {  })),
        !output_verified ==> r == Err::<BidProcessed, ErrorCode>(ErrorCode::ComputationFailed),
{
    if !output_verified {
        return Err(ErrorCode::ComputationFailed);
    }
    Ok(BidProcessed {  })
}

/// Accepts the revealed result of a close only where its signature was
/// verified.
pub fn close_auction_callback(output_verified: bool) -> (r: Result<AuctionFinalized, ErrorCode>)
    ensures
        output_verified ==> r == Ok::<AuctionFinalized, ErrorCode>((AuctionFinalized {  })),
        !output_verified ==> r == Err::<AuctionFinalized, ErrorCode>(ErrorCode::ComputationFailed),
{
    if !output_verified {
        return Err(ErrorCode::ComputationFailed);
    }
    Ok(AuctionFinalized {  })
}

} // verus!
