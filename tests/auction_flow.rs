use blind_auction::auction::{
    close_auction, evaluate_bid, init_auction, place_bid, update_state, AuctionResult, AuctionState, BidResult,
    EncryptedBid,
};
use blind_auction::vickrey::{
    close_vickrey_auction, evaluate_vickrey_bid, init_vickrey_auction, place_vickrey_bid, update_vickrey_state,
    VickreyResult, VickreyState,
};

fn bid(bidder_id: u64, amount: u64) -> EncryptedBid {
    EncryptedBid { bidder_id, amount }
}

#[test]
fn first_price_scenario() {
    let s0 = init_auction();
    let (s1, r1) = place_bid(s0, bid(1, 100));
    assert_eq!(r1, BidResult { is_winning: true, total_bids: 1 });
    let (s2, r2) = place_bid(s1, bid(2, 50));
    assert_eq!(r2, BidResult { is_winning: false, total_bids: 2 });
    assert_eq!(s2.highest_bidder, 1);
    assert_eq!(s2.highest_bid, 100);
    assert_eq!(
        close_auction(s2),
        AuctionResult { winner_id: 1, winning_amount: 100, total_bids: 2 }
    );
}

#[test]
fn vickrey_scenario() {
    let s0 = init_vickrey_auction();
    let (s1, _) = place_vickrey_bid(s0, bid(1, 100));
    let (s2, _) = place_vickrey_bid(s1, bid(2, 150));
    let (s3, _) = place_vickrey_bid(s2, bid(3, 120));
    assert_eq!(
        close_vickrey_auction(s3),
        VickreyResult { winner_id: 2, price_to_pay: 120, total_bids: 3 }
    );
}

#[test]
fn no_bids_first_price() {
    let r = close_auction(init_auction());
    assert_eq!(r.winner_id, 0);
    assert_eq!(r.total_bids, 0);
    assert_eq!(r.winning_amount, 0);
}

#[test]
fn no_bids_vickrey() {
    let r = close_vickrey_auction(init_vickrey_auction());
    assert_eq!(r.winner_id, 0);
    assert_eq!(r.total_bids, 0);
    assert_eq!(r.price_to_pay, 0);
}

#[test]
fn fresh_state_is_open_and_zero() {
    assert_eq!(
        init_auction(),
        AuctionState { highest_bid: 0, highest_bidder: 0, bid_count: 0, is_open: true }
    );
    assert_eq!(
        init_vickrey_auction(),
        VickreyState { highest_bid: 0, highest_bidder: 0, second_bid: 0, bid_count: 0, is_open: true }
    );
}

#[test]
fn highest_bid_never_decreases() {
    let amounts = [30u64, 10, 70, 70, 5, 90, 0, 89];
    let mut s = init_auction();
    let mut v = init_vickrey_auction();
    for (i, a) in amounts.iter().enumerate() {
        let (n, _) = place_bid(s, bid(i as u64 + 1, *a));
        assert!(n.highest_bid >= s.highest_bid);
        s = n;
        let (m, _) = place_vickrey_bid(v, bid(i as u64 + 1, *a));
        assert!(m.highest_bid >= v.highest_bid);
        assert!(m.second_bid >= v.second_bid);
        assert!(m.second_bid <= m.highest_bid);
        v = m;
    }
    assert_eq!(s.highest_bid, 90);
    assert_eq!(s.highest_bidder, 6);
    assert_eq!(v.highest_bid, 90);
    assert_eq!(v.second_bid, 89);
}

#[test]
fn tie_keeps_incumbent() {
    let (s1, _) = place_bid(init_auction(), bid(1, 100));
    let (s2, r2) = place_bid(s1, bid(2, 100));
    assert!(!r2.is_winning);
    assert_eq!(s2.highest_bidder, 1);
    assert_eq!(s2.highest_bid, 100);

    let (v1, _) = place_vickrey_bid(init_vickrey_auction(), bid(1, 100));
    let (v2, r) = place_vickrey_bid(v1, bid(2, 100));
    assert!(!r.is_winning);
    assert_eq!(v2.highest_bidder, 1);
    assert_eq!(v2.highest_bid, 100);
}

#[test]
fn zero_bid_on_fresh_auction_does_not_lead() {
    let (s1, r1) = place_bid(init_auction(), bid(7, 0));
    assert!(!r1.is_winning);
    assert_eq!(s1.highest_bidder, 0);
    assert_eq!(s1.bid_count, 1);
}

#[test]
fn displaced_leader_becomes_second() {
    let s = VickreyState { highest_bid: 40, highest_bidder: 4, second_bid: 10, bid_count: 2, is_open: true };
    let (n, r) = place_vickrey_bid(s, bid(9, 55));
    assert!(r.is_winning);
    assert_eq!(n.second_bid, 40);
    assert_eq!(n.highest_bid, 55);
    assert_eq!(n.highest_bidder, 9);
}

#[test]
fn second_place_absorbs_only_strictly_higher() {
    let s = VickreyState { highest_bid: 40, highest_bidder: 4, second_bid: 10, bid_count: 2, is_open: true };
    let (n, r) = place_vickrey_bid(s, bid(5, 25));
    assert!(!r.is_winning);
    assert_eq!(n.second_bid, 25);
    assert_eq!(n.highest_bidder, 4);
    let (m, _) = place_vickrey_bid(s, bid(5, 10));
    assert_eq!(m.second_bid, 10);
    let (k, _) = place_vickrey_bid(s, bid(5, 40));
    assert_eq!(k.second_bid, 40);
    assert_eq!(k.highest_bidder, 4);
}

#[test]
fn closed_auction_ignores_bids() {
    let s = AuctionState { highest_bid: 40, highest_bidder: 4, bid_count: 3, is_open: false };
    let (n, r) = place_bid(s, bid(9, 1000));
    assert_eq!(n, s);
    assert_eq!(r, BidResult { is_winning: false, total_bids: 3 });

    let v = VickreyState { highest_bid: 40, highest_bidder: 4, second_bid: 20, bid_count: 3, is_open: false };
    let (m, q) = place_vickrey_bid(v, bid(9, 30));
    assert_eq!(m, v);
    assert_eq!(q, BidResult { is_winning: false, total_bids: 3 });
}

#[test]
fn closed_auction_at_full_count() {
    let s = AuctionState { highest_bid: 1, highest_bidder: 2, bid_count: u32::MAX, is_open: false };
    let (n, r) = place_bid(s, bid(3, u64::MAX));
    assert_eq!(n, s);
    assert_eq!(r.total_bids, u32::MAX);
}

#[test]
fn bid_count_matches_number_of_bids() {
    let mut s = init_auction();
    let mut v = init_vickrey_auction();
    for i in 0..25u64 {
        let amount = (i * 37) % 11;
        let (n, r) = place_bid(s, bid(i, amount));
        assert_eq!(r.total_bids as u64, i + 1);
        s = n;
        let (m, q) = place_vickrey_bid(v, bid(i, amount));
        assert_eq!(q.total_bids as u64, i + 1);
        v = m;
    }
    assert_eq!(s.bid_count, 25);
    assert_eq!(v.bid_count, 25);
}

#[test]
fn largest_amounts() {
    let (s, r) = place_bid(init_auction(), bid(u64::MAX, u64::MAX));
    assert!(r.is_winning);
    assert_eq!(s.highest_bid, u64::MAX);
    assert_eq!(s.highest_bidder, u64::MAX);
    let (v, _) = place_vickrey_bid(init_vickrey_auction(), bid(1, u64::MAX - 1));
    let (w, _) = place_vickrey_bid(v, bid(2, u64::MAX));
    assert_eq!(w.second_bid, u64::MAX - 1);
    assert_eq!(w.highest_bidder, 2);
}

#[test]
fn evaluator_predicates() {
    let s = AuctionState { highest_bid: 10, highest_bidder: 1, bid_count: 1, is_open: true };
    let e = evaluate_bid(&s, &bid(2, 11));
    assert!(e.auction_open && e.is_first_place && !e.is_second_place);
    let e = evaluate_bid(&s, &bid(2, 10));
    assert!(e.auction_open && !e.is_first_place);
    let closed = AuctionState { is_open: false, ..s };
    let e = evaluate_bid(&closed, &bid(2, 11));
    assert!(!e.auction_open && !e.is_first_place);

    let v = VickreyState { highest_bid: 10, highest_bidder: 1, second_bid: 5, bid_count: 2, is_open: true };
    let e = evaluate_vickrey_bid(&v, &bid(2, 11));
    assert!(e.is_first_place && !e.is_second_place);
    let e = evaluate_vickrey_bid(&v, &bid(2, 7));
    assert!(!e.is_first_place && e.is_second_place);
    let e = evaluate_vickrey_bid(&v, &bid(2, 5));
    assert!(!e.is_first_place && !e.is_second_place);
    let e = evaluate_vickrey_bid(&VickreyState { is_open: false, ..v }, &bid(2, 7));
    assert!(!e.auction_open && !e.is_first_place && !e.is_second_place);
}

#[test]
fn updater_follows_given_predicates() {
    let s = AuctionState { highest_bid: 10, highest_bidder: 1, bid_count: 4, is_open: true };
    let (n, r) = update_state(&s, &bid(2, 3), true, true);
    assert_eq!(n, AuctionState { highest_bid: 3, highest_bidder: 2, bid_count: 5, is_open: true });
    assert_eq!(r, BidResult { is_winning: true, total_bids: 5 });
    let (n, r) = update_state(&s, &bid(2, 30), false, true);
    assert_eq!(n, s);
    assert!(!r.is_winning);

    let v = VickreyState { highest_bid: 10, highest_bidder: 1, second_bid: 6, bid_count: 4, is_open: true };
    let (n, _) = update_vickrey_state(&v, &bid(2, 8), true, false, true);
    assert_eq!(n.second_bid, 8);
    assert_eq!(n.highest_bid, 10);
    assert_eq!(n.bid_count, 5);
    let (n, _) = update_vickrey_state(&v, &bid(2, 20), true, true, false);
    assert_eq!((n.highest_bid, n.highest_bidder, n.second_bid), (20, 2, 10));
}
