use soundchain_marketplace::errors::ErrorCode;
use soundchain_marketplace::events::MarketEvent;
use soundchain_marketplace::ledger::Ledger;
use soundchain_marketplace::market::Market;
use soundchain_marketplace::records::{ListingStatus, ListingType, SettlementReceipt};

const USDC: u64 = 7;

/// A market with the given fee rate, returning (market, authority, collector).
fn market_with(fee_bps: u16) -> (Market, usize, usize) {
    let mut ledger = Ledger::new();
    let authority = ledger.create_account();
    let collector = ledger.create_account();
    let market = Market::initialize(ledger, authority, collector, fee_bps).unwrap();
    (market, authority, collector)
}

/// A funded user account.
fn user(m: &mut Market, funds: u64) -> usize {
    let a = m.ledger.create_account();
    m.ledger.deposit(a, funds);
    a
}

#[test]
fn buy_pays_seller_fee_and_asset() {
    let (mut m, _auth, collector) = market_with(250);
    let seller = user(&mut m, 0);
    let buyer = user(&mut m, 20_000);
    let asset = m.ledger.create_asset(seller);
    let lid = m
        .create_listing(seller, asset, USDC, 10_000, 1_000_000, None, 50)
        .unwrap();
    let receipt = m.buy(lid, buyer, 60).unwrap();
    assert_eq!(receipt.platform_fee, 250);
    assert_eq!(receipt.seller_amount, 9_750);
    assert_eq!(receipt.price, 10_000);
    assert_eq!(m.ledger.balance_of(seller), 9_750);
    assert_eq!(m.ledger.balance_of(collector), 250);
    assert_eq!(m.ledger.balance_of(buyer), 10_000);
    assert_eq!(m.ledger.holder_of(asset), buyer);
    assert_eq!(m.listings[lid].status, ListingStatus::Sold);
    assert_eq!(m.listings[lid].buyer, Some(buyer));
    assert_eq!(m.listings[lid].sold_at, Some(60));
}

#[test]
fn buy_twice_fails_with_not_active() {
    let (mut m, _auth, collector) = market_with(250);
    let seller = user(&mut m, 0);
    let first = user(&mut m, 10_000);
    let second = user(&mut m, 10_000);
    let asset = m.ledger.create_asset(seller);
    let lid = m
        .create_listing(seller, asset, USDC, 1_000, 1_000_000, None, 0)
        .unwrap();
    m.buy(lid, first, 10).unwrap();
    let err = m.buy(lid, second, 20).unwrap_err();
    assert_eq!(err, ErrorCode::ListingNotActive);
    // the asset and all funds stay where the first purchase put them
    assert_eq!(m.ledger.holder_of(asset), first);
    assert_eq!(m.ledger.balance_of(second), 10_000);
    assert_eq!(m.ledger.balance_of(seller), 975);
    assert_eq!(m.ledger.balance_of(collector), 25);
    assert_eq!(m.listings[lid].buyer, Some(first));
}

#[test]
fn bid_sequence_with_increment_rule_and_refund() {
    let (mut m, _auth, _collector) = market_with(250);
    let seller = user(&mut m, 0);
    let alice = user(&mut m, 1_000);
    let bob = user(&mut m, 1_000);
    let asset = m.ledger.create_asset(seller);
    let lid = m
        .create_auction(seller, asset, USDC, 500, 3_600, None, 0)
        .unwrap();
    m.place_bid(lid, alice, 100, 10).unwrap();
    // 104 is below 105% of 100
    let err = m.place_bid(lid, bob, 104, 20).unwrap_err();
    assert_eq!(err, ErrorCode::InsufficientBidIncrease);
    let receipt = m.place_bid(lid, bob, 110, 30).unwrap();
    let auction = m.auctions[lid].unwrap();
    assert_eq!(auction.current_bid, 110);
    assert_eq!(auction.bid_count, 2);
    assert_eq!(auction.current_bidder, Some(bob));
    // the holder of the 100 bid was refunded exactly 100
    assert_eq!(m.ledger.balance_of(alice), 1_000);
    assert_eq!(m.ledger.balance_of(bob), 890);
    let refund = receipt.refunded.unwrap();
    assert_eq!(refund.bidder, alice);
    assert_eq!(refund.amount, 100);
}

#[test]
fn settle_without_bids_expires_and_returns_asset() {
    let (mut m, _auth, collector) = market_with(250);
    let seller = user(&mut m, 0);
    let asset = m.ledger.create_asset(seller);
    let lid = m
        .create_auction(seller, asset, USDC, 500, 3_600, None, 0)
        .unwrap();
    let receipt = m.settle_auction(lid, 3_600).unwrap();
    assert_eq!(receipt, SettlementReceipt::Expired);
    assert_eq!(m.listings[lid].status, ListingStatus::Expired);
    assert_eq!(m.ledger.holder_of(asset), seller);
    // no payment transfer occurred
    assert_eq!(m.ledger.balance_of(seller), 0);
    assert_eq!(m.ledger.balance_of(collector), 0);
}

#[test]
fn settle_with_reserve_met_pays_out() {
    let (mut m, _auth, collector) = market_with(250);
    let seller = user(&mut m, 0);
    let bidder = user(&mut m, 1_000);
    let asset = m.ledger.create_asset(seller);
    let lid = m
        .create_auction(seller, asset, USDC, 500, 3_600, None, 0)
        .unwrap();
    m.place_bid(lid, bidder, 600, 10).unwrap();
    let receipt = m.settle_auction(lid, 4_000).unwrap();
    // fee = 600 * 250 / 10000 = 15
    assert_eq!(
        receipt,
        SettlementReceipt::Sold { winner: bidder, price: 600, platform_fee: 15 }
    );
    assert_eq!(m.ledger.balance_of(seller), 585);
    assert_eq!(m.ledger.balance_of(collector), 15);
    assert_eq!(m.ledger.holder_of(asset), bidder);
    assert_eq!(m.listings[lid].status, ListingStatus::Sold);
    assert_eq!(m.listings[lid].buyer, Some(bidder));
    // settlement is final: a replay fails cleanly
    let err = m.settle_auction(lid, 5_000).unwrap_err();
    assert_eq!(err, ErrorCode::ListingNotActive);
}

#[test]
fn settle_below_reserve_expires() {
    let (mut m, _auth, _collector) = market_with(250);
    let seller = user(&mut m, 0);
    let bidder = user(&mut m, 1_000);
    let asset = m.ledger.create_asset(seller);
    let lid = m
        .create_auction(seller, asset, USDC, 500, 3_600, None, 0)
        .unwrap();
    m.place_bid(lid, bidder, 100, 10).unwrap();
    assert!(!m.auctions[lid].unwrap().reserve_met);
    let receipt = m.settle_auction(lid, 3_600).unwrap();
    assert_eq!(receipt, SettlementReceipt::Expired);
    assert_eq!(m.ledger.holder_of(asset), seller);
    assert_eq!(m.listings[lid].status, ListingStatus::Expired);
}

#[test]
fn cancel_auction_with_bid_fails_for_everyone() {
    let (mut m, _auth, _collector) = market_with(250);
    let seller = user(&mut m, 0);
    let bidder = user(&mut m, 1_000);
    let stranger = user(&mut m, 0);
    let asset = m.ledger.create_asset(seller);
    let lid = m
        .create_auction(seller, asset, USDC, 500, 3_600, None, 0)
        .unwrap();
    m.place_bid(lid, bidder, 100, 10).unwrap();
    assert_eq!(m.cancel_listing(lid, seller, 20).unwrap_err(), ErrorCode::HasActiveBid);
    assert_eq!(m.cancel_listing(lid, stranger, 20).unwrap_err(), ErrorCode::NotSeller);
    assert_eq!(m.listings[lid].status, ListingStatus::Active);
}

#[test]
fn cancel_without_bid_returns_asset() {
    let (mut m, _auth, _collector) = market_with(250);
    let seller = user(&mut m, 0);
    let asset = m.ledger.create_asset(seller);
    let lid = m
        .create_auction(seller, asset, USDC, 500, 3_600, None, 0)
        .unwrap();
    m.cancel_listing(lid, seller, 20).unwrap();
    assert_eq!(m.listings[lid].status, ListingStatus::Cancelled);
    assert_eq!(m.ledger.holder_of(asset), seller);
}

#[test]
fn auction_duration_bounds() {
    let (mut m, _auth, _collector) = market_with(250);
    let seller = user(&mut m, 0);
    let asset = m.ledger.create_asset(seller);
    assert_eq!(
        m.create_auction(seller, asset, USDC, 500, 3_599, None, 0).unwrap_err(),
        ErrorCode::DurationTooShort
    );
    assert_eq!(
        m.create_auction(seller, asset, USDC, 500, 2_592_001, None, 0).unwrap_err(),
        ErrorCode::DurationTooLong
    );
    let lid = m
        .create_auction(seller, asset, USDC, 500, 3_600, None, 0)
        .unwrap();
    m.cancel_listing(lid, seller, 1).unwrap();
    let lid2 = m
        .create_auction(seller, asset, USDC, 500, 2_592_000, None, 0)
        .unwrap();
    assert_eq!(m.listings[lid2].expires_at, 2_592_000);
}

#[test]
fn set_fee_bounds_and_authority() {
    let (mut m, auth, _collector) = market_with(250);
    let stranger = m.ledger.create_account();
    assert_eq!(m.set_fee(auth, 1_001).unwrap_err(), ErrorCode::FeeTooHigh);
    m.set_fee(auth, 1_000).unwrap();
    assert_eq!(m.config.platform_fee, 1_000);
    assert_eq!(m.set_fee(stranger, 10).unwrap_err(), ErrorCode::NotAuthorized);
    assert_eq!(m.set_paused(stranger, true).unwrap_err(), ErrorCode::NotAuthorized);
    assert!(!m.config.paused);
}

#[test]
fn initialize_refuses_fee_over_maximum() {
    let mut ledger = Ledger::new();
    let authority = ledger.create_account();
    let collector = ledger.create_account();
    match Market::initialize(ledger, authority, collector, 1_001) {
        Err(err) => assert_eq!(err, ErrorCode::FeeTooHigh),
        Ok(_) => panic!("a fee rate over the maximum must be refused"),
    }
}

#[test]
fn pause_blocks_creation_buying_and_bidding_only() {
    let (mut m, auth, _collector) = market_with(250);
    let seller = user(&mut m, 0);
    let buyer = user(&mut m, 10_000);
    let asset = m.ledger.create_asset(seller);
    let fixed = m
        .create_listing(seller, asset, USDC, 1_000, 1_000_000, None, 0)
        .unwrap();
    let asset2 = m.ledger.create_asset(seller);
    let auction = m
        .create_auction(seller, asset2, USDC, 500, 3_600, None, 0)
        .unwrap();
    m.set_paused(auth, true).unwrap();
    let asset3 = m.ledger.create_asset(seller);
    assert_eq!(
        m.create_listing(seller, asset3, USDC, 1, 10, None, 0).unwrap_err(),
        ErrorCode::MarketplacePaused
    );
    assert_eq!(m.buy(fixed, buyer, 10).unwrap_err(), ErrorCode::MarketplacePaused);
    assert_eq!(
        m.place_bid(auction, buyer, 600, 10).unwrap_err(),
        ErrorCode::MarketplacePaused
    );
    // cancellation and settlement of an ended auction are never blocked
    m.cancel_listing(fixed, seller, 20).unwrap();
    assert_eq!(m.settle_auction(auction, 3_600).unwrap(), SettlementReceipt::Expired);
}

#[test]
fn type_and_deadline_guards() {
    let (mut m, _auth, _collector) = market_with(250);
    let seller = user(&mut m, 0);
    let buyer = user(&mut m, 10_000);
    let asset = m.ledger.create_asset(seller);
    let fixed = m
        .create_listing(seller, asset, USDC, 1_000, 100, None, 0)
        .unwrap();
    let asset2 = m.ledger.create_asset(seller);
    let auction = m
        .create_auction(seller, asset2, USDC, 500, 3_600, None, 0)
        .unwrap();
    assert_eq!(m.buy(auction, buyer, 10).unwrap_err(), ErrorCode::NotFixedPrice);
    assert_eq!(m.place_bid(fixed, buyer, 10, 10).unwrap_err(), ErrorCode::NotAuction);
    assert_eq!(m.settle_auction(fixed, 200).unwrap_err(), ErrorCode::NotAuction);
    assert_eq!(m.settle_auction(auction, 3_599).unwrap_err(), ErrorCode::AuctionNotEnded);
    // the fixed listing expires at 100
    assert_eq!(m.buy(fixed, buyer, 100).unwrap_err(), ErrorCode::ListingExpired);
    assert_eq!(
        m.place_bid(auction, buyer, 600, 3_600).unwrap_err(),
        ErrorCode::ListingExpired
    );
}

#[test]
fn bid_too_low_and_insufficient_funds() {
    let (mut m, _auth, _collector) = market_with(250);
    let seller = user(&mut m, 0);
    let rich = user(&mut m, 1_000);
    let poor = user(&mut m, 50);
    let asset = m.ledger.create_asset(seller);
    let lid = m
        .create_auction(seller, asset, USDC, 500, 3_600, None, 0)
        .unwrap();
    assert_eq!(m.place_bid(lid, rich, 0, 10).unwrap_err(), ErrorCode::BidTooLow);
    assert_eq!(m.place_bid(lid, poor, 100, 10).unwrap_err(), ErrorCode::InsufficientFunds);
    m.place_bid(lid, rich, 100, 10).unwrap();
    assert_eq!(m.place_bid(lid, rich, 100, 20).unwrap_err(), ErrorCode::BidTooLow);
    // a buyer short of the price is refused with no effect
    let asset2 = m.ledger.create_asset(seller);
    let fixed = m
        .create_listing(seller, asset2, USDC, 100, 1_000, None, 0)
        .unwrap();
    assert_eq!(m.buy(fixed, poor, 10).unwrap_err(), ErrorCode::InsufficientFunds);
    assert_eq!(m.ledger.balance_of(poor), 50);
    assert_eq!(m.ledger.holder_of(asset2), m.listings[fixed].escrow);
}

#[test]
fn listing_requires_asset_custody() {
    let (mut m, _auth, _collector) = market_with(250);
    let seller = user(&mut m, 0);
    let other = user(&mut m, 0);
    let asset = m.ledger.create_asset(seller);
    assert_eq!(
        m.create_listing(other, asset, USDC, 100, 1_000, None, 0).unwrap_err(),
        ErrorCode::AssetNotHeld
    );
    m.create_listing(seller, asset, USDC, 100, 1_000, None, 0).unwrap();
    // the asset now sits in escrow, so not even the seller can list it again
    assert_eq!(
        m.create_listing(seller, asset, USDC, 100, 1_000, None, 0).unwrap_err(),
        ErrorCode::AssetNotHeld
    );
}

#[test]
fn self_outbid_refunds_own_escrow() {
    let (mut m, _auth, _collector) = market_with(250);
    let seller = user(&mut m, 0);
    let bidder = user(&mut m, 1_000);
    let asset = m.ledger.create_asset(seller);
    let lid = m
        .create_auction(seller, asset, USDC, 500, 3_600, None, 0)
        .unwrap();
    m.place_bid(lid, bidder, 100, 10).unwrap();
    assert_eq!(m.ledger.balance_of(bidder), 900);
    m.place_bid(lid, bidder, 110, 20).unwrap();
    assert_eq!(m.ledger.balance_of(bidder), 890);
    let auction = m.auctions[lid].unwrap();
    assert_eq!(auction.current_bid, 110);
    assert_eq!(m.ledger.balance_of(auction.escrow), 110);
}

#[test]
fn reserve_mark_sticks_once_met() {
    let (mut m, _auth, _collector) = market_with(250);
    let seller = user(&mut m, 0);
    let alice = user(&mut m, 10_000);
    let bob = user(&mut m, 10_000);
    let asset = m.ledger.create_asset(seller);
    let lid = m
        .create_auction(seller, asset, USDC, 500, 3_600, None, 0)
        .unwrap();
    m.place_bid(lid, alice, 100, 10).unwrap();
    assert!(!m.auctions[lid].unwrap().reserve_met);
    m.place_bid(lid, bob, 500, 20).unwrap();
    assert!(m.auctions[lid].unwrap().reserve_met);
    m.place_bid(lid, alice, 600, 30).unwrap();
    assert!(m.auctions[lid].unwrap().reserve_met);
}

#[test]
fn events_record_the_lifecycle() {
    let (mut m, _auth, _collector) = market_with(250);
    let seller = user(&mut m, 0);
    let buyer = user(&mut m, 10_000);
    let asset = m.ledger.create_asset(seller);
    let lid = m
        .create_listing(seller, asset, USDC, 1_000, 1_000_000, None, 5)
        .unwrap();
    m.buy(lid, buyer, 9).unwrap();
    assert_eq!(m.events.len(), 2);
    match &m.events[0] {
        MarketEvent::Created(e) => {
            assert_eq!(e.listing_id, lid);
            assert_eq!(e.seller, seller);
            assert_eq!(e.asset_id, asset);
            assert_eq!(e.price, 1_000);
            assert_eq!(e.listing_type, ListingType::FixedPrice);
            assert_eq!(e.timestamp, 5);
        }
        other => panic!("expected a creation event, got {:?}", other),
    }
    match &m.events[1] {
        MarketEvent::Sold(e) => {
            assert_eq!(e.buyer, buyer);
            assert_eq!(e.price, 1_000);
            assert_eq!(e.platform_fee, 25);
            assert_eq!(e.timestamp, 9);
        }
        other => panic!("expected a sale event, got {:?}", other),
    }
}

#[test]
fn external_ref_is_recorded() {
    let (mut m, _auth, _collector) = market_with(0);
    let seller = user(&mut m, 0);
    let asset = m.ledger.create_asset(seller);
    let lid = m
        .create_listing(
            seller,
            asset,
            USDC,
            1_000,
            1_000,
            Some(String::from("SC-SOL-7B3A-2500001")),
            0,
        )
        .unwrap();
    assert_eq!(m.listings[lid].external_ref.as_deref(), Some("SC-SOL-7B3A-2500001"));
    assert_eq!(m.listings[lid].payment_kind, USDC);
}

#[test]
fn funds_are_conserved_across_a_session() {
    let (mut m, _auth, _collector) = market_with(250);
    let seller = user(&mut m, 500);
    let buyer = user(&mut m, 20_000);
    let rival = user(&mut m, 20_000);
    let asset = m.ledger.create_asset(seller);
    let track = m.ledger.create_asset(seller);
    let before: u128 = m.ledger.balances.iter().map(|b| *b as u128).sum();
    let auction = m
        .create_auction(seller, asset, USDC, 500, 3_600, None, 0)
        .unwrap();
    m.place_bid(auction, buyer, 500, 10).unwrap();
    m.place_bid(auction, rival, 600, 20).unwrap();
    m.settle_auction(auction, 3_600).unwrap();
    let fixed = m
        .create_listing(seller, track, USDC, 10_000, 100_000, None, 0)
        .unwrap();
    m.buy(fixed, buyer, 10).unwrap();
    let after: u128 = m.ledger.balances.iter().map(|b| *b as u128).sum();
    assert_eq!(before, after);
}

#[test]
fn zero_fee_pays_seller_everything() {
    let (mut m, _auth, collector) = market_with(0);
    let seller = user(&mut m, 0);
    let buyer = user(&mut m, 10_000);
    let asset = m.ledger.create_asset(seller);
    let lid = m
        .create_listing(seller, asset, USDC, 777, 1_000, None, 0)
        .unwrap();
    let receipt = m.buy(lid, buyer, 10).unwrap();
    assert_eq!(receipt.platform_fee, 0);
    assert_eq!(receipt.seller_amount, 777);
    assert_eq!(m.ledger.balance_of(seller), 777);
    assert_eq!(m.ledger.balance_of(collector), 0);
}
