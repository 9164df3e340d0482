//! The marketplace's cross-operation laws, stated and proved over the
//! operations' own decision and effect specifications.
//!
//! Each operation's contract ties its runtime result to a decision function
//! (`*_err`) and its committed effect to a relation (`bought`, `bid_placed`,
//! `settled_*`, `cancelled`); the laws here speak of those, so what they
//! state holds of every run of the executable operations.

use vstd::prelude::*;
use crate::errors::ErrorCode;
use crate::fees::{platform_fee_of, seller_amount_of};
use crate::ledger::{lemma_xfer_conserves_total, total, xfer, AccountId};
use crate::market::Market;

verus! {

/// A listing is bought at most once: a committed purchase leaves the listing
/// sold, and a second purchase attempt — any buyer, any time — fails with
/// the not-active error. By `buy`'s contract a refused purchase changes
/// nothing, so the asset and all funds stay exactly where the first purchase
/// put them.
pub proof fn lemma_buy_twice_fails(
    m0: Market,
    m1: Market,
    lid: int,
    first_buyer: AccountId,
    first_now: i64,
    second_buyer: AccountId,
    second_now: i64,
)
    requires
        m0.wf(),
        m0.valid_listing(lid),
        Market::buy_err(m0, lid, first_buyer, first_now) is None,
        Market::bought(m0, m1, lid, first_buyer, first_now),
    ensures
        m1.listings@[lid].status is Sold,
        Market::buy_err(m1, lid, second_buyer, second_now) == Some(ErrorCode::ListingNotActive),
{
    assert(!m0.config.paused);
    assert(m1.listings@[lid].status is Sold);
}

/// A listing that has left the active state is terminal: every mutating
/// operation on it — buying, bidding, settling, cancelling — is refused, and
/// by the operations' contracts a refused operation changes nothing, so no
/// listing ever returns to the active state.
pub proof fn lemma_inactive_is_terminal(
    m: Market,
    lid: int,
    caller: AccountId,
    amount: u64,
    now: i64,
)
    requires
        m.valid_listing(lid),
        !(m.listings@[lid].status is Active),
    ensures
        Market::buy_err(m, lid, caller, now) is Some,
        Market::place_bid_err(m, lid, caller, amount, now) is Some,
        Market::settle_auction_err(m, lid, now) == Some(ErrorCode::ListingNotActive),
        Market::cancel_listing_err(m, lid, caller) == Some(ErrorCode::ListingNotActive),
{
}

/// An auction with a standing bid cannot be cancelled: the call fails
/// whoever makes it, and for the one caller the other checks admit — the
/// seller of a still-active listing — it fails precisely with the
/// has-active-bid error.
pub proof fn lemma_cancel_with_bid_fails(m: Market, lid: int, caller: AccountId)
    requires
        m.wf(),
        m.valid_listing(lid),
        m.listings@[lid].listing_type is Auction,
        m.auctions@[lid].unwrap().current_bid > 0,
    ensures
        Market::cancel_listing_err(m, lid, caller) is Some,
        caller == m.listings@[lid].seller && m.listings@[lid].status is Active
            ==> Market::cancel_listing_err(m, lid, caller) == Some(ErrorCode::HasActiveBid),
{
    assert(m.listing_wf(lid));
}

/// No caller but the configured authority reaches any admin operation: both
/// pausing and fee changes refuse every other principal, whatever value they
/// bring.
pub proof fn lemma_admin_gate(m: Market, caller: AccountId, new_fee: u16)
    requires
        caller != m.config.authority,
    ensures
        Market::admin_err(m, caller) == Some(ErrorCode::NotAuthorized),
        Market::set_fee_err(m, caller, new_fee) == Some(ErrorCode::NotAuthorized),
{
}

/// An accepted bid strictly raises the standing bid, counts exactly once,
/// keeps the reserve mark sticky — once met it never clears — and refunds
/// the full displaced bid to the bidder who placed it.
pub proof fn lemma_bid_progress(
    m0: Market,
    m1: Market,
    lid: int,
    bidder: AccountId,
    amount: u64,
    now: i64,
)
    requires
        m0.wf(),
        m0.valid_listing(lid),
        m0.listings@[lid].listing_type is Auction,
        m0.ledger.user_account(bidder),
        Market::place_bid_err(m0, lid, bidder, amount, now) is None,
        Market::bid_placed(m0, m1, lid, bidder, amount, now),
    ensures
        ({
            let a0 = m0.auctions@[lid].unwrap();
            let a1 = m1.auctions@[lid].unwrap();
            &&& a1.current_bid == amount
            &&& amount > a0.current_bid
            &&& a1.bid_count == a0.bid_count + 1
            &&& (a0.reserve_met ==> a1.reserve_met)
            &&& (amount >= m0.listings@[lid].price ==> a1.reserve_met)
            &&& (a0.current_bid > 0 && a0.current_bidder.unwrap() != bidder
                ==> m1.ledger.bal(a0.current_bidder.unwrap() as int) == m0.ledger.bal(
                a0.current_bidder.unwrap() as int,
            ) + a0.current_bid)
        }),
{
    assert(m0.listing_wf(lid));
    assert(m0.auction_wf(lid));
    let a0 = m0.auctions@[lid].unwrap();
    assert(a0.bid_count <= a0.current_bid);
    if a0.current_bid > 0 && a0.current_bidder.unwrap() != bidder {
        let prev = a0.current_bidder.unwrap() as int;
        let s1 = Market::refunded_balances(m0, lid);
        assert(s1[prev] == m0.ledger.bal(prev) + a0.current_bid);
        assert(m1.ledger.balances@[prev] == s1[prev]);
    }
}

/// Settling an ended auction that found no winner — no bid, or reserve never
/// met — moves no payment at all: every balance is unchanged, the asset
/// returns to the seller, and the listing expires.
pub proof fn lemma_settle_without_sale(m0: Market, m1: Market, lid: int, now: i64)
    requires
        m0.wf(),
        m0.valid_listing(lid),
        !Market::settles_sold(m0, lid),
        Market::settle_auction_err(m0, lid, now) is None,
        Market::settled_expired(m0, m1, lid),
    ensures
        m1.ledger.balances@ == m0.ledger.balances@,
        m1.listings@[lid].status is Expired,
        m1.ledger.holds(m0.listings@[lid].asset_id, m0.listings@[lid].seller),
{
    assert(m0.listing_wf(lid));
}

/// Settling an ended auction whose standing bid met the reserve pays the
/// seller exactly the bid less the platform fee, pays exactly that fee to
/// the fee collector, hands the asset to the winning bidder, and sells the
/// listing to that bidder.
pub proof fn lemma_settle_sale_payout(m0: Market, m1: Market, lid: int, now: i64)
    requires
        m0.wf(),
        m0.valid_listing(lid),
        Market::settles_sold(m0, lid),
        Market::settle_auction_err(m0, lid, now) is None,
        Market::settled_sold(m0, m1, lid, now),
        m0.listings@[lid].seller != m0.config.fee_collector,
    ensures
        ({
            let l = m0.listings@[lid];
            let a = m0.auctions@[lid].unwrap();
            let fee = platform_fee_of(a.current_bid, m0.config.platform_fee);
            &&& m1.ledger.bal(l.seller as int) == m0.ledger.bal(l.seller as int) + a.current_bid
                - fee
            &&& m1.ledger.bal(m0.config.fee_collector as int) == m0.ledger.bal(
                m0.config.fee_collector as int,
            ) + fee
            &&& m1.ledger.holds(l.asset_id, a.current_bidder.unwrap())
            &&& m1.listings@[lid].status is Sold
            &&& m1.listings@[lid].buyer == Some(a.current_bidder.unwrap())
        }),
{
    assert(m0.listing_wf(lid));
    assert(m0.auction_wf(lid));
    let l = m0.listings@[lid];
    let a = m0.auctions@[lid].unwrap();
    crate::fees::lemma_fee_bounds(a.current_bid, m0.config.platform_fee);
    assert(m0.ledger.escrowish(a.escrow as int));
    assert(!m0.ledger.escrowish(l.seller as int));
    assert(!m0.ledger.escrowish(m0.config.fee_collector as int));
}

/// A purchase creates and destroys no payment units: the seller's share and
/// the fee only move from the buyer, so the total of all balances is
/// unchanged.
pub proof fn lemma_buy_conserves_funds(
    m0: Market,
    m1: Market,
    lid: int,
    buyer: AccountId,
    now: i64,
)
    requires
        m0.wf(),
        m0.valid_listing(lid),
        m0.ledger.user_account(buyer),
        Market::buy_err(m0, lid, buyer, now) is None,
        Market::bought(m0, m1, lid, buyer, now),
    ensures
        total(m1.ledger.balances@) == total(m0.ledger.balances@),
{
    assert(m0.listing_wf(lid));
    let l = m0.listings@[lid];
    let fee = platform_fee_of(l.price, m0.config.platform_fee) as u64;
    let samt = seller_amount_of(l.price, m0.config.platform_fee) as u64;
    let s = m0.ledger.balances@;
    let s1 = xfer(s, buyer as int, l.seller as int, samt);
    lemma_xfer_conserves_total(s, buyer as int, l.seller as int, samt);
    lemma_xfer_conserves_total(s1, buyer as int, m0.config.fee_collector as int, fee);
}

/// An accepted bid creates and destroys no payment units: the refund and the
/// new escrow deposit only move funds, so the total of all balances is
/// unchanged.
pub proof fn lemma_bid_conserves_funds(
    m0: Market,
    m1: Market,
    lid: int,
    bidder: AccountId,
    amount: u64,
    now: i64,
)
    requires
        m0.wf(),
        m0.valid_listing(lid),
        m0.ledger.user_account(bidder),
        Market::place_bid_err(m0, lid, bidder, amount, now) is None,
        Market::bid_placed(m0, m1, lid, bidder, amount, now),
    ensures
        total(m1.ledger.balances@) == total(m0.ledger.balances@),
{
    assert(m0.listing_wf(lid));
    assert(m0.auction_wf(lid));
    let a = m0.auctions@[lid].unwrap();
    let s = m0.ledger.balances@;
    let s1 = Market::refunded_balances(m0, lid);
    if a.current_bid > 0 {
        let prev = a.current_bidder.unwrap();
        assert(prev as int != a.escrow as int);
        lemma_xfer_conserves_total(s, a.escrow as int, prev as int, a.current_bid);
        assert(s1[a.escrow as int] == 0);
    }
    lemma_xfer_conserves_total(s1, bidder as int, a.escrow as int, amount);
}

/// Settlement creates and destroys no payment units: a winning settlement
/// only moves the escrowed bid to the seller and the fee collector, and a
/// failed one moves nothing.
pub proof fn lemma_settlement_conserves_funds(m0: Market, m1: Market, lid: int, now: i64)
    requires
        m0.wf(),
        m0.valid_listing(lid),
        Market::settle_auction_err(m0, lid, now) is None,
        Market::settles_sold(m0, lid) ==> Market::settled_sold(m0, m1, lid, now),
        !Market::settles_sold(m0, lid) ==> Market::settled_expired(m0, m1, lid),
    ensures
        total(m1.ledger.balances@) == total(m0.ledger.balances@),
{
    assert(m0.listing_wf(lid));
    assert(m0.auction_wf(lid));
    if Market::settles_sold(m0, lid) {
        let l = m0.listings@[lid];
        let a = m0.auctions@[lid].unwrap();
        crate::fees::lemma_fee_bounds(a.current_bid, m0.config.platform_fee);
        let fee = platform_fee_of(a.current_bid, m0.config.platform_fee) as u64;
        let samt = seller_amount_of(a.current_bid, m0.config.platform_fee) as u64;
        let s = m0.ledger.balances@;
        let s1 = xfer(s, a.escrow as int, l.seller as int, samt);
        lemma_xfer_conserves_total(s, a.escrow as int, l.seller as int, samt);
        lemma_xfer_conserves_total(s1, a.escrow as int, m0.config.fee_collector as int, fee);
    }
}

} // verus!
