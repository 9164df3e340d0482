//! The listing and auction records and the receipts the operations return.

use vstd::prelude::*;
use crate::ledger::{AccountId, AssetId};

verus! {

/// A listing identifier: the index under which the listing was created.
pub type ListingId = usize;

/// How a listing sells its asset. Make-offer listings are declared but no
/// operation creates or accepts one.
#[derive(Clone, Copy, Debug, PartialEq, Eq, Structural)]
pub enum ListingType {
    FixedPrice,
    Auction,
    MakeOffer,
}

/// Where a listing stands in its lifecycle. A listing leaves `Active` at most
/// once and never returns to it.
#[derive(Clone, Copy, Debug, PartialEq, Eq, Structural)]
pub enum ListingStatus {
    Active,
    Sold,
    Cancelled,
    Expired,
}

/// One asset offered for sale. For a fixed-price listing `price` is the sale
/// price; for an auction it is the reserve price. The listing's own escrow
/// account holds the asset while the listing is active.
pub struct Listing {
    pub seller: AccountId,
    pub asset_id: AssetId,
    /// Which fungible payment asset the sale is denominated in; recorded on
    /// the listing, never interpreted by the marketplace itself.
    pub payment_kind: u64,
    pub price: u64,
    pub listing_type: ListingType,
    pub status: ListingStatus,
    pub created_at: i64,
    pub expires_at: i64,
    /// Free-form linkage to an external identifier registry.
    pub external_ref: Option<String>,
    pub buyer: Option<AccountId>,
    pub sold_at: Option<i64>,
    /// The asset escrow account this listing's resource authority controls.
    pub escrow: AccountId,
}

/// Bidding state, bound to exactly one auction-type listing. The auction's
/// own escrow account holds the standing bid while the listing is active.
#[derive(Clone, Copy, Debug)]
pub struct Auction {
    pub listing_ref: ListingId,
    /// The standing bid; zero until the first bid is accepted.
    pub current_bid: u64,
    /// The standing bidder; none until the first bid is accepted.
    pub current_bidder: Option<AccountId>,
    /// How many bids have been accepted.
    pub bid_count: u64,
    /// Whether some accepted bid reached the reserve price; once true it
    /// never reverts.
    pub reserve_met: bool,
    /// The payment escrow account this auction's resource authority controls.
    pub escrow: AccountId,
}

/// What a successful purchase paid and to whom the asset went.
#[derive(Clone, Copy, Debug, PartialEq, Eq, Structural)]
pub struct SaleReceipt {
    pub listing_id: ListingId,
    pub buyer: AccountId,
    pub price: u64,
    pub platform_fee: u64,
    pub seller_amount: u64,
}

/// The refund an accepted bid paid back to the bidder it displaced.
#[derive(Clone, Copy, Debug, PartialEq, Eq, Structural)]
pub struct Refund {
    pub bidder: AccountId,
    pub amount: u64,
}

/// What an accepted bid escrowed and whom it refunded.
#[derive(Clone, Copy, Debug)]
pub struct BidReceipt {
    pub listing_id: ListingId,
    pub bidder: AccountId,
    pub amount: u64,
    pub bid_count: u64,
    pub refunded: Option<Refund>,
}

/// How a settlement ended: a sale to the winning bidder, or expiry with the
/// asset returned to the seller.
#[derive(Clone, Copy, Debug, PartialEq, Eq, Structural)]
pub enum SettlementReceipt {
    Sold { winner: AccountId, price: u64, platform_fee: u64 },
    Expired,
}

} // verus!
