//! The append-only event log: what each committed operation announces.

use vstd::prelude::*;
use crate::ledger::{AccountId, AssetId};
use crate::records::{ListingId, ListingType};

verus! {

/// A listing or auction was created and its asset moved into escrow.
#[derive(Clone, Copy, Debug, PartialEq, Eq, Structural)]
pub struct ListingCreated {
    pub listing_id: ListingId,
    pub seller: AccountId,
    pub asset_id: AssetId,
    pub price: u64,
    pub listing_type: ListingType,
    pub timestamp: i64,
}

/// A fixed-price purchase or a successful auction settlement committed.
#[derive(Clone, Copy, Debug, PartialEq, Eq, Structural)]
pub struct ListingSold {
    pub listing_id: ListingId,
    pub seller: AccountId,
    pub buyer: AccountId,
    pub asset_id: AssetId,
    pub price: u64,
    pub platform_fee: u64,
    pub timestamp: i64,
}

/// A bid was accepted and escrowed.
#[derive(Clone, Copy, Debug, PartialEq, Eq, Structural)]
pub struct BidPlaced {
    pub listing_id: ListingId,
    pub bidder: AccountId,
    pub amount: u64,
    pub bid_count: u64,
    pub timestamp: i64,
}

/// A listing was cancelled and its asset returned to the seller.
#[derive(Clone, Copy, Debug, PartialEq, Eq, Structural)]
pub struct ListingCancelled {
    pub listing_id: ListingId,
    pub seller: AccountId,
    pub asset_id: AssetId,
    pub timestamp: i64,
}

/// One entry of the event log.
#[derive(Clone, Copy, Debug, PartialEq, Eq, Structural)]
pub enum MarketEvent {
    Created(ListingCreated),
    Sold(ListingSold),
    Bid(BidPlaced),
    Cancelled(ListingCancelled),
}

} // verus!
