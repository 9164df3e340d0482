//! The one error kind an aborted operation reports to its caller.

use vstd::prelude::*;

verus! {

/// Why an operation aborted. Every error is detected before any state
/// mutation: the whole operation aborts and the world is unchanged.
///
/// The last four variants surface refusals of the custody ledger and of the
/// admin gate: a supposed holder that does not hold the asset, a payer short
/// of funds, a receiving balance that would exceed its capacity, and a caller
/// that is not the configured authority.
#[derive(Clone, Copy, Debug, PartialEq, Eq, Structural)]
pub enum ErrorCode {
    MarketplacePaused,
    ListingNotActive,
    ListingExpired,
    NotFixedPrice,
    NotAuction,
    AuctionNotEnded,
    BidTooLow,
    InsufficientBidIncrease,
    NotSeller,
    HasActiveBid,
    DurationTooShort,
    DurationTooLong,
    FeeTooHigh,
    AssetNotHeld,
    InsufficientFunds,
    BalanceOverflow,
    NotAuthorized,
}

} // verus!
