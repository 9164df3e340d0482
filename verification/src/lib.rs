//! Verified core of a decentralized asset marketplace.
//!
//! Sellers list a uniquely-owned digital asset for fixed-price sale or for a
//! timed auction; buyers purchase or bid with a fungible payment asset; the
//! platform retains a bounded percentage fee. The library models the custody
//! ledger explicitly: every listing and auction owns escrow accounts that only
//! the marketplace's own settlement logic may move funds or assets out of, and
//! every operation either applies all of its transfers and state changes or
//! none of them.

pub mod addressing;
pub mod errors;
pub mod events;
pub mod fees;
pub mod laws;
pub mod ledger;
pub mod market;
pub mod records;
