//! Deterministic resource addressing: a pure combine over a namespace, a
//! resource-kind tag and an identifier. Addresses serve lookup alone — any
//! caller can locate the marketplace singleton, a listing or its auction
//! without an index — and carry no cryptographic authority.

use vstd::prelude::*;

verus! {

/// The marketplace's fixed namespace key.
pub const MARKET_NAMESPACE: u64 = 0x536f756e644d6b74;

/// The tag under which the marketplace singleton is addressed.
pub const MARKET_TAG: u64 = 0;

/// The tag under which listing resources are addressed, keyed by asset.
pub const LISTING_TAG: u64 = 1;

/// The tag under which auction resources are addressed, keyed by listing.
pub const AUCTION_TAG: u64 = 2;

/// The multiplier of the folding step.
pub const FOLD_PRIME: u64 = 0x100000001b3;

/// The starting value of the fold.
pub const FOLD_OFFSET: u64 = 0xcbf29ce484222325;

/// One folding step: mix `x` into the running address.
pub open spec fn spec_combine(acc: u64, x: u64) -> u64 {
    (((acc ^ x) as u128) * (FOLD_PRIME as u128)) as u64
}

/// The address of a resource: the namespace, the kind tag and the identifier
/// folded in order. A pure function of its inputs: equal inputs give equal
/// addresses everywhere.
pub open spec fn spec_resource_address(namespace: u64, tag: u64, id: u64) -> u64 {
    spec_combine(spec_combine(spec_combine(FOLD_OFFSET, namespace), tag), id)
}

fn combine(acc: u64, x: u64) -> (r: u64)
    ensures
        r == spec_combine(acc, x),
{
    let mixed: u128 = (acc ^ x) as u128;
    proof {
        assert(mixed * (FOLD_PRIME as u128) < 0x100000000000000000000000000000000) by (nonlinear_arith)
            requires
                mixed < 0x10000000000000000,
        ;
    }
    #[verifier::truncate]
    ((mixed * (FOLD_PRIME as u128)) as u64)
}

/// Computes the address of a resource from the namespace, its kind tag and
/// its identifier.
pub fn resource_address(namespace: u64, tag: u64, id: u64) -> (r: u64)
    ensures
        r == spec_resource_address(namespace, tag, id),
{
    combine(combine(combine(FOLD_OFFSET, namespace), tag), id)
}

/// Where the marketplace singleton is addressed.
pub fn marketplace_address() -> (r: u64)
    ensures
        r == spec_resource_address(MARKET_NAMESPACE, MARKET_TAG, 0),
{
    resource_address(MARKET_NAMESPACE, MARKET_TAG, 0)
}

/// Where the listing of an asset is addressed.
pub fn listing_address(asset_id: u64) -> (r: u64)
    ensures
        r == spec_resource_address(MARKET_NAMESPACE, LISTING_TAG, asset_id),
{
    resource_address(MARKET_NAMESPACE, LISTING_TAG, asset_id)
}

/// Where the auction bound to a listing is addressed.
pub fn auction_address(listing_id: u64) -> (r: u64)
    ensures
        r == spec_resource_address(MARKET_NAMESPACE, AUCTION_TAG, listing_id),
{
    resource_address(MARKET_NAMESPACE, AUCTION_TAG, listing_id)
}

} // verus!
