use soundchain_marketplace::addressing::{
    auction_address, listing_address, marketplace_address, resource_address, AUCTION_TAG,
    LISTING_TAG, MARKET_NAMESPACE,
};
use soundchain_marketplace::fees::compute_platform_fee;

#[test]
fn platform_fee_rounds_down_and_splits_exactly() {
    assert_eq!(compute_platform_fee(10_000, 250), 250);
    assert_eq!(compute_platform_fee(9_999, 250), 249);
    assert_eq!(compute_platform_fee(1_000, 1_000), 100);
    assert_eq!(compute_platform_fee(1, 999), 0);
    assert_eq!(compute_platform_fee(0, 1_000), 0);
    assert_eq!(compute_platform_fee(u64::MAX, 1_000), u64::MAX / 10);
    for price in [0u64, 1, 99, 10_000, 123_457, u64::MAX] {
        for bps in [0u16, 1, 50, 250, 999, 1_000] {
            let fee = compute_platform_fee(price, bps);
            let seller = price - fee;
            assert_eq!(seller + fee, price);
            assert!(fee <= price);
        }
    }
}

#[test]
fn addresses_are_deterministic() {
    assert_eq!(listing_address(5), listing_address(5));
    assert_eq!(auction_address(5), auction_address(5));
    assert_eq!(marketplace_address(), marketplace_address());
    assert_eq!(
        listing_address(5),
        resource_address(MARKET_NAMESPACE, LISTING_TAG, 5)
    );
}

#[test]
fn addresses_separate_resource_kinds() {
    // distinct kind tags land on distinct addresses for these identifiers
    assert_ne!(listing_address(5), auction_address(5));
    assert_ne!(listing_address(0), marketplace_address());
    assert_ne!(listing_address(1), listing_address(2));
    assert_ne!(
        resource_address(MARKET_NAMESPACE, LISTING_TAG, 9),
        resource_address(MARKET_NAMESPACE, AUCTION_TAG, 9)
    );
}
