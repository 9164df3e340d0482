//! The fee calculator: the platform fee and the seller's share of a sale.

use vstd::prelude::*;
use vstd::arithmetic::div_mod::{lemma_div_is_ordered, lemma_div_multiples_vanish};
use vstd::arithmetic::mul::lemma_mul_inequality;

verus! {

/// Fee rates are expressed in basis points; 10000 basis points are 100%.
pub const BPS_DENOMINATOR: u64 = 10000;

/// The largest fee rate the marketplace ever accepts: 1000 basis points (10%).
pub const MAX_FEE_BPS: u16 = 1000;

/// The platform fee on a sale: the price times the fee rate in basis points,
/// rounded down.
pub open spec fn platform_fee_of(price: u64, fee_bps: u16) -> int {
    (price * fee_bps) / (BPS_DENOMINATOR as int)
}

/// The seller's share of a sale: the price less the platform fee.
pub open spec fn seller_amount_of(price: u64, fee_bps: u16) -> int {
    price - platform_fee_of(price, fee_bps)
}

/// For every fee rate up to the maximum, the fee is between zero and the
/// price, so both the fee and the seller's share fit in a `u64`.
pub proof fn lemma_fee_bounds(price: u64, fee_bps: u16)
    requires
        fee_bps <= MAX_FEE_BPS,
    ensures
        0 <= platform_fee_of(price, fee_bps) <= price,
{
    let p = price as int;
    let f = fee_bps as int;
    lemma_mul_inequality(0, p, f);
    lemma_div_is_ordered(0, p * f, 10000);
    lemma_mul_inequality(f, 10000, p);
    vstd::arithmetic::mul::lemma_mul_is_commutative(f, p);
    vstd::arithmetic::mul::lemma_mul_is_commutative(10000, p);
    lemma_div_is_ordered(p * f, p * 10000, 10000);
    lemma_div_multiples_vanish(p, 10000);
    vstd::arithmetic::mul::lemma_mul_is_commutative(p, 10000);
}

/// The split of a price is exact: the platform fee is the price times the
/// rate, rounded down, and the seller's share and the fee add back up to the
/// price, with no unit lost or created.
pub proof fn lemma_fee_split(price: u64, fee_bps: u16)
    requires
        fee_bps <= MAX_FEE_BPS,
    ensures
        platform_fee_of(price, fee_bps) == (price * fee_bps) / 10000,
        seller_amount_of(price, fee_bps) + platform_fee_of(price, fee_bps) == price,
        0 <= platform_fee_of(price, fee_bps) <= price,
        0 <= seller_amount_of(price, fee_bps) <= price,
{
    lemma_fee_bounds(price, fee_bps);
}

/// Computes the platform fee exactly, widening to `u128` so the product
/// cannot overflow.
pub fn compute_platform_fee(price: u64, fee_bps: u16) -> (fee: u64)
    requires
        fee_bps <= MAX_FEE_BPS,
    ensures
        fee == platform_fee_of(price, fee_bps),
        fee <= price,
{
    proof {
        lemma_fee_bounds(price, fee_bps);
    }
    (((price as u128) * (fee_bps as u128)) / (BPS_DENOMINATOR as u128)) as u64
}

} // verus!
