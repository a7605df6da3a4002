//! The split of a price between the platform and the party that is paid.

use vstd::prelude::*;

verus! {

/// Basis points in a whole.
pub const BPS_DENOMINATOR: u128 = 10_000;

/// The platform's share of `price` at a rate of `bps` basis points, rounded
/// down.
pub open spec fn platform_fee_of(price: int, bps: int) -> int {
    (price * bps) / 10_000
}

/// What is left of `price` once the platform's share is taken.
pub open spec fn seller_amount_of(price: int, bps: int) -> int {
    price - platform_fee_of(price, bps)
}

/// A price divided in two.
#[derive(Clone, Copy, Debug, PartialEq, Eq, Hash, Structural)]
pub struct FeeSplit {
    pub platform_fee: u64,
    pub seller_amount: u64,
}

/// The fee never exceeds the price while the rate is at most the whole, so
/// both shares are amounts that a transfer can carry.
pub proof fn lemma_fee_within_price(price: int, bps: int)
    requires
        0 <= price,
        0 <= bps <= 10_000,
    ensures
        0 <= platform_fee_of(price, bps) <= price,
        0 <= seller_amount_of(price, bps) <= price,
{
    assert(0 <= price * bps <= price * 10_000) by (nonlinear_arith)
        requires
            0 <= price,
            0 <= bps <= 10_000,
    ;
    assert(0 <= (price * bps) / 10_000 <= price) by (nonlinear_arith)
        requires
            0 <= price * bps <= price * 10_000,
    ;
}

/// Divides `price` at a rate of `platform_fee_bps` basis points.
///
/// The product is formed in 128 bits, where it cannot overflow. There is no
/// split when the fee would exceed the price, which a rate of at most 10000
/// never causes.
pub fn split_fee(price: u64, platform_fee_bps: u16) -> (split: Option<FeeSplit>)
    ensures
        split is Some <==> platform_fee_of(price as int, platform_fee_bps as int) <= price,
        platform_fee_bps <= 10_000 ==> split is Some,
        split matches Some(s) ==> {
            &&& s.platform_fee == platform_fee_of(price as int, platform_fee_bps as int)
            &&& s.seller_amount == seller_amount_of(price as int, platform_fee_bps as int)
            &&& s.platform_fee + s.seller_amount == price
        },
{
    proof {
        assert(0 <= price * platform_fee_bps <= 0xffff_ffff_ffff_ffff * 0xffff)
            by (nonlinear_arith)
            requires
                0 <= price <= 0xffff_ffff_ffff_ffff,
                0 <= platform_fee_bps <= 0xffff,
        ;
        if platform_fee_bps <= 10_000 {
            lemma_fee_within_price(price as int, platform_fee_bps as int);
        }
    }
    let product: u128 = (price as u128) * (platform_fee_bps as u128);
    let fee: u128 = product / BPS_DENOMINATOR;
    if fee > price as u128 {
        None
    } else {
        let platform_fee: u64 = fee as u64;
        Some(FeeSplit { platform_fee, seller_amount: price - platform_fee })
    }
}

} // verus!
