//! The pricing policy: a fixed price per share, the same for buying and selling.

use vstd::prelude::*;

verus! {

/// How many units of the smallest payment denomination make one whole token.
pub const YOCTO_MULTIPLIER: u128 = 1_000_000_000_000_000_000_000_000;

/// The price of `num_shares` shares at `price_per_share` whole tokens each,
/// in the smallest payment denomination.
pub open spec fn cost_of(num_shares: nat, price_per_share: nat) -> nat {
    num_shares * price_per_share * YOCTO_MULTIPLIER as nat
}

/// The amount paid out for `num_shares` shares: the price they were bought at.
pub open spec fn proceeds_of(num_shares: nat, price_per_share: nat) -> nat {
    cost_of(num_shares, price_per_share)
}

/// Whether an amount fits the payment type.
pub open spec fn payable(amount: nat) -> bool {
    amount <= u128::MAX
}

/// The payment for `num_shares` shares as a value of the payment type, where
/// it fits.
pub open spec fn payment_for(num_shares: nat, price_per_share: nat) -> Option<u128> {
    if payable(cost_of(num_shares, price_per_share)) {
        Some(cost_of(num_shares, price_per_share) as u128)
    } else {
        None
    }
}

/// The price of a purchase, or `None` where it does not fit the payment type.
pub fn cost(num_shares: u32, price_per_share: u32) -> (payment: Option<u128>)
    ensures
        payment == payment_for(num_shares as nat, price_per_share as nat),
{
    assert(num_shares * price_per_share <= 0xffff_ffff * 0xffff_ffff) by (nonlinear_arith)
        requires
            num_shares <= 0xffff_ffff,
            price_per_share <= 0xffff_ffff,
    ;
    let whole_tokens: u128 = (num_shares as u128) * (price_per_share as u128);
    whole_tokens.checked_mul(YOCTO_MULTIPLIER)
}

/// The payout of a sale, or `None` where it does not fit the payment type.
/// Shares are sold at the price they are bought at.
pub fn proceeds(num_shares: u32, price_per_share: u32) -> (payment: Option<u128>)
    ensures
        payment == payment_for(num_shares as nat, price_per_share as nat),
{
    cost(num_shares, price_per_share)
}

} // verus!
