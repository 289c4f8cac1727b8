//! The fee on a price, and the base unit in which prices are kept.

use vstd::prelude::*;

verus! {

/// Base units (yoctoNEAR) in one NEAR. A listed price is stored multiplied by it.
pub const YOCTO_NEAR: u128 = 1_000_000_000_000_000_000_000_000;

/// The fee percentage of a freshly initialised engine.
pub const DEFAULT_TRANSACTION_FEE: u128 = 2;

/// The fee owed on `price` at `fee_percent`: the price is divided by one
/// hundred first, the remainder is dropped, and the quotient is multiplied by
/// the percentage.
pub open spec fn fee_for(price: nat, fee_percent: nat) -> nat {
    (price / 100) * fee_percent
}

/// What has to be deposited for `price` at `fee_percent`: the price and its fee.
pub open spec fn total_due(price: nat, fee_percent: nat) -> nat {
    price + fee_for(price, fee_percent)
}

/// Dividing first never asks for more than multiplying first would, and it
/// asks for nothing on a price below one hundred.
pub proof fn law_fee_rounds_down_first(price: nat, fee_percent: nat)
    ensures
        fee_for(price, fee_percent) <= (price * fee_percent) / 100,
        price < 100 ==> fee_for(price, fee_percent) == 0,
        total_due(price, fee_percent) >= price,
{
    assert((price / 100) * fee_percent <= (price * fee_percent) / 100) by (nonlinear_arith);
    assert(price < 100 ==> (price / 100) * fee_percent == 0) by (nonlinear_arith);
}

/// Computes `fee_for`, or `None` where the fee exceeds `u128::MAX`.
pub fn checked_fee(price: u128, fee_percent: u128) -> (fee: Option<u128>)
    ensures
        fee == if fee_for(price as nat, fee_percent as nat) <= u128::MAX {
            Some(fee_for(price as nat, fee_percent as nat) as u128)
        } else {
            None
        },
{
    (price / 100).checked_mul(fee_percent)
}

/// Computes `total_due`, or `None` where the sum exceeds `u128::MAX`.
pub fn checked_total_due(price: u128, fee_percent: u128) -> (total: Option<u128>)
    ensures
        total == if total_due(price as nat, fee_percent as nat) <= u128::MAX {
            Some(total_due(price as nat, fee_percent as nat) as u128)
        } else {
            None
        },
{
    match checked_fee(price, fee_percent) {
        Some(fee) => price.checked_add(fee),
        None => None,
    }
}

} // verus!
