//! Odds: what a winning bet pays, and which outcomes win.

use crate::error::ContractError;
use vstd::prelude::*;

verus! {

/// The payout multiplier, in ten-thousandths: the fee-reduced scale divided
/// by the odds divisor, both with truncating integer division.
pub open spec fn multiplier(chosen: nat, fee: nat) -> int {
    (1_000_000 - fee) / (99 - chosen * 5 / 3)
}

/// Whether the payout of a bet is defined and fits in 128 bits.
pub open spec fn payout_fits(chosen: nat, stake: nat, fee: nat) -> bool {
    &&& fee <= 1_000_000
    &&& chosen * 5 / 3 < 99
    &&& stake * multiplier(chosen, fee) <= u128::MAX
}

/// The payout of a winning bet of `stake` on `chosen`; the same in both
/// directions.
pub open spec fn payout_of(chosen: nat, stake: nat, fee: nat) -> nat {
    (stake * multiplier(chosen, fee) / 10_000) as nat
}

/// Whether `outcome` wins a bet on `chosen`: above it for "over", below it
/// for "under".
pub open spec fn wins(over: bool, chosen: nat, outcome: nat) -> bool {
    if over {
        outcome > chosen
    } else {
        outcome < chosen
    }
}

/// The payout of a winning bet; fails when the fee exceeds the scale, the
/// chosen number leaves no odds, or the payout leaves 128 bits.
pub fn calc_payout(prediction_number: u8, position: bool, bet_amount: u128, house_fee: u64) -> (r:
    Result<u128, ContractError>)
    ensures
        payout_fits(prediction_number as nat, bet_amount as nat, house_fee as nat) ==> r == Ok::<
            u128,
            ContractError,
        >(payout_of(prediction_number as nat, bet_amount as nat, house_fee as nat) as u128),
        !payout_fits(prediction_number as nat, bet_amount as nat, house_fee as nat) ==> r == Err::<
            u128,
            ContractError,
        >(ContractError::Overflow),
{
    if house_fee as u128 > 1_000_000 {
        return Err(ContractError::Overflow);
    }
    let scaled = prediction_number as u128 * 5 / 3;
    if scaled >= 99 {
        return Err(ContractError::Overflow);
    }
    let multiplier = (1_000_000 - house_fee as u128) / (99 - scaled);
    match bet_amount.checked_mul(multiplier) {
        Some(p) => {
            assert(p / 10_000 >= 0);
            Ok(p / 10_000)
        },
        None => Err(ContractError::Overflow),
    }
}

} // verus!
