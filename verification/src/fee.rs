//! Fee rates and fees. A fee rate is in satoshis per thousand weight units.

use vstd::prelude::*;

use crate::error::SwapError;

verus! {

/// The fee of `weight` units at `rate`, rounded up.
pub open spec fn fee_at(rate: int, weight: int) -> int {
    (rate * weight + 999) / 1000
}

/// The fee rate that a number of satoshis per virtual byte is.
pub fn fee_rate_from_sat_vb(fee_rate: u64) -> (rate: Result<u64, SwapError>)
    ensures
        match rate {
            Ok(found) => 0 < fee_rate <= u32::MAX && found == 250 * fee_rate,
            Err(error) => {
                ||| fee_rate == 0 && error == SwapError::FeeRateZero
                ||| fee_rate > u32::MAX && error == SwapError::FeeRateTooLarge
            },
        },
{
    if fee_rate == 0 {
        return Err(SwapError::FeeRateZero);
    }
    if fee_rate > 0xffff_ffff {
        return Err(SwapError::FeeRateTooLarge);
    }
    Ok(fee_rate * 250)
}

/// The fee of `weight` units at `rate`, rounded up, where the computation stays within 64 bits.
pub fn checked_fee(rate: u64, weight: u64) -> (fee: Option<u64>)
    ensures
        match fee {
            Some(found) => found == fee_at(rate as int, weight as int) && rate * weight + 999 <= u64::MAX,
            None => rate * weight + 999 > u64::MAX,
        },
{
    assert(0 <= rate * weight <= 0xffff_ffff_ffff_ffff * 0xffff_ffff_ffff_ffff) by (nonlinear_arith)
        requires
            0 <= rate <= 0xffff_ffff_ffff_ffff,
            0 <= weight <= 0xffff_ffff_ffff_ffff,
    ;
    let wide: u128 = rate as u128 * weight as u128;
    if wide + 999 > 0xffff_ffff_ffff_ffff {
        None
    } else {
        Some(((wide + 999) / 1000) as u64)
    }
}

/// A higher rate never gives a lower fee.
pub proof fn law_fee_grows_with_rate(low: int, high: int, weight: int)
    requires
        0 <= low <= high,
        0 <= weight,
    ensures
        fee_at(low, weight) <= fee_at(high, weight),
{
    assert(low * weight <= high * weight) by (nonlinear_arith)
        requires
            0 <= low <= high,
            0 <= weight,
    ;
}

/// A rate that is higher by at least a thousand satoshis over the whole weight gives a higher fee.
pub proof fn law_fee_grows_strictly(low: int, high: int, weight: int)
    requires
        (high - low) * weight >= 1000,
    ensures
        fee_at(low, weight) < fee_at(high, weight),
{
    assert(high * weight - low * weight == (high - low) * weight) by (nonlinear_arith);
}

/// The fee of a rate in satoshis per thousand weight units is the least whole number of satoshis that
/// pays the rate.
pub proof fn law_fee_is_the_least_that_pays(rate: int, weight: int)
    ensures
        1000 * fee_at(rate, weight) >= rate * weight,
        1000 * (fee_at(rate, weight) - 1) < rate * weight,
{
}

} // verus!
