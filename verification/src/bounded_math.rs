use crate::error::AggregatorError;
use vstd::prelude::*;

verus! {

/// `base + value`, unless the sum exceeds `limit`.
pub open spec fn spec_addition(base: u128, value: u128, limit: u128) -> Result<
    u128,
    AggregatorError,
> {
    if base + value <= limit {
        Ok((base + value) as u128)
    } else {
        Err(AggregatorError::Overflow)
    }
}

/// `base - value`, unless the difference is negative.
pub open spec fn spec_subtraction(base: u128, value: u128) -> Result<u128, AggregatorError> {
    if value <= base {
        Ok((base - value) as u128)
    } else {
        Err(AggregatorError::Underflow)
    }
}

/// The larger of two magnitudes.
pub open spec fn larger(a: u128, b: u128) -> u128 {
    if a >= b {
        a
    } else {
        b
    }
}

/// Adds `value` to `base` and fails with `Overflow` when the sum is above
/// `limit`. No intermediate value leaves the range of `u128`.
pub fn addition(base: u128, value: u128, limit: u128) -> (sum: Result<u128, AggregatorError>)
    ensures
        sum == spec_addition(base, value, limit),
        sum is Ok <==> base + value <= limit,
        sum is Ok ==> sum.unwrap() == base + value,
        sum is Err ==> sum == Err::<u128, AggregatorError>(AggregatorError::Overflow),
{
    if limit < base || value > limit - base {
        Err(AggregatorError::Overflow)
    } else {
        Ok(base + value)
    }
}

/// Subtracts `value` from `base` and fails with `Underflow` when `value` is
/// the larger of the two.
pub fn subtraction(base: u128, value: u128) -> (difference: Result<u128, AggregatorError>)
    ensures
        difference == spec_subtraction(base, value),
        difference is Ok <==> value <= base,
        difference is Ok ==> difference.unwrap() == base - value,
        difference is Err ==> difference == Err::<u128, AggregatorError>(
            AggregatorError::Underflow,
        ),
{
    if value > base {
        Err(AggregatorError::Underflow)
    } else {
        Ok(base - value)
    }
}

} // verus!
