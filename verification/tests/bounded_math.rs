use aptos_aggregator::{addition, subtraction, AggregatorError};

#[test]
fn addition_within_the_limit() {
    assert_eq!(addition(150, 50, 500), Ok(200));
    assert_eq!(addition(0, 0, 0), Ok(0));
    assert_eq!(addition(100, 100, 200), Ok(200));
    assert_eq!(addition(0, 7, 7), Ok(7));
}

#[test]
fn addition_above_the_limit() {
    assert_eq!(addition(100, 101, 200), Err(AggregatorError::Overflow));
    assert_eq!(addition(300, 400, 600), Err(AggregatorError::Overflow));
    assert_eq!(addition(0, 1, 0), Err(AggregatorError::Overflow));
}

#[test]
fn addition_with_a_base_above_the_limit() {
    assert_eq!(addition(201, 0, 200), Err(AggregatorError::Overflow));
    assert_eq!(addition(u128::MAX, 0, 5), Err(AggregatorError::Overflow));
}

#[test]
fn addition_does_not_wrap() {
    assert_eq!(addition(u128::MAX, 1, u128::MAX), Err(AggregatorError::Overflow));
    assert_eq!(
        addition(u128::MAX, u128::MAX, u128::MAX),
        Err(AggregatorError::Overflow)
    );
    assert_eq!(addition(u128::MAX - 1, 1, u128::MAX), Ok(u128::MAX));
    assert_eq!(addition(1, u128::MAX, 10), Err(AggregatorError::Overflow));
}

#[test]
fn subtraction_down_to_zero() {
    assert_eq!(subtraction(300, 100), Ok(200));
    assert_eq!(subtraction(100, 100), Ok(0));
    assert_eq!(subtraction(0, 0), Ok(0));
    assert_eq!(subtraction(u128::MAX, u128::MAX), Ok(0));
    assert_eq!(subtraction(u128::MAX, 0), Ok(u128::MAX));
}

#[test]
fn subtraction_below_zero() {
    assert_eq!(subtraction(300, 400), Err(AggregatorError::Underflow));
    assert_eq!(subtraction(0, 1), Err(AggregatorError::Underflow));
    assert_eq!(subtraction(0, u128::MAX), Err(AggregatorError::Underflow));
}

#[test]
fn the_errors_are_told_apart() {
    assert_ne!(AggregatorError::Overflow, AggregatorError::Underflow);
    assert_ne!(AggregatorError::Overflow, AggregatorError::ResolutionFailed);
    assert_ne!(AggregatorError::Underflow, AggregatorError::ResolutionFailed);
}

#[test]
fn each_error_has_its_message() {
    assert_eq!(
        AggregatorError::Overflow.message(),
        "aggregator overflowed its limit"
    );
    assert_eq!(
        AggregatorError::Underflow.message(),
        "aggregator dropped below zero"
    );
    assert_eq!(
        AggregatorError::ResolutionFailed.message(),
        "could not find the value of the aggregator"
    );
}
