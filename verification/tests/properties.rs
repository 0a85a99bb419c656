use aptos_aggregator::{
    Aggregator, AggregatorError, AggregatorHandle, AggregatorID, AggregatorResolver,
    AggregatorState, History, ResolveFailure, TableHandle,
};
use std::cell::Cell;

/// A resolver that gives the same value for every identifier and counts its
/// lookups.
struct Fixed {
    value: Option<u128>,
    lookups: Cell<u32>,
}

impl Fixed {
    fn new(value: Option<u128>) -> Self {
        Fixed { value, lookups: Cell::new(0) }
    }
}

impl AggregatorResolver for Fixed {
    fn resolve_aggregator_value(&self, _id: &AggregatorID) -> Result<u128, ResolveFailure> {
        self.lookups.set(self.lookups.get() + 1);
        self.value.ok_or(ResolveFailure)
    }
}

fn some_id() -> AggregatorID {
    AggregatorID::legacy(TableHandle(1), AggregatorHandle(2, 3))
}

/// Applies signed amounts in turn: a positive one is added, a negative one
/// subtracted.
fn apply(aggregator: &mut Aggregator, deltas: &[i128]) -> Result<(), AggregatorError> {
    for delta in deltas {
        if *delta >= 0 {
            aggregator.add(*delta as u128)?;
        } else {
            aggregator.sub(delta.unsigned_abs())?;
        }
    }
    Ok(())
}

fn parts(aggregator: &Aggregator) -> (u128, AggregatorState, u128, Option<History>) {
    (
        aggregator.value(),
        aggregator.state(),
        aggregator.limit(),
        aggregator.history(),
    )
}

#[test]
fn value_stays_within_the_limit_after_each_success() {
    let mut aggregator = Aggregator::fresh_delta(600);
    for delta in [200i128, -300, 50, 300, -25, 375, -600, -600, 1200] {
        let before = parts(&aggregator);
        match apply(&mut aggregator, &[delta]) {
            Ok(()) => assert!(aggregator.value() <= aggregator.limit()),
            Err(_) => assert_eq!(parts(&aggregator), before),
        }
    }
    let mut known = Aggregator::zero(10);
    for delta in [4i128, 7, 6, -11, -10, 10, 1] {
        let _ = apply(&mut known, &[delta]);
        assert!(known.value() <= 10);
        assert_eq!(known.state(), AggregatorState::Data);
    }
}

#[test]
fn turning_positive_is_not_held_to_the_limit() {
    let mut aggregator = Aggregator::fresh_delta(10);
    assert_eq!(aggregator.sub(5), Ok(()));
    assert_eq!(aggregator.add(100), Ok(()));
    assert_eq!(aggregator.state(), AggregatorState::PositiveDelta);
    assert_eq!(aggregator.value(), 95);
    assert_eq!(
        aggregator.history(),
        Some(History { max_positive: 95, min_negative: 5 })
    );
    // No stored value can take that excursion.
    assert_eq!(
        aggregator.read_and_materialize(&Fixed::new(Some(5)), &some_id()),
        Err(AggregatorError::Overflow)
    );
    // A delta above the limit that shrinks may stay above it.
    assert_eq!(aggregator.sub(1), Ok(()));
    assert_eq!(aggregator.value(), 94);
    assert_eq!(aggregator.add(0), Err(AggregatorError::Overflow));
}

#[test]
fn history_is_kept_exactly_while_the_state_is_a_delta() {
    let mut aggregator = Aggregator::fresh_delta(100);
    assert!(aggregator.history().is_some());
    for delta in [30i128, -50, 10, 60, -200] {
        let _ = apply(&mut aggregator, &[delta]);
        assert_ne!(aggregator.state(), AggregatorState::Data);
        assert!(aggregator.history().is_some());
    }
    assert_eq!(
        aggregator.read_and_materialize(&Fixed::new(Some(40)), &some_id()),
        Ok(90)
    );
    assert_eq!(aggregator.state(), AggregatorState::Data);
    assert_eq!(aggregator.history(), None);
    for delta in [5i128, -95, -1, 200] {
        let _ = apply(&mut aggregator, &[delta]);
        assert_eq!(aggregator.state(), AggregatorState::Data);
        assert_eq!(aggregator.history(), None);
    }
    assert_eq!(aggregator.value(), 0);
}

#[test]
fn materialization_does_not_depend_on_the_order() {
    let orders: [[i128; 3]; 6] = [
        [200, -300, 50],
        [200, 50, -300],
        [-300, 200, 50],
        [-300, 50, 200],
        [50, 200, -300],
        [50, -300, 200],
    ];
    for order in orders {
        let mut aggregator = Aggregator::fresh_delta(600);
        assert_eq!(apply(&mut aggregator, &order), Ok(()));
        assert_eq!(
            aggregator.read_and_materialize(&Fixed::new(Some(300)), &some_id()),
            Ok(250)
        );
        assert_eq!(
            aggregator.into(),
            (250, AggregatorState::Data, 600, None)
        );
    }
}

#[test]
fn an_order_that_leaves_the_bounds_fails_where_another_succeeds() {
    let mut inside = Aggregator::fresh_delta(600);
    assert_eq!(apply(&mut inside, &[-200, 400]), Ok(()));
    assert_eq!(
        inside.read_and_materialize(&Fixed::new(Some(300)), &some_id()),
        Ok(500)
    );
    let mut outside = Aggregator::fresh_delta(600);
    assert_eq!(apply(&mut outside, &[400, -200]), Ok(()));
    assert_eq!(
        outside.read_and_materialize(&Fixed::new(Some(300)), &some_id()),
        Err(AggregatorError::Overflow)
    );
}

#[test]
fn history_is_the_envelope_of_the_running_sum() {
    let deltas = [200i128, -300, 50, 300, -25, 375, -600, -40, 15];
    let mut aggregator = Aggregator::fresh_delta(600);
    let mut sum = 0i128;
    let mut highest = 0i128;
    let mut lowest = 0i128;
    for delta in deltas {
        assert_eq!(apply(&mut aggregator, &[delta]), Ok(()));
        sum += delta;
        highest = highest.max(sum);
        lowest = lowest.min(sum);
        assert_eq!(
            aggregator.history(),
            Some(History {
                max_positive: highest as u128,
                min_negative: lowest.unsigned_abs(),
            })
        );
        assert_eq!(aggregator.value(), sum.unsigned_abs());
        let state = if sum >= 0 {
            AggregatorState::PositiveDelta
        } else {
            AggregatorState::NegativeDelta
        };
        assert_eq!(aggregator.state(), state);
    }
    assert_eq!(
        aggregator.history(),
        Some(History { max_positive: 600, min_negative: 100 })
    );
}

#[test]
fn materialization_is_idempotent() {
    let resolver = Fixed::new(Some(300));
    let mut aggregator = Aggregator::fresh_delta(600);
    assert_eq!(aggregator.sub(120), Ok(()));
    assert_eq!(aggregator.read_and_materialize(&resolver, &some_id()), Ok(180));
    assert_eq!(resolver.lookups.get(), 1);
    assert_eq!(aggregator.read_and_materialize(&resolver, &some_id()), Ok(180));
    assert_eq!(resolver.lookups.get(), 1);
    // A resolver that would fail is not asked either.
    let failing = Fixed::new(None);
    assert_eq!(aggregator.read_and_materialize(&failing, &some_id()), Ok(180));
    assert_eq!(failing.lookups.get(), 0);
    assert_eq!(aggregator.materialize(Err(ResolveFailure)), Ok(180));
    assert_eq!(aggregator.materialize(Ok(5)), Ok(180));
    assert_eq!(aggregator.into(), (180, AggregatorState::Data, 600, None));
}

#[test]
fn a_failure_changes_nothing() {
    // A positive delta that would exceed the limit.
    let mut aggregator = Aggregator::fresh_delta(600);
    assert_eq!(apply(&mut aggregator, &[-100, 500]), Ok(()));
    let before = parts(&aggregator);
    assert_eq!(aggregator.add(201), Err(AggregatorError::Overflow));
    assert_eq!(parts(&aggregator), before);
    // A subtraction that no stored value could take.
    assert_eq!(aggregator.sub(601), Err(AggregatorError::Underflow));
    assert_eq!(parts(&aggregator), before);
    // A resolver that fails.
    assert_eq!(
        aggregator.read_and_materialize(&Fixed::new(None), &some_id()),
        Err(AggregatorError::ResolutionFailed)
    );
    assert_eq!(parts(&aggregator), before);
    // A stored value that cannot take the positive excursion.
    assert_eq!(
        aggregator.read_and_materialize(&Fixed::new(Some(201)), &some_id()),
        Err(AggregatorError::Overflow)
    );
    assert_eq!(parts(&aggregator), before);
    // A stored value that cannot take the negative excursion.
    assert_eq!(
        aggregator.read_and_materialize(&Fixed::new(Some(99)), &some_id()),
        Err(AggregatorError::Underflow)
    );
    assert_eq!(parts(&aggregator), before);
    assert_eq!(
        before,
        (
            400,
            AggregatorState::PositiveDelta,
            600,
            Some(History { max_positive: 400, min_negative: 100 })
        )
    );

    // A negative delta that would exceed the limit.
    let mut negative = Aggregator::fresh_delta(600);
    assert_eq!(negative.sub(500), Ok(()));
    let before = parts(&negative);
    assert_eq!(negative.sub(101), Err(AggregatorError::Overflow));
    assert_eq!(parts(&negative), before);

    // A known value.
    let mut known = Aggregator::zero(5);
    assert_eq!(known.add(3), Ok(()));
    let before = parts(&known);
    assert_eq!(known.add(3), Err(AggregatorError::Overflow));
    assert_eq!(parts(&known), before);
    assert_eq!(known.sub(4), Err(AggregatorError::Underflow));
    assert_eq!(parts(&known), before);
    assert_eq!(before, (3, AggregatorState::Data, 5, None));
}

#[test]
fn an_aggregator_can_be_used_after_a_failure() {
    let mut aggregator = Aggregator::fresh_delta(100);
    assert_eq!(aggregator.add(101), Err(AggregatorError::Overflow));
    assert_eq!(aggregator.add(100), Ok(()));
    assert_eq!(aggregator.sub(30), Ok(()));
    assert_eq!(
        aggregator.read_and_materialize(&Fixed::new(None), &some_id()),
        Err(AggregatorError::ResolutionFailed)
    );
    assert_eq!(
        aggregator.read_and_materialize(&Fixed::new(Some(0)), &some_id()),
        Ok(70)
    );
}

#[test]
fn materialization_applies_the_delta_to_the_stored_value() {
    let mut positive = Aggregator::fresh_delta(1000);
    assert_eq!(positive.add(250), Ok(()));
    assert_eq!(positive.materialize(Ok(750)), Ok(1000));
    assert_eq!(positive.into(), (1000, AggregatorState::Data, 1000, None));

    let mut negative = Aggregator::fresh_delta(1000);
    assert_eq!(negative.sub(250), Ok(()));
    assert_eq!(negative.materialize(Ok(250)), Ok(0));
    assert_eq!(negative.into(), (0, AggregatorState::Data, 1000, None));

    let mut untouched = Aggregator::fresh_delta(1000);
    assert_eq!(untouched.materialize(Ok(1001)), Err(AggregatorError::Overflow));
    assert_eq!(untouched.materialize(Ok(1000)), Ok(1000));
}

#[test]
fn the_largest_values_do_not_wrap() {
    let mut aggregator = Aggregator::fresh_delta(u128::MAX);
    assert_eq!(aggregator.add(u128::MAX), Ok(()));
    assert_eq!(aggregator.add(1), Err(AggregatorError::Overflow));
    assert_eq!(aggregator.materialize(Ok(1)), Err(AggregatorError::Overflow));
    assert_eq!(aggregator.sub(u128::MAX), Ok(()));
    assert_eq!(aggregator.sub(u128::MAX), Ok(()));
    assert_eq!(aggregator.state(), AggregatorState::NegativeDelta);
    assert_eq!(aggregator.value(), u128::MAX);
    assert_eq!(aggregator.sub(1), Err(AggregatorError::Overflow));
    assert_eq!(aggregator.add(u128::MAX), Ok(()));
    assert_eq!(aggregator.state(), AggregatorState::PositiveDelta);
    assert_eq!(aggregator.value(), 0);
}

#[test]
fn the_history_records_through_its_own_methods() {
    let mut history = History::new();
    assert_eq!(history, History { max_positive: 0, min_negative: 0 });
    history.record_positive(7);
    history.record_positive(3);
    history.record_negative(2);
    history.record_negative(9);
    history.record_negative(4);
    assert_eq!(history, History { max_positive: 7, min_negative: 9 });
}

#[test]
fn the_constructors_give_zero() {
    assert_eq!(
        Aggregator::zero(9).into(),
        (0, AggregatorState::Data, 9, None)
    );
    assert_eq!(
        Aggregator::fresh_delta(9).into(),
        (
            0,
            AggregatorState::PositiveDelta,
            9,
            Some(History { max_positive: 0, min_negative: 0 })
        )
    );
}
