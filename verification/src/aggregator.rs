use crate::bounded_math::{addition, larger, spec_addition, spec_subtraction, subtraction};
use crate::error::AggregatorError;
use crate::identifier::AggregatorID;
use crate::resolver::{AggregatorResolver, ResolveFailure};
use vstd::prelude::*;

verus! {

/// What the value of an aggregator stands for.
#[derive(Clone, Copy, Debug, PartialEq, Eq, Structural)]
pub enum AggregatorState {
    /// The value is the value of the aggregator.
    Data,
    /// The value is to be added to a stored value that is not known yet.
    PositiveDelta,
    /// The value is to be subtracted from a stored value that is not known
    /// yet.
    NegativeDelta,
}

/// The farthest that a delta has been from zero on either side. If the
/// stored value can take both excursions without leaving `[0, limit]`, it
/// can take every delta that lay between them.
#[derive(Clone, Copy, Debug, PartialEq, Eq, Structural)]
pub struct History {
    /// The largest positive delta seen.
    pub max_positive: u128,
    /// The magnitude of the most negative delta seen.
    pub min_negative: u128,
}

impl History {
    /// A history in which nothing has been seen.
    pub fn new() -> (history: Self)
        ensures
            history == (History { max_positive: 0, min_negative: 0 }),
    {
        History { max_positive: 0, min_negative: 0 }
    }

    /// Takes note of a positive delta.
    pub fn record_positive(&mut self, value: u128)
        ensures
            final(self).max_positive == larger(old(self).max_positive, value),
            final(self).min_negative == old(self).min_negative,
    {
        if value > self.max_positive {
            self.max_positive = value;
        }
    }

    /// Takes note of the magnitude of a negative delta.
    pub fn record_negative(&mut self, value: u128)
        ensures
            final(self).min_negative == larger(old(self).min_negative, value),
            final(self).max_positive == old(self).max_positive,
    {
        if value > self.min_negative {
            self.min_negative = value;
        }
    }
}

/// What an aggregator holds, as a plain value.
pub struct AggregatorView {
    /// A magnitude, which `state` gives its meaning.
    pub value: u128,
    pub state: AggregatorState,
    /// The largest value that the aggregator may take. The smallest is zero.
    pub limit: u128,
    /// Kept while the aggregator is a delta.
    pub history: Option<History>,
}

impl AggregatorView {
    /// An aggregator that knows its value to be zero.
    pub open spec fn zero(limit: u128) -> AggregatorView {
        AggregatorView { value: 0, state: AggregatorState::Data, limit, history: None }
    }

    /// A delta of zero that has not seen anything.
    pub open spec fn fresh_delta(limit: u128) -> AggregatorView {
        AggregatorView {
            value: 0,
            state: AggregatorState::PositiveDelta,
            limit,
            history: Some(History { max_positive: 0, min_negative: 0 }),
        }
    }

    /// The excursions seen so far; none where no history is kept.
    pub open spec fn envelope(self) -> History {
        match self.history {
            Some(history) => history,
            None => History { max_positive: 0, min_negative: 0 },
        }
    }

    /// What every aggregator satisfies between two operations.
    ///
    /// A history is kept exactly while the state is a delta. A known value
    /// lies within the limit. A negative delta is not zero, lies within the
    /// limit and within the negative excursion, which lies within the limit
    /// too. A positive delta lies within the positive excursion.
    pub open spec fn wf(self) -> bool {
        match self.state {
            AggregatorState::Data => self.history is None && self.value <= self.limit,
            AggregatorState::PositiveDelta => {
                &&& self.history is Some
                &&& self.value <= self.envelope().max_positive
                &&& self.envelope().min_negative <= self.limit
            },
            AggregatorState::NegativeDelta => {
                &&& self.history is Some
                &&& 0 < self.value <= self.envelope().min_negative
                &&& self.envelope().min_negative <= self.limit
            },
        }
    }

    /// Whether the value and both excursions lie within the limit.
    pub open spec fn within_limit(self) -> bool {
        &&& self.value <= self.limit
        &&& self.envelope().max_positive <= self.limit
        &&& self.envelope().min_negative <= self.limit
    }

    /// The delta as a signed number; zero once the value is known.
    pub open spec fn signed_delta(self) -> int {
        match self.state {
            AggregatorState::Data => 0,
            AggregatorState::PositiveDelta => self.value as int,
            AggregatorState::NegativeDelta => -(self.value as int),
        }
    }

    /// The delta moved to `value` in `state`, with the history widened to
    /// hold it.
    pub open spec fn recorded(self, value: u128, state: AggregatorState) -> AggregatorView {
        let history = match (self.history, state) {
            (Some(seen), AggregatorState::PositiveDelta) => Some(
                History { max_positive: larger(seen.max_positive, value), ..seen },
            ),
            (Some(seen), AggregatorState::NegativeDelta) => Some(
                History { min_negative: larger(seen.min_negative, value), ..seen },
            ),
            _ => self.history,
        };
        AggregatorView { value, state, limit: self.limit, history }
    }

    /// The aggregator after `delta` has been added, or why it cannot be.
    ///
    /// A known value and a positive delta grow by `delta` and must stay
    /// within the limit. A negative delta shrinks by `delta`, and turns
    /// positive when `delta` is at least as large.
    pub open spec fn after_add(self, delta: u128) -> Result<AggregatorView, AggregatorError> {
        match self.state {
            AggregatorState::Data => match spec_addition(self.value, delta, self.limit) {
                Ok(sum) => Ok(AggregatorView { value: sum, ..self }),
                Err(error) => Err(error),
            },
            AggregatorState::PositiveDelta => match spec_addition(self.value, delta, self.limit) {
                Ok(sum) => Ok(self.recorded(sum, AggregatorState::PositiveDelta)),
                Err(error) => Err(error),
            },
            AggregatorState::NegativeDelta => if self.value <= delta {
                Ok(self.recorded((delta - self.value) as u128, AggregatorState::PositiveDelta))
            } else {
                Ok(self.recorded((self.value - delta) as u128, AggregatorState::NegativeDelta))
            },
        }
    }

    /// The aggregator after `delta` has been subtracted, or why it cannot
    /// be.
    ///
    /// A known value shrinks by `delta` and must not drop below zero. A
    /// positive delta shrinks by `delta`; when `delta` is larger it turns
    /// negative, which no stored value could take if `delta` were above the
    /// limit. A negative delta grows by `delta` and must stay within the
    /// limit.
    pub open spec fn after_sub(self, delta: u128) -> Result<AggregatorView, AggregatorError> {
        match self.state {
            AggregatorState::Data => match spec_subtraction(self.value, delta) {
                Ok(difference) => Ok(AggregatorView { value: difference, ..self }),
                Err(error) => Err(error),
            },
            AggregatorState::PositiveDelta => if self.value >= delta {
                Ok(self.recorded((self.value - delta) as u128, AggregatorState::PositiveDelta))
            } else if delta <= self.limit {
                Ok(self.recorded((delta - self.value) as u128, AggregatorState::NegativeDelta))
            } else {
                Err(AggregatorError::Underflow)
            },
            AggregatorState::NegativeDelta => match spec_addition(self.value, delta, self.limit) {
                Ok(sum) => Ok(self.recorded(sum, AggregatorState::NegativeDelta)),
                Err(error) => Err(error),
            },
        }
    }

    /// The aggregator after its delta has been applied to what the resolver
    /// gave, or why it cannot be.
    ///
    /// A known value stays as it is, whatever the resolver gave. For a
    /// delta, the stored value must take the positive excursion without
    /// exceeding the limit and the negative one without dropping below
    /// zero; then the delta itself is applied and the value is known.
    pub open spec fn after_materialize(self, resolved: Result<u128, ResolveFailure>) -> Result<
        AggregatorView,
        AggregatorError,
    > {
        if self.state is Data {
            Ok(self)
        } else {
            match resolved {
                Err(_) => Err(AggregatorError::ResolutionFailed),
                Ok(stored) => if stored + self.envelope().max_positive > self.limit {
                    Err(AggregatorError::Overflow)
                } else if stored < self.envelope().min_negative {
                    Err(AggregatorError::Underflow)
                } else {
                    let applied = if self.state is PositiveDelta {
                        spec_addition(stored, self.value, self.limit)
                    } else {
                        spec_subtraction(stored, self.value)
                    };
                    match applied {
                        Ok(value) => Ok(
                            AggregatorView {
                                value,
                                state: AggregatorState::Data,
                                limit: self.limit,
                                history: None,
                            },
                        ),
                        Err(error) => Err(error),
                    }
                },
            }
        }
    }

    /// Whether `result` and `after` are the outcome of materializing
    /// through `resolver`: some outcome that a lookup of `id` may have is
    /// applied as [`Self::after_materialize`] says.
    pub open spec fn materialized_through<R: AggregatorResolver + ?Sized, T>(
        self,
        resolver: &R,
        id: AggregatorID,
        result: Result<T, AggregatorError>,
        after: AggregatorView,
    ) -> bool {
        exists|resolved: Result<u128, ResolveFailure>|
            #[trigger] resolver.may_resolve(id, resolved) && self.settles(
                self.after_materialize(resolved),
                result,
                after,
            )
    }

    /// The outcome of an operation: on success the aggregator is `next`, on
    /// failure it is as it was.
    pub open spec fn settles<T>(
        self,
        outcome: Result<AggregatorView, AggregatorError>,
        result: Result<T, AggregatorError>,
        after: AggregatorView,
    ) -> bool {
        match outcome {
            Ok(next) => result is Ok && after == next,
            Err(error) => result == Err::<T, AggregatorError>(error) && after == self,
        }
    }
}

/// A bounded counter that is either known or a delta against a stored value
/// that has not been read.
#[derive(Debug)]
pub struct Aggregator {
    value: u128,
    state: AggregatorState,
    limit: u128,
    history: Option<History>,
}

impl View for Aggregator {
    type V = AggregatorView;

    closed spec fn view(&self) -> AggregatorView {
        AggregatorView {
            value: self.value,
            state: self.state,
            limit: self.limit,
            history: self.history,
        }
    }
}

impl Aggregator {
    #[verifier::type_invariant]
    pub(crate) open spec fn well_formed(self) -> bool {
        self@.wf()
    }

    /// An aggregator that knows its value to be zero.
    pub fn zero(limit: u128) -> (aggregator: Self)
        ensures
            aggregator@ == AggregatorView::zero(limit),
            aggregator@.wf(),
    {
        Aggregator { value: 0, state: AggregatorState::Data, limit, history: None }
    }

    /// A delta of zero that has not seen anything.
    pub fn fresh_delta(limit: u128) -> (aggregator: Self)
        ensures
            aggregator@ == AggregatorView::fresh_delta(limit),
            aggregator@.wf(),
    {
        Aggregator {
            value: 0,
            state: AggregatorState::PositiveDelta,
            limit,
            history: Some(History::new()),
        }
    }

    /// Moves a delta to `value` in `state` and records the excursion in the
    /// history.
    fn record(&mut self, value: u128, state: AggregatorState)
        requires
            !(state is Data),
            old(self)@.recorded(value, state).wf(),
        ensures
            final(self)@ == old(self)@.recorded(value, state),
    {
        let mut history = self.history;
        match &mut history {
            Some(seen) => match state {
                AggregatorState::PositiveDelta => seen.record_positive(value),
                AggregatorState::NegativeDelta => seen.record_negative(value),
                AggregatorState::Data => {},
            },
            None => {},
        }
        *self = Aggregator { value, state, limit: self.limit, history };
    }

    /// Adds `value` to the aggregator.
    ///
    /// The outcome is that of [`AggregatorView::after_add`]. A failure
    /// leaves the aggregator as it was. After a success the value lies
    /// within the limit, unless a negative delta was turned into a positive
    /// one that is itself above the limit.
    pub fn add(&mut self, value: u128) -> (result: Result<(), AggregatorError>)
        ensures
            old(self)@.settles(old(self)@.after_add(value), result, final(self)@),
            result is Err ==> *final(self) == *old(self),
            result is Err ==> result == Err::<(), AggregatorError>(AggregatorError::Overflow),
            result is Ok ==> (final(self)@.value <= final(self)@.limit <==> !(old(self)@.state
                is NegativeDelta && value - old(self)@.value > old(self)@.limit)),
            result is Ok && !(old(self)@.state is Data) ==> final(self)@.signed_delta() == old(
                self,
            )@.signed_delta() + value,
            final(self)@.limit == old(self)@.limit,
            final(self)@.state is Data <==> old(self)@.state is Data,
            final(self)@.state is Data <==> final(self)@.history is None,
            final(self)@.wf(),
    {
        proof {
            use_type_invariant(&*self);
        }
        match self.state {
            AggregatorState::Data => {
                let sum = addition(self.value, value, self.limit)?;
                self.value = sum;
            },
            AggregatorState::PositiveDelta => {
                let sum = addition(self.value, value, self.limit)?;
                self.record(sum, AggregatorState::PositiveDelta);
            },
            AggregatorState::NegativeDelta => {
                if self.value <= value {
                    let difference = subtraction(value, self.value)?;
                    self.record(difference, AggregatorState::PositiveDelta);
                } else {
                    let difference = subtraction(self.value, value)?;
                    self.record(difference, AggregatorState::NegativeDelta);
                }
            },
        }
        Ok(())
    }

    /// Subtracts `value` from the aggregator.
    ///
    /// The outcome is that of [`AggregatorView::after_sub`]. A failure
    /// leaves the aggregator as it was. After a success the value lies
    /// within the limit, unless a positive delta was above the limit and
    /// still is.
    pub fn sub(&mut self, value: u128) -> (result: Result<(), AggregatorError>)
        ensures
            old(self)@.settles(old(self)@.after_sub(value), result, final(self)@),
            result is Err ==> *final(self) == *old(self),
            result is Ok ==> (final(self)@.value <= final(self)@.limit <==> !(old(self)@.state
                is PositiveDelta && old(self)@.value - value > old(self)@.limit)),
            result is Ok && !(old(self)@.state is Data) ==> final(self)@.signed_delta() == old(
                self,
            )@.signed_delta() - value,
            final(self)@.limit == old(self)@.limit,
            final(self)@.state is Data <==> old(self)@.state is Data,
            final(self)@.state is Data <==> final(self)@.history is None,
            final(self)@.wf(),
    {
        proof {
            use_type_invariant(&*self);
        }
        match self.state {
            AggregatorState::Data => {
                let difference = subtraction(self.value, value)?;
                self.value = difference;
            },
            AggregatorState::PositiveDelta => {
                if self.value >= value {
                    let difference = subtraction(self.value, value)?;
                    self.record(difference, AggregatorState::PositiveDelta);
                } else {
                    // A delta below minus the limit could never be applied.
                    subtraction(self.limit, value)?;
                    let difference = subtraction(value, self.value)?;
                    self.record(difference, AggregatorState::NegativeDelta);
                }
            },
            AggregatorState::NegativeDelta => {
                let sum = addition(self.value, value, self.limit)?;
                self.record(sum, AggregatorState::NegativeDelta);
            },
        }
        Ok(())
    }

    /// Applies the delta to what the resolver gave and returns the value,
    /// which is known from then on.
    ///
    /// The outcome is that of [`AggregatorView::after_materialize`]. A known
    /// value is returned as it is, whatever `resolved` holds. A failure
    /// leaves the aggregator as it was.
    pub fn materialize(&mut self, resolved: Result<u128, ResolveFailure>) -> (result: Result<
        u128,
        AggregatorError,
    >)
        ensures
            old(self)@.settles(old(self)@.after_materialize(resolved), result, final(self)@),
            result is Ok ==> result == Ok::<u128, AggregatorError>(final(self)@.value),
            result is Ok ==> final(self)@.state is Data,
            result is Ok ==> final(self)@.value <= final(self)@.limit,
            result is Err ==> *final(self) == *old(self),
            old(self)@.state is Data ==> result is Ok && *final(self) == *old(self),
            final(self)@.limit == old(self)@.limit,
            final(self)@.state is Data <==> final(self)@.history is None,
            final(self)@.wf(),
    {
        proof {
            use_type_invariant(&*self);
        }
        let history = match self.history {
            Some(history) => history,
            None => {
                return Ok(self.value);
            },
        };
        let stored = match resolved {
            Ok(stored) => stored,
            Err(_) => {
                return Err(AggregatorError::ResolutionFailed);
            },
        };
        // Every delta that was seen must have been within bounds for this
        // stored value, not only the last one.
        addition(stored, history.max_positive, self.limit)?;
        subtraction(stored, history.min_negative)?;
        let value = match self.state {
            AggregatorState::NegativeDelta => subtraction(stored, self.value)?,
            _ => addition(stored, self.value, self.limit)?,
        };
        *self = Aggregator { value, state: AggregatorState::Data, limit: self.limit, history: None };
        Ok(value)
    }

    /// Returns the value of the aggregator, reading the stored value through
    /// `resolver` if it is not known yet. The aggregator knows its value
    /// from then on.
    ///
    /// A known value is returned without a call of the resolver. Otherwise
    /// the resolver is asked for `id` once, and the outcome is that of
    /// [`AggregatorView::after_materialize`] on what it gave. A failure
    /// leaves the aggregator as it was.
    pub fn read_and_materialize<R: AggregatorResolver + ?Sized>(
        &mut self,
        resolver: &R,
        id: &AggregatorID,
    ) -> (result: Result<u128, AggregatorError>)
        ensures
            old(self)@.state is Data ==> result == Ok::<u128, AggregatorError>(old(self)@.value)
                && *final(self) == *old(self),
            !(old(self)@.state is Data) ==> old(self)@.materialized_through(
                resolver,
                *id,
                result,
                final(self)@,
            ),
            result is Ok ==> result == Ok::<u128, AggregatorError>(final(self)@.value),
            result is Ok ==> final(self)@.state is Data,
            result is Ok ==> final(self)@.value <= final(self)@.limit,
            result is Err ==> *final(self) == *old(self),
            final(self)@.limit == old(self)@.limit,
            final(self)@.state is Data <==> final(self)@.history is None,
            final(self)@.wf(),
    {
        proof {
            use_type_invariant(&*self);
        }
        if let AggregatorState::Data = self.state {
            return Ok(self.value);
        }
        let resolved = resolver.resolve_aggregator_value(id);
        self.materialize(resolved)
    }

    /// Takes the aggregator apart: value, state, limit and history.
    pub fn into(self) -> (parts: (u128, AggregatorState, u128, Option<History>))
        ensures
            parts == (self@.value, self@.state, self@.limit, self@.history),
            self@.wf(),
    {
        proof {
            use_type_invariant(&self);
        }
        (self.value, self.state, self.limit, self.history)
    }

    /// The magnitude that the aggregator holds.
    pub fn value(&self) -> (value: u128)
        ensures
            value == self@.value,
    {
        self.value
    }

    /// What the value stands for.
    pub fn state(&self) -> (state: AggregatorState)
        ensures
            state == self@.state,
    {
        self.state
    }

    /// The largest value that the aggregator may take.
    pub fn limit(&self) -> (limit: u128)
        ensures
            limit == self@.limit,
    {
        self.limit
    }

    /// The excursions seen, while the aggregator is a delta.
    pub fn history(&self) -> (history: Option<History>)
        ensures
            history == self@.history,
            history is None <==> self@.state is Data,
    {
        proof {
            use_type_invariant(self);
        }
        self.history
    }
}

} // verus!
