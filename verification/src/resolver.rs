use crate::identifier::AggregatorID;
use vstd::prelude::*;

verus! {

/// The resolver could not produce the stored value of an aggregator: the
/// record is missing or the store could not be reached.
#[derive(Clone, Copy, Debug, PartialEq, Eq, Structural)]
pub struct ResolveFailure;

/// Access to the stored values of aggregators. It is consulted only when a
/// delta is materialized.
pub trait AggregatorResolver {
    /// Whether a lookup of `id` may end in `outcome`. An implementation that
    /// says nothing of its lookups lets this hold of every outcome.
    open spec fn may_resolve(
        &self,
        id: AggregatorID,
        outcome: Result<u128, ResolveFailure>,
    ) -> bool {
        true
    }

    /// Returns the stored value of the aggregator named `id`.
    fn resolve_aggregator_value(&self, id: &AggregatorID) -> (outcome: Result<
        u128,
        ResolveFailure,
    >)
        ensures
            self.may_resolve(*id, outcome),
    ;
}

} // verus!
