use crate::aggregator::AggregatorView;
use crate::error::AggregatorError;
use crate::resolver::ResolveFailure;
use vstd::prelude::*;
use vstd::seq_lib::lemma_fold_left_permutation;

verus! {

/// One operation on an aggregator.
pub enum Delta {
    /// An addition of the given amount.
    Add(u128),
    /// A subtraction of the given amount.
    Sub(u128),
}

impl Delta {
    /// The amount with its sign.
    pub open spec fn signed(self) -> int {
        match self {
            Delta::Add(amount) => amount as int,
            Delta::Sub(amount) => -(amount as int),
        }
    }
}

/// Adds the signed amount of one operation to a running sum.
pub open spec fn accumulate() -> spec_fn(int, Delta) -> int {
    |sum: int, delta: Delta| sum + delta.signed()
}

/// The sum of the signed amounts of `deltas`.
pub open spec fn net(deltas: Seq<Delta>) -> int {
    deltas.fold_left(0int, accumulate())
}

/// The largest sum that any prefix of `deltas` reaches. The empty prefix
/// makes it at least zero.
pub open spec fn peak(deltas: Seq<Delta>) -> int
    decreases deltas.len(),
{
    if deltas.len() == 0 {
        0
    } else if net(deltas) >= peak(deltas.drop_last()) {
        net(deltas)
    } else {
        peak(deltas.drop_last())
    }
}

/// How far below zero the sum of any prefix of `deltas` drops, as a
/// magnitude.
pub open spec fn trough(deltas: Seq<Delta>) -> int
    decreases deltas.len(),
{
    if deltas.len() == 0 {
        0
    } else if -net(deltas) >= trough(deltas.drop_last()) {
        -net(deltas)
    } else {
        trough(deltas.drop_last())
    }
}

/// Whether `base` with the sum of any prefix of `deltas` lies in
/// `[0, limit]`.
pub open spec fn stays_within(deltas: Seq<Delta>, base: u128, limit: u128) -> bool {
    forall|k: int| 0 <= k <= deltas.len() ==> 0 <= base + #[trigger] net(deltas.take(k)) <= limit
}

/// The aggregator after one operation, or why it cannot be applied.
pub open spec fn step(aggregator: AggregatorView, delta: Delta) -> Result<
    AggregatorView,
    AggregatorError,
> {
    match delta {
        Delta::Add(amount) => aggregator.after_add(amount),
        Delta::Sub(amount) => aggregator.after_sub(amount),
    }
}

/// The aggregator after the operations of `deltas` in turn, or the first
/// failure among them.
pub open spec fn run(aggregator: AggregatorView, deltas: Seq<Delta>) -> Result<
    AggregatorView,
    AggregatorError,
>
    decreases deltas.len(),
{
    if deltas.len() == 0 {
        Ok(aggregator)
    } else {
        match run(aggregator, deltas.drop_last()) {
            Ok(before) => step(before, deltas.last()),
            Err(error) => Err(error),
        }
    }
}

/// The value that a delta aggregator gives for the stored value `base`, or
/// why it gives none.
pub open spec fn materialized(aggregator: AggregatorView, base: u128) -> Result<
    AggregatorView,
    AggregatorError,
> {
    aggregator.after_materialize(Ok::<u128, ResolveFailure>(base))
}

/// An operation that succeeds on a well-formed aggregator leaves a
/// well-formed aggregator with the same limit, and moves a delta by its
/// signed amount.
pub proof fn lemma_step_preserves_wf(aggregator: AggregatorView, delta: Delta)
    requires
        aggregator.wf(),
        step(aggregator, delta) is Ok,
    ensures
        step(aggregator, delta).unwrap().wf(),
        step(aggregator, delta).unwrap().limit == aggregator.limit,
        step(aggregator, delta).unwrap().state is Data <==> aggregator.state is Data,
        !(aggregator.state is Data) ==> step(aggregator, delta).unwrap().signed_delta()
            == aggregator.signed_delta() + delta.signed(),
{
}

/// Every state that a well-formed aggregator reaches through successful
/// operations is well formed: a history is kept exactly while the state is
/// a delta.
pub proof fn lemma_run_preserves_wf(aggregator: AggregatorView, deltas: Seq<Delta>)
    requires
        aggregator.wf(),
        run(aggregator, deltas) is Ok,
    ensures
        run(aggregator, deltas).unwrap().wf(),
        run(aggregator, deltas).unwrap().limit == aggregator.limit,
        run(aggregator, deltas).unwrap().state is Data <==> aggregator.state is Data,
        run(aggregator, deltas).unwrap().state is Data <==> run(
            aggregator,
            deltas,
        ).unwrap().history is None,
    decreases deltas.len(),
{
    if deltas.len() > 0 {
        lemma_run_preserves_wf(aggregator, deltas.drop_last());
        lemma_step_preserves_wf(run(aggregator, deltas.drop_last()).unwrap(), deltas.last());
    }
}

/// The sum of every prefix lies between the trough and the peak.
pub proof fn lemma_envelope_bounds(deltas: Seq<Delta>, k: int)
    requires
        0 <= k <= deltas.len(),
    ensures
        -trough(deltas) <= net(deltas.take(k)) <= peak(deltas),
        0 <= peak(deltas),
        0 <= trough(deltas),
    decreases deltas.len(),
{
    if deltas.len() == 0 {
        assert(deltas.take(k) =~= deltas);
    } else if k == deltas.len() {
        assert(deltas.take(k) =~= deltas);
        lemma_envelope_bounds(deltas.drop_last(), 0);
    } else {
        assert(deltas.take(k) =~= deltas.drop_last().take(k));
        lemma_envelope_bounds(deltas.drop_last(), k);
    }
}

/// Some prefix reaches the peak, and some prefix reaches the trough.
pub proof fn lemma_envelope_attained(deltas: Seq<Delta>) -> (at: (int, int))
    ensures
        0 <= at.0 <= deltas.len(),
        0 <= at.1 <= deltas.len(),
        net(deltas.take(at.0)) == peak(deltas),
        net(deltas.take(at.1)) == -trough(deltas),
    decreases deltas.len(),
{
    if deltas.len() == 0 {
        assert(deltas.take(0) =~= deltas);
        (0, 0)
    } else {
        let before = lemma_envelope_attained(deltas.drop_last());
        assert(deltas.take(deltas.len() as int) =~= deltas);
        assert(deltas.take(before.0) =~= deltas.drop_last().take(before.0));
        assert(deltas.take(before.1) =~= deltas.drop_last().take(before.1));
        let high = if net(deltas) >= peak(deltas.drop_last()) {
            deltas.len() as int
        } else {
            before.0
        };
        let low = if -net(deltas) >= trough(deltas.drop_last()) {
            deltas.len() as int
        } else {
            before.1
        };
        (high, low)
    }
}

/// Staying within bounds is the same as the peak and the trough being
/// within bounds.
pub proof fn lemma_stays_within_envelope(deltas: Seq<Delta>, base: u128, limit: u128)
    ensures
        stays_within(deltas, base, limit) <==> base + peak(deltas) <= limit && trough(deltas)
            <= base,
{
    let at = lemma_envelope_attained(deltas);
    if base + peak(deltas) <= limit && trough(deltas) <= base {
        assert forall|k: int| 0 <= k <= deltas.len() implies 0 <= base + #[trigger] net(
            deltas.take(k),
        ) <= limit by {
            lemma_envelope_bounds(deltas, k);
        }
    }
    if stays_within(deltas, base, limit) {
        assert(0 <= base + net(deltas.take(at.0)) <= limit);
        assert(0 <= base + net(deltas.take(at.1)) <= limit);
    }
}

/// The history is a tight envelope. After a sequence of operations that all
/// succeeded on a fresh delta, the delta is the sum of their signed
/// amounts, the positive excursion is the largest sum that a prefix
/// reached, and the negative excursion is the magnitude of the smallest.
pub proof fn lemma_history_is_envelope(limit: u128, deltas: Seq<Delta>)
    requires
        run(AggregatorView::fresh_delta(limit), deltas) is Ok,
    ensures
        ({
            let reached = run(AggregatorView::fresh_delta(limit), deltas).unwrap();
            &&& reached.wf()
            &&& reached.limit == limit
            &&& reached.signed_delta() == net(deltas)
            &&& reached.history is Some
            &&& reached.envelope().max_positive == peak(deltas)
            &&& reached.envelope().min_negative == trough(deltas)
        }),
    decreases deltas.len(),
{
    let fresh = AggregatorView::fresh_delta(limit);
    if deltas.len() > 0 {
        lemma_history_is_envelope(limit, deltas.drop_last());
        let before = run(fresh, deltas.drop_last()).unwrap();
        lemma_step_preserves_wf(before, deltas.last());
        lemma_envelope_bounds(deltas.drop_last(), 0);
    }
}

/// A sequence that stays within bounds for some stored value succeeds on a
/// fresh delta, and leaves the value and both excursions within the limit.
pub proof fn lemma_within_bounds_runs(limit: u128, base: u128, deltas: Seq<Delta>)
    requires
        stays_within(deltas, base, limit),
    ensures
        run(AggregatorView::fresh_delta(limit), deltas) is Ok,
        run(AggregatorView::fresh_delta(limit), deltas).unwrap().within_limit(),
    decreases deltas.len(),
{
    let fresh = AggregatorView::fresh_delta(limit);
    assert(deltas.take(0).len() == 0);
    assert(0 <= base + net(deltas.take(0)) <= limit);
    if deltas.len() > 0 {
        let shorter = deltas.drop_last();
        assert forall|k: int| 0 <= k <= shorter.len() implies 0 <= base + #[trigger] net(
            shorter.take(k),
        ) <= limit by {
            assert(shorter.take(k) =~= deltas.take(k));
        }
        lemma_within_bounds_runs(limit, base, shorter);
        lemma_history_is_envelope(limit, shorter);
        assert(shorter.take(shorter.len() as int) =~= shorter);
        assert(deltas.take(deltas.len() as int) =~= deltas);
        assert(0 <= base + net(shorter.take(shorter.len() as int)) <= limit);
        assert(0 <= base + net(deltas.take(deltas.len() as int)) <= limit);
        let before = run(fresh, shorter).unwrap();
        assert(step(before, deltas.last()) is Ok);
        lemma_history_is_envelope(limit, deltas);
        lemma_stays_within_envelope(deltas, base, limit);
    }
}

/// Materialization of a successful sequence succeeds exactly when the
/// sequence stayed within bounds for the stored value, and then gives the
/// stored value plus the sum of the signed amounts.
pub proof fn lemma_materialized_run(limit: u128, base: u128, deltas: Seq<Delta>)
    requires
        run(AggregatorView::fresh_delta(limit), deltas) is Ok,
    ensures
        ({
            let reached = run(AggregatorView::fresh_delta(limit), deltas).unwrap();
            &&& materialized(reached, base) is Ok <==> stays_within(deltas, base, limit)
            &&& materialized(reached, base) is Ok ==> materialized(reached, base).unwrap()
                == AggregatorView { value: (base + net(deltas)) as u128, ..AggregatorView::zero(limit) }
            &&& materialized(reached, base) is Ok ==> 0 <= base + net(deltas) <= limit
        }),
{
    lemma_history_is_envelope(limit, deltas);
    lemma_stays_within_envelope(deltas, base, limit);
}

/// The sum of the signed amounts does not depend on the order of the
/// operations.
pub proof fn lemma_net_of_permutation(first: Seq<Delta>, second: Seq<Delta>)
    requires
        first.to_multiset() == second.to_multiset(),
    ensures
        net(first) == net(second),
{
    assert(vstd::seq_lib::commutative_foldl(accumulate()));
    lemma_fold_left_permutation(first, second, accumulate(), 0int);
}

/// Materialization commutes. Two orders of the same operations that both
/// stay within bounds for the stored value both succeed on a fresh delta
/// and materialize to the same aggregator: the stored value plus the sum
/// of the signed amounts.
pub proof fn lemma_materialization_commutes(
    limit: u128,
    base: u128,
    first: Seq<Delta>,
    second: Seq<Delta>,
)
    requires
        first.to_multiset() == second.to_multiset(),
        stays_within(first, base, limit),
        stays_within(second, base, limit),
    ensures
        run(AggregatorView::fresh_delta(limit), first) is Ok,
        run(AggregatorView::fresh_delta(limit), second) is Ok,
        materialized(run(AggregatorView::fresh_delta(limit), first).unwrap(), base) is Ok,
        materialized(run(AggregatorView::fresh_delta(limit), first).unwrap(), base)
            == materialized(run(AggregatorView::fresh_delta(limit), second).unwrap(), base),
        materialized(run(AggregatorView::fresh_delta(limit), first).unwrap(), base).unwrap().value
            == base + net(first),
{
    lemma_within_bounds_runs(limit, base, first);
    lemma_within_bounds_runs(limit, base, second);
    lemma_materialized_run(limit, base, first);
    lemma_materialized_run(limit, base, second);
    lemma_net_of_permutation(first, second);
}

/// Whenever two orders of the same operations both succeed and both
/// materialize for the same stored value, they materialize to the same
/// aggregator.
pub proof fn lemma_successful_orders_agree(
    limit: u128,
    base: u128,
    first: Seq<Delta>,
    second: Seq<Delta>,
)
    requires
        first.to_multiset() == second.to_multiset(),
        run(AggregatorView::fresh_delta(limit), first) is Ok,
        run(AggregatorView::fresh_delta(limit), second) is Ok,
        materialized(run(AggregatorView::fresh_delta(limit), first).unwrap(), base) is Ok,
        materialized(run(AggregatorView::fresh_delta(limit), second).unwrap(), base) is Ok,
    ensures
        materialized(run(AggregatorView::fresh_delta(limit), first).unwrap(), base)
            == materialized(run(AggregatorView::fresh_delta(limit), second).unwrap(), base),
{
    lemma_materialized_run(limit, base, first);
    lemma_materialized_run(limit, base, second);
    lemma_net_of_permutation(first, second);
}

/// Materialization is idempotent. Once an aggregator has materialized, it
/// materializes to itself again, whatever the resolver would give: the
/// resolver has no part in the second call.
pub proof fn lemma_materialization_is_idempotent(
    aggregator: AggregatorView,
    first: Result<u128, ResolveFailure>,
    second: Result<u128, ResolveFailure>,
)
    requires
        aggregator.after_materialize(first) is Ok,
    ensures
        aggregator.after_materialize(first).unwrap().state is Data,
        aggregator.after_materialize(first).unwrap().after_materialize(second)
            == aggregator.after_materialize(first),
{
}

/// A known value never turns back into a delta: neither an addition, nor a
/// subtraction, nor materialization changes the state of an aggregator that
/// knows its value.
pub proof fn lemma_data_is_terminal(
    aggregator: AggregatorView,
    delta: Delta,
    resolved: Result<u128, ResolveFailure>,
)
    requires
        aggregator.state is Data,
    ensures
        step(aggregator, delta) is Ok ==> step(aggregator, delta).unwrap().state is Data,
        aggregator.after_materialize(resolved) == Ok::<AggregatorView, AggregatorError>(
            aggregator,
        ),
{
}

} // verus!
