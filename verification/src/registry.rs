use crate::aggregator::{Aggregator, AggregatorView};
use crate::error::AggregatorError;
use crate::identifier::{AggregatorID, SortKey};
use crate::resolver::{AggregatorResolver, ResolveFailure};
use std::collections::{BTreeMap, BTreeSet};
use vstd::prelude::*;

verus! {

/// The identifiers whose sort keys are in `keys`.
pub open spec fn ids_of(keys: Set<SortKey>) -> Set<AggregatorID> {
    Set::new(|id: AggregatorID| keys.contains(id.sort_key()))
}

/// What `entries` holds, by identifier.
pub open spec fn aggregators_of(entries: Map<SortKey, Aggregator>) -> Map<
    AggregatorID,
    AggregatorView,
> {
    Map::new(
        |id: AggregatorID| entries.contains_key(id.sort_key()),
        |id: AggregatorID| entries[id.sort_key()]@,
    )
}

/// Whether every member of `keys` is the sort key of an identifier.
pub open spec fn all_sort_keys(keys: Set<SortKey>) -> bool {
    forall|key: SortKey| keys.contains(key) ==> AggregatorID::is_sort_key(key)
}

/// What a registry holds, as plain values.
pub struct AggregatorDataView {
    /// The aggregators created in this transaction that still exist.
    pub new_aggregators: Set<AggregatorID>,
    /// The aggregators destroyed in this transaction that it had not
    /// created.
    pub destroyed_aggregators: Set<AggregatorID>,
    /// The aggregators in use.
    pub aggregators: Map<AggregatorID, AggregatorView>,
    /// The last number handed out by `generate_id`, or the number that the
    /// registry was made with.
    pub id_counter: u64,
}

impl AggregatorDataView {
    /// A registry that holds nothing.
    pub open spec fn empty(id_counter: u64) -> AggregatorDataView {
        AggregatorDataView {
            new_aggregators: Set::empty(),
            destroyed_aggregators: Set::empty(),
            aggregators: Map::empty(),
            id_counter,
        }
    }

    /// The aggregator in use under `id`, or the delta of zero that a first
    /// touch puts there.
    pub open spec fn found_or_fresh(self, id: AggregatorID, limit: u128) -> AggregatorView {
        if self.aggregators.contains_key(id) {
            self.aggregators[id]
        } else {
            AggregatorView::fresh_delta(limit)
        }
    }

    /// The registry with `aggregator` in use under `id` and nothing else
    /// changed.
    pub open spec fn with_aggregator(
        self,
        id: AggregatorID,
        aggregator: AggregatorView,
    ) -> AggregatorDataView {
        AggregatorDataView { aggregators: self.aggregators.insert(id, aggregator), ..self }
    }

    /// The registry after an aggregator was created under `id`: it is in
    /// use, known to be zero, and listed as new.
    pub open spec fn after_create(self, id: AggregatorID, limit: u128) -> AggregatorDataView {
        AggregatorDataView {
            new_aggregators: self.new_aggregators.insert(id),
            aggregators: self.aggregators.insert(id, AggregatorView::zero(limit)),
            ..self
        }
    }

    /// The registry after the aggregator under `id` was removed: it is no
    /// longer in use; if it was new it is forgotten, otherwise it is listed
    /// as destroyed.
    pub open spec fn after_remove(self, id: AggregatorID) -> AggregatorDataView {
        if self.new_aggregators.contains(id) {
            AggregatorDataView {
                new_aggregators: self.new_aggregators.remove(id),
                aggregators: self.aggregators.remove(id),
                ..self
            }
        } else {
            AggregatorDataView {
                destroyed_aggregators: self.destroyed_aggregators.insert(id),
                aggregators: self.aggregators.remove(id),
                ..self
            }
        }
    }

    /// The number that follows `id_counter`, starting over after the
    /// largest.
    pub open spec fn next_id(self) -> u64 {
        if self.id_counter == u64::MAX {
            0
        } else {
            (self.id_counter + 1) as u64
        }
    }

    /// What every registry satisfies: what is listed as new is in use, and
    /// only finitely many aggregators are.
    pub open spec fn wf(self) -> bool {
        &&& self.new_aggregators.subset_of(self.aggregators.dom())
        &&& self.aggregators.dom().finite()
    }

    /// An aggregator that is created and removed within one transaction
    /// leaves no trace: the registry is as it was before, provided that
    /// nothing was in use under `id`.
    pub proof fn lemma_create_then_remove(self, id: AggregatorID, limit: u128)
        requires
            self.wf(),
            !self.aggregators.contains_key(id),
        ensures
            self.after_create(id, limit).after_remove(id) == self,
    {
        let after = self.after_create(id, limit).after_remove(id);
        assert(after.new_aggregators =~= self.new_aggregators);
        assert(after.aggregators =~= self.aggregators);
    }
}

/// The aggregators of one transaction: those in use, and which of them it
/// created or destroyed.
pub struct AggregatorData {
    new_aggregators: BTreeSet<SortKey>,
    destroyed_aggregators: BTreeSet<SortKey>,
    aggregators: BTreeMap<SortKey, Aggregator>,
    id_counter: u64,
}

impl View for AggregatorData {
    type V = AggregatorDataView;

    closed spec fn view(&self) -> AggregatorDataView {
        AggregatorDataView {
            new_aggregators: ids_of(self.new_aggregators@),
            destroyed_aggregators: ids_of(self.destroyed_aggregators@),
            aggregators: aggregators_of(self.aggregators@),
            id_counter: self.id_counter,
        }
    }
}

/// Tuples of integers are ordered as the ordered collections of the
/// standard library expect of their keys.
proof fn lemma_sort_keys_are_ordered()
    ensures
        vstd::laws_cmp::obeys_cmp::<SortKey>(),
        vstd::std_specs::btree::key_obeys_cmp_spec::<SortKey>(),
{
    broadcast use vstd::laws_cmp::group_laws_cmp;
    broadcast use vstd::std_specs::btree::group_btree_axioms;

    assert(vstd::laws_cmp::obeys_cmp::<SortKey>());
}

/// Adding a sort key adds its identifier.
proof fn lemma_ids_of_insert(keys: Set<SortKey>, id: AggregatorID)
    ensures
        ids_of(keys.insert(id.sort_key())) == ids_of(keys).insert(id),
        all_sort_keys(keys) ==> all_sort_keys(keys.insert(id.sort_key())),
{
    assert forall|other: AggregatorID|
        ids_of(keys.insert(id.sort_key())).contains(other) == ids_of(keys).insert(id).contains(
            other,
        ) by {
        AggregatorID::lemma_sort_key_identifies(id, other);
    }
    assert(ids_of(keys.insert(id.sort_key())) =~= ids_of(keys).insert(id));
}

/// Removing a sort key removes its identifier.
proof fn lemma_ids_of_remove(keys: Set<SortKey>, id: AggregatorID)
    ensures
        ids_of(keys.remove(id.sort_key())) == ids_of(keys).remove(id),
{
    assert forall|other: AggregatorID|
        ids_of(keys.remove(id.sort_key())).contains(other) == ids_of(keys).remove(id).contains(
            other,
        ) by {
        AggregatorID::lemma_sort_key_identifies(id, other);
    }
    assert(ids_of(keys.remove(id.sort_key())) =~= ids_of(keys).remove(id));
}

/// Storing under a sort key stores under its identifier.
proof fn lemma_aggregators_of_insert(
    entries: Map<SortKey, Aggregator>,
    id: AggregatorID,
    aggregator: Aggregator,
)
    ensures
        aggregators_of(entries.insert(id.sort_key(), aggregator)) == aggregators_of(
            entries,
        ).insert(id, aggregator@),
{
    let left = aggregators_of(entries.insert(id.sort_key(), aggregator));
    let right = aggregators_of(entries).insert(id, aggregator@);
    assert forall|other: AggregatorID|
        left.contains_key(other) == right.contains_key(other) && (left.contains_key(other)
            ==> left[other] == right[other]) by {
        AggregatorID::lemma_sort_key_identifies(id, other);
    }
    assert(left =~= right);
}

/// Dropping a sort key drops its identifier.
proof fn lemma_aggregators_of_remove(entries: Map<SortKey, Aggregator>, id: AggregatorID)
    ensures
        aggregators_of(entries.remove(id.sort_key())) == aggregators_of(entries).remove(id),
{
    let left = aggregators_of(entries.remove(id.sort_key()));
    let right = aggregators_of(entries).remove(id);
    assert forall|other: AggregatorID|
        left.contains_key(other) == right.contains_key(other) && (left.contains_key(other)
            ==> left[other] == right[other]) by {
        AggregatorID::lemma_sort_key_identifies(id, other);
    }
    assert(left =~= right);
}

/// A finite set of sort keys names as many identifiers as it has members.
proof fn lemma_ids_of_len(keys: Set<SortKey>)
    requires
        keys.finite(),
        all_sort_keys(keys),
    ensures
        ids_of(keys).finite(),
        ids_of(keys).len() == keys.len(),
{
    let back = |key: SortKey| AggregatorID::of_sort_key(key);
    assert forall|id: AggregatorID| ids_of(keys).contains(id) == keys.map(back).contains(id) by {
        AggregatorID::lemma_sort_key_identifies(id, id);
        if ids_of(keys).contains(id) {
            assert(keys.contains(id.sort_key()) && back(id.sort_key()) == id);
        }
        if keys.map(back).contains(id) {
            let key = choose|key: SortKey| keys.contains(key) && id == back(key);
            AggregatorID::lemma_of_sort_key(key);
        }
    }
    assert(keys.map(back) =~= ids_of(keys));
    assert(vstd::relations::injective_on(back, keys)) by {
        assert forall|a: SortKey, b: SortKey|
            keys.contains(a) && keys.contains(b) && back(a) == back(b) implies a == b by {
            AggregatorID::lemma_of_sort_key(a);
            AggregatorID::lemma_of_sort_key(b);
        }
    }
    vstd::set_lib::lemma_map_size(keys, ids_of(keys), back);
}

/// A widening that loses nothing.
fn count_of(length: usize) -> (count: u128)
    ensures
        count == length,
{
    length as u128
}

/// `BTreeMap::get_mut`: a mutable reference to the value stored under
/// `key`, or none where the map has no such key. What the map holds under
/// `key` afterwards is what the reference is left pointing at; its other
/// entries stay as they are. The lookup compares tuples of integers and
/// allocates nothing, so it does not panic.
#[verifier::external_body]
fn entry_mut<'a>(entries: &'a mut BTreeMap<SortKey, Aggregator>, key: &SortKey) -> (slot: Option<
    &'a mut Aggregator,
>)
    ensures
        slot is Some <==> old(entries)@.contains_key(*key),
        slot is Some ==> *slot.unwrap() == old(entries)@[*key] && final(entries)@ == old(
            entries,
        )@.insert(*key, *final(slot.unwrap())),
        slot is None ==> final(entries)@ == old(entries)@,
    no_unwind
{
    entries.get_mut(key)
}

impl AggregatorData {
    #[verifier::type_invariant]
    spec fn well_formed(self) -> bool {
        Self::fit(self.new_aggregators@, self.destroyed_aggregators@, self.aggregators@)
    }

    /// Whether three collections can make up a registry: every key is the
    /// sort key of an identifier, and what is listed as new is in use.
    spec fn fit(
        created: Set<SortKey>,
        destroyed: Set<SortKey>,
        entries: Map<SortKey, Aggregator>,
    ) -> bool {
        &&& all_sort_keys(created)
        &&& all_sort_keys(destroyed)
        &&& all_sort_keys(entries.dom())
        &&& created.subset_of(entries.dom())
    }

    /// The invariant of the fields, seen through the view.
    proof fn lemma_view_wf(self)
        requires
            self.well_formed(),
        ensures
            self@.wf(),
            self@.aggregators.len() == self.aggregators@.len(),
    {
        broadcast use vstd::std_specs::btree::group_btree_axioms;

        assert(self@.aggregators.dom() =~= ids_of(self.aggregators@.dom()));
        lemma_ids_of_len(self.aggregators@.dom());
    }

    /// Takes the three collections out and leaves empty ones, so that they
    /// can change while the registry itself stays well formed.
    fn take_parts(&mut self) -> (parts: (
        BTreeSet<SortKey>,
        BTreeSet<SortKey>,
        BTreeMap<SortKey, Aggregator>,
    ))
        ensures
            parts.0 == old(self).new_aggregators,
            parts.1 == old(self).destroyed_aggregators,
            parts.2 == old(self).aggregators,
            Self::fit(parts.0@, parts.1@, parts.2@),
            final(self).new_aggregators@ == Set::<SortKey>::empty(),
            final(self).destroyed_aggregators@ == Set::<SortKey>::empty(),
            final(self).aggregators@ == Map::<SortKey, Aggregator>::empty(),
            final(self).id_counter == old(self).id_counter,
    {
        proof {
            use_type_invariant(&*self);
        }
        let mut created = BTreeSet::new();
        let mut destroyed = BTreeSet::new();
        let mut entries = BTreeMap::new();
        std::mem::swap(&mut self.new_aggregators, &mut created);
        std::mem::swap(&mut self.destroyed_aggregators, &mut destroyed);
        std::mem::swap(&mut self.aggregators, &mut entries);
        (created, destroyed, entries)
    }

    /// Puts three collections in the place of those that the registry
    /// holds.
    fn put_parts(
        &mut self,
        created: BTreeSet<SortKey>,
        destroyed: BTreeSet<SortKey>,
        entries: BTreeMap<SortKey, Aggregator>,
    )
        requires
            Self::fit(created@, destroyed@, entries@),
        ensures
            final(self).new_aggregators == created,
            final(self).destroyed_aggregators == destroyed,
            final(self).aggregators == entries,
            final(self).id_counter == old(self).id_counter,
    {
        proof {
            use_type_invariant(&*self);
        }
        self.new_aggregators = BTreeSet::new();
        self.aggregators = entries;
        self.new_aggregators = created;
        self.destroyed_aggregators = destroyed;
    }

    /// A registry that holds nothing and counts on from `id_counter`.
    pub fn new(id_counter: u64) -> (data: Self)
        ensures
            data@ == AggregatorDataView::empty(id_counter),
            data@.wf(),
    {
        let data = AggregatorData {
            new_aggregators: BTreeSet::new(),
            destroyed_aggregators: BTreeSet::new(),
            aggregators: BTreeMap::new(),
            id_counter,
        };
        proof {
            assert(data@.new_aggregators =~= Set::empty());
            assert(data@.destroyed_aggregators =~= Set::empty());
            assert(data@.aggregators =~= Map::empty());
            data.lemma_view_wf();
        }
        data
    }

    /// Returns the aggregator in use under `id`. Where there is none, a
    /// delta of zero with the given `limit` is put there first; the limit of
    /// one that is there stays as it is. Where deltas are not enabled, the
    /// aggregator is made to read its value through `resolver` before it is
    /// handed out.
    ///
    /// What is listed as new or destroyed and the counter stay as they are.
    /// With deltas enabled, or with a known value under `id`, the call
    /// succeeds without a call of the resolver. Otherwise the resolver is
    /// asked for `id` once, and the outcome is that of
    /// [`AggregatorView::after_materialize`] on what it gave: on failure the
    /// error is returned and the delta stays in use under `id` as it was
    /// found or made. On success, what the caller leaves behind the
    /// reference is what is in use under `id` afterwards.
    pub fn get_aggregator<R: AggregatorResolver + ?Sized>(
        &mut self,
        id: AggregatorID,
        limit: u128,
        resolver: &R,
        aggregator_enabled: bool,
    ) -> (result: Result<&mut Aggregator, AggregatorError>)
        ensures
            result is Ok ==> final(self)@ == old(self)@.with_aggregator(
                id,
                final(result.unwrap())@,
            ),
            result is Err ==> final(self)@ == old(self)@.with_aggregator(
                id,
                old(self)@.found_or_fresh(id, limit),
            ),
            aggregator_enabled || old(self)@.found_or_fresh(id, limit).state is Data ==> result
                is Ok && result.unwrap()@ == old(self)@.found_or_fresh(id, limit),
            !aggregator_enabled && !(old(self)@.found_or_fresh(id, limit).state is Data)
                ==> exists|resolved: Result<u128, ResolveFailure>|
                #[trigger] resolver.may_resolve(id, resolved) && (match old(
                    self,
                )@.found_or_fresh(id, limit).after_materialize(resolved) {
                    Ok(known) => result is Ok && result.unwrap()@ == known,
                    Err(error) => result is Err && result->Err_0 == error,
                }),
            result is Ok ==> result.unwrap()@.wf(),
            result is Ok && !aggregator_enabled ==> result.unwrap()@.state is Data,
            final(self)@.wf(),
    {
        let key = id.to_sort_key();
        proof {
            use_type_invariant(&*self);
            self.lemma_view_wf();
            lemma_sort_keys_are_ordered();
        }
        broadcast use vstd::std_specs::btree::group_btree_axioms;

        if !self.aggregators.contains_key(&key) {
            let fresh = Aggregator::fresh_delta(limit);
            let (created, destroyed, mut entries) = self.take_parts();
            proof {
                lemma_aggregators_of_insert(entries@, id, fresh);
            }
            entries.insert(key, fresh);
            self.put_parts(created, destroyed, entries);
        }
        let ghost entries = self.aggregators@;
        let ghost found = entries[key];
        proof {
            use_type_invariant(&*self);
            assert(found@ == old(self)@.found_or_fresh(id, limit));
        }
        match entry_mut(&mut self.aggregators, &key) {
            Some(aggregator) => {
                proof {
                    use_type_invariant(&*aggregator);
                }
                if !aggregator_enabled {
                    match aggregator.read_and_materialize(resolver, &id) {
                        Ok(_) => {},
                        Err(error) => {
                            proof {
                                lemma_aggregators_of_insert(entries, id, found);
                                assert(aggregators_of(entries).insert(id, found@) =~= old(
                                    self,
                                )@.aggregators.insert(id, found@));
                            }
                            return Err(error);
                        },
                    }
                }
                proof {
                    lemma_aggregators_of_insert(entries, id, *final(aggregator));
                    assert(aggregators_of(entries).insert(id, final(aggregator)@) =~= old(
                        self,
                    )@.aggregators.insert(id, final(aggregator)@));
                }
                Ok(aggregator)
            },
            None => {
                proof {
                    assert(false);
                }
                Err(AggregatorError::ResolutionFailed)
            },
        }
    }

    /// The number of aggregators in use.
    pub fn num_aggregators(&self) -> (count: u128)
        ensures
            count == self@.aggregators.len(),
            self@.wf(),
    {
        proof {
            use_type_invariant(self);
            lemma_sort_keys_are_ordered();
            self.lemma_view_wf();
        }
        broadcast use vstd::std_specs::btree::group_btree_axioms;

        count_of(self.aggregators.len())
    }

    /// Creates an aggregator under `id` that is known to be zero, and lists
    /// it as new. An aggregator that was in use under `id` is replaced.
    pub fn create_new_aggregator(&mut self, id: AggregatorID, limit: u128)
        ensures
            final(self)@ == old(self)@.after_create(id, limit),
            final(self)@.wf(),
    {
        let key = id.to_sort_key();
        let aggregator = Aggregator::zero(limit);
        proof {
            lemma_sort_keys_are_ordered();
            lemma_ids_of_insert(self.new_aggregators@, id);
            lemma_aggregators_of_insert(self.aggregators@, id, aggregator);
        }
        broadcast use vstd::std_specs::btree::group_btree_axioms;

        let (mut created, destroyed, mut entries) = self.take_parts();
        entries.insert(key, aggregator);
        created.insert(key);
        self.put_parts(created, destroyed, entries);
        proof {
            self.lemma_view_wf();
        }
    }

    /// Takes the aggregator under `id` out of use. If this transaction
    /// created it, it is forgotten; otherwise it is listed as destroyed.
    pub fn remove_aggregator(&mut self, id: AggregatorID)
        ensures
            final(self)@ == old(self)@.after_remove(id),
            final(self)@.wf(),
    {
        let key = id.to_sort_key();
        proof {
            lemma_sort_keys_are_ordered();
            lemma_ids_of_insert(self.destroyed_aggregators@, id);
            lemma_ids_of_remove(self.new_aggregators@, id);
            lemma_aggregators_of_remove(self.aggregators@, id);
        }
        broadcast use vstd::std_specs::btree::group_btree_axioms;

        let (mut created, mut destroyed, mut entries) = self.take_parts();
        entries.remove(&key);
        if created.contains(&key) {
            created.remove(&key);
        } else {
            destroyed.insert(key);
        }
        self.put_parts(created, destroyed, entries);
        proof {
            self.lemma_view_wf();
        }
    }

    /// Hands out the number that follows the last one, starting over at
    /// zero after the largest.
    pub fn generate_id(&mut self) -> (id: u64)
        ensures
            id == old(self)@.next_id(),
            final(self)@ == (AggregatorDataView { id_counter: id, ..old(self)@ }),
            final(self)@.wf(),
    {
        proof {
            use_type_invariant(&*self);
            self.lemma_view_wf();
        }
        self.id_counter = self.id_counter.wrapping_add(1);
        self.id_counter
    }

    /// The last number handed out, or the number that the registry was made
    /// with.
    pub fn id_counter(&self) -> (id_counter: u64)
        ensures
            id_counter == self@.id_counter,
    {
        self.id_counter
    }

    /// Takes the registry apart: the sort keys of the new aggregators, those
    /// of the destroyed ones, and the aggregators in use by sort key.
    pub fn into(self) -> (parts: (
        BTreeSet<SortKey>,
        BTreeSet<SortKey>,
        BTreeMap<SortKey, Aggregator>,
    ))
        ensures
            ids_of(parts.0@) == self@.new_aggregators,
            ids_of(parts.1@) == self@.destroyed_aggregators,
            aggregators_of(parts.2@) == self@.aggregators,
            all_sort_keys(parts.0@),
            all_sort_keys(parts.1@),
            all_sort_keys(parts.2@.dom()),
            parts.0@.subset_of(parts.2@.dom()),
            self@.wf(),
    {
        proof {
            use_type_invariant(&self);
            self.lemma_view_wf();
        }
        (self.new_aggregators, self.destroyed_aggregators, self.aggregators)
    }
}

impl Default for AggregatorData {
    /// A registry that holds nothing and counts on from zero.
    fn default() -> (data: Self)
        ensures
            data@ == AggregatorDataView::empty(0),
    {
        AggregatorData::new(0)
    }
}

} // verus!
