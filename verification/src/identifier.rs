use vstd::prelude::*;

verus! {

/// The 16-byte handle of the table that holds a group of aggregators, read
/// as one big-endian number.
#[derive(Clone, Copy, Debug, PartialEq, Eq, PartialOrd, Ord, Structural)]
pub struct TableHandle(pub u128);

/// The 32-byte address that tells one aggregator of a table from another,
/// read as two big-endian numbers: the first sixteen bytes, then the rest.
#[derive(Clone, Copy, Debug, PartialEq, Eq, PartialOrd, Ord, Structural)]
pub struct AggregatorHandle(pub u128, pub u128);

/// Names one aggregator.
#[derive(Clone, Copy, Debug, PartialEq, Eq, PartialOrd, Ord, Structural)]
pub enum AggregatorID {
    /// An aggregator kept as an item of a table, which storage can look up.
    Legacy {
        /// Shared by all aggregators that one factory created.
        handle: TableHandle,
        /// Unique to this aggregator.
        key: AggregatorHandle,
    },
    /// An aggregator that lives within one block and has no place in
    /// storage.
    Ephemeral(u128),
}

/// The table item under which storage keeps a legacy aggregator.
#[derive(Clone, Copy, Debug, PartialEq, Eq, Structural)]
pub struct StateKey {
    pub handle: TableHandle,
    pub key: AggregatorHandle,
}

/// The integers by which identifiers are ordered and found again: the
/// variant first, then its fields in the order of their declaration.
pub type SortKey = (u8, u128, u128, u128);

impl AggregatorID {
    /// The sort key of an identifier.
    pub open spec fn sort_key(self) -> SortKey {
        match self {
            AggregatorID::Legacy { handle, key } => (0u8, handle.0, key.0, key.1),
            AggregatorID::Ephemeral(number) => (1u8, number, 0u128, 0u128),
        }
    }

    /// Whether `key` is the sort key of some identifier.
    pub open spec fn is_sort_key(key: SortKey) -> bool {
        key.0 == 0 || (key.0 == 1 && key.2 == 0 && key.3 == 0)
    }

    /// The identifier that has `key` as its sort key, where there is one.
    pub open spec fn of_sort_key(key: SortKey) -> AggregatorID {
        if key.0 == 0 {
            AggregatorID::Legacy {
                handle: TableHandle(key.1),
                key: AggregatorHandle(key.2, key.3),
            }
        } else {
            AggregatorID::Ephemeral(key.1)
        }
    }

    /// The identifier of a table item.
    pub fn legacy(handle: TableHandle, key: AggregatorHandle) -> (id: Self)
        ensures
            id == (AggregatorID::Legacy { handle, key }),
    {
        AggregatorID::Legacy { handle, key }
    }

    /// The place of the aggregator in storage: a table item for a legacy
    /// identifier, none for an ephemeral one.
    pub fn into_state_key(self) -> (state_key: Option<StateKey>)
        ensures
            state_key == match self {
                AggregatorID::Legacy { handle, key } => Some(StateKey { handle, key }),
                AggregatorID::Ephemeral(_) => None,
            },
    {
        match self {
            AggregatorID::Legacy { handle, key } => Some(StateKey { handle, key }),
            AggregatorID::Ephemeral(_) => None,
        }
    }

    /// Computes the sort key of an identifier.
    pub fn to_sort_key(&self) -> (key: SortKey)
        ensures
            key == self.sort_key(),
            Self::is_sort_key(key),
    {
        match self {
            AggregatorID::Legacy { handle, key } => (0u8, handle.0, key.0, key.1),
            AggregatorID::Ephemeral(number) => (1u8, *number, 0u128, 0u128),
        }
    }

    /// Recovers an identifier from its sort key, and tells a tuple that is
    /// the sort key of none.
    pub fn from_sort_key(key: SortKey) -> (id: Option<Self>)
        ensures
            id is Some <==> Self::is_sort_key(key),
            id is Some ==> id.unwrap() == Self::of_sort_key(key) && id.unwrap().sort_key() == key,
    {
        if key.0 == 0 {
            Some(
                AggregatorID::Legacy {
                    handle: TableHandle(key.1),
                    key: AggregatorHandle(key.2, key.3),
                },
            )
        } else if key.0 == 1 && key.2 == 0 && key.3 == 0 {
            Some(AggregatorID::Ephemeral(key.1))
        } else {
            None
        }
    }

    /// No two identifiers share a sort key, and every sort key leads back to
    /// its identifier.
    pub proof fn lemma_sort_key_identifies(a: AggregatorID, b: AggregatorID)
        ensures
            Self::is_sort_key(a.sort_key()),
            Self::of_sort_key(a.sort_key()) == a,
            a.sort_key() == b.sort_key() <==> a == b,
    {
    }

    /// A tuple that is a sort key is the sort key of the identifier it
    /// leads to.
    pub proof fn lemma_of_sort_key(key: SortKey)
        requires
            Self::is_sort_key(key),
        ensures
            Self::of_sort_key(key).sort_key() == key,
    {
    }
}

} // verus!
