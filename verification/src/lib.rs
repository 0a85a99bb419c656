//! A commutative numeric aggregator: a counter bounded to `[0, limit]` on
//! which a transaction accumulates additions and subtractions as a delta
//! against a stored value that it has not read. The delta remembers how far
//! it has been from zero on either side, so that, once the stored value is
//! read, every value that the counter passed through can be held to the
//! bounds.
//!
//! * [`bounded_math`] holds the two checked operations that everything else
//!   is built from, and [`error`] the failures that they and the aggregator
//!   report.
//! * [`aggregator`] holds one aggregator: its state, its history of
//!   excursions, and addition, subtraction and materialization.
//! * [`resolver`] is what an aggregator reads the stored value through.
//! * [`identifier`] names aggregators, and [`registry`] holds those that one
//!   transaction has touched, created or destroyed.
//! * [`delta_sequence`] states and proves what holds of whole sequences of
//!   additions and subtractions: the history is their envelope, and
//!   materialization does not depend on their order.

pub mod aggregator;
pub mod bounded_math;
pub mod delta_sequence;
pub mod error;
pub mod identifier;
pub mod registry;
pub mod resolver;

pub use crate::aggregator::{Aggregator, AggregatorState, AggregatorView, History};
pub use crate::bounded_math::{addition, subtraction};
pub use crate::delta_sequence::Delta;
pub use crate::error::AggregatorError;
pub use crate::identifier::{AggregatorHandle, AggregatorID, SortKey, StateKey, TableHandle};
pub use crate::registry::{AggregatorData, AggregatorDataView};
pub use crate::resolver::{AggregatorResolver, ResolveFailure};
