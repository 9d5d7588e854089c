//! Last-value aggregation for a metrics pipeline: a cell that keeps only the
//! most recent measurement of one instrument, and the rules by which two such
//! cells are merged or checkpointed.

pub mod aggregator;
pub mod error;
pub mod number;
pub mod slot;
pub mod sync;
pub mod timestamp;

pub use crate::aggregator::{last_value, Aggregator, LastValueAggregator};
pub use crate::error::{AggregationKind, AggregatorError};
pub use crate::number::Number;
pub use crate::slot::{DataPoint, Slot};
pub use crate::timestamp::{EpochOffset, Timestamp};
