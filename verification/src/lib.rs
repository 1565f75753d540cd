//! Normalisation of log submissions into one canonical record shape, and the
//! append-only store that accumulates the records.

pub mod log;
pub mod normalize;
pub mod store;
pub mod submission;
pub mod timestamp;
