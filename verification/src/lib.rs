//! In-memory state for a graph-visualization server: a bounded FIFO history
//! of graph snapshots, a deduplicating store of source files, and a
//! single-slot holder for the latest arena blob, each guarded by its own
//! reader-writer lock.

pub mod messages;
pub mod history;
pub mod dedup;
pub mod latest;
pub mod state;
