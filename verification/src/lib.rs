//! Overwriting a block device or file, one chunk at a time, with zero bytes or
//! with bytes from the system's secure random source.
//!
//! The library holds the decisions of such a run: how long a chunk is, whether
//! the operator agreed, what the chunk holds, and what follows each write and
//! flush. Opening, writing and flushing the target, and showing the progress,
//! are left to the caller.

pub mod args;
pub mod confirm;
pub mod engine;
pub mod fill;
pub mod laws;
pub mod status;
pub mod units;
