//! Verified core of a batch video re-encoder.
//!
//! The library holds everything that can be decided without touching the
//! outside world: which files a directory scan should select, what the
//! backup and output paths are, which arguments the probing and encoding
//! subprocesses receive, and how a run reacts to a per-file failure.
//! The surrounding binary performs the actual traversal, copies and
//! subprocess launches, feeding their outcomes back in as plain values.

pub mod logging;
pub mod paths;
pub mod plan;
pub mod scan;
pub mod text;
