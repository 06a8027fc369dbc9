//! Scan engine for columnar files: the plan of one scan, the bounded footer
//! cache with single-flight slots, byte-range read accounting, and the
//! per-partition stream with its row limit and corrupted-file policy.
//!
//! Everything here is decision logic over plain values. Storage reads, waiting
//! and decoding are done by the caller, who feeds the results back in.

pub mod slot;
pub mod cache;
pub mod stream;
pub mod text;
pub mod error;
pub mod file;
pub mod reader;
pub mod pruning;
pub mod plan;
pub mod metrics;
pub mod cast;
