//! Checkpoint controller for a page-oriented, write-ahead-logged storage
//! engine: dirty-page tracking, checkpoint scheduling with minimum and
//! maximum spacing, fuzzy checkpoint execution in bounded I/O batches, and
//! backpressure on transaction admission when dirty pages outgrow the
//! buffer pool.
//!
//! Time is measured in milliseconds throughout; log positions (LSNs) and
//! WAL sizes are byte offsets.

pub mod backpressure;
pub mod batcher;
pub mod config;
pub mod controller;
pub mod error;
pub mod executor;
pub mod monitor;
pub mod scheduler;
pub mod tracker;
