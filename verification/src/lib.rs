//! Verified core of a DNS resolution latency benchmark.
//!
//! The library holds the logic of the sweep: expanding resolver entries into
//! concrete query methods, the bounded retry policy of a single probe, the
//! extraction of an address from a DNS-over-HTTPS answer, the per-method task
//! that walks the domain list in order, the aggregation of probe results into
//! summary rows and matrix cells, and a model of the concurrency ceiling.
//! Network I/O, timing and the command line live outside the library.

pub mod aggregate;
pub mod doh;
pub mod limiter;
pub mod models;
pub mod probe;
pub mod schedule;
