//! Judging engine for competitive-programming solutions: output comparison,
//! compile and run planning, result classification, per-test state and the
//! store of known problems.
pub mod executor;
pub mod judge;
pub mod models;
pub mod output;
pub mod store;
pub mod text;
