//! Executors: self-contained trading operations and their lifecycle.

pub mod factory;
pub mod lifecycle;
pub mod triple_barrier;
