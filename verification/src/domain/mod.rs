//! Domain types shared by every part of the harness.

pub mod config;
pub mod error;
pub mod types;
