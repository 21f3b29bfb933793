//! Agent definitions, cross-session learnings and session status.

pub mod definition;
pub mod learnings;
pub mod session;
