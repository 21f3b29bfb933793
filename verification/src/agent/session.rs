//! Trading-session status.

use vstd::prelude::*;

verus! {

/// The status of a trading session.
#[derive(Debug, Clone, Copy, PartialEq, Eq, Structural)]
pub enum SessionStatus {
    Active,
    Paused,
    Completed,
    Failed,
}

} // verus!
