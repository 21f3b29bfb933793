//! Outcome of a triple-barrier check.

use vstd::prelude::*;
use crate::domain::types::CloseType;

verus! {

/// Result of checking triple-barrier conditions.
#[derive(Debug, Clone, Copy, PartialEq, Eq, Structural)]
pub enum BarrierResult {
    /// No barrier triggered, continue monitoring.
    Active,
    /// Take profit hit.
    TakeProfit,
    /// Stop loss hit.
    StopLoss,
    /// Time limit exceeded.
    TimeLimit,
    /// Trailing stop triggered.
    TrailingStop,
}

/// How a position closes for each barrier outcome; none while still active.
pub open spec fn barrier_close_type(b: BarrierResult) -> Option<CloseType> {
    match b {
        BarrierResult::Active => None,
        BarrierResult::TakeProfit => Some(CloseType::TakeProfit),
        BarrierResult::StopLoss => Some(CloseType::StopLoss),
        BarrierResult::TimeLimit => Some(CloseType::TimeLimit),
        BarrierResult::TrailingStop => Some(CloseType::TrailingStop),
    }
}

impl BarrierResult {
    /// How the position closes on this outcome, if it does.
    pub fn close_type(&self) -> (r: Option<CloseType>)
        ensures
            r == barrier_close_type(*self),
    {
        match self {
            BarrierResult::Active => None,
            BarrierResult::TakeProfit => Some(CloseType::TakeProfit),
            BarrierResult::StopLoss => Some(CloseType::StopLoss),
            BarrierResult::TimeLimit => Some(CloseType::TimeLimit),
            BarrierResult::TrailingStop => Some(CloseType::TrailingStop),
        }
    }
}

/// A barrier that is hit closes the position with the close type of the
/// same name; while none is hit the position stays open.
pub proof fn law_barrier_close_types()
    ensures
        barrier_close_type(BarrierResult::Active) is None,
        barrier_close_type(BarrierResult::TakeProfit) == Some(CloseType::TakeProfit),
        barrier_close_type(BarrierResult::StopLoss) == Some(CloseType::StopLoss),
        barrier_close_type(BarrierResult::TimeLimit) == Some(CloseType::TimeLimit),
        barrier_close_type(BarrierResult::TrailingStop) == Some(CloseType::TrailingStop),
{
}

} // verus!
