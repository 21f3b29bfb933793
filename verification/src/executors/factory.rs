//! The rules by which executors are created from actions.

use vstd::prelude::*;
use vstd::string::StringExecFns;
use crate::domain::error::FerrumError;
use crate::domain::types::ExecutorType;

verus! {

/// Factory for creating executors from actions.
pub struct ExecutorFactory;

/// The message for each executor type that cannot be created yet.
pub open spec fn unsupported_message(t: ExecutorType) -> Option<Seq<char>> {
    match t {
        ExecutorType::Swap => Some("SwapExecutor not yet implemented"@),
        ExecutorType::Lp => Some("LPExecutor not yet implemented"@),
        ExecutorType::Dca => Some("DCAExecutor not yet implemented"@),
        _ => None,
    }
}

impl ExecutorFactory {
    /// Whether an executor of this type can be created: position, order and
    /// grid executors can; the others fail with an internal error.
    pub fn check_supported(t: ExecutorType) -> (r: Result<(), FerrumError>)
        ensures
            match unsupported_message(t) {
                None => r is Ok,
                Some(m) => r matches Err(FerrumError::Internal(e)) && e@ == m,
            },
    {
        match t {
            ExecutorType::Swap => Err(
                FerrumError::Internal(String::from_str("SwapExecutor not yet implemented")),
            ),
            ExecutorType::Lp => Err(
                FerrumError::Internal(String::from_str("LPExecutor not yet implemented")),
            ),
            ExecutorType::Dca => Err(
                FerrumError::Internal(String::from_str("DCAExecutor not yet implemented")),
            ),
            _ => Ok(()),
        }
    }

    /// The error for an action that does not create an executor.
    pub fn not_a_create_action() -> (r: FerrumError)
        ensures
            r matches FerrumError::Internal(e) && e@ == "Cannot create executor from non-Create action"@,
    {
        FerrumError::Internal(String::from_str("Cannot create executor from non-Create action"))
    }

    /// Whether the created executor keeps its position on termination: an
    /// order executor always does; a position or grid executor does as the
    /// action says, else a position executor closes and a grid executor
    /// keeps.
    pub fn keep_position(t: ExecutorType, requested: Option<bool>) -> (r: bool)
        ensures
            r == (if t == ExecutorType::Order {
                true
            } else {
                match requested {
                    Some(b) => b,
                    None => t == ExecutorType::Grid,
                }
            }),
    {
        if t == ExecutorType::Order {
            return true;
        }
        match requested {
            Some(b) => b,
            None => t == ExecutorType::Grid,
        }
    }

    /// The number of grid levels: as the action says, five by default,
    /// narrowed to 32 bits.
    pub fn grid_levels(requested: Option<u64>) -> (r: u32)
        ensures
            r == (match requested {
                Some(v) => v,
                None => 5,
            }) as u32,
    {
        let v: u64 = match requested {
            Some(v) => v,
            None => 5,
        };
        v as u32
    }

    /// The leverage, when the action gives one, narrowed to 32 bits.
    pub fn leverage(requested: Option<u64>) -> (r: Option<u32>)
        ensures
            r == (match requested {
                Some(v) => Some(v as u32),
                None => None::<u32>,
            }),
    {
        match requested {
            Some(v) => Some(v as u32),
            None => None,
        }
    }
}

/// Position, order and grid executors can be created; swap, liquidity and
/// DCA executors cannot, each with its own message.
pub proof fn law_supported_executors(t: ExecutorType)
    ensures
        unsupported_message(t) is None <==> (t == ExecutorType::Position || t == ExecutorType::Order
            || t == ExecutorType::Grid),
        unsupported_message(ExecutorType::Swap) == Some("SwapExecutor not yet implemented"@),
        unsupported_message(ExecutorType::Lp) == Some("LPExecutor not yet implemented"@),
        unsupported_message(ExecutorType::Dca) == Some("DCAExecutor not yet implemented"@),
{
}

} // verus!
