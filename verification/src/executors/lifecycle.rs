//! The executor lifecycle: created, then active once the market gives a
//! price, then terminated with a close type. Every executor moves forward
//! through these states only, and a terminated executor stays terminated.

use vstd::prelude::*;
use crate::domain::types::{CloseType, ExecutorStatus};

verus! {

/// An event an executor emits when its status changes.
#[derive(Debug, Clone, Copy, PartialEq, Eq, Structural)]
pub enum LifecycleEvent {
    Activated,
    Terminated(CloseType),
}

/// How far along the lifecycle a status is.
pub open spec fn stage(s: ExecutorStatus) -> int {
    match s {
        ExecutorStatus::Created => 0,
        ExecutorStatus::Active => 1,
        ExecutorStatus::Terminated(_) => 2,
    }
}

/// A market update that carries (`true`) or lacks a price: a created
/// executor becomes active on a price; any other executor is unchanged.
pub open spec fn after_price(s: ExecutorStatus, has_price: bool) -> (ExecutorStatus, Option<LifecycleEvent>) {
    if has_price && s == ExecutorStatus::Created {
        (ExecutorStatus::Active, Some(LifecycleEvent::Activated))
    } else {
        (s, None)
    }
}

/// An exit signal: an active executor with a close type terminates with
/// it; any other executor is unchanged.
pub open spec fn after_exit(s: ExecutorStatus, exit: Option<CloseType>) -> (ExecutorStatus, Option<LifecycleEvent>) {
    match exit {
        Some(ct) => if s == ExecutorStatus::Active {
            (ExecutorStatus::Terminated(ct), Some(LifecycleEvent::Terminated(ct)))
        } else {
            (s, None)
        },
        None => (s, None),
    }
}

/// One tick of an order executor: a created executor activates when the
/// market has an order book; a market order then fills at once at the mid
/// price, when there is one, and terminates as taken profit.
pub open spec fn order_tick(s: ExecutorStatus, has_book: bool, is_market: bool, has_mid: bool) -> (ExecutorStatus, Option<LifecycleEvent>, bool) {
    if has_book && s == ExecutorStatus::Created {
        if is_market && has_mid {
            (ExecutorStatus::Terminated(CloseType::TakeProfit), Some(LifecycleEvent::Activated), true)
        } else {
            (ExecutorStatus::Active, Some(LifecycleEvent::Activated), false)
        }
    } else {
        (s, None, false)
    }
}

/// The status on a market update that carries or lacks a price.
pub fn on_price(s: ExecutorStatus, has_price: bool) -> (r: (ExecutorStatus, Option<LifecycleEvent>))
    ensures
        r == after_price(s, has_price),
        stage(s) <= stage(r.0),
{
    if has_price && s == ExecutorStatus::Created {
        (ExecutorStatus::Active, Some(LifecycleEvent::Activated))
    } else {
        (s, None)
    }
}

/// The status on an exit signal.
pub fn on_exit(s: ExecutorStatus, exit: Option<CloseType>) -> (r: (ExecutorStatus, Option<LifecycleEvent>))
    ensures
        r == after_exit(s, exit),
        stage(s) <= stage(r.0),
{
    match exit {
        Some(ct) => if s == ExecutorStatus::Active {
            (ExecutorStatus::Terminated(ct), Some(LifecycleEvent::Terminated(ct)))
        } else {
            (s, None)
        },
        None => (s, None),
    }
}

/// One tick of an order executor; the third component says whether the
/// order filled.
pub fn on_order_tick(s: ExecutorStatus, has_book: bool, is_market: bool, has_mid: bool) -> (r: (ExecutorStatus, Option<LifecycleEvent>, bool))
    ensures
        r == order_tick(s, has_book, is_market, has_mid),
        stage(s) <= stage(r.0),
{
    if has_book && s == ExecutorStatus::Created {
        if is_market && has_mid {
            (ExecutorStatus::Terminated(CloseType::TakeProfit), Some(LifecycleEvent::Activated), true)
        } else {
            (ExecutorStatus::Active, Some(LifecycleEvent::Activated), false)
        }
    } else {
        (s, None, false)
    }
}

/// The status after a stop: terminated early, whatever it was.
pub fn on_stop(s: ExecutorStatus) -> (r: ExecutorStatus)
    ensures
        r == ExecutorStatus::Terminated(CloseType::EarlyStop),
        stage(s) <= stage(r),
{
    ExecutorStatus::Terminated(CloseType::EarlyStop)
}

/// The close type an executor reports: its close type once terminated.
pub fn reported_close_type(s: ExecutorStatus) -> (r: Option<CloseType>)
    ensures
        match s {
            ExecutorStatus::Terminated(ct) => r == Some(ct),
            _ => r is None,
        },
{
    match s {
        ExecutorStatus::Terminated(ct) => Some(ct),
        _ => None,
    }
}

/// Whether an executor still counts as open (created or active).
pub fn is_open(s: ExecutorStatus) -> (r: bool)
    ensures
        r == (stage(s) < 2),
{
    match s {
        ExecutorStatus::Terminated(_) => false,
        _ => true,
    }
}

/// A terminated executor stays terminated, with the same close type and no
/// further events, whatever the market does.
pub proof fn law_terminated_is_final(ct: CloseType, has_price: bool, exit: Option<CloseType>, has_book: bool, is_market: bool, has_mid: bool)
    ensures
        after_price(ExecutorStatus::Terminated(ct), has_price) == (
            ExecutorStatus::Terminated(ct),
            None::<LifecycleEvent>,
        ),
        after_exit(ExecutorStatus::Terminated(ct), exit) == (
            ExecutorStatus::Terminated(ct),
            None::<LifecycleEvent>,
        ),
        order_tick(ExecutorStatus::Terminated(ct), has_book, is_market, has_mid) == (
            ExecutorStatus::Terminated(ct),
            None::<LifecycleEvent>,
            false,
        ),
{
}

/// A position executor's tick — a price update, then an exit signal — never
/// moves its status back, and emits a termination event exactly when it
/// terminates on that tick.
pub proof fn law_position_tick_forward(s: ExecutorStatus, has_price: bool, exit: Option<CloseType>)
    ensures
        ({
            let (s1, _) = after_price(s, has_price);
            let (s2, e2) = after_exit(s1, exit);
            &&& stage(s) <= stage(s1) <= stage(s2)
            &&& (e2 is Some <==> (stage(s1) < 2 && stage(s2) == 2))
            &&& (e2 matches Some(LifecycleEvent::Terminated(ct)) ==> s2 == ExecutorStatus::Terminated(
                ct,
            ))
        }),
{
}

} // verus!
