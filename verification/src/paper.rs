//! Paper-trading order status.

use vstd::prelude::*;

verus! {

/// Status of a paper order.
#[derive(Debug, Clone, Copy, PartialEq, Eq, Structural)]
pub enum PaperOrderStatus {
    Pending,
    PartiallyFilled,
    Filled,
    Canceled,
    Rejected,
}

} // verus!
