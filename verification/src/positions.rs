//! How the position store writes a position's side, and reads it back.

use vstd::prelude::*;
use crate::domain::types::Side;
use crate::text::{chars_eq, str_chars};

verus! {

/// The name the store writes for a side.
pub open spec fn side_name(s: Side) -> Seq<char> {
    match s {
        Side::Buy => "Buy"@,
        Side::Sell => "Sell"@,
        Side::Range => "Range"@,
    }
}

/// The side the store reads from a name: `Buy` and `Sell` by name, and any
/// other name as a range position.
pub open spec fn side_named(name: Seq<char>) -> Side {
    if name == "Buy"@ {
        Side::Buy
    } else if name == "Sell"@ {
        Side::Sell
    } else {
        Side::Range
    }
}

/// The name the store writes for a side.
pub fn stored_side_name(s: Side) -> (r: &'static str)
    ensures
        r@ == side_name(s),
{
    match s {
        Side::Buy => "Buy",
        Side::Sell => "Sell",
        Side::Range => "Range",
    }
}

/// The side the store reads back from a stored name.
pub fn side_from_stored_name(name: &str) -> (r: Side)
    ensures
        r == side_named(name@),
{
    let n = str_chars(name);
    if chars_eq(&n, &str_chars("Buy")) {
        Side::Buy
    } else if chars_eq(&n, &str_chars("Sell")) {
        Side::Sell
    } else {
        Side::Range
    }
}

/// Reading back the name the store writes for a side gives that side.
pub proof fn law_side_round_trip(s: Side)
    ensures
        side_named(side_name(s)) == s,
{
    reveal_strlit("Buy");
    reveal_strlit("Sell");
    reveal_strlit("Range");
    assert("Sell"@.len() != "Buy"@.len());
    assert("Range"@.len() != "Buy"@.len());
    assert("Range"@.len() != "Sell"@.len());
}

/// The store writes a side by its name: `Buy`, `Sell`, `Range`; and reads
/// `Buy` and `Sell` back by name.
pub proof fn law_side_names()
    ensures
        side_name(Side::Buy) == "Buy"@,
        side_name(Side::Sell) == "Sell"@,
        side_name(Side::Range) == "Range"@,
        side_named("Buy"@) == Side::Buy,
        side_named("Sell"@) == Side::Sell,
{
    reveal_strlit("Buy");
    reveal_strlit("Sell");
    assert("Sell"@.len() != "Buy"@.len());
}

} // verus!
