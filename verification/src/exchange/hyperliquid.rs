//! Hyperliquid conventions.

use vstd::prelude::*;
use vstd::string::StringExecFns;
use crate::domain::error::FerrumError;
use crate::domain::types::{Interval, OrderType, Side, TradingPair};
use crate::text::{chars_eq, str_chars};

verus! {

/// Convert a trading pair to a Hyperliquid coin: perpetuals are named by
/// their base asset alone.
pub fn pair_to_coin(pair: &TradingPair) -> (r: String)
    ensures
        r@ == pair.base@,
{
    pair.base.clone()
}

/// Convert a Hyperliquid coin back to a trading pair against `quote`.
pub fn coin_to_pair(coin: &str, quote: &str) -> (r: TradingPair)
    ensures
        r.base@ == coin@,
        r.quote@ == quote@,
{
    TradingPair::new(coin, quote)
}

/// The API endpoint of the test network or of the main network.
pub fn base_url(testnet: bool) -> (r: String)
    ensures
        r@ == (if testnet {
            "https://api.hyperliquid-testnet.xyz"@
        } else {
            "https://api.hyperliquid.xyz"@
        }),
{
    if testnet {
        String::from_str("https://api.hyperliquid-testnet.xyz")
    } else {
        String::from_str("https://api.hyperliquid.xyz")
    }
}

/// Whether an order buys: buy is `true`, sell is `false`, a range side
/// cannot be ordered.
pub fn is_buy(side: Side) -> (r: Result<bool, FerrumError>)
    ensures
        side == Side::Buy ==> r == Ok::<bool, FerrumError>(true),
        side == Side::Sell ==> r == Ok::<bool, FerrumError>(false),
        side == Side::Range ==> (r matches Err(FerrumError::OrderError(m)) && m@
            == "Cannot place Range order"@),
{
    match side {
        Side::Buy => Ok(true),
        Side::Sell => Ok(false),
        Side::Range => Err(FerrumError::OrderError(String::from_str("Cannot place Range order"))),
    }
}

/// The time in force of an order: market orders are immediate-or-cancel,
/// limit orders good-till-cancelled; other order types are not supported.
pub fn time_in_force(t: OrderType) -> (r: Result<&'static str, FerrumError>)
    ensures
        t == OrderType::Market ==> (r matches Ok(c) && c@ == "ioc"@),
        t == OrderType::Limit ==> (r matches Ok(c) && c@ == "gtc"@),
        (t == OrderType::StopMarket || t == OrderType::TakeProfitMarket) ==> (r matches Err(
            FerrumError::OrderError(m),
        ) && m@ == "Hyperliquid: unsupported order type"@),
{
    match t {
        OrderType::Market => Ok("ioc"),
        OrderType::Limit => Ok("gtc"),
        _ => Err(FerrumError::OrderError(String::from_str("Hyperliquid: unsupported order type"))),
    }
}

/// The candle resolution code of each candle interval.
pub open spec fn resolution_code_text(i: Interval) -> Seq<char> {
    match i {
        Interval::M1 => "1"@,
        Interval::M3 => "3"@,
        Interval::M5 => "5"@,
        Interval::M15 => "15"@,
        Interval::M30 => "30"@,
        Interval::H1 => "60"@,
        Interval::H4 => "240"@,
        Interval::D1 => "D"@,
        Interval::W1 => "W"@,
    }
}

/// The candle resolution code of a candle interval.
pub fn resolution_code(i: Interval) -> (r: &'static str)
    ensures
        r@ == resolution_code_text(i),
{
    match i {
        Interval::M1 => "1",
        Interval::M3 => "3",
        Interval::M5 => "5",
        Interval::M15 => "15",
        Interval::M30 => "30",
        Interval::H1 => "60",
        Interval::H4 => "240",
        Interval::D1 => "D",
        Interval::W1 => "W",
    }
}

/// Decides a response by its status: `"err"` is an exchange error that
/// quotes the response message; any other status, or none, is success.
pub fn check_response(status: Option<&str>, response: Option<&str>) -> (r: Result<(), FerrumError>)
    ensures
        (status matches Some(s) && s@ == "err"@) ==> (r matches Err(FerrumError::ExchangeError(m))
            && m@ == "Hyperliquid error: "@ + (match response {
            Some(t) => t@,
            None => "Unknown error"@,
        })),
        !(status matches Some(s) && s@ == "err"@) ==> r is Ok,
{
    match status {
        Some(s) => {
            if chars_eq(&str_chars(s), &str_chars("err")) {
                let msg = match response {
                    Some(t) => t,
                    None => "Unknown error",
                };
                return Err(
                    FerrumError::ExchangeError(String::from_str("Hyperliquid error: ").concat(msg)),
                );
            }
            Ok(())
        },
        None => Ok(()),
    }
}

/// The index of a coin in the exchange's asset universe: the position of the
/// first asset named `coin`, or 0 when no asset has that name.
pub fn resolve_asset_index(universe: &Vec<Option<String>>, coin: &str) -> (r: usize)
    ensures
        (exists|k: int| 0 <= k < universe@.len() && (#[trigger] universe@[k] matches Some(n) && n@
            == coin@)) ==> (r < universe@.len() && (universe@[r as int] matches Some(n) && n@
            == coin@) && forall|k: int|
            0 <= k < r ==> !(#[trigger] universe@[k] matches Some(n) && n@ == coin@)),
        !(exists|k: int| 0 <= k < universe@.len() && (#[trigger] universe@[k] matches Some(n) && n@
            == coin@)) ==> r == 0,
{
    let c = str_chars(coin);
    let mut i: usize = 0;
    while i < universe.len()
        invariant
            i <= universe@.len(),
            c@ == coin@,
            forall|k: int|
                0 <= k < i ==> !(#[trigger] universe@[k] matches Some(n) && n@ == coin@),
        decreases universe.len() - i,
    {
        match &universe[i] {
            Some(name) => {
                if chars_eq(&str_chars(name.as_str()), &c) {
                    return i;
                }
            },
            None => {},
        }
        i = i + 1;
    }
    0
}

/// The candle resolutions Hyperliquid is sent: `1`, `3`, `5`, `15`, `30`,
/// `60`, `240`, `D`, `W`.
pub proof fn law_resolution_codes()
    ensures
        resolution_code_text(Interval::M1) == "1"@,
        resolution_code_text(Interval::M3) == "3"@,
        resolution_code_text(Interval::M5) == "5"@,
        resolution_code_text(Interval::M15) == "15"@,
        resolution_code_text(Interval::M30) == "30"@,
        resolution_code_text(Interval::H1) == "60"@,
        resolution_code_text(Interval::H4) == "240"@,
        resolution_code_text(Interval::D1) == "D"@,
        resolution_code_text(Interval::W1) == "W"@,
{
}

} // verus!
