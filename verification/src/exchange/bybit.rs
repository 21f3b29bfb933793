//! Bybit conventions.

use vstd::prelude::*;
use vstd::string::StringExecFns;
use crate::domain::types::{PairView, TradingPair};
use crate::exchange::symbols::{
    lemma_split_symbol_of_join, lemma_suffix_last_two, split_symbol, split_symbol_chars,
};
use crate::domain::config::ExchangeConfig;
use crate::domain::error::FerrumError;
use crate::domain::types::{Interval, OrderType, Side};
use crate::exchange::crypto::{hex_encode, hex_lower, hmac_sha256, hmac_sha256_bytes};
use crate::text::{chars_to_string, decimal_signed, i64_decimal, str_chars};
use vstd::utf8::encode_utf8;

verus! {

/// The quote assets Bybit symbols are read against, in the order tried.
pub open spec fn bybit_quotes() -> Seq<Seq<char>> {
    seq!["USDC"@, "USDT"@, "BTC"@, "ETH"@, "USD"@]
}

/// Reading back a symbol written by `pair_to_symbol` gives the same pair,
/// whenever the quote is one of the known quotes, the base is non-empty and
/// the base does not itself end with the quote.
pub proof fn law_symbol_round_trip(p: PairView)
    requires
        bybit_quotes().contains(p.quote),
        p.base.len() > 0,
        !p.quote.is_suffix_of(p.base),
    ensures
        split_symbol(p.base + p.quote, bybit_quotes()) == Some(p),
{
    reveal_strlit("USDC");
    reveal_strlit("USDT");
    reveal_strlit("BTC");
    reveal_strlit("ETH");
    reveal_strlit("USD");
    assert("USDC"@ =~= seq!['U', 'S', 'D', 'C']);
    assert("USDT"@ =~= seq!['U', 'S', 'D', 'T']);
    assert("BTC"@ =~= seq!['B', 'T', 'C']);
    assert("ETH"@ =~= seq!['E', 'T', 'H']);
    assert("USD"@ =~= seq!['U', 'S', 'D']);
    let qs = bybit_quotes();
    assert forall|i: int| 0 <= i < qs.len() implies (#[trigger] qs[i]).len() > 0 by {}
    assert forall|i: int, j: int|
        0 <= i < qs.len() && 0 <= j < qs.len() && i != j implies !(#[trigger] qs[i]).is_suffix_of(
        #[trigger] qs[j],
    ) by {
        if qs[i].is_suffix_of(qs[j]) {
            lemma_suffix_last_two(qs[i], qs[j]);
        }
    }
    lemma_split_symbol_of_join(p.base, p.quote, qs);
}

/// Convert a trading pair to a Bybit symbol (`BTCUSDT`): base then quote.
pub fn pair_to_symbol(pair: &TradingPair) -> (r: String)
    ensures
        r@ == pair.base@ + pair.quote@,
{
    pair.base.clone().concat(pair.quote.as_str())
}

/// Convert a Bybit symbol to a trading pair.
pub fn symbol_to_pair(symbol: &str) -> (r: Option<TradingPair>)
    ensures
        match r {
            Some(p) => split_symbol(symbol@, bybit_quotes()) == Some(p@),
            None => split_symbol(symbol@, bybit_quotes()) is None,
        },
{
    let mut quotes: Vec<Vec<char>> = Vec::new();
    quotes.push(str_chars("USDC"));
    quotes.push(str_chars("USDT"));
    quotes.push(str_chars("BTC"));
    quotes.push(str_chars("ETH"));
    quotes.push(str_chars("USD"));
    assert(quotes@.map_values(|q: Vec<char>| q@) =~= bybit_quotes());
    split_symbol_chars(&str_chars(symbol), &quotes)
}

/// The REST endpoint of the test network or of the main network.
pub fn base_url(testnet: bool) -> (r: String)
    ensures
        r@ == (if testnet {
            "https://api-testnet.bybit.com"@
        } else {
            "https://api.bybit.com"@
        }),
{
    if testnet {
        String::from_str("https://api-testnet.bybit.com")
    } else {
        String::from_str("https://api.bybit.com")
    }
}

/// The receive window sent with every signed request, in milliseconds.
pub fn recv_window() -> (r: &'static str)
    ensures
        r@ == "5000"@,
{
    "5000"
}

/// What a V5 signature covers: API key, receive window, request time, then
/// the query string or body.
pub open spec fn sign_payload(api_key: Seq<char>, recv_window: Seq<char>, timestamp: int, params: Seq<char>) -> Seq<char> {
    api_key + recv_window + decimal_signed(timestamp) + params
}

/// The signed payload is the API key, the receive window, the request time
/// in decimal and the parameters, one after another: it ends with the
/// parameters, so two requests that differ only in their parameters are
/// signed over different payloads.
pub proof fn law_sign_payload_parts(
    api_key: Seq<char>,
    recv_window: Seq<char>,
    timestamp: int,
    params: Seq<char>,
    other_params: Seq<char>,
)
    ensures
        ({
            let m = sign_payload(api_key, recv_window, timestamp, params);
            let a = api_key.len() as int;
            let b = a + recv_window.len();
            let c = b + decimal_signed(timestamp).len();
            &&& m.len() == c + params.len()
            &&& m.take(a) == api_key
            &&& m.subrange(a, b) == recv_window
            &&& m.subrange(b, c) == decimal_signed(timestamp)
            &&& m.skip(c) == params
        }),
        params != other_params ==> sign_payload(api_key, recv_window, timestamp, params)
            != sign_payload(api_key, recv_window, timestamp, other_params),
{
    let m = sign_payload(api_key, recv_window, timestamp, params);
    let a = api_key.len() as int;
    let b = a + recv_window.len();
    let c = b + decimal_signed(timestamp).len();
    assert(m.take(a) =~= api_key);
    assert(m.subrange(a, b) =~= recv_window);
    assert(m.subrange(b, c) =~= decimal_signed(timestamp));
    assert(m.skip(c) =~= params);
    let m2 = sign_payload(api_key, recv_window, timestamp, other_params);
    assert(m2.skip(c) =~= other_params);
}

/// A symbol made of a non-empty base followed by one of the quotes USDC,
/// USDT, BTC, ETH or USD reads back as that base and quote, whenever the
/// base does not itself end with the quote.
pub proof fn law_known_quotes_read_back(base: Seq<char>, quote: Seq<char>)
    requires
        quote == "USDC"@ || quote == "USDT"@ || quote == "BTC"@ || quote == "ETH"@ || quote == "USD"@,
        base.len() > 0,
        !quote.is_suffix_of(base),
    ensures
        split_symbol(base + quote, bybit_quotes()) == Some(PairView { base, quote }),
{
    let qs = bybit_quotes();
    if quote == "USDC"@ {
        assert(qs[0] == quote);
    } else if quote == "USDT"@ {
        assert(qs[1] == quote);
    } else if quote == "BTC"@ {
        assert(qs[2] == quote);
    } else if quote == "ETH"@ {
        assert(qs[3] == quote);
    } else {
        assert(qs[4] == quote);
    }
    law_symbol_round_trip(PairView { base, quote });
}

/// The V5 signature: lower-case hex of the HMAC-SHA256 of the payload's UTF-8
/// bytes under the API secret.
pub fn sign(config: &ExchangeConfig, timestamp: i64, recv_window: &str, params: &str) -> (r: String)
    ensures
        r@ == hex_lower(
            hmac_sha256(
                encode_utf8(config.api_secret@),
                encode_utf8(sign_payload(config.api_key@, recv_window@, timestamp as int, params@)),
            ),
        ),
{
    let ts = chars_to_string(&i64_decimal(timestamp));
    let payload = config.api_key.clone().concat(recv_window).concat(ts.as_str()).concat(params);
    let tag = hmac_sha256_bytes(config.api_secret.as_str().as_bytes(), payload.as_str().as_bytes());
    hex_encode(tag.as_slice())
}

/// The kline interval code of each candle interval.
pub open spec fn interval_code_text(i: Interval) -> Seq<char> {
    match i {
        Interval::M1 => "1"@,
        Interval::M3 => "3"@,
        Interval::M5 => "5"@,
        Interval::M15 => "15"@,
        Interval::M30 => "30"@,
        Interval::H1 => "60"@,
        Interval::H4 => "240"@,
        Interval::D1 => "D"@,
        Interval::W1 => "W"@,
    }
}

/// The kline interval code of a candle interval.
pub fn interval_code(i: Interval) -> (r: &'static str)
    ensures
        r@ == interval_code_text(i),
{
    match i {
        Interval::M1 => "1",
        Interval::M3 => "3",
        Interval::M5 => "5",
        Interval::M15 => "15",
        Interval::M30 => "30",
        Interval::H1 => "60",
        Interval::H4 => "240",
        Interval::D1 => "D",
        Interval::W1 => "W",
    }
}

/// The order side code; a range side cannot be ordered.
pub fn side_code(side: Side) -> (r: Result<&'static str, FerrumError>)
    ensures
        side == Side::Buy ==> (r matches Ok(c) && c@ == "Buy"@),
        side == Side::Sell ==> (r matches Ok(c) && c@ == "Sell"@),
        side == Side::Range ==> (r matches Err(FerrumError::OrderError(m)) && m@
            == "Cannot place Range order"@),
{
    match side {
        Side::Buy => Ok("Buy"),
        Side::Sell => Ok("Sell"),
        Side::Range => Err(FerrumError::OrderError(String::from_str("Cannot place Range order"))),
    }
}

/// The order type code of each order type.
pub open spec fn order_type_code_text(t: OrderType) -> Seq<char> {
    match t {
        OrderType::Market => "Market"@,
        OrderType::Limit => "Limit"@,
        OrderType::StopMarket => "StopMarket"@,
        OrderType::TakeProfitMarket => "TakeProfitMarket"@,
    }
}

/// The order type code of an order type.
pub fn order_type_code(t: OrderType) -> (r: &'static str)
    ensures
        r@ == order_type_code_text(t),
{
    match t {
        OrderType::Market => "Market",
        OrderType::Limit => "Limit",
        OrderType::StopMarket => "StopMarket",
        OrderType::TakeProfitMarket => "TakeProfitMarket",
    }
}

/// Decides a V5 response by its return code: zero is success; any other
/// code is an exchange error that quotes the code and the message.
pub fn check_response(ret_code: i64, ret_msg: Option<&str>) -> (r: Result<(), FerrumError>)
    ensures
        ret_code == 0 ==> r is Ok,
        ret_code != 0 ==> (r matches Err(FerrumError::ExchangeError(m)) && m@ == "Bybit error "@
            + decimal_signed(ret_code as int) + ": "@ + (match ret_msg {
            Some(t) => t@,
            None => "Unknown error"@,
        })),
{
    if ret_code != 0 {
        let msg = match ret_msg {
            Some(t) => t,
            None => "Unknown error",
        };
        let code = chars_to_string(&i64_decimal(ret_code));
        return Err(
            FerrumError::ExchangeError(
                String::from_str("Bybit error ").concat(code.as_str()).concat(": ").concat(msg),
            ),
        );
    }
    Ok(())
}

/// The codes Bybit is sent: kline intervals `1`, `3`, `5`, `15`, `30`,
/// `60`, `240`, `D`, `W`; order types `Market`, `Limit`, `StopMarket`,
/// `TakeProfitMarket`.
pub proof fn law_bybit_codes()
    ensures
        interval_code_text(Interval::M1) == "1"@,
        interval_code_text(Interval::M3) == "3"@,
        interval_code_text(Interval::M5) == "5"@,
        interval_code_text(Interval::M15) == "15"@,
        interval_code_text(Interval::M30) == "30"@,
        interval_code_text(Interval::H1) == "60"@,
        interval_code_text(Interval::H4) == "240"@,
        interval_code_text(Interval::D1) == "D"@,
        interval_code_text(Interval::W1) == "W"@,
        order_type_code_text(OrderType::Market) == "Market"@,
        order_type_code_text(OrderType::Limit) == "Limit"@,
        order_type_code_text(OrderType::StopMarket) == "StopMarket"@,
        order_type_code_text(OrderType::TakeProfitMarket) == "TakeProfitMarket"@,
{
}

} // verus!
