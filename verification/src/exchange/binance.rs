//! Binance conventions.

use vstd::prelude::*;
use vstd::string::StringExecFns;
use crate::domain::types::{PairView, TradingPair};
use crate::exchange::symbols::{
    lemma_split_symbol_of_join, lemma_suffix_last_two, split_symbol, split_symbol_chars,
};
use crate::domain::config::ExchangeConfig;
use crate::domain::error::FerrumError;
use crate::domain::types::{Interval, OrderType, Side};
use crate::exchange::crypto::{hex_encode, hex_lower, hmac_sha256, hmac_sha256_bytes};
use crate::text::{chars_to_string, decimal_signed, i64_decimal, str_chars};
use vstd::utf8::encode_utf8;

verus! {

/// The quote assets Binance symbols are read against, in the order tried.
pub open spec fn binance_quotes() -> Seq<Seq<char>> {
    seq!["USDC"@, "USDT"@, "BTC"@, "ETH"@, "BNB"@, "BUSD"@]
}

/// Reading back a symbol written by `pair_to_symbol` gives the same pair,
/// whenever the quote is one of the known quotes, the base is non-empty and
/// the base does not itself end with the quote.
pub proof fn law_symbol_round_trip(p: PairView)
    requires
        binance_quotes().contains(p.quote),
        p.base.len() > 0,
        !p.quote.is_suffix_of(p.base),
    ensures
        split_symbol(p.base + p.quote, binance_quotes()) == Some(p),
{
    reveal_strlit("USDC");
    reveal_strlit("USDT");
    reveal_strlit("BTC");
    reveal_strlit("ETH");
    reveal_strlit("BNB");
    reveal_strlit("BUSD");
    assert("USDC"@ =~= seq!['U', 'S', 'D', 'C']);
    assert("USDT"@ =~= seq!['U', 'S', 'D', 'T']);
    assert("BTC"@ =~= seq!['B', 'T', 'C']);
    assert("ETH"@ =~= seq!['E', 'T', 'H']);
    assert("BNB"@ =~= seq!['B', 'N', 'B']);
    assert("BUSD"@ =~= seq!['B', 'U', 'S', 'D']);
    let qs = binance_quotes();
    assert forall|i: int| 0 <= i < qs.len() implies (#[trigger] qs[i]).len() > 0 by {}
    assert forall|i: int, j: int|
        0 <= i < qs.len() && 0 <= j < qs.len() && i != j implies !(#[trigger] qs[i]).is_suffix_of(
        #[trigger] qs[j],
    ) by {
        if qs[i].is_suffix_of(qs[j]) {
            lemma_suffix_last_two(qs[i], qs[j]);
        }
    }
    lemma_split_symbol_of_join(p.base, p.quote, qs);
}

/// A symbol made of a non-empty base followed by one of the quotes USDC,
/// USDT, BTC, ETH, BNB or BUSD reads back as that base and quote, whenever
/// the base does not itself end with the quote.
pub proof fn law_known_quotes_read_back(base: Seq<char>, quote: Seq<char>)
    requires
        quote == "USDC"@ || quote == "USDT"@ || quote == "BTC"@ || quote == "ETH"@ || quote == "BNB"@
            || quote == "BUSD"@,
        base.len() > 0,
        !quote.is_suffix_of(base),
    ensures
        split_symbol(base + quote, binance_quotes()) == Some(PairView { base, quote }),
{
    let qs = binance_quotes();
    if quote == "USDC"@ {
        assert(qs[0] == quote);
    } else if quote == "USDT"@ {
        assert(qs[1] == quote);
    } else if quote == "BTC"@ {
        assert(qs[2] == quote);
    } else if quote == "ETH"@ {
        assert(qs[3] == quote);
    } else if quote == "BNB"@ {
        assert(qs[4] == quote);
    } else {
        assert(qs[5] == quote);
    }
    law_symbol_round_trip(PairView { base, quote });
}

/// Convert a Binance symbol (`BTCUSDT`) to a trading pair.
pub fn symbol_to_pair(symbol: &str) -> (r: Option<TradingPair>)
    ensures
        match r {
            Some(p) => split_symbol(symbol@, binance_quotes()) == Some(p@),
            None => split_symbol(symbol@, binance_quotes()) is None,
        },
{
    let mut quotes: Vec<Vec<char>> = Vec::new();
    quotes.push(str_chars("USDC"));
    quotes.push(str_chars("USDT"));
    quotes.push(str_chars("BTC"));
    quotes.push(str_chars("ETH"));
    quotes.push(str_chars("BNB"));
    quotes.push(str_chars("BUSD"));
    assert(quotes@.map_values(|q: Vec<char>| q@) =~= binance_quotes());
    split_symbol_chars(&str_chars(symbol), &quotes)
}

/// Convert a trading pair to a Binance symbol: base then quote.
pub fn pair_to_symbol(pair: &TradingPair) -> (r: String)
    ensures
        r@ == pair.base@ + pair.quote@,
{
    pair.base.clone().concat(pair.quote.as_str())
}

/// The REST endpoint of the test network or of the main network.
pub fn base_url(testnet: bool) -> (r: String)
    ensures
        r@ == (if testnet {
            "https://testnet.binance.vision"@
        } else {
            "https://api.binance.com"@
        }),
{
    if testnet {
        String::from_str("https://testnet.binance.vision")
    } else {
        String::from_str("https://api.binance.com")
    }
}

/// The URL of an unsigned REST call: `{base}/api/v3/{endpoint}`, then
/// `?{params}` when there are parameters.
pub fn public_url(base_url: &str, endpoint: &str, params: &str) -> (r: String)
    ensures
        r@ == base_url@ + "/api/v3/"@ + endpoint@ + (if params@.len() == 0 {
            Seq::empty()
        } else {
            "?"@ + params@
        }),
{
    let head = String::from_str(base_url).concat("/api/v3/").concat(endpoint);
    if params.is_empty() {
        proof {
            assert(head@ + Seq::<char>::empty() =~= head@);
        }
        head
    } else {
        let r = head.concat("?").concat(params);
        proof {
            assert(r@ =~= base_url@ + "/api/v3/"@ + endpoint@ + ("?"@ + params@));
        }
        r
    }
}

/// The query that gets signed: the parameters followed by the request time.
pub open spec fn signed_query_text(params: Seq<char>, timestamp: int) -> Seq<char> {
    if params.len() == 0 {
        "timestamp="@ + decimal_signed(timestamp)
    } else {
        params + "&timestamp="@ + decimal_signed(timestamp)
    }
}

/// The query that gets signed, with the request time in milliseconds.
pub fn signed_query(params: &str, timestamp: i64) -> (r: String)
    ensures
        r@ == signed_query_text(params@, timestamp as int),
{
    let ts = chars_to_string(&i64_decimal(timestamp));
    if params.is_empty() {
        String::from_str("timestamp=").concat(ts.as_str())
    } else {
        String::from_str(params).concat("&timestamp=").concat(ts.as_str())
    }
}

/// The request signature: lower-case hex of the HMAC-SHA256 of the query's
/// UTF-8 bytes under the API secret.
pub open spec fn signature_text(secret: Seq<char>, query: Seq<char>) -> Seq<char> {
    hex_lower(hmac_sha256(encode_utf8(secret), encode_utf8(query)))
}

/// Sign a query with the configured API secret.
pub fn sign_request(config: &ExchangeConfig, query: &str) -> (r: String)
    ensures
        r@ == signature_text(config.api_secret@, query@),
{
    let tag = hmac_sha256_bytes(config.api_secret.as_str().as_bytes(), query.as_bytes());
    hex_encode(tag.as_slice())
}

/// The URL of a signed REST call:
/// `{base}/api/v3/{endpoint}?{query}&signature={signature}`, where the query
/// carries the request time and the signature covers the query.
pub fn signed_url(config: &ExchangeConfig, base_url: &str, endpoint: &str, params: &str, timestamp: i64) -> (r: String)
    ensures
        r@ == base_url@ + "/api/v3/"@ + endpoint@ + "?"@ + signed_query_text(params@, timestamp as int)
            + "&signature="@ + signature_text(config.api_secret@, signed_query_text(params@, timestamp as int)),
{
    let query = signed_query(params, timestamp);
    let signature = sign_request(config, query.as_str());
    String::from_str(base_url).concat("/api/v3/").concat(endpoint).concat("?").concat(
        query.as_str(),
    ).concat("&signature=").concat(signature.as_str())
}

/// The kline interval code of each candle interval.
pub open spec fn interval_code_text(i: Interval) -> Seq<char> {
    match i {
        Interval::M1 => "1m"@,
        Interval::M3 => "3m"@,
        Interval::M5 => "5m"@,
        Interval::M15 => "15m"@,
        Interval::M30 => "30m"@,
        Interval::H1 => "1h"@,
        Interval::H4 => "4h"@,
        Interval::D1 => "1d"@,
        Interval::W1 => "1w"@,
    }
}

/// The kline interval code of a candle interval.
pub fn interval_code(i: Interval) -> (r: &'static str)
    ensures
        r@ == interval_code_text(i),
{
    match i {
        Interval::M1 => "1m",
        Interval::M3 => "3m",
        Interval::M5 => "5m",
        Interval::M15 => "15m",
        Interval::M30 => "30m",
        Interval::H1 => "1h",
        Interval::H4 => "4h",
        Interval::D1 => "1d",
        Interval::W1 => "1w",
    }
}

/// The order side code; a range side cannot be ordered.
pub fn side_code(side: Side) -> (r: Result<&'static str, FerrumError>)
    ensures
        side == Side::Buy ==> (r matches Ok(c) && c@ == "BUY"@),
        side == Side::Sell ==> (r matches Ok(c) && c@ == "SELL"@),
        side == Side::Range ==> (r matches Err(FerrumError::OrderError(m)) && m@
            == "Cannot place Range order"@),
{
    match side {
        Side::Buy => Ok("BUY"),
        Side::Sell => Ok("SELL"),
        Side::Range => Err(FerrumError::OrderError(String::from_str("Cannot place Range order"))),
    }
}

/// The order type code of each order type.
pub open spec fn order_type_code_text(t: OrderType) -> Seq<char> {
    match t {
        OrderType::Market => "MARKET"@,
        OrderType::Limit => "LIMIT"@,
        OrderType::StopMarket => "STOP_MARKET"@,
        OrderType::TakeProfitMarket => "TAKE_PROFIT_MARKET"@,
    }
}

/// The order type code of an order type.
pub fn order_type_code(t: OrderType) -> (r: &'static str)
    ensures
        r@ == order_type_code_text(t),
{
    match t {
        OrderType::Market => "MARKET",
        OrderType::Limit => "LIMIT",
        OrderType::StopMarket => "STOP_MARKET",
        OrderType::TakeProfitMarket => "TAKE_PROFIT_MARKET",
    }
}

/// The parameters of a new order: symbol, side, type and quantity; then the
/// limit price with good-till-cancelled time in force, when there is a
/// price; then the client order id, when there is one.
pub open spec fn order_params_text(
    symbol: Seq<char>,
    side: Seq<char>,
    order_type: Seq<char>,
    quantity: Seq<char>,
    price: Option<Seq<char>>,
    client_order_id: Option<Seq<char>>,
) -> Seq<char> {
    "symbol="@ + symbol + "&side="@ + side + "&type="@ + order_type + "&quantity="@ + quantity + (
    match price {
        Some(p) => "&price="@ + p + "&timeInForce=GTC"@,
        None => Seq::empty(),
    }) + (match client_order_id {
        Some(id) => "&newClientOrderId="@ + id,
        None => Seq::empty(),
    })
}

/// The view of an optional text.
pub open spec fn opt_view(o: Option<&str>) -> Option<Seq<char>> {
    match o {
        Some(s) => Some(s@),
        None => None,
    }
}

/// The parameters of a new order, with the numbers already written out.
pub fn order_params(
    symbol: &str,
    side: &str,
    order_type: &str,
    quantity: &str,
    price: Option<&str>,
    client_order_id: Option<&str>,
) -> (r: String)
    ensures
        r@ == order_params_text(
            symbol@,
            side@,
            order_type@,
            quantity@,
            opt_view(price),
            opt_view(client_order_id),
        ),
{
    let mut r = String::from_str("symbol=").concat(symbol).concat("&side=").concat(side).concat(
        "&type=",
    ).concat(order_type).concat("&quantity=").concat(quantity);
    let ghost head = r@;
    match price {
        Some(p) => {
            r = r.concat("&price=").concat(p).concat("&timeInForce=GTC");
        },
        None => {},
    }
    let ghost mid = r@;
    match client_order_id {
        Some(id) => {
            r = r.concat("&newClientOrderId=").concat(id);
        },
        None => {},
    }
    proof {
        let pp: Seq<char> = match opt_view(price) {
            Some(p) => "&price="@ + p + "&timeInForce=GTC"@,
            None => Seq::empty(),
        };
        let cc: Seq<char> = match opt_view(client_order_id) {
            Some(id) => "&newClientOrderId="@ + id,
            None => Seq::empty(),
        };
        assert(mid =~= head + pp);
        assert(r@ =~= head + pp + cc);
    }
    r
}

/// The error for an order the exchange refused with a code.
pub fn order_error(code: &str, msg: Option<&str>) -> (r: FerrumError)
    ensures
        r matches FerrumError::OrderError(m) && m@ == "Binance error "@ + code@ + ": "@ + (
        match msg {
            Some(t) => t@,
            None => "Unknown error"@,
        }),
{
    let text = match msg {
        Some(t) => t,
        None => "Unknown error",
    };
    FerrumError::OrderError(String::from_str("Binance error ").concat(code).concat(": ").concat(text))
}

/// The codes Binance is sent: kline intervals `1m`, `3m`, `5m`, `15m`, `30m`,
/// `1h`, `4h`, `1d`, `1w`; order types `MARKET`, `LIMIT`, `STOP_MARKET`,
/// `TAKE_PROFIT_MARKET`.
pub proof fn law_binance_codes()
    ensures
        interval_code_text(Interval::M1) == "1m"@,
        interval_code_text(Interval::M3) == "3m"@,
        interval_code_text(Interval::M5) == "5m"@,
        interval_code_text(Interval::M15) == "15m"@,
        interval_code_text(Interval::M30) == "30m"@,
        interval_code_text(Interval::H1) == "1h"@,
        interval_code_text(Interval::H4) == "4h"@,
        interval_code_text(Interval::D1) == "1d"@,
        interval_code_text(Interval::W1) == "1w"@,
        order_type_code_text(OrderType::Market) == "MARKET"@,
        order_type_code_text(OrderType::Limit) == "LIMIT"@,
        order_type_code_text(OrderType::StopMarket) == "STOP_MARKET"@,
        order_type_code_text(OrderType::TakeProfitMarket) == "TAKE_PROFIT_MARKET"@,
{
}

/// The signed query carries the parameters first, then the request time:
/// it starts with the parameters (and a `&` when there are any) and ends
/// with `timestamp=` and the time in decimal.
pub proof fn law_signed_query_parts(params: Seq<char>, timestamp: int)
    ensures
        ({
            let q = signed_query_text(params, timestamp);
            let tail = "timestamp="@ + decimal_signed(timestamp);
            &&& q.len() >= tail.len()
            &&& q.skip(q.len() - tail.len()) == tail
            &&& params.len() > 0 ==> q.take(params.len() as int) == params && q[params.len() as int]
                == '&'
            &&& params.len() == 0 ==> q == tail
        }),
{
    reveal_strlit("&timestamp=");
    reveal_strlit("timestamp=");
    let q = signed_query_text(params, timestamp);
    let tail = "timestamp="@ + decimal_signed(timestamp);
    if params.len() > 0 {
        assert("&timestamp="@ =~= seq!['&'] + "timestamp="@);
        assert(q =~= params + seq!['&'] + tail);
        assert(q.take(params.len() as int) =~= params);
    }
    assert(q.skip(q.len() - tail.len()) =~= tail);
}

} // verus!
