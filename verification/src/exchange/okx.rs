//! OKX conventions.

use vstd::prelude::*;
use vstd::string::StringExecFns;
use crate::domain::types::{PairView, TradingPair};
use crate::domain::config::ExchangeConfig;
use crate::domain::error::FerrumError;
use crate::domain::types::{Interval, OrderType, Side};
use crate::exchange::crypto::{base64_encode, base64_standard, hmac_sha256, hmac_sha256_bytes};
use vstd::utf8::encode_utf8;
use crate::text::{
    chars_to_string, lemma_split_on_join, lemma_split_on_no_sep, split_chars, split_on, str_chars,
    views,
};

verus! {

/// The pair named by an OKX instrument id: its first two `'-'`-separated
/// pieces, when there are at least two.
pub open spec fn inst_id_pair(inst_id: Seq<char>) -> Option<PairView> {
    let parts = split_on(inst_id, '-');
    if parts.len() >= 2 {
        Some(PairView { base: parts[0], quote: parts[1] })
    } else {
        None
    }
}

/// Reading back an instrument id written by `pair_to_inst_id` gives the same
/// pair, whenever neither asset name holds a `'-'`.
pub proof fn law_inst_id_round_trip(p: PairView)
    requires
        !p.base.contains('-'),
        !p.quote.contains('-'),
    ensures
        inst_id_pair(p.base + "-"@ + p.quote) == Some(p),
{
    reveal_strlit("-");
    assert("-"@ =~= seq!['-']);
    lemma_split_on_join(p.base, p.quote, '-');
    lemma_split_on_no_sep(p.base, '-');
    lemma_split_on_no_sep(p.quote, '-');
    assert(split_on(p.base + "-"@ + p.quote, '-') =~= seq![p.base, p.quote]);
}

/// Convert a trading pair to an OKX instrument id (`BTC-USDT`).
pub fn pair_to_inst_id(pair: &TradingPair) -> (r: String)
    ensures
        r@ == pair.base@ + "-"@ + pair.quote@,
{
    pair.base.clone().concat("-").concat(pair.quote.as_str())
}

/// Convert an OKX instrument id to a trading pair.
pub fn inst_id_to_pair(inst_id: &str) -> (r: Option<TradingPair>)
    ensures
        match r {
            Some(p) => inst_id_pair(inst_id@) == Some(p@),
            None => inst_id_pair(inst_id@) is None,
        },
{
    let parts = split_chars(&str_chars(inst_id), '-');
    if parts.len() >= 2 {
        assert(views(parts@)[0] == parts@[0]@ && views(parts@)[1] == parts@[1]@);
        Some(TradingPair { base: chars_to_string(&parts[0]), quote: chars_to_string(&parts[1]) })
    } else {
        None
    }
}

/// The REST endpoint; the test network is reached through the same host,
/// with simulated trading requested by a header.
pub fn base_url(testnet: bool) -> (r: String)
    ensures
        r@ == "https://www.okx.com"@,
{
    String::from_str("https://www.okx.com")
}

/// What a V5 signature covers: timestamp, method, request path, then body.
pub open spec fn sign_message(timestamp: Seq<char>, method: Seq<char>, request_path: Seq<char>, body: Seq<char>) -> Seq<char> {
    timestamp + method + request_path + body
}

/// The signed message is the timestamp, the method, the request path and the
/// body, one after another: each part stands in its place and the message
/// ends with the body, so two requests that differ only in one part are
/// signed over different messages.
pub proof fn law_sign_message_parts(
    timestamp: Seq<char>,
    method: Seq<char>,
    request_path: Seq<char>,
    body: Seq<char>,
    other_body: Seq<char>,
)
    ensures
        ({
            let m = sign_message(timestamp, method, request_path, body);
            let a = timestamp.len() as int;
            let b = a + method.len();
            let c = b + request_path.len();
            &&& m.len() == c + body.len()
            &&& m.take(a) == timestamp
            &&& m.subrange(a, b) == method
            &&& m.subrange(b, c) == request_path
            &&& m.skip(c) == body
        }),
        body != other_body ==> sign_message(timestamp, method, request_path, body) != sign_message(
            timestamp,
            method,
            request_path,
            other_body,
        ),
{
    let m = sign_message(timestamp, method, request_path, body);
    let a = timestamp.len() as int;
    let b = a + method.len();
    let c = b + request_path.len();
    assert(m.take(a) =~= timestamp);
    assert(m.subrange(a, b) =~= method);
    assert(m.subrange(b, c) =~= request_path);
    assert(m.skip(c) =~= body);
    let m2 = sign_message(timestamp, method, request_path, other_body);
    assert(m2.skip(c) =~= other_body);
}

/// The V5 signature: standard base64 of the HMAC-SHA256 of the message's
/// UTF-8 bytes under the API secret.
pub fn sign(config: &ExchangeConfig, timestamp: &str, method: &str, request_path: &str, body: &str) -> (r: String)
    ensures
        r@ == base64_standard(
            hmac_sha256(
                encode_utf8(config.api_secret@),
                encode_utf8(sign_message(timestamp@, method@, request_path@, body@)),
            ),
        ),
{
    let message = String::from_str(timestamp).concat(method).concat(request_path).concat(body);
    let tag = hmac_sha256_bytes(config.api_secret.as_str().as_bytes(), message.as_str().as_bytes());
    base64_encode(tag.as_slice())
}

/// The configured passphrase, or nothing.
pub fn passphrase(config: &ExchangeConfig) -> (r: String)
    ensures
        r@ == (match config.passphrase {
            Some(p) => p@,
            None => Seq::empty(),
        }),
{
    match &config.passphrase {
        Some(p) => p.clone(),
        None => String::new(),
    }
}

/// The request path a GET signature covers: the endpoint with its query.
pub fn get_request_path(endpoint: &str, params: &str) -> (r: String)
    ensures
        r@ == (if params@.len() == 0 {
            endpoint@
        } else {
            endpoint@ + "?"@ + params@
        }),
{
    if params.is_empty() {
        String::from_str(endpoint)
    } else {
        String::from_str(endpoint).concat("?").concat(params)
    }
}

/// The candle bar code of each candle interval.
pub open spec fn bar_code_text(i: Interval) -> Seq<char> {
    match i {
        Interval::M1 => "1m"@,
        Interval::M3 => "3m"@,
        Interval::M5 => "5m"@,
        Interval::M15 => "15m"@,
        Interval::M30 => "30m"@,
        Interval::H1 => "1H"@,
        Interval::H4 => "4H"@,
        Interval::D1 => "1D"@,
        Interval::W1 => "1W"@,
    }
}

/// The candle bar code of a candle interval.
pub fn bar_code(i: Interval) -> (r: &'static str)
    ensures
        r@ == bar_code_text(i),
{
    match i {
        Interval::M1 => "1m",
        Interval::M3 => "3m",
        Interval::M5 => "5m",
        Interval::M15 => "15m",
        Interval::M30 => "30m",
        Interval::H1 => "1H",
        Interval::H4 => "4H",
        Interval::D1 => "1D",
        Interval::W1 => "1W",
    }
}

/// The order side code; a range side cannot be ordered.
pub fn side_code(side: Side) -> (r: Result<&'static str, FerrumError>)
    ensures
        side == Side::Buy ==> (r matches Ok(c) && c@ == "buy"@),
        side == Side::Sell ==> (r matches Ok(c) && c@ == "sell"@),
        side == Side::Range ==> (r matches Err(FerrumError::OrderError(m)) && m@
            == "Cannot place Range order"@),
{
    match side {
        Side::Buy => Ok("buy"),
        Side::Sell => Ok("sell"),
        Side::Range => Err(FerrumError::OrderError(String::from_str("Cannot place Range order"))),
    }
}

/// The order type code of each order type.
pub open spec fn ord_type_code_text(t: OrderType) -> Seq<char> {
    match t {
        OrderType::Market => "market"@,
        OrderType::Limit => "limit"@,
        OrderType::StopMarket => "stop"@,
        OrderType::TakeProfitMarket => "move_order_stop"@,
    }
}

/// The order type code of an order type.
pub fn ord_type_code(t: OrderType) -> (r: &'static str)
    ensures
        r@ == ord_type_code_text(t),
{
    match t {
        OrderType::Market => "market",
        OrderType::Limit => "limit",
        OrderType::StopMarket => "stop",
        OrderType::TakeProfitMarket => "move_order_stop",
    }
}

/// Decides a V5 response by its code (`"0"` when absent): `"0"` is success;
/// any other code is an exchange error that quotes the code and the message.
pub fn check_response(code: Option<&str>, msg: Option<&str>) -> (r: Result<(), FerrumError>)
    ensures
        ({
            let c = match code {
                Some(c) => c@,
                None => "0"@,
            };
            &&& c == "0"@ ==> r is Ok
            &&& c != "0"@ ==> (r matches Err(FerrumError::ExchangeError(m)) && m@ == "OKX error "@ + c
                + ": "@ + (match msg {
                Some(t) => t@,
                None => "Unknown error"@,
            }))
        }),
{
    let c = match code {
        Some(c) => c,
        None => "0",
    };
    let cv = str_chars(c);
    let zero = str_chars("0");
    if !crate::text::chars_eq(&cv, &zero) {
        let m = match msg {
            Some(t) => t,
            None => "Unknown error",
        };
        return Err(
            FerrumError::ExchangeError(
                String::from_str("OKX error ").concat(c).concat(": ").concat(m),
            ),
        );
    }
    Ok(())
}

/// The codes OKX is sent: candle bars `1m`, `3m`, `5m`, `15m`, `30m`, `1H`,
/// `4H`, `1D`, `1W`; order types `market`, `limit`, `stop`,
/// `move_order_stop`.
pub proof fn law_okx_codes()
    ensures
        bar_code_text(Interval::M1) == "1m"@,
        bar_code_text(Interval::M3) == "3m"@,
        bar_code_text(Interval::M5) == "5m"@,
        bar_code_text(Interval::M15) == "15m"@,
        bar_code_text(Interval::M30) == "30m"@,
        bar_code_text(Interval::H1) == "1H"@,
        bar_code_text(Interval::H4) == "4H"@,
        bar_code_text(Interval::D1) == "1D"@,
        bar_code_text(Interval::W1) == "1W"@,
        ord_type_code_text(OrderType::Market) == "market"@,
        ord_type_code_text(OrderType::Limit) == "limit"@,
        ord_type_code_text(OrderType::StopMarket) == "stop"@,
        ord_type_code_text(OrderType::TakeProfitMarket) == "move_order_stop"@,
{
}

} // verus!
