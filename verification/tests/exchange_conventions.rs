use ferrum::domain::config::ExchangeConfig;
use ferrum::domain::error::FerrumError;
use ferrum::domain::types::{Interval, OrderType, Side, TradingPair};
use ferrum::exchange::shared::ExchangeHttpClient;
use ferrum::exchange::{binance, bybit, hyperliquid, okx, registry};

fn config(key: &str, secret: &str) -> ExchangeConfig {
    ExchangeConfig {
        name: "test".into(),
        api_key: key.into(),
        api_secret: secret.into(),
        passphrase: None,
        testnet: false,
    }
}

#[test]
fn test_symbol_to_pair() {
    let pair = binance::symbol_to_pair("BTCUSDT").unwrap();
    assert_eq!(pair.base, "BTC");
    assert_eq!(pair.quote, "USDT");
}

#[test]
fn test_pair_to_symbol() {
    let pair = TradingPair::new("ETH", "USDT");
    assert_eq!(binance::pair_to_symbol(&pair), "ETHUSDT");
}

#[test]
fn binance_symbol_edge_cases() {
    assert!(binance::symbol_to_pair("USDT").is_none());
    assert!(binance::symbol_to_pair("XYZ").is_none());
    let p = binance::symbol_to_pair("ETHBTC").unwrap();
    assert_eq!((p.base.as_str(), p.quote.as_str()), ("ETH", "BTC"));
    // Every trailing repetition of the quote is removed.
    let p = binance::symbol_to_pair("AUSDTUSDT").unwrap();
    assert_eq!((p.base.as_str(), p.quote.as_str()), ("A", "USDT"));
    // A quote that would leave no base gives way to the next one.
    let p = binance::symbol_to_pair("BNBBUSD").unwrap();
    assert_eq!((p.base.as_str(), p.quote.as_str()), ("BNB", "BUSD"));
}

#[test]
fn bybit_symbols() {
    let p = bybit::symbol_to_pair("BTCUSD").unwrap();
    assert_eq!((p.base.as_str(), p.quote.as_str()), ("BTC", "USD"));
    assert_eq!(bybit::pair_to_symbol(&TradingPair::new("SOL", "USDC")), "SOLUSDC");
    assert!(bybit::symbol_to_pair("BNB").is_none());
}

#[test]
fn okx_instrument_ids() {
    let pair = TradingPair::new("BTC", "USDT");
    assert_eq!(okx::pair_to_inst_id(&pair), "BTC-USDT");
    let p = okx::inst_id_to_pair("BTC-USDT-SWAP").unwrap();
    assert_eq!((p.base.as_str(), p.quote.as_str()), ("BTC", "USDT"));
    assert!(okx::inst_id_to_pair("BTCUSDT").is_none());
}

#[test]
fn hyperliquid_coins() {
    let pair = TradingPair::new("ETH", "USDC");
    assert_eq!(hyperliquid::pair_to_coin(&pair), "ETH");
    let back = hyperliquid::coin_to_pair("ETH", "USDC");
    assert!(back.same_as(&pair));
}

#[test]
fn test_sanitize_url_with_api_key() {
    let client = ExchangeHttpClient::new("https://api.binance.com".to_string());
    let url = "https://api.binance.com/api/v3/order?symbol=BTCUSDT&apiKey=mySecretKey123&timestamp=12345&signature=abc";
    let sanitized = client.sanitize_url(url);
    assert!(!sanitized.contains("mySecretKey123"));
    assert!(!sanitized.contains("abc"));
    assert!(sanitized.contains("apiKey=***"));
    assert!(sanitized.contains("signature=***"));
    assert!(sanitized.contains("symbol=BTCUSDT"));
}

#[test]
fn test_sanitize_url_no_params() {
    let client = ExchangeHttpClient::new("https://api.binance.com".to_string());
    let url = "https://api.binance.com/api/v3/time";
    let sanitized = client.sanitize_url(url);
    assert_eq!(sanitized, url);
}

#[test]
fn test_build_url() {
    let client = ExchangeHttpClient::new("https://api.binance.com".to_string());
    assert_eq!(client.build_url("/api/v3/time", ""), "https://api.binance.com/api/v3/time");
    assert_eq!(client.build_url("/api/v3/time", "a=1"), "https://api.binance.com/api/v3/time?a=1");
}

#[test]
fn sanitize_url_exact_output() {
    let client = ExchangeHttpClient::new("https://x".to_string());
    assert_eq!(
        client.sanitize_url("https://x/p?api_key=k&flag&timestamp=1&a=b=c"),
        "https://x/p?api_key=***&flag&timestamp=***&a=b=c"
    );
    assert_eq!(client.sanitize_url("https://x/p?"), "https://x/p?");
    assert_eq!(client.base_url(), "https://x");
}

#[test]
fn binance_signature_known_vector() {
    let c = config("k", "key");
    assert_eq!(
        binance::sign_request(&c, "The quick brown fox jumps over the lazy dog"),
        "f7bc83f430538424b13298e6aa6fb143ef4d59a14946175997479dbc2d1a3cd8"
    );
}

#[test]
fn binance_signed_url() {
    let c = config("k", "secret");
    assert_eq!(binance::signed_query("", 5), "timestamp=5");
    assert_eq!(binance::signed_query("a=1", -7), "a=1&timestamp=-7");
    assert_eq!(
        binance::signed_url(&c, "https://api.binance.com", "order", "symbol=BTCUSDT", 1700000000000),
        "https://api.binance.com/api/v3/order?symbol=BTCUSDT&timestamp=1700000000000&signature=6244d11c958f45ac56733152cb3cb1831d23a2b3709b3a88b8b42a072aceb410"
    );
    assert_eq!(binance::public_url("https://b", "ping", ""), "https://b/api/v3/ping");
    assert_eq!(binance::public_url("https://b", "depth", "limit=5"), "https://b/api/v3/depth?limit=5");
}

#[test]
fn binance_wire_codes() {
    assert_eq!(binance::base_url(true), "https://testnet.binance.vision");
    assert_eq!(binance::base_url(false), "https://api.binance.com");
    assert_eq!(binance::interval_code(Interval::H4), "4h");
    assert_eq!(binance::side_code(Side::Sell).unwrap(), "SELL");
    match binance::side_code(Side::Range) {
        Err(FerrumError::OrderError(m)) => assert_eq!(m, "Cannot place Range order"),
        other => panic!("unexpected {:?}", other),
    }
    assert_eq!(binance::order_type_code(OrderType::TakeProfitMarket), "TAKE_PROFIT_MARKET");
    assert_eq!(
        binance::order_params("BTCUSDT", "BUY", "LIMIT", "0.5", Some("100"), Some("c1")),
        "symbol=BTCUSDT&side=BUY&type=LIMIT&quantity=0.5&price=100&timeInForce=GTC&newClientOrderId=c1"
    );
    assert_eq!(
        binance::order_params("BTCUSDT", "SELL", "MARKET", "1", None, None),
        "symbol=BTCUSDT&side=SELL&type=MARKET&quantity=1"
    );
    match binance::order_error("-2010", None) {
        FerrumError::OrderError(m) => assert_eq!(m, "Binance error -2010: Unknown error"),
        other => panic!("unexpected {:?}", other),
    }
}

#[test]
fn bybit_signature_and_checks() {
    let c = config("myKey", "secret");
    assert_eq!(
        bybit::sign(&c, 1700000000000, bybit::recv_window(), "category=spot"),
        "6f0e019e2f067995b3ab66766c33c0e3c74917d0a707c8be3dccc97acc2996e1"
    );
    assert!(bybit::check_response(0, None).is_ok());
    match bybit::check_response(10001, Some("bad param")) {
        Err(FerrumError::ExchangeError(m)) => assert_eq!(m, "Bybit error 10001: bad param"),
        other => panic!("unexpected {:?}", other),
    }
    assert_eq!(bybit::interval_code(Interval::D1), "D");
    assert_eq!(bybit::side_code(Side::Buy).unwrap(), "Buy");
    assert_eq!(bybit::order_type_code(OrderType::StopMarket), "StopMarket");
    assert_eq!(bybit::base_url(true), "https://api-testnet.bybit.com");
}

#[test]
fn okx_signature_and_checks() {
    let c = config("k", "secret");
    assert_eq!(
        okx::sign(&c, "2024-01-01T00:00:00.000Z", "GET", "/api/v5/account/balance", ""),
        "dfI+ViVVBgfRPWcGyH3gM3bM/DTyiqUqZys/Y9UbsFQ="
    );
    assert_eq!(okx::get_request_path("/a", "x=1"), "/a?x=1");
    assert_eq!(okx::get_request_path("/a", ""), "/a");
    assert_eq!(okx::passphrase(&c), "");
    assert!(okx::check_response(None, None).is_ok());
    assert!(okx::check_response(Some("0"), None).is_ok());
    match okx::check_response(Some("51000"), None) {
        Err(FerrumError::ExchangeError(m)) => assert_eq!(m, "OKX error 51000: Unknown error"),
        other => panic!("unexpected {:?}", other),
    }
    assert_eq!(okx::bar_code(Interval::H1), "1H");
    assert_eq!(okx::ord_type_code(OrderType::TakeProfitMarket), "move_order_stop");
}

#[test]
fn hyperliquid_wire_rules() {
    assert_eq!(hyperliquid::is_buy(Side::Buy).unwrap(), true);
    assert_eq!(hyperliquid::is_buy(Side::Sell).unwrap(), false);
    assert!(hyperliquid::is_buy(Side::Range).is_err());
    assert_eq!(hyperliquid::time_in_force(OrderType::Market).unwrap(), "ioc");
    match hyperliquid::time_in_force(OrderType::StopMarket) {
        Err(FerrumError::OrderError(m)) => assert_eq!(m, "Hyperliquid: unsupported order type"),
        other => panic!("unexpected {:?}", other),
    }
    assert!(hyperliquid::check_response(Some("ok"), None).is_ok());
    match hyperliquid::check_response(Some("err"), Some("nope")) {
        Err(FerrumError::ExchangeError(m)) => assert_eq!(m, "Hyperliquid error: nope"),
        other => panic!("unexpected {:?}", other),
    }
    let universe = vec![Some("BTC".to_string()), None, Some("ETH".to_string())];
    assert_eq!(hyperliquid::resolve_asset_index(&universe, "ETH"), 2);
    assert_eq!(hyperliquid::resolve_asset_index(&universe, "SOL"), 0);
    assert_eq!(hyperliquid::resolution_code(Interval::W1), "W");
}

#[test]
fn registry_knows_binance_only() {
    assert!(registry::check_known_exchange("binance").is_ok());
    match registry::check_known_exchange("kraken") {
        Err(FerrumError::ExchangeError(m)) => assert_eq!(m, "Unknown exchange: kraken"),
        other => panic!("unexpected {:?}", other),
    }
}
