use ferrum::domain::config::FerrumConfig;
use ferrum::domain::error::{FerrumError, RiskBlock};
use ferrum::domain::types::{ExecutorId, Interval, TradingPair};

#[test]
fn test_trading_pair_from_dash() {
    let pair = TradingPair::from_dash("BTC-USDT").unwrap();
    assert_eq!(pair.base, "BTC");
    assert_eq!(pair.quote, "USDT");
    assert_eq!(pair.to_string(), "BTC-USDT");
}

#[test]
fn test_trading_pair_invalid() {
    assert!(TradingPair::from_dash("INVALID").is_err());
}

#[test]
fn test_interval_seconds() {
    assert_eq!(Interval::M5.to_seconds(), 300);
    assert_eq!(Interval::H1.to_seconds(), 3600);
    assert_eq!(Interval::D1.to_seconds(), 86400);
}

#[test]
fn interval_seconds_all() {
    let expected = [
        (Interval::M1, 60),
        (Interval::M3, 180),
        (Interval::M15, 900),
        (Interval::M30, 1800),
        (Interval::H4, 14400),
        (Interval::W1, 604800),
    ];
    for (i, s) in expected {
        assert_eq!(i.to_seconds(), s);
    }
}

#[test]
fn from_dash_rejects_two_dashes_and_keeps_text() {
    match TradingPair::from_dash("A-B-C") {
        Err(FerrumError::InvalidTradingPair(m)) => assert_eq!(m, "A-B-C"),
        other => panic!("unexpected {:?}", other),
    }
}

#[test]
fn from_dash_keeps_empty_sides() {
    let p = TradingPair::from_dash("-USDT").unwrap();
    assert_eq!(p.base, "");
    assert_eq!(p.quote, "USDT");
}

#[test]
fn dash_round_trip_on_values() {
    let p = TradingPair::new("ETH", "BTC");
    let q = TradingPair::from_dash(&p.to_string()).unwrap();
    assert!(p.same_as(&q));
}

#[test]
fn pair_symbol_uses_slash() {
    assert_eq!(TradingPair::new("BTC", "USDT").symbol(), "BTC/USDT");
}

#[test]
fn executor_id_inner() {
    let id = ExecutorId("abc-123".to_string());
    assert_eq!(id.inner(), "abc-123");
}

#[test]
fn error_messages() {
    assert_eq!(FerrumError::InvalidTradingPair("X".into()).message(), "Invalid trading pair: X");
    assert_eq!(FerrumError::AuthError("bad".into()).message(), "Authentication error: bad");
    assert_eq!(FerrumError::Internal("plain".into()).message(), "plain");
    assert_eq!(RiskBlock::TooManyExecutors.message(), "Too many open executors");
    assert_eq!(RiskBlock::AgentBlocked("kill".into()).message(), "Agent is blocked: kill");
}

#[test]
fn ferrum_config_default() {
    let c = FerrumConfig::default();
    assert_eq!(c.database_path, "ferrum.db");
    assert_eq!(c.log_level, "info");
    assert_eq!(c.api_port, 8080);
    assert!(c.exchanges.is_empty());
}
