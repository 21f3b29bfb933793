use ferrum::agent::definition::{read_frontmatter_fields, AgentDefinitionParser, FrontmatterFields};
use ferrum::agent::learnings::{LearningsStore, MAX_LEARNINGS};
use ferrum::domain::error::FerrumError;

#[test]
fn test_learnings_add_and_max() {
    let mut store = LearningsStore::new_in_memory();
    for i in 0..25 {
        store.add(format!("Learning {}", i));
    }
    assert_eq!(store.count(), MAX_LEARNINGS);
    // Should have kept the last 20
    assert_eq!(store.get_active()[0], "Learning 5");
}

#[test]
fn test_parse_learnings() {
    let content = "# Learnings\n\n- First insight\n- Second insight\nNot a learning\n";
    let parsed = LearningsStore::parse_learnings(content);
    assert_eq!(parsed.len(), 2);
}

#[test]
fn parse_learnings_trims_and_accepts_stars() {
    let parsed = LearningsStore::parse_learnings("  - a  \r\n* b\n-c\n- \n");
    assert_eq!(parsed, vec!["a".to_string(), "b".to_string()]);
}

#[test]
fn learnings_keep_newest_in_order() {
    let mut store = LearningsStore::new_in_memory();
    for i in 0..22 {
        store.add(format!("L{}", i));
    }
    let held: Vec<String> = store.get_active().to_vec();
    let expected: Vec<String> = (2..22).map(|i| format!("L{}", i)).collect();
    assert_eq!(held, expected);
    store.clear();
    assert_eq!(store.count(), 0);
    assert!(store.is_in_memory());
}

#[test]
fn learnings_persist_round_trip() {
    let mut store = LearningsStore::new_in_memory();
    store.add("Spreads widen at the open".to_string());
    store.add("Avoid thin books".to_string());
    let text = store.render();
    assert_eq!(text, "# Agent Learnings\n\n- Spreads widen at the open\n- Avoid thin books\n");
    let back = LearningsStore::loaded("learnings.md", &text);
    assert_eq!(back.get_active(), store.get_active());
    assert_eq!(back.path(), "learnings.md");
    assert!(!back.is_in_memory());
}

const AGENT_MD: &str = r#"---
name: grid-market-maker
tick_interval_secs: 30
connectors:
  - binance
trading_pair: BTC-USDT
spread_percentage: 0.5
limits:
  max_position_size_quote: 1000
  max_single_order_quote: 100
  max_daily_loss_quote: 50
  max_open_executors: 10
---

## Goal
Maintain a grid market making strategy on BTC-USDT

## Rules
- Place buy orders below mid price
- Place sell orders above mid price
- Never exceed 50 USDT daily loss
- Close all positions if drawdown exceeds 10%
"#;

#[test]
fn split_frontmatter_of_agent_file() {
    let (front, body) = AgentDefinitionParser::split_frontmatter(AGENT_MD).unwrap();
    assert!(front.starts_with("\nname: grid-market-maker\n"));
    assert!(front.ends_with("max_open_executors: 10\n"));
    assert!(body.starts_with("\n\n## Goal"));
}

#[test]
fn frontmatter_errors() {
    match AgentDefinitionParser::split_frontmatter("name: x") {
        Err(FerrumError::ConfigError(m)) => assert_eq!(m, "Missing YAML frontmatter"),
        other => panic!("unexpected {:?}", other),
    }
    match AgentDefinitionParser::split_frontmatter("  ---\nname: x\n") {
        Err(FerrumError::ConfigError(m)) => assert_eq!(m, "Unclosed YAML frontmatter"),
        other => panic!("unexpected {:?}", other),
    }
}

#[test]
fn markdown_body_goal_and_rules() {
    let (_, body) = AgentDefinitionParser::split_frontmatter(AGENT_MD).unwrap();
    let (goal, rules) = AgentDefinitionParser::parse_markdown_body(&body);
    assert_eq!(goal, "Maintain a grid market making strategy on BTC-USDT");
    assert_eq!(rules.len(), 4);
    assert_eq!(rules[3], "Close all positions if drawdown exceeds 10%");
}

#[test]
fn markdown_body_sections() {
    let body = "## Goal\n\nFirst\nSecond\n## Notes\n- ignored\n## Strategy Rules\n* a\n- - b\n-\n- \n## Goal\nThird\n";
    let (goal, rules) = AgentDefinitionParser::parse_markdown_body(body);
    assert_eq!(goal, "First");
    assert_eq!(rules, vec!["a".to_string(), "b".to_string()]);
}

fn fields(pair: Option<&str>) -> FrontmatterFields {
    FrontmatterFields {
        name: Some("grid-market-maker".to_string()),
        tick_interval_secs: Some(30),
        connectors: Some(vec![Some("binance".to_string()), None]),
        trading_pair: pair.map(|p| p.to_string()),
        grid_levels: Some(10),
        leverage: None,
    }
}

#[test]
fn resolve_config_reads_fields() {
    let c = AgentDefinitionParser::resolve_config(fields(Some("BTC-USDT"))).unwrap();
    assert_eq!(c.name, "grid-market-maker");
    assert_eq!(c.tick_interval_secs, 30);
    assert_eq!(c.connectors, vec!["binance".to_string()]);
    assert_eq!(c.trading_pair.to_string(), "BTC-USDT");
    assert_eq!(c.grid_levels, Some(10));
    assert_eq!(c.leverage, None);
}

#[test]
fn resolve_config_defaults() {
    let empty = FrontmatterFields {
        name: None,
        tick_interval_secs: None,
        connectors: None,
        trading_pair: None,
        grid_levels: None,
        leverage: None,
    };
    let c = AgentDefinitionParser::resolve_config(empty).unwrap();
    assert_eq!(c.name, "unnamed-agent");
    assert_eq!(c.tick_interval_secs, 60);
    assert!(c.connectors.is_empty());
    assert_eq!(c.trading_pair.to_string(), "BTC-USDT");
}

#[test]
fn resolve_config_bad_pair() {
    match AgentDefinitionParser::resolve_config(fields(Some("BTCUSDT"))) {
        Err(FerrumError::ConfigError(m)) => {
            assert_eq!(m, "Invalid trading_pair: InvalidTradingPair(\"BTCUSDT\")")
        }
        _ => panic!("expected a configuration error"),
    }
}

#[test]
fn test_parse_agent_md() {
    let (config, goal, rules) = AgentDefinitionParser::parse(AGENT_MD).unwrap();
    assert_eq!(config.name, "grid-market-maker");
    assert_eq!(config.tick_interval_secs, 30);
    assert_eq!(config.connectors, vec!["binance"]);
    assert_eq!(config.trading_pair.base, "BTC");
    assert_eq!(config.trading_pair.quote, "USDT");
    assert_eq!(goal, "Maintain a grid market making strategy on BTC-USDT");
    assert_eq!(rules.len(), 4);
    // The risk limits are floating point and are read outside the library;
    // the value they are read from is the frontmatter's.
    let (front, _) = AgentDefinitionParser::split_frontmatter(AGENT_MD).unwrap();
    let value: serde_yaml::Value = serde_yaml::from_str(&front).unwrap();
    assert_eq!(
        value.get("limits").and_then(|l| l.get("max_daily_loss_quote")).and_then(|v| v.as_f64()),
        Some(50.0)
    );
}

#[test]
fn parse_reports_each_error() {
    match AgentDefinitionParser::parse("name: x") {
        Err(FerrumError::ConfigError(m)) => assert_eq!(m, "Missing YAML frontmatter"),
        _ => panic!("expected a fence error"),
    }
    match AgentDefinitionParser::parse("---
name: [unclosed
---
body") {
        Err(FerrumError::ConfigError(m)) => assert!(m.starts_with("Invalid YAML frontmatter: ")),
        _ => panic!("expected a YAML error"),
    }
    match AgentDefinitionParser::parse("---
trading_pair: BTCUSDT
---
") {
        Err(FerrumError::ConfigError(m)) => {
            assert_eq!(m, "Invalid trading_pair: InvalidTradingPair(\"BTCUSDT\")")
        }
        _ => panic!("expected a pair error"),
    }
}

#[test]
fn read_frontmatter_fields_by_kind() {
    let f = read_frontmatter_fields("name: a\ntick_interval_secs: x\nconnectors: [okx, 3]\nleverage: 5\n").unwrap();
    assert_eq!(f.name, Some("a".to_string()));
    assert_eq!(f.tick_interval_secs, None);
    assert_eq!(f.connectors, Some(vec![Some("okx".to_string()), None]));
    assert_eq!(f.trading_pair, None);
    assert_eq!(f.leverage, Some(5));
}

#[test]
fn loaded_store_keeps_newest_twenty() {
    let mut content = String::from("# Learnings\n");
    for i in 0..25 {
        content.push_str(&format!("- L{}\n", i));
    }
    let store = LearningsStore::loaded("learnings.md", &content);
    assert_eq!(store.count(), MAX_LEARNINGS);
    assert_eq!(store.get_active()[0], "L5");
    assert_eq!(store.get_active()[19], "L24");
}
