use ferrum::api::CreateAgentRequest;
use ferrum::backtest::{rsi_has_window, rsi_signal, AverageCross, SmaCrossoverStrategy, TradeSignal};
use ferrum::dashboard::{AgentStatus, DashboardConfig};
use ferrum::domain::error::FerrumError;
use ferrum::domain::types::{CloseType, ExecutorStatus, ExecutorType};
use ferrum::executors::factory::ExecutorFactory;
use ferrum::executors::lifecycle::{
    is_open, on_exit, on_order_tick, on_price, on_stop, reported_close_type, LifecycleEvent,
};
use ferrum::executors::triple_barrier::BarrierResult;
use ferrum::local_llm::{build_chat_prompt, limit_words, offline_complete, offline_inference};
use ferrum::mcp::{McpMethod, McpServer};
use ferrum::paper::PaperOrderStatus;

#[test]
fn test_dashboard_config_default() {
    let config = DashboardConfig::default();
    assert_eq!(config.port, 8080);
}

#[test]
fn dashboard_address() {
    let config = DashboardConfig::default();
    assert_eq!(config.address(), "0.0.0.0:8080");
    let status = AgentStatus {
        id: "a".into(),
        role: "analyst".into(),
        status: "running".into(),
        messages_processed: 1,
        events_processed: 2,
        last_activity: None,
    };
    assert_eq!(status.events_processed, 2);
}

#[test]
fn position_lifecycle() {
    let (s, e) = on_price(ExecutorStatus::Created, true);
    assert_eq!(s, ExecutorStatus::Active);
    assert_eq!(e, Some(LifecycleEvent::Activated));
    let (s2, e2) = on_exit(s, BarrierResult::StopLoss.close_type());
    assert_eq!(s2, ExecutorStatus::Terminated(CloseType::StopLoss));
    assert_eq!(e2, Some(LifecycleEvent::Terminated(CloseType::StopLoss)));
    assert_eq!(on_price(s2, true), (s2, None));
    assert_eq!(on_exit(s2, Some(CloseType::TakeProfit)), (s2, None));
    assert_eq!(on_price(ExecutorStatus::Created, false), (ExecutorStatus::Created, None));
    assert_eq!(BarrierResult::Active.close_type(), None);
    assert_eq!(reported_close_type(s2), Some(CloseType::StopLoss));
    assert!(!is_open(s2));
    assert!(is_open(ExecutorStatus::Created));
}

#[test]
fn order_lifecycle_and_stop() {
    assert_eq!(
        on_order_tick(ExecutorStatus::Created, true, true, true),
        (ExecutorStatus::Terminated(CloseType::TakeProfit), Some(LifecycleEvent::Activated), true)
    );
    assert_eq!(
        on_order_tick(ExecutorStatus::Created, true, false, true),
        (ExecutorStatus::Active, Some(LifecycleEvent::Activated), false)
    );
    assert_eq!(on_order_tick(ExecutorStatus::Created, false, true, true), (ExecutorStatus::Created, None, false));
    assert_eq!(on_stop(ExecutorStatus::Created), ExecutorStatus::Terminated(CloseType::EarlyStop));
}

#[test]
fn factory_rules() {
    assert!(ExecutorFactory::check_supported(ExecutorType::Grid).is_ok());
    match ExecutorFactory::check_supported(ExecutorType::Lp) {
        Err(FerrumError::Internal(m)) => assert_eq!(m, "LPExecutor not yet implemented"),
        other => panic!("unexpected {:?}", other),
    }
    match ExecutorFactory::not_a_create_action() {
        FerrumError::Internal(m) => assert_eq!(m, "Cannot create executor from non-Create action"),
        other => panic!("unexpected {:?}", other),
    }
    assert!(ExecutorFactory::keep_position(ExecutorType::Grid, None));
    assert!(!ExecutorFactory::keep_position(ExecutorType::Position, None));
    assert!(ExecutorFactory::keep_position(ExecutorType::Position, Some(true)));
    assert!(ExecutorFactory::keep_position(ExecutorType::Order, None));
    assert!(ExecutorFactory::keep_position(ExecutorType::Order, Some(false)));
    assert!(!ExecutorFactory::keep_position(ExecutorType::Grid, Some(false)));
    assert_eq!(ExecutorFactory::grid_levels(None), 5);
    assert_eq!(ExecutorFactory::grid_levels(Some((1u64 << 32) + 3)), 3);
    assert_eq!(ExecutorFactory::leverage(Some(10)), Some(10));
    assert_eq!(ExecutorFactory::leverage(None), None);
}

#[test]
fn strategy_signals() {
    let s = SmaCrossoverStrategy::new(3, 5);
    assert_eq!((s.fast_period, s.slow_period), (3, 5));
    assert!(SmaCrossoverStrategy::has_window(5, 5));
    assert!(!SmaCrossoverStrategy::has_window(4, 5));
    assert_eq!(SmaCrossoverStrategy::signal(false, Some(AverageCross::FastAbove)), TradeSignal::Buy);
    assert_eq!(SmaCrossoverStrategy::signal(true, Some(AverageCross::FastBelow)), TradeSignal::ClosePosition);
    assert_eq!(SmaCrossoverStrategy::signal(true, Some(AverageCross::FastAbove)), TradeSignal::Hold);
    assert_eq!(SmaCrossoverStrategy::signal(false, None), TradeSignal::Hold);
    assert_eq!(rsi_signal(false, true, false, true), TradeSignal::Buy);
    assert_eq!(rsi_signal(true, true, true, false), TradeSignal::ClosePosition);
    assert_eq!(rsi_signal(false, false, false, true), TradeSignal::Hold);
    assert!(rsi_has_window(15, 14));
    assert!(!rsi_has_window(14, 14));
}

#[test]
fn mcp_dispatch() {
    let server = McpServer::new(8081);
    assert_eq!(server.port(), 8081);
    assert_eq!(McpServer::dispatch("tools/list").unwrap(), McpMethod::ToolsList);
    assert_eq!(McpServer::dispatch("initialize").unwrap(), McpMethod::Initialize);
    let err = McpServer::dispatch("nope").unwrap_err();
    assert_eq!(err.code, -32601);
    assert_eq!(err.message, "Method not found: nope");
}

#[test]
fn local_provider_text() {
    let p = build_chat_prompt(&vec![
        ("system".to_string(), "You are a trading assistant".to_string()),
        ("user".to_string(), "What is BTC price?".to_string()),
    ]);
    assert_eq!(p, "<|system|>\nYou are a trading assistant\n<|user|>\nWhat is BTC price?\n<|assistant|>\n");
    assert!(offline_inference("Should I BUY now?").starts_with("Based on my analysis"));
    assert!(offline_inference("time to short").starts_with("The market is showing"));
    assert!(offline_inference("Analyze MARKET").starts_with("Market Analysis Summary:\n- Trend"));
    assert!(offline_inference("hello").starts_with("I'm running locally"));
    assert_eq!(limit_words("  a  b\tc\n d ", 3), "a b c");
    assert_eq!(limit_words("a b", 0), "");
    assert_eq!(offline_complete("hello", 2), "I'm running");
}

#[test]
fn plain_records() {
    let r = CreateAgentRequest { name: "n".into(), agent_md: "---\n---".into() };
    assert_eq!(r.name, "n");
    assert_ne!(PaperOrderStatus::Pending, PaperOrderStatus::Filled);
}
