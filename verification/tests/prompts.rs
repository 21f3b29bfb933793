use ferrum::llm::PromptBuilder;

#[test]
fn learnings_section_numbers_from_one() {
    let ls = vec!["Avoid thin books".to_string(), "Scale in slowly".to_string()];
    assert_eq!(
        PromptBuilder::learnings_section(&ls),
        "\n## Past Learnings\n1. Avoid thin books\n2. Scale in slowly\n"
    );
}

#[test]
fn learnings_section_empty() {
    assert_eq!(PromptBuilder::learnings_section(&[]), "");
}

#[test]
fn learnings_section_two_digit_numbers() {
    let ls: Vec<String> = (0..11).map(|i| format!("l{}", i)).collect();
    let s = PromptBuilder::learnings_section(&ls);
    assert!(s.ends_with("10. l9\n11. l10\n"));
}

#[test]
fn prompt_fixed_parts() {
    assert!(PromptBuilder::orient_preamble().ends_with("## Market Data\n"));
    assert!(PromptBuilder::orient_response_format().contains("TRENDING_UP|TRENDING_DOWN|RANGING|VOLATILE|CRISIS"));
    assert!(PromptBuilder::decide_response_format().ends_with("Or an empty array [] if no action is recommended.\n"));
}

#[test]
fn test_build_prompt() {
    let prompt = ferrum::local_llm::build_chat_prompt(&vec![
        ("system".to_string(), "You are a trading assistant".to_string()),
        ("user".to_string(), "What is BTC price?".to_string()),
    ]);
    assert!(prompt.contains("system"));
    assert!(prompt.contains("user"));
    assert_eq!(
        prompt,
        "<|system|>\nYou are a trading assistant\n<|user|>\nWhat is BTC price?\n<|assistant|>\n"
    );
}

#[test]
fn test_local_llm_complete() {
    let response = ferrum::local_llm::offline_complete("Should I buy BTC?", 1024);
    assert!(!response.is_empty());
    assert!(response.starts_with("Based on my analysis"));
}

#[test]
fn offline_complete_limits_words() {
    assert_eq!(ferrum::local_llm::offline_complete("hello", 3), "I'm running locally");
}

#[test]
fn tool_specs_lists_the_trading_tools() {
    let tools = ferrum::mcp::tool_specs();
    let names: Vec<&str> = tools.iter().map(|t| t.name.as_str()).collect();
    assert_eq!(names, vec!["place_order", "cancel_order", "get_balance", "get_positions", "get_market_data"]);
    let place = &tools[0];
    assert_eq!(place.description, "Place a trading order on an exchange");
    assert_eq!(place.params.len(), 6);
    assert_eq!(place.params[2].name, "side");
    assert_eq!(place.params[2].options, vec!["BUY".to_string(), "SELL".to_string()]);
    assert_eq!(place.params[5].description.as_deref(), Some("Limit price (required for LIMIT orders)"));
    assert_eq!(place.required, vec!["connector", "pair", "side", "amount", "order_type"]);
    assert!(tools[3].required.is_empty());
    for t in &tools {
        for r in &t.required {
            assert!(t.params.iter().any(|p| &p.name == r));
        }
    }
}
