use ferrum::agent::session::SessionStatus;
use ferrum::orchestrator::directory::AgentDirectory;
use ferrum::orchestrator::message::{AgentId, AgentRole, MessageType, Priority};

fn id(s: &str) -> AgentId {
    AgentId(s.to_string())
}

fn names(v: Vec<AgentId>) -> Vec<String> {
    v.into_iter().map(|a| a.0).collect()
}

#[test]
fn subscriptions_per_role() {
    assert_eq!(AgentRole::Analyst.subscribes_to(), vec![MessageType::ResearchResult, MessageType::Alert]);
    assert_eq!(
        AgentRole::RiskManager.subscribes_to(),
        vec![MessageType::TradeSignal, MessageType::PortfolioUpdate, MessageType::MarketAnalysis]
    );
    assert!(AgentRole::Executor.is_subscribed(MessageType::RiskAssessment));
    assert!(!AgentRole::Researcher.is_subscribed(MessageType::Stop));
    assert_eq!(AgentRole::PortfolioManager.as_str(), "portfolio_manager");
}

#[test]
fn directory_register_lookup_unregister() {
    let mut d = AgentDirectory::new();
    d.register(id("analyst-1"), AgentRole::Analyst);
    d.register(id("exec-1"), AgentRole::Executor);
    assert_eq!(d.agent_count(), 2);
    assert_eq!(d.role_of(&id("exec-1")), Some(AgentRole::Executor));
    d.register(id("exec-1"), AgentRole::RiskManager);
    assert_eq!(d.agent_count(), 2);
    assert_eq!(d.role_of(&id("exec-1")), Some(AgentRole::RiskManager));
    d.unregister(&id("analyst-1"));
    assert_eq!(d.role_of(&id("analyst-1")), None);
    assert_eq!(d.agent_count(), 1);
    d.unregister(&id("nobody"));
    assert_eq!(d.agent_count(), 1);
}

#[test]
fn directory_routing() {
    let mut d = AgentDirectory::new();
    d.register(id("risk"), AgentRole::RiskManager);
    d.register(id("exec"), AgentRole::Executor);
    d.register(id("analyst"), AgentRole::Analyst);
    assert_eq!(names(d.recipients(None, MessageType::TradeSignal)), vec!["risk", "exec"]);
    assert_eq!(names(d.recipients(None, MessageType::Alert)), vec!["analyst"]);
    assert!(d.recipients(None, MessageType::Stop).is_empty());
    assert_eq!(names(d.recipients(Some(&id("exec")), MessageType::Alert)), vec!["exec"]);
    assert!(d.recipients(Some(&id("ghost")), MessageType::Alert).is_empty());
    assert_eq!(names(d.agents_by_role(AgentRole::Executor)), vec!["exec"]);
    let all = d.list_agents();
    assert_eq!(all.len(), 3);
    assert_eq!(all[2].1, AgentRole::Analyst);
}

#[test]
fn priorities_and_status() {
    assert!(Priority::Low < Priority::Critical);
    assert_ne!(SessionStatus::Active, SessionStatus::Paused);
}
