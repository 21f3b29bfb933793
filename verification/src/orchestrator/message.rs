//! Message kinds and agent roles.

use vstd::prelude::*;

verus! {

/// Unique agent identifier.
#[derive(Debug, PartialEq, Eq, Hash)]
pub struct AgentId(pub String);

impl Clone for AgentId {
    fn clone(&self) -> (r: Self)
        ensures
            r.0@ == self.0@,
    {
        AgentId(self.0.clone())
    }
}

/// Message priority, lowest first.
#[derive(Debug, Clone, Copy, PartialEq, Eq, PartialOrd, Ord, Structural)]
pub enum Priority {
    Low,
    Normal,
    High,
    Critical,
}

/// Message types for inter-agent communication.
#[derive(Debug, Clone, Copy, PartialEq, Eq, Structural)]
pub enum MessageType {
    MarketAnalysis,
    RiskAssessment,
    TradeSignal,
    ExecutionReport,
    PortfolioUpdate,
    ResearchResult,
    Alert,
    Command,
    Stop,
}

/// Agent role in the trading team.
#[derive(Debug, Clone, Copy, PartialEq, Eq, Hash, Structural)]
pub enum AgentRole {
    Analyst,
    RiskManager,
    Executor,
    PortfolioManager,
    Researcher,
}

/// The message types each role is interested in.
pub open spec fn subscriptions(role: AgentRole) -> Seq<MessageType> {
    match role {
        AgentRole::Analyst => seq![MessageType::ResearchResult, MessageType::Alert],
        AgentRole::RiskManager => seq![
            MessageType::TradeSignal,
            MessageType::PortfolioUpdate,
            MessageType::MarketAnalysis,
        ],
        AgentRole::Executor => seq![MessageType::TradeSignal, MessageType::RiskAssessment],
        AgentRole::PortfolioManager => seq![MessageType::ExecutionReport, MessageType::MarketAnalysis],
        AgentRole::Researcher => seq![MessageType::Command, MessageType::Alert],
    }
}

/// Who listens to what: analysts to research results and alerts; risk
/// managers to trade signals, portfolio updates and market analyses;
/// executors to trade signals and risk assessments; portfolio managers to
/// execution reports and market analyses; researchers to commands and alerts.
/// No role listens to any other type.
pub proof fn law_subscription_table(role: AgentRole, t: MessageType)
    ensures
        subscriptions(role).contains(t) <==> (
            (role == AgentRole::Analyst && (t == MessageType::ResearchResult || t == MessageType::Alert))
            || (role == AgentRole::RiskManager && (t == MessageType::TradeSignal || t
                == MessageType::PortfolioUpdate || t == MessageType::MarketAnalysis))
            || (role == AgentRole::Executor && (t == MessageType::TradeSignal || t
                == MessageType::RiskAssessment))
            || (role == AgentRole::PortfolioManager && (t == MessageType::ExecutionReport || t
                == MessageType::MarketAnalysis))
            || (role == AgentRole::Researcher && (t == MessageType::Command || t == MessageType::Alert))),
{
    let s = subscriptions(role);
    if s.contains(t) {
        let i = choose|i: int| 0 <= i < s.len() && s[i] == t;
        assert(s[i] == t);
    }
    assert(s.len() >= 2);
    assert(s.contains(s[0]));
    assert(s.contains(s[1]));
    if role == AgentRole::RiskManager {
        assert(s.contains(s[2]));
    }
}

/// The name each role is shown by.
pub open spec fn role_name(role: AgentRole) -> Seq<char> {
    match role {
        AgentRole::Analyst => "analyst"@,
        AgentRole::RiskManager => "risk_manager"@,
        AgentRole::Executor => "executor"@,
        AgentRole::PortfolioManager => "portfolio_manager"@,
        AgentRole::Researcher => "researcher"@,
    }
}

impl AgentRole {
    /// Message types this role is interested in.
    pub fn subscribes_to(&self) -> (r: Vec<MessageType>)
        ensures
            r@ == subscriptions(*self),
    {
        let r = match self {
            AgentRole::Analyst => vec![MessageType::ResearchResult, MessageType::Alert],
            AgentRole::RiskManager => vec![
                MessageType::TradeSignal,
                MessageType::PortfolioUpdate,
                MessageType::MarketAnalysis,
            ],
            AgentRole::Executor => vec![MessageType::TradeSignal, MessageType::RiskAssessment],
            AgentRole::PortfolioManager => vec![MessageType::ExecutionReport, MessageType::MarketAnalysis],
            AgentRole::Researcher => vec![MessageType::Command, MessageType::Alert],
        };
        assert(r@ =~= subscriptions(*self));
        r
    }

    /// Whether this role is interested in a message type.
    pub fn is_subscribed(&self, t: MessageType) -> (r: bool)
        ensures
            r == subscriptions(*self).contains(t),
    {
        let subs = self.subscribes_to();
        let mut i: usize = 0;
        while i < subs.len()
            invariant
                i <= subs@.len(),
                subs@ == subscriptions(*self),
                forall|k: int| 0 <= k < i ==> subs@[k] != t,
            decreases subs.len() - i,
        {
            if subs[i] == t {
                return true;
            }
            i = i + 1;
        }
        false
    }

    /// The name the role is shown by.
    pub fn as_str(&self) -> (r: &'static str)
        ensures
            r@ == role_name(*self),
    {
        match self {
            AgentRole::Analyst => "analyst",
            AgentRole::RiskManager => "risk_manager",
            AgentRole::Executor => "executor",
            AgentRole::PortfolioManager => "portfolio_manager",
            AgentRole::Researcher => "researcher",
        }
    }
}

/// The names roles are shown by: `analyst`, `risk_manager`, `executor`,
/// `portfolio_manager`, `researcher`.
pub proof fn law_role_names()
    ensures
        role_name(AgentRole::Analyst) == "analyst"@,
        role_name(AgentRole::RiskManager) == "risk_manager"@,
        role_name(AgentRole::Executor) == "executor"@,
        role_name(AgentRole::PortfolioManager) == "portfolio_manager"@,
        role_name(AgentRole::Researcher) == "researcher"@,
{
}

} // verus!
