//! Verified core of the Ferrum trading-agent harness: domain types, exchange
//! symbol and wire conventions, agent-definition and learnings parsing,
//! agent-message routing and executor lifecycles.

pub mod agent;
pub mod api;
pub mod backtest;
pub mod dashboard;
pub mod domain;
pub mod exchange;
pub mod executors;
pub mod llm;
pub mod local_llm;
pub mod mcp;
pub mod orchestrator;
pub mod paper;
pub mod positions;
pub mod text;
