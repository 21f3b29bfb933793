//! Error kinds of the harness.

use vstd::prelude::*;
use vstd::string::StringExecFns;

verus! {

/// Unified error type for Ferrum.
#[derive(Debug)]
pub enum FerrumError {
    InvalidTradingPair(String),
    ExchangeError(String),
    OrderError(String),
    RiskLimitExceeded(String),
    LlmError(String),
    SessionError(String),
    ConfigError(String),
    DatabaseError(String),
    SerializationError(String),
    WebSocketError(String),
    AuthError(String),
    AgentError(String),
    Timeout(String),
    NotFound(String),
    Internal(String),
}

/// The prefix of the message of each kind of error; the detail follows it.
pub open spec fn error_prefix(e: FerrumError) -> Seq<char> {
    match e {
        FerrumError::InvalidTradingPair(_) => "Invalid trading pair: "@,
        FerrumError::ExchangeError(_) => "Exchange error: "@,
        FerrumError::OrderError(_) => "Order error: "@,
        FerrumError::RiskLimitExceeded(_) => "Risk limit exceeded: "@,
        FerrumError::LlmError(_) => "LLM error: "@,
        FerrumError::SessionError(_) => "Session error: "@,
        FerrumError::ConfigError(_) => "Config error: "@,
        FerrumError::DatabaseError(_) => "Database error: "@,
        FerrumError::SerializationError(_) => "Serialization error: "@,
        FerrumError::WebSocketError(_) => "WebSocket error: "@,
        FerrumError::AuthError(_) => "Authentication error: "@,
        FerrumError::AgentError(_) => "Agent error: "@,
        FerrumError::Timeout(_) => "Timeout: "@,
        FerrumError::NotFound(_) => "Not found: "@,
        FerrumError::Internal(_) => ""@,
    }
}

/// The detail that an error carries.
pub open spec fn error_detail(e: FerrumError) -> Seq<char> {
    match e {
        FerrumError::InvalidTradingPair(m) => m@,
        FerrumError::ExchangeError(m) => m@,
        FerrumError::OrderError(m) => m@,
        FerrumError::RiskLimitExceeded(m) => m@,
        FerrumError::LlmError(m) => m@,
        FerrumError::SessionError(m) => m@,
        FerrumError::ConfigError(m) => m@,
        FerrumError::DatabaseError(m) => m@,
        FerrumError::SerializationError(m) => m@,
        FerrumError::WebSocketError(m) => m@,
        FerrumError::AuthError(m) => m@,
        FerrumError::AgentError(m) => m@,
        FerrumError::Timeout(m) => m@,
        FerrumError::NotFound(m) => m@,
        FerrumError::Internal(m) => m@,
    }
}

impl FerrumError {
    /// The human-readable message of the error: its kind's prefix, then its detail.
    pub fn message(&self) -> (r: String)
        ensures
            r@ == error_prefix(*self) + error_detail(*self),
    {
        let (prefix, detail) = match self {
            FerrumError::InvalidTradingPair(m) => ("Invalid trading pair: ", m),
            FerrumError::ExchangeError(m) => ("Exchange error: ", m),
            FerrumError::OrderError(m) => ("Order error: ", m),
            FerrumError::RiskLimitExceeded(m) => ("Risk limit exceeded: ", m),
            FerrumError::LlmError(m) => ("LLM error: ", m),
            FerrumError::SessionError(m) => ("Session error: ", m),
            FerrumError::ConfigError(m) => ("Config error: ", m),
            FerrumError::DatabaseError(m) => ("Database error: ", m),
            FerrumError::SerializationError(m) => ("Serialization error: ", m),
            FerrumError::WebSocketError(m) => ("WebSocket error: ", m),
            FerrumError::AuthError(m) => ("Authentication error: ", m),
            FerrumError::AgentError(m) => ("Agent error: ", m),
            FerrumError::Timeout(m) => ("Timeout: ", m),
            FerrumError::NotFound(m) => ("Not found: ", m),
            FerrumError::Internal(m) => ("", m),
        };
        String::from_str(prefix).concat(detail.as_str())
    }
}

/// Risk-specific block reasons.
#[derive(Debug, Clone)]
pub enum RiskBlock {
    DailyLossExceeded,
    MaxDrawdownExceeded,
    CostLimitExceeded,
    TooManyExecutors,
    OrderSizeExceeded,
    PositionLimitExceeded,
    AgentBlocked(String),
}

/// The message of each risk block.
pub open spec fn risk_block_message(b: RiskBlock) -> Seq<char> {
    match b {
        RiskBlock::DailyLossExceeded => "Daily loss limit exceeded"@,
        RiskBlock::MaxDrawdownExceeded => "Max drawdown exceeded"@,
        RiskBlock::CostLimitExceeded => "Daily cost limit exceeded"@,
        RiskBlock::TooManyExecutors => "Too many open executors"@,
        RiskBlock::OrderSizeExceeded => "Single order size exceeded"@,
        RiskBlock::PositionLimitExceeded => "Position size limit exceeded"@,
        RiskBlock::AgentBlocked(m) => "Agent is blocked: "@ + m@,
    }
}

impl RiskBlock {
    /// The human-readable message of the block.
    pub fn message(&self) -> (r: String)
        ensures
            r@ == risk_block_message(*self),
    {
        match self {
            RiskBlock::DailyLossExceeded => String::from_str("Daily loss limit exceeded"),
            RiskBlock::MaxDrawdownExceeded => String::from_str("Max drawdown exceeded"),
            RiskBlock::CostLimitExceeded => String::from_str("Daily cost limit exceeded"),
            RiskBlock::TooManyExecutors => String::from_str("Too many open executors"),
            RiskBlock::OrderSizeExceeded => String::from_str("Single order size exceeded"),
            RiskBlock::PositionLimitExceeded => String::from_str("Position size limit exceeded"),
            RiskBlock::AgentBlocked(m) => String::from_str("Agent is blocked: ").concat(m.as_str()),
        }
    }
}

/// The prefix each kind of error is written with, before its detail.
pub proof fn law_error_prefixes(m: String)
    ensures
        error_prefix(FerrumError::InvalidTradingPair(m)) == "Invalid trading pair: "@,
        error_prefix(FerrumError::ExchangeError(m)) == "Exchange error: "@,
        error_prefix(FerrumError::OrderError(m)) == "Order error: "@,
        error_prefix(FerrumError::RiskLimitExceeded(m)) == "Risk limit exceeded: "@,
        error_prefix(FerrumError::LlmError(m)) == "LLM error: "@,
        error_prefix(FerrumError::SessionError(m)) == "Session error: "@,
        error_prefix(FerrumError::ConfigError(m)) == "Config error: "@,
        error_prefix(FerrumError::DatabaseError(m)) == "Database error: "@,
        error_prefix(FerrumError::SerializationError(m)) == "Serialization error: "@,
        error_prefix(FerrumError::WebSocketError(m)) == "WebSocket error: "@,
        error_prefix(FerrumError::AuthError(m)) == "Authentication error: "@,
        error_prefix(FerrumError::AgentError(m)) == "Agent error: "@,
        error_prefix(FerrumError::Timeout(m)) == "Timeout: "@,
        error_prefix(FerrumError::NotFound(m)) == "Not found: "@,
        error_prefix(FerrumError::Internal(m)) == ""@,
        error_detail(FerrumError::ConfigError(m)) == m@,
        risk_block_message(RiskBlock::DailyLossExceeded) == "Daily loss limit exceeded"@,
        risk_block_message(RiskBlock::MaxDrawdownExceeded) == "Max drawdown exceeded"@,
        risk_block_message(RiskBlock::CostLimitExceeded) == "Daily cost limit exceeded"@,
        risk_block_message(RiskBlock::TooManyExecutors) == "Too many open executors"@,
        risk_block_message(RiskBlock::OrderSizeExceeded) == "Single order size exceeded"@,
        risk_block_message(RiskBlock::PositionLimitExceeded) == "Position size limit exceeded"@,
        risk_block_message(RiskBlock::AgentBlocked(m)) == "Agent is blocked: "@ + m@,
{
}

} // verus!
