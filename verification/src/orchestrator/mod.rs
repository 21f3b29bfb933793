//! Multi-agent orchestration: message kinds, agent roles and the directory
//! that decides which agents a message reaches.

pub mod directory;
pub mod message;
