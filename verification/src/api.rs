//! Requests of the REST API.

use vstd::prelude::*;

verus! {

/// Create-agent request: a name and the text of its `agent.md`.
#[derive(Debug, Clone)]
pub struct CreateAgentRequest {
    pub name: String,
    pub agent_md: String,
}

} // verus!
