//! Configuration documents the admin endpoints read and write. Their
//! persistence is the caller's work.

use vstd::prelude::*;

verus! {

/// The system prompts the assistant and the agent run with.
#[derive(Debug)]
pub struct SystemPrompts {
    /// Prompt of the conversational assistant.
    pub chat: String,
    /// Prompt of the autonomous agent.
    pub agent: String,
}

/// Tunables of the sandboxed agent.
#[derive(Debug)]
pub struct SpawnConfig {
    /// Whether the sandbox is used at all.
    pub sandbox_enabled: bool,
    /// Where the sandbox listens.
    pub sandbox_endpoint: String,
    /// How many agent iterations are allowed.
    pub sandbox_max_iterations: u32,
    /// Rules the agent must follow.
    pub must_rules: Vec<String>,
    /// Rules the agent must never break.
    pub must_not_rules: Vec<String>,
}

} // verus!
