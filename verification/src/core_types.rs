//! Shared primitives of the surrounding system: missions, chat messages,
//! and startup configuration. Plain data; the services that act on them are
//! external collaborators.

use vstd::prelude::*;

verus! {

/// Where a mission stands.
#[derive(Debug, PartialEq, Eq)]
pub enum MissionStatus {
    /// Created, not yet started.
    Pending,
    /// Being worked on.
    Running,
    /// Finished successfully.
    Completed,
    /// Gave up.
    Failed,
    /// Stopped on request.
    Cancelled,
}

/// Who said something in a conversation.
#[derive(Debug, PartialEq, Eq)]
pub enum Role {
    /// Instructions to the assistant.
    System,
    /// The human.
    User,
    /// The model.
    Assistant,
    /// A tool's output.
    Tool,
}

/// One utterance in a conversation.
#[derive(Debug)]
pub struct ChatMessage {
    /// Who speaks.
    pub role: Role,
    /// What they say.
    pub content: String,
    /// Speaker label, when one is attached.
    pub name: Option<String>,
}

impl ChatMessage {
    /// A system message.
    pub fn system(content: String) -> (r: Self)
        ensures
            r.role == Role::System,
            r.content == content,
            r.name is None,
    {
        ChatMessage { role: Role::System, content, name: None }
    }

    /// A user message.
    pub fn user(content: String) -> (r: Self)
        ensures
            r.role == Role::User,
            r.content == content,
            r.name is None,
    {
        ChatMessage { role: Role::User, content, name: None }
    }

    /// An assistant message.
    pub fn assistant(content: String) -> (r: Self)
        ensures
            r.role == Role::Assistant,
            r.content == content,
            r.name is None,
    {
        ChatMessage { role: Role::Assistant, content, name: None }
    }
}

/// Startup configuration, supplied by the caller that read it in.
#[derive(Debug)]
pub struct Config {
    /// Where mission state is persisted.
    pub database_url: String,
    /// Credential for the model provider.
    pub openrouter_api_key: String,
    /// Interface the server binds.
    pub server_host: String,
    /// Port the server binds.
    pub server_port: u16,
}

} // verus!
