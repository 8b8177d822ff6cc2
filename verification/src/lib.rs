//! Terminal session multiplexer: bounded line-oriented capture of process
//! output, a registry of live shell sessions with capacity and name-uniqueness
//! rules, and the decision logic of the interactive relay.
//!
//! Pseudo-terminal spawning and all socket/process I/O live outside this
//! crate; the registry here is the single source of truth for which sessions
//! exist, what their buffers hold, and which operations succeed.

pub mod admin;
pub mod agents;
pub mod api;
pub mod architect;
pub mod buffer;
pub mod core_types;
pub mod editor;
pub mod error;
pub mod files;
pub mod files_api;
pub mod relay;
pub mod search_api;
pub mod session;
pub mod text;
pub mod webrtc;
