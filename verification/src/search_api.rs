//! Request and response shapes of the semantic-search endpoints. The store
//! behind them is an external collaborator.

use vstd::prelude::*;

verus! {

/// Query of a general search.
#[derive(Debug)]
pub struct SearchQuery {
    /// The text searched for.
    pub q: String,
    /// Restrict to one content type, when given.
    pub content_type: Option<String>,
    /// How many results to return at most.
    pub limit: i32,
}

/// How many search results come back when a query names no limit.
pub fn default_limit() -> (r: i32)
    ensures
        r == 10,
{
    10
}

/// Query of a code search.
#[derive(Debug)]
pub struct CodeSearchQuery {
    /// The text searched for.
    pub q: String,
    /// Restrict to one language, when given.
    pub language: Option<String>,
    /// How many results to return at most.
    pub limit: i32,
}

/// Body of an index request.
#[derive(Debug)]
pub struct IndexFileRequest {
    /// File being indexed.
    pub file_path: String,
    /// Its content.
    pub content: String,
    /// Its language.
    pub language: String,
}

/// Answer to an index request.
#[derive(Debug)]
pub struct IndexFileResponse {
    /// Whether indexing went through.
    pub success: bool,
    /// How many chunks were stored.
    pub chunks_indexed: usize,
    /// The file that was indexed.
    pub file_path: String,
}

/// Answer to storing a chat turn.
#[derive(Debug)]
pub struct StoreChatResponse {
    /// Whether the turn was stored.
    pub success: bool,
    /// Identifier of the stored turn.
    pub id: String,
}

/// Query for conversation context.
#[derive(Debug)]
pub struct ChatContextQuery {
    /// The text context is wanted for.
    pub q: String,
    /// Restrict to one session, when given.
    pub session_id: Option<String>,
    /// How many turns to return at most.
    pub limit: i32,
}

/// How many context turns come back when a query names no limit.
pub fn default_context_limit() -> (r: i32)
    ensures
        r == 5,
{
    5
}

} // verus!
