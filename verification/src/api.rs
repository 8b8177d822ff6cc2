//! Request and response shapes of the terminal transport layer, and the
//! client-visible error taxonomy it maps registry failures onto.

use crate::error::{message_spec, TerminalError};
use crate::session::TerminalSession;
use vstd::prelude::*;

verus! {

/// Every session, with the count, as `list` reports them.
pub struct ListResponse {
    /// The live sessions, oldest first.
    pub terminals: Vec<TerminalSession>,
    /// How many there are.
    pub count: usize,
}

/// Body of a create request.
#[derive(Debug)]
pub struct CreateRequest {
    /// Label for the new session.
    pub name: String,
    /// Working directory, when given.
    pub cwd: Option<String>,
    /// Shell program, when given.
    pub shell: Option<String>,
    /// Terminal width, when given.
    pub cols: Option<u16>,
    /// Terminal height, when given.
    pub rows: Option<u16>,
    /// Extra environment entries.
    pub env: Vec<(String, String)>,
}

/// Body of an exec request.
#[derive(Debug)]
pub struct ExecRequest {
    /// The command to issue, without its trailing newline.
    pub command: String,
}

/// Answer to an exec request.
#[derive(Debug, PartialEq)]
pub struct ExecResponse {
    /// Whether the command was written.
    pub success: bool,
}

/// Body of a time-boxed exec request.
#[derive(Debug)]
pub struct ExecWaitRequest {
    /// The command to issue.
    pub command: String,
    /// How long to capture output for, in milliseconds.
    pub timeout_ms: u64,
}

/// The capture window used when an exec-wait request names none.
pub fn default_timeout() -> (r: u64)
    ensures
        r == 30000,
{
    30000
}

/// Answer to a time-boxed exec request.
#[derive(Debug)]
pub struct ExecWaitResponse {
    /// The last observed snapshot of recent output, joined into one block.
    pub output: String,
    /// How long the capture actually took, in milliseconds.
    pub duration_ms: u64,
}

/// Body of a raw write request.
#[derive(Debug)]
pub struct WriteRequest {
    /// Text written to the process input verbatim, no framing added.
    pub data: String,
}

/// Body of a resize request.
#[derive(Debug, PartialEq)]
pub struct ResizeRequest {
    /// New width.
    pub cols: u16,
    /// New height.
    pub rows: u16,
}

/// Query of a buffer read.
#[derive(Debug, PartialEq)]
pub struct BufferQuery {
    /// Keep only this many most recent lines, when given.
    pub lines: Option<usize>,
}

/// Answer to a buffer read.
#[derive(Debug)]
pub struct BufferResponse {
    /// The captured lines, oldest first.
    pub lines: Vec<String>,
    /// How many lines were returned.
    pub total: usize,
}

/// Liveness answer.
#[derive(Debug)]
pub struct HealthResponse {
    /// Fixed status text.
    pub status: String,
    /// The server's version.
    pub version: String,
}

/// What the transport reports to a client when an operation fails.
#[derive(Debug, PartialEq)]
pub enum ApiError {
    /// The addressed thing does not exist.
    NotFound(String),
    /// The request itself is unacceptable.
    BadRequest(String),
    /// The server failed.
    Internal(String),
    /// A registry or process operation failed.
    Terminal(TerminalError),
    /// An I/O operation failed, with its description.
    Io(String),
}

/// The status code each error maps onto.
pub open spec fn api_status_spec(e: &ApiError) -> u16 {
    match e {
        ApiError::NotFound(_) => 404,
        ApiError::BadRequest(_) => 400,
        ApiError::Internal(_) => 500,
        ApiError::Terminal(_) => 500,
        ApiError::Io(_) => 500,
    }
}

/// The message text each error carries to the client.
pub open spec fn api_message_spec(e: &ApiError) -> Seq<char> {
    match e {
        ApiError::NotFound(m) => m@,
        ApiError::BadRequest(m) => m@,
        ApiError::Internal(m) => m@,
        ApiError::Terminal(t) => message_spec(t),
        ApiError::Io(m) => m@,
    }
}

impl ApiError {
    /// HTTP status code of this error: not-found maps to 404, a bad request
    /// to 400, everything else to 500.
    pub fn status_code(&self) -> (r: u16)
        ensures
            r == api_status_spec(self),
    {
        match self {
            ApiError::NotFound(_) => 404,
            ApiError::BadRequest(_) => 400,
            ApiError::Internal(_) => 500,
            ApiError::Terminal(_) => 500,
            ApiError::Io(_) => 500,
        }
    }

    /// The message the response body carries.
    pub fn message(&self) -> (r: String)
        ensures
            r@ == api_message_spec(self),
    {
        match self {
            ApiError::NotFound(m) => m.clone(),
            ApiError::BadRequest(m) => m.clone(),
            ApiError::Internal(m) => m.clone(),
            ApiError::Terminal(t) => t.message(),
            ApiError::Io(m) => m.clone(),
        }
    }
}

impl From<TerminalError> for ApiError {
    /// A registry failure surfaces as-is.
    fn from(err: TerminalError) -> (r: Self) {
        ApiError::Terminal(err)
    }
}

impl vstd::std_specs::convert::FromSpecImpl<TerminalError> for ApiError {
    open spec fn obeys_from_spec() -> bool {
        true
    }

    open spec fn from_spec(err: TerminalError) -> Self {
        ApiError::Terminal(err)
    }
}

} // verus!
