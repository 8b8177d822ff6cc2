//! Request and response shapes of the architect surface: one-shot command
//! execution, terminal proxying, file access, missions and git. Every one
//! of these operations runs in an external collaborator.

use vstd::prelude::*;

verus! {

/// Body of a one-shot command execution.
#[derive(Debug)]
pub struct ExecCommandRequest {
    /// The command line to run.
    pub command: String,
    /// Working directory, when given.
    pub cwd: Option<String>,
    /// Time allowed, in milliseconds, when given.
    pub timeout_ms: Option<u64>,
}

/// Answer to a one-shot command execution.
#[derive(Debug)]
pub struct ExecCommandResponse {
    /// Whether the command ran and exited successfully.
    pub success: bool,
    /// Captured standard output.
    pub stdout: String,
    /// Captured standard error.
    pub stderr: String,
    /// The exit code, when the process exited with one.
    pub exit_code: Option<i32>,
    /// How long the run took, in milliseconds.
    pub duration_ms: u64,
}

/// Body of a create-terminal request.
#[derive(Debug)]
pub struct CreateTerminalRequest {
    /// Label for the new session.
    pub name: String,
    /// Working directory, when given.
    pub cwd: Option<String>,
}

/// A terminal as the architect surface reports it.
#[derive(Debug)]
pub struct TerminalInfo {
    /// The session's id, rendered as text.
    pub id: String,
    /// The session's name.
    pub name: String,
    /// The session's status, rendered as text.
    pub status: String,
}

/// Body of an exec against a named terminal.
#[derive(Debug)]
pub struct TerminalExecRequest {
    /// The terminal's name.
    pub name: String,
    /// The command to issue.
    pub command: String,
}

/// Query of a named terminal's buffer.
#[derive(Debug)]
pub struct TerminalBufferQuery {
    /// The terminal's name.
    pub name: String,
    /// Keep only this many most recent lines, when given.
    pub lines: Option<usize>,
}

/// Body of a file read.
#[derive(Debug)]
pub struct ReadFileRequest {
    /// Path of the file to read.
    pub path: String,
}

/// Answer to a file read.
#[derive(Debug)]
pub struct ReadFileResponse {
    /// Whether the read went through.
    pub success: bool,
    /// The file's text, on success.
    pub content: Option<String>,
    /// What went wrong, on failure.
    pub error: Option<String>,
    /// The file's size in bytes, on success.
    pub size: Option<u64>,
}

/// Body of a file write.
#[derive(Debug)]
pub struct WriteFileRequest {
    /// Path of the file to write.
    pub path: String,
    /// The content to write.
    pub content: String,
}

/// Answer to a file write.
#[derive(Debug)]
pub struct WriteFileResponse {
    /// Whether the write went through.
    pub success: bool,
    /// The path written.
    pub path: String,
    /// What went wrong, on failure.
    pub error: Option<String>,
}

/// Body of a directory listing.
#[derive(Debug)]
pub struct ListFilesRequest {
    /// Directory to list; the workspace root when absent.
    pub path: Option<String>,
    /// Whether to descend into subdirectories.
    pub recursive: Option<bool>,
}

/// Body of a chat-to-mission request.
#[derive(Debug)]
pub struct ChatToMissionRequest {
    /// What the user asked for.
    pub message: String,
    /// Whether a mission should be created from it.
    pub create_mission: bool,
}

/// Answer to a chat-to-mission request.
#[derive(Debug)]
pub struct ChatToMissionResponse {
    /// Identifier of the created mission, when one was created.
    pub mission_id: Option<String>,
    /// The model's reading of the request.
    pub analysis: String,
    /// Steps the model proposes.
    pub suggested_steps: Vec<String>,
}

/// Body of a git status request.
#[derive(Debug)]
pub struct GitStatusRequest {
    /// Repository path.
    pub path: String,
}

/// Answer to a git status request.
#[derive(Debug)]
pub struct GitStatusResponse {
    /// The checked-out branch.
    pub branch: String,
    /// The tracked remote, when there is one.
    pub remote: Option<String>,
    /// Paths staged for commit.
    pub staged: Vec<String>,
    /// Paths changed but unstaged.
    pub unstaged: Vec<String>,
}

/// Body of a git clone request.
#[derive(Debug)]
pub struct GitCloneRequest {
    /// Repository URL.
    pub repo: String,
    /// Where to clone to, when given.
    pub target: Option<String>,
    /// History depth, when limited.
    pub depth: Option<u32>,
}

/// Answer to a git clone request.
#[derive(Debug)]
pub struct GitCloneResponse {
    /// Whether the clone went through.
    pub success: bool,
    /// Where the clone landed.
    pub path: String,
    /// What the tool reported.
    pub message: String,
}

/// Body of a git commit request.
#[derive(Debug)]
pub struct GitCommitRequest {
    /// Repository path.
    pub path: String,
    /// Commit message.
    pub message: String,
    /// Restrict the commit to these paths, when given.
    pub files: Option<Vec<String>>,
}

/// Body of a git push request.
#[derive(Debug)]
pub struct GitPushRequest {
    /// Repository path.
    pub path: String,
    /// Branch to push, when named.
    pub branch: Option<String>,
    /// Whether to force the push.
    pub force: Option<bool>,
}

/// Body of a git pull request.
#[derive(Debug)]
pub struct GitPullRequest {
    /// Repository path.
    pub path: String,
    /// Branch to pull, when named.
    pub branch: Option<String>,
}

/// The architect surface's self-description.
#[derive(Debug)]
pub struct ArchitectStatus {
    /// Version of the service.
    pub version: String,
    /// The workspace it operates on.
    pub workspace: String,
    /// Where the terminal service listens.
    pub terminal_api: String,
    /// Whether the terminal service answered.
    pub terminal_connected: bool,
    /// Names of the operations offered.
    pub tools: Vec<String>,
    /// How many terminals are live.
    pub active_terminals: usize,
    /// How many missions are live.
    pub active_missions: usize,
}

} // verus!
