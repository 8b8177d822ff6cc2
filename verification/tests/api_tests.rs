use terminal_core::agents::{ContentType, ShellTool};
use terminal_core::api::{default_timeout, ApiError};
use terminal_core::editor::Language;
use terminal_core::error::TerminalError;
use terminal_core::files::FileManager;
use terminal_core::search_api::{default_context_limit, default_limit};
use terminal_core::webrtc::WebRtcManager;

#[test]
fn api_errors_map_to_status_and_message() {
    let nf = ApiError::NotFound("Terminal 7".to_string());
    assert_eq!(nf.status_code(), 404);
    assert_eq!(nf.message(), "Terminal 7");
    let bad = ApiError::BadRequest("no".to_string());
    assert_eq!(bad.status_code(), 400);
    let internal = ApiError::Internal("oops".to_string());
    assert_eq!(internal.status_code(), 500);
    let io = ApiError::Io("pipe".to_string());
    assert_eq!((io.status_code(), io.message()), (500, "pipe".to_string()));
}

#[test]
fn terminal_errors_convert_and_keep_their_text() {
    let err = ApiError::from(TerminalError::MaxSessions);
    assert_eq!(err.status_code(), 500);
    assert_eq!(err.message(), "Max sessions reached");
    assert_eq!(err, ApiError::Terminal(TerminalError::MaxSessions));
}

#[test]
fn default_limits_match_the_wire_defaults() {
    assert_eq!(default_timeout(), 30000);
    assert_eq!(default_limit(), 10);
    assert_eq!(default_context_limit(), 5);
}

#[test]
fn languages_come_from_extensions_case_insensitively() {
    assert_eq!(Language::from_extension("rs"), Language::Rust);
    assert_eq!(Language::from_extension("RS"), Language::Rust);
    assert_eq!(Language::from_extension("mjs"), Language::JavaScript);
    assert_eq!(Language::from_extension("tsx"), Language::TypeScript);
    assert_eq!(Language::from_extension("py"), Language::Python);
    assert_eq!(Language::from_extension("Json"), Language::Json);
    assert_eq!(Language::from_extension("toml"), Language::Toml);
    assert_eq!(Language::from_extension("md"), Language::Markdown);
    assert_eq!(Language::from_extension("html"), Language::Html);
    assert_eq!(Language::from_extension("css"), Language::Css);
    assert_eq!(Language::from_extension("bash"), Language::Shell);
    assert_eq!(Language::from_extension("xyz"), Language::Unknown);
    assert_eq!(Language::from_extension(""), Language::Unknown);
}

#[test]
fn paths_resolve_against_the_root() {
    let fm = FileManager::new("/workspace".to_string());
    assert_eq!(fm.resolve("/etc/hosts"), "/etc/hosts");
    assert_eq!(fm.resolve("src/main.rs"), "/workspace/src/main.rs");
    assert_eq!(fm.resolve(""), "/workspace/");
    let slashed = FileManager::new("/workspace/".to_string());
    assert_eq!(slashed.resolve("a.txt"), "/workspace/a.txt");
}

#[test]
fn shell_tool_allows_only_its_list() {
    let tool = ShellTool::default();
    assert_eq!(tool.allowed_commands.len(), 10);
    assert!(tool.is_allowed("ls"));
    assert!(tool.is_allowed("date"));
    assert!(!tool.is_allowed("rm"));
    assert!(!tool.is_allowed("LS"));
}

#[test]
fn content_types_have_wire_names() {
    assert_eq!(ContentType::Code.label(), "code");
    assert_eq!(ContentType::Chat.label(), "chat");
    assert_eq!(ContentType::Mission.label(), "mission");
    assert_eq!(ContentType::File.label(), "file");
}

#[test]
fn webrtc_manager_is_stateless() {
    let _ = WebRtcManager::new();
    let _ = WebRtcManager::default();
}
