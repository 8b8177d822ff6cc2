use terminal_core::error::TerminalError;
use terminal_core::session::{SessionConfig, SessionManager, SessionStatus, DEFAULT_COLS, DEFAULT_ROWS};

fn config(name: &str) -> SessionConfig {
    SessionConfig {
        name: name.to_string(),
        cwd: None,
        shell: None,
        cols: None,
        rows: None,
        env: None,
    }
}

fn manager(max: usize) -> SessionManager {
    SessionManager::new("/workspace".to_string(), max, "/bin/bash".to_string())
}

/// Create a session without a real process behind it.
fn create(mgr: &mut SessionManager, name: &str) -> Result<terminal_core::session::TerminalSession, TerminalError> {
    let plan = mgr.plan_create(&config(name))?;
    mgr.create_session(plan, None, 0)
}

#[test]
fn plan_resolves_defaults_from_registry_config() {
    let mgr = manager(4);
    let plan = mgr.plan_create(&config("t")).unwrap();
    assert_eq!(plan.name, "t");
    assert_eq!(plan.shell, "/bin/bash");
    assert_eq!(plan.cwd, "/workspace");
    assert_eq!(plan.cols, DEFAULT_COLS);
    assert_eq!(plan.rows, DEFAULT_ROWS);
    assert_eq!(plan.env.len(), 1);
    assert_eq!(plan.env[0].0, "TERM");
    assert_eq!(plan.env[0].1, "xterm-256color");
}

#[test]
fn plan_keeps_explicit_values_and_appends_requested_env() {
    let mgr = manager(4);
    let cfg = SessionConfig {
        name: "t".to_string(),
        cwd: Some("/tmp".to_string()),
        shell: Some("/bin/sh".to_string()),
        cols: Some(80),
        rows: Some(24),
        env: Some(vec![("FOO".to_string(), "bar".to_string())]),
    };
    let plan = mgr.plan_create(&cfg).unwrap();
    assert_eq!(plan.shell, "/bin/sh");
    assert_eq!(plan.cwd, "/tmp");
    assert_eq!(plan.cols, 80);
    assert_eq!(plan.rows, 24);
    assert_eq!(plan.env.len(), 2);
    assert_eq!(plan.env[0].0, "TERM");
    assert_eq!(plan.env[1], ("FOO".to_string(), "bar".to_string()));
}

#[test]
fn created_session_starts_running_with_fresh_id() {
    let mut mgr = manager(4);
    let a = create(&mut mgr, "a").unwrap();
    let b = create(&mut mgr, "b").unwrap();
    assert_ne!(a.id, b.id);
    assert_eq!(a.status, SessionStatus::Running);
    assert_eq!(b.name, "b");
    assert_eq!(mgr.list_sessions().len(), 2);
}

#[test]
fn duplicate_name_is_a_conflict_and_list_shows_one() {
    let mut mgr = manager(4);
    create(&mut mgr, "dup").unwrap();
    let second = create(&mut mgr, "dup");
    assert_eq!(second.unwrap_err(), TerminalError::SessionExists("dup".to_string()));
    let sessions = mgr.list_sessions();
    assert_eq!(
        sessions.iter().filter(|s| s.name == "dup").count(),
        1
    );
    assert_eq!(sessions.len(), 1);
}

#[test]
fn capacity_is_enforced_and_kill_frees_it() {
    let mut mgr = manager(2);
    let first = create(&mut mgr, "one").unwrap();
    create(&mut mgr, "two").unwrap();
    let third = create(&mut mgr, "three");
    assert_eq!(third.unwrap_err(), TerminalError::MaxSessions);
    mgr.kill(first.id).unwrap();
    create(&mut mgr, "three").unwrap();
    assert_eq!(mgr.list_sessions().len(), 2);
}

#[test]
fn killed_name_can_be_reused() {
    let mut mgr = manager(4);
    let s = create(&mut mgr, "again").unwrap();
    mgr.kill(s.id).unwrap();
    let reborn = create(&mut mgr, "again").unwrap();
    assert_ne!(reborn.id, s.id);
}

#[test]
fn kill_of_unknown_id_is_not_found_and_list_is_unaffected() {
    let mut mgr = manager(4);
    create(&mut mgr, "keep").unwrap();
    let before: Vec<String> = mgr.list_sessions().iter().map(|s| s.name.clone()).collect();
    assert_eq!(mgr.kill(9999).unwrap_err(), TerminalError::SessionNotFound(9999));
    let after: Vec<String> = mgr.list_sessions().iter().map(|s| s.name.clone()).collect();
    assert_eq!(before, after);
}

#[test]
fn lookups_by_id_and_name_agree() {
    let mut mgr = manager(4);
    let s = create(&mut mgr, "find-me").unwrap();
    assert_eq!(mgr.get_session(s.id).unwrap().name, "find-me");
    assert_eq!(mgr.get_session_by_name("find-me").unwrap().id, s.id);
    assert_eq!(mgr.resolve_name("find-me"), Some(s.id));
    assert!(mgr.get_session(s.id + 1).is_none());
    assert!(mgr.get_session_by_name("absent").is_none());
    assert_eq!(mgr.resolve_name("absent"), None);
}

#[test]
fn exec_frames_the_command_with_one_newline() {
    let mut mgr = manager(4);
    let s = create(&mut mgr, "sh").unwrap();
    let bytes = mgr.exec(s.id, "echo hi").unwrap();
    assert_eq!(bytes, b"echo hi\n".to_vec());
    assert_eq!(
        mgr.exec(77, "x").unwrap_err(),
        TerminalError::SessionNotFound(77)
    );
}

#[test]
fn write_checks_liveness_only() {
    let mut mgr = manager(4);
    let s = create(&mut mgr, "w").unwrap();
    assert!(mgr.write(s.id, b"raw").is_ok());
    assert_eq!(mgr.write(123, b"raw").unwrap_err(), TerminalError::SessionNotFound(123));
}

#[test]
fn output_flows_into_the_buffer_and_back_out() {
    let mut mgr = manager(4);
    let s = create(&mut mgr, "out").unwrap();
    mgr.push_output(s.id, b"first\nsecond\nthird\n").unwrap();
    assert_eq!(
        mgr.get_buffer(s.id, None).unwrap(),
        vec!["first".to_string(), "second".to_string(), "third".to_string()]
    );
    assert_eq!(
        mgr.get_buffer(s.id, Some(2)).unwrap(),
        vec!["second".to_string(), "third".to_string()]
    );
    assert_eq!(
        mgr.push_output(500, b"x").unwrap_err(),
        TerminalError::SessionNotFound(500)
    );
}

#[test]
fn recent_output_joins_lines_with_newlines() {
    let mut mgr = manager(4);
    let s = create(&mut mgr, "join").unwrap();
    mgr.push_output(s.id, b"a\nb\nc\n").unwrap();
    assert_eq!(mgr.recent_output(s.id, 100).unwrap(), "a\nb\nc");
    assert_eq!(mgr.recent_output(s.id, 2).unwrap(), "b\nc");
    assert_eq!(mgr.recent_output(s.id, 0).unwrap(), "");
}

#[test]
fn flush_empties_and_flushing_twice_equals_once() {
    let mut mgr = manager(4);
    let s = create(&mut mgr, "f").unwrap();
    mgr.push_output(s.id, b"line\nhalf").unwrap();
    mgr.flush_buffer(s.id).unwrap();
    assert_eq!(mgr.get_buffer(s.id, None).unwrap(), Vec::<String>::new());
    mgr.flush_buffer(s.id).unwrap();
    assert_eq!(mgr.get_buffer(s.id, None).unwrap(), Vec::<String>::new());
    assert_eq!(
        mgr.flush_buffer(321).unwrap_err(),
        TerminalError::SessionNotFound(321)
    );
}

#[test]
fn resize_updates_stored_dimensions_only() {
    let mut mgr = manager(4);
    let s = create(&mut mgr, "r").unwrap();
    mgr.resize(s.id, 200, 50).unwrap();
    let got = mgr.get_session(s.id).unwrap();
    assert_eq!((got.cols, got.rows), (200, 50));
    assert_eq!(
        mgr.resize(404, 1, 1).unwrap_err(),
        TerminalError::SessionNotFound(404)
    );
}

#[test]
fn stream_end_marks_stopped_or_error() {
    let mut mgr = manager(4);
    let a = create(&mut mgr, "ends").unwrap();
    let b = create(&mut mgr, "breaks").unwrap();
    mgr.mark_stream_end(a.id, None).unwrap();
    mgr.mark_stream_end(b.id, Some("broken pipe".to_string())).unwrap();
    assert_eq!(mgr.get_session(a.id).unwrap().status, SessionStatus::Stopped);
    assert_eq!(
        mgr.get_session(b.id).unwrap().status,
        SessionStatus::Error("broken pipe".to_string())
    );
}

#[test]
fn error_messages_name_the_failure() {
    assert_eq!(TerminalError::MaxSessions.message(), "Max sessions reached");
    assert_eq!(
        TerminalError::SessionExists("dup".to_string()).message(),
        "Session already exists: dup"
    );
    assert_eq!(TerminalError::Pty("boom".to_string()).message(), "PTY error: boom");
    assert_eq!(TerminalError::SessionNotFound(3).message(), "Session not found");
    assert_eq!(TerminalError::Timeout.message(), "Timeout waiting for output");
    assert_eq!(TerminalError::Io("eof".to_string()).message(), "IO error: eof");
    assert_eq!(
        TerminalError::SessionNameNotFound("n".to_string()).message(),
        "Session name not found: n"
    );
}

#[test]
fn exec_wait_snapshot_keeps_the_last_nonempty_poll() {
    assert_eq!(
        SessionManager::latest_snapshot("held".to_string(), "".to_string()),
        "held"
    );
    assert_eq!(
        SessionManager::latest_snapshot("held".to_string(), "fresh".to_string()),
        "fresh"
    );
}

#[test]
fn empty_name_is_a_name_like_any_other() {
    let mut mgr = manager(4);
    create(&mut mgr, "").unwrap();
    assert_eq!(
        create(&mut mgr, "").unwrap_err(),
        TerminalError::SessionExists("".to_string())
    );
    assert!(mgr.get_session_by_name("").is_some());
}

#[test]
fn capacity_of_one_holds_exactly_one_session() {
    let mut mgr = manager(1);
    let only = create(&mut mgr, "only").unwrap();
    assert_eq!(create(&mut mgr, "more").unwrap_err(), TerminalError::MaxSessions);
    mgr.kill(only.id).unwrap();
    create(&mut mgr, "more").unwrap();
}
