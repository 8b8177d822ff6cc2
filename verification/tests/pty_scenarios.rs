//! End-to-end scenarios against a real shell on a real pseudo-terminal:
//! the registry plans and admits the session, the test plays the part of
//! the spawner and the background reader.

use portable_pty::{native_pty_system, CommandBuilder, PtySize};
use std::io::{Read, Write};
use terminal_core::session::{SessionConfig, SessionManager, TerminalSession};

struct LiveSession {
    session: TerminalSession,
    reader: Box<dyn Read + Send>,
    writer: Box<dyn Write + Send>,
}

fn spawn_shell(mgr: &mut SessionManager, name: &str) -> LiveSession {
    let cfg = SessionConfig {
        name: name.to_string(),
        cwd: Some("/tmp".to_string()),
        shell: Some("/bin/sh".to_string()),
        cols: Some(80),
        rows: Some(24),
        // An empty prompt keeps output lines bare: nothing but the echoed
        // input and each command's own output reach the buffer.
        env: Some(vec![
            ("PS1".to_string(), "".to_string()),
            ("ENV".to_string(), "".to_string()),
        ]),
    };
    let plan = mgr.plan_create(&cfg).unwrap();
    let pty = native_pty_system();
    let pair = pty
        .openpty(PtySize {
            rows: plan.rows,
            cols: plan.cols,
            pixel_width: 0,
            pixel_height: 0,
        })
        .unwrap();
    let mut cmd = CommandBuilder::new(plan.shell.clone());
    cmd.cwd(plan.cwd.clone());
    for (key, value) in plan.env.iter() {
        cmd.env(key, value);
    }
    let child = pair.slave.spawn_command(cmd).unwrap();
    let pid = child.process_id();
    let reader = pair.master.try_clone_reader().unwrap();
    let writer = pair.master.take_writer().unwrap();
    drop(pair.master);
    drop(child);
    let session = mgr.create_session(plan, pid, 0).unwrap();
    LiveSession { session, reader, writer }
}

/// Drain output into the registry until some captured line satisfies the
/// predicate, giving the reader a bounded number of chances.
fn drain_until(
    mgr: &mut SessionManager,
    live: &mut LiveSession,
    pred: impl Fn(&str) -> bool,
) -> bool {
    let mut chunk = [0u8; 4096];
    for _ in 0..100 {
        match live.reader.read(&mut chunk) {
            Ok(0) => break,
            Ok(n) => {
                mgr.push_output(live.session.id, &chunk[..n]).unwrap();
                let lines = mgr.get_buffer(live.session.id, Some(50)).unwrap();
                if lines.iter().any(|l| pred(l)) {
                    return true;
                }
            }
            Err(_) => break,
        }
    }
    false
}

#[test]
fn exec_echo_lands_in_the_buffer() {
    let mut mgr = SessionManager::new("/tmp".to_string(), 4, "/bin/sh".to_string());
    let mut live = spawn_shell(&mut mgr, "t1");
    let id = mgr.resolve_name("t1").unwrap();
    assert_eq!(id, live.session.id);

    let bytes = mgr.exec(id, "echo hi").unwrap();
    live.writer.write_all(&bytes).unwrap();
    live.writer.flush().unwrap();

    assert!(drain_until(&mut mgr, &mut live, |l| l == "hi"));
    let recent = mgr.get_buffer(id, Some(5)).unwrap();
    assert!(recent.iter().any(|l| l == "hi"));

    mgr.kill(id).unwrap();
    assert!(mgr.list_sessions().is_empty());
}

#[test]
fn written_bytes_come_back_through_the_terminal_echo() {
    let mut mgr = SessionManager::new("/tmp".to_string(), 4, "/bin/sh".to_string());
    let mut live = spawn_shell(&mut mgr, "echoer");
    let id = live.session.id;

    let input = b"true ROUNDTRIP-MARKER\n";
    mgr.write(id, input).unwrap();
    live.writer.write_all(input).unwrap();
    live.writer.flush().unwrap();

    assert!(drain_until(&mut mgr, &mut live, |l| l.contains("ROUNDTRIP-MARKER")));
    let recent = mgr.get_buffer(id, Some(20)).unwrap();
    assert!(recent.iter().any(|l| l.contains("ROUNDTRIP-MARKER")));

    mgr.kill(id).unwrap();
}
