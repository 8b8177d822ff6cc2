//! The session registry: the single source of truth for which sessions
//! exist. It enforces the capacity bound and name uniqueness, owns each
//! session's output buffer, and decides every lifecycle and I/O operation.
//!
//! The registry itself performs no process or socket I/O: spawning the
//! pseudo-terminal and moving bytes are the caller's work, driven by the
//! values these operations return.

use crate::buffer::{
    line_views, push_bytes, BufferModel, TerminalBuffer,
};
use crate::error::TerminalError;
use vstd::prelude::*;
use vstd::string::StrSliceExecFns;
use vstd::string::StringSliceAdditionalSpecFns;

verus! {

/// Completed lines a session's buffer retains at most.
pub const DEFAULT_BUFFER_LINES: usize = 10000;

/// Terminal width used when a create request names none.
pub const DEFAULT_COLS: u16 = 120;

/// Terminal height used when a create request names none.
pub const DEFAULT_ROWS: u16 = 40;

/// One live session's addressing metadata.
#[derive(Debug)]
pub struct TerminalSession {
    /// Process-lifetime-unique opaque identifier, fixed at creation.
    pub id: u64,
    /// Client-chosen label, unique among live sessions.
    pub name: String,
    /// Working directory the shell was started in.
    pub cwd: String,
    /// Program spawned on the pseudo-terminal's slave side.
    pub shell: String,
    /// Terminal width in columns.
    pub cols: u16,
    /// Terminal height in rows.
    pub rows: u16,
    /// Creation time, in milliseconds since the epoch, as the caller gave it.
    pub created_at: i64,
    /// Where the session stands in its lifecycle.
    pub status: SessionStatus,
    /// OS process id of the spawned shell, if the platform exposed one.
    pub pid: Option<u32>,
}

/// Lifecycle states of a session.
#[derive(Debug, PartialEq)]
pub enum SessionStatus {
    /// The process is being set up.
    Starting,
    /// The process is live.
    Running,
    /// The process is live but quiet.
    Idle,
    /// The process ended; terminal state.
    Stopped,
    /// An unrecoverable failure, with its reason.
    Error(String),
}

/// What a client asks for when creating a session; absent fields fall back
/// to the registry's configured defaults.
#[derive(Debug)]
pub struct SessionConfig {
    /// Label for the new session; must be free among live sessions.
    pub name: String,
    /// Working directory; the registry's workspace root when absent.
    pub cwd: Option<String>,
    /// Shell program; the registry's default shell when absent.
    pub shell: Option<String>,
    /// Terminal width; `DEFAULT_COLS` when absent.
    pub cols: Option<u16>,
    /// Terminal height; `DEFAULT_ROWS` when absent.
    pub rows: Option<u16>,
    /// Extra environment entries, merged over the defaults.
    pub env: Option<Vec<(String, String)>>,
}

/// A create request with every default resolved: what the caller must spawn
/// a pseudo-terminal from before admitting the session.
#[derive(Debug)]
pub struct CreatePlan {
    /// Session label, checked free when the plan was made.
    pub name: String,
    /// Resolved working directory.
    pub cwd: String,
    /// Resolved shell program.
    pub shell: String,
    /// Resolved width.
    pub cols: u16,
    /// Resolved height.
    pub rows: u16,
    /// Environment for the child: the defaults first, then the request's own
    /// entries, later entries overriding earlier ones.
    pub env: Vec<(String, String)>,
}

impl Clone for SessionStatus {
    fn clone(&self) -> (r: Self)
        ensures
            r == *self,
    {
        match self {
            SessionStatus::Starting => SessionStatus::Starting,
            SessionStatus::Running => SessionStatus::Running,
            SessionStatus::Idle => SessionStatus::Idle,
            SessionStatus::Stopped => SessionStatus::Stopped,
            SessionStatus::Error(s) => SessionStatus::Error(s.clone()),
        }
    }
}

impl Clone for TerminalSession {
    fn clone(&self) -> (r: Self)
        ensures
            r == *self,
    {
        TerminalSession {
            id: self.id,
            name: self.name.clone(),
            cwd: self.cwd.clone(),
            shell: self.shell.clone(),
            cols: self.cols,
            rows: self.rows,
            created_at: self.created_at,
            status: self.status.clone(),
            pid: self.pid,
        }
    }
}

/// A session's metadata bound to its output buffer; the registry is the sole
/// owner, and both live and die together.
struct SessionRecord {
    info: TerminalSession,
    buffer: TerminalBuffer,
}

/// Mathematical state of a `SessionManager`: the live sessions and their
/// buffer models in creation order, plus the registry's fixed configuration.
pub ghost struct RegistryModel {
    /// Live sessions, oldest first.
    pub sessions: Seq<TerminalSession>,
    /// The output buffer of each session, at the same index.
    pub buffers: Seq<BufferModel>,
    /// The id the next created session will take.
    pub next_id: u64,
    /// Capacity: how many sessions may be live at once.
    pub max_sessions: nat,
    /// Shell used when a create request names none.
    pub default_shell: Seq<char>,
    /// Working directory used when a create request names none.
    pub workspace_root: Seq<char>,
}

/// The environment entries a create request asked for, if any.
pub open spec fn requested_env(config: &SessionConfig) -> Seq<(String, String)> {
    match config.env {
        Some(v) => v@,
        None => Seq::empty(),
    }
}

/// A plan's environment: the default `TERM` entry first, then exactly the
/// requested entries, in order.
pub open spec fn plan_env_ok(env: Seq<(String, String)>, req: Seq<(String, String)>) -> bool {
    &&& env.len() == req.len() + 1
    &&& env[0].0@ == "TERM"@
    &&& env[0].1@ == "xterm-256color"@
    &&& forall|k: int|
        0 <= k < req.len() ==> (#[trigger] env[k + 1]).0@ == req[k].0@ && env[k + 1].1@
            == req[k].1@
}

/// The same session with its stored dimensions replaced.
pub open spec fn resized(s: TerminalSession, cols: u16, rows: u16) -> TerminalSession {
    TerminalSession {
        id: s.id,
        name: s.name,
        cwd: s.cwd,
        shell: s.shell,
        cols: cols,
        rows: rows,
        created_at: s.created_at,
        status: s.status,
        pid: s.pid,
    }
}

/// The same session with its status replaced.
pub open spec fn with_status(s: TerminalSession, status: SessionStatus) -> TerminalSession {
    TerminalSession {
        id: s.id,
        name: s.name,
        cwd: s.cwd,
        shell: s.shell,
        cols: s.cols,
        rows: s.rows,
        created_at: s.created_at,
        status: status,
        pid: s.pid,
    }
}

/// A buffer model after a flush: same capacity, nothing retained, nothing
/// pending.
pub open spec fn cleared(b: BufferModel) -> BufferModel {
    BufferModel { cap: b.cap, lines: Seq::empty(), partial: Seq::empty() }
}

/// Lines joined into one text block with a newline between each pair.
pub open spec fn join_lines(lines: Seq<Seq<char>>) -> Seq<char>
    decreases lines.len(),
{
    if lines.len() == 0 {
        Seq::empty()
    } else if lines.len() == 1 {
        lines[0]
    } else {
        join_lines(lines.drop_last()) + seq!['\n'] + lines.last()
    }
}

/// The parts of the registry that lifecycle operations must not touch.
pub open spec fn same_admin(a: RegistryModel, b: RegistryModel) -> bool {
    &&& a.max_sessions == b.max_sessions
    &&& a.default_shell == b.default_shell
    &&& a.workspace_root == b.workspace_root
}

/// Join a vector of lines with newlines.
fn join_all(lines: &Vec<String>) -> (r: String)
    ensures
        r@ == join_lines(line_views(lines@)),
{
    let ghost all = line_views(lines@);
    let m = lines.len();
    let mut out = String::new();
    let mut i: usize = 0;
    while i < m
        invariant
            i <= m,
            m == lines@.len(),
            all == line_views(lines@),
            out@ == join_lines(all.take(i as int)),
        decreases m - i,
    {
        if i > 0 {
            out.append("\n");
            proof {
                reveal_strlit("\n");
                assert("\n"@ =~= seq!['\n']);
            }
        }
        out.append(lines[i].as_str());
        proof {
            assert(all.take(i as int + 1).drop_last() =~= all.take(i as int));
            assert(all.take(i as int + 1).last() == all[i as int]);
            if i == 0 {
                assert(out@ =~= join_lines(all.take(1)));
            }
        }
        i = i + 1;
    }
    proof {
        assert(all.take(m as int) =~= all);
    }
    out
}

/// No two sessions share an id.
pub open spec fn unique_ids(sessions: Seq<TerminalSession>) -> bool {
    forall|i: int, j: int|
        0 <= i < j < sessions.len() ==> (#[trigger] sessions[i]).id != (#[trigger] sessions[j]).id
}

/// No two sessions share a name.
pub open spec fn unique_names(sessions: Seq<TerminalSession>) -> bool {
    forall|i: int, j: int|
        0 <= i < j < sessions.len() ==> (#[trigger] sessions[i]).name@ != (
        #[trigger] sessions[j]).name@
}

/// Replacing one session with another that keeps its id and name preserves
/// uniqueness of both keys.
proof fn lemma_update_same_keys(sessions: Seq<TerminalSession>, i: int, s: TerminalSession)
    requires
        unique_ids(sessions),
        unique_names(sessions),
        0 <= i < sessions.len(),
        s.id == sessions[i].id,
        s.name@ == sessions[i].name@,
    ensures
        unique_ids(sessions.update(i, s)),
        unique_names(sessions.update(i, s)),
{
    let t = sessions.update(i, s);
    assert forall|a: int, b: int| 0 <= a < b < t.len() implies (#[trigger] t[a]).id != (
    #[trigger] t[b]).id && t[a].name@ != t[b].name@ by {
        assert(sessions[a].id != sessions[b].id);
        assert(sessions[a].name@ != sessions[b].name@);
    }
}

/// Removing a session keeps ids and names unique, and no remaining session
/// carries the removed session's id or name.
pub proof fn lemma_remove_keeps_unique(sessions: Seq<TerminalSession>, i: int)
    requires
        unique_ids(sessions),
        unique_names(sessions),
        0 <= i < sessions.len(),
    ensures
        unique_ids(sessions.remove(i)),
        unique_names(sessions.remove(i)),
        forall|k: int|
            0 <= k < sessions.remove(i).len() ==> (#[trigger] sessions.remove(i)[k]).id
                != sessions[i].id && sessions.remove(i)[k].name@ != sessions[i].name@,
{
    let t = sessions.remove(i);
    assert forall|a: int, b: int| 0 <= a < b < t.len() implies (#[trigger] t[a]).id != (
    #[trigger] t[b]).id && t[a].name@ != t[b].name@ by {
        let a0 = if a < i { a } else { a + 1 };
        let b0 = if b < i { b } else { b + 1 };
        assert(t[a] == sessions[a0]);
        assert(t[b] == sessions[b0]);
        assert(sessions[a0].id != sessions[b0].id);
        assert(sessions[a0].name@ != sessions[b0].name@);
    }
    assert forall|k: int| 0 <= k < t.len() implies (#[trigger] t[k]).id != sessions[i].id
        && t[k].name@ != sessions[i].name@ by {
        let k0 = if k < i { k } else { k + 1 };
        assert(t[k] == sessions[k0]);
        if k0 < i {
            assert(sessions[k0].id != sessions[i].id);
            assert(sessions[k0].name@ != sessions[i].name@);
        } else {
            assert(sessions[i].id != sessions[k0].id);
            assert(sessions[i].name@ != sessions[k0].name@);
        }
    }
}

/// Capacity law: `create` reports `MaxSessions` exactly when the live count
/// has reached the configured maximum — so with capacity `N`, admitting an
/// `(N+1)`th concurrent session fails — and killing any live session brings
/// the count back under the bound, making capacity available again.
pub proof fn lemma_kill_frees_capacity(before: RegistryModel, after: RegistryModel, i: int)
    requires
        before.sessions.len() <= before.max_sessions,
        0 <= i < before.sessions.len(),
        after.sessions == before.sessions.remove(i),
        after.max_sessions == before.max_sessions,
    ensures
        after.sessions.len() < after.max_sessions,
{
}

/// Name-reuse law: while a session holds a name, `create` with that name
/// fails the uniqueness check; once that session is removed, no live
/// session holds the name, so the check passes again.
pub proof fn lemma_kill_frees_name(sessions: Seq<TerminalSession>, i: int)
    requires
        unique_names(sessions),
        0 <= i < sessions.len(),
    ensures
        forall|k: int|
            0 <= k < sessions.remove(i).len() ==> (#[trigger] sessions.remove(i)[k]).name@
                != sessions[i].name@,
{
    let t = sessions.remove(i);
    assert forall|k: int| 0 <= k < t.len() implies (#[trigger] t[k]).name@ != sessions[i].name@ by {
        let k0 = if k < i { k } else { k + 1 };
        assert(t[k] == sessions[k0]);
        if k0 < i {
            assert(sessions[k0].name@ != sessions[i].name@);
        } else {
            assert(sessions[i].name@ != sessions[k0].name@);
        }
    }
}

/// Idempotence law: flushing a session's buffer twice in a row leaves the
/// registry's buffers exactly as flushing it once does.
pub proof fn lemma_flush_idempotent(bufs: Seq<BufferModel>, i: int)
    requires
        0 <= i < bufs.len(),
    ensures
        ({
            let once = bufs.update(i, cleared(bufs[i]));
            once.update(i, cleared(once[i])) == once
        }),
{
    let once = bufs.update(i, cleared(bufs[i]));
    assert(once.update(i, cleared(once[i])) =~= once);
}

/// Registry of live sessions.
pub struct SessionManager {
    records: Vec<SessionRecord>,
    next_id: u64,
    max_sessions: usize,
    default_shell: String,
    workspace_root: String,
}

impl View for SessionManager {
    type V = RegistryModel;

    closed spec fn view(&self) -> RegistryModel {
        RegistryModel {
            sessions: Seq::new(self.records@.len(), |i: int| self.records@[i].info),
            buffers: Seq::new(self.records@.len(), |i: int| self.records@[i].buffer@),
            next_id: self.next_id,
            max_sessions: self.max_sessions as nat,
            default_shell: self.default_shell@,
            workspace_root: self.workspace_root@,
        }
    }
}

impl SessionManager {
    /// How many sessions are live.
    pub open spec fn live_count(&self) -> nat {
        self@.sessions.len()
    }

    /// Some live session has this id.
    pub open spec fn has_id(&self, id: u64) -> bool {
        exists|i: int| 0 <= i < self@.sessions.len() && (#[trigger] self@.sessions[i]).id == id
    }

    /// The position of the live session with this id.
    pub open spec fn id_index(&self, id: u64) -> int {
        choose|i: int| 0 <= i < self@.sessions.len() && (#[trigger] self@.sessions[i]).id == id
    }

    /// Some live session has this name.
    pub open spec fn has_name(&self, name: Seq<char>) -> bool {
        exists|i: int| 0 <= i < self@.sessions.len() && (#[trigger] self@.sessions[i]).name@ == name
    }

    /// The registry's invariant: one buffer per session, ids and names
    /// unique, every id below the allocator's next, every buffer within its
    /// capacity.
    pub open spec fn wf(&self) -> bool {
        &&& self@.buffers.len() == self@.sessions.len()
        &&& unique_ids(self@.sessions)
        &&& unique_names(self@.sessions)
        &&& forall|i: int|
            0 <= i < self@.sessions.len() ==> (#[trigger] self@.sessions[i]).id < self@.next_id
        &&& forall|i: int|
            0 <= i < self@.buffers.len() ==> (#[trigger] self@.buffers[i]).lines.len()
                <= self@.buffers[i].cap
    }

    /// A fresh registry with its configuration fixed at construction.
    pub fn new(workspace_root: String, max_sessions: usize, default_shell: String) -> (r:
        SessionManager)
        ensures
            r.wf(),
            r@.sessions =~= Seq::<TerminalSession>::empty(),
            r@.buffers =~= Seq::<BufferModel>::empty(),
            r@.next_id == 0,
            r@.max_sessions == max_sessions,
            r@.default_shell == default_shell@,
            r@.workspace_root == workspace_root@,
    {
        SessionManager {
            records: Vec::new(),
            next_id: 0,
            max_sessions,
            default_shell,
            workspace_root,
        }
    }

    /// The id the next created session will take; callers check it is not
    /// exhausted before admitting a session.
    pub fn next_session_id(&self) -> (r: u64)
        ensures
            r == self@.next_id,
    {
        self.next_id
    }

    /// Index of the record with this id, scanning in creation order.
    fn find_by_id(&self, id: u64) -> (r: Option<usize>)
        ensures
            match r {
                Some(i) => 0 <= i < self@.sessions.len() && self@.sessions[i as int].id == id,
                None => !self.has_id(id),
            },
    {
        let n = self.records.len();
        let mut i: usize = 0;
        while i < n
            invariant
                i <= n,
                n == self.records@.len(),
                forall|k: int| 0 <= k < i ==> (#[trigger] self@.sessions[k]).id != id,
            decreases n - i,
        {
            if self.records[i].info.id == id {
                return Some(i);
            }
            i = i + 1;
        }
        None
    }

    /// Index of the record with this name.
    fn find_by_name(&self, name: &String) -> (r: Option<usize>)
        ensures
            match r {
                Some(i) => 0 <= i < self@.sessions.len() && self@.sessions[i as int].name@
                    == name@,
                None => !self.has_name(name@),
            },
    {
        let n = self.records.len();
        let mut i: usize = 0;
        while i < n
            invariant
                i <= n,
                n == self.records@.len(),
                forall|k: int| 0 <= k < i ==> (#[trigger] self@.sessions[k]).name@ != name@,
            decreases n - i,
        {
            if self.records[i].info.name == *name {
                return Some(i);
            }
            i = i + 1;
        }
        None
    }

    /// The session with this id, if one is live.
    pub fn get_session(&self, id: u64) -> (r: Option<TerminalSession>)
        requires
            self.wf(),
        ensures
            match r {
                Some(s) => self.has_id(id) && s == self@.sessions[self.id_index(id)],
                None => !self.has_id(id),
            },
    {
        match self.find_by_id(id) {
            Some(i) => {
                proof {
                    self.lemma_id_index_is(id, i as int);
                }
                Some(self.records[i].info.clone())
            },
            None => None,
        }
    }

    /// The session with this name, if one is live.
    pub fn get_session_by_name(&self, name: &str) -> (r: Option<TerminalSession>)
        requires
            self.wf(),
        ensures
            match r {
                Some(s) => self.has_name(name@) && exists|i: int|
                    0 <= i < self@.sessions.len() && (#[trigger] self@.sessions[i]).name@ == name@
                        && s == self@.sessions[i],
                None => !self.has_name(name@),
            },
    {
        let key: String = name.to_owned();
        match self.find_by_name(&key) {
            Some(i) => Some(self.records[i].info.clone()),
            None => None,
        }
    }

    /// The id behind a name, if one is live.
    pub fn resolve_name(&self, name: &str) -> (r: Option<u64>)
        requires
            self.wf(),
        ensures
            match r {
                Some(id) => self.has_name(name@) && exists|i: int|
                    0 <= i < self@.sessions.len() && (#[trigger] self@.sessions[i]).name@ == name@
                        && self@.sessions[i].id == id,
                None => !self.has_name(name@),
            },
    {
        let key: String = name.to_owned();
        match self.find_by_name(&key) {
            Some(i) => Some(self.records[i].info.id),
            None => None,
        }
    }

    /// Every live session's metadata, in creation order.
    pub fn list_sessions(&self) -> (r: Vec<TerminalSession>)
        ensures
            r@ == self@.sessions,
    {
        let n = self.records.len();
        let mut out: Vec<TerminalSession> = Vec::new();
        let mut i: usize = 0;
        while i < n
            invariant
                i <= n,
                n == self.records@.len(),
                out@.len() == i,
                forall|k: int| 0 <= k < i ==> out@[k] == (#[trigger] self@.sessions[k]),
            decreases n - i,
        {
            out.push(self.records[i].info.clone());
            i = i + 1;
        }
        proof {
            assert(out@ =~= self@.sessions);
        }
        out
    }

    /// Check a create request against capacity and name uniqueness, and
    /// resolve its defaults. The caller spawns a pseudo-terminal from the
    /// plan and then admits the session with `create_session`.
    pub fn plan_create(&self, config: &SessionConfig) -> (r: Result<CreatePlan, TerminalError>)
        requires
            self.wf(),
        ensures
            match r {
                Ok(plan) => {
                    &&& self.live_count() < self@.max_sessions
                    &&& !self.has_name(config.name@)
                    &&& plan.name@ == config.name@
                    &&& plan.shell@ == match config.shell {
                        Some(s) => s@,
                        None => self@.default_shell,
                    }
                    &&& plan.cwd@ == match config.cwd {
                        Some(c) => c@,
                        None => self@.workspace_root,
                    }
                    &&& plan.cols == match config.cols {
                        Some(c) => c,
                        None => DEFAULT_COLS,
                    }
                    &&& plan.rows == match config.rows {
                        Some(rws) => rws,
                        None => DEFAULT_ROWS,
                    }
                    &&& plan_env_ok(plan.env@, requested_env(config))
                },
                Err(TerminalError::MaxSessions) => self.live_count() >= self@.max_sessions,
                Err(TerminalError::SessionExists(n)) => self.live_count() < self@.max_sessions
                    && self.has_name(config.name@) && n@ == config.name@,
                Err(_) => false,
            },
    {
        if self.records.len() >= self.max_sessions {
            return Err(TerminalError::MaxSessions);
        }
        if let Some(i) = self.find_by_name(&config.name) {
            proof {
                assert(self.has_name(config.name@));
            }
            return Err(TerminalError::SessionExists(config.name.clone()));
        }
        let shell = match &config.shell {
            Some(s) => s.clone(),
            None => self.default_shell.clone(),
        };
        let cwd = match &config.cwd {
            Some(c) => c.clone(),
            None => self.workspace_root.clone(),
        };
        let cols = match config.cols {
            Some(c) => c,
            None => DEFAULT_COLS,
        };
        let rows = match config.rows {
            Some(rws) => rws,
            None => DEFAULT_ROWS,
        };
        let mut env: Vec<(String, String)> = Vec::new();
        env.push((String::from_str("TERM"), String::from_str("xterm-256color")));
        match &config.env {
            Some(pairs) => {
                let m = pairs.len();
                let mut k: usize = 0;
                while k < m
                    invariant
                        k <= m,
                        m == pairs@.len(),
                        env@.len() == k + 1,
                        env@[0].0@ == "TERM"@,
                        env@[0].1@ == "xterm-256color"@,
                        forall|t: int|
                            0 <= t < k ==> (#[trigger] env@[t + 1]).0@ == pairs@[t].0@ && env@[t
                                + 1].1@ == pairs@[t].1@,
                    decreases m - k,
                {
                    let pair = (pairs[k].0.clone(), pairs[k].1.clone());
                    env.push(pair);
                    k = k + 1;
                }
            },
            None => {},
        }
        Ok(CreatePlan { name: config.name.clone(), cwd, shell, cols, rows, env })
    }

    /// Admit a session spawned from `plan`: re-check capacity and name
    /// uniqueness, allocate a fresh id, index the name, and give the session
    /// an empty output buffer. Its initial status is `Running`.
    pub fn create_session(&mut self, plan: CreatePlan, pid: Option<u32>, created_at: i64) -> (r:
        Result<TerminalSession, TerminalError>)
        requires
            old(self).wf(),
            old(self)@.next_id < u64::MAX,
        ensures
            final(self).wf(),
            match r {
                Ok(s) => {
                    &&& old(self).live_count() < old(self)@.max_sessions
                    &&& !old(self).has_name(plan.name@)
                    &&& s.id == old(self)@.next_id
                    &&& s.name == plan.name
                    &&& s.cwd == plan.cwd
                    &&& s.shell == plan.shell
                    &&& s.cols == plan.cols
                    &&& s.rows == plan.rows
                    &&& s.created_at == created_at
                    &&& s.status == SessionStatus::Running
                    &&& s.pid == pid
                    &&& final(self)@.sessions == old(self)@.sessions.push(s)
                    &&& final(self)@.buffers == old(self)@.buffers.push(
                        crate::buffer::empty_model(DEFAULT_BUFFER_LINES as nat),
                    )
                    &&& final(self)@.next_id == old(self)@.next_id + 1
                    &&& same_admin(final(self)@, old(self)@)
                },
                Err(TerminalError::MaxSessions) => {
                    &&& old(self).live_count() >= old(self)@.max_sessions
                    &&& final(self)@ == old(self)@
                },
                Err(TerminalError::SessionExists(n)) => {
                    &&& old(self).live_count() < old(self)@.max_sessions
                    &&& old(self).has_name(plan.name@)
                    &&& n@ == plan.name@
                    &&& final(self)@ == old(self)@
                },
                Err(_) => false,
            },
    {
        if self.records.len() >= self.max_sessions {
            return Err(TerminalError::MaxSessions);
        }
        if let Some(i) = self.find_by_name(&plan.name) {
            proof {
                assert(self.has_name(plan.name@));
            }
            return Err(TerminalError::SessionExists(plan.name));
        }
        let id = self.next_id;
        self.next_id = id + 1;
        let info = TerminalSession {
            id,
            name: plan.name,
            cwd: plan.cwd,
            shell: plan.shell,
            cols: plan.cols,
            rows: plan.rows,
            created_at,
            status: SessionStatus::Running,
            pid,
        };
        let record = SessionRecord {
            info: info.clone(),
            buffer: TerminalBuffer::new(DEFAULT_BUFFER_LINES),
        };
        self.records.push(record);
        proof {
            let new = self@;
            let pre = old(self)@;
            assert(new.sessions =~= pre.sessions.push(info));
            assert(new.buffers =~= pre.buffers.push(
                crate::buffer::empty_model(DEFAULT_BUFFER_LINES as nat),
            ));
            assert forall|a: int, b: int| 0 <= a < b < new.sessions.len() implies (
            #[trigger] new.sessions[a]).id != (#[trigger] new.sessions[b]).id by {
                if b < pre.sessions.len() as int {
                    assert(pre.sessions[a].id != pre.sessions[b].id);
                } else {
                    assert(pre.sessions[a].id < pre.next_id);
                }
            }
            assert forall|a: int, b: int| 0 <= a < b < new.sessions.len() implies (
            #[trigger] new.sessions[a]).name@ != (#[trigger] new.sessions[b]).name@ by {
                if b < pre.sessions.len() as int {
                    assert(pre.sessions[a].name@ != pre.sessions[b].name@);
                } else {
                    assert(!old(self).has_name(plan.name@));
                    assert(pre.sessions[a].name@ != plan.name@);
                }
            }
        }
        Ok(info)
    }

    /// Bytes to forward to a session's process for `command`: the command
    /// followed by a single newline. The caller writes the returned bytes to
    /// the process's input; on `Err` nothing must be written.
    pub fn exec(&self, id: u64, command: &str) -> (r: Result<Vec<u8>, TerminalError>)
        requires
            self.wf(),
        ensures
            match r {
                Ok(bytes) => self.has_id(id) && bytes@ == command.spec_bytes().push(10u8),
                Err(TerminalError::SessionNotFound(e)) => e == id && !self.has_id(id),
                Err(_) => false,
            },
    {
        match self.find_by_id(id) {
            None => Err(TerminalError::SessionNotFound(id)),
            Some(_) => {
                let mut bytes = command.as_bytes_vec();
                bytes.push(10u8);
                Ok(bytes)
            },
        }
    }

    /// Raw passthrough check: a write of `data` to session `id` is in order
    /// exactly when the session is live. The caller forwards `data` to the
    /// process's input unchanged, with no framing added.
    #[allow(unused_variables)]
    pub fn write(&self, id: u64, data: &[u8]) -> (r: Result<(), TerminalError>)
        requires
            self.wf(),
        ensures
            match r {
                Ok(()) => self.has_id(id),
                Err(TerminalError::SessionNotFound(e)) => e == id && !self.has_id(id),
                Err(_) => false,
            },
    {
        match self.find_by_id(id) {
            None => Err(TerminalError::SessionNotFound(id)),
            Some(_) => Ok(()),
        }
    }

    /// Feed bytes the background reader drained from the process into the
    /// session's output buffer.
    pub fn push_output(&mut self, id: u64, data: &[u8]) -> (r: Result<(), TerminalError>)
        requires
            old(self).wf(),
        ensures
            final(self).wf(),
            match r {
                Ok(()) => {
                    &&& old(self).has_id(id)
                    &&& final(self)@.sessions == old(self)@.sessions
                    &&& final(self)@.buffers == old(self)@.buffers.update(
                        old(self).id_index(id),
                        push_bytes(old(self)@.buffers[old(self).id_index(id)], data@),
                    )
                    &&& final(self)@.next_id == old(self)@.next_id
                    &&& same_admin(final(self)@, old(self)@)
                },
                Err(TerminalError::SessionNotFound(e)) => e == id && !old(self).has_id(id)
                    && final(self)@ == old(self)@,
                Err(_) => false,
            },
    {
        match self.find_by_id(id) {
            None => Err(TerminalError::SessionNotFound(id)),
            Some(j) => {
                proof {
                    self.lemma_id_index_is(id, j as int);
                }
                let ghost pre = self@;
                let mut record = self.records.remove(j);
                proof {
                    assert(record.buffer@ == pre.buffers[j as int]);
                    assert(pre.buffers[j as int].lines.len() <= pre.buffers[j as int].cap);
                }
                record.buffer.push(data);
                self.records.insert(j, record);
                proof {
                    assert(self@.sessions =~= pre.sessions);
                    assert(self@.buffers =~= pre.buffers.update(
                        j as int,
                        push_bytes(pre.buffers[j as int], data@),
                    ));
                }
                Ok(())
            },
        }
    }

    /// Update the stored dimensions of a live session. The running terminal
    /// itself is not resized: the master control does not survive the
    /// detachment done at spawn, a documented limitation.
    pub fn resize(&mut self, id: u64, cols: u16, rows: u16) -> (r: Result<(), TerminalError>)
        requires
            old(self).wf(),
        ensures
            final(self).wf(),
            match r {
                Ok(()) => {
                    &&& old(self).has_id(id)
                    &&& final(self)@.sessions == old(self)@.sessions.update(
                        old(self).id_index(id),
                        resized(old(self)@.sessions[old(self).id_index(id)], cols, rows),
                    )
                    &&& final(self)@.buffers == old(self)@.buffers
                    &&& final(self)@.next_id == old(self)@.next_id
                    &&& same_admin(final(self)@, old(self)@)
                },
                Err(TerminalError::SessionNotFound(e)) => e == id && !old(self).has_id(id)
                    && final(self)@ == old(self)@,
                Err(_) => false,
            },
    {
        match self.find_by_id(id) {
            None => Err(TerminalError::SessionNotFound(id)),
            Some(j) => {
                proof {
                    self.lemma_id_index_is(id, j as int);
                }
                let ghost pre = self@;
                let mut record = self.records.remove(j);
                record.info.cols = cols;
                record.info.rows = rows;
                self.records.insert(j, record);
                proof {
                    assert(self@.sessions =~= pre.sessions.update(
                        j as int,
                        resized(pre.sessions[j as int], cols, rows),
                    ));
                    assert(self@.buffers =~= pre.buffers);
                    lemma_update_same_keys(
                        pre.sessions,
                        j as int,
                        resized(pre.sessions[j as int], cols, rows),
                    );
                }
                Ok(())
            },
        }
    }

    /// The background reader saw end-of-stream or an I/O failure: mark the
    /// session `Stopped`, or `Error` with the reason it reported.
    pub fn mark_stream_end(&mut self, id: u64, error: Option<String>) -> (r: Result<
        (),
        TerminalError,
    >)
        requires
            old(self).wf(),
        ensures
            final(self).wf(),
            match r {
                Ok(()) => {
                    &&& old(self).has_id(id)
                    &&& final(self)@.sessions == old(self)@.sessions.update(
                        old(self).id_index(id),
                        with_status(
                            old(self)@.sessions[old(self).id_index(id)],
                            match error {
                                Some(reason) => SessionStatus::Error(reason),
                                None => SessionStatus::Stopped,
                            },
                        ),
                    )
                    &&& final(self)@.buffers == old(self)@.buffers
                    &&& final(self)@.next_id == old(self)@.next_id
                    &&& same_admin(final(self)@, old(self)@)
                },
                Err(TerminalError::SessionNotFound(e)) => e == id && !old(self).has_id(id)
                    && final(self)@ == old(self)@,
                Err(_) => false,
            },
    {
        match self.find_by_id(id) {
            None => Err(TerminalError::SessionNotFound(id)),
            Some(j) => {
                proof {
                    self.lemma_id_index_is(id, j as int);
                }
                let ghost pre = self@;
                let mut record = self.records.remove(j);
                let status = match error {
                    Some(reason) => SessionStatus::Error(reason),
                    None => SessionStatus::Stopped,
                };
                let ghost st = status;
                record.info.status = status;
                self.records.insert(j, record);
                proof {
                    let target = with_status(pre.sessions[j as int], st);
                    assert(self@.sessions =~= pre.sessions.update(j as int, target));
                    assert(self@.buffers =~= pre.buffers);
                    lemma_update_same_keys(pre.sessions, j as int, target);
                }
                Ok(())
            },
        }
    }

    /// Remove a session, free its name, and release its record. The caller
    /// drops the process handle — terminating the child — and stops the
    /// session's background reader.
    pub fn kill(&mut self, id: u64) -> (r: Result<(), TerminalError>)
        requires
            old(self).wf(),
        ensures
            final(self).wf(),
            match r {
                Ok(()) => {
                    &&& old(self).has_id(id)
                    &&& final(self)@.sessions == old(self)@.sessions.remove(old(self).id_index(id))
                    &&& final(self)@.buffers == old(self)@.buffers.remove(old(self).id_index(id))
                    &&& !final(self).has_id(id)
                    &&& !final(self).has_name(old(self)@.sessions[old(self).id_index(id)].name@)
                    &&& final(self)@.next_id == old(self)@.next_id
                    &&& same_admin(final(self)@, old(self)@)
                },
                Err(TerminalError::SessionNotFound(e)) => e == id && !old(self).has_id(id)
                    && final(self)@ == old(self)@,
                Err(_) => false,
            },
    {
        match self.find_by_id(id) {
            None => Err(TerminalError::SessionNotFound(id)),
            Some(j) => {
                proof {
                    self.lemma_id_index_is(id, j as int);
                }
                let ghost pre = self@;
                let _removed = self.records.remove(j);
                proof {
                    assert(self@.sessions =~= pre.sessions.remove(j as int));
                    assert(self@.buffers =~= pre.buffers.remove(j as int));
                    lemma_remove_keeps_unique(pre.sessions, j as int);
                }
                Ok(())
            },
        }
    }

    /// Empty a session's output buffer: retained lines and the pending
    /// partial line. The process itself is untouched.
    pub fn flush_buffer(&mut self, id: u64) -> (r: Result<(), TerminalError>)
        requires
            old(self).wf(),
        ensures
            final(self).wf(),
            match r {
                Ok(()) => {
                    &&& old(self).has_id(id)
                    &&& final(self)@.sessions == old(self)@.sessions
                    &&& final(self)@.buffers == old(self)@.buffers.update(
                        old(self).id_index(id),
                        cleared(old(self)@.buffers[old(self).id_index(id)]),
                    )
                    &&& final(self)@.next_id == old(self)@.next_id
                    &&& same_admin(final(self)@, old(self)@)
                },
                Err(TerminalError::SessionNotFound(e)) => e == id && !old(self).has_id(id)
                    && final(self)@ == old(self)@,
                Err(_) => false,
            },
    {
        match self.find_by_id(id) {
            None => Err(TerminalError::SessionNotFound(id)),
            Some(j) => {
                proof {
                    self.lemma_id_index_is(id, j as int);
                }
                let ghost pre = self@;
                let mut record = self.records.remove(j);
                record.buffer.clear();
                self.records.insert(j, record);
                proof {
                    assert(self@.sessions =~= pre.sessions);
                    assert(self@.buffers =~= pre.buffers.update(
                        j as int,
                        cleared(pre.buffers[j as int]),
                    ));
                }
                Ok(())
            },
        }
    }

    /// Snapshot of a session's output buffer: the last `limit` lines, or all
    /// retained lines when no limit is given. Oldest first either way.
    pub fn get_buffer(&self, id: u64, limit: Option<usize>) -> (r: Result<
        Vec<String>,
        TerminalError,
    >)
        requires
            self.wf(),
        ensures
            match r {
                Ok(v) => {
                    &&& self.has_id(id)
                    &&& line_views(v@) == match limit {
                        Some(n) => crate::buffer::last_n(
                            self@.buffers[self.id_index(id)].lines,
                            n as nat,
                        ),
                        None => self@.buffers[self.id_index(id)].lines,
                    }
                },
                Err(TerminalError::SessionNotFound(e)) => e == id && !self.has_id(id),
                Err(_) => false,
            },
    {
        match self.find_by_id(id) {
            None => Err(TerminalError::SessionNotFound(id)),
            Some(j) => {
                proof {
                    self.lemma_id_index_is(id, j as int);
                }
                match limit {
                    Some(n) => Ok(self.records[j].buffer.get_recent(n)),
                    None => Ok(self.records[j].buffer.get_all()),
                }
            },
        }
    }

    /// One poll of the time-boxed capture: the most recent `n` buffered
    /// lines of the session, joined with newlines. The caller repeats this
    /// at its polling interval until its timeout elapses and keeps the last
    /// non-empty snapshot; returning says nothing about command completion.
    pub fn recent_output(&self, id: u64, n: usize) -> (r: Result<String, TerminalError>)
        requires
            self.wf(),
        ensures
            match r {
                Ok(s) => self.has_id(id) && s@ == join_lines(
                    crate::buffer::last_n(self@.buffers[self.id_index(id)].lines, n as nat),
                ),
                Err(TerminalError::SessionNotFound(e)) => e == id && !self.has_id(id),
                Err(_) => false,
            },
    {
        match self.find_by_id(id) {
            None => Err(TerminalError::SessionNotFound(id)),
            Some(j) => {
                proof {
                    self.lemma_id_index_is(id, j as int);
                }
                let lines = self.records[j].buffer.get_recent(n);
                Ok(join_all(&lines))
            },
        }
    }

    /// How the fixed-duration capture folds its polls: each non-empty
    /// snapshot replaces what was held, an empty one changes nothing, and
    /// the last held snapshot is what the capture returns.
    pub fn latest_snapshot(previous: String, current: String) -> (r: String)
        ensures
            r@ == if current@.len() == 0 {
                previous@
            } else {
                current@
            },
    {
        if current.as_str().is_empty() {
            previous
        } else {
            current
        }
    }

    /// With unique ids, the id's index is exactly the position found.
    proof fn lemma_id_index_is(&self, id: u64, j: int)
        requires
            self.wf(),
            0 <= j < self@.sessions.len(),
            self@.sessions[j].id == id,
        ensures
            self.id_index(id) == j,
            self.has_id(id),
    {
        assert(self.has_id(id));
        let k = self.id_index(id);
        if k != j {
            if k < j {
                assert(self@.sessions[k].id != self@.sessions[j].id);
            } else {
                assert(self@.sessions[j].id != self@.sessions[k].id);
            }
        }
    }
}

} // verus!

