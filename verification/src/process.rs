//! Sandboxed host processes: the spawn-request builder, exit information and
//! the persistent-process records.
use vstd::prelude::*;
use crate::duration::{Duration, duration_to_ms, saturate_u64};

verus! {

/// Exit information for a terminated process.
#[derive(Debug, Clone, Copy, Default, PartialEq, Eq)]
pub struct ExitInfo {
    /// Normal exit code, if the process exited normally.
    pub exit_code: Option<i32>,
    /// Signal that killed the process, if any.
    pub signal: Option<i32>,
}

impl ExitInfo {
    /// Whether the process exited with status zero.
    pub fn success(&self) -> (b: bool)
        ensures
            b == (self.exit_code == Some(0i32)),
    {
        match self.exit_code {
            Some(c) => c == 0,
            None => false,
        }
    }
}

/// Result of a synchronous spawn.
#[derive(Debug, Clone, PartialEq, Eq)]
pub struct Output {
    pub stdout: String,
    pub stderr: String,
    pub exit: ExitInfo,
}

/// Buffered logs and status from a background process.
#[derive(Debug, Clone, PartialEq, Eq)]
pub struct Logs {
    pub stdout: String,
    pub stderr: String,
    pub running: bool,
    pub exit: Option<ExitInfo>,
}

/// Result of killing a background process, with its final output.
#[derive(Debug, Clone, PartialEq, Eq)]
pub struct KillResult {
    pub killed: bool,
    pub exit: Option<ExitInfo>,
    pub stdout: String,
    pub stderr: String,
}

/// Signals a background process can receive.
#[derive(Debug, Clone, Copy, PartialEq, Eq)]
pub enum Signal {
    Term,
    Hup,
    Usr1,
    Usr2,
    Int,
    Stop,
    Cont,
}

/// How an injected read-only file is exposed to the spawned child.
#[derive(Debug, Clone, PartialEq, Eq)]
pub enum InjectionPlacement {
    /// The host materializes the bytes at a host-owned path and sets the
    /// named environment variable on the child to that path.
    EnvPointer(String),
    /// The host binds the bytes read-only at this absolute in-sandbox path.
    FixedPath(String),
}

pub enum PlacementModel {
    EnvPointer(Seq<char>),
    FixedPath(Seq<char>),
}

impl View for InjectionPlacement {
    type V = PlacementModel;

    open spec fn view(&self) -> PlacementModel {
        match *self {
            InjectionPlacement::EnvPointer(s) => PlacementModel::EnvPointer(s@),
            InjectionPlacement::FixedPath(s) => PlacementModel::FixedPath(s@),
        }
    }
}

/// Per-stream ring overflow policy for a persistent process.
#[derive(Debug, Clone, Copy, PartialEq, Eq)]
pub enum OverflowPolicy {
    DropOldest,
    Backpressure,
}

/// Per-child OS resource ceilings; `None` selects the profile default.
#[derive(Debug, Clone, Copy, Default, PartialEq, Eq)]
pub struct ResourceLimits {
    pub max_memory_bytes: Option<u64>,
    pub max_cpu_secs: Option<u64>,
    pub max_pids: Option<u32>,
    pub max_open_files: Option<u32>,
}

pub open spec fn opt_chars(s: Option<String>) -> Option<Seq<char>> {
    match s {
        Some(v) => Some(v@),
        None => None,
    }
}

pub open spec fn opt_bytes(b: Option<Vec<u8>>) -> Option<Seq<u8>> {
    match b {
        Some(v) => Some(v@),
        None => None,
    }
}

pub open spec fn strings_model(v: Seq<String>) -> Seq<Seq<char>> {
    Seq::new(v.len(), |i: int| v[i]@)
}

pub open spec fn pairs_model(v: Seq<(String, String)>) -> Seq<(Seq<char>, Seq<char>)> {
    Seq::new(v.len(), |i: int| (v[i].0@, v[i].1@))
}

pub open spec fn injections_model(v: Seq<(Vec<u8>, InjectionPlacement)>) -> Seq<(Seq<u8>, PlacementModel)> {
    Seq::new(v.len(), |i: int| (v[i].0@, v[i].1@))
}

/// A spawn request as the SDK sees it.
pub struct CommandModel {
    pub cmd: Seq<char>,
    pub args: Seq<Seq<char>>,
    pub stdin: Option<Seq<u8>>,
    pub env: Seq<(Seq<char>, Seq<char>)>,
    pub cwd: Option<Seq<char>>,
    pub file_injections: Seq<(Seq<u8>, PlacementModel)>,
    pub label: Option<Seq<char>>,
    pub keep_stdin_open: bool,
    pub overflow: Option<OverflowPolicy>,
    pub log_ring_bytes: Option<u32>,
    pub max_lifetime: Option<Duration>,
    pub idle_timeout: Option<Duration>,
    pub exit_retention: Option<Duration>,
    pub limits: Option<ResourceLimits>,
}

/// Builder for a host process spawn. The persistent-tier knobs (label,
/// stdin kept open, overflow, ring size, lifetimes) are honoured only by
/// persistent spawns.
#[derive(Debug)]
pub struct Command {
    cmd: String,
    args: Vec<String>,
    stdin: Option<Vec<u8>>,
    env: Vec<(String, String)>,
    cwd: Option<String>,
    file_injections: Vec<(Vec<u8>, InjectionPlacement)>,
    label: Option<String>,
    keep_stdin_open: bool,
    overflow: Option<OverflowPolicy>,
    log_ring_bytes: Option<u32>,
    max_lifetime: Option<Duration>,
    idle_timeout: Option<Duration>,
    exit_retention: Option<Duration>,
    limits: Option<ResourceLimits>,
}

impl View for Command {
    type V = CommandModel;

    closed spec fn view(&self) -> CommandModel {
        CommandModel {
            cmd: self.cmd@,
            args: strings_model(self.args@),
            stdin: opt_bytes(self.stdin),
            env: pairs_model(self.env@),
            cwd: opt_chars(self.cwd),
            file_injections: injections_model(self.file_injections@),
            label: opt_chars(self.label),
            keep_stdin_open: self.keep_stdin_open,
            overflow: self.overflow,
            log_ring_bytes: self.log_ring_bytes,
            max_lifetime: self.max_lifetime,
            idle_timeout: self.idle_timeout,
            exit_retention: self.exit_retention,
            limits: self.limits,
        }
    }
}

impl Command {
    /// Start a builder for `cmd`, with nothing else set.
    pub fn new(cmd: &str) -> (c: Command)
        ensures
            c@ == (CommandModel {
                cmd: cmd@,
                args: Seq::empty(),
                stdin: None,
                env: Seq::empty(),
                cwd: None,
                file_injections: Seq::empty(),
                label: None,
                keep_stdin_open: false,
                overflow: None,
                log_ring_bytes: None,
                max_lifetime: None,
                idle_timeout: None,
                exit_retention: None,
                limits: None,
            }),
    {
        let c = Command {
            cmd: String::from_str(cmd),
            args: Vec::new(),
            stdin: None,
            env: Vec::new(),
            cwd: None,
            file_injections: Vec::new(),
            label: None,
            keep_stdin_open: false,
            overflow: None,
            log_ring_bytes: None,
            max_lifetime: None,
            idle_timeout: None,
            exit_retention: None,
            limits: None,
        };
        proof {
            assert(strings_model(c.args@) =~= Seq::empty());
            assert(pairs_model(c.env@) =~= Seq::empty());
            assert(injections_model(c.file_injections@) =~= Seq::empty());
        }
        c
    }

    /// Append one argument.
    pub fn arg(self, arg: &str) -> (c: Command)
        ensures
            c@ == (CommandModel { args: self@.args.push(arg@), ..self@ }),
    {
        let mut s = self;
        let ghost old_args = s.args@;
        s.args.push(String::from_str(arg));
        proof {
            assert(strings_model(s.args@) =~= strings_model(old_args).push(arg@));
        }
        s
    }

    /// Append several arguments, in order.
    pub fn args(self, args: &[&str]) -> (c: Command)
        ensures
            c@ == (CommandModel {
                args: self@.args + Seq::new(args@.len(), |i: int| args@[i]@),
                ..self@
            }),
    {
        let mut s = self;
        let ghost start = s@;
        let mut i: usize = 0;
        while i < args.len()
            invariant
                i <= args.len(),
                s@ == (CommandModel {
                    args: start.args + Seq::new(i as nat, |j: int| args@[j]@),
                    ..start
                }),
            decreases args.len() - i,
        {
            s = s.arg(args[i]);
            i = i + 1;
            assert(s@.args =~= start.args + Seq::new(i as nat, |j: int| args@[j]@));
        }
        assert(Seq::new(i as nat, |j: int| args@[j]@) =~= Seq::new(args@.len(), |j: int| args@[j]@));
        s
    }

    /// Set initial stdin bytes piped to the process.
    pub fn stdin(self, bytes: Vec<u8>) -> (c: Command)
        ensures
            c@ == (CommandModel { stdin: Some(bytes@), ..self@ }),
    {
        let mut s = self;
        s.stdin = Some(bytes);
        s
    }

    /// Add an environment variable.
    pub fn env(self, key: &str, value: &str) -> (c: Command)
        ensures
            c@ == (CommandModel { env: self@.env.push((key@, value@)), ..self@ }),
    {
        let mut s = self;
        let ghost old_env = s.env@;
        s.env.push((String::from_str(key), String::from_str(value)));
        proof {
            assert(pairs_model(s.env@) =~= pairs_model(old_env).push((key@, value@)));
        }
        s
    }

    /// Set the working directory (relative to the workspace).
    pub fn cwd(self, path: &str) -> (c: Command)
        ensures
            c@ == (CommandModel { cwd: Some(path@), ..self@ }),
    {
        let mut s = self;
        s.cwd = Some(String::from_str(path));
        s
    }

    /// Inject `content` with an explicit placement.
    pub fn inject_file(self, content: Vec<u8>, placement: InjectionPlacement) -> (c: Command)
        ensures
            c@ == (CommandModel {
                file_injections: self@.file_injections.push((content@, placement@)),
                ..self@
            }),
    {
        let mut s = self;
        let ghost old_inj = s.file_injections@;
        s.file_injections.push((content, placement));
        proof {
            assert(injections_model(s.file_injections@) =~= injections_model(old_inj).push((content@, placement@)));
        }
        s
    }

    /// Inject `content` as a read-only file exposed through the environment
    /// variable `env_var`.
    pub fn inject_env_file(self, env_var: &str, content: Vec<u8>) -> (c: Command)
        ensures
            c@ == (CommandModel {
                file_injections: self@.file_injections.push((content@, PlacementModel::EnvPointer(env_var@))),
                ..self@
            }),
    {
        self.inject_file(content, InjectionPlacement::EnvPointer(String::from_str(env_var)))
    }

    /// Inject `content` as a read-only file bound at the absolute path `path`.
    pub fn inject_file_at(self, path: &str, content: Vec<u8>) -> (c: Command)
        ensures
            c@ == (CommandModel {
                file_injections: self@.file_injections.push((content@, PlacementModel::FixedPath(path@))),
                ..self@
            }),
    {
        self.inject_file(content, InjectionPlacement::FixedPath(String::from_str(path)))
    }

    /// Operator-readable label for a persistent process.
    pub fn label(self, label: &str) -> (c: Command)
        ensures
            c@ == (CommandModel { label: Some(label@), ..self@ }),
    {
        let mut s = self;
        s.label = Some(String::from_str(label));
        s
    }

    /// Keep a writable stdin pipe open (persistent tier).
    pub fn keep_stdin_open(self, keep: bool) -> (c: Command)
        ensures
            c@ == (CommandModel { keep_stdin_open: keep, ..self@ }),
    {
        let mut s = self;
        s.keep_stdin_open = keep;
        s
    }

    /// Per-stream ring overflow policy (persistent tier).
    pub fn overflow(self, policy: OverflowPolicy) -> (c: Command)
        ensures
            c@ == (CommandModel { overflow: Some(policy), ..self@ }),
    {
        let mut s = self;
        s.overflow = Some(policy);
        s
    }

    /// Per-stream output ring capacity in bytes (persistent tier).
    pub fn log_ring_bytes(self, bytes: u32) -> (c: Command)
        ensures
            c@ == (CommandModel { log_ring_bytes: Some(bytes), ..self@ }),
    {
        let mut s = self;
        s.log_ring_bytes = Some(bytes);
        s
    }

    /// Wall-clock lifetime ceiling from spawn (persistent tier).
    pub fn max_lifetime(self, dur: Duration) -> (c: Command)
        ensures
            c@ == (CommandModel { max_lifetime: Some(dur), ..self@ }),
    {
        let mut s = self;
        s.max_lifetime = Some(dur);
        s
    }

    /// Reap an untouched persistent process after this idle interval.
    pub fn idle_timeout(self, dur: Duration) -> (c: Command)
        ensures
            c@ == (CommandModel { idle_timeout: Some(dur), ..self@ }),
    {
        let mut s = self;
        s.idle_timeout = Some(dur);
        s
    }

    /// Retain an exited persistent process this long before reaping it.
    pub fn exit_retention(self, dur: Duration) -> (c: Command)
        ensures
            c@ == (CommandModel { exit_retention: Some(dur), ..self@ }),
    {
        let mut s = self;
        s.exit_retention = Some(dur);
        s
    }

    /// Per-child OS resource ceilings.
    pub fn limits(self, limits: ResourceLimits) -> (c: Command)
        ensures
            c@ == (CommandModel { limits: Some(limits), ..self@ }),
    {
        let mut s = self;
        s.limits = Some(limits);
        s
    }

    /// The files injected so far, in order.
    pub fn file_injections(&self) -> (v: &Vec<(Vec<u8>, InjectionPlacement)>)
        ensures
            injections_model(v@) == self@.file_injections,
    {
        &self.file_injections
    }
}

/// A spawn request in the shape the host takes: durations in whole
/// milliseconds, `keep_stdin_open` present only when set.
#[derive(Debug, PartialEq, Eq)]
pub struct SpawnRequest {
    pub cmd: String,
    pub args: Vec<String>,
    pub stdin: Option<Vec<u8>>,
    pub env: Vec<(String, String)>,
    pub cwd: Option<String>,
    pub file_injections: Vec<(Vec<u8>, InjectionPlacement)>,
    pub limits: Option<ResourceLimits>,
    pub label: Option<String>,
    pub keep_stdin_open: Option<bool>,
    pub overflow: Option<OverflowPolicy>,
    pub log_ring_bytes: Option<u32>,
    pub max_lifetime_ms: Option<u64>,
    pub idle_timeout_ms: Option<u64>,
    pub exit_retention_ms: Option<u64>,
}

pub open spec fn ms_of(d: Option<Duration>) -> Option<u64> {
    match d {
        Some(d) => Some(saturate_u64(d.total_millis())),
        None => None,
    }
}

fn opt_ms(d: Option<Duration>) -> (r: Option<u64>)
    ensures
        r == ms_of(d),
{
    match d {
        Some(d) => Some(duration_to_ms(d)),
        None => None,
    }
}

/// `spawn` request `r` carries exactly the command `c`.
pub open spec fn request_of(r: SpawnRequest, c: CommandModel) -> bool {
    &&& r.cmd@ == c.cmd
    &&& strings_model(r.args@) == c.args
    &&& opt_bytes(r.stdin) == c.stdin
    &&& pairs_model(r.env@) == c.env
    &&& opt_chars(r.cwd) == c.cwd
    &&& injections_model(r.file_injections@) == c.file_injections
    &&& r.limits == c.limits
    &&& opt_chars(r.label) == c.label
    &&& r.keep_stdin_open == (if c.keep_stdin_open { Some(true) } else { None })
    &&& r.overflow == c.overflow
    &&& r.log_ring_bytes == c.log_ring_bytes
    &&& r.max_lifetime_ms == ms_of(c.max_lifetime)
    &&& r.idle_timeout_ms == ms_of(c.idle_timeout)
    &&& r.exit_retention_ms == ms_of(c.exit_retention)
}

/// A spawn request carries what the builder was given: the command, its
/// arguments, the stdin bytes set with `stdin` (piped to the process
/// unchanged), the environment, the working directory and the injected
/// files, each exactly.
pub proof fn law_request_carries_builder(r: SpawnRequest, c: CommandModel, bytes: Seq<u8>)
    requires
        request_of(r, CommandModel { stdin: Some(bytes), ..c }),
    ensures
        r.stdin matches Some(b) && b@ == bytes,
        r.cmd@ == c.cmd,
        r.args@.len() == c.args.len(),
        forall|i: int| 0 <= i < c.args.len() ==> (#[trigger] r.args@[i])@ == c.args[i],
        r.env@.len() == c.env.len(),
        forall|i: int| 0 <= i < c.env.len() ==> (#[trigger] r.env@[i]).0@ == c.env[i].0 && r.env@[i].1@ == c.env[i].1,
        opt_chars(r.cwd) == c.cwd,
{
    assert(opt_bytes(r.stdin) == Some(bytes));
    assert forall|i: int| 0 <= i < c.args.len() implies (#[trigger] r.args@[i])@ == c.args[i] by {
        assert(strings_model(r.args@)[i] == r.args@[i]@);
    }
    assert forall|i: int| 0 <= i < c.env.len() implies (#[trigger] r.env@[i]).0@ == c.env[i].0 && r.env@[i].1@ == c.env[i].1 by {
        assert(pairs_model(r.env@)[i] == (r.env@[i].0@, r.env@[i].1@));
    }
}

/// A request made from a command with no stdin set carries none.
pub proof fn law_request_without_stdin(r: SpawnRequest, c: CommandModel)
    requires
        request_of(r, CommandModel { stdin: None, ..c }),
    ensures
        r.stdin is None,
{
    assert(opt_bytes(r.stdin) == None::<Seq<u8>>);
}

impl Command {
    /// The request the host runs for this command.
    pub fn into_request(self) -> (r: SpawnRequest)
        ensures
            request_of(r, self@),
    {
        SpawnRequest {
            cmd: self.cmd,
            args: self.args,
            stdin: self.stdin,
            env: self.env,
            cwd: self.cwd,
            file_injections: self.file_injections,
            limits: self.limits,
            label: self.label,
            keep_stdin_open: if self.keep_stdin_open { Some(true) } else { None },
            overflow: self.overflow,
            log_ring_bytes: self.log_ring_bytes,
            max_lifetime_ms: opt_ms(self.max_lifetime),
            idle_timeout_ms: opt_ms(self.idle_timeout),
            exit_retention_ms: opt_ms(self.exit_retention),
        }
    }
}

/// The request for a synchronous spawn of `cmd` with `args` and nothing
/// else set.
pub fn spawn(cmd: &str, args: &[&str]) -> (r: SpawnRequest)
    ensures
        r.cmd@ == cmd@,
        strings_model(r.args@) == Seq::new(args@.len(), |i: int| args@[i]@),
        r.stdin is None,
        r.env@.len() == 0,
        r.cwd is None,
        r.file_injections@.len() == 0,
        r.limits is None,
        r.label is None,
        r.keep_stdin_open is None,
        r.overflow is None,
        r.log_ring_bytes is None,
        r.max_lifetime_ms is None,
        r.idle_timeout_ms is None,
        r.exit_retention_ms is None,
{
    let c = Command::new(cmd).args(args);
    proof {
        assert(Seq::<Seq<char>>::empty() + Seq::new(args@.len(), |i: int| args@[i]@) =~= Seq::new(args@.len(), |i: int| args@[i]@));
    }
    let r = c.into_request();
    proof {
        assert(pairs_model(r.env@).len() == r.env@.len());
        assert(injections_model(r.file_injections@).len() == r.file_injections@.len());
    }
    r
}

/// Opaque, principal-scoped identity of a persistent process.
#[derive(Debug, Clone, PartialEq, Eq)]
pub struct ProcessId(String);

impl View for ProcessId {
    type V = Seq<char>;

    closed spec fn view(&self) -> Seq<char> {
        self.0@
    }
}

impl ProcessId {
    /// The id for the text `s`.
    pub fn from_string(s: String) -> (id: ProcessId)
        ensures
            id@ == s@,
    {
        ProcessId(s)
    }

    /// The id for the text `s`.
    pub fn from_str(s: &str) -> (id: ProcessId)
        ensures
            id@ == s@,
    {
        ProcessId(String::from_str(s))
    }

    /// The id as a string slice.
    pub fn as_str(&self) -> (s: &str)
        ensures
            s@ == self@,
    {
        self.0.as_str()
    }

    /// Consume into the owned `String`.
    pub fn into_string(self) -> (s: String)
        ensures
            s@ == self@,
    {
        self.0
    }
}

/// Lifecycle phase of a persistent process.
#[derive(Debug, Clone, Copy, PartialEq, Eq)]
pub enum ProcessPhase {
    Starting,
    Running,
    Exited,
}

/// Which stream a cursor read addresses.
#[derive(Debug, Clone, Copy, PartialEq, Eq)]
pub enum LogStream {
    Stdout,
    Stderr,
}

/// Opaque, resumable cursor into a persistent process's log stream.
#[derive(Debug, Clone, Default, PartialEq, Eq)]
pub struct LogCursor {
    pub token: Option<String>,
}

impl LogCursor {
    /// A cursor positioned at the oldest retained byte.
    pub fn start() -> (c: LogCursor)
        ensures
            c.token is None,
    {
        LogCursor { token: None }
    }
}

/// A non-draining slice of a persistent process's stream.
#[derive(Debug, Clone, PartialEq, Eq)]
pub struct LogChunk {
    /// Bytes in `[requested-cursor, next)`.
    pub data: Vec<u8>,
    /// Cursor to resume from.
    pub next: LogCursor,
    /// Cumulative bytes evicted before they could be delivered.
    pub bytes_dropped: u64,
    /// The child exited and all retained output was delivered.
    pub drained_eof: bool,
}

/// A persistent-process status record as the host reports it, with times
/// in milliseconds.
#[derive(Debug, Clone, PartialEq, Eq)]
pub struct ProcessRecord {
    pub id: String,
    pub label: String,
    pub command: String,
    pub os_pid: Option<u32>,
    pub phase: ProcessPhase,
    pub exit: Option<ExitInfo>,
    pub age_ms: u64,
    pub idle_ms: u64,
    pub buffered_bytes: u64,
    pub bytes_dropped: u64,
    pub stdin_open: bool,
    pub cpu_ms: Option<u64>,
    pub mem_bytes_peak: Option<u64>,
}

/// A non-draining status snapshot of one persistent process.
#[derive(Debug, Clone, PartialEq, Eq)]
pub struct ProcessInfo {
    pub id: ProcessId,
    pub label: String,
    pub command: String,
    pub os_pid: Option<u32>,
    pub phase: ProcessPhase,
    pub exit: Option<ExitInfo>,
    pub age: Duration,
    pub idle: Duration,
    pub buffered_bytes: u64,
    pub bytes_dropped: u64,
    pub stdin_open: bool,
    pub cpu: Option<Duration>,
    pub mem_bytes_peak: Option<u64>,
}

impl ProcessInfo {
    /// The snapshot for host record `r`: the same fields, times as
    /// durations.
    pub fn from_record(r: ProcessRecord) -> (i: ProcessInfo)
        ensures
            i.id@ == r.id@,
            i.label == r.label,
            i.command == r.command,
            i.os_pid == r.os_pid,
            i.phase == r.phase,
            i.exit == r.exit,
            i.age.wf() && i.age.total_millis() == r.age_ms,
            i.idle.wf() && i.idle.total_millis() == r.idle_ms,
            i.buffered_bytes == r.buffered_bytes,
            i.bytes_dropped == r.bytes_dropped,
            i.stdin_open == r.stdin_open,
            match r.cpu_ms {
                Some(ms) => i.cpu is Some && i.cpu->0.wf() && i.cpu->0.total_millis() == ms,
                None => i.cpu is None,
            },
            i.mem_bytes_peak == r.mem_bytes_peak,
    {
        let cpu = match r.cpu_ms {
            Some(ms) => Some(Duration::from_millis(ms)),
            None => None,
        };
        ProcessInfo {
            id: ProcessId::from_string(r.id),
            label: r.label,
            command: r.command,
            os_pid: r.os_pid,
            phase: r.phase,
            exit: r.exit,
            age: Duration::from_millis(r.age_ms),
            idle: Duration::from_millis(r.idle_ms),
            buffered_bytes: r.buffered_bytes,
            bytes_dropped: r.bytes_dropped,
            stdin_open: r.stdin_open,
            cpu,
            mem_bytes_peak: r.mem_bytes_peak,
        }
    }
}

/// A handle to a persistent background process, keyed by its id.
#[derive(Debug, Clone, PartialEq, Eq)]
pub struct PersistentProcess {
    id: ProcessId,
}

impl PersistentProcess {
    /// The process id.
    pub fn id(&self) -> (id: &ProcessId)
        ensures
            id@ == self@,
    {
        &self.id
    }
}

impl View for PersistentProcess {
    type V = Seq<char>;

    closed spec fn view(&self) -> Seq<char> {
        self.id@
    }
}

/// Reattach to a persistent process by id. This only wraps the id; the first
/// id-keyed host call validates ownership.
pub fn attach(id: ProcessId) -> (p: PersistentProcess)
    ensures
        p@ == id@,
{
    PersistentProcess { id }
}

/// Wrap the wait timeout for the host: `None` waits indefinitely, a bound
/// is whole milliseconds, saturating.
pub fn wait_timeout_ms(timeout: Option<Duration>) -> (r: Option<u64>)
    ensures
        r == ms_of(timeout),
{
    opt_ms(timeout)
}

} // verus!
