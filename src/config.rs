use vstd::prelude::*;
use core::time::Duration;

verus! {

/// How one standard stream of the child is routed.
#[derive(Clone, Debug, PartialEq, Eq)]
pub enum StdioPolicy {
    /// The child shares the stream of the calling process.
    Inherit,
    /// The stream is captured through a pipe.
    Piped,
    /// The stream is discarded.
    Null,
    /// The stream is connected to the file at this path.
    Redirect(String),
}

/// What a sandbox is asked to be: the command, its streams, the optional
/// overlay (lower, upper) and the optional limits. A stream left unset
/// (`None`) gets the default of the way the child is run: inherited when
/// only its status is awaited, captured when its output is collected. Only plain values: the
/// side effects all happen when a sandbox is built from it.
pub struct SandboxBuilder {
    pub command: String,
    pub args: Vec<String>,
    pub stdin: Option<StdioPolicy>,
    pub stdout: Option<StdioPolicy>,
    pub stderr: Option<StdioPolicy>,
    pub overlay: Option<(String, String)>,
    pub memory_limit: Option<i64>,
    pub pids_limit: Option<i64>,
    pub time_limit: Option<Duration>,
}

impl SandboxBuilder {
    /// Everything but the arguments and the stream routing is the same.
    pub open spec fn same_limits(&self, o: &SandboxBuilder) -> bool {
        &&& self.overlay == o.overlay
        &&& self.memory_limit == o.memory_limit
        &&& self.pids_limit == o.pids_limit
        &&& self.time_limit == o.time_limit
    }

    /// Everything but the limits and the overlay is the same.
    pub open spec fn same_command(&self, o: &SandboxBuilder) -> bool {
        &&& self.command == o.command
        &&& self.args@ == o.args@
        &&& self.stdin == o.stdin
        &&& self.stdout == o.stdout
        &&& self.stderr == o.stderr
    }

    /// A configuration for `command` with no arguments, no stream routing set,
    /// no overlay and no limits.
    pub fn new(command: String) -> (r: SandboxBuilder)
        ensures
            r.command == command,
            r.args@ == Seq::<String>::empty(),
            r.stdin.is_none(),
            r.stdout.is_none(),
            r.stderr.is_none(),
            r.overlay.is_none(),
            r.memory_limit.is_none(),
            r.pids_limit.is_none(),
            r.time_limit.is_none(),
    {
        SandboxBuilder {
            command,
            args: Vec::new(),
            stdin: None,
            stdout: None,
            stderr: None,
            overlay: None,
            memory_limit: None,
            pids_limit: None,
            time_limit: None,
        }
    }

    /// Sets the memory ceiling in bytes; it bounds swap as well.
    pub fn memory(self, memory: i64) -> (r: SandboxBuilder)
        ensures
            r.memory_limit == Some(memory),
            r.overlay == self.overlay,
            r.pids_limit == self.pids_limit,
            r.time_limit == self.time_limit,
            r.same_command(&self),
    {
        let mut r = self;
        r.memory_limit = Some(memory);
        r
    }

    /// Sets the wall-clock limit of a run.
    pub fn time(self, duration: Duration) -> (r: SandboxBuilder)
        ensures
            r.time_limit == Some(duration),
            r.overlay == self.overlay,
            r.memory_limit == self.memory_limit,
            r.pids_limit == self.pids_limit,
            r.same_command(&self),
    {
        let mut r = self;
        r.time_limit = Some(duration);
        r
    }

    /// Sets the overlay: a read-only lower directory and a writable upper one.
    pub fn overlay(self, overlay: (String, String)) -> (r: SandboxBuilder)
        ensures
            r.overlay == Some(overlay),
            r.memory_limit == self.memory_limit,
            r.pids_limit == self.pids_limit,
            r.time_limit == self.time_limit,
            r.same_command(&self),
    {
        let mut r = self;
        r.overlay = Some(overlay);
        r
    }

    /// Sets, or clears with `None`, the ceiling on the number of processes.
    pub fn pids(self, pids: Option<i64>) -> (r: SandboxBuilder)
        ensures
            r.pids_limit == pids,
            r.overlay == self.overlay,
            r.memory_limit == self.memory_limit,
            r.time_limit == self.time_limit,
            r.same_command(&self),
    {
        let mut r = self;
        r.pids_limit = pids;
        r
    }

    /// Appends one argument.
    pub fn arg(self, arg: String) -> (r: SandboxBuilder)
        ensures
            r.args@ == self.args@.push(arg),
            r.command == self.command,
            r.stdin == self.stdin,
            r.stdout == self.stdout,
            r.stderr == self.stderr,
            r.same_limits(&self),
    {
        let mut r = self;
        r.args.push(arg);
        r
    }

    /// Appends the arguments in order.
    pub fn args(self, args: Vec<String>) -> (r: SandboxBuilder)
        ensures
            r.args@ == self.args@ + args@,
            r.command == self.command,
            r.stdin == self.stdin,
            r.stdout == self.stdout,
            r.stderr == self.stderr,
            r.same_limits(&self),
    {
        let mut r = self;
        let ghost start = r.args@;
        let mut i: usize = 0;
        while i < args.len()
            invariant
                i <= args.len(),
                r.args@ == start + args@.subrange(0, i as int),
                r.command == self.command,
                r.stdin == self.stdin,
                r.stdout == self.stdout,
                r.stderr == self.stderr,
                r.same_limits(&self),
            decreases args.len() - i,
        {
            r.args.push(args[i].clone());
            proof {
                assert(args@.subrange(0, i as int + 1) == args@.subrange(0, i as int).push(args@[i as int]));
            }
            i = i + 1;
        }
        proof {
            assert(args@.subrange(0, args@.len() as int) == args@);
        }
        r
    }

    /// Routes the child's standard input.
    pub fn stdin(self, cfg: StdioPolicy) -> (r: SandboxBuilder)
        ensures
            r.stdin == Some(cfg),
            r.command == self.command,
            r.args@ == self.args@,
            r.stdout == self.stdout,
            r.stderr == self.stderr,
            r.same_limits(&self),
    {
        let mut r = self;
        r.stdin = Some(cfg);
        r
    }

    /// Routes the child's standard output.
    pub fn stdout(self, cfg: StdioPolicy) -> (r: SandboxBuilder)
        ensures
            r.stdout == Some(cfg),
            r.command == self.command,
            r.args@ == self.args@,
            r.stdin == self.stdin,
            r.stderr == self.stderr,
            r.same_limits(&self),
    {
        let mut r = self;
        r.stdout = Some(cfg);
        r
    }

    /// Routes the child's standard error.
    pub fn stderr(self, cfg: StdioPolicy) -> (r: SandboxBuilder)
        ensures
            r.stderr == Some(cfg),
            r.command == self.command,
            r.args@ == self.args@,
            r.stdin == self.stdin,
            r.stdout == self.stdout,
            r.same_limits(&self),
    {
        let mut r = self;
        r.stderr = Some(cfg);
        r
    }
}

} // verus!
