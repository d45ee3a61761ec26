//! Process identities and what is known of a running process.
use vstd::prelude::*;
use std::collections::HashMap;

use crate::termination::SignalOutcome;

verus! {

/// Represents a process identifier.
#[derive(Debug, Clone, Copy, PartialEq, Eq, Structural)]
pub struct ProcessId(pub u32);

impl From<u32> for ProcessId {
    fn from(pid: u32) -> (r: Self) {
        ProcessId(pid)
    }
}

impl vstd::std_specs::convert::FromSpecImpl<u32> for ProcessId {
    open spec fn obeys_from_spec() -> bool {
        true
    }

    open spec fn from_spec(v: u32) -> Self {
        ProcessId(v)
    }
}

impl From<ProcessId> for u32 {
    fn from(pid: ProcessId) -> (r: Self) {
        pid.0
    }
}

impl vstd::std_specs::convert::FromSpecImpl<ProcessId> for u32 {
    open spec fn obeys_from_spec() -> bool {
        true
    }

    open spec fn from_spec(v: ProcessId) -> Self {
        v.0
    }
}

/// What an external command run to completion reported.
#[derive(Debug, Clone)]
pub struct CommandOutput {
    /// The command exited successfully.
    pub success: bool,
    /// Its standard output, decoded as UTF-8 with replacement characters.
    pub stdout: String,
    /// Its standard error, decoded as UTF-8 with replacement characters.
    pub stderr: String,
}

/// Running an external command: it completed with an output, or it could not
/// be run, with the error's text.
#[derive(Debug, Clone)]
pub enum CommandRun {
    Completed(CommandOutput),
    NotRun(String),
}

/// The status of a process.
#[derive(Debug, Clone, Copy, PartialEq, Eq, Structural)]
pub enum ProcessStatus {
    Running,
    /// The process exited; the exit code, where it exited with one (a process
    /// ended by a signal has none).
    Exited(Option<i32>),
    Terminated,
    Unknown,
}

/// Information about a process.
#[derive(Debug, Clone)]
pub struct ProcessInfo {
    pub pid: ProcessId,
    pub status: ProcessStatus,
    pub command: String,
    pub args: Vec<String>,
}

/// The texts of `v`, element by element.
pub open spec fn texts(v: Seq<String>) -> Seq<Seq<char>> {
    v.map_values(|s: String| s@)
}

/// A copy of a list of strings.
pub fn clone_strings(v: &Vec<String>) -> (r: Vec<String>)
    ensures
        texts(r@) == texts(v@),
{
    let mut r: Vec<String> = Vec::new();
    let mut i: usize = 0;
    while i < v.len()
        invariant
            i <= v.len(),
            r@.len() == i,
            forall|k: int| 0 <= k < i ==> #[trigger] r@[k]@ == v@[k]@,
        decreases v.len() - i,
    {
        r.push(v[i].clone());
        i = i + 1;
    }
    assert(texts(r@) =~= texts(v@));
    r
}

/// Errors of the process and runner logic.
#[derive(Debug, Clone)]
pub enum RunnerError {
    ServiceNotAvailable,
    ExpectedStdioRunner,
    ExpectedSseRunner,
    NoPidAvailable,
    WaitTimeout,
    TransportAlreadyConsumed,
    CustomTransportUnsupported,
    NoTransportHandle,
    TerminationIncomplete(crate::termination::TerminationResult),
}

/// The start of the message of an incomplete termination.
pub open spec fn incomplete_prefix() -> Seq<char> {
    "Process termination completed with result: "@
}

/// The message of an error.
pub open spec fn error_text(e: RunnerError) -> Seq<char> {
    match e {
        RunnerError::ServiceNotAvailable => "Service not available"@,
        RunnerError::ExpectedStdioRunner => "Expected stdio runner"@,
        RunnerError::ExpectedSseRunner => "Expected SSE runner"@,
        RunnerError::NoPidAvailable => "No PID available"@,
        RunnerError::WaitTimeout => "Timeout waiting for process exit"@,
        RunnerError::TransportAlreadyConsumed => "Transport already consumed"@,
        RunnerError::CustomTransportUnsupported => "Custom transport types not yet supported"@,
        RunnerError::NoTransportHandle => "No transport handle available. Call initialize() first."@,
        RunnerError::TerminationIncomplete(result) => incomplete_prefix()
            + crate::termination::result_text(result),
    }
}

/// The message of an incomplete termination whose result `{:?}` wrote as
/// `result_text`.
pub fn termination_incomplete_text(result_text: &str) -> (r: String)
    ensures
        r@ == incomplete_prefix() + result_text@,
{
    let mut r = String::from_str("Process termination completed with result: ");
    r.append(result_text);
    r
}

impl RunnerError {
    /// The message of this error.
    pub fn message(&self) -> (r: String)
        ensures
            r@ == error_text(*self),
    {
        match self {
            RunnerError::ServiceNotAvailable => String::from_str("Service not available"),
            RunnerError::ExpectedStdioRunner => String::from_str("Expected stdio runner"),
            RunnerError::ExpectedSseRunner => String::from_str("Expected SSE runner"),
            RunnerError::NoPidAvailable => String::from_str("No PID available"),
            RunnerError::WaitTimeout => String::from_str("Timeout waiting for process exit"),
            RunnerError::TransportAlreadyConsumed => String::from_str("Transport already consumed"),
            RunnerError::CustomTransportUnsupported => String::from_str(
                "Custom transport types not yet supported",
            ),
            RunnerError::NoTransportHandle => String::from_str(
                "No transport handle available. Call initialize() first.",
            ),
            RunnerError::TerminationIncomplete(result) => termination_incomplete_text(
                result.debug_text().as_str(),
            ),
        }
    }
}

/// `r` is the information about a process with id `pid` running `command`
/// with `args`: without an id there is none; with one, the status is running
/// when the process is healthy, else terminated.
pub open spec fn reports_process_info(
    r: Result<ProcessInfo, RunnerError>,
    pid: Option<ProcessId>,
    healthy: bool,
    command: Seq<char>,
    args: Seq<String>,
) -> bool {
    match pid {
        None => r matches Err(RunnerError::NoPidAvailable),
        Some(p) => match r {
            Ok(info) => {
                &&& info.pid == p
                &&& info.status == (if healthy {
                    ProcessStatus::Running
                } else {
                    ProcessStatus::Terminated
                })
                &&& info.command@ == command
                &&& texts(info.args@) == texts(args)
            },
            Err(_) => false,
        },
    }
}

/// Checks process health on Unix by probing the process with signal 0.
pub struct UnixProcessMonitor;

impl UnixProcessMonitor {
    /// A process is healthy when it has a process id and the probe reached it.
    /// `probe` is `None` when the process has no id (no probe is sent).
    pub fn health_from_probe(&self, probe: Option<&SignalOutcome>) -> (r: bool)
        ensures
            r == (probe matches Some(o) && *o is Delivered),
    {
        match probe {
            Some(SignalOutcome::Delivered) => true,
            _ => false,
        }
    }

    /// The information about a process: its id is required; its status is
    /// running when it is healthy, else terminated.
    pub fn process_info(
        &self,
        pid: Option<ProcessId>,
        healthy: bool,
        command: &str,
        args: &Vec<String>,
    ) -> (r: Result<ProcessInfo, RunnerError>)
        ensures
            reports_process_info(r, pid, healthy, command@, args@),
    {
        process_info_of(pid, healthy, command, args)
    }
}

fn process_info_of(pid: Option<ProcessId>, healthy: bool, command: &str, args: &Vec<String>) -> (r:
    Result<ProcessInfo, RunnerError>)
    ensures
        reports_process_info(r, pid, healthy, command@, args@),
{
    match pid {
        None => Err(RunnerError::NoPidAvailable),
        Some(p) => {
            let status = if healthy {
                ProcessStatus::Running
            } else {
                ProcessStatus::Terminated
            };
            Ok(
                ProcessInfo {
                    pid: p,
                    status,
                    command: String::from_str(command),
                    args: clone_strings(args),
                },
            )
        },
    }
}

/// Checks process health on Windows with `tasklist /FI "PID eq <pid>" /FO CSV`.
pub struct WindowsProcessMonitor;

impl WindowsProcessMonitor {
    /// A process is healthy when `tasklist` ran successfully and printed more
    /// than one line (the header and the process). `run` is `None` when the
    /// process has no id (`tasklist` is not run).
    pub fn health_from_tasklist(&self, run: Option<&CommandRun>) -> (r: bool)
        ensures
            r == (run matches Some(CommandRun::Completed(out)) && out.success
                && crate::text::line_count(out.stdout@) > 1),
    {
        match run {
            Some(CommandRun::Completed(out)) => out.success && crate::text::has_more_than_one_line(
                out.stdout.as_str(),
            ),
            _ => false,
        }
    }

    /// The information about a process: its id is required; its status is
    /// running when it is healthy, else terminated.
    pub fn process_info(
        &self,
        pid: Option<ProcessId>,
        healthy: bool,
        command: &str,
        args: &Vec<String>,
    ) -> (r: Result<ProcessInfo, RunnerError>)
        ensures
            reports_process_info(r, pid, healthy, command@, args@),
    {
        process_info_of(pid, healthy, command, args)
    }
}

/// The number of restarts recorded for `pid` in `counts` (none for a process
/// without an id).
pub open spec fn recorded_restarts(counts: Map<u32, u32>, pid: Option<ProcessId>) -> u32 {
    match pid {
        Some(p) => if counts.contains_key(p.0) {
            counts[p.0]
        } else {
            0
        },
        None => 0,
    }
}

/// Restart counts of a platform process manager, keyed by the process id of
/// the process that was restarted.
pub struct RestartCounts {
    counts: HashMap<u32, u32>,
}

impl View for RestartCounts {
    type V = Map<u32, u32>;

    closed spec fn view(&self) -> Map<u32, u32> {
        self.counts@
    }
}

impl RestartCounts {
    /// No restarts recorded.
    pub fn new() -> (r: RestartCounts)
        ensures
            r@ == Map::<u32, u32>::empty(),
    {
        RestartCounts { counts: HashMap::new() }
    }

    /// Records a restart of the process with id `pid`; a process without an id
    /// is not counted.
    pub fn record_restart(&mut self, pid: Option<ProcessId>)
        requires
            recorded_restarts(old(self)@, pid) < u32::MAX,
        ensures
            pid is None ==> final(self)@ == old(self)@,
            pid is Some ==> final(self)@ == old(self)@.insert(
                pid.unwrap().0,
                (recorded_restarts(old(self)@, pid) + 1) as u32,
            ),
    {
        broadcast use vstd::std_specs::hash::group_hash_axioms;

        if let Some(p) = pid {
            let current: u32 = match self.counts.get(&p.0) {
                Some(c) => *c,
                None => 0,
            };
            self.counts.insert(p.0, current + 1);
        }
    }

    /// The restarts recorded for `pid` (0 for a process without an id).
    pub fn restart_count(&self, pid: Option<ProcessId>) -> (r: u32)
        ensures
            r == recorded_restarts(self@, pid),
    {
        broadcast use vstd::std_specs::hash::group_hash_axioms;

        match pid {
            Some(p) => match self.counts.get(&p.0) {
                Some(c) => *c,
                None => 0,
            },
            None => 0,
        }
    }

    /// Forgets every recorded restart.
    pub fn clear(&mut self)
        ensures
            final(self)@ == Map::<u32, u32>::empty(),
    {
        self.counts.clear();
    }
}

/// Law of restart counting: recording a restart of a process with an id adds
/// one to its count and leaves every other count alone; recording one of a
/// process without an id changes nothing; after clearing, every count is 0.
pub proof fn lemma_restart_counting(counts: Map<u32, u32>, pid: Option<ProcessId>, other: Option<ProcessId>)
    requires
        recorded_restarts(counts, pid) < u32::MAX,
    ensures
        pid is Some ==> recorded_restarts(
            counts.insert(pid.unwrap().0, (recorded_restarts(counts, pid) + 1) as u32),
            pid,
        ) == recorded_restarts(counts, pid) + 1,
        pid is Some && other is Some && other.unwrap().0 != pid.unwrap().0 ==> recorded_restarts(
            counts.insert(pid.unwrap().0, (recorded_restarts(counts, pid) + 1) as u32),
            other,
        ) == recorded_restarts(counts, other),
        recorded_restarts(Map::<u32, u32>::empty(), other) == 0,
{
}

} // verus!
