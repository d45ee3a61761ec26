//! How processes are brought down: what each signal or `taskkill` outcome
//! means, and the order of the steps of the three-step termination.
use vstd::prelude::*;

use crate::blueprint::{command_runner_of, launches, CommandSpec, ServerDefinition};
use crate::process::{CommandRun, ProcessId};
use crate::process_tree::{descendants, find_child_processes, ProcessEntry};
use crate::text::{contains_str, contains_text};

verus! {

/// Result of a termination attempt.
#[derive(Debug, Clone)]
pub enum TerminationResult {
    Success,
    ProcessNotFound,
    AccessDenied,
    Timeout,
    Failed(String),
}

/// Why the operating system refused to deliver a signal.
#[derive(Debug, Clone, Copy, PartialEq, Eq, Structural)]
pub enum SignalErrorKind {
    /// No process (or process group) has that id (`ESRCH`).
    NoSuchProcess,
    /// The caller may not signal that process (`EPERM`).
    PermissionDenied,
    /// Any other error.
    Other,
}

/// What happened when a signal was sent.
#[derive(Debug, Clone)]
pub enum SignalOutcome {
    Delivered,
    Refused { kind: SignalErrorKind, description: String },
}

/// `prefix` followed by `detail`.
pub open spec fn message(prefix: Seq<char>, detail: Seq<char>) -> Seq<char> {
    prefix + detail
}

/// `result` is `Failed` with exactly the text `text`.
pub open spec fn failed_with(result: TerminationResult, text: Seq<char>) -> bool {
    match result {
        TerminationResult::Failed(m) => m@ == text,
        _ => false,
    }
}

/// `result` counts as the process being gone: it was brought down or it was
/// not there in the first place.
pub open spec fn is_gone(result: TerminationResult) -> bool {
    result is Success || result is ProcessNotFound
}

fn prefixed(prefix: &str, detail: &String) -> (r: String)
    ensures
        r@ == message(prefix@, detail@),
{
    let mut r = String::from_str(prefix);
    r.append(detail.as_str());
    r
}

/// Builds `Failed(prefix + detail)`.
pub fn failure(prefix: &str, detail: &String) -> (r: TerminationResult)
    ensures
        failed_with(r, message(prefix@, detail@)),
{
    TerminationResult::Failed(prefixed(prefix, detail))
}

/// Whether a termination result reports the process as gone.
pub fn result_is_gone(result: &TerminationResult) -> (r: bool)
    ensures
        r == is_gone(*result),
{
    match result {
        TerminationResult::Success => true,
        TerminationResult::ProcessNotFound => true,
        _ => false,
    }
}

/// The text that `{:?}` writes for the string `s`: std's `Debug` for `str`,
/// which puts the text in double quotes and escapes quotes, backslashes,
/// control characters and characters that Unicode does not count as printable.
pub uninterp spec fn str_debug(s: Seq<char>) -> Seq<char>;

/// std's `<str as Debug>::fmt`, through `format!("{:?}", s)`: its result is
/// named [`str_debug`] and nothing more is claimed of it (the escaping rests
/// on Unicode tables).
#[verifier::external_body]
fn debug_quoted(s: &str) -> (r: String)
    ensures
        r@ == str_debug(s@),
{
    format!("{:?}", s)
}

/// The text that `{:?}` writes for a termination result.
pub open spec fn result_text(result: TerminationResult) -> Seq<char> {
    match result {
        TerminationResult::Success => "Success"@,
        TerminationResult::ProcessNotFound => "ProcessNotFound"@,
        TerminationResult::AccessDenied => "AccessDenied"@,
        TerminationResult::Timeout => "Timeout"@,
        TerminationResult::Failed(m) => failed_text_of(str_debug(m@)),
    }
}

/// The text of a `Failed` result whose message is written as `quoted`.
pub open spec fn failed_text_of(quoted: Seq<char>) -> Seq<char> {
    "Failed("@ + quoted + ")"@
}

/// The text of a `Failed` result whose message `{:?}` wrote as `quoted`.
pub fn failed_text(quoted: &str) -> (r: String)
    ensures
        r@ == failed_text_of(quoted@),
{
    let mut r = String::from_str("Failed(");
    r.append(quoted);
    r.append(")");
    r
}

impl TerminationResult {
    /// The text that `{:?}` writes for this result.
    pub fn debug_text(&self) -> (r: String)
        ensures
            r@ == result_text(*self),
    {
        match self {
            TerminationResult::Success => String::from_str("Success"),
            TerminationResult::ProcessNotFound => String::from_str("ProcessNotFound"),
            TerminationResult::AccessDenied => String::from_str("AccessDenied"),
            TerminationResult::Timeout => String::from_str("Timeout"),
            TerminationResult::Failed(m) => failed_text(debug_quoted(m.as_str()).as_str()),
        }
    }
}

/// The milliseconds waited between a graceful and a forceful signal to a
/// process group.
pub const GROUP_GRACEFUL_TIMEOUT_MS: u64 = 2000;

/// The milliseconds waited between a graceful and a forceful signal to a
/// single process of a tree.
pub const TREE_TERMINATION_DELAY_MS: u64 = 500;

/// The milliseconds an escalating kill waits before it forces.
pub const ESCALATION_DELAY_MS: u64 = 1000;

/// What to do next in a SIGTERM-then-SIGKILL exchange.
#[derive(Debug, Clone)]
pub enum EscalationStep {
    /// Wait this many milliseconds, then send SIGKILL.
    WaitThenKill(u64),
    /// The exchange is over with this result.
    Finished(TerminationResult),
}

/// The result that ends a SIGTERM-then-SIGKILL exchange when SIGTERM is refused.
pub open spec fn sigterm_refusal_result(
    kind: SignalErrorKind,
    description: Seq<char>,
    r: TerminationResult,
) -> bool {
    match kind {
        SignalErrorKind::NoSuchProcess => r is Success,
        SignalErrorKind::PermissionDenied => r is AccessDenied,
        SignalErrorKind::Other => failed_with(r, message("SIGTERM failed: "@, description)),
    }
}

/// The result of the SIGKILL of a SIGTERM-then-SIGKILL exchange.
pub open spec fn sigkill_result(outcome: SignalOutcome, r: TerminationResult) -> bool {
    match outcome {
        SignalOutcome::Delivered => r is Success,
        SignalOutcome::Refused { kind, description } => if kind == SignalErrorKind::NoSuchProcess {
            r is Success
        } else {
            failed_with(r, message("SIGKILL failed: "@, description@))
        },
    }
}

/// First half of a SIGTERM-then-SIGKILL exchange (a process group, or one
/// process of a tree): a delivered SIGTERM leads on to SIGKILL after `delay_ms`;
/// a missing target counts as terminated; a refusal ends the exchange.
pub fn after_sigterm(outcome: &SignalOutcome, delay_ms: u64) -> (step: EscalationStep)
    ensures
        match *outcome {
            SignalOutcome::Delivered => step == EscalationStep::WaitThenKill(delay_ms),
            SignalOutcome::Refused { kind, description } => step matches EscalationStep::Finished(r)
                && sigterm_refusal_result(kind, description@, r),
        },
{
    match outcome {
        SignalOutcome::Delivered => EscalationStep::WaitThenKill(delay_ms),
        SignalOutcome::Refused { kind, description } => match kind {
            SignalErrorKind::NoSuchProcess => EscalationStep::Finished(TerminationResult::Success),
            SignalErrorKind::PermissionDenied => EscalationStep::Finished(
                TerminationResult::AccessDenied,
            ),
            SignalErrorKind::Other => EscalationStep::Finished(
                failure("SIGTERM failed: ", description),
            ),
        },
    }
}

/// Second half of a SIGTERM-then-SIGKILL exchange: delivered, or no target
/// left, is success; any other refusal is a failure.
pub fn after_sigkill(outcome: &SignalOutcome) -> (r: TerminationResult)
    ensures
        sigkill_result(*outcome, r),
{
    match outcome {
        SignalOutcome::Delivered => TerminationResult::Success,
        SignalOutcome::Refused { kind, description } => match kind {
            SignalErrorKind::NoSuchProcess => TerminationResult::Success,
            _ => failure("SIGKILL failed: ", description),
        },
    }
}

/// The result of one signal sent by a process killer to a handle's process:
/// delivered is success, a missing process is `ProcessNotFound`, a refusal for
/// lack of permission is `AccessDenied`, and any other refusal a failure whose
/// text starts with `failure_prefix`.
pub open spec fn single_signal_result(
    outcome: SignalOutcome,
    failure_prefix: Seq<char>,
    r: TerminationResult,
) -> bool {
    match outcome {
        SignalOutcome::Delivered => r is Success,
        SignalOutcome::Refused { kind, description } => match kind {
            SignalErrorKind::NoSuchProcess => r is ProcessNotFound,
            SignalErrorKind::PermissionDenied => r is AccessDenied,
            SignalErrorKind::Other => failed_with(r, message(failure_prefix, description@)),
        },
    }
}

fn single_signal(outcome: &SignalOutcome, failure_prefix: &str) -> (r: TerminationResult)
    ensures
        single_signal_result(*outcome, failure_prefix@, r),
{
    match outcome {
        SignalOutcome::Delivered => TerminationResult::Success,
        SignalOutcome::Refused { kind, description } => match kind {
            SignalErrorKind::NoSuchProcess => TerminationResult::ProcessNotFound,
            SignalErrorKind::PermissionDenied => TerminationResult::AccessDenied,
            SignalErrorKind::Other => failure(failure_prefix, description),
        },
    }
}

/// Terminates a Unix process group: SIGTERM to the group, a wait of
/// [`GROUP_GRACEFUL_TIMEOUT_MS`], then SIGKILL.
pub struct UnixProcessGroupTerminator;

impl UnixProcessGroupTerminator {
    /// Unix has process groups.
    pub fn supports_process_groups(&self) -> (r: bool)
        ensures
            r,
    {
        true
    }

    /// Milliseconds between SIGTERM and SIGKILL to the group.
    pub fn graceful_timeout_ms(&self) -> (r: u64)
        ensures
            r == GROUP_GRACEFUL_TIMEOUT_MS,
    {
        GROUP_GRACEFUL_TIMEOUT_MS
    }

    /// What follows the SIGTERM sent to the group.
    pub fn after_group_sigterm(&self, outcome: &SignalOutcome) -> (step: EscalationStep)
        ensures
            match *outcome {
                SignalOutcome::Delivered => step == EscalationStep::WaitThenKill(
                    GROUP_GRACEFUL_TIMEOUT_MS,
                ),
                SignalOutcome::Refused { kind, description } => step matches EscalationStep::Finished(r)
                    && sigterm_refusal_result(kind, description@, r),
            },
    {
        after_sigterm(outcome, GROUP_GRACEFUL_TIMEOUT_MS)
    }

    /// The result once SIGKILL has been sent to the group.
    pub fn after_group_sigkill(&self, outcome: &SignalOutcome) -> (r: TerminationResult)
        ensures
            sigkill_result(*outcome, r),
    {
        after_sigkill(outcome)
    }
}

/// The descendants of `parent`, as process ids.
pub open spec fn descendant_ids(table: Seq<ProcessEntry>, parent: ProcessId) -> Seq<ProcessId> {
    descendants(table, parent.0).map_values(|p: u32| ProcessId(p))
}

fn child_process_ids(table: &Vec<ProcessEntry>, parent: ProcessId) -> (r: Vec<ProcessId>)
    ensures
        r@ == descendant_ids(table@, parent),
{
    let pids = find_child_processes(table, parent.0);
    let mut r: Vec<ProcessId> = Vec::new();
    let mut i: usize = 0;
    while i < pids.len()
        invariant
            i <= pids@.len(),
            pids@ == descendants(table@, parent.0),
            r@ == pids@.subrange(0, i as int).map_values(|p: u32| ProcessId(p)),
        decreases pids.len() - i,
    {
        r.push(ProcessId(pids[i]));
        i = i + 1;
        assert(r@ =~= pids@.subrange(0, i as int).map_values(|p: u32| ProcessId(p)));
    }
    assert(pids@.subrange(0, i as int) =~= pids@);
    r
}

/// Terminates Unix process trees: every descendant, then the root, each with
/// SIGTERM, a wait of [`TREE_TERMINATION_DELAY_MS`], then SIGKILL.
pub struct UnixProcessTreeTerminator;

impl UnixProcessTreeTerminator {
    /// The descendants of `parent_pid` in a snapshot of the process table,
    /// each after all of its own descendants.
    pub fn find_child_processes(&self, table: &Vec<ProcessEntry>, parent_pid: ProcessId) -> (r:
        Vec<ProcessId>)
        ensures
            r@ == descendant_ids(table@, parent_pid),
    {
        child_process_ids(table, parent_pid)
    }

    /// Milliseconds between SIGTERM and SIGKILL to one process.
    pub fn termination_delay_ms(&self) -> (r: u64)
        ensures
            r == TREE_TERMINATION_DELAY_MS,
    {
        TREE_TERMINATION_DELAY_MS
    }

    /// What follows the SIGTERM sent to one process of the tree.
    pub fn after_process_sigterm(&self, outcome: &SignalOutcome) -> (step: EscalationStep)
        ensures
            match *outcome {
                SignalOutcome::Delivered => step == EscalationStep::WaitThenKill(
                    TREE_TERMINATION_DELAY_MS,
                ),
                SignalOutcome::Refused { kind, description } => step matches EscalationStep::Finished(r)
                    && sigterm_refusal_result(kind, description@, r),
            },
    {
        after_sigterm(outcome, TREE_TERMINATION_DELAY_MS)
    }

    /// The result once SIGKILL has been sent to one process of the tree.
    pub fn after_process_sigkill(&self, outcome: &SignalOutcome) -> (r: TerminationResult)
        ensures
            sigkill_result(*outcome, r),
    {
        after_sigkill(outcome)
    }
}

/// Starts Unix server processes, each leading a new process group.
pub struct UnixProcessCreator;

impl UnixProcessCreator {
    /// The command line of the server's process, whichever the kind of runner,
    /// in a new process group.
    pub fn command(&self, server_definition: &ServerDefinition) -> (r: CommandSpec)
        ensures
            launches(r, command_runner_of(server_definition.runner), server_definition.env@, true),
    {
        server_definition.process_command(true)
    }
}

/// Kills a single Unix process through its handle.
pub struct UnixProcessKiller;

impl UnixProcessKiller {
    /// The graceful kill: SIGTERM. `outcome` is what sending it gave, `None`
    /// when the process has no id (there is nothing to kill, and nothing is
    /// sent).
    pub fn graceful_kill_result(&self, outcome: Option<&SignalOutcome>) -> (r: TerminationResult)
        ensures
            match outcome {
                None => r is ProcessNotFound,
                Some(o) => single_signal_result(*o, "SIGTERM failed: "@, r),
            },
    {
        match outcome {
            None => TerminationResult::ProcessNotFound,
            Some(o) => single_signal(o, "SIGTERM failed: "),
        }
    }

    /// The forceful kill: SIGKILL (once it is delivered, the handle is also
    /// told to kill, whatever that returns). `outcome` is what sending it
    /// gave, `None` when the process has no id.
    pub fn force_kill_result(&self, outcome: Option<&SignalOutcome>) -> (r: TerminationResult)
        ensures
            match outcome {
                None => r is ProcessNotFound,
                Some(o) => single_signal_result(*o, "SIGKILL failed: "@, r),
            },
    {
        match outcome {
            None => TerminationResult::ProcessNotFound,
            Some(o) => single_signal(o, "SIGKILL failed: "),
        }
    }

    /// Whether the forceful kill also tells the process handle to kill: only
    /// once SIGKILL was delivered.
    pub fn kills_handle(&self, outcome: Option<&SignalOutcome>) -> (r: bool)
        ensures
            r == (outcome matches Some(o) && *o is Delivered),
    {
        match outcome {
            Some(SignalOutcome::Delivered) => true,
            _ => false,
        }
    }
}

/// The result of a `taskkill` run: success if it exited successfully; else
/// `ProcessNotFound` if its error text says "not found" or "not exist",
/// `AccessDenied` if it says "Access is denied", and otherwise a failure whose
/// text is `failure_prefix` and the error text. A `taskkill` that could not be
/// run is a failure whose text is `not_run_prefix` and the error.
pub open spec fn taskkill_result(
    run: CommandRun,
    failure_prefix: Seq<char>,
    not_run_prefix: Seq<char>,
    r: TerminationResult,
) -> bool {
    match run {
        CommandRun::Completed(out) => if out.success {
            r is Success
        } else if contains_text(out.stderr@, "not found"@) || contains_text(
            out.stderr@,
            "not exist"@,
        ) {
            r is ProcessNotFound
        } else if contains_text(out.stderr@, "Access is denied"@) {
            r is AccessDenied
        } else {
            failed_with(r, message(failure_prefix, out.stderr@))
        },
        CommandRun::NotRun(e) => failed_with(r, message(not_run_prefix, e@)),
    }
}

/// Law of `taskkill` outcomes: a run that succeeded brought the process down;
/// one that failed counts the process as not found exactly when its error text
/// says "not found" or "not exist", as access denied exactly when it says
/// neither but says "Access is denied", and otherwise as a failure carrying the
/// error text; a run that could not start is a failure carrying its error.
pub proof fn lemma_taskkill_outcomes(
    run: CommandRun,
    failure_prefix: Seq<char>,
    not_run_prefix: Seq<char>,
    r: TerminationResult,
)
    requires
        taskkill_result(run, failure_prefix, not_run_prefix, r),
    ensures
        match run {
            CommandRun::Completed(out) => if out.success {
                r is Success
            } else {
                &&& (r is ProcessNotFound) <==> (contains_text(out.stderr@, "not found"@)
                    || contains_text(out.stderr@, "not exist"@))
                &&& (r is AccessDenied) <==> (!contains_text(out.stderr@, "not found"@)
                    && !contains_text(out.stderr@, "not exist"@) && contains_text(
                    out.stderr@,
                    "Access is denied"@,
                ))
                &&& (!(r is ProcessNotFound) && !(r is AccessDenied)) ==> (r matches TerminationResult::Failed(
                    m,
                ) && m@ == failure_prefix + out.stderr@)
            },
            CommandRun::NotRun(e) => r matches TerminationResult::Failed(m) && m@ == not_run_prefix
                + e@,
        },
{
}

fn classify_taskkill(run: &CommandRun, failure_prefix: &str, not_run_prefix: &str) -> (r:
    TerminationResult)
    ensures
        taskkill_result(*run, failure_prefix@, not_run_prefix@, r),
{
    match run {
        CommandRun::Completed(out) => {
            if out.success {
                TerminationResult::Success
            } else if contains_str(out.stderr.as_str(), "not found") || contains_str(
                out.stderr.as_str(),
                "not exist",
            ) {
                TerminationResult::ProcessNotFound
            } else if contains_str(out.stderr.as_str(), "Access is denied") {
                TerminationResult::AccessDenied
            } else {
                failure(failure_prefix, &out.stderr)
            }
        },
        CommandRun::NotRun(e) => failure(not_run_prefix, e),
    }
}

/// Windows has no process groups of the Unix kind: terminating a "group"
/// terminates the process tree instead.
pub struct WindowsProcessGroupTerminator;

impl WindowsProcessGroupTerminator {
    /// Windows has no Unix-style process groups.
    pub fn supports_process_groups(&self) -> (r: bool)
        ensures
            !r,
    {
        false
    }
}

/// Terminates Windows process trees with `taskkill /F /PID`.
pub struct WindowsProcessTreeTerminator;

impl WindowsProcessTreeTerminator {
    /// The result of terminating one process with `taskkill /F /PID`.
    pub fn single_process_result(&self, run: &CommandRun) -> (r: TerminationResult)
        ensures
            taskkill_result(*run, "taskkill failed: "@, "Failed to run taskkill: "@, r),
    {
        classify_taskkill(run, "taskkill failed: ", "Failed to run taskkill: ")
    }
}

impl WindowsProcessTreeTerminator {
    /// The descendants of `parent_pid` in a snapshot of the process table,
    /// each after all of its own descendants.
    pub fn find_child_processes(&self, table: &Vec<ProcessEntry>, parent_pid: ProcessId) -> (r:
        Vec<ProcessId>)
        ensures
            r@ == descendant_ids(table@, parent_pid),
    {
        child_process_ids(table, parent_pid)
    }
}

/// Starts Windows server processes.
pub struct WindowsProcessCreator;

impl WindowsProcessCreator {
    /// The command line of the server's process, whichever the kind of runner.
    pub fn command(&self, server_definition: &ServerDefinition) -> (r: CommandSpec)
        ensures
            launches(r, command_runner_of(server_definition.runner), server_definition.env@, false),
    {
        server_definition.process_command(false)
    }
}

/// What a Windows graceful kill does after asking the handle to terminate.
#[derive(Debug, Clone)]
pub enum GracefulKillStep {
    /// Run `taskkill /PID` (without `/F`) on this process.
    RunTaskkill(ProcessId),
    Finished(TerminationResult),
}

/// Kills Windows processes through their handle and `taskkill`.
pub struct WindowsProcessKiller;

impl WindowsProcessKiller {
    /// After the handle's own terminate: done if it succeeded; else a polite
    /// `taskkill` if the process id is known; else the process is not found.
    pub fn after_handle_terminate(&self, terminated: bool, pid: Option<ProcessId>) -> (step:
        GracefulKillStep)
        ensures
            terminated ==> step == GracefulKillStep::Finished(TerminationResult::Success),
            !terminated && pid is Some ==> step == GracefulKillStep::RunTaskkill(pid.unwrap()),
            !terminated && pid is None ==> step == GracefulKillStep::Finished(
                TerminationResult::ProcessNotFound,
            ),
    {
        if terminated {
            GracefulKillStep::Finished(TerminationResult::Success)
        } else {
            match pid {
                Some(p) => GracefulKillStep::RunTaskkill(p),
                None => GracefulKillStep::Finished(TerminationResult::ProcessNotFound),
            }
        }
    }

    /// The result of the polite `taskkill /PID` of a graceful kill.
    pub fn graceful_taskkill_result(&self, run: &CommandRun) -> (r: TerminationResult)
        ensures
            taskkill_result(
                *run,
                "Graceful taskkill failed: "@,
                "Failed to run graceful taskkill: "@,
                r,
            ),
    {
        classify_taskkill(run, "Graceful taskkill failed: ", "Failed to run graceful taskkill: ")
    }

    /// The result of a forceful kill: the handle's own kill is tried first,
    /// whatever it returns; then `taskkill /F /PID` decides. `run` is that
    /// run, `None` when the process has no id (the process is not found, and
    /// nothing is run).
    pub fn force_kill_result(&self, run: Option<&CommandRun>) -> (r: TerminationResult)
        ensures
            match run {
                None => r is ProcessNotFound,
                Some(t) => taskkill_result(
                    *t,
                    "Force taskkill failed: "@,
                    "Failed to run force taskkill: "@,
                    r,
                ),
            },
    {
        match run {
            None => TerminationResult::ProcessNotFound,
            Some(t) => classify_taskkill(
                t,
                "Force taskkill failed: ",
                "Failed to run force taskkill: ",
            ),
        }
    }
}

/// What an escalating kill does after its graceful kill.
#[derive(Debug, Clone)]
pub enum EscalatingKillStep {
    /// Wait this many milliseconds, then kill forcefully; the forceful kill's
    /// result is the escalating kill's result.
    WaitThenForce(u64),
    Finished(TerminationResult),
}

/// An escalating kill stops after a graceful kill that brought the process
/// down or found it gone; otherwise it waits [`ESCALATION_DELAY_MS`] and forces.
pub fn escalate_after_graceful(graceful: TerminationResult) -> (step: EscalatingKillStep)
    ensures
        graceful is Success ==> step == EscalatingKillStep::Finished(TerminationResult::Success),
        graceful is ProcessNotFound ==> step == EscalatingKillStep::Finished(
            TerminationResult::ProcessNotFound,
        ),
        !is_gone(graceful) ==> step == EscalatingKillStep::WaitThenForce(ESCALATION_DELAY_MS),
{
    match graceful {
        TerminationResult::Success => EscalatingKillStep::Finished(TerminationResult::Success),
        TerminationResult::ProcessNotFound => EscalatingKillStep::Finished(
            TerminationResult::ProcessNotFound,
        ),
        _ => EscalatingKillStep::WaitThenForce(ESCALATION_DELAY_MS),
    }
}

/// The result of an escalating kill whose graceful kill gave `graceful` and
/// whose forceful kill, made exactly when [`escalate_after_graceful`] asked
/// for one, gave `forced`: the graceful kill's result when it brought the
/// process down or found it gone, else the forceful kill's result.
pub fn escalating_kill_result(graceful: TerminationResult, forced: Option<TerminationResult>) -> (r:
    TerminationResult)
    requires
        !is_gone(graceful) ==> forced is Some,
    ensures
        is_gone(graceful) ==> r == graceful,
        !is_gone(graceful) ==> r == forced.unwrap(),
{
    if result_is_gone(&graceful) {
        graceful
    } else {
        match forced {
            Some(f) => f,
            None => graceful,
        }
    }
}

/// The step of a three-step termination that is under way.
#[derive(Debug, Clone, Copy, PartialEq, Eq, Structural)]
pub enum TerminationStage {
    /// Step 1: the process group is being terminated.
    ProcessGroup,
    /// Step 2: the process tree is being terminated.
    ProcessTree,
    /// Step 3: the process itself is being killed with escalation.
    FinalKill,
    /// The termination is over.
    Done,
}

/// What the driver of a three-step termination must do next.
#[derive(Debug, Clone)]
pub enum TerminationAction {
    /// Terminate the process group of this process, and report the result.
    TerminateProcessGroup(ProcessId),
    /// Terminate the process tree rooted at this process, and report the result.
    TerminateProcessTree(ProcessId),
    /// Kill the process itself with escalation, and report the result.
    EscalatingKill,
    /// Stop: the termination is over with this result.
    Finish(TerminationResult),
}

/// The three-step termination of a process: (1) its process group, where a
/// group terminator is present and supports groups; (2) its process tree, when
/// step 1 was not taken or did not bring the group down; (3) always, the
/// process itself, with escalating signals.
#[derive(Debug, Clone, Copy)]
pub struct ThreeStepTermination {
    pub pid: ProcessId,
    pub stage: TerminationStage,
}

/// The overall result after the final kill returned `kill`: success when the
/// process is gone, else the final kill's result.
pub open spec fn final_result(kill: TerminationResult) -> TerminationResult {
    if is_gone(kill) {
        TerminationResult::Success
    } else {
        kill
    }
}

impl ThreeStepTermination {
    /// Where a termination starts and what it does first.
    pub open spec fn spec_start(pid: Option<ProcessId>, group_step_available: bool) -> (
        Option<ThreeStepTermination>,
        TerminationAction,
    ) {
        match pid {
            None => (None, TerminationAction::Finish(TerminationResult::ProcessNotFound)),
            Some(p) => if group_step_available {
                (
                    Some(ThreeStepTermination { pid: p, stage: TerminationStage::ProcessGroup }),
                    TerminationAction::TerminateProcessGroup(p),
                )
            } else {
                (
                    Some(ThreeStepTermination { pid: p, stage: TerminationStage::ProcessTree }),
                    TerminationAction::TerminateProcessTree(p),
                )
            },
        }
    }

    /// Where a termination goes when the current step reports `result`.
    pub open spec fn spec_next(self, result: TerminationResult) -> (
        ThreeStepTermination,
        TerminationAction,
    ) {
        match self.stage {
            TerminationStage::ProcessGroup => if is_gone(result) {
                (
                    ThreeStepTermination { stage: TerminationStage::FinalKill, ..self },
                    TerminationAction::EscalatingKill,
                )
            } else {
                (
                    ThreeStepTermination { stage: TerminationStage::ProcessTree, ..self },
                    TerminationAction::TerminateProcessTree(self.pid),
                )
            },
            TerminationStage::ProcessTree => (
                ThreeStepTermination { stage: TerminationStage::FinalKill, ..self },
                TerminationAction::EscalatingKill,
            ),
            _ => (
                ThreeStepTermination { stage: TerminationStage::Done, ..self },
                TerminationAction::Finish(final_result(result)),
            ),
        }
    }

    /// Starts a termination. Without a process id the process is not found and
    /// nothing is done. `group_step_available` says that a group terminator is
    /// present and supports process groups.
    pub fn start(pid: Option<ProcessId>, group_step_available: bool) -> (r: (
        Option<ThreeStepTermination>,
        TerminationAction,
    ))
        ensures
            r == Self::spec_start(pid, group_step_available),
    {
        match pid {
            None => (None, TerminationAction::Finish(TerminationResult::ProcessNotFound)),
            Some(p) => if group_step_available {
                (
                    Some(ThreeStepTermination { pid: p, stage: TerminationStage::ProcessGroup }),
                    TerminationAction::TerminateProcessGroup(p),
                )
            } else {
                (
                    Some(ThreeStepTermination { pid: p, stage: TerminationStage::ProcessTree }),
                    TerminationAction::TerminateProcessTree(p),
                )
            },
        }
    }

    /// Takes the result of the current step and says what comes next. A
    /// termination in its final step, or already over, finishes.
    pub fn next(self, result: TerminationResult) -> (r: (ThreeStepTermination, TerminationAction))
        ensures
            r == self.spec_next(result),
    {
        match self.stage {
            TerminationStage::ProcessGroup => {
                if result_is_gone(&result) {
                    (
                        ThreeStepTermination { stage: TerminationStage::FinalKill, ..self },
                        TerminationAction::EscalatingKill,
                    )
                } else {
                    (
                        ThreeStepTermination { stage: TerminationStage::ProcessTree, ..self },
                        TerminationAction::TerminateProcessTree(self.pid),
                    )
                }
            },
            TerminationStage::ProcessTree => (
                ThreeStepTermination { stage: TerminationStage::FinalKill, ..self },
                TerminationAction::EscalatingKill,
            ),
            _ => {
                let last = if result_is_gone(&result) {
                    TerminationResult::Success
                } else {
                    result
                };
                (
                    ThreeStepTermination { stage: TerminationStage::Done, ..self },
                    TerminationAction::Finish(last),
                )
            },
        }
    }
}

/// The actions of a whole three-step termination in which the group step
/// reports `group`, the tree step `tree` and the final kill `kill`.
pub open spec fn three_step_actions(
    pid: Option<ProcessId>,
    group_step_available: bool,
    group: TerminationResult,
    tree: TerminationResult,
    kill: TerminationResult,
) -> Seq<TerminationAction> {
    let (s0, a0) = ThreeStepTermination::spec_start(pid, group_step_available);
    match s0 {
        None => seq![a0],
        Some(m0) => {
            let (m1, a1) = if m0.stage == TerminationStage::ProcessGroup {
                m0.spec_next(group)
            } else {
                m0.spec_next(tree)
            };
            let (m2, a2) = if m1.stage == TerminationStage::ProcessTree {
                m1.spec_next(tree)
            } else {
                m1.spec_next(kill)
            };
            if m2.stage == TerminationStage::FinalKill {
                let (m3, a3) = m2.spec_next(kill);
                seq![a0, a1, a2, a3]
            } else {
                seq![a0, a1, a2]
            }
        },
    }
}

/// Law of the three-step termination: without a process id nothing is done and
/// the process is not found. Otherwise the group step is taken exactly when it
/// is available; the tree step exactly when the group step was not taken or
/// did not bring the group down; the escalating kill is always taken, last; and
/// the termination succeeds when the final kill finds the process gone, else
/// it reports the final kill's result.
pub proof fn lemma_three_step_termination(
    pid: Option<ProcessId>,
    group_step_available: bool,
    group: TerminationResult,
    tree: TerminationResult,
    kill: TerminationResult,
)
    ensures
        ({
            let acts = three_step_actions(pid, group_step_available, group, tree, kill);
            let p = pid.unwrap();
            let group_done = group_step_available && is_gone(group);
            &&& pid is None ==> acts == seq![
                TerminationAction::Finish(TerminationResult::ProcessNotFound),
            ]
            &&& pid is Some && group_done ==> acts == seq![
                TerminationAction::TerminateProcessGroup(p),
                TerminationAction::EscalatingKill,
                TerminationAction::Finish(final_result(kill)),
            ]
            &&& pid is Some && group_step_available && !is_gone(group) ==> acts == seq![
                TerminationAction::TerminateProcessGroup(p),
                TerminationAction::TerminateProcessTree(p),
                TerminationAction::EscalatingKill,
                TerminationAction::Finish(final_result(kill)),
            ]
            &&& pid is Some && !group_step_available ==> acts == seq![
                TerminationAction::TerminateProcessTree(p),
                TerminationAction::EscalatingKill,
                TerminationAction::Finish(final_result(kill)),
            ]
        }),
        is_gone(kill) ==> final_result(kill) is Success,
        !is_gone(kill) ==> final_result(kill) == kill,
{
}

} // verus!
