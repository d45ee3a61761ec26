//! The life of a supervised server process: started, checked, restarted,
//! stopped; and the order in which its process tree is brought down.
use vstd::prelude::*;

use crate::termination::TerminationResult;

verus! {

/// The milliseconds waited between stopping a process and starting it again.
pub const RESTART_DELAY_MS: u64 = 500;

/// What a non-blocking look at the child process found.
#[derive(Debug, Clone, Copy, PartialEq, Eq, Structural)]
pub enum ExitProbe {
    /// It is still running.
    StillRunning,
    /// It has exited, with this exit code where it had one.
    Exited(Option<i32>),
    /// Its state could not be read.
    Unreadable,
}

/// The state of a supervised process: whether a child process is held,
/// whether a monitor watches it, and how often it was restarted.
#[derive(Debug, Clone, Copy, PartialEq, Eq, Structural)]
pub struct ProcessLifecycle {
    pub child_present: bool,
    pub monitor_active: bool,
    pub restarts: u32,
}

impl ProcessLifecycle {
    /// A freshly started process: a child watched by a monitor, never restarted.
    pub open spec fn spec_started() -> ProcessLifecycle {
        ProcessLifecycle { child_present: true, monitor_active: true, restarts: 0 }
    }

    /// Whether a health check finds the process healthy: a child is held and
    /// still runs.
    pub open spec fn spec_healthy(self, probe: Option<ExitProbe>) -> bool {
        self.child_present && probe == Some(ExitProbe::StillRunning)
    }

    /// The state after a health check: a child seen to have exited is let go.
    pub open spec fn spec_after_check(self, probe: Option<ExitProbe>) -> ProcessLifecycle {
        if probe matches Some(ExitProbe::Exited(_)) {
            ProcessLifecycle { child_present: false, ..self }
        } else {
            self
        }
    }

    /// The state after a restart was counted.
    pub open spec fn spec_counted(self) -> ProcessLifecycle {
        ProcessLifecycle { restarts: (self.restarts + 1) as u32, ..self }
    }

    /// The state after the process was stopped, or seen by the monitor to exit.
    pub open spec fn spec_stopped(self) -> ProcessLifecycle {
        ProcessLifecycle { child_present: false, monitor_active: false, ..self }
    }

    /// The state after the process was started again.
    pub open spec fn spec_restarted(self) -> ProcessLifecycle {
        ProcessLifecycle { child_present: true, monitor_active: true, ..self }
    }

    /// The state after `n` complete restarts (count, stop, start).
    pub open spec fn spec_after_restarts(self, n: nat) -> ProcessLifecycle
        decreases n,
    {
        if n == 0 {
            self
        } else {
            self.spec_after_restarts((n - 1) as nat).spec_counted().spec_stopped().spec_restarted()
        }
    }

    pub fn started() -> (r: ProcessLifecycle)
        ensures
            r == Self::spec_started(),
    {
        ProcessLifecycle { child_present: true, monitor_active: true, restarts: 0 }
    }

    /// The number of restarts so far.
    pub fn restart_count(&self) -> (r: u32)
        ensures
            r == self.restarts,
    {
        self.restarts
    }

    /// A health check: healthy exactly when a child is held and still runs. A
    /// child seen to have exited is let go; a child whose state cannot be read
    /// counts as unhealthy but is kept. `probe` is what a look at the held
    /// child found, `None` when no child is held.
    pub fn check_health(&mut self, probe: Option<ExitProbe>) -> (healthy: bool)
        requires
            old(self).child_present == (probe is Some),
        ensures
            healthy == old(self).spec_healthy(probe),
            *final(self) == old(self).spec_after_check(probe),
    {
        match probe {
            Some(ExitProbe::StillRunning) => true,
            Some(ExitProbe::Exited(_)) => {
                self.child_present = false;
                false
            },
            Some(ExitProbe::Unreadable) => false,
            None => false,
        }
    }

    /// The monitor saw the child exit: the child is let go and the monitor ends.
    pub fn monitor_saw_exit(&mut self)
        ensures
            *final(self) == old(self).spec_stopped(),
    {
        self.child_present = false;
        self.monitor_active = false;
    }

    /// A restart begins by being counted; then the process is stopped and,
    /// after [`RESTART_DELAY_MS`], started again.
    pub fn begin_restart(&mut self)
        requires
            old(self).restarts < u32::MAX,
        ensures
            *final(self) == old(self).spec_counted(),
    {
        self.restarts = self.restarts + 1;
    }

    /// The process was stopped: the monitor is cancelled and the child taken
    /// down and let go.
    pub fn stopped(&mut self)
        ensures
            *final(self) == old(self).spec_stopped(),
    {
        self.child_present = false;
        self.monitor_active = false;
    }

    /// The process was started again, with a new monitor.
    pub fn restarted(&mut self)
        ensures
            *final(self) == old(self).spec_restarted(),
    {
        self.child_present = true;
        self.monitor_active = true;
    }
}

/// Law of restarts: a started process counts no restart, and after `n`
/// restarts it counts `n` and holds a watched child.
pub proof fn lemma_restart_count(n: nat)
    requires
        n <= u32::MAX,
    ensures
        ProcessLifecycle::spec_started().restarts == 0,
        ProcessLifecycle::spec_started().spec_after_restarts(n).restarts == n,
        ProcessLifecycle::spec_started().spec_after_restarts(n).child_present,
        ProcessLifecycle::spec_started().spec_after_restarts(n).monitor_active,
    decreases n,
{
    if n > 0 {
        lemma_restart_count((n - 1) as nat);
    }
}

/// Law of health: once a check has seen the child exit, or the process was
/// stopped, no check finds it healthy until it is started again; a check
/// never changes the restart count.
pub proof fn lemma_health_after_exit(s: ProcessLifecycle, code: Option<i32>, later: Option<ExitProbe>)
    ensures
        !s.spec_after_check(Some(ExitProbe::Exited(code))).spec_healthy(later),
        !s.spec_stopped().spec_healthy(later),
        s.spec_after_check(later).restarts == s.restarts,
        s.spec_restarted().child_present,
{
}

/// Law of health: a process is healthy exactly when a child is held and the
/// look at it found it still running; neither the restart count nor the
/// monitor matters, so a held, running child is healthy however often the
/// process was restarted.
pub proof fn lemma_healthy_exactly(s: ProcessLifecycle, t: ProcessLifecycle, probe: Option<ExitProbe>, n: nat)
    requires
        n <= u32::MAX,
    ensures
        s.spec_healthy(probe) <==> (s.child_present && probe == Some(ExitProbe::StillRunning)),
        s.child_present == t.child_present ==> s.spec_healthy(probe) == t.spec_healthy(probe),
        s.child_present ==> s.spec_healthy(Some(ExitProbe::StillRunning)),
        ProcessLifecycle::spec_started().spec_after_restarts(n).spec_healthy(
            Some(ExitProbe::StillRunning),
        ),
{
    lemma_restart_count(n);
}

/// What the direct process manager does next to terminate its child process.
#[derive(Debug, Clone, Copy, PartialEq, Eq, Structural)]
pub enum ChildTerminationStep {
    /// Terminate the child's process group (Unix), and report whether that
    /// brought the group down.
    KillProcessGroup(u32),
    /// Terminate the child's process tree.
    KillProcessTree(u32),
    /// Kill the child itself and wait for it.
    KillChild,
}

/// The first step of terminating a held child: its process group where the
/// platform has process groups and the child's id is known; else its tree
/// where the id is known; else the child itself.
pub fn child_termination_start(pid: Option<u32>, platform_has_process_groups: bool) -> (r:
    ChildTerminationStep)
    ensures
        pid is Some && platform_has_process_groups ==> r == ChildTerminationStep::KillProcessGroup(
            pid.unwrap(),
        ),
        pid is Some && !platform_has_process_groups ==> r == ChildTerminationStep::KillProcessTree(
            pid.unwrap(),
        ),
        pid is None ==> r == ChildTerminationStep::KillChild,
{
    match pid {
        Some(p) => if platform_has_process_groups {
            ChildTerminationStep::KillProcessGroup(p)
        } else {
            ChildTerminationStep::KillProcessTree(p)
        },
        None => ChildTerminationStep::KillChild,
    }
}

/// After the process-group step: the tree is terminated when the group was not
/// brought down; then, either way, the child itself is killed.
pub fn child_termination_after_group(pid: u32, group_killed: bool) -> (r: ChildTerminationStep)
    ensures
        group_killed ==> r == ChildTerminationStep::KillChild,
        !group_killed ==> r == ChildTerminationStep::KillProcessTree(pid),
{
    if group_killed {
        ChildTerminationStep::KillChild
    } else {
        ChildTerminationStep::KillProcessTree(pid)
    }
}

/// The direct process manager's group kill reports success exactly when the
/// group termination ended in success (a group that was already gone counts
/// as success).
pub fn group_kill_succeeded(result: &TerminationResult) -> (r: bool)
    ensures
        r == (*result is Success),
{
    match result {
        TerminationResult::Success => true,
        _ => false,
    }
}

/// The processes signalled when the direct process manager kills a tree: none
/// when the root has no descendants; else the descendants in the order found
/// (each process after all of its own descendants), then the root.
pub fn direct_tree_kill_order(descendants: &Vec<u32>, root: u32) -> (r: Vec<u32>)
    ensures
        descendants@.len() == 0 ==> r@.len() == 0,
        descendants@.len() > 0 ==> r@ == descendants@.push(root),
{
    if descendants.len() == 0 {
        Vec::new()
    } else {
        let mut r = vstd::slice::slice_to_vec(descendants.as_slice());
        r.push(root);
        r
    }
}

/// The processes terminated by a tree terminator: the descendants in the order
/// found (each process after all of its own descendants), then always the
/// root. The root's result is the tree's result; the descendants' results are
/// only reported.
pub fn tree_termination_order(descendants: &Vec<u32>, root: u32) -> (r: Vec<u32>)
    ensures
        r@ == descendants@.push(root),
{
    let mut r = vstd::slice::slice_to_vec(descendants.as_slice());
    r.push(root);
    r
}

/// The result of a tree terminated in [`tree_termination_order`]: the root's
/// result, whatever the descendants' results were (those are only reported).
pub fn tree_termination_result(descendant_results: &Vec<TerminationResult>, root_result: TerminationResult) -> (r:
    TerminationResult)
    ensures
        r == root_result,
{
    root_result
}

/// The result of a tree whose descendants could not be enumerated.
pub fn enumeration_failure(error: &String) -> (r: TerminationResult)
    ensures
        crate::termination::failed_with(
            r,
            crate::termination::message("Failed to enumerate children: "@, error@),
        ),
{
    crate::termination::failure("Failed to enumerate children: ", error)
}

} // verus!
