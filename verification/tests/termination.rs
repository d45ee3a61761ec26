use gpmcp_layer::process::{CommandOutput, CommandRun, ProcessId};
use gpmcp_layer::termination::{
    after_sigkill, after_sigterm, escalate_after_graceful, escalating_kill_result, result_is_gone,
    EscalatingKillStep,
    EscalationStep, GracefulKillStep, SignalErrorKind, SignalOutcome, TerminationAction,
    TerminationResult, TerminationStage, ThreeStepTermination, UnixProcessGroupTerminator,
    UnixProcessKiller, WindowsProcessGroupTerminator, WindowsProcessKiller,
    WindowsProcessTreeTerminator,
};

fn refused(kind: SignalErrorKind, text: &str) -> SignalOutcome {
    SignalOutcome::Refused {
        kind,
        description: text.to_string(),
    }
}

fn failed_text(r: &TerminationResult) -> String {
    match r {
        TerminationResult::Failed(m) => m.clone(),
        other => panic!("expected a failure, got {:?}", other),
    }
}

#[test]
fn group_sigterm_delivered_waits_then_kills() {
    let g = UnixProcessGroupTerminator;
    assert!(g.supports_process_groups());
    assert_eq!(g.graceful_timeout_ms(), 2000);
    assert!(matches!(
        g.after_group_sigterm(&SignalOutcome::Delivered),
        EscalationStep::WaitThenKill(2000)
    ));
    assert!(matches!(
        g.after_group_sigkill(&SignalOutcome::Delivered),
        TerminationResult::Success
    ));
}

#[test]
fn group_already_gone_is_success() {
    let g = UnixProcessGroupTerminator;
    assert!(matches!(
        g.after_group_sigterm(&refused(SignalErrorKind::NoSuchProcess, "ESRCH: No such process")),
        EscalationStep::Finished(TerminationResult::Success)
    ));
    assert!(matches!(
        g.after_group_sigkill(&refused(SignalErrorKind::NoSuchProcess, "ESRCH: No such process")),
        TerminationResult::Success
    ));
}

#[test]
fn group_refusals() {
    let g = UnixProcessGroupTerminator;
    assert!(matches!(
        g.after_group_sigterm(&refused(SignalErrorKind::PermissionDenied, "EPERM")),
        EscalationStep::Finished(TerminationResult::AccessDenied)
    ));
    match g.after_group_sigterm(&refused(SignalErrorKind::Other, "EINVAL: Invalid argument")) {
        EscalationStep::Finished(r) => assert_eq!(failed_text(&r), "SIGTERM failed: EINVAL: Invalid argument"),
        other => panic!("unexpected {:?}", other),
    }
    let r = g.after_group_sigkill(&refused(SignalErrorKind::PermissionDenied, "EPERM: Operation not permitted"));
    assert_eq!(failed_text(&r), "SIGKILL failed: EPERM: Operation not permitted");
}

#[test]
fn single_process_exchange_uses_its_own_delay() {
    assert!(matches!(
        after_sigterm(&SignalOutcome::Delivered, 500),
        EscalationStep::WaitThenKill(500)
    ));
    assert_eq!(
        failed_text(&after_sigkill(&refused(SignalErrorKind::Other, "x"))),
        "SIGKILL failed: x"
    );
}

#[test]
fn unix_killer_results() {
    let k = UnixProcessKiller;
    assert!(matches!(k.graceful_kill_result(None), TerminationResult::ProcessNotFound));
    assert!(matches!(
        k.graceful_kill_result(Some(&SignalOutcome::Delivered)),
        TerminationResult::Success
    ));
    assert!(matches!(
        k.graceful_kill_result(Some(&refused(SignalErrorKind::NoSuchProcess, ""))),
        TerminationResult::ProcessNotFound
    ));
    assert!(matches!(
        k.graceful_kill_result(Some(&refused(SignalErrorKind::PermissionDenied, ""))),
        TerminationResult::AccessDenied
    ));
    assert_eq!(
        failed_text(&k.graceful_kill_result(Some(&refused(SignalErrorKind::Other, "boom")))),
        "SIGTERM failed: boom"
    );
    assert_eq!(
        failed_text(&k.force_kill_result(Some(&refused(SignalErrorKind::Other, "boom")))),
        "SIGKILL failed: boom"
    );
    assert!(matches!(
        k.force_kill_result(Some(&SignalOutcome::Delivered)),
        TerminationResult::Success
    ));
    assert!(matches!(k.force_kill_result(None), TerminationResult::ProcessNotFound));
}

fn completed(success: bool, stderr: &str) -> CommandRun {
    CommandRun::Completed(CommandOutput {
        success,
        stdout: String::new(),
        stderr: stderr.to_string(),
    })
}

#[test]
fn taskkill_outcomes() {
    let t = WindowsProcessTreeTerminator;
    assert!(matches!(t.single_process_result(&completed(true, "")), TerminationResult::Success));
    assert!(matches!(
        t.single_process_result(&completed(false, "ERROR: The process \"12\" not found.")),
        TerminationResult::ProcessNotFound
    ));
    assert!(matches!(
        t.single_process_result(&completed(false, "The process does not exist")),
        TerminationResult::ProcessNotFound
    ));
    assert!(matches!(
        t.single_process_result(&completed(false, "ERROR: Access is denied.")),
        TerminationResult::AccessDenied
    ));
    assert_eq!(
        failed_text(&t.single_process_result(&completed(false, "weird"))),
        "taskkill failed: weird"
    );
    assert_eq!(
        failed_text(&t.single_process_result(&CommandRun::NotRun("no taskkill".to_string()))),
        "Failed to run taskkill: no taskkill"
    );
}

#[test]
fn windows_killer_steps() {
    let k = WindowsProcessKiller;
    assert!(!WindowsProcessGroupTerminator.supports_process_groups());
    assert!(matches!(
        k.after_handle_terminate(true, None),
        GracefulKillStep::Finished(TerminationResult::Success)
    ));
    assert!(matches!(
        k.after_handle_terminate(false, Some(ProcessId(3))),
        GracefulKillStep::RunTaskkill(ProcessId(3))
    ));
    assert!(matches!(
        k.after_handle_terminate(false, None),
        GracefulKillStep::Finished(TerminationResult::ProcessNotFound)
    ));
    assert_eq!(
        failed_text(&k.graceful_taskkill_result(&completed(false, "odd"))),
        "Graceful taskkill failed: odd"
    );
    assert_eq!(
        failed_text(&k.force_kill_result(Some(&completed(false, "odd")))),
        "Force taskkill failed: odd"
    );
    assert_eq!(
        failed_text(&k.force_kill_result(Some(&CommandRun::NotRun("e".to_string())))),
        "Failed to run force taskkill: e"
    );
    assert!(matches!(k.force_kill_result(None), TerminationResult::ProcessNotFound));
    assert!(matches!(
        k.force_kill_result(Some(&completed(true, ""))),
        TerminationResult::Success
    ));
}

#[test]
fn escalating_kill_forces_only_when_needed() {
    assert!(matches!(
        escalate_after_graceful(TerminationResult::Success),
        EscalatingKillStep::Finished(TerminationResult::Success)
    ));
    assert!(matches!(
        escalate_after_graceful(TerminationResult::ProcessNotFound),
        EscalatingKillStep::Finished(TerminationResult::ProcessNotFound)
    ));
    assert!(matches!(
        escalate_after_graceful(TerminationResult::AccessDenied),
        EscalatingKillStep::WaitThenForce(1000)
    ));
    assert!(matches!(
        escalate_after_graceful(TerminationResult::Timeout),
        EscalatingKillStep::WaitThenForce(1000)
    ));
    assert!(result_is_gone(&TerminationResult::Success));
    assert!(!result_is_gone(&TerminationResult::Failed("x".to_string())));
}

fn run(
    pid: Option<ProcessId>,
    group_available: bool,
    group: TerminationResult,
    tree: TerminationResult,
    kill: TerminationResult,
) -> Vec<TerminationAction> {
    let (state, first) = ThreeStepTermination::start(pid, group_available);
    let mut actions = vec![first];
    let mut state = match state {
        Some(s) => s,
        None => return actions,
    };
    while state.stage != TerminationStage::Done {
        let result = match state.stage {
            TerminationStage::ProcessGroup => group.clone(),
            TerminationStage::ProcessTree => tree.clone(),
            _ => kill.clone(),
        };
        let (next, action) = state.next(result);
        actions.push(action);
        state = next;
    }
    actions
}

#[test]
fn three_step_without_pid_is_not_found() {
    let acts = run(None, true, TerminationResult::Success, TerminationResult::Success, TerminationResult::Success);
    assert_eq!(acts.len(), 1);
    assert!(matches!(acts[0], TerminationAction::Finish(TerminationResult::ProcessNotFound)));
}

#[test]
fn three_step_skips_tree_after_group_success() {
    let acts = run(
        Some(ProcessId(9)),
        true,
        TerminationResult::ProcessNotFound,
        TerminationResult::Failed("unused".to_string()),
        TerminationResult::ProcessNotFound,
    );
    assert_eq!(acts.len(), 3);
    assert!(matches!(acts[0], TerminationAction::TerminateProcessGroup(ProcessId(9))));
    assert!(matches!(acts[1], TerminationAction::EscalatingKill));
    assert!(matches!(acts[2], TerminationAction::Finish(TerminationResult::Success)));
}

#[test]
fn three_step_falls_back_to_tree_and_reports_kill_failure() {
    let acts = run(
        Some(ProcessId(9)),
        true,
        TerminationResult::AccessDenied,
        TerminationResult::Failed("tree".to_string()),
        TerminationResult::Timeout,
    );
    assert_eq!(acts.len(), 4);
    assert!(matches!(acts[1], TerminationAction::TerminateProcessTree(ProcessId(9))));
    assert!(matches!(acts[2], TerminationAction::EscalatingKill));
    assert!(matches!(acts[3], TerminationAction::Finish(TerminationResult::Timeout)));
}

#[test]
fn three_step_without_group_terminator_starts_with_tree() {
    let acts = run(
        Some(ProcessId(4)),
        false,
        TerminationResult::Success,
        TerminationResult::Success,
        TerminationResult::Success,
    );
    assert_eq!(acts.len(), 3);
    assert!(matches!(acts[0], TerminationAction::TerminateProcessTree(ProcessId(4))));
    assert!(matches!(acts[2], TerminationAction::Finish(TerminationResult::Success)));
}

#[test]
fn escalating_kill_returns_the_forceful_result_when_it_forced() {
    assert!(matches!(
        escalating_kill_result(TerminationResult::Success, None),
        TerminationResult::Success
    ));
    assert!(matches!(
        escalating_kill_result(TerminationResult::ProcessNotFound, None),
        TerminationResult::ProcessNotFound
    ));
    assert!(matches!(
        escalating_kill_result(
            TerminationResult::AccessDenied,
            Some(TerminationResult::Success)
        ),
        TerminationResult::Success
    ));
    assert_eq!(
        failed_text(&escalating_kill_result(
            TerminationResult::Timeout,
            Some(TerminationResult::Failed("SIGKILL failed: x".to_string()))
        )),
        "SIGKILL failed: x"
    );
}

#[test]
fn unix_force_kill_tells_the_handle_only_after_delivery() {
    let k = UnixProcessKiller;
    assert!(k.kills_handle(Some(&SignalOutcome::Delivered)));
    assert!(!k.kills_handle(Some(&refused(SignalErrorKind::NoSuchProcess, ""))));
    assert!(!k.kills_handle(Some(&refused(SignalErrorKind::Other, "x"))));
    assert!(!k.kills_handle(None));
}
