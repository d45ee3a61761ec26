use gpmcp_layer::lifecycle::{
    child_termination_after_group, child_termination_start, enumeration_failure,
    group_kill_succeeded, ChildTerminationStep, ExitProbe, ProcessLifecycle,
};
use gpmcp_layer::termination::TerminationResult;

#[test]
fn restart_counts_each_restart() {
    let mut p = ProcessLifecycle::started();
    assert_eq!(p.restart_count(), 0);
    p.begin_restart();
    p.stopped();
    p.restarted();
    assert_eq!(p.restart_count(), 1);
    assert!(p.child_present && p.monitor_active);
}

#[test]
fn health_after_exit() {
    let mut p = ProcessLifecycle::started();
    assert!(p.check_health(Some(ExitProbe::StillRunning)));
    assert!(!p.check_health(Some(ExitProbe::Exited(Some(0)))));
    assert!(!p.child_present);
    assert!(!p.check_health(None));
    let mut q = ProcessLifecycle::started();
    assert!(!q.check_health(Some(ExitProbe::Unreadable)));
    assert!(q.child_present);
    q.monitor_saw_exit();
    assert!(!q.child_present && !q.monitor_active);
}

#[test]
fn child_termination_steps() {
    assert_eq!(
        child_termination_start(Some(10), true),
        ChildTerminationStep::KillProcessGroup(10)
    );
    assert_eq!(
        child_termination_start(Some(10), false),
        ChildTerminationStep::KillProcessTree(10)
    );
    assert_eq!(child_termination_start(None, true), ChildTerminationStep::KillChild);
    assert_eq!(child_termination_after_group(10, true), ChildTerminationStep::KillChild);
    assert_eq!(
        child_termination_after_group(10, false),
        ChildTerminationStep::KillProcessTree(10)
    );
    assert!(group_kill_succeeded(&TerminationResult::Success));
    assert!(!group_kill_succeeded(&TerminationResult::AccessDenied));
}

#[test]
fn enumeration_failure_text() {
    match enumeration_failure(&"no /proc".to_string()) {
        TerminationResult::Failed(m) => assert_eq!(m, "Failed to enumerate children: no /proc"),
        other => panic!("unexpected {:?}", other),
    }
}
