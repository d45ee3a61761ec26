use gpmcp_layer::process::{
    CommandOutput, CommandRun, ProcessId, ProcessStatus, RestartCounts, RunnerError,
    UnixProcessMonitor, WindowsProcessMonitor,
};
use gpmcp_layer::termination::{SignalErrorKind, SignalOutcome};

#[test]
fn process_id_conversions() {
    let pid: ProcessId = ProcessId::from(1234u32);
    assert_eq!(pid, ProcessId(1234));
    let raw: u32 = u32::from(pid);
    assert_eq!(raw, 1234);
}

#[test]
fn restart_counts_per_process() {
    let mut counts = RestartCounts::new();
    assert_eq!(counts.restart_count(Some(ProcessId(7))), 0);
    counts.record_restart(Some(ProcessId(7)));
    counts.record_restart(Some(ProcessId(7)));
    counts.record_restart(Some(ProcessId(8)));
    counts.record_restart(None);
    assert_eq!(counts.restart_count(Some(ProcessId(7))), 2);
    assert_eq!(counts.restart_count(Some(ProcessId(8))), 1);
    assert_eq!(counts.restart_count(Some(ProcessId(9))), 0);
    assert_eq!(counts.restart_count(None), 0);
    counts.clear();
    assert_eq!(counts.restart_count(Some(ProcessId(7))), 0);
}

#[test]
fn unix_health_follows_the_probe() {
    let m = UnixProcessMonitor;
    assert!(m.health_from_probe(Some(&SignalOutcome::Delivered)));
    assert!(!m.health_from_probe(Some(&SignalOutcome::Refused {
        kind: SignalErrorKind::NoSuchProcess,
        description: String::new()
    })));
    assert!(!m.health_from_probe(Some(&SignalOutcome::Refused {
        kind: SignalErrorKind::PermissionDenied,
        description: String::new()
    })));
    assert!(!m.health_from_probe(None));
}

fn tasklist(success: bool, stdout: &str) -> CommandRun {
    CommandRun::Completed(CommandOutput {
        success,
        stdout: stdout.to_string(),
        stderr: String::new(),
    })
}

#[test]
fn windows_health_needs_a_process_line() {
    let m = WindowsProcessMonitor;
    let found = "\"Image Name\",\"PID\"\r\n\"node.exe\",\"12\"\r\n";
    assert!(m.health_from_tasklist(Some(&tasklist(true, found))));
    assert!(!m.health_from_tasklist(Some(&tasklist(true, "INFO: No tasks are running\r\n"))));
    assert!(!m.health_from_tasklist(Some(&tasklist(false, found))));
    assert!(!m.health_from_tasklist(Some(&CommandRun::NotRun("missing".to_string()))));
    assert!(!m.health_from_tasklist(None));
    assert!(m.health_from_tasklist(Some(&tasklist(true, "a\nb"))));
}

#[test]
fn process_info_needs_a_pid() {
    let m = UnixProcessMonitor;
    let args = vec!["2".to_string()];
    assert!(matches!(
        m.process_info(None, true, "sleep", &args),
        Err(RunnerError::NoPidAvailable)
    ));
    let info = m.process_info(Some(ProcessId(5)), true, "sleep", &args).unwrap();
    assert_eq!(info.pid, ProcessId(5));
    assert_eq!(info.status, ProcessStatus::Running);
    assert_eq!(info.command, "sleep");
    assert_eq!(info.args, args);
    let info = WindowsProcessMonitor
        .process_info(Some(ProcessId(5)), false, "node", &vec![])
        .unwrap();
    assert_eq!(info.status, ProcessStatus::Terminated);
}
