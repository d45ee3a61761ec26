use gpmcp_layer::blueprint::{CommandRunner, Runner, ServerDefinition};
use gpmcp_layer::process::RunnerError;
use gpmcp_layer::transport::{TransportPlan, TransportVariant};
use gpmcp_layer::transport_manager::{TransportManager, TransportType};
use std::collections::HashMap;

fn runner(command: &str, args: Vec<String>) -> CommandRunner {
    CommandRunner {
        command: command.to_string(),
        args,
        workdir: String::new(),
    }
}

#[test]
fn test_transport_type_from_runner() {
    let stdio_runner = Runner::Stdio {
        command_runner: runner("echo", vec![]),
    };

    let transport_type = TransportType::from_runner(&stdio_runner);
    assert!(matches!(transport_type, TransportType::Stdio));

    let sse_runner = Runner::Sse {
        command_runner: runner("echo", vec![]),
        url: "http://localhost:8000/sse".to_string(),
    };

    let transport_type = TransportType::from_runner(&sse_runner);
    assert!(matches!(transport_type, TransportType::Sse { .. }));
}

#[test]
fn test_transport_needs_subprocess() {
    let stdio_type = TransportType::Stdio;
    assert!(stdio_type.needs_subprocess());

    let sse_type = TransportType::Sse {
        url: "http://localhost:8000/sse".to_string(),
    };
    assert!(sse_type.needs_subprocess());
}

#[test]
fn sse_transport_type_keeps_the_url() {
    let sse_runner = Runner::Sse {
        command_runner: runner("sleep", vec!["1".to_string()]),
        url: "http://localhost:8000/sse".to_string(),
    };
    match TransportType::from_runner(&sse_runner) {
        TransportType::Sse { url } => assert_eq!(url, "http://localhost:8000/sse"),
        other => panic!("unexpected transport type {:?}", other),
    }
}

#[test]
fn stdio_plan_runs_the_command() {
    let mut env = HashMap::new();
    env.insert("KEY".to_string(), "VALUE".to_string());
    let def = ServerDefinition {
        runner: Runner::Stdio {
            command_runner: CommandRunner {
                command: "echo".to_string(),
                args: vec!["hello".to_string()],
                workdir: "/tmp".to_string(),
            },
        },
        env,
        ..Default::default()
    };
    let plan = TransportManager::<(), ()>::plan(&TransportType::Stdio, &def, false).unwrap();
    match plan {
        TransportPlan::Stdio(spec) => {
            assert_eq!(spec.program, "echo");
            assert_eq!(spec.args, vec!["hello".to_string()]);
            assert_eq!(spec.working_dir, Some("/tmp".to_string()));
            assert_eq!(spec.env.get("KEY").map(|s| s.as_str()), Some("VALUE"));
            assert!(!spec.new_process_group);
        }
        other => panic!("unexpected plan {:?}", other),
    }
}

#[test]
fn stdio_plan_refuses_an_sse_runner() {
    let def = ServerDefinition {
        runner: Runner::Sse {
            command_runner: runner("sleep", vec![]),
            url: "http://localhost:8000/sse".to_string(),
        },
        ..Default::default()
    };
    let plan = TransportManager::<(), ()>::plan(&TransportType::Stdio, &def, true);
    assert!(matches!(plan, Err(RunnerError::ExpectedStdioRunner)));
}

#[test]
fn sse_plan_waits_only_when_a_process_was_started() {
    let def = ServerDefinition::default();
    let t = TransportType::Sse {
        url: "http://localhost:8000/sse".to_string(),
    };
    match TransportManager::<(), ()>::plan(&t, &def, true).unwrap() {
        TransportPlan::Sse { url, startup_delay_ms } => {
            assert_eq!(url, "http://localhost:8000/sse");
            assert_eq!(startup_delay_ms, 1000);
        }
        other => panic!("unexpected plan {:?}", other),
    }
    match TransportManager::<(), ()>::plan(&t, &def, false).unwrap() {
        TransportPlan::Sse { startup_delay_ms, .. } => assert_eq!(startup_delay_ms, 0),
        other => panic!("unexpected plan {:?}", other),
    }
}

#[test]
fn transport_manager_hands_over_its_transport() {
    let manager: TransportManager<u32, u8> =
        TransportManager::new(TransportType::Stdio, TransportVariant::Stdio(7));
    assert!(matches!(manager.transport_type(), TransportType::Stdio));
    match manager.into_transport() {
        TransportVariant::Stdio(v) => assert_eq!(v, 7),
        TransportVariant::Sse(_) => panic!("wrong transport"),
    }
}
