use gpmcp_layer::blueprint::{CommandRunner, Runner, ServerDefinition};
use gpmcp_layer::process::RunnerError;
use gpmcp_layer::transport::{
    DefaultTransportCreator, DefaultTransportManager, SseTransportHandle, StdioTransportHandle,
    TransportPlan, TransportType, TransportVariant,
};

fn runner(command: &str) -> CommandRunner {
    CommandRunner {
        command: command.to_string(),
        args: vec![],
        workdir: String::new(),
    }
}

#[test]
fn test_transport_type_detection() {
    let stdio_runner = Runner::Stdio {
        command_runner: runner("test"),
    };

    let sse_runner = Runner::Sse {
        url: "http://localhost:8080".to_string(),
        command_runner: runner("test"),
    };

    let stdio_type = TransportType::from_runner(&stdio_runner);
    let sse_type = TransportType::from_runner(&sse_runner);

    assert!(matches!(stdio_type, TransportType::Stdio));
    assert!(matches!(sse_type, TransportType::Sse { .. }));

    assert!(stdio_type.needs_subprocess());
    assert!(sse_type.needs_subprocess());
}

#[test]
fn custom_transport_needs_no_subprocess_and_is_not_supported() {
    let custom = TransportType::Custom("websocket".to_string());
    assert!(!custom.needs_subprocess());
    let creator = DefaultTransportCreator;
    assert!(!creator.supports_transport_type(&custom));
    assert!(creator.supports_transport_type(&TransportType::Stdio));
    assert!(creator.supports_transport_type(&TransportType::Sse {
        url: "http://x".to_string()
    }));
    let plan = creator.transport_plan(&custom, &ServerDefinition::default(), false);
    assert!(matches!(plan, Err(RunnerError::CustomTransportUnsupported)));
}

#[test]
fn default_manager_offers_stdio_and_sse() {
    let manager = DefaultTransportManager::new();
    let types = manager.supported_transport_types();
    assert_eq!(types.len(), 2);
    assert!(matches!(types[0], TransportType::Stdio));
    match &types[1] {
        TransportType::Sse { url } => assert_eq!(url, "example"),
        other => panic!("unexpected {:?}", other),
    }
    let creator = DefaultTransportCreator;
    for t in &types {
        assert!(creator.supports_transport_type(t));
    }
}

#[test]
fn default_manager_plans_stdio_for_a_stdio_server() {
    let def = ServerDefinition {
        runner: Runner::Stdio {
            command_runner: CommandRunner {
                command: "echo".to_string(),
                args: vec!["hello".to_string()],
                workdir: String::new(),
            },
        },
        ..Default::default()
    };
    match DefaultTransportManager::default()
        .transport_plan(&TransportType::Stdio, &def, false)
        .unwrap()
    {
        TransportPlan::Stdio(spec) => {
            assert_eq!(spec.program, "echo");
            assert_eq!(spec.working_dir, None);
        }
        other => panic!("unexpected {:?}", other),
    }
}

#[test]
fn stdio_handle_gives_its_transport_once() {
    let handle = StdioTransportHandle::new(42u32);
    assert!(handle.is_ready());
    assert!(matches!(handle.transport_type(), TransportType::Stdio));
    match handle.take_inner::<()>() {
        Ok(TransportVariant::Stdio(v)) => assert_eq!(v, 42),
        _ => panic!("transport not handed over"),
    }
}

#[test]
fn closed_stdio_handle_is_consumed() {
    let mut handle = StdioTransportHandle::new(1u8);
    assert!(handle.close().is_ok());
    assert!(!handle.is_ready());
    assert!(matches!(
        handle.take_inner::<()>(),
        Err(RunnerError::TransportAlreadyConsumed)
    ));
}

#[test]
fn sse_handle_keeps_url_and_closes() {
    let mut handle = SseTransportHandle::new("conn", "http://localhost:9/sse".to_string());
    match handle.transport_type() {
        TransportType::Sse { url } => assert_eq!(url, "http://localhost:9/sse"),
        other => panic!("unexpected {:?}", other),
    }
    assert!(handle.is_ready());
    handle.close().unwrap();
    assert!(!handle.is_ready());
    assert!(matches!(
        handle.take_inner::<()>(),
        Err(RunnerError::TransportAlreadyConsumed)
    ));
    let fresh = SseTransportHandle::new(5i32, "u".to_string());
    match fresh.take_inner::<()>() {
        Ok(TransportVariant::Sse(v)) => assert_eq!(v, 5),
        _ => panic!("transport not handed over"),
    }
}

#[test]
fn taking_a_transport_empties_the_handle() {
    let mut handle = StdioTransportHandle::new(7u16);
    assert!(handle.process_handle::<u32>().is_none());
    match handle.take::<()>() {
        Ok(TransportVariant::Stdio(v)) => assert_eq!(v, 7),
        _ => panic!("transport not handed over"),
    }
    assert!(!handle.is_ready());
    assert!(matches!(handle.transport_type(), TransportType::Stdio));
    match handle.take::<()>() {
        Err(e) => assert_eq!(e.message(), "Transport already consumed"),
        Ok(_) => panic!("taken twice"),
    }
    let mut sse = SseTransportHandle::new("c", "http://x/sse".to_string());
    assert!(sse.process_handle::<str>().is_none());
    assert!(matches!(sse.take::<()>(), Ok(TransportVariant::Sse("c"))));
    assert!(matches!(
        sse.take::<()>(),
        Err(RunnerError::TransportAlreadyConsumed)
    ));
}
