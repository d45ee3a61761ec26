use gpmcp_layer::process::RunnerError;
use gpmcp_layer::termination::{failed_text, TerminationResult};

#[test]
fn error_messages() {
    let cases = [
        (RunnerError::ServiceNotAvailable, "Service not available"),
        (RunnerError::ExpectedStdioRunner, "Expected stdio runner"),
        (RunnerError::ExpectedSseRunner, "Expected SSE runner"),
        (RunnerError::NoPidAvailable, "No PID available"),
        (RunnerError::WaitTimeout, "Timeout waiting for process exit"),
        (RunnerError::TransportAlreadyConsumed, "Transport already consumed"),
        (
            RunnerError::CustomTransportUnsupported,
            "Custom transport types not yet supported",
        ),
        (
            RunnerError::NoTransportHandle,
            "No transport handle available. Call initialize() first.",
        ),
    ];
    for (error, text) in cases {
        assert_eq!(error.message(), text);
    }
}

#[test]
fn incomplete_termination_message_carries_the_result() {
    assert_eq!(
        RunnerError::TerminationIncomplete(TerminationResult::AccessDenied).message(),
        "Process termination completed with result: AccessDenied"
    );
    assert_eq!(
        RunnerError::TerminationIncomplete(TerminationResult::Failed("boom".to_string())).message(),
        "Process termination completed with result: Failed(\"boom\")"
    );
}

#[test]
fn result_text_is_what_debug_writes() {
    let results = [
        TerminationResult::Success,
        TerminationResult::ProcessNotFound,
        TerminationResult::AccessDenied,
        TerminationResult::Timeout,
        TerminationResult::Failed("SIGKILL failed: EPERM".to_string()),
        TerminationResult::Failed("quote \" backslash \\ tab \t newline \n".to_string()),
        TerminationResult::Failed("caf\u{e9} \u{7f} \u{301}".to_string()),
    ];
    for result in results {
        assert_eq!(result.debug_text(), format!("{:?}", result));
        assert_eq!(
            RunnerError::TerminationIncomplete(result.clone()).message(),
            format!("Process termination completed with result: {:?}", result)
        );
    }
}

#[test]
fn failed_text_wraps_the_quoted_message() {
    assert_eq!(failed_text("\"x\""), "Failed(\"x\")");
}
