//! The transport manager of the process runner: stdio or SSE, and how each
//! is set up.
use vstd::prelude::*;

use crate::blueprint::{launches, Runner, ServerDefinition};
use crate::process::RunnerError;
use crate::transport::{TransportPlan, TransportVariant, SSE_STARTUP_DELAY_MS};

verus! {

/// The transport mechanisms of the process runner.
#[derive(Debug, Clone)]
pub enum TransportType {
    Stdio,
    Sse { url: String },
}

impl TransportType {
    /// The transport type of a runner: stdio for a stdio runner, SSE with the
    /// runner's address for an SSE runner.
    pub fn from_runner(runner: &Runner) -> (r: TransportType)
        ensures
            match *runner {
                Runner::Stdio { .. } => r is Stdio,
                Runner::Sse { url, .. } => r matches TransportType::Sse { url: u } && u@ == url@,
            },
    {
        match runner {
            Runner::Stdio { .. } => TransportType::Stdio,
            Runner::Sse { url, .. } => TransportType::Sse { url: url.clone() },
        }
    }

    /// Both transports need a subprocess: stdio talks to it, and SSE needs it
    /// to run the server.
    pub fn needs_subprocess(&self) -> (r: bool)
        ensures
            r,
    {
        match self {
            TransportType::Stdio => true,
            TransportType::Sse { .. } => true,
        }
    }
}

/// Holds the transport type and the transport built for it until the service
/// takes the transport.
pub struct TransportManager<S, E> {
    transport_type: TransportType,
    transport: TransportVariant<S, E>,
}

impl<S, E> TransportManager<S, E> {
    /// The transport type.
    pub closed spec fn kind(self) -> TransportType {
        self.transport_type
    }

    /// The transport held.
    pub closed spec fn held(self) -> TransportVariant<S, E> {
        self.transport
    }

    /// How the transport of `transport_type` is set up for `server_definition`:
    /// stdio runs the stdio runner's command (another runner is refused); SSE
    /// connects to the address, first waiting for the server when a process
    /// manager started it.
    pub fn plan(
        transport_type: &TransportType,
        server_definition: &ServerDefinition,
        has_process_manager: bool,
    ) -> (r: Result<TransportPlan, RunnerError>)
        ensures
            match *transport_type {
                TransportType::Stdio => match server_definition.runner {
                    Runner::Stdio { command_runner } => r matches Ok(TransportPlan::Stdio(spec))
                        && launches(spec, command_runner, server_definition.env@, false),
                    Runner::Sse { .. } => r matches Err(RunnerError::ExpectedStdioRunner),
                },
                TransportType::Sse { url } => r matches Ok(
                    TransportPlan::Sse { url: u, startup_delay_ms },
                ) && u@ == url@ && startup_delay_ms == (if has_process_manager {
                    SSE_STARTUP_DELAY_MS
                } else {
                    0
                }),
            },
    {
        match transport_type {
            TransportType::Stdio => match server_definition.stdio_command() {
                Ok(spec) => Ok(TransportPlan::Stdio(spec)),
                Err(e) => Err(e),
            },
            TransportType::Sse { url } => {
                let delay = if has_process_manager {
                    SSE_STARTUP_DELAY_MS
                } else {
                    0
                };
                Ok(TransportPlan::Sse { url: url.clone(), startup_delay_ms: delay })
            },
        }
    }

    /// A manager holding the transport built for `transport_type`.
    pub fn new(transport_type: TransportType, transport: TransportVariant<S, E>) -> (r:
        TransportManager<S, E>)
        ensures
            r.kind() == transport_type,
            r.held() == transport,
    {
        TransportManager { transport_type, transport }
    }

    /// The transport type.
    pub fn transport_type(&self) -> (r: &TransportType)
        ensures
            *r == self.kind(),
    {
        &self.transport_type
    }

    /// Gives the transport up for service creation.
    pub fn into_transport(self) -> (r: TransportVariant<S, E>)
        ensures
            r == self.held(),
    {
        self.transport
    }
}

} // verus!
