//! The decisions of the runners that connect to an MCP server: how the
//! client introduces itself, how a server definition is started, which
//! implementation serves a request, and what each runner operation answers.
use vstd::prelude::*;

use crate::blueprint::{launches, Runner, ServerDefinition};
use crate::blueprint::CommandSpec;
use crate::process::RunnerError;
use crate::termination::TerminationResult;
use crate::transport::SSE_STARTUP_DELAY_MS;

verus! {

/// How the client introduces itself to the MCP server.
#[derive(Debug, Clone)]
pub struct ClientInfo {
    pub name: String,
    pub version: String,
}

/// The client introduces itself with the name and version of the server's package.
pub fn create_client_info(server_definition: &ServerDefinition) -> (r: ClientInfo)
    ensures
        r.name@ == server_definition.package.name@,
        r.version@ == server_definition.package.version@,
{
    ClientInfo {
        name: server_definition.package.name.clone(),
        version: server_definition.package.version.clone(),
    }
}

/// The fixed introduction of the trait-based MCP service.
pub fn trait_based_client_info() -> (r: ClientInfo)
    ensures
        r.name@ == "trait-based-gpmcp-runner"@,
        r.version@ == "1.0.0"@,
{
    ClientInfo {
        name: String::from_str("trait-based-gpmcp-runner"),
        version: String::from_str("1.0.0"),
    }
}

/// Which runner implementation to use.
#[derive(Debug, Clone, Copy, PartialEq, Eq, Structural)]
pub enum RunnerImplementation {
    /// The direct implementation.
    Legacy,
    /// The trait-based implementation.
    TraitBased,
}

impl Default for RunnerImplementation {
    fn default() -> (r: RunnerImplementation)
        ensures
            r == RunnerImplementation::TraitBased,
    {
        RunnerImplementation::TraitBased
    }
}

/// Creates runners of the implementation asked for.
pub struct GpmcpRunnerFactory;

impl GpmcpRunnerFactory {
    /// The implementation that actually serves a request for `implementation`:
    /// the direct implementation is routed to the trait-based one for now.
    pub fn routed_implementation(implementation: RunnerImplementation) -> (r: RunnerImplementation)
        ensures
            r == RunnerImplementation::TraitBased,
    {
        match implementation {
            RunnerImplementation::Legacy => RunnerImplementation::TraitBased,
            RunnerImplementation::TraitBased => RunnerImplementation::TraitBased,
        }
    }

    /// The implementation used when none is asked for.
    pub fn default_implementation() -> (r: RunnerImplementation)
        ensures
            r == RunnerImplementation::TraitBased,
    {
        RunnerImplementation::default()
    }
}

/// How the direct runner connects: to a stdio server by running its command;
/// to an SSE server by starting its command, waiting `startup_delay_ms`, then
/// connecting to `url`.
#[derive(Debug, Clone)]
pub enum RunnerPlan {
    Stdio(CommandSpec),
    Sse { command: CommandSpec, url: String, startup_delay_ms: u64 },
}

/// How the direct runner connects to the server of `server_definition`.
pub fn runner_plan(server_definition: &ServerDefinition) -> (r: RunnerPlan)
    ensures
        match server_definition.runner {
            Runner::Stdio { command_runner } => r matches RunnerPlan::Stdio(c) && launches(
                c,
                command_runner,
                server_definition.env@,
                false,
            ),
            Runner::Sse { command_runner, url } => r matches RunnerPlan::Sse {
                command,
                url: u,
                startup_delay_ms,
            } && launches(command, command_runner, server_definition.env@, false) && u@ == url@
                && startup_delay_ms == SSE_STARTUP_DELAY_MS,
        },
{
    match &server_definition.runner {
        Runner::Stdio { command_runner } => RunnerPlan::Stdio(
            command_runner.launch(&server_definition.env, false),
        ),
        Runner::Sse { command_runner, url } => RunnerPlan::Sse {
            command: command_runner.launch(&server_definition.env, false),
            url: url.clone(),
            startup_delay_ms: SSE_STARTUP_DELAY_MS,
        },
    }
}

/// Holds the running MCP service of a runner until it is cancelled.
pub struct ServiceSlot<S> {
    service: Option<S>,
}

impl<S> ServiceSlot<S> {
    /// The service held, if any.
    pub closed spec fn held(self) -> Option<S> {
        self.service
    }

    /// A slot holding `service`.
    pub fn new(service: S) -> (r: ServiceSlot<S>)
        ensures
            r.held() == Some(service),
    {
        ServiceSlot { service: Some(service) }
    }

    /// The service for an operation; without one, the service is not available.
    pub fn service(&self) -> (r: Result<&S, RunnerError>)
        ensures
            match self.held() {
                Some(s) => r == Ok::<&S, RunnerError>(&s),
                None => r matches Err(RunnerError::ServiceNotAvailable),
            },
    {
        match &self.service {
            Some(s) => Ok(s),
            None => Err(RunnerError::ServiceNotAvailable),
        }
    }

    /// Takes the service out for cancelling; it can be taken only once.
    pub fn take(&mut self) -> (r: Result<S, RunnerError>)
        ensures
            final(self).held() is None,
            match old(self).held() {
                Some(s) => r == Ok::<S, RunnerError>(s),
                None => r matches Err(RunnerError::ServiceNotAvailable),
            },
    {
        match self.service.take() {
            Some(s) => Ok(s),
            None => Err(RunnerError::ServiceNotAvailable),
        }
    }
}

/// Whether the process runner starts a process manager for a server: it does
/// whenever the server's transport needs a subprocess, which both kinds do.
pub fn needs_process_manager(server_definition: &ServerDefinition) -> (r: bool)
    ensures
        r,
{
    let t = crate::transport_manager::TransportType::from_runner(&server_definition.runner);
    t.needs_subprocess()
}

/// The health a runner reports: its process's health where it manages a
/// process, and healthy where it has none to check.
pub fn reported_health(process_health: Option<bool>) -> (r: bool)
    ensures
        r == match process_health {
            Some(h) => h,
            None => true,
        },
{
    match process_health {
        Some(h) => h,
        None => true,
    }
}

/// What cancelling a trait-based runner does besides cancelling its token.
#[derive(Debug, Clone, Copy, PartialEq, Eq, Structural)]
pub struct CancelPlan {
    /// Close the transport handle (a failure is only reported).
    pub close_transport: bool,
    /// Terminate the process (a failure is only reported).
    pub terminate_process: bool,
}

/// The transport and process handles of a trait-based runner.
pub struct TraitBasedRunnerHandles<T, P> {
    transport: Option<T>,
    process: Option<P>,
}

impl<T, P> TraitBasedRunnerHandles<T, P> {
    /// The transport handle held, if any.
    pub closed spec fn transport_held(self) -> Option<T> {
        self.transport
    }

    /// The process handle held, if any.
    pub closed spec fn process_held(self) -> Option<P> {
        self.process
    }

    /// A runner that was not initialized yet holds neither handle.
    pub fn new() -> (r: TraitBasedRunnerHandles<T, P>)
        ensures
            r.transport_held() is None,
            r.process_held() is None,
    {
        TraitBasedRunnerHandles { transport: None, process: None }
    }

    /// Whether initializing a runner for `server_definition` starts a process
    /// first: it does when the transport needs a subprocess.
    pub fn needs_process(server_definition: &ServerDefinition) -> (r: bool)
        ensures
            r,
    {
        let t = crate::transport::TransportType::from_runner(&server_definition.runner);
        t.needs_subprocess()
    }

    /// Initialization stores both handles.
    pub fn initialized(&mut self, transport: T, process: Option<P>)
        ensures
            final(self).transport_held() == Some(transport),
            final(self).process_held() == process,
    {
        self.transport = Some(transport);
        self.process = process;
    }

    /// The transport handle for MCP operations.
    pub fn transport_handle(&self) -> (r: Option<&T>)
        ensures
            match self.transport_held() {
                Some(t) => r == Some(&t),
                None => r is None,
            },
    {
        match &self.transport {
            Some(t) => Some(t),
            None => None,
        }
    }

    /// The process handle, if any.
    pub fn process_handle(&self) -> (r: Option<&P>)
        ensures
            match self.process_held() {
                Some(p) => r == Some(&p),
                None => r is None,
            },
    {
        match &self.process {
            Some(p) => Some(p),
            None => None,
        }
    }

    /// Creating a service takes the transport handle out, for the service to
    /// be built on; without one the runner was not initialized.
    pub fn create_service(&mut self) -> (r: Result<T, RunnerError>)
        ensures
            match old(self).transport_held() {
                Some(t) => r == Ok::<T, RunnerError>(t),
                None => r matches Err(RunnerError::NoTransportHandle),
            },
            final(self).transport_held() is None,
            final(self).process_held() == old(self).process_held(),
    {
        match self.transport.take() {
            None => Err(RunnerError::NoTransportHandle),
            Some(t) => Ok(t),
        }
    }

    /// What cancelling does: close the transport where one is held, terminate
    /// the process where one is held.
    pub fn cancel_plan(&self) -> (r: CancelPlan)
        ensures
            r.close_transport == (self.transport_held() is Some),
            r.terminate_process == (self.process_held() is Some),
    {
        CancelPlan {
            close_transport: self.transport.is_some(),
            terminate_process: self.process.is_some(),
        }
    }
}

/// The answer of a trait-based process manager's `terminate`: nothing to do
/// without a process (`None`); done when the termination strategy succeeded;
/// otherwise an error carrying the strategy's result.
pub fn termination_outcome(result: Option<TerminationResult>) -> (r: Result<(), RunnerError>)
    ensures
        match result {
            None => r is Ok,
            Some(TerminationResult::Success) => r is Ok,
            Some(other) => r == Err::<(), RunnerError>(RunnerError::TerminationIncomplete(other)),
        },
{
    match result {
        None => Ok(()),
        Some(TerminationResult::Success) => Ok(()),
        Some(other) => Err(RunnerError::TerminationIncomplete(other)),
    }
}

} // verus!
