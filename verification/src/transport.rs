//! Transports to an MCP server: which kinds exist, what each needs, how one
//! is set up, and the handles that hold a transport until it is used.
use vstd::prelude::*;

use crate::blueprint::{launches, CommandSpec, Runner, ServerDefinition};
use crate::process::RunnerError;

verus! {

/// The milliseconds given an SSE server's process to start before its event
/// stream is connected.
pub const SSE_STARTUP_DELAY_MS: u64 = 1000;

/// The different transport types.
#[derive(Debug, Clone)]
pub enum TransportType {
    Stdio,
    Sse { url: String },
    Custom(String),
}

/// `t` is the transport type of `runner`.
pub open spec fn transport_type_of(runner: Runner, t: TransportType) -> bool {
    match runner {
        Runner::Stdio { .. } => t is Stdio,
        Runner::Sse { url, .. } => t matches TransportType::Sse { url: u } && u@ == url@,
    }
}

impl TransportType {
    /// The transport type of a runner: stdio for a stdio runner, SSE with the
    /// runner's address for an SSE runner.
    pub fn from_runner(runner: &Runner) -> (r: TransportType)
        ensures
            transport_type_of(*runner, r),
    {
        match runner {
            Runner::Stdio { .. } => TransportType::Stdio,
            Runner::Sse { url, .. } => TransportType::Sse { url: url.clone() },
        }
    }

    /// Stdio and SSE transports need a subprocess (the server itself, or the
    /// process that serves the events); a custom transport does not.
    pub fn needs_subprocess(&self) -> (r: bool)
        ensures
            r == !(*self is Custom),
    {
        match self {
            TransportType::Stdio => true,
            TransportType::Sse { .. } => true,
            TransportType::Custom(_) => false,
        }
    }
}

/// How a transport is set up: a stdio transport runs a command and talks to
/// it over its standard streams; an SSE transport waits `startup_delay_ms`
/// and then connects to `url`.
#[derive(Debug, Clone)]
pub enum TransportPlan {
    Stdio(CommandSpec),
    Sse { url: String, startup_delay_ms: u64 },
}

/// `r` is how a transport of type `t` is set up for `def`: a stdio transport
/// runs the stdio runner's command (any other runner is refused); an SSE
/// transport connects to the type's address, waiting first for a server
/// process where one was started; a custom transport is refused.
pub open spec fn plans_transport(
    t: TransportType,
    def: ServerDefinition,
    has_process: bool,
    r: Result<TransportPlan, RunnerError>,
) -> bool {
    match t {
        TransportType::Stdio => match def.runner {
            Runner::Stdio { command_runner } => r matches Ok(TransportPlan::Stdio(spec))
                && launches(spec, command_runner, def.env@, false),
            Runner::Sse { .. } => r matches Err(RunnerError::ExpectedStdioRunner),
        },
        TransportType::Sse { url } => r matches Ok(TransportPlan::Sse { url: u, startup_delay_ms })
            && u@ == url@ && startup_delay_ms == (if has_process {
            SSE_STARTUP_DELAY_MS
        } else {
            0
        }),
        TransportType::Custom(_) => r matches Err(RunnerError::CustomTransportUnsupported),
    }
}

/// The set-up of a stdio or SSE transport.
pub fn plan_transport(t: &TransportType, def: &ServerDefinition, has_process: bool) -> (r: Result<
    TransportPlan,
    RunnerError,
>)
    ensures
        plans_transport(*t, *def, has_process, r),
{
    match t {
        TransportType::Stdio => match def.stdio_command() {
            Ok(spec) => Ok(TransportPlan::Stdio(spec)),
            Err(e) => Err(e),
        },
        TransportType::Sse { url } => {
            let delay = if has_process {
                SSE_STARTUP_DELAY_MS
            } else {
                0
            };
            Ok(TransportPlan::Sse { url: url.clone(), startup_delay_ms: delay })
        },
        TransportType::Custom(_) => Err(RunnerError::CustomTransportUnsupported),
    }
}

/// Creates stdio and SSE transports.
pub struct DefaultTransportCreator;

impl DefaultTransportCreator {
    /// Stdio and SSE transports are supported; custom ones are not.
    pub fn supports_transport_type(&self, transport_type: &TransportType) -> (r: bool)
        ensures
            r == (*transport_type is Stdio || *transport_type is Sse),
    {
        match transport_type {
            TransportType::Stdio => true,
            TransportType::Sse { .. } => true,
            TransportType::Custom(_) => false,
        }
    }

    /// How a transport of `transport_type` is set up for `server_definition`;
    /// `has_process_handle` says that a server process was started for it.
    pub fn transport_plan(
        &self,
        transport_type: &TransportType,
        server_definition: &ServerDefinition,
        has_process_handle: bool,
    ) -> (r: Result<TransportPlan, RunnerError>)
        ensures
            plans_transport(*transport_type, *server_definition, has_process_handle, r),
    {
        plan_transport(transport_type, server_definition, has_process_handle)
    }
}

/// Law: the creator refuses as unsupported exactly the transport types that
/// `supports_transport_type` rejects; an SSE transport is always set up, and a
/// stdio one exactly when the server is run over stdio.
pub proof fn lemma_creator_refuses_unsupported(
    t: TransportType,
    def: ServerDefinition,
    has_process: bool,
    r: Result<TransportPlan, RunnerError>,
)
    requires
        plans_transport(t, def, has_process, r),
    ensures
        (t is Stdio || t is Sse) <==> !(r matches Err(RunnerError::CustomTransportUnsupported)),
        (t is Sse) ==> r is Ok,
        (t is Stdio) ==> (r is Ok <==> def.runner is Stdio),
{
}

/// The default transport manager, which sets transports up with a
/// [`DefaultTransportCreator`].
pub struct DefaultTransportManager {
    pub creator: DefaultTransportCreator,
}

impl DefaultTransportManager {
    /// A manager that sets transports up with a [`DefaultTransportCreator`].
    pub fn new() -> (r: DefaultTransportManager)
        ensures
            r.creator == DefaultTransportCreator,
    {
        DefaultTransportManager { creator: DefaultTransportCreator }
    }

    /// The transport types this manager offers: stdio, and SSE (shown with the
    /// address "example").
    pub fn supported_transport_types(&self) -> (r: Vec<TransportType>)
        ensures
            r@.len() == 2,
            r@[0] is Stdio,
            r@[1] matches TransportType::Sse { url } && url@ == "example"@,
    {
        let mut v: Vec<TransportType> = Vec::new();
        v.push(TransportType::Stdio);
        v.push(TransportType::Sse { url: String::from_str("example") });
        v
    }

    /// How a transport of `transport_type` is set up for `server_definition`.
    pub fn transport_plan(
        &self,
        transport_type: &TransportType,
        server_definition: &ServerDefinition,
        has_process_handle: bool,
    ) -> (r: Result<TransportPlan, RunnerError>)
        ensures
            plans_transport(*transport_type, *server_definition, has_process_handle, r),
    {
        self.creator.transport_plan(transport_type, server_definition, has_process_handle)
    }
}

impl Default for DefaultTransportManager {
    fn default() -> (r: DefaultTransportManager)
        ensures
            r.creator == DefaultTransportCreator,
    {
        DefaultTransportManager::new()
    }
}

/// A transport ready for service creation, of either kind.
pub enum TransportVariant<S, E> {
    Stdio(S),
    Sse(E),
}

/// Holds a stdio transport until it is taken for service creation or closed.
pub struct StdioTransportHandle<S> {
    transport: Option<S>,
    transport_type: TransportType,
}

impl<S> StdioTransportHandle<S> {
    /// The handle holds a transport that was neither taken nor closed.
    pub closed spec fn holds(self) -> bool {
        self.transport is Some
    }

    /// The transport held (meaningful while the handle holds one).
    pub closed spec fn held(self) -> S {
        self.transport->0
    }

    /// The handle's transport type.
    pub closed spec fn kind(self) -> TransportType {
        self.transport_type
    }

    pub fn new(transport: S) -> (r: StdioTransportHandle<S>)
        ensures
            r.holds(),
            r.held() == transport,
            r.kind() is Stdio,
    {
        StdioTransportHandle { transport: Some(transport), transport_type: TransportType::Stdio }
    }

    pub fn transport_type(&self) -> (r: &TransportType)
        ensures
            *r == self.kind(),
    {
        &self.transport_type
    }

    /// The transport is ready while the handle still holds it.
    pub fn is_ready(&self) -> (r: bool)
        ensures
            r == self.holds(),
    {
        self.transport.is_some()
    }

    /// Releases the transport; closing always succeeds.
    pub fn close(&mut self) -> (r: Result<(), RunnerError>)
        ensures
            r is Ok,
            !final(self).holds(),
            final(self).kind() == old(self).kind(),
    {
        self.transport = None;
        Ok(())
    }

    /// Takes the transport out for service creation, leaving the handle
    /// empty; it can be taken only once, and not after the handle was closed.
    pub fn take<E>(&mut self) -> (r: Result<TransportVariant<S, E>, RunnerError>)
        ensures
            old(self).holds() ==> r == Ok::<TransportVariant<S, E>, RunnerError>(
                TransportVariant::Stdio(old(self).held()),
            ),
            !old(self).holds() ==> r matches Err(RunnerError::TransportAlreadyConsumed),
            !final(self).holds(),
            final(self).kind() == old(self).kind(),
    {
        match self.transport.take() {
            Some(t) => Ok(TransportVariant::Stdio(t)),
            None => Err(RunnerError::TransportAlreadyConsumed),
        }
    }

    /// A transport handle exposes no process handle: the transport does not
    /// give access to the process behind it.
    pub fn process_handle<P: ?Sized>(&self) -> (r: Option<&P>)
        ensures
            r is None,
    {
        None
    }

    /// Gives up the transport for service creation; it can be taken only once,
    /// and not after the handle was closed.
    pub fn take_inner<E>(self) -> (r: Result<TransportVariant<S, E>, RunnerError>)
        ensures
            self.holds() ==> r == Ok::<TransportVariant<S, E>, RunnerError>(TransportVariant::Stdio(self.held())),
            !self.holds() ==> r matches Err(RunnerError::TransportAlreadyConsumed),
    {
        match self.transport {
            Some(t) => Ok(TransportVariant::Stdio(t)),
            None => Err(RunnerError::TransportAlreadyConsumed),
        }
    }
}

/// Holds an SSE transport until it is taken for service creation or closed.
pub struct SseTransportHandle<E> {
    transport: Option<E>,
    transport_type: TransportType,
}

impl<E> SseTransportHandle<E> {
    /// The handle holds a transport that was neither taken nor closed.
    pub closed spec fn holds(self) -> bool {
        self.transport is Some
    }

    /// The transport held (meaningful while the handle holds one).
    pub closed spec fn held(self) -> E {
        self.transport->0
    }

    /// The handle's transport type.
    pub closed spec fn kind(self) -> TransportType {
        self.transport_type
    }

    /// A handle for an SSE transport connected to `url`.
    pub fn new(transport: E, url: String) -> (r: SseTransportHandle<E>)
        ensures
            r.holds(),
            r.held() == transport,
            r.kind() matches TransportType::Sse { url: u } && u@ == url@,
    {
        SseTransportHandle { transport: Some(transport), transport_type: TransportType::Sse { url } }
    }

    pub fn transport_type(&self) -> (r: &TransportType)
        ensures
            *r == self.kind(),
    {
        &self.transport_type
    }

    /// The transport is ready while the handle still holds it.
    pub fn is_ready(&self) -> (r: bool)
        ensures
            r == self.holds(),
    {
        self.transport.is_some()
    }

    /// Releases the transport; closing always succeeds.
    pub fn close(&mut self) -> (r: Result<(), RunnerError>)
        ensures
            r is Ok,
            !final(self).holds(),
            final(self).kind() == old(self).kind(),
    {
        self.transport = None;
        Ok(())
    }

    /// Takes the transport out for service creation, leaving the handle
    /// empty; it can be taken only once, and not after the handle was closed.
    pub fn take<S>(&mut self) -> (r: Result<TransportVariant<S, E>, RunnerError>)
        ensures
            old(self).holds() ==> r == Ok::<TransportVariant<S, E>, RunnerError>(
                TransportVariant::Sse(old(self).held()),
            ),
            !old(self).holds() ==> r matches Err(RunnerError::TransportAlreadyConsumed),
            !final(self).holds(),
            final(self).kind() == old(self).kind(),
    {
        match self.transport.take() {
            Some(t) => Ok(TransportVariant::Sse(t)),
            None => Err(RunnerError::TransportAlreadyConsumed),
        }
    }

    /// A transport handle exposes no process handle: the transport does not
    /// give access to the process behind it.
    pub fn process_handle<P: ?Sized>(&self) -> (r: Option<&P>)
        ensures
            r is None,
    {
        None
    }

    /// Gives up the transport for service creation; it can be taken only once,
    /// and not after the handle was closed.
    pub fn take_inner<S>(self) -> (r: Result<TransportVariant<S, E>, RunnerError>)
        ensures
            self.holds() ==> r == Ok::<TransportVariant<S, E>, RunnerError>(TransportVariant::Sse(self.held())),
            !self.holds() ==> r matches Err(RunnerError::TransportAlreadyConsumed),
    {
        match self.transport {
            Some(t) => Ok(TransportVariant::Sse(t)),
            None => Err(RunnerError::TransportAlreadyConsumed),
        }
    }
}

} // verus!
