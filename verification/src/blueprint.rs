//! The definition of an MCP server (its package, how it is run, its
//! environment) and the command line that starts it.
use vstd::prelude::*;
use std::collections::HashMap;

use crate::process::{clone_strings, texts, RunnerError};

verus! {

/// The package an MCP server comes from.
#[derive(Debug, Clone)]
pub struct Package {
    pub name: String,
    pub version: String,
}

/// The command that starts an MCP server.
#[derive(Debug, Clone)]
pub struct CommandRunner {
    pub command: String,
    pub args: Vec<String>,
    /// Working directory; empty for the current one.
    pub workdir: String,
}

/// How an MCP server is reached: through the standard streams of its process,
/// or through server-sent events at `url` once its process runs.
#[derive(Debug, Clone)]
pub enum Runner {
    Stdio { command_runner: CommandRunner },
    Sse { command_runner: CommandRunner, url: String },
}

/// Everything needed to run an MCP server.
#[derive(Debug, Clone)]
pub struct ServerDefinition {
    pub package: Package,
    pub runner: Runner,
    pub env: HashMap<String, String>,
}

impl Default for ServerDefinition {
    fn default() -> (r: ServerDefinition)
        ensures
            r.package.name@ == Seq::<char>::empty(),
            r.package.version@ == Seq::<char>::empty(),
            r.runner matches Runner::Stdio { command_runner } && command_runner.command@
                == Seq::<char>::empty() && command_runner.args@.len() == 0
                && command_runner.workdir@ == Seq::<char>::empty(),
            r.env@ == Map::<String, String>::empty(),
    {
        ServerDefinition {
            package: Package { name: String::new(), version: String::new() },
            runner: Runner::Stdio {
                command_runner: CommandRunner {
                    command: String::new(),
                    args: Vec::new(),
                    workdir: String::new(),
                },
            },
            env: HashMap::new(),
        }
    }
}

/// The command runner of either kind of runner.
pub open spec fn command_runner_of(runner: Runner) -> CommandRunner {
    match runner {
        Runner::Stdio { command_runner } => command_runner,
        Runner::Sse { command_runner, .. } => command_runner,
    }
}

impl Runner {
    /// The command runner, whichever the kind of runner.
    pub fn command_runner(&self) -> (r: &CommandRunner)
        ensures
            *r == command_runner_of(*self),
    {
        match self {
            Runner::Stdio { command_runner } => command_runner,
            Runner::Sse { command_runner, .. } => command_runner,
        }
    }
}

/// A command line to start: program, arguments, working directory (where one
/// is set), environment added to the inherited one, and whether the process
/// leads a new process group.
#[derive(Debug, Clone)]
pub struct CommandSpec {
    pub program: String,
    pub args: Vec<String>,
    pub working_dir: Option<String>,
    pub env: HashMap<String, String>,
    pub new_process_group: bool,
}

/// `spec` starts `runner`'s command with `env`: the same program and
/// arguments, the working directory only when one is given, and the same
/// environment.
pub open spec fn launches(
    spec: CommandSpec,
    runner: CommandRunner,
    env: Map<String, String>,
    new_process_group: bool,
) -> bool {
    &&& spec.program@ == runner.command@
    &&& texts(spec.args@) == texts(runner.args@)
    &&& if runner.workdir@.len() == 0 {
        spec.working_dir is None
    } else {
        spec.working_dir matches Some(d) && d@ == runner.workdir@
    }
    &&& spec.env@ == env
    &&& spec.new_process_group == new_process_group
}

impl CommandRunner {
    /// The command line that starts this command with `env`; the working
    /// directory is set only when it is not empty.
    pub fn launch(&self, env: &HashMap<String, String>, new_process_group: bool) -> (r: CommandSpec)
        ensures
            launches(r, *self, env@, new_process_group),
    {
        let working_dir = if self.workdir.as_str().is_empty() {
            None
        } else {
            Some(self.workdir.clone())
        };
        CommandSpec {
            program: self.command.clone(),
            args: clone_strings(&self.args),
            working_dir,
            env: env.clone(),
            new_process_group,
        }
    }
}

impl ServerDefinition {
    /// The command line of this server's process, whichever the kind of runner.
    pub fn process_command(&self, new_process_group: bool) -> (r: CommandSpec)
        ensures
            launches(r, command_runner_of(self.runner), self.env@, new_process_group),
    {
        self.runner.command_runner().launch(&self.env, new_process_group)
    }

    /// The command line of a stdio server; a server run otherwise is refused.
    pub fn stdio_command(&self) -> (r: Result<CommandSpec, RunnerError>)
        ensures
            match self.runner {
                Runner::Stdio { command_runner } => r matches Ok(spec) && launches(
                    spec,
                    command_runner,
                    self.env@,
                    false,
                ),
                Runner::Sse { .. } => r matches Err(RunnerError::ExpectedStdioRunner),
            },
    {
        match &self.runner {
            Runner::Stdio { command_runner } => Ok(command_runner.launch(&self.env, false)),
            Runner::Sse { .. } => Err(RunnerError::ExpectedStdioRunner),
        }
    }

    /// The command line and event-stream address of an SSE server; a server
    /// run otherwise is refused.
    pub fn sse_command(&self) -> (r: Result<(CommandSpec, String), RunnerError>)
        ensures
            match self.runner {
                Runner::Sse { command_runner, url } => r matches Ok(p) && launches(
                    p.0,
                    command_runner,
                    self.env@,
                    false,
                ) && p.1@ == url@,
                Runner::Stdio { .. } => r matches Err(RunnerError::ExpectedSseRunner),
            },
    {
        match &self.runner {
            Runner::Sse { command_runner, url } => Ok(
                (command_runner.launch(&self.env, false), url.clone()),
            ),
            Runner::Stdio { .. } => Err(RunnerError::ExpectedSseRunner),
        }
    }
}

} // verus!
