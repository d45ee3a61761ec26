//! The configuration of a runner, and its builder.
use vstd::prelude::*;
use std::collections::HashMap;

use crate::process::{clone_strings, texts};

verus! {

/// How the runner talks to the MCP server.
#[derive(Debug, Clone)]
pub enum Transport {
    Stdio,
    Sse { url: String },
}

impl Default for Transport {
    fn default() -> (r: Transport)
        ensures
            r is Stdio,
    {
        Transport::Stdio
    }
}

/// The configuration of a runner.
#[derive(Debug, Clone)]
pub struct RunnerConfig {
    pub name: String,
    pub version: String,
    pub command: String,
    pub args: Vec<String>,
    pub env: HashMap<String, String>,
    pub transport: Transport,
    pub working_directory: Option<String>,
}

impl Default for RunnerConfig {
    fn default() -> (r: RunnerConfig)
        ensures
            r.name@ == Seq::<char>::empty(),
            r.version@ == Seq::<char>::empty(),
            r.command@ == Seq::<char>::empty(),
            r.args@.len() == 0,
            r.env@ == Map::<String, String>::empty(),
            r.transport is Stdio,
            r.working_directory is None,
    {
        RunnerConfig {
            name: String::new(),
            version: String::new(),
            command: String::new(),
            args: Vec::new(),
            env: HashMap::new(),
            transport: Transport::Stdio,
            working_directory: None,
        }
    }
}

impl RunnerConfig {
    /// A builder with no field set.
    pub fn builder() -> (r: RunnerConfigBuilder)
        ensures
            r.is_empty(),
    {
        RunnerConfigBuilder {
            name: None,
            version: None,
            command: None,
            args: None,
            env: None,
            transport: None,
            working_directory: None,
        }
    }
}

/// Why a [`RunnerConfigBuilder`] could not build.
#[derive(Debug, Clone, Copy)]
pub enum RunnerConfigBuilderError {
    /// The field with this name was never set.
    UninitializedField(&'static str),
}

/// Builds a [`RunnerConfig`]. Name, version, command, arguments and transport
/// must be set before building; the environment and the working directory may
/// be left unset.
#[derive(Debug, Clone)]
pub struct RunnerConfigBuilder {
    pub name: Option<String>,
    pub version: Option<String>,
    pub command: Option<String>,
    pub args: Option<Vec<String>>,
    pub env: Option<HashMap<String, String>>,
    pub transport: Option<Transport>,
    pub working_directory: Option<String>,
}

/// The name of the first required field, in declaration order, that `b`
/// leaves unset. The environment and the working directory are optional.
pub open spec fn first_unset(b: RunnerConfigBuilder) -> Option<Seq<char>> {
    if b.name is None {
        Some("name"@)
    } else if b.version is None {
        Some("version"@)
    } else if b.command is None {
        Some("command"@)
    } else if b.args is None {
        Some("args"@)
    } else if b.transport is None {
        Some("transport"@)
    } else {
        None
    }
}

/// `c` holds exactly the values set in `b`; an environment left unset is
/// empty, and a working directory left unset is none.
pub open spec fn built_from(c: RunnerConfig, b: RunnerConfigBuilder) -> bool {
    &&& c.name@ == b.name->0@
    &&& c.version@ == b.version->0@
    &&& c.command@ == b.command->0@
    &&& texts(c.args@) == texts(b.args->0@)
    &&& c.env@ == match b.env {
        Some(e) => e@,
        None => Map::<String, String>::empty(),
    }
    &&& same_transport(c.transport, b.transport->0)
    &&& match b.working_directory {
        Some(d) => c.working_directory matches Some(cd) && cd@ == d@,
        None => c.working_directory is None,
    }
}

/// `r` is what building from `b` gives: the configuration when every field
/// is set, else the error naming the first field left unset.
pub open spec fn builds(b: RunnerConfigBuilder, r: Result<RunnerConfig, RunnerConfigBuilderError>) -> bool {
    match first_unset(b) {
        None => match r {
            Ok(c) => built_from(c, b),
            Err(_) => false,
        },
        Some(f) => match r {
            Err(RunnerConfigBuilderError::UninitializedField(n)) => n@ == f,
            Ok(_) => false,
        },
    }
}

/// Law of the builder: building succeeds exactly when name, version,
/// command, arguments and transport are set, and the configuration built holds
/// each value set on the builder: the same name, version, command, arguments
/// and transport, the environment set (empty when none was), and the working
/// directory set (none when none was).
pub proof fn lemma_build_keeps_what_was_set(b: RunnerConfigBuilder, r: Result<RunnerConfig, RunnerConfigBuilderError>)
    requires
        builds(b, r),
    ensures
        r is Ok <==> (b.name is Some && b.version is Some && b.command is Some && b.args is Some
            && b.transport is Some),
        r matches Ok(c) ==> {
            &&& c.name@ == b.name.unwrap()@
            &&& c.version@ == b.version.unwrap()@
            &&& c.command@ == b.command.unwrap()@
            &&& c.args@.len() == b.args.unwrap()@.len()
            &&& forall|i: int| 0 <= i < c.args@.len() ==> #[trigger] c.args@[i]@ == b.args.unwrap()@[i]@
            &&& (b.env matches Some(e) ==> c.env@ == e@)
            &&& (b.env is None ==> c.env@ == Map::<String, String>::empty())
            &&& (b.transport.unwrap() is Stdio ==> c.transport is Stdio)
            &&& (b.transport.unwrap() matches Transport::Sse { url } ==> c.transport matches Transport::Sse { url: u } && u@ == url@)
            &&& (b.working_directory matches Some(d) ==> c.working_directory matches Some(x) && x@ == d@)
            &&& (b.working_directory is None ==> c.working_directory is None)
        },
        r matches Err(RunnerConfigBuilderError::UninitializedField(f)) ==> {
            &&& (b.name is None ==> f@ == "name"@)
            &&& (b.name is Some && b.version is None ==> f@ == "version"@)
            &&& (b.name is Some && b.version is Some && b.command is None ==> f@ == "command"@)
            &&& (b.name is Some && b.version is Some && b.command is Some && b.args is None ==> f@
                == "args"@)
            &&& (b.name is Some && b.version is Some && b.command is Some && b.args is Some
                ==> f@ == "transport"@)
        },
{
    if let Ok(c) = r {
        let ca = c.args@;
        let ba = b.args.unwrap()@;
        assert(texts(ca).len() == ca.len());
        assert(texts(ba).len() == ba.len());
        assert forall|i: int| 0 <= i < ca.len() implies #[trigger] ca[i]@ == ba[i]@ by {
            assert(texts(ca)[i] == ca[i]@);
            assert(texts(ba)[i] == ba[i]@);
        }
    }
}

/// Two transports are the same.
pub open spec fn same_transport(a: Transport, b: Transport) -> bool {
    match a {
        Transport::Stdio => b is Stdio,
        Transport::Sse { url } => b matches Transport::Sse { url: u } && u@ == url@,
    }
}

fn clone_transport(t: &Transport) -> (r: Transport)
    ensures
        same_transport(r, *t),
{
    match t {
        Transport::Stdio => Transport::Stdio,
        Transport::Sse { url } => Transport::Sse { url: url.clone() },
    }
}

impl Default for RunnerConfigBuilder {
    /// A builder with no field set.
    fn default() -> (r: RunnerConfigBuilder)
        ensures
            r.is_empty(),
    {
        RunnerConfig::builder()
    }
}

impl RunnerConfigBuilder {
    /// No field is set.
    pub open spec fn is_empty(self) -> bool {
        &&& self.name is None
        &&& self.version is None
        &&& self.command is None
        &&& self.args is None
        &&& self.env is None
        &&& self.transport is None
        &&& self.working_directory is None
    }

    pub fn name(&mut self, value: &str) -> (r: &mut RunnerConfigBuilder)
        ensures
            *r == (RunnerConfigBuilder { name: r.name, ..*old(self) }),
            r.name matches Some(v) && v@ == value@,
            *final(self) == *final(r),
    {
        self.name = Some(String::from_str(value));
        self
    }

    pub fn version(&mut self, value: &str) -> (r: &mut RunnerConfigBuilder)
        ensures
            *r == (RunnerConfigBuilder { version: r.version, ..*old(self) }),
            r.version matches Some(v) && v@ == value@,
            *final(self) == *final(r),
    {
        self.version = Some(String::from_str(value));
        self
    }

    pub fn command(&mut self, value: &str) -> (r: &mut RunnerConfigBuilder)
        ensures
            *r == (RunnerConfigBuilder { command: r.command, ..*old(self) }),
            r.command matches Some(v) && v@ == value@,
            *final(self) == *final(r),
    {
        self.command = Some(String::from_str(value));
        self
    }

    pub fn args(&mut self, value: Vec<String>) -> (r: &mut RunnerConfigBuilder)
        ensures
            *r == (RunnerConfigBuilder { args: Some(value), ..*old(self) }),
            *final(self) == *final(r),
    {
        self.args = Some(value);
        self
    }

    pub fn env(&mut self, value: HashMap<String, String>) -> (r: &mut RunnerConfigBuilder)
        ensures
            *r == (RunnerConfigBuilder { env: Some(value), ..*old(self) }),
            *final(self) == *final(r),
    {
        self.env = Some(value);
        self
    }

    pub fn transport(&mut self, value: Transport) -> (r: &mut RunnerConfigBuilder)
        ensures
            *r == (RunnerConfigBuilder { transport: Some(value), ..*old(self) }),
            *final(self) == *final(r),
    {
        self.transport = Some(value);
        self
    }

    pub fn working_directory(&mut self, value: &str) -> (r: &mut RunnerConfigBuilder)
        ensures
            *r == (RunnerConfigBuilder { working_directory: r.working_directory, ..*old(self) }),
            r.working_directory matches Some(v) && v@ == value@,
            *final(self) == *final(r),
    {
        self.working_directory = Some(String::from_str(value));
        self
    }

    /// Builds the configuration from the values set; the first required field
    /// left unset, in declaration order, is reported.
    pub fn build(&self) -> (r: Result<RunnerConfig, RunnerConfigBuilderError>)
        ensures
            builds(*self, r),
    {
        let name = match &self.name {
            Some(v) => v,
            None => return Err(RunnerConfigBuilderError::UninitializedField("name")),
        };
        let version = match &self.version {
            Some(v) => v,
            None => return Err(RunnerConfigBuilderError::UninitializedField("version")),
        };
        let command = match &self.command {
            Some(v) => v,
            None => return Err(RunnerConfigBuilderError::UninitializedField("command")),
        };
        let args = match &self.args {
            Some(v) => v,
            None => return Err(RunnerConfigBuilderError::UninitializedField("args")),
        };
        let transport = match &self.transport {
            Some(v) => v,
            None => return Err(RunnerConfigBuilderError::UninitializedField("transport")),
        };
        let env = match &self.env {
            Some(e) => e.clone(),
            None => HashMap::new(),
        };
        let working_directory = match &self.working_directory {
            Some(d) => Some(d.clone()),
            None => None,
        };
        Ok(
            RunnerConfig {
                name: name.clone(),
                version: version.clone(),
                command: command.clone(),
                args: clone_strings(args),
                env,
                transport: clone_transport(transport),
                working_directory,
            },
        )
    }
}

} // verus!
