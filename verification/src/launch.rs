//! The plan for launching the backend: what to run, where, with which
//! environment, and where its standard streams go. Carrying the plan out is
//! left to the caller.

use vstd::prelude::*;
use vstd::string::*;
use crate::digits::{decimal, decimal_of};
use crate::registry::{SessionDescriptor, SessionView};

verus! {

/// The port on which the backend is told to listen.
pub const BACKEND_PORT: u16 = 8765;

/// Why a launch failed.
#[derive(Clone, Copy, Debug, PartialEq, Eq, Structural)]
pub enum LaunchError {
    /// The operating system could not create the process.
    SpawnFailed,
}

impl LaunchError {
    /// The text of the failure, as a sequence of characters.
    pub open spec fn message_of(self) -> Seq<char> {
        "Failed to launch backend process"@
    }

    /// The text shown to whoever asked.
    pub fn message(&self) -> (text: &'static str)
        ensures
            text@ == self.message_of(),
    {
        "Failed to launch backend process"
    }
}

/// Where a standard stream of the child goes.
#[derive(Clone, Copy, Debug, PartialEq, Eq, Structural)]
pub enum StreamTarget {
    /// The null sink: nothing is read, nothing written is kept.
    Null,
    /// The supervisor's own stream.
    Inherit,
}

/// One variable of the child's environment.
#[derive(Debug)]
pub struct EnvVar {
    pub name: String,
    pub value: String,
}

impl View for EnvVar {
    type V = (Seq<char>, Seq<char>);

    open spec fn view(&self) -> (Seq<char>, Seq<char>) {
        (self.name@, self.value@)
    }
}

/// Everything needed to start the backend.
#[derive(Debug)]
pub struct LaunchPlan {
    pub program: String,
    pub args: Vec<String>,
    pub workdir: String,
    pub env: Vec<EnvVar>,
    pub stdin: StreamTarget,
    pub stdout: StreamTarget,
    pub stderr: StreamTarget,
}

/// A launch plan as plain sequences.
pub struct LaunchPlanView {
    pub program: Seq<char>,
    pub args: Seq<Seq<char>>,
    pub workdir: Seq<char>,
    pub env: Seq<(Seq<char>, Seq<char>)>,
    pub stdin: StreamTarget,
    pub stdout: StreamTarget,
    pub stderr: StreamTarget,
}

impl View for LaunchPlan {
    type V = LaunchPlanView;

    open spec fn view(&self) -> LaunchPlanView {
        LaunchPlanView {
            program: self.program@,
            args: Seq::new(self.args@.len(), |i: int| self.args@[i]@),
            workdir: self.workdir@,
            env: Seq::new(self.env@.len(), |i: int| self.env@[i]@),
            stdin: self.stdin,
            stdout: self.stdout,
            stderr: self.stderr,
        }
    }
}

/// The directory in which the backend runs, relative to the supervisor's own.
pub open spec fn workdir_of() -> Seq<char> {
    "../backend"@
}

/// The address at which a backend on `port` is reached.
pub open spec fn base_url_of(port: u16) -> Seq<char> {
    "http://127.0.0.1:"@ + decimal_of(port as nat)
}

/// The environment that every launch sets: the credential, the loopback host
/// and the port.
pub open spec fn fixed_env(credential: Seq<char>, port: u16) -> Seq<(Seq<char>, Seq<char>)> {
    seq![
        ("APP_API_TOKEN"@, credential),
        ("APP_BIND_HOST"@, "127.0.0.1"@),
        ("APP_BIND_PORT"@, decimal_of(port as nat)),
    ]
}

/// The plan for a backend that expects `credential` and listens on `port`.
/// `program` is the interpreter the caller's environment asks for, if it names
/// one; `db_path` is the database path found there, if any, and is handed on
/// unchanged.
pub open spec fn planned(
    credential: Seq<char>,
    port: u16,
    program: Option<Seq<char>>,
    db_path: Option<Seq<char>>,
) -> LaunchPlanView {
    LaunchPlanView {
        program: match program {
            Some(name) => name,
            None => "python3"@,
        },
        args: seq!["-m"@, "app.main"@],
        workdir: workdir_of(),
        env: match db_path {
            Some(path) => fixed_env(credential, port).push(("IMESSAGE_DB_PATH"@, path)),
            None => fixed_env(credential, port),
        },
        stdin: StreamTarget::Null,
        stdout: StreamTarget::Null,
        stderr: StreamTarget::Null,
    }
}

/// The session of a backend that expects `credential` and listens on `port`.
pub open spec fn session_of(credential: Seq<char>, port: u16) -> SessionView {
    SessionView { base_url: base_url_of(port), token: credential }
}

/// The directory in which the backend runs, relative to the supervisor's own.
pub fn backend_workdir() -> (dir: String)
    ensures
        dir@ == workdir_of(),
{
    String::from_str("../backend")
}

/// The address at which a backend on `port` is reached.
pub fn base_url(port: u16) -> (url: String)
    ensures
        url@ == base_url_of(port),
{
    let mut url = String::from_str("http://127.0.0.1:");
    let digits = decimal(port);
    url.append(digits.as_str());
    url
}

/// The session descriptor handed to the user interface once the backend runs.
pub fn session_for(credential: String, port: u16) -> (session: SessionDescriptor)
    ensures
        session@ == session_of(credential@, port),
{
    SessionDescriptor { base_url: base_url(port), token: credential }
}

fn env_var(name: &str, value: String) -> (var: EnvVar)
    ensures
        var@ == (name@, value@),
{
    EnvVar { name: String::from_str(name), value }
}

/// Plans the launch of the backend. `program` and `db_path` are what the
/// caller found in its own environment under the names that
/// [`program_variable`] and [`db_path_variable`] give.
pub fn launch_plan(
    credential: &str,
    port: u16,
    program: Option<String>,
    db_path: Option<String>,
) -> (plan: LaunchPlan)
    ensures
        plan@ == planned(
            credential@,
            port,
            match program {
                Some(name) => Some(name@),
                None => None,
            },
            match db_path {
                Some(path) => Some(path@),
                None => None,
            },
        ),
{
    let program_name = match program {
        Some(name) => name,
        None => String::from_str("python3"),
    };
    let mut args: Vec<String> = Vec::new();
    args.push(String::from_str("-m"));
    args.push(String::from_str("app.main"));
    let mut env: Vec<EnvVar> = Vec::new();
    env.push(env_var("APP_API_TOKEN", String::from_str(credential)));
    env.push(env_var("APP_BIND_HOST", String::from_str("127.0.0.1")));
    env.push(env_var("APP_BIND_PORT", decimal(port)));
    match db_path {
        Some(path) => {
            env.push(env_var("IMESSAGE_DB_PATH", path));
        },
        None => {},
    }
    let plan = LaunchPlan {
        program: program_name,
        args,
        workdir: backend_workdir(),
        env,
        stdin: StreamTarget::Null,
        stdout: StreamTarget::Null,
        stderr: StreamTarget::Null,
    };
    assert(plan@.args =~= seq!["-m"@, "app.main"@]);
    assert(plan@.env =~= planned(
        credential@,
        port,
        None,
        match db_path {
            Some(path) => Some(path@),
            None => None,
        },
    ).env);
    plan
}

/// The name of the variable by which the caller's environment may name the
/// interpreter to run.
pub fn program_variable() -> (name: &'static str)
    ensures
        name@ == "IMEXPORT_BACKEND_PYTHON"@,
{
    "IMEXPORT_BACKEND_PYTHON"
}

/// The name of the variable whose value, if the caller's environment has one,
/// is handed on to the backend.
pub fn db_path_variable() -> (name: &'static str)
    ensures
        name@ == "IMESSAGE_DB_PATH"@,
{
    "IMESSAGE_DB_PATH"
}

/// What became of a launch: the handle of the running child, or `SpawnFailed`
/// when the operating system made none.
pub fn launch_outcome<P>(spawned: Option<P>) -> (outcome: Result<P, LaunchError>)
    ensures
        outcome == match spawned {
            Some(handle) => Ok::<P, LaunchError>(handle),
            None => Err::<P, LaunchError>(LaunchError::SpawnFailed),
        },
{
    match spawned {
        Some(handle) => Ok(handle),
        None => Err(LaunchError::SpawnFailed),
    }
}

} // verus!
