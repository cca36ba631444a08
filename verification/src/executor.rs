//! Step execution planning and step results.
//!
//! Executing a step spawns a process (locally) or opens a secure-shell
//! session (remotely); both are I/O and live outside this crate.  Everything
//! the I/O layer needs is decided here, with exact contracts: which host a
//! step targets, which program runs with which arguments, under which
//! environment, and how the outcome is recorded.

use crate::config::{Action, Config, Host, Repository, Step, find_host, spec_steps_name};
use crate::environment::{EnvVar, env_pairs, spec_layer_of, triggered_pairs};
use crate::trigger::TriggeredInfo;
use vstd::prelude::*;
use vstd::string::{StrSliceExecFns, StringExecFns};

verus! {

/// Why a step could not be executed at all.  A non-zero exit status of a
/// step that did run is not an error: it is a normal failed `StepResult`.
#[derive(Debug)]
pub enum DeliveryError {
    /// A missing host reference, step-set name or script file.
    Config(String),
    /// No usable key material, or the remote host rejected authentication.
    Auth(String),
    /// A connection, handshake or I/O failure on the way to the remote host.
    Transport(String),
    /// A local process could not be spawned.
    Process(String),
}

/// The text a delivery error carries.
pub open spec fn spec_message(e: &DeliveryError) -> Seq<char> {
    match e {
        DeliveryError::Config(m) => m@,
        DeliveryError::Auth(m) => m@,
        DeliveryError::Transport(m) => m@,
        DeliveryError::Process(m) => m@,
    }
}

impl DeliveryError {
    /// The human-readable text of the error, as the HTTP layer reports it.
    pub fn message(&self) -> (r: &str)
        ensures
            r@ == spec_message(self),
    {
        match self {
            DeliveryError::Config(m) => m.as_str(),
            DeliveryError::Auth(m) => m.as_str(),
            DeliveryError::Transport(m) => m.as_str(),
            DeliveryError::Process(m) => m.as_str(),
        }
    }
}

/// The status a finished child process contributes: its exit code, or a
/// nonzero marker when a signal terminated it and it left none — a killed
/// step is a failed step, never a success.
pub fn exit_status(code: Option<i32>) -> (s: i32)
    ensures
        s == match code {
            Some(c) => c,
            None => -1i32,
        },
{
    match code {
        Some(c) => c,
        None => -1,
    }
}

/// The outcome of one executed step.  Success is exactly a zero status.
pub struct StepResult {
    pub status: i32,
    pub description: Option<String>,
    pub stdout: Option<Vec<u8>>,
    pub stderr: Option<Vec<u8>>,
}

impl StepResult {
    pub fn new(
        status: i32,
        description: Option<String>,
        stdout: Option<Vec<u8>>,
        stderr: Option<Vec<u8>>,
    ) -> (r: StepResult)
        ensures
            r.status == status,
            r.description == description,
            r.stdout == stdout,
            r.stderr == stderr,
    {
        StepResult { status, description, stdout, stderr }
    }

    pub fn success(&self) -> (r: bool)
        ensures
            r == (self.status == 0),
    {
        self.status == 0
    }

    /// The failed result of a step that could not be executed at all: its
    /// error becomes an ordinary non-zero step result whose error stream
    /// holds the message, so the run short-circuits and the aggregated
    /// result still reaches the logs and the notifier.
    pub fn from_error(e: &DeliveryError, description: Option<String>) -> (r: StepResult)
        ensures
            r.status == -1i32,
            r.description == description,
            r.stdout is None,
            r.stderr matches Some(b) && b@ == vstd::utf8::encode_utf8(spec_message(e)),
    {
        let bytes = e.message().as_bytes_vec();
        StepResult { status: -1, description, stdout: None, stderr: Some(bytes) }
    }
}

/// The aggregated outcome of one pipeline run: the executed step results in
/// order, and the status of the last executed step (zero when no step ran).
pub struct StepsResult {
    pub status: i32,
    pub action_result: Vec<StepResult>,
}

impl StepsResult {
    pub fn success(&self) -> (r: bool)
        ensures
            r == (self.status == 0),
    {
        self.status == 0
    }
}

/// The elementwise views of a list of strings.
pub open spec fn views_of(s: Seq<String>) -> Seq<Seq<char>> {
    s.map_values(|x: String| x@)
}

/// The argument list a command contributes: its own list, or none.
pub open spec fn spec_opt_args(a: Option<Seq<String>>) -> Seq<String> {
    match a {
        Some(s) => s,
        None => Seq::empty(),
    }
}

/// Where a named script lives: `<work_dir>/scripts/<name>`.
pub open spec fn spec_script_path(work_dir: Seq<char>, name: Seq<char>) -> Seq<char> {
    work_dir + "/scripts/"@ + name
}

/// Resolves a script name under the scripts directory of the work
/// directory.  Whether the file exists is checked at execution time, by the
/// I/O layer, before any process or session is created.
pub fn script_fullname(work_dir: &str, name: &str) -> (r: String)
    ensures
        r@ == spec_script_path(work_dir@, name@),
{
    let r = work_dir.to_owned().concat("/scripts/").concat(name);
    proof {
        assert(r@ =~= spec_script_path(work_dir@, name@));
    }
    r
}

impl Repository {
    /// The steps the trigger's step-set name selects, or the configuration
    /// error the run fails with when the plan has no set of that name.
    pub fn resolve_steps(&self, steps_name: Option<&str>) -> (r: Result<&[Step], DeliveryError>)
        ensures
            match r {
                Ok(v) => self.spec_get_steps(spec_steps_name(steps_name)) matches Some(l) && v@
                    == l,
                Err(e) => {
                    &&& self.spec_get_steps(spec_steps_name(steps_name)) is None
                    &&& e matches DeliveryError::Config(m) && m@
                        == "missing steps or steps name is invalid"@
                },
            },
    {
        match self.get_steps(steps_name) {
            Some(s) => Ok(s),
            None => Err(
                DeliveryError::Config("missing steps or steps name is invalid".to_owned()),
            ),
        }
    }
}

/// Everything a local step execution needs: the program, its full argument
/// vector, the working directory, and the composed environment.
pub struct LocalLaunch {
    pub program: String,
    pub args: Vec<String>,
    pub current_dir: Option<String>,
    pub env: Vec<EnvVar>,
}

/// The composed environment of one step execution, lowest-precedence layer
/// first.
pub open spec fn spec_step_env(
    step: &Step,
    config: &Config,
    repository: &Repository,
    ti: &TriggeredInfo,
) -> Seq<(Seq<char>, Seq<char>)> {
    env_pairs(spec_layer_of(&config.environment)) + env_pairs(spec_layer_of(&repository.environment))
        + env_pairs(spec_layer_of(&step.environment)) + triggered_pairs(ti)
}

/// Whether a step's command is well-formed (a `WithArgs` command carries at
/// least the program name).
pub open spec fn action_wf(a: &Action) -> bool {
    match a {
        Action::Command { command } => command.wf(),
        Action::Script { name } => name.wf(),
    }
}

impl Step {
    /// The host table entry a step targets: `None` for a local step, the
    /// resolved host for a remote one, or a `Config` error when the step
    /// names a host the table does not hold.
    pub fn resolve_host<'a>(&self, config: &'a Config) -> (r: Result<
        Option<&'a Host>,
        DeliveryError,
    >)
        ensures
            match r {
                Ok(None) => self.host is None,
                Ok(Some(h)) => self.host matches Some(n) && find_host(config.host@, n@) == Some(*h),
                Err(e) => {
                    &&& self.host matches Some(n) && find_host(config.host@, n@) is None
                    &&& e matches DeliveryError::Config(m) && m@ == "invalid host: "@
                        + self.host.unwrap()@
                },
            },
    {
        match &self.host {
            None => Ok(None),
            Some(name) => match config.get_host(name.as_str()) {
                Some(h) => Ok(Some(h)),
                None => {
                    let m = "invalid host: ".to_owned().concat(name.as_str());
                    Err(DeliveryError::Config(m))
                },
            },
        }
    }

    /// Plans the local execution of this step: a `Command` action runs the
    /// named program with its own arguments; a `Script` action runs `sh`
    /// with the resolved script path followed by the script's arguments.
    /// The environment is the composition of the four layers.
    pub fn local_launch(&self, config: &Config, repository: &Repository, ti: &TriggeredInfo) -> (r:
        LocalLaunch)
        requires
            action_wf(&self.action),
        ensures
            env_pairs(r.env@) == spec_step_env(self, config, repository, ti),
            r.current_dir == self.current_dir,
            match self.action {
                Action::Command { command } => r.program@ == command.spec_name() && views_of(r.args@)
                    == views_of(spec_opt_args(command.spec_args())),
                Action::Script { name } => r.program@ == "sh"@ && views_of(r.args@) == seq![
                    spec_script_path(config.work_dir@, name.spec_name()),
                ] + views_of(spec_opt_args(name.spec_args())),
            },
    {
        let env = self.environment(config, repository, ti).compose();
        proof {
            assert(env_pairs(env@) =~= spec_step_env(self, config, repository, ti));
        }
        let current_dir = match &self.current_dir {
            Some(d) => Some(d.clone()),
            None => None,
        };
        match &self.action {
            Action::Command { command } => {
                let program = command.get_name().to_owned();
                let args = match command.get_args() {
                    Some(a) => a,
                    None => Vec::new(),
                };
                proof {
                    assert(views_of(args@) =~= views_of(spec_opt_args(command.spec_args())));
                }
                LocalLaunch { program, args, current_dir, env }
            },
            Action::Script { name } => {
                let script = script_fullname(config.work_dir.as_str(), name.get_name());
                let mut args: Vec<String> = Vec::new();
                args.push(script);
                match name.get_args() {
                    Some(a) => {
                        let mut i: usize = 0;
                        while i < a.len()
                            invariant
                                i <= a@.len(),
                                args@.len() == i + 1,
                                args@[0]@ == spec_script_path(config.work_dir@, name.spec_name()),
                                args@.skip(1) == a@.take(i as int),
                            decreases a@.len() - i,
                        {
                            args.push(a[i].clone());
                            i = i + 1;
                            proof {
                                assert(args@.skip(1) =~= a@.take(i as int));
                            }
                        }
                        proof {
                            assert(a@.take(a@.len() as int) =~= a@);
                        }
                    },
                    None => {},
                }
                proof {
                    assert(views_of(args@) =~= seq![
                        spec_script_path(config.work_dir@, name.spec_name()),
                    ] + views_of(spec_opt_args(name.spec_args())));
                }
                LocalLaunch { program: "sh".to_owned(), args, current_dir, env }
            },
        }
    }
}

} // verus!
