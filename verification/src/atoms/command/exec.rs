//! The command atom: one shell command, run with the privileges it asks for.

use crate::atoms::command::elevation::{
    current_username, elevate, elevated_arguments, elevated_command, elevation_tool, is_superuser,
};
use crate::atoms::command::process::{
    decode_output, os_error_text, ProcessOutput, SpawnRequest, SpawnRequestView,
};
use crate::atoms::Atom;
use crate::text::{join, joined};
use vstd::prelude::*;
use vstd::string::StringExecFns;
use vstd::utf8::*;

verus! {

/// What the last execution of a command left behind.
#[derive(Debug)]
pub struct ExecStatus {
    code: i32,
    stdout: String,
    stderr: String,
}

/// An execution status as mathematical values.
pub struct ExecStatusView {
    pub code: int,
    pub stdout: Seq<char>,
    pub stderr: Seq<char>,
}

impl View for ExecStatus {
    type V = ExecStatusView;

    closed spec fn view(&self) -> ExecStatusView {
        ExecStatusView { code: self.code as int, stdout: self.stdout@, stderr: self.stderr@ }
    }
}

/// The status of a command that has not been executed: exit code 0 and no
/// captured text.
pub open spec fn unexecuted_status() -> ExecStatusView {
    ExecStatusView { code: 0, stdout: Seq::empty(), stderr: Seq::empty() }
}

impl Default for ExecStatus {
    fn default() -> (status: Self)
        ensures
            status@ == unexecuted_status(),
    {
        ExecStatus { code: 0, stdout: String::new(), stderr: String::new() }
    }
}

/// One shell command and the result of running it.
#[derive(Debug)]
pub struct Exec {
    /// Name or path of the executable.
    pub command: String,
    /// Arguments, passed by position.
    pub arguments: Vec<String>,
    /// Directory in which the command runs; `None` stands for the current
    /// directory of the caller.
    pub working_dir: Option<String>,
    /// Variables added to the environment of the command.
    pub environment: Vec<(String, String)>,
    /// Whether the command asks for the superuser's privileges.
    pub privileged: bool,
    /// What the last execution left behind.
    pub status: ExecStatus,
}

/// A command atom as mathematical values.
pub struct ExecView {
    pub command: Seq<char>,
    pub arguments: Seq<Seq<char>>,
    pub working_dir: Option<Seq<char>>,
    pub environment: Seq<(Seq<char>, Seq<char>)>,
    pub privileged: bool,
    pub status: ExecStatusView,
}

impl View for Exec {
    type V = ExecView;

    open spec fn view(&self) -> ExecView {
        ExecView {
            command: self.command@,
            arguments: self.arguments.deep_view(),
            working_dir: self.working_dir.deep_view(),
            environment: self.environment.deep_view(),
            privileged: self.privileged,
            status: self.status@,
        }
    }
}

/// The atom that runs `command` with no arguments, no working directory, no
/// added variables and no elevation, and that has not been executed.
pub open spec fn plain_command(command: Seq<char>) -> ExecView {
    ExecView {
        command,
        arguments: Seq::empty(),
        working_dir: None,
        environment: Seq::empty(),
        privileged: false,
        status: unexecuted_status(),
    }
}

impl Default for Exec {
    fn default() -> (atom: Self)
        ensures
            atom@ == plain_command(Seq::empty()),
    {
        let atom = Exec {
            command: String::new(),
            arguments: Vec::new(),
            working_dir: None,
            environment: Vec::new(),
            privileged: false,
            status: ExecStatus::default(),
        };
        assert(atom.arguments.deep_view() =~= Seq::empty());
        assert(atom.environment.deep_view() =~= Seq::empty());
        atom
    }
}

/// The atom that runs `command` alone: every other field is at its default.
pub fn new_run_command(command: String) -> (atom: Exec)
    ensures
        atom@ == plain_command(command@),
{
    Exec { command, ..Default::default() }
}

/// Why an execution failed.
#[derive(Debug)]
pub enum ExecError {
    /// The command needs the elevation tool, and the tool's validation did
    /// not succeed. The command itself was never started.
    Elevation,
    /// The operating system could not create the process.
    Spawn(std::io::Error),
    /// The process ran, but what it wrote is not well-formed UTF-8.
    Decoding,
}

impl ExecError {
    /// The error in words, for the user. Where the process could not be
    /// created the words are the operating system's own.
    pub fn message(&self) -> (text: String)
        ensures
            self is Elevation ==> text@
                == "Command requires sudo, but couldn't elevate privileges."@,
            self is Decoding ==> text@ == "Command output is not valid UTF-8."@,
    {
        match self {
            ExecError::Elevation => {
                "Command requires sudo, but couldn't elevate privileges.".to_owned()
            },
            ExecError::Spawn(error) => os_error_text(error),
            ExecError::Decoding => "Command output is not valid UTF-8.".to_owned(),
        }
    }
}

/// What whoever drives an execution has to do now.
#[derive(Debug)]
pub enum ExecStep {
    /// Run the elevation tool's validation, with the terminal attached so
    /// that the user can answer a password prompt; the request is what will
    /// be run once validation has succeeded.
    ValidateElevation(SpawnRequest),
    /// Create the process and wait until it ends.
    Spawn(SpawnRequest),
    /// Nothing more: the execution has ended with this result.
    Done(Result<(), ExecError>),
}

/// What happened when the pending step was carried out.
#[derive(Debug)]
pub enum ExecEvent {
    /// The elevation tool's validation ended; `true` if it reported success.
    ElevationValidated(bool),
    /// The process could not be created.
    SpawnFailed(std::io::Error),
    /// The process ran to its end.
    Exited(ProcessOutput),
}

impl ExecStep {
    /// Whether this is the step with which running `request` starts:
    /// validation where the request is for the elevation tool, the spawn
    /// itself where it is for anything else.
    pub open spec fn opens(self, request: SpawnRequestView) -> bool {
        match self {
            ExecStep::ValidateElevation(pending) => pending@ == request && request.command
                == elevation_tool(),
            ExecStep::Spawn(pending) => pending@ == request && request.command != elevation_tool(),
            ExecStep::Done(_) => false,
        }
    }
}

/// The status that a finished process leaves behind when its output is text.
pub open spec fn recorded_status(output: ProcessOutput) -> ExecStatusView {
    ExecStatusView {
        code: output.code as int,
        stdout: decode_utf8(output.stdout@),
        stderr: decode_utf8(output.stderr@),
    }
}

/// The step that follows `step` once `event` has happened.
///
/// Validation that succeeded is followed by the spawn of the pending
/// request; validation that did not ends the execution with
/// `ExecError::Elevation`, and no spawn is asked for. A spawn ends the
/// execution either way: with the operating system's error, with
/// `ExecError::Decoding` where the output is not text, or with success. An
/// event that does not answer the pending step changes nothing.
pub open spec fn next_step(step: ExecStep, event: ExecEvent) -> ExecStep {
    match (step, event) {
        (ExecStep::ValidateElevation(request), ExecEvent::ElevationValidated(granted)) => {
            if granted {
                ExecStep::Spawn(request)
            } else {
                ExecStep::Done(Err(ExecError::Elevation))
            }
        },
        (ExecStep::Spawn(_), ExecEvent::SpawnFailed(error)) => ExecStep::Done(
            Err(ExecError::Spawn(error)),
        ),
        (ExecStep::Spawn(_), ExecEvent::Exited(output)) => {
            if output.is_text() {
                ExecStep::Done(Ok(()))
            } else {
                ExecStep::Done(Err(ExecError::Decoding))
            }
        },
        _ => step,
    }
}

/// The status of the atom once `event` has happened at `step`: what the
/// process left behind where a spawn ended with output that is text, and
/// `status` as it was in every other case.
pub open spec fn next_status(status: ExecStatusView, step: ExecStep, event: ExecEvent) -> ExecStatusView {
    match (step, event) {
        (ExecStep::Spawn(_), ExecEvent::Exited(output)) => {
            if output.is_text() {
                recorded_status(output)
            } else {
                status
            }
        },
        _ => status,
    }
}

/// What is run for `atom` when the invoking user is, or is not, the superuser.
pub open spec fn spawn_request(atom: ExecView, superuser: bool) -> SpawnRequestView {
    SpawnRequestView {
        command: elevated_command(atom.command, atom.privileged, superuser),
        arguments: elevated_arguments(atom.command, atom.arguments, atom.privileged, superuser),
        environment: atom.environment,
        working_dir: atom.working_dir,
    }
}

/// A copy of the variables, pair by pair.
fn clone_environment(environment: &Vec<(String, String)>) -> (copy: Vec<(String, String)>)
    ensures
        copy@ == environment@,
{
    let mut copy: Vec<(String, String)> = Vec::new();
    let mut i: usize = 0;
    while i < environment.len()
        invariant
            i <= environment.len(),
            copy@ == environment@.take(i as int),
        decreases environment.len() - i,
    {
        let pair = &environment[i];
        copy.push((pair.0.clone(), pair.1.clone()));
        assert(copy@ =~= environment@.take(i + 1));
        i += 1;
    }
    assert(environment@.take(i as int) =~= environment@);
    copy
}

impl Exec {
    /// The command and arguments that are run for this atom. An atom that
    /// does not ask for privileges is run as it is, without asking who the
    /// invoking user is; one that does is wrapped in the elevation tool
    /// unless the invoking user is the superuser.
    pub fn elevate_if_required(&self) -> (effective: (String, Vec<String>))
        ensures
            ({
                ||| (effective.0@ == spawn_request(self@, false).command
                    && effective.1.deep_view() == spawn_request(self@, false).arguments)
                ||| (effective.0@ == spawn_request(self@, true).command
                    && effective.1.deep_view() == spawn_request(self@, true).arguments)
            }),
            !self.privileged ==> effective.0@ == self.command@ && effective.1.deep_view()
                == self.arguments.deep_view(),
    {
        if !self.privileged {
            return elevate(&self.command, &self.arguments, false, false);
        }
        let username = current_username();
        elevate(&self.command, &self.arguments, true, is_superuser(&username))
    }

    /// The first step of running `command` with `arguments` for this atom,
    /// in the atom's working directory and with its variables.
    pub fn first_step(&self, command: String, arguments: Vec<String>) -> (step: ExecStep)
        ensures
            step.opens(
                SpawnRequestView {
                    command: command@,
                    arguments: arguments.deep_view(),
                    environment: self@.environment,
                    working_dir: self@.working_dir,
                },
            ),
    {
        let tool = "sudo".to_owned();
        let validate = command == tool;
        let request = SpawnRequest {
            command,
            arguments,
            environment: clone_environment(&self.environment),
            working_dir: self.working_dir.clone(),
        };
        if validate {
            ExecStep::ValidateElevation(request)
        } else {
            ExecStep::Spawn(request)
        }
    }

    /// Starts an execution: decides what is run and names the first step.
    /// The step is the one that opens the atom's request for a superuser or
    /// the one for any other user, according to who runs this process.
    pub fn begin(&self) -> (step: ExecStep)
        ensures
            step.opens(spawn_request(self@, false)) || step.opens(spawn_request(self@, true)),
            !self.privileged ==> step.opens(spawn_request(self@, false)),
    {
        let (command, arguments) = self.elevate_if_required();
        self.first_step(command, arguments)
    }

    /// Stores what a finished process left behind. Output that is not
    /// well-formed UTF-8 is refused, and the status stays as it was.
    pub fn record(&mut self, output: ProcessOutput) -> (result: Result<(), ExecError>)
        ensures
            output.is_text() ==> result == Ok::<(), ExecError>(()) && final(self)@ == (ExecView {
                status: recorded_status(output),
                ..old(self)@
            }),
            !output.is_text() ==> result == Err::<(), ExecError>(ExecError::Decoding)
                && *final(self) == *old(self),
    {
        let ProcessOutput { code, stdout, stderr } = output;
        match decode_output(stdout) {
            None => Err(ExecError::Decoding),
            Some(out) => match decode_output(stderr) {
                None => Err(ExecError::Decoding),
                Some(err) => {
                    self.status = ExecStatus { code, stdout: out, stderr: err };
                    Ok(())
                },
            },
        }
    }

    /// Takes in what happened at `step` and names the step that follows.
    /// Only a spawn that ended with text as its output changes the atom, and
    /// only its status.
    pub fn advance(&mut self, step: ExecStep, event: ExecEvent) -> (next: ExecStep)
        ensures
            next == next_step(step, event),
            final(self)@ == (ExecView {
                status: next_status(old(self).status@, step, event),
                ..old(self)@
            }),
    {
        match step {
            ExecStep::ValidateElevation(request) => match event {
                ExecEvent::ElevationValidated(granted) => {
                    if granted {
                        ExecStep::Spawn(request)
                    } else {
                        ExecStep::Done(Err(ExecError::Elevation))
                    }
                },
                _ => ExecStep::ValidateElevation(request),
            },
            ExecStep::Spawn(request) => match event {
                ExecEvent::SpawnFailed(error) => ExecStep::Done(Err(ExecError::Spawn(error))),
                ExecEvent::Exited(output) => ExecStep::Done(self.record(output)),
                _ => ExecStep::Spawn(request),
            },
            ExecStep::Done(result) => ExecStep::Done(result),
        }
    }

    /// The exit code of the last execution; 0 before the first.
    pub fn exit_code(&self) -> (code: i32)
        ensures
            code == self.status@.code,
    {
        self.status.code
    }
}

/// Once an execution has ended, no event changes its result or the atom's
/// status.
pub proof fn lemma_done_is_final(
    result: Result<(), ExecError>,
    event: ExecEvent,
    status: ExecStatusView,
)
    ensures
        next_step(ExecStep::Done(result), event) == ExecStep::Done(result),
        next_status(status, ExecStep::Done(result), event) == status,
{
}

/// Validation that did not succeed ends the execution with
/// `ExecError::Elevation`: the pending request is dropped, no spawn is asked
/// for, and the status stays as it was.
pub proof fn lemma_denied_elevation_ends_execution(request: SpawnRequest, status: ExecStatusView)
    ensures
        next_step(ExecStep::ValidateElevation(request), ExecEvent::ElevationValidated(false))
            == ExecStep::Done(Err(ExecError::Elevation)),
        next_status(
            status,
            ExecStep::ValidateElevation(request),
            ExecEvent::ElevationValidated(false),
        ) == status,
{
}

/// A spawn is asked for only where it was pending already, or where the
/// validation that stood before it has succeeded; the request is the one
/// that was pending.
pub proof fn lemma_spawn_follows_validation(step: ExecStep, event: ExecEvent)
    requires
        next_step(step, event) is Spawn,
    ensures
        step == next_step(step, event) || (step is ValidateElevation && event
            == ExecEvent::ElevationValidated(true) && next_step(step, event) == ExecStep::Spawn(
            step->ValidateElevation_0,
        )),
{
}

/// An execution that fails leaves the status as it was, whatever the
/// failure: elevation that was denied, a process that could not be created,
/// or output that is not text.
pub proof fn lemma_failure_keeps_status(status: ExecStatusView, step: ExecStep, event: ExecEvent)
    requires
        next_step(step, event) matches ExecStep::Done(Err(_)),
    ensures
        next_status(status, step, event) == status,
{
}

/// The status is written when a spawn ends in success and at no other time.
pub proof fn lemma_status_written_on_success_only(
    status: ExecStatusView,
    step: ExecStep,
    event: ExecEvent,
)
    requires
        next_status(status, step, event) != status,
    ensures
        step is Spawn,
        next_step(step, event) == ExecStep::Done(Ok(())),
        event matches ExecEvent::Exited(output) && next_status(status, step, event)
            == recorded_status(output),
{
}

/// Whether an atom is wrapped in the elevation tool depends on its command,
/// its arguments, its `privileged` flag and the invoking user alone: atoms
/// that differ in nothing but their status are run alike.
pub proof fn lemma_elevation_ignores_status(a: ExecView, b: ExecView, superuser: bool)
    requires
        a == (ExecView { status: a.status, ..b }),
    ensures
        spawn_request(a, superuser) == spawn_request(b, superuser),
{
}

/// The one-line description of a command atom.
pub open spec fn description(atom: ExecView) -> Seq<char> {
    "RunCommand with privileged "@ + (if atom.privileged {
        "true"@
    } else {
        "false"@
    }) + ": "@ + atom.command + " "@ + joined(atom.arguments, " "@)
}

impl Atom for Exec {
    /// A command is always to be executed: nothing is checked beforehand.
    fn plan(&self) -> (go: bool)
        ensures
            go,
    {
        true
    }

    fn output_string(&self) -> (text: String)
        ensures
            text@ == self.status@.stdout,
    {
        self.status.stdout.clone()
    }

    fn error_message(&self) -> (text: String)
        ensures
            text@ == self.status@.stderr,
    {
        self.status.stderr.clone()
    }

    fn describe(&self) -> (text: String)
        ensures
            text@ == description(self@),
    {
        let mut text = "RunCommand with privileged ".to_owned();
        if self.privileged {
            text.append("true");
        } else {
            text.append("false");
        }
        text.append(": ");
        text.append(self.command.as_str());
        text.append(" ");
        let arguments = join(&self.arguments, " ");
        text.append(arguments.as_str());
        text
    }
}

} // verus!
