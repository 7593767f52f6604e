//! Running one PowerShell invocation: the child is started with a fixed environment, fed, watched
//! and ended. Its reply counts only where it ended by itself, in time, with success and within the
//! limits of its output.

use vstd::prelude::*;

use crate::backend;
use crate::backend::{SandboxError, SandboxResult};
use crate::host_path;
use crate::host_path::HostPath;
use crate::hyperv::powershell;
use crate::hyperv::powershell::{
    interrupted_error, judge_completion, malformed_reply, parse_envelope, watch_step,
    BoundedOutput, ChildStatus, Completion, PowerShellInvocation, ResponseEnvelope, WatchAction,
};
use crate::text;

verus! {

/// What is to be done next.
#[derive(Clone, Copy, Debug, PartialEq, Eq, Structural)]
pub enum ShellStep {
    /// Ask the host for its system directory.
    FindSystemDirectory,
    /// Look whether the executable is there.
    InspectExecutable,
    /// Write the input as JSON text.
    Serialize,
    /// Start the child.
    Spawn,
    /// Take hold of the standard input of the child.
    TakeStdin,
    /// Write the input to the child and close its standard input.
    WriteInput,
    /// Take hold of the standard output of the child.
    TakeStdout,
    /// Take hold of the standard error of the child and begin to read both streams.
    TakeStderr,
    /// Look at the child and at the clock; where the child still runs, after the poll interval.
    Look,
    /// Kill the child and reap it.
    Reap,
    /// Kill the child and reap it, whatever comes of that.
    Terminate,
    /// Wait for both readers and drop what they read.
    Discard,
    /// Wait for the reader of the standard output.
    JoinStdout,
    /// Wait for the reader of the standard error.
    JoinStderr,
    /// Read the standard output as a reply.
    Decode,
    Done,
}

/// How a child ended.
#[derive(Clone, Copy, Debug, PartialEq, Eq)]
pub struct ExitFacts {
    pub success: bool,
    pub code: Option<i32>,
}

/// What a look at the child found.
#[derive(Clone, Debug, PartialEq, Eq)]
pub enum ChildFound {
    Exited(ExitFacts),
    Running,
    Unknown(String),
}

/// One look at the child, at the clock and at the wish of the user.
#[derive(Clone, Debug, PartialEq, Eq)]
pub struct ChildLook {
    pub interrupted: bool,
    pub child: ChildFound,
    pub before_deadline: bool,
}

/// What became of the reader of a stream.
#[derive(Clone, Debug, PartialEq, Eq)]
pub enum ReaderEnd {
    Panicked,
    Failed(String),
    Read(BoundedOutput),
}

/// What came of a step.
#[derive(Debug)]
pub enum ShellEvent<T> {
    SystemDirectory(Option<HostPath>),
    Executable(bool),
    Settled(Result<(), String>),
    Pipe(bool),
    Seen(ChildLook),
    Reaped(Result<ExitFacts, String>),
    Terminated,
    Discarded,
    Joined(ReaderEnd),
    Decoded(Result<ResponseEnvelope<T>, String>),
}

/// What is known of the child.
#[derive(Clone, Copy, Debug, PartialEq, Eq, Structural)]
pub enum ChildState {
    NotStarted,
    Running,
    /// It ended by itself.
    Exited,
    /// It was killed.
    Killed,
}

/// The run of one invocation.
pub struct ShellRun<T> {
    pub step: ShellStep,
    pub operation: &'static str,
    pub timeout_ms: u64,
    pub system_directory: Option<HostPath>,
    pub executable: Option<HostPath>,
    pub child: ChildState,
    /// The error that is reported once the child is ended.
    pub failure: Option<SandboxError>,
    /// The readers of the streams have to be waited for before the error is reported.
    pub drains: bool,
    pub exit: ExitFacts,
    pub stdout: Option<BoundedOutput>,
    /// How the invocation ended.
    pub completion: Option<Completion>,
    /// The reply as it was read.
    pub reply: Ghost<Option<ResponseEnvelope<T>>>,
    pub outcome: Option<SandboxResult<T>>,
}

// ---------------------------------------------------------------------------------------------
// The child's surroundings
// ---------------------------------------------------------------------------------------------

/// The arguments that a script is started with.
pub fn shell_arguments(script: &'static str) -> (arguments: Vec<&'static str>)
    ensures
        arguments@.map_values(|argument: &'static str| argument@) == seq![
            "-NoLogo"@,
            "-NoProfile"@,
            "-NonInteractive"@,
            "-Command"@,
            script@,
        ],
{
    let arguments = vec!["-NoLogo", "-NoProfile", "-NonInteractive", "-Command", script];
    proof {
        assert(arguments@.map_values(|argument: &'static str| argument@) =~= seq![
            "-NoLogo"@,
            "-NoProfile"@,
            "-NonInteractive"@,
            "-Command"@,
            script@,
        ]);
    }
    arguments
}

/// A variable of the child's environment.
#[derive(Clone, Debug, PartialEq, Eq)]
pub enum ShellVariable {
    /// A place below the system root, by the names that lead to it.
    Below(&'static str, Vec<&'static str>),
    /// The value that the variable has for this program, or none.
    Inherited(&'static str),
}

pub enum VariableView {
    Below(Seq<char>, Seq<Seq<char>>),
    Inherited(Seq<char>),
}

impl View for ShellVariable {
    type V = VariableView;

    open spec fn view(&self) -> VariableView {
        match self {
            ShellVariable::Below(name, place) => VariableView::Below(
                name@,
                place@.map_values(|part: &'static str| part@),
            ),
            ShellVariable::Inherited(name) => VariableView::Inherited(name@),
        }
    }
}

pub open spec fn environment_views(variables: Seq<ShellVariable>) -> Seq<VariableView> {
    variables.map_values(|variable: ShellVariable| variable@)
}

/// The whole environment of a child: nothing that could lead it to other programs or modules.
pub open spec fn environment() -> Seq<VariableView> {
    seq![
        VariableView::Below("SystemRoot"@, seq![]),
        VariableView::Below("WINDIR"@, seq![]),
        VariableView::Below("PATH"@, seq!["System32"@]),
        VariableView::Below(
            "PSModulePath"@,
            seq!["System32"@, "WindowsPowerShell"@, "v1.0"@, "Modules"@],
        ),
        VariableView::Below("ComSpec"@, seq!["System32"@, "cmd.exe"@]),
        VariableView::Inherited("COMPUTERNAME"@),
        VariableView::Inherited("ProgramData"@),
        VariableView::Inherited("ProgramFiles"@),
        VariableView::Inherited("ProgramFiles(x86)"@),
    ]
}

fn below(name: &'static str, place: Vec<&'static str>) -> (variable: ShellVariable)
    ensures
        variable@ == VariableView::Below(
            name@,
            place@.map_values(|part: &'static str| part@),
        ),
{
    ShellVariable::Below(name, place)
}

/// The environment of a child.
pub fn shell_environment() -> (variables: Vec<ShellVariable>)
    ensures
        environment_views(variables@) == environment(),
{
    let nowhere: Vec<&'static str> = Vec::new();
    let also_nowhere: Vec<&'static str> = Vec::new();
    let system = vec!["System32"];
    let modules = vec!["System32", "WindowsPowerShell", "v1.0", "Modules"];
    let interpreter = vec!["System32", "cmd.exe"];
    proof {
        assert(nowhere@.map_values(|part: &'static str| part@) =~= Seq::<Seq<char>>::empty());
        assert(also_nowhere@.map_values(|part: &'static str| part@) =~= Seq::<Seq<char>>::empty());
        assert(system@.map_values(|part: &'static str| part@) =~= seq!["System32"@]);
        assert(modules@.map_values(|part: &'static str| part@) =~= seq![
            "System32"@,
            "WindowsPowerShell"@,
            "v1.0"@,
            "Modules"@,
        ]);
        assert(interpreter@.map_values(|part: &'static str| part@) =~= seq![
            "System32"@,
            "cmd.exe"@,
        ]);
    }
    let variables = vec![
        below("SystemRoot", nowhere),
        below("WINDIR", also_nowhere),
        below("PATH", system),
        below("PSModulePath", modules),
        below("ComSpec", interpreter),
        ShellVariable::Inherited("COMPUTERNAME"),
        ShellVariable::Inherited("ProgramData"),
        ShellVariable::Inherited("ProgramFiles"),
        ShellVariable::Inherited("ProgramFiles(x86)"),
    ];
    proof {
        assert(environment_views(variables@) =~= environment());
    }
    variables
}

/// The text of the path of PowerShell below the system directory.
pub open spec fn executable_text(directory: HostPath) -> Seq<char> {
    let style = directory.style;
    host_path::joined_text(
        style,
        host_path::joined_text(
            style,
            host_path::joined_text(style, directory.shown@, "WindowsPowerShell"@),
            "v1.0"@,
        ),
        "powershell.exe"@,
    )
}

/// The path is that of PowerShell below the system directory.
pub open spec fn is_executable_of(executable: HostPath, directory: HostPath) -> bool {
    &&& executable.style == directory.style
    &&& executable.shown@ == executable_text(directory)
    &&& executable.unicode == directory.unicode
    &&& executable.spec_parts() == directory.spec_parts().push(
        host_path::PartView::Normal("WindowsPowerShell"@),
    ).push(host_path::PartView::Normal("v1.0"@)).push(
        host_path::PartView::Normal("powershell.exe"@),
    )
}

fn executable_of(directory: &HostPath) -> (executable: HostPath)
    ensures
        is_executable_of(executable, *directory),
{
    directory.join("WindowsPowerShell").join("v1.0").join("powershell.exe")
}

// ---------------------------------------------------------------------------------------------
// What follows
// ---------------------------------------------------------------------------------------------

pub open spec fn shell_fault(operation: Seq<char>, message: Seq<char>) -> backend::Fault {
    backend::fault("hyperv_powershell"@, operation + message)
}

pub open spec fn sourced_fault(message: Seq<char>, source: Seq<char>) -> backend::Fault {
    backend::fault_from("hyperv_powershell"@, message, source)
}

fn shell_error(operation: &str, message: &str) -> (error: SandboxError)
    ensures
        error@ == shell_fault(operation@, message@),
{
    let shown = text::cat2(operation, message);
    SandboxError::new("hyperv_powershell", shown.as_str())
}

fn sourced_error(message: &str, source: &str) -> (error: SandboxError)
    ensures
        error@ == sourced_fault(message@, source@),
{
    SandboxError::with_source("hyperv_powershell", message, source)
}

/// The steps at which the child has been started and may still run.
pub open spec fn has_running_child(step: ShellStep) -> bool {
    match step {
        ShellStep::TakeStdin => true,
        ShellStep::WriteInput => true,
        ShellStep::TakeStdout => true,
        ShellStep::TakeStderr => true,
        ShellStep::Look => true,
        ShellStep::Reap => true,
        ShellStep::Terminate => true,
        _ => false,
    }
}

/// The steps at which the child has ended.
pub open spec fn has_ended_child(step: ShellStep) -> bool {
    match step {
        ShellStep::Discard => true,
        ShellStep::JoinStdout => true,
        ShellStep::JoinStderr => true,
        ShellStep::Decode => true,
        _ => false,
    }
}

impl<T> ShellRun<T> {
    /// The completion is one whose reply counts.
    pub open spec fn replied(&self) -> bool {
        &&& self.child == ChildState::Exited
        &&& self.completion matches Some(completion) && {
            &&& !completion.timed_out
            &&& completion.success
            &&& !completion.stdout.overflowed
            &&& !completion.stderr.overflowed
        }
    }

    pub open spec fn consistent(&self) -> bool {
        if self.step == ShellStep::Done {
            &&& self.child != ChildState::Running
            &&& self.outcome matches Some(outcome) && (outcome matches Ok(data) ==> {
                &&& self.replied()
                &&& self.reply@ matches Some(reply)
                &&& reply.opened(self.operation@) == Ok::<T, backend::Fault>(data)
            })
        } else {
            &&& self.outcome is None
            &&& has_running_child(self.step) ==> self.child == ChildState::Running
            &&& has_ended_child(self.step) ==> self.child == ChildState::Exited || self.child
                == ChildState::Killed
            &&& !has_running_child(self.step) && !has_ended_child(self.step) ==> self.child
                == ChildState::NotStarted
            &&& self.step == ShellStep::InspectExecutable ==> self.system_directory is Some
            &&& self.step == ShellStep::Terminate || self.step == ShellStep::Discard
                ==> self.failure is Some
            &&& self.step == ShellStep::JoinStderr ==> self.stdout is Some
            &&& self.step == ShellStep::Decode ==> self.replied()
        }
    }
}

/// The run ended with an error.
pub open spec fn ended<T>(fault: backend::Fault, child: ChildState, after: ShellRun<T>) -> bool {
    &&& after.step == ShellStep::Done
    &&& after.child == child
    &&& after.outcome matches Some(Err(error)) && error@ == fault
}

pub open spec fn moved<T>(before: ShellRun<T>, step: ShellStep, after: ShellRun<T>) -> bool {
    after == (ShellRun { step, ..before })
}

/// The child is to be ended before the error is reported.
pub open spec fn terminating<T>(
    before: ShellRun<T>,
    fault: backend::Fault,
    drains: bool,
    after: ShellRun<T>,
) -> bool {
    &&& after.failure matches Some(error) && error@ == fault
    &&& after == (ShellRun {
        step: ShellStep::Terminate,
        failure: after.failure,
        drains,
        ..before
    })
}

/// A pipe of the child was taken, or it has none.
pub open spec fn pipe_taken<T>(
    before: ShellRun<T>,
    taken: bool,
    message: Seq<char>,
    step: ShellStep,
    after: ShellRun<T>,
) -> bool {
    if taken {
        moved(before, step, after)
    } else {
        terminating(before, shell_fault(before.operation@, message), false, after)
    }
}

pub open spec fn directory_found<T>(
    before: ShellRun<T>,
    found: Option<HostPath>,
    after: ShellRun<T>,
) -> bool {
    match found {
        None => ended(
            backend::fault(
                "hyperv_powershell"@,
                "cannot resolve the trusted Windows system directory"@,
            ),
            ChildState::NotStarted,
            after,
        ),
        Some(directory) => {
            &&& after.executable matches Some(executable) && is_executable_of(executable, directory)
            &&& after == (ShellRun {
                step: ShellStep::InspectExecutable,
                system_directory: Some(directory),
                executable: after.executable,
                ..before
            })
        },
    }
}

pub open spec fn executable_inspected<T>(
    before: ShellRun<T>,
    present: bool,
    after: ShellRun<T>,
) -> bool {
    if !present {
        ended(
            backend::fault(
                "hyperv_powershell"@,
                "trusted Windows PowerShell executable is missing"@,
            ),
            ChildState::NotStarted,
            after,
        )
    } else if !(before.system_directory matches Some(directory) && host_path::parent_of(
        directory.spec_parts(),
    ) is Some) {
        ended(
            backend::fault(
                "hyperv_powershell"@,
                "cannot derive SystemRoot from the trusted PowerShell path"@,
            ),
            ChildState::NotStarted,
            after,
        )
    } else {
        moved(before, ShellStep::Serialize, after)
    }
}

pub open spec fn status_of(child: ChildFound) -> ChildStatus {
    match child {
        ChildFound::Exited(_) => ChildStatus::Exited,
        ChildFound::Running => ChildStatus::Running,
        ChildFound::Unknown(_) => ChildStatus::Unknown,
    }
}

/// What a look at the child leads to.
pub open spec fn child_seen<T>(before: ShellRun<T>, look: ChildLook, after: ShellRun<T>) -> bool {
    match powershell::watch_action(look.interrupted, status_of(look.child), look.before_deadline) {
        WatchAction::Interrupt => terminating(
            before,
            shell_fault(before.operation@, " interrupted; cleanup will now run"@),
            true,
            after,
        ),
        WatchAction::Collect => look.child matches ChildFound::Exited(exit) && after == (ShellRun {
            step: ShellStep::JoinStdout,
            child: ChildState::Exited,
            exit,
            ..before
        }),
        WatchAction::Pause => after == before,
        WatchAction::TimeOut => moved(before, ShellStep::Reap, after),
        WatchAction::GiveUp => look.child matches ChildFound::Unknown(source) && terminating(
            before,
            sourced_fault("wait for "@ + before.operation@, source@),
            false,
            after,
        ),
    }
}

pub open spec fn child_reaped<T>(
    before: ShellRun<T>,
    reaped: Result<ExitFacts, String>,
    after: ShellRun<T>,
) -> bool {
    match reaped {
        Err(source) => ended(
            sourced_fault("reap timed-out "@ + before.operation@, source@),
            ChildState::Killed,
            after,
        ),
        Ok(exit) => after == (ShellRun {
            step: ShellStep::JoinStdout,
            child: ChildState::Killed,
            exit,
            ..before
        }),
    }
}

/// The error that was kept back is reported.
pub open spec fn reported<T>(before: ShellRun<T>, after: ShellRun<T>) -> bool {
    &&& after.step == ShellStep::Done
    &&& after.child == ChildState::Killed
    &&& before.failure matches Some(failure) && after.outcome == Some(Err::<T, SandboxError>(failure))
}

pub open spec fn child_terminated<T>(before: ShellRun<T>, after: ShellRun<T>) -> bool {
    if before.drains {
        after == (ShellRun { step: ShellStep::Discard, child: ChildState::Killed, ..before })
    } else {
        reported(before, after)
    }
}

/// What is wrong with the reader of a stream, where it did not read it.
pub open spec fn reader_verdict(operation: Seq<char>, stream: Seq<char>, end: ReaderEnd) -> Result<
    BoundedOutput,
    backend::Fault,
> {
    match end {
        ReaderEnd::Panicked => Err(
            backend::fault("hyperv_powershell"@, operation + " "@ + stream + " reader panicked"@),
        ),
        ReaderEnd::Failed(source) => Err(
            sourced_fault("read "@ + operation + " "@ + stream, source@),
        ),
        ReaderEnd::Read(output) => Ok(output),
    }
}

pub open spec fn stdout_joined<T>(before: ShellRun<T>, end: ReaderEnd, after: ShellRun<T>) -> bool {
    match reader_verdict(before.operation@, "stdout"@, end) {
        Err(fault) => ended(fault, before.child, after),
        Ok(output) => after == (ShellRun {
            step: ShellStep::JoinStderr,
            stdout: Some(output),
            ..before
        }),
    }
}

/// How the invocation ended, with both streams at hand.
pub open spec fn completion_of<T>(
    run: ShellRun<T>,
    stdout: BoundedOutput,
    stderr: BoundedOutput,
) -> Completion {
    Completion {
        timed_out: run.child == ChildState::Killed,
        success: run.exit.success,
        exit_code: run.exit.code,
        stdout,
        stderr,
    }
}

pub open spec fn stderr_joined<T>(before: ShellRun<T>, end: ReaderEnd, after: ShellRun<T>) -> bool {
    match (reader_verdict(before.operation@, "stderr"@, end), before.stdout) {
        (Err(fault), _) => ended(fault, before.child, after),
        (Ok(stderr), Some(stdout)) => {
            let completion = completion_of(before, stdout, stderr);
            match powershell::completion_verdict(
                before.operation@,
                before.timeout_ms as nat,
                &completion,
                powershell::safe_field(text::utf8_lossy(stderr.stored@)),
            ) {
                Err(fault) => {
                    &&& ended(fault, before.child, after)
                    &&& after.completion == Some(completion)
                },
                Ok(_) => after == (ShellRun {
                    step: ShellStep::Decode,
                    stdout: None,
                    completion: Some(completion),
                    ..before
                }),
            }
        },
        (Ok(_), None) => false,
    }
}

pub open spec fn reply_decoded<T>(
    before: ShellRun<T>,
    decoded: Result<ResponseEnvelope<T>, String>,
    after: ShellRun<T>,
) -> bool {
    &&& after.step == ShellStep::Done
    &&& after.child == before.child
    &&& after.outcome matches Some(outcome) && backend::outcome(outcome) == match decoded {
        Err(source) => Err::<T, backend::Fault>(
            sourced_fault(before.operation@ + " returned malformed JSON"@, source@),
        ),
        Ok(reply) => reply.opened(before.operation@),
    }
}

/// What one event makes of the run. An event that is no answer to the step changes nothing.
pub open spec fn executed<T>(before: ShellRun<T>, event: ShellEvent<T>, after: ShellRun<T>) -> bool {
    match (before.step, event) {
        (ShellStep::FindSystemDirectory, ShellEvent::SystemDirectory(found)) => directory_found(
            before,
            found,
            after,
        ),
        (ShellStep::InspectExecutable, ShellEvent::Executable(present)) => executable_inspected(
            before,
            present,
            after,
        ),
        (ShellStep::Serialize, ShellEvent::Settled(serialized)) => match serialized {
            Err(source) => ended(
                sourced_fault("serialize "@ + before.operation@ + " input"@, source@),
                ChildState::NotStarted,
                after,
            ),
            Ok(_) => moved(before, ShellStep::Spawn, after),
        },
        (ShellStep::Spawn, ShellEvent::Settled(spawned)) => match spawned {
            Err(source) => ended(
                sourced_fault("start trusted PowerShell for "@ + before.operation@, source@),
                ChildState::NotStarted,
                after,
            ),
            Ok(_) => after == (ShellRun {
                step: ShellStep::TakeStdin,
                child: ChildState::Running,
                ..before
            }),
        },
        (ShellStep::TakeStdin, ShellEvent::Pipe(taken)) => pipe_taken(
            before,
            taken,
            " did not expose a stdin pipe"@,
            ShellStep::WriteInput,
            after,
        ),
        (ShellStep::WriteInput, ShellEvent::Settled(written)) => match written {
            Err(source) => terminating(
                before,
                sourced_fault("write "@ + before.operation@ + " JSON input"@, source@),
                false,
                after,
            ),
            Ok(_) => moved(before, ShellStep::TakeStdout, after),
        },
        (ShellStep::TakeStdout, ShellEvent::Pipe(taken)) => pipe_taken(
            before,
            taken,
            " did not expose a stdout pipe"@,
            ShellStep::TakeStderr,
            after,
        ),
        (ShellStep::TakeStderr, ShellEvent::Pipe(taken)) => pipe_taken(
            before,
            taken,
            " did not expose a stderr pipe"@,
            ShellStep::Look,
            after,
        ),
        (ShellStep::Look, ShellEvent::Seen(look)) => child_seen(before, look, after),
        (ShellStep::Reap, ShellEvent::Reaped(reaped)) => child_reaped(before, reaped, after),
        (ShellStep::Terminate, ShellEvent::Terminated) => child_terminated(before, after),
        (ShellStep::Discard, ShellEvent::Discarded) => reported(before, after),
        (ShellStep::JoinStdout, ShellEvent::Joined(end)) => stdout_joined(before, end, after),
        (ShellStep::JoinStderr, ShellEvent::Joined(end)) => stderr_joined(before, end, after),
        (ShellStep::Decode, ShellEvent::Decoded(decoded)) => reply_decoded(before, decoded, after),
        _ => after == before,
    }
}

// ---------------------------------------------------------------------------------------------
// The run
// ---------------------------------------------------------------------------------------------

impl<T> ShellRun<T> {
    /// Begins the run of an invocation whose limits and script allow it.
    pub fn execute_native<I>(invocation: &PowerShellInvocation<I>) -> (started: SandboxResult<
        ShellRun<T>,
    >)
        ensures
            match (invocation.admission_verdict(), started) {
                (Err(fault), Err(error)) => error@ == fault,
                (Ok(_), Ok(run)) => {
                    &&& run.consistent()
                    &&& run.step == ShellStep::FindSystemDirectory
                    &&& run.operation@ == invocation.operation@
                    &&& run.timeout_ms == invocation.timeout_ms
                    &&& run.child == ChildState::NotStarted
                    &&& !run.drains
                    &&& run.system_directory is None
                    &&& run.executable is None
                    &&& run.failure is None
                    &&& run.stdout is None
                    &&& run.completion is None
                    &&& run.outcome is None
                },
                _ => false,
            },
    {
        match invocation.check_limits() {
            Err(error) => {
                return Err(error);
            },
            Ok(_) => {},
        }
        Ok(
            ShellRun {
                step: ShellStep::FindSystemDirectory,
                operation: invocation.operation,
                timeout_ms: invocation.timeout_ms,
                system_directory: None,
                executable: None,
                child: ChildState::NotStarted,
                failure: None,
                drains: false,
                exit: ExitFacts { success: false, code: None },
                stdout: None,
                completion: None,
                reply: Ghost(None),
                outcome: None,
            },
        )
    }

    fn end(&mut self, error: SandboxError, child: ChildState)
        requires
            child != ChildState::Running,
        ensures
            ended(error@, child, *final(self)),
            final(self).outcome == Some(Err::<T, SandboxError>(error)),
            final(self).completion == old(self).completion,
            final(self).consistent(),
    {
        self.step = ShellStep::Done;
        self.child = child;
        self.outcome = Some(Err(error));
    }

    fn terminate(&mut self, error: SandboxError, drains: bool)
        requires
            old(self).consistent(),
            has_running_child(old(self).step),
        ensures
            terminating(*old(self), error@, drains, *final(self)),
            final(self).consistent(),
    {
        self.failure = Some(error);
        self.drains = drains;
        self.step = ShellStep::Terminate;
    }

    fn take_pipe(&mut self, taken: bool, message: &str, step: ShellStep)
        requires
            old(self).consistent(),
            has_running_child(old(self).step),
            has_running_child(step),
            step != ShellStep::Terminate,
        ensures
            pipe_taken(*old(self), taken, message@, step, *final(self)),
            final(self).consistent(),
    {
        if taken {
            self.step = step;
        } else {
            let error = shell_error(self.operation, message);
            self.terminate(error, false);
        }
    }

    fn take_directory(&mut self, found: Option<HostPath>)
        requires
            old(self).consistent(),
            old(self).step == ShellStep::FindSystemDirectory,
        ensures
            directory_found(*old(self), found, *final(self)),
            final(self).consistent(),
    {
        match found {
            None => {
                let error = SandboxError::new(
                    "hyperv_powershell",
                    "cannot resolve the trusted Windows system directory",
                );
                self.end(error, ChildState::NotStarted);
            },
            Some(directory) => {
                self.executable = Some(executable_of(&directory));
                self.system_directory = Some(directory);
                self.step = ShellStep::InspectExecutable;
            },
        }
    }

    fn inspect(&mut self, present: bool)
        requires
            old(self).consistent(),
            old(self).step == ShellStep::InspectExecutable,
        ensures
            executable_inspected(*old(self), present, *final(self)),
            final(self).consistent(),
    {
        if !present {
            let error = SandboxError::new(
                "hyperv_powershell",
                "trusted Windows PowerShell executable is missing",
            );
            self.end(error, ChildState::NotStarted);
            return;
        }
        let rooted = match &self.system_directory {
            Some(directory) => directory.has_parent(),
            None => false,
        };
        if rooted {
            self.step = ShellStep::Serialize;
        } else {
            let error = SandboxError::new(
                "hyperv_powershell",
                "cannot derive SystemRoot from the trusted PowerShell path",
            );
            self.end(error, ChildState::NotStarted);
        }
    }

    fn look(&mut self, look: ChildLook)
        requires
            old(self).consistent(),
            old(self).step == ShellStep::Look,
        ensures
            child_seen(*old(self), look, *final(self)),
            final(self).consistent(),
    {
        let status = match &look.child {
            ChildFound::Exited(_) => ChildStatus::Exited,
            ChildFound::Running => ChildStatus::Running,
            ChildFound::Unknown(_) => ChildStatus::Unknown,
        };
        match (watch_step(look.interrupted, status, look.before_deadline), look.child) {
            (WatchAction::Interrupt, _) => {
                let error = interrupted_error(self.operation);
                self.terminate(error, true);
            },
            (WatchAction::Collect, ChildFound::Exited(exit)) => {
                self.exit = exit;
                self.child = ChildState::Exited;
                self.step = ShellStep::JoinStdout;
            },
            (WatchAction::TimeOut, _) => {
                self.step = ShellStep::Reap;
            },
            (WatchAction::GiveUp, ChildFound::Unknown(source)) => {
                let message = text::cat2("wait for ", self.operation);
                self.terminate(sourced_error(message.as_str(), source.as_str()), false);
            },
            _ => {},
        }
    }

    fn reap(&mut self, reaped: Result<ExitFacts, String>)
        requires
            old(self).consistent(),
            old(self).step == ShellStep::Reap,
        ensures
            child_reaped(*old(self), reaped, *final(self)),
            final(self).consistent(),
    {
        match reaped {
            Err(source) => {
                let message = text::cat2("reap timed-out ", self.operation);
                self.end(sourced_error(message.as_str(), source.as_str()), ChildState::Killed);
            },
            Ok(exit) => {
                self.exit = exit;
                self.child = ChildState::Killed;
                self.step = ShellStep::JoinStdout;
            },
        }
    }

    fn report(&mut self)
        requires
            old(self).consistent(),
            old(self).step == ShellStep::Terminate || old(self).step == ShellStep::Discard,
        ensures
            reported(*old(self), *final(self)),
            final(self).consistent(),
    {
        let mut failure: Option<SandboxError> = None;
        std::mem::swap(&mut failure, &mut self.failure);
        match failure {
            Some(error) => self.end(error, ChildState::Killed),
            None => {},
        }
    }

    fn join_reader(&self, end: ReaderEnd, stream: &str) -> (output: SandboxResult<BoundedOutput>)
        ensures
            backend::outcome(output) == reader_verdict(self.operation@, stream@, end),
    {
        match end {
            ReaderEnd::Panicked => {
                let message = text::cat4(self.operation, " ", stream, " reader panicked");
                Err(SandboxError::new("hyperv_powershell", message.as_str()))
            },
            ReaderEnd::Failed(source) => {
                let message = text::cat4("read ", self.operation, " ", stream);
                Err(sourced_error(message.as_str(), source.as_str()))
            },
            ReaderEnd::Read(output) => Ok(output),
        }
    }

    fn join_stdout(&mut self, end: ReaderEnd)
        requires
            old(self).consistent(),
            old(self).step == ShellStep::JoinStdout,
        ensures
            stdout_joined(*old(self), end, *final(self)),
            final(self).consistent(),
    {
        match self.join_reader(end, "stdout") {
            Err(error) => {
                let child = self.child;
                self.end(error, child);
            },
            Ok(output) => {
                self.stdout = Some(output);
                self.step = ShellStep::JoinStderr;
            },
        }
    }

    fn join_stderr(&mut self, end: ReaderEnd)
        requires
            old(self).consistent(),
            old(self).step == ShellStep::JoinStderr,
        ensures
            stderr_joined(*old(self), end, *final(self)),
            final(self).consistent(),
    {
        let child = self.child;
        let stderr = match self.join_reader(end, "stderr") {
            Err(error) => {
                self.end(error, child);
                return;
            },
            Ok(stderr) => stderr,
        };
        let mut kept: Option<BoundedOutput> = None;
        std::mem::swap(&mut kept, &mut self.stdout);
        match kept {
            None => {},
            Some(stdout) => {
                let completion = Completion {
                    timed_out: child == ChildState::Killed,
                    success: self.exit.success,
                    exit_code: self.exit.code,
                    stdout,
                    stderr,
                };
                let verdict = judge_completion(self.operation, self.timeout_ms, &completion);
                self.completion = Some(completion);
                match verdict {
                    Err(error) => self.end(error, child),
                    Ok(_) => {
                        self.step = ShellStep::Decode;
                    },
                }
            },
        }
    }

    fn decode(&mut self, decoded: Result<ResponseEnvelope<T>, String>)
        requires
            old(self).consistent(),
            old(self).step == ShellStep::Decode,
        ensures
            reply_decoded(*old(self), decoded, *final(self)),
            final(self).consistent(),
    {
        let outcome = match decoded {
            Err(source) => Err(malformed_reply(self.operation, source.as_str())),
            Ok(reply) => {
                self.reply = Ghost(Some(reply));
                parse_envelope(self.operation, reply)
            },
        };
        self.outcome = Some(outcome);
        self.step = ShellStep::Done;
    }

    /// Takes what came of the step.
    pub fn advance(&mut self, event: ShellEvent<T>)
        requires
            old(self).consistent(),
        ensures
            executed(*old(self), event, *final(self)),
            final(self).consistent(),
    {
        match (self.step, event) {
            (ShellStep::FindSystemDirectory, ShellEvent::SystemDirectory(found)) => {
                self.take_directory(found);
            },
            (ShellStep::InspectExecutable, ShellEvent::Executable(present)) => self.inspect(present),
            (ShellStep::Serialize, ShellEvent::Settled(serialized)) => match serialized {
                Err(source) => {
                    let message = text::cat3("serialize ", self.operation, " input");
                    let error = sourced_error(message.as_str(), source.as_str());
                    self.end(error, ChildState::NotStarted);
                },
                Ok(_) => {
                    self.step = ShellStep::Spawn;
                },
            },
            (ShellStep::Spawn, ShellEvent::Settled(spawned)) => match spawned {
                Err(source) => {
                    let message = text::cat2("start trusted PowerShell for ", self.operation);
                    let error = sourced_error(message.as_str(), source.as_str());
                    self.end(error, ChildState::NotStarted);
                },
                Ok(_) => {
                    self.child = ChildState::Running;
                    self.step = ShellStep::TakeStdin;
                },
            },
            (ShellStep::TakeStdin, ShellEvent::Pipe(taken)) => {
                self.take_pipe(taken, " did not expose a stdin pipe", ShellStep::WriteInput);
            },
            (ShellStep::WriteInput, ShellEvent::Settled(written)) => match written {
                Err(source) => {
                    let message = text::cat3("write ", self.operation, " JSON input");
                    let error = sourced_error(message.as_str(), source.as_str());
                    self.terminate(error, false);
                },
                Ok(_) => {
                    self.step = ShellStep::TakeStdout;
                },
            },
            (ShellStep::TakeStdout, ShellEvent::Pipe(taken)) => {
                self.take_pipe(taken, " did not expose a stdout pipe", ShellStep::TakeStderr);
            },
            (ShellStep::TakeStderr, ShellEvent::Pipe(taken)) => {
                self.take_pipe(taken, " did not expose a stderr pipe", ShellStep::Look);
            },
            (ShellStep::Look, ShellEvent::Seen(look)) => self.look(look),
            (ShellStep::Reap, ShellEvent::Reaped(reaped)) => self.reap(reaped),
            (ShellStep::Terminate, ShellEvent::Terminated) => {
                if self.drains {
                    self.child = ChildState::Killed;
                    self.step = ShellStep::Discard;
                } else {
                    self.report();
                }
            },
            (ShellStep::Discard, ShellEvent::Discarded) => self.report(),
            (ShellStep::JoinStdout, ShellEvent::Joined(end)) => self.join_stdout(end),
            (ShellStep::JoinStderr, ShellEvent::Joined(end)) => self.join_stderr(end),
            (ShellStep::Decode, ShellEvent::Decoded(decoded)) => self.decode(decoded),
            _ => {},
        }
    }
}

// ---------------------------------------------------------------------------------------------
// Laws
// ---------------------------------------------------------------------------------------------

/// No child outlives its invocation: once the run is over, a child that was started has ended by
/// itself or was killed.
pub proof fn children_are_ended<T>(run: ShellRun<T>)
    requires
        run.consistent(),
        run.step == ShellStep::Done,
    ensures
        run.child != ChildState::Running,
        run.outcome is Some,
{
}

/// Data come only from a child that ended by itself, in time, with success and within the limits
/// of its output, and whose reply is of the known schema and reports success.
pub proof fn data_come_from_successful_children<T>(run: ShellRun<T>, data: T)
    requires
        run.consistent(),
        run.outcome == Some(Ok::<T, SandboxError>(data)),
    ensures
        run.child == ChildState::Exited,
        run.completion matches Some(completion) && completion.success && !completion.timed_out
            && !completion.stdout.overflowed && !completion.stderr.overflowed,
        run.reply@ matches Some(reply) && reply.ok && reply.schema_version
            == powershell::ENVELOPE_SCHEMA_VERSION && reply.data == Some(data),
{
}

/// How a child is started: the system directory and the executable in it are found, the input is
/// written, the child is started and its pipes are taken. Before the child is started a failure just
/// ends the run, and after it the child is terminated.
pub proof fn children_are_started_in_order<T>(
    before: ShellRun<T>,
    event: ShellEvent<T>,
    after: ShellRun<T>,
)
    requires
        before.consistent(),
        executed(before, event, after),
    ensures
        before.step is FindSystemDirectory && event is SystemDirectory ==> {
            &&& after.step is InspectExecutable <==> event->SystemDirectory_0 is Some
            &&& after.step is InspectExecutable ==> after.executable is Some
                && after.executable->0.spec_parts()
                == event->SystemDirectory_0->0.spec_parts() + seq![
                host_path::PartView::Normal("WindowsPowerShell"@),
                host_path::PartView::Normal("v1.0"@),
                host_path::PartView::Normal("powershell.exe"@),
            ]
        },
        before.step is InspectExecutable && event is Executable ==> (after.step is Serialize <==> {
            &&& event->Executable_0
            &&& before.system_directory->0.spec_parts().len() > 0
            &&& !(before.system_directory->0.spec_parts().last() is Root)
            &&& !(before.system_directory->0.spec_parts().last() is Prefix)
        }),
        before.step is Serialize && event is Settled ==> (after.step is Spawn <==> event->Settled_0
            is Ok),
        before.step is Spawn && event is Settled ==> {
            &&& after.step is TakeStdin <==> event->Settled_0 is Ok
            &&& after.child == if event->Settled_0 is Ok {
                ChildState::Running
            } else {
                ChildState::NotStarted
            }
        },
        before.step is TakeStdin && event is Pipe ==> after.step == if event->Pipe_0 {
            ShellStep::WriteInput
        } else {
            ShellStep::Terminate
        },
        before.step is WriteInput && event is Settled ==> after.step == if event->Settled_0 is Ok {
            ShellStep::TakeStdout
        } else {
            ShellStep::Terminate
        },
        before.step is TakeStdout && event is Pipe ==> after.step == if event->Pipe_0 {
            ShellStep::TakeStderr
        } else {
            ShellStep::Terminate
        },
        before.step is TakeStderr && event is Pipe ==> after.step == if event->Pipe_0 {
            ShellStep::Look
        } else {
            ShellStep::Terminate
        },
{
    if before.step is FindSystemDirectory && event is SystemDirectory && event->SystemDirectory_0
        is Some {
        let parts = event->SystemDirectory_0->0.spec_parts();
        assert(parts.push(host_path::PartView::Normal("WindowsPowerShell"@)).push(
            host_path::PartView::Normal("v1.0"@),
        ).push(host_path::PartView::Normal("powershell.exe"@)) =~= parts + seq![
            host_path::PartView::Normal("WindowsPowerShell"@),
            host_path::PartView::Normal("v1.0"@),
            host_path::PartView::Normal("powershell.exe"@),
        ]);
    }
}

/// How a child is watched and ended: an interruption terminates it whatever it does, one that exited is
/// collected, one that still runs is looked at again until its deadline and reaped after it, and one of
/// which nothing is known is terminated.
pub proof fn children_are_watched_to_their_end<T>(
    before: ShellRun<T>,
    event: ShellEvent<T>,
    after: ShellRun<T>,
)
    requires
        before.consistent(),
        executed(before, event, after),
    ensures
        before.step is Look && event is Seen ==> {
            let look = event->Seen_0;
            if look.interrupted {
                &&& after.step is Terminate
                &&& after.drains
                &&& after.failure->0@.message == before.operation@
                    + " interrupted; cleanup will now run"@
            } else {
                match look.child {
                    ChildFound::Exited(exit) => after.step is JoinStdout && after.child
                        == ChildState::Exited && after.exit == exit,
                    ChildFound::Running => if look.before_deadline {
                        after == before
                    } else {
                        after.step is Reap
                    },
                    ChildFound::Unknown(_) => after.step is Terminate && !after.drains,
                }
            }
        },
        before.step is Reap && event is Reaped ==> {
            &&& after.child == ChildState::Killed
            &&& after.step is JoinStdout <==> event->Reaped_0 is Ok
            &&& after.step is JoinStdout ==> after.exit == event->Reaped_0->Ok_0
        },
        before.step is Terminate && event is Terminated ==> {
            &&& after.child == ChildState::Killed
            &&& after.step is Discard <==> before.drains
            &&& !before.drains ==> after.outcome == Some(Err::<T, SandboxError>(before.failure->0))
        },
        before.step is Discard && event is Discarded ==> after.outcome == Some(
            Err::<T, SandboxError>(before.failure->0),
        ),
        before.step is JoinStdout && event is Joined ==> {
            &&& after.step is JoinStderr <==> event->Joined_0 is Read
            &&& after.step is JoinStderr ==> after.stdout == Some(event->Joined_0->Read_0)
        },
        before.step is JoinStderr && event is Joined ==> (after.step is Decode <==> {
            &&& event->Joined_0 is Read
            &&& before.child != ChildState::Killed
            &&& !before.stdout->0.overflowed
            &&& !event->Joined_0->Read_0.overflowed
            &&& before.exit.success
        }),
        before.step is Decode && event is Decoded ==> {
            &&& after.step is Done
            &&& event->Decoded_0 is Err ==> after.outcome->0 is Err
        },
{
}

/// A child is given nine variables: five that are places below the system root, and four that are
/// those of the parent.
pub proof fn children_have_nine_variables(variable: VariableView)
    ensures
        environment().contains(variable) <==> {
            ||| variable == VariableView::Below("SystemRoot"@, seq![])
            ||| variable == VariableView::Below("WINDIR"@, seq![])
            ||| variable == VariableView::Below("PATH"@, seq!["System32"@])
            ||| variable == VariableView::Below(
                "PSModulePath"@,
                seq!["System32"@, "WindowsPowerShell"@, "v1.0"@, "Modules"@],
            )
            ||| variable == VariableView::Below("ComSpec"@, seq!["System32"@, "cmd.exe"@])
            ||| variable == VariableView::Inherited("COMPUTERNAME"@)
            ||| variable == VariableView::Inherited("ProgramData"@)
            ||| variable == VariableView::Inherited("ProgramFiles"@)
            ||| variable == VariableView::Inherited("ProgramFiles(x86)"@)
        },
{
    let all = environment();
    assert(all.len() == 9);
    assert(all.contains(all[0]) && all.contains(all[1]) && all.contains(all[2]) && all.contains(all[3])
        && all.contains(all[4]) && all.contains(all[5]) && all.contains(all[6]) && all.contains(all[7])
        && all.contains(all[8]));
}

} // verus!
