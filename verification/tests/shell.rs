use foxhole::backend::SandboxResult;
use foxhole::host_path::HostPath;
use foxhole::hyperv::powershell::{
    BoundedOutput, PowerShellError, PowerShellInvocation, ResponseEnvelope,
};
use foxhole::hyperv::shell::{
    shell_arguments, shell_environment, ChildFound, ChildLook, ChildState, ExitFacts, ReaderEnd,
    ShellEvent, ShellRun, ShellStep, ShellVariable,
};

fn invocation() -> PowerShellInvocation<()> {
    PowerShellInvocation::new("probe", "Get-Item .", ())
}

fn begun() -> ShellRun<u8> {
    ShellRun::execute_native(&invocation()).unwrap()
}

fn message(outcome: Option<SandboxResult<u8>>) -> String {
    outcome.unwrap().unwrap_err().to_string()
}

fn output(stored: &[u8], overflowed: bool) -> BoundedOutput {
    BoundedOutput { stored: stored.to_vec(), total: stored.len(), overflowed }
}

fn found() -> HostPath {
    HostPath::parse("/Windows/System32")
}

fn looked(interrupted: bool, child: ChildFound, before_deadline: bool) -> ShellEvent<u8> {
    ShellEvent::Seen(ChildLook { interrupted, child, before_deadline })
}

fn exited(success: bool, code: i32) -> ChildFound {
    ChildFound::Exited(ExitFacts { success, code: Some(code) })
}

/// A run whose child is being watched.
fn watched() -> ShellRun<u8> {
    let mut run = begun();
    run.advance(ShellEvent::SystemDirectory(Some(found())));
    run.advance(ShellEvent::Executable(true));
    run.advance(ShellEvent::Settled(Ok(())));
    run.advance(ShellEvent::Settled(Ok(())));
    run.advance(ShellEvent::Pipe(true));
    run.advance(ShellEvent::Settled(Ok(())));
    run.advance(ShellEvent::Pipe(true));
    run.advance(ShellEvent::Pipe(true));
    assert_eq!(run.step, ShellStep::Look);
    run
}

fn reply(ok: bool, data: Option<u8>) -> ResponseEnvelope<u8> {
    ResponseEnvelope { schema_version: 1, ok, data, error: None }
}

#[test]
fn shells_start_with_a_fixed_environment() {
    assert_eq!(
        shell_arguments("Get-Item ."),
        vec!["-NoLogo", "-NoProfile", "-NonInteractive", "-Command", "Get-Item ."]
    );
    assert_eq!(
        shell_environment(),
        vec![
            ShellVariable::Below("SystemRoot", vec![]),
            ShellVariable::Below("WINDIR", vec![]),
            ShellVariable::Below("PATH", vec!["System32"]),
            ShellVariable::Below(
                "PSModulePath",
                vec!["System32", "WindowsPowerShell", "v1.0", "Modules"]
            ),
            ShellVariable::Below("ComSpec", vec!["System32", "cmd.exe"]),
            ShellVariable::Inherited("COMPUTERNAME"),
            ShellVariable::Inherited("ProgramData"),
            ShellVariable::Inherited("ProgramFiles"),
            ShellVariable::Inherited("ProgramFiles(x86)"),
        ]
    );
    let mut run = begun();
    run.advance(ShellEvent::SystemDirectory(Some(found())));
    assert_eq!(
        run.executable.unwrap().shown,
        "/Windows/System32/WindowsPowerShell/v1.0/powershell.exe"
    );
}

#[test]
fn replies_of_successful_children_are_opened() {
    let mut run = watched();
    assert_eq!(run.child, ChildState::Running);
    run.advance(looked(false, ChildFound::Running, true));
    assert_eq!(run.step, ShellStep::Look);
    run.advance(looked(false, exited(true, 0), false));
    run.advance(ShellEvent::Joined(ReaderEnd::Read(output(b"{}", false))));
    run.advance(ShellEvent::Joined(ReaderEnd::Read(output(b"", false))));
    assert_eq!(run.step, ShellStep::Decode);
    assert_eq!(run.completion.as_ref().unwrap().stdout.stored, b"{}");
    run.advance(ShellEvent::Decoded(Ok(reply(true, Some(7)))));
    assert_eq!(run.step, ShellStep::Done);
    assert_eq!(run.child, ChildState::Exited);
    assert_eq!(run.outcome.unwrap().unwrap(), 7);
}

#[test]
fn invocations_without_limits_never_start() {
    let mut bare = invocation();
    bare.timeout_ms = 0;
    let refused = ShellRun::<u8>::execute_native(&bare).err().unwrap();
    assert_eq!(refused.to_string(), "hyperv_powershell: probe has invalid execution limits");
}

#[test]
fn missing_shells_are_reported() {
    let mut run = begun();
    run.advance(ShellEvent::SystemDirectory(None));
    assert_eq!(
        message(run.outcome),
        "hyperv_powershell: cannot resolve the trusted Windows system directory"
    );

    let mut run = begun();
    run.advance(ShellEvent::SystemDirectory(Some(found())));
    run.advance(ShellEvent::Executable(false));
    assert_eq!(
        message(run.outcome),
        "hyperv_powershell: trusted Windows PowerShell executable is missing"
    );

    let mut run = begun();
    run.advance(ShellEvent::SystemDirectory(Some(HostPath::parse("/"))));
    run.advance(ShellEvent::Executable(true));
    assert_eq!(
        message(run.outcome),
        "hyperv_powershell: cannot derive SystemRoot from the trusted PowerShell path"
    );
}

#[test]
fn children_that_cannot_be_fed_are_terminated() {
    let mut run = begun();
    run.advance(ShellEvent::SystemDirectory(Some(found())));
    run.advance(ShellEvent::Executable(true));
    run.advance(ShellEvent::Settled(Ok(())));
    run.advance(ShellEvent::Settled(Ok(())));
    run.advance(ShellEvent::Pipe(false));
    assert_eq!(run.step, ShellStep::Terminate);
    assert!(run.outcome.is_none());
    run.advance(ShellEvent::Terminated);
    assert_eq!(run.child, ChildState::Killed);
    assert_eq!(message(run.outcome), "hyperv_powershell: probe did not expose a stdin pipe");
}

#[test]
fn interrupted_children_are_terminated_and_drained() {
    let mut run = watched();
    run.advance(looked(true, ChildFound::Running, true));
    assert_eq!(run.step, ShellStep::Terminate);
    run.advance(ShellEvent::Terminated);
    assert_eq!(run.step, ShellStep::Discard);
    run.advance(ShellEvent::Discarded);
    assert_eq!(run.child, ChildState::Killed);
    assert_eq!(
        message(run.outcome),
        "hyperv_powershell: probe interrupted; cleanup will now run"
    );
}

#[test]
fn children_that_cannot_be_watched_are_terminated() {
    let mut run = watched();
    run.advance(looked(false, ChildFound::Unknown("gone".to_string()), true));
    run.advance(ShellEvent::Terminated);
    assert_eq!(run.step, ShellStep::Done);
    assert_eq!(run.child, ChildState::Killed);
    let error = run.outcome.unwrap().unwrap_err();
    assert_eq!(error.message, "wait for probe");
    assert_eq!(error.source(), Some("gone"));
}

#[test]
fn late_children_are_killed_and_never_reply() {
    let mut run = watched();
    run.advance(looked(false, ChildFound::Running, false));
    assert_eq!(run.step, ShellStep::Reap);
    run.advance(ShellEvent::Reaped(Ok(ExitFacts { success: true, code: Some(0) })));
    run.advance(ShellEvent::Joined(ReaderEnd::Read(output(b"{}", false))));
    run.advance(ShellEvent::Joined(ReaderEnd::Read(output(b"", false))));
    assert_eq!(run.step, ShellStep::Done);
    assert_eq!(run.child, ChildState::Killed);
    assert_eq!(
        message(run.outcome),
        "hyperv_powershell: probe exceeded its 30000 ms host timeout; resource reconciliation is required"
    );
}

#[test]
fn failed_overflowing_and_malformed_replies_are_reported() {
    let mut run = watched();
    run.advance(looked(false, exited(false, 3), true));
    run.advance(ShellEvent::Joined(ReaderEnd::Read(output(b"", false))));
    run.advance(ShellEvent::Joined(ReaderEnd::Read(output(b"boom", false))));
    assert_eq!(
        message(run.outcome),
        "hyperv_powershell: probe failed with exit code Some(3): boom"
    );

    let mut run = watched();
    run.advance(looked(false, exited(true, 0), true));
    run.advance(ShellEvent::Joined(ReaderEnd::Read(output(b"abc", true))));
    run.advance(ShellEvent::Joined(ReaderEnd::Read(output(b"", false))));
    assert_eq!(
        message(run.outcome),
        "hyperv_powershell: probe exceeded its bounded output limit (stdout 3 bytes, stderr 0 bytes)"
    );

    let mut run = watched();
    run.advance(looked(false, exited(true, 0), true));
    run.advance(ShellEvent::Joined(ReaderEnd::Panicked));
    assert_eq!(message(run.outcome), "hyperv_powershell: probe stdout reader panicked");

    let mut run = watched();
    run.advance(looked(false, exited(true, 0), true));
    run.advance(ShellEvent::Joined(ReaderEnd::Read(output(b"x", false))));
    run.advance(ShellEvent::Joined(ReaderEnd::Read(output(b"", false))));
    run.advance(ShellEvent::Decoded(Err("expected value".to_string())));
    let error = run.outcome.unwrap().unwrap_err();
    assert_eq!(error.message, "probe returned malformed JSON");

    let mut run = watched();
    run.advance(looked(false, exited(true, 0), true));
    run.advance(ShellEvent::Joined(ReaderEnd::Read(output(b"x", false))));
    run.advance(ShellEvent::Joined(ReaderEnd::Read(output(b"", false))));
    let refusal = ResponseEnvelope {
        error: Some(PowerShellError { code: "E1".to_string(), message: "no".to_string() }),
        ..reply(false, None)
    };
    run.advance(ShellEvent::Decoded(Ok(refusal)));
    assert_eq!(message(run.outcome), "hyperv_powershell: probe failed [E1]: no");
}
