//! Invocations of the host's PowerShell: their limits, the watch over them and their replies.

use vstd::prelude::*;
use vstd::string::*;

use crate::backend;
use crate::backend::{SandboxError, SandboxResult};
use crate::host_path::HostPath;
use crate::text;

verus! {

pub const DEFAULT_TIMEOUT_MS: u64 = 30_000;

pub const DEFAULT_MAX_OUTPUT_BYTES: usize = 262_144;

/// The pause between two looks at a running invocation.
pub const POLL_INTERVAL_MS: u64 = 20;

pub const ENVELOPE_SCHEMA_VERSION: u32 = 1;

pub const MAX_DIAGNOSTIC_CHARS: usize = 512;

pub const READ_CHUNK_BYTES: usize = 8192;

// ---------------------------------------------------------------------------------------------
// Paths
// ---------------------------------------------------------------------------------------------

/// A path that begins with a drive letter, a colon and a separator.
pub open spec fn on_a_drive(path: Seq<char>) -> bool {
    &&& path.len() >= 3
    &&& text::is_ascii_letter(path[0])
    &&& path[1] == ':'
    &&& path[2] == '\\' || path[2] == '/'
}

/// The form in which Hyper-V cmdlets take a path: the extended prefix of a share or of a drive is
/// dropped, any other extended path is refused.
pub open spec fn command_path_value(path: &HostPath, description: Seq<char>) -> Result<
    Seq<char>,
    backend::Fault,
> {
    if !path.unicode {
        Err(backend::fault("hyperv_powershell"@, description + " is not valid Unicode"@))
    } else {
        match text::without_prefix(path.shown@, "\\\\?\\UNC\\"@) {
            Some(rest) => Ok("\\\\"@ + rest),
            None => match text::without_prefix(path.shown@, "\\\\?\\"@) {
                Some(rest) => if on_a_drive(rest) {
                    Ok(rest)
                } else {
                    Err(
                        backend::fault(
                            "hyperv_powershell"@,
                            description + " uses an unsupported extended Windows path"@,
                        ),
                    )
                },
                None => Ok(path.shown@),
            },
        }
    }
}

/// Converts a host path into the form that Hyper-V cmdlets accept.
pub fn command_path(path: &HostPath, description: &str) -> (shown: SandboxResult<String>)
    ensures
        match shown {
            Ok(form) => command_path_value(path, description@) == Ok::<Seq<char>, backend::Fault>(
                form@,
            ),
            Err(error) => command_path_value(path, description@) == Err::<Seq<char>, backend::Fault>(
                error@,
            ),
        },
{
    if !path.unicode {
        let message = text::cat2(description, " is not valid Unicode");
        return Err(SandboxError::new("hyperv_powershell", message.as_str()));
    }
    match text::strip_prefix(path.shown.as_str(), "\\\\?\\UNC\\") {
        Some(rest) => {
            return Ok(text::cat2("\\\\", rest.as_str()));
        },
        None => {},
    }
    match text::strip_prefix(path.shown.as_str(), "\\\\?\\") {
        Some(rest) => {
            let chars = text::chars_of(rest.as_str());
            if chars.len() >= 3 {
                let drive = chars[0];
                let letter = ('a' <= drive && drive <= 'z') || ('A' <= drive && drive <= 'Z');
                if letter && chars[1] == ':' && (chars[2] == '\\' || chars[2] == '/') {
                    return Ok(rest);
                }
            }
            let message = text::cat2(description, " uses an unsupported extended Windows path");
            Err(SandboxError::new("hyperv_powershell", message.as_str()))
        },
        None => Ok(path.shown.clone()),
    }
}

// ---------------------------------------------------------------------------------------------
// Invocations
// ---------------------------------------------------------------------------------------------

/// A fixed script, the data handed to it and the limits it runs under.
#[derive(Clone, Debug)]
pub struct PowerShellInvocation<I> {
    pub operation: &'static str,
    pub script: &'static str,
    pub input: I,
    pub timeout_ms: u64,
    pub max_output_bytes: usize,
}

impl<I> PowerShellInvocation<I> {
    pub fn new(operation: &'static str, script: &'static str, input: I) -> (invocation:
        PowerShellInvocation<I>)
        ensures
            invocation == (PowerShellInvocation {
                operation,
                script,
                input,
                timeout_ms: DEFAULT_TIMEOUT_MS,
                max_output_bytes: DEFAULT_MAX_OUTPUT_BYTES,
            }),
    {
        PowerShellInvocation {
            operation,
            script,
            input,
            timeout_ms: DEFAULT_TIMEOUT_MS,
            max_output_bytes: DEFAULT_MAX_OUTPUT_BYTES,
        }
    }

    /// The invocation runs under the default limits.
    pub open spec fn admission_limits_are_default(&self) -> bool {
        self.timeout_ms == DEFAULT_TIMEOUT_MS && self.max_output_bytes == DEFAULT_MAX_OUTPUT_BYTES
    }

    pub open spec fn admission_verdict(&self) -> Result<(), backend::Fault> {
        if self.timeout_ms == 0 || self.max_output_bytes == 0 {
            Err(
                backend::fault(
                    "hyperv_powershell"@,
                    self.operation@ + " has invalid execution limits"@,
                ),
            )
        } else if self.script@.contains('\0') {
            Err(
                backend::fault(
                    "hyperv_powershell"@,
                    self.operation@ + " contains an invalid NUL in its static script"@,
                ),
            )
        } else {
            Ok(())
        }
    }

    /// Whether the invocation may be started.
    pub fn check_limits(&self) -> (verdict: SandboxResult<()>)
        ensures
            backend::outcome(verdict) == self.admission_verdict(),
    {
        if self.timeout_ms == 0 || self.max_output_bytes == 0 {
            let message = text::cat2(self.operation, " has invalid execution limits");
            return Err(SandboxError::new("hyperv_powershell", message.as_str()));
        }
        if text::contains_char(self.script, '\0') {
            let message = text::cat2(
                self.operation,
                " contains an invalid NUL in its static script",
            );
            return Err(SandboxError::new("hyperv_powershell", message.as_str()));
        }
        Ok(())
    }
}

/// The error of every invocation on a host other than Windows.
pub fn unsupported_host(operation: &str) -> (error: SandboxError)
    ensures
        error@ == backend::fault(
            "hyperv_powershell"@,
            operation@ + " is unavailable because the Hyper-V backend requires Windows"@,
        ),
{
    let message = text::cat2(
        operation,
        " is unavailable because the Hyper-V backend requires Windows",
    );
    SandboxError::new("hyperv_powershell", message.as_str())
}

// ---------------------------------------------------------------------------------------------
// Watching a running invocation
// ---------------------------------------------------------------------------------------------

/// What one look at the child process found.
#[derive(Clone, Copy, Debug, PartialEq, Eq, Structural)]
pub enum ChildStatus {
    Exited,
    Running,
    Unknown,
}

/// What the watch does next.
#[derive(Clone, Copy, Debug, PartialEq, Eq, Structural)]
pub enum WatchAction {
    /// Kill and reap the child, discard its output and report the interruption.
    Interrupt,
    /// Collect the output of the child that ended by itself.
    Collect,
    /// Look again after the poll interval.
    Pause,
    /// Kill and reap the child and collect its output as that of a timed-out invocation.
    TimeOut,
    /// Kill and reap the child and report that it could not be watched.
    GiveUp,
}

pub open spec fn watch_action(
    interrupted: bool,
    status: ChildStatus,
    before_deadline: bool,
) -> WatchAction {
    if interrupted {
        WatchAction::Interrupt
    } else {
        match status {
            ChildStatus::Exited => WatchAction::Collect,
            ChildStatus::Running => if before_deadline {
                WatchAction::Pause
            } else {
                WatchAction::TimeOut
            },
            ChildStatus::Unknown => WatchAction::GiveUp,
        }
    }
}

/// One step of the watch over a running invocation.
pub fn watch_step(interrupted: bool, status: ChildStatus, before_deadline: bool) -> (action:
    WatchAction)
    ensures
        action == watch_action(interrupted, status, before_deadline),
{
    if interrupted {
        return WatchAction::Interrupt;
    }
    match status {
        ChildStatus::Exited => WatchAction::Collect,
        ChildStatus::Running => if before_deadline {
            WatchAction::Pause
        } else {
            WatchAction::TimeOut
        },
        ChildStatus::Unknown => WatchAction::GiveUp,
    }
}

/// The report of an interrupted invocation.
pub fn interrupted_error(operation: &str) -> (error: SandboxError)
    ensures
        error@ == backend::fault(
            "hyperv_powershell"@,
            operation@ + " interrupted; cleanup will now run"@,
        ),
{
    let message = text::cat2(operation, " interrupted; cleanup will now run");
    SandboxError::new("hyperv_powershell", message.as_str())
}

/// What a stream held: the bytes kept, how many there were, and whether some were dropped.
#[derive(Clone, Debug, PartialEq, Eq)]
pub struct BoundedOutput {
    pub stored: Vec<u8>,
    pub total: usize,
    pub overflowed: bool,
}

/// Takes in a stream chunk by chunk and keeps its first `maximum` bytes.
#[derive(Clone, Debug, PartialEq, Eq)]
pub struct BoundedReader {
    pub stored: Vec<u8>,
    pub total: usize,
    pub maximum: usize,
}

pub open spec fn min_nat(a: nat, b: nat) -> nat {
    if a <= b {
        a
    } else {
        b
    }
}

impl BoundedReader {
    /// The reader has taken in exactly the bytes `seen`.
    pub open spec fn represents(&self, seen: Seq<u8>) -> bool {
        &&& self.stored@ == seen.take(min_nat(self.maximum as nat, seen.len()) as int)
        &&& self.total == min_nat(usize::MAX as nat, seen.len())
    }

    pub fn new(maximum: usize) -> (reader: BoundedReader)
        ensures
            reader.maximum == maximum,
            reader.represents(Seq::empty()),
    {
        let reader = BoundedReader { stored: Vec::new(), total: 0, maximum };
        proof {
            assert(reader.stored@ =~= Seq::<u8>::empty().take(0));
        }
        reader
    }

    /// Takes in the first `count` bytes of `chunk`.
    pub fn absorb(&mut self, chunk: &[u8], count: usize)
        requires
            count <= chunk@.len(),
        ensures
            final(self).maximum == old(self).maximum,
            forall|seen: Seq<u8>| #[trigger]
                old(self).represents(seen) ==> final(self).represents(
                    seen + chunk@.take(count as int),
                ),
    {
        let ghost before = *self;
        self.total = self.total.saturating_add(count);
        let mut i: usize = 0;
        while i < count && self.stored.len() < self.maximum
            invariant
                i <= count <= chunk@.len(),
                self.maximum == before.maximum,
                self.total == min_nat(usize::MAX as nat, (before.total + count) as nat),
                self.stored@ == before.stored@ + chunk@.take(i as int),
                i > 0 ==> self.stored@.len() <= self.maximum,
            decreases count - i,
        {
            self.stored.push(chunk[i]);
            i = i + 1;
            proof {
                assert(self.stored@ =~= before.stored@ + chunk@.take(i as int));
            }
        }
        proof {
            assert forall|seen: Seq<u8>| #[trigger] before.represents(seen) implies self.represents(
                seen + chunk@.take(count as int),
            ) by {
                let all = seen + chunk@.take(count as int);
                let kept = min_nat(self.maximum as nat, all.len());
                assert(self.stored@ =~= all.take(kept as int));
            }
        }
    }

    /// What the stream held.
    pub fn finish(self) -> (output: BoundedOutput)
        ensures
            output.stored == self.stored,
            output.total == self.total,
            output.overflowed == (self.total > self.maximum),
    {
        let overflowed = self.total > self.maximum;
        BoundedOutput { stored: self.stored, total: self.total, overflowed }
    }
}

/// Drains a stream that is at hand as a whole: the first `maximum` bytes are kept, all are counted.
pub fn read_bounded(stream: &[u8], maximum: usize) -> (output: BoundedOutput)
    ensures
        output.stored@ == stream@.take(min_nat(maximum as nat, stream@.len()) as int),
        output.total == stream@.len(),
        output.overflowed == (stream@.len() > maximum),
{
    let len: usize = stream.len();
    let mut reader = BoundedReader::new(maximum);
    let mut at: usize = 0;
    proof {
        assert(stream@.take(0) =~= Seq::<u8>::empty());
    }
    while at < len
        invariant
            at <= len,
            len == stream@.len(),
            reader.maximum == maximum,
            reader.represents(stream@.take(at as int)),
        decreases len - at,
    {
        let count: usize = if len - at < READ_CHUNK_BYTES {
            len - at
        } else {
            READ_CHUNK_BYTES
        };
        let chunk = vstd::slice::slice_subrange(stream, at, at + count);
        reader.absorb(chunk, count);
        proof {
            assert(stream@.take(at as int) + chunk@.take(count as int) =~= stream@.take(at + count));
        }
        at = at + count;
    }
    proof {
        assert(stream@.take(at as int) =~= stream@);
    }
    reader.finish()
}

/// A text cut to 512 characters, control characters but tabs and line feeds replaced.
pub open spec fn safe_field(value: Seq<char>) -> Seq<char> {
    value.take(min_nat(MAX_DIAGNOSTIC_CHARS as nat, value.len()) as int).map_values(
        |c: char|
            if text::is_control(c) && c != '\t' && c != '\n' {
                '\u{fffd}'
            } else {
                c
            },
    )
}

pub fn safe_error_field(value: &str) -> (shown: String)
    ensures
        shown@ == safe_field(value@),
{
    let chars = text::chars_of(value);
    let kept: usize = if chars.len() < MAX_DIAGNOSTIC_CHARS {
        chars.len()
    } else {
        MAX_DIAGNOSTIC_CHARS
    };
    let mut shown: String = String::new();
    let mut i: usize = 0;
    while i < kept
        invariant
            i <= kept <= chars@.len(),
            chars@ == value@,
            kept == min_nat(MAX_DIAGNOSTIC_CHARS as nat, value@.len()),
            shown@ == safe_field(value@).take(i as int),
        decreases kept - i,
    {
        let c = chars[i];
        let clean = if text::char_is_control(c) && c != '\t' && c != '\n' {
            '\u{fffd}'
        } else {
            c
        };
        shown.push(clean);
        i = i + 1;
        proof {
            assert(shown@ =~= safe_field(value@).take(i as int));
        }
    }
    proof {
        assert(safe_field(value@).take(kept as int) =~= safe_field(value@));
    }
    shown
}

/// The readable beginning of a diagnostic stream.
pub fn bounded_diagnostic(bytes: &[u8]) -> (shown: String)
    ensures
        shown@ == safe_field(text::utf8_lossy(bytes@)),
{
    let decoded = text::lossy_text(bytes);
    safe_error_field(decoded.as_str())
}

/// An exit code as diagnostics show it.
pub open spec fn exit_code_text(code: Option<i32>) -> Seq<char> {
    match code {
        Some(value) => "Some("@ + text::signed_decimal(value as int) + ")"@,
        None => "None"@,
    }
}

fn show_exit_code(code: Option<i32>) -> (shown: String)
    ensures
        shown@ == exit_code_text(code),
{
    match code {
        Some(value) => {
            let digits = text::signed_decimal_text(value as i64);
            text::cat3("Some(", digits.as_str(), ")")
        },
        None => "None".to_owned(),
    }
}

/// How an invocation ended.
#[derive(Clone, Debug, PartialEq, Eq)]
pub struct Completion {
    pub timed_out: bool,
    pub success: bool,
    pub exit_code: Option<i32>,
    pub stdout: BoundedOutput,
    pub stderr: BoundedOutput,
}

/// The verdict on an invocation that ended, before its reply is read. `diagnostic` is the text of
/// its standard error.
pub open spec fn completion_verdict(
    operation: Seq<char>,
    timeout_ms: nat,
    completion: &Completion,
    diagnostic: Seq<char>,
) -> Result<(), backend::Fault> {
    if completion.timed_out {
        Err(
            backend::fault(
                "hyperv_powershell"@,
                operation + " exceeded its "@ + text::decimal(timeout_ms)
                    + " ms host timeout; resource reconciliation is required"@,
            ),
        )
    } else if completion.stdout.overflowed || completion.stderr.overflowed {
        Err(
            backend::fault(
                "hyperv_powershell"@,
                operation + " exceeded its bounded output limit (stdout "@ + text::decimal(
                    completion.stdout.total as nat,
                ) + " bytes, stderr "@ + text::decimal(completion.stderr.total as nat) + " bytes)"@,
            ),
        )
    } else if !completion.success {
        Err(
            backend::fault(
                "hyperv_powershell"@,
                operation + " failed with exit code "@ + exit_code_text(completion.exit_code) + ": "@
                    + diagnostic,
            ),
        )
    } else {
        Ok(())
    }
}

/// The verdict on an invocation that ended.
pub fn judge_completion(operation: &str, timeout_ms: u64, completion: &Completion) -> (verdict:
    SandboxResult<()>)
    ensures
        backend::outcome(verdict) == completion_verdict(
            operation@,
            timeout_ms as nat,
            completion,
            safe_field(text::utf8_lossy(completion.stderr.stored@)),
        ),
{
    let diagnostic = bounded_diagnostic(completion.stderr.stored.as_slice());
    judge_completion_with(operation, timeout_ms, completion, diagnostic.as_str())
}

/// The verdict on an invocation that ended, for the given text of its standard error.
pub fn judge_completion_with(
    operation: &str,
    timeout_ms: u64,
    completion: &Completion,
    diagnostic: &str,
) -> (verdict: SandboxResult<()>)
    ensures
        backend::outcome(verdict) == completion_verdict(
            operation@,
            timeout_ms as nat,
            completion,
            diagnostic@,
        ),
{
    if completion.timed_out {
        let limit = text::decimal_text(timeout_ms);
        let message = text::cat4(
            operation,
            " exceeded its ",
            limit.as_str(),
            " ms host timeout; resource reconciliation is required",
        );
        return Err(SandboxError::new("hyperv_powershell", message.as_str()));
    }
    if completion.stdout.overflowed || completion.stderr.overflowed {
        let stdout = text::decimal_text(completion.stdout.total as u64);
        let stderr = text::decimal_text(completion.stderr.total as u64);
        let mut message = text::cat5(
            operation,
            " exceeded its bounded output limit (stdout ",
            stdout.as_str(),
            " bytes, stderr ",
            stderr.as_str(),
        );
        message.append(" bytes)");
        return Err(SandboxError::new("hyperv_powershell", message.as_str()));
    }
    if !completion.success {
        let code = show_exit_code(completion.exit_code);
        let message = text::cat5(
            operation,
            " failed with exit code ",
            code.as_str(),
            ": ",
            diagnostic,
        );
        return Err(SandboxError::new("hyperv_powershell", message.as_str()));
    }
    Ok(())
}

// ---------------------------------------------------------------------------------------------
// Replies
// ---------------------------------------------------------------------------------------------

#[derive(Clone, Debug, PartialEq, Eq)]
pub struct PowerShellError {
    pub code: String,
    pub message: String,
}

/// What a script replies: data, or the error that kept it from them.
#[derive(Clone, Debug, PartialEq, Eq)]
pub struct ResponseEnvelope<T> {
    pub schema_version: u32,
    pub ok: bool,
    pub data: Option<T>,
    pub error: Option<PowerShellError>,
}

impl<T> ResponseEnvelope<T> {
    pub open spec fn failure_text(&self) -> Seq<char> {
        match self.error {
            Some(error) => safe_field(error.code@) + "]: "@ + safe_field(error.message@),
            None => safe_field("unknown"@) + "]: "@ + safe_field(
                "PowerShell operation failed without an error payload"@,
            ),
        }
    }

    /// The data of a reply of the known schema that reports success, or what is wrong with it.
    pub open spec fn opened(&self, operation: Seq<char>) -> Result<T, backend::Fault> {
        if self.schema_version != ENVELOPE_SCHEMA_VERSION {
            Err(
                backend::fault(
                    "hyperv_powershell"@,
                    operation + " returned unsupported envelope schema "@ + text::decimal(
                        self.schema_version as nat,
                    ),
                ),
            )
        } else if !self.ok {
            Err(
                backend::fault(
                    "hyperv_powershell"@,
                    operation + " failed ["@ + self.failure_text(),
                ),
            )
        } else {
            match self.data {
                Some(data) => Ok(data),
                None => Err(
                    backend::fault(
                        "hyperv_powershell"@,
                        operation + " succeeded without a data payload"@,
                    ),
                ),
            }
        }
    }
}

/// The data of a decoded reply.
pub fn parse_envelope<T>(operation: &str, response: ResponseEnvelope<T>) -> (data: SandboxResult<T>)
    ensures
        backend::outcome(data) == response.opened(operation@),
{
    if response.schema_version != ENVELOPE_SCHEMA_VERSION {
        let version = text::decimal_text(response.schema_version as u64);
        let message = text::cat3(
            operation,
            " returned unsupported envelope schema ",
            version.as_str(),
        );
        return Err(SandboxError::new("hyperv_powershell", message.as_str()));
    }
    if !response.ok {
        let (code, message) = match &response.error {
            Some(error) => (
                safe_error_field(error.code.as_str()),
                safe_error_field(error.message.as_str()),
            ),
            None => (
                safe_error_field("unknown"),
                safe_error_field("PowerShell operation failed without an error payload"),
            ),
        };
        let shown = text::cat3(code.as_str(), "]: ", message.as_str());
        let message = text::cat3(operation, " failed [", shown.as_str());
        return Err(SandboxError::new("hyperv_powershell", message.as_str()));
    }
    match response.data {
        Some(data) => Ok(data),
        None => {
            let message = text::cat2(operation, " succeeded without a data payload");
            Err(SandboxError::new("hyperv_powershell", message.as_str()))
        },
    }
}

/// The report of a reply that is no JSON of the expected shape.
pub fn malformed_reply(operation: &str, source: &str) -> (error: SandboxError)
    ensures
        error@ == backend::fault_from(
            "hyperv_powershell"@,
            operation@ + " returned malformed JSON"@,
            source@,
        ),
{
    let message = text::cat2(operation, " returned malformed JSON");
    SandboxError::with_source("hyperv_powershell", message.as_str(), source)
}

// ---------------------------------------------------------------------------------------------
// Laws
// ---------------------------------------------------------------------------------------------

/// A command succeeded exactly where it ended in time, kept to its output bounds and said so itself;
/// every other end is an error that names the operation.
pub proof fn commands_succeed_in_time_and_within_bounds(
    operation: Seq<char>,
    timeout_ms: nat,
    completion: &Completion,
    diagnostic: Seq<char>,
)
    ensures
        completion_verdict(operation, timeout_ms, completion, diagnostic) is Ok <==> {
            &&& !completion.timed_out
            &&& !completion.stdout.overflowed
            &&& !completion.stderr.overflowed
            &&& completion.success
        },
        completion_verdict(operation, timeout_ms, completion, diagnostic) matches Err(fault) ==> {
            &&& fault.stage == "hyperv_powershell"@
            &&& text::begins(fault.message, operation)
        },
{
    match completion_verdict(operation, timeout_ms, completion, diagnostic) {
        Err(fault) => {
            assert(fault.message.take(operation.len() as int) =~= operation);
        },
        Ok(_) => {},
    }
}

/// A reply gives its data exactly where it is of the first schema, says that it succeeded and has
/// data.
pub proof fn replies_give_their_data<T>(envelope: &ResponseEnvelope<T>, operation: Seq<char>)
    ensures
        envelope.opened(operation) is Ok <==> envelope.schema_version == 1 && envelope.ok
            && envelope.data is Some,
        envelope.opened(operation) matches Ok(data) ==> envelope.data == Some(data),
        envelope.opened(operation) matches Err(fault) ==> fault.stage == "hyperv_powershell"@,
{
}

/// A child is waited for while it runs before its deadline, is taken when it ended, and is ended at
/// its deadline, where the user interrupts the run, and where nobody can tell its state.
pub proof fn children_are_watched(interrupted: bool, status: ChildStatus, before_deadline: bool)
    ensures
        ({
            let action = watch_action(interrupted, status, before_deadline);
            &&& action == WatchAction::Interrupt <==> interrupted
            &&& action == WatchAction::Collect <==> !interrupted && status == ChildStatus::Exited
            &&& action == WatchAction::Pause <==> !interrupted && status == ChildStatus::Running
                && before_deadline
            &&& action == WatchAction::TimeOut <==> !interrupted && status == ChildStatus::Running
                && !before_deadline
            &&& action == WatchAction::GiveUp <==> !interrupted && status == ChildStatus::Unknown
        }),
{
}

/// What is shown of a field is its first characters, each as it is but for control characters, which
/// are replaced, tabs and line feeds excepted.
pub proof fn shown_fields_have_no_control_characters(value: Seq<char>, i: int)
    requires
        0 <= i < safe_field(value).len(),
    ensures
        safe_field(value).len() <= value.len(),
        value.len() <= MAX_DIAGNOSTIC_CHARS ==> safe_field(value).len() == value.len(),
        text::is_control(value[i]) && value[i] != '\t' && value[i] != '\n' ==> safe_field(value)[i]
            == '\u{fffd}',
        !text::is_control(value[i]) || value[i] == '\t' || value[i] == '\n' ==> safe_field(value)[i]
            == value[i],
{
}

/// A path is handed to a command as it is; one in the extended form without its prefix, where it is
/// on a drive or a share.
pub proof fn command_paths(path: &HostPath, description: Seq<char>, rest: Seq<char>)
    requires
        path.unicode,
    ensures
        !text::begins(path.shown@, "\\\\?\\"@) && !text::begins(path.shown@, "\\\\?\\UNC\\"@)
            ==> command_path_value(path, description) == Ok::<Seq<char>, backend::Fault>(
            path.shown@,
        ),
        path.shown@ == "\\\\?\\UNC\\"@ + rest ==> command_path_value(path, description) == Ok::<
            Seq<char>,
            backend::Fault,
        >("\\\\"@ + rest),
{
    let prefix = "\\\\?\\UNC\\"@;
    if path.shown@ == prefix + rest {
        assert(path.shown@.take(prefix.len() as int) =~= prefix);
        assert(path.shown@.skip(prefix.len() as int) =~= rest);
    }
}

} // verus!
