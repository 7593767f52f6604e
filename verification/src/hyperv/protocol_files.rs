//! The files of the protocol between host and guest: read whole and bounded, and published whole,
//! bounded and never over another file.

use vstd::prelude::*;

use crate::host_path;
use crate::host_path::HostPath;
use crate::hyperv::guest_protocol;
use crate::hyperv::guest_protocol::{
    admit_bounded_bytes, admit_bounded_file, temporary_name, BoundedWriter, FileFacts,
    ProtocolError, ProtocolFault, ProtocolResult,
};
use crate::text;

verus! {

/// What a failed operation on a file is reported as.
pub open spec fn io_fault(action: Seq<char>, shown: Seq<char>, source: Seq<char>) -> ProtocolFault {
    ProtocolFault { code: "protocol_io"@, message: action + shown + ": "@ + source }
}

fn io_error(action: &str, shown: &str, source: &str) -> (error: ProtocolError)
    ensures
        error@ == io_fault(action@, shown@, source@),
{
    let message = text::cat4(action, shown, ": ", source);
    ProtocolError::new("protocol_io", message.as_str())
}

// ---------------------------------------------------------------------------------------------
// Reading
// ---------------------------------------------------------------------------------------------

/// What is to be done next.
#[derive(Clone, Copy, Debug, PartialEq, Eq, Structural)]
pub enum ReadStep {
    /// Look at the file without following a link.
    Inspect,
    Open,
    /// Read at most one byte more than the limit.
    Read,
    /// Read the bytes as JSON.
    Parse,
    Done,
}

/// What bytes are as JSON.
#[derive(Debug)]
pub enum JsonOutcome<T> {
    Malformed(String),
    TrailingData(String),
    Value(T),
}

/// What came of a step. A read tells how many bytes there were.
#[derive(Debug)]
pub enum ReadEvent<T> {
    Inspected(Result<FileFacts, String>),
    Opened(Result<(), String>),
    Read(Result<u64, String>),
    Parsed(JsonOutcome<T>),
}

/// The reading of a protocol file.
#[derive(Debug)]
pub struct BoundedJson<T> {
    pub step: ReadStep,
    /// The path as messages show it.
    pub shown: String,
    pub maximum: u64,
    pub facts: FileFacts,
    /// How many bytes were read.
    pub count: u64,
    pub outcome: Option<ProtocolResult<T>>,
}

impl<T> BoundedJson<T> {
    pub open spec fn consistent(&self) -> bool {
        if self.step == ReadStep::Done {
            self.outcome matches Some(outcome) && (outcome is Ok ==> self.whole())
        } else {
            &&& self.outcome is None
            &&& self.maximum > 0
            &&& self.step == ReadStep::Parse ==> self.whole()
            &&& self.step == ReadStep::Open || self.step == ReadStep::Read
                ==> guest_protocol::bounded_file_verdict(
                self.shown@,
                self.facts,
                self.maximum,
            ) is Ok
        }
    }

    /// The file is a regular one of a size within the limit, and was read whole.
    pub open spec fn whole(&self) -> bool {
        &&& self.count == self.facts.len
        &&& self.facts.regular
        &&& !self.facts.link
        &&& !self.facts.reparse_point
        &&& self.facts.len <= self.maximum
    }
}

/// The reading ended with an error.
pub open spec fn refused<T>(fault: ProtocolFault, after: BoundedJson<T>) -> bool {
    &&& after.step == ReadStep::Done
    &&& after.outcome matches Some(Err(error)) && error@ == fault
}

/// What one event makes of the reading. An event that is no answer to the step changes nothing.
pub open spec fn read<T>(
    before: BoundedJson<T>,
    event: ReadEvent<T>,
    after: BoundedJson<T>,
) -> bool {
    match (before.step, event) {
        (ReadStep::Inspect, ReadEvent::Inspected(inspected)) => match inspected {
            Err(source) => refused(io_fault("inspect "@, before.shown@, source@), after),
            Ok(facts) => match guest_protocol::bounded_file_verdict(
                before.shown@,
                facts,
                before.maximum,
            ) {
                Err(fault) => refused(fault, after),
                Ok(_) => after == (BoundedJson { step: ReadStep::Open, facts, ..before }),
            },
        },
        (ReadStep::Open, ReadEvent::Opened(opened)) => match opened {
            Err(source) => refused(io_fault("open "@, before.shown@, source@), after),
            Ok(_) => after == (BoundedJson { step: ReadStep::Read, ..before }),
        },
        (ReadStep::Read, ReadEvent::Read(read)) => match read {
            Err(source) => refused(io_fault("read "@, before.shown@, source@), after),
            Ok(count) => match guest_protocol::bounded_bytes_verdict(
                before.shown@,
                before.facts,
                before.maximum,
                count,
            ) {
                Err(fault) => refused(fault, after),
                Ok(_) => after == (BoundedJson { step: ReadStep::Parse, count, ..before }),
            },
        },
        (ReadStep::Parse, ReadEvent::Parsed(parsed)) => match parsed {
            JsonOutcome::Malformed(source) => refused(
                ProtocolFault {
                    code: "invalid_json"@,
                    message: "parse "@ + before.shown@ + ": "@ + source@,
                },
                after,
            ),
            JsonOutcome::TrailingData(source) => refused(
                ProtocolFault {
                    code: "invalid_json"@,
                    message: "reject trailing data in "@ + before.shown@ + ": "@ + source@,
                },
                after,
            ),
            JsonOutcome::Value(value) => {
                &&& after.step == ReadStep::Done
                &&& after.facts == before.facts
                &&& after.count == before.count
                &&& after.maximum == before.maximum
                &&& after.outcome == Some(Ok::<T, ProtocolError>(value))
            },
        },
        _ => after == before,
    }
}

impl<T> BoundedJson<T> {
    /// Begins the reading of a file of at most `maximum_bytes` bytes, which must be some.
    pub fn read_bounded_json(shown: &str, maximum_bytes: u64) -> (started: ProtocolResult<
        BoundedJson<T>,
    >)
        ensures
            match started {
                Err(error) => maximum_bytes == 0 && error@ == (ProtocolFault {
                    code: "invalid_bound"@,
                    message: "JSON byte limit must be non-zero"@,
                }),
                Ok(reading) => {
                    &&& maximum_bytes > 0
                    &&& reading.consistent()
                    &&& reading.step == ReadStep::Inspect
                    &&& reading.shown@ == shown@
                    &&& reading.maximum == maximum_bytes
                },
            },
    {
        if maximum_bytes == 0 {
            return Err(ProtocolError::new("invalid_bound", "JSON byte limit must be non-zero"));
        }
        Ok(
            BoundedJson {
                step: ReadStep::Inspect,
                shown: shown.to_owned(),
                maximum: maximum_bytes,
                facts: FileFacts { regular: false, link: false, reparse_point: false, len: 0 },
                count: 0,
                outcome: None,
            },
        )
    }

    fn refuse(&mut self, error: ProtocolError)
        ensures
            refused(error@, *final(self)),
            final(self).consistent(),
    {
        self.step = ReadStep::Done;
        self.outcome = Some(Err(error));
    }

    /// Takes what came of the step.
    pub fn advance(&mut self, event: ReadEvent<T>)
        requires
            old(self).consistent(),
        ensures
            read(*old(self), event, *final(self)),
            final(self).consistent(),
    {
        match (self.step, event) {
            (ReadStep::Inspect, ReadEvent::Inspected(inspected)) => match inspected {
                Err(source) => {
                    let error = io_error("inspect ", self.shown.as_str(), source.as_str());
                    self.refuse(error);
                },
                Ok(facts) => match admit_bounded_file(self.shown.as_str(), &facts, self.maximum) {
                    Err(error) => self.refuse(error),
                    Ok(_) => {
                        self.facts = facts;
                        self.step = ReadStep::Open;
                    },
                },
            },
            (ReadStep::Open, ReadEvent::Opened(opened)) => match opened {
                Err(source) => {
                    let error = io_error("open ", self.shown.as_str(), source.as_str());
                    self.refuse(error);
                },
                Ok(_) => {
                    self.step = ReadStep::Read;
                },
            },
            (ReadStep::Read, ReadEvent::Read(read)) => match read {
                Err(source) => {
                    let error = io_error("read ", self.shown.as_str(), source.as_str());
                    self.refuse(error);
                },
                Ok(count) => match admit_bounded_bytes(
                    self.shown.as_str(),
                    &self.facts,
                    self.maximum,
                    count,
                ) {
                    Err(error) => self.refuse(error),
                    Ok(_) => {
                        self.count = count;
                        self.step = ReadStep::Parse;
                    },
                },
            },
            (ReadStep::Parse, ReadEvent::Parsed(parsed)) => match parsed {
                JsonOutcome::Malformed(source) => {
                    let message = text::cat4("parse ", self.shown.as_str(), ": ", source.as_str());
                    self.refuse(ProtocolError::new("invalid_json", message.as_str()));
                },
                JsonOutcome::TrailingData(source) => {
                    let message = text::cat4(
                        "reject trailing data in ",
                        self.shown.as_str(),
                        ": ",
                        source.as_str(),
                    );
                    self.refuse(ProtocolError::new("invalid_json", message.as_str()));
                },
                JsonOutcome::Value(value) => {
                    self.step = ReadStep::Done;
                    self.outcome = Some(Ok(value));
                },
            },
            _ => {},
        }
    }
}

// ---------------------------------------------------------------------------------------------
// Publishing
// ---------------------------------------------------------------------------------------------

/// What is to be done next.
#[derive(Clone, Copy, Debug, PartialEq, Eq, Structural)]
pub enum PublishStep {
    /// Create the temporary file, which must not exist.
    Create,
    /// Write the value to it as JSON, within the limit.
    Write,
    /// Flush it to the disk.
    Flush,
    /// Link it to the destination, which must not exist.
    Link,
    /// Remove it.
    Remove,
    Done,
}

/// The publication of a value as a protocol file.
#[derive(Debug)]
pub struct Publication {
    pub step: PublishStep,
    /// The destination, as messages show it.
    pub shown: String,
    /// The name of the temporary file beside the destination.
    pub temporary_name: String,
    /// The temporary file, as messages show it.
    pub temporary: String,
    pub maximum: u64,
    pub bound: BoundedWriter,
    /// The temporary file was created.
    pub created: bool,
    /// The temporary file is to be removed.
    pub discard: bool,
    pub outcome: Option<ProtocolResult<()>>,
}

impl Publication {
    pub open spec fn consistent(&self) -> bool {
        &&& self.bound.remaining <= self.maximum
        &&& self.created == (self.step != PublishStep::Create) || self.step == PublishStep::Done
        &&& if self.step == PublishStep::Done {
            &&& self.outcome matches Some(outcome)
            &&& self.discard == (self.created && outcome is Err)
            &&& outcome is Ok ==> self.created
        } else {
            self.outcome is None
        }
    }

    /// How many bytes were written.
    pub open spec fn written(&self) -> int {
        self.maximum - self.bound.remaining
    }
}

/// The publication ended with an error.
pub open spec fn failed(
    before: Publication,
    fault: ProtocolFault,
    after: Publication,
) -> bool {
    &&& after == (Publication {
        step: PublishStep::Done,
        discard: before.created,
        outcome: after.outcome,
        ..before
    })
    &&& after.outcome matches Some(Err(error)) && error@ == fault
}

/// The error of a step that failed.
pub open spec fn publish_fault(run: Publication, source: Seq<char>) -> ProtocolFault {
    match run.step {
        PublishStep::Create => io_fault("create "@, run.temporary@, source),
        PublishStep::Write => ProtocolFault {
            code: "protocol_json"@,
            message: "serialize "@ + run.shown@ + ": "@ + source,
        },
        PublishStep::Flush => io_fault("flush "@, run.temporary@, source),
        PublishStep::Link => ProtocolFault {
            code: "protocol_publish"@,
            message: "publish "@ + run.shown@ + " without replacement: "@ + source,
        },
        _ => ProtocolFault {
            code: "protocol_publish"@,
            message: "remove published temporary file: "@ + source,
        },
    }
}

pub open spec fn next_publish_step(step: PublishStep) -> PublishStep {
    match step {
        PublishStep::Create => PublishStep::Write,
        PublishStep::Write => PublishStep::Flush,
        PublishStep::Flush => PublishStep::Link,
        PublishStep::Link => PublishStep::Remove,
        _ => PublishStep::Done,
    }
}

/// What the outcome of a step makes of the publication.
pub open spec fn published(
    before: Publication,
    outcome: Result<(), String>,
    after: Publication,
) -> bool {
    if before.step == PublishStep::Done {
        after == before
    } else {
        match outcome {
            Err(source) => failed(before, publish_fault(before, source@), after),
            Ok(_) => if before.step == PublishStep::Remove {
                after == (Publication {
                    step: PublishStep::Done,
                    discard: false,
                    outcome: Some(Ok(())),
                    ..before
                })
            } else {
                after == (Publication {
                    step: next_publish_step(before.step),
                    created: true,
                    ..before
                })
            },
        }
    }
}

impl Publication {
    /// Begins the publication of a value under `path`. `name` is the shown file name of the path,
    /// where it has one; the process and the counter make the name of the temporary file unique.
    pub fn write_atomic_json_new(
        path: &HostPath,
        name: Option<&str>,
        maximum_bytes: u64,
        process: u32,
        counter: u64,
    ) -> (started: ProtocolResult<Publication>)
        ensures
            match (
                guest_protocol::temporary_verdict(path, name is Some, maximum_bytes),
                started,
            ) {
                (Err(fault), Err(error)) => error@ == fault,
                (Ok(_), Ok(run)) => {
                    &&& run.consistent()
                    &&& run.step == PublishStep::Create
                    &&& run.shown@ == path.shown@
                    &&& run.maximum == maximum_bytes
                    &&& run.written() == 0
                    &&& name matches Some(shown) && run.temporary_name@
                        == guest_protocol::temporary_name_text(
                        shown@,
                        process as nat,
                        counter as nat,
                    )
                    &&& run.temporary@ == host_path::joined_text(
                        path.style,
                        host_path::directory_text(path.style, path.shown@),
                        run.temporary_name@,
                    )
                },
                _ => false,
            },
    {
        match temporary_name(path, name, maximum_bytes, process, counter) {
            Err(error) => Err(error),
            Ok(hidden) => Ok(
                Publication {
                    step: PublishStep::Create,
                    shown: path.shown.as_str().to_owned(),
                    temporary: host_path::name_beside(path, hidden.as_str()),
                    temporary_name: hidden,
                    maximum: maximum_bytes,
                    bound: BoundedWriter::new(maximum_bytes),
                    created: false,
                    discard: false,
                    outcome: None,
                },
            ),
        }
    }

    /// Whether `len` more bytes may be written to the temporary file.
    pub fn admits(&self, len: u64) -> (yes: bool)
        requires
            self.consistent(),
        ensures
            yes == (self.written() + len <= self.maximum),
    {
        self.bound.admits(len)
    }

    /// Records that `len` bytes were written to the temporary file.
    pub fn record(&mut self, len: u64)
        requires
            old(self).consistent(),
            old(self).written() + len <= old(self).maximum,
        ensures
            final(self).consistent(),
            final(self).written() == old(self).written() + len,
            *final(self) == (Publication { bound: final(self).bound, ..*old(self) }),
    {
        self.bound.record(len);
    }

    fn failure(&self, source: &str) -> (error: ProtocolError)
        ensures
            error@ == publish_fault(*self, source@),
    {
        match self.step {
            PublishStep::Create => io_error("create ", self.temporary.as_str(), source),
            PublishStep::Write => {
                let message = text::cat4("serialize ", self.shown.as_str(), ": ", source);
                ProtocolError::new("protocol_json", message.as_str())
            },
            PublishStep::Flush => io_error("flush ", self.temporary.as_str(), source),
            PublishStep::Link => {
                let message = text::cat4(
                    "publish ",
                    self.shown.as_str(),
                    " without replacement: ",
                    source,
                );
                ProtocolError::new("protocol_publish", message.as_str())
            },
            _ => {
                let message = text::cat2("remove published temporary file: ", source);
                ProtocolError::new("protocol_publish", message.as_str())
            },
        }
    }

    /// Takes what came of the step.
    pub fn advance(&mut self, outcome: Result<(), String>)
        requires
            old(self).consistent(),
        ensures
            published(*old(self), outcome, *final(self)),
            final(self).consistent(),
    {
        match self.step {
            PublishStep::Done => {
                return;
            },
            _ => {},
        }
        match outcome {
            Err(source) => {
                let error = self.failure(source.as_str());
                self.step = PublishStep::Done;
                self.discard = self.created;
                self.outcome = Some(Err(error));
            },
            Ok(_) => match self.step {
                PublishStep::Create => {
                    self.created = true;
                    self.step = PublishStep::Write;
                },
                PublishStep::Write => {
                    self.step = PublishStep::Flush;
                },
                PublishStep::Flush => {
                    self.step = PublishStep::Link;
                },
                PublishStep::Link => {
                    self.step = PublishStep::Remove;
                },
                _ => {
                    self.step = PublishStep::Done;
                    self.discard = false;
                    self.outcome = Some(Ok(()));
                },
            },
        }
    }
}

// ---------------------------------------------------------------------------------------------
// Publishing into a directory
// ---------------------------------------------------------------------------------------------

/// What a host does to the files of a directory, by their names, for a step of a publication, and
/// what it answers. `filled` is the publication with the bytes recorded that the step wrote; `json`
/// is the text of the value, and `name` the name that it is published under.
pub open spec fn carried_out(
    name: Seq<char>,
    json: Seq<u8>,
    before: Publication,
    filled: Publication,
    answer: Result<(), String>,
    files: Map<Seq<char>, Seq<u8>>,
    later: Map<Seq<char>, Seq<u8>>,
) -> bool {
    let temporary = before.temporary_name@;
    &&& filled == (Publication { bound: filled.bound, ..before })
    &&& filled.consistent()
    &&& before.step != PublishStep::Write ==> filled == before
    &&& match before.step {
        PublishStep::Create => if answer is Ok {
            !files.contains_key(temporary) && later == files.insert(temporary, Seq::empty())
        } else {
            later == files
        },
        PublishStep::Write => if answer is Ok {
            filled.written() == before.written() + json.len() && later == files.insert(
                temporary,
                json,
            )
        } else {
            later.contains_key(temporary) && later == files.insert(temporary, later[temporary])
        },
        PublishStep::Link => if answer is Ok {
            !files.contains_key(name) && later == files.insert(name, files[temporary])
        } else {
            later == files
        },
        PublishStep::Remove => if answer is Ok {
            later == files.remove(temporary)
        } else {
            later == files
        },
        _ => later == files,
    }
}

/// A publication from its first step on, with what the directory holds after each of them.
pub struct PublicationTrace {
    pub runs: Seq<Publication>,
    pub filled: Seq<Publication>,
    pub answers: Seq<Result<(), String>>,
    pub files: Seq<Map<Seq<char>, Seq<u8>>>,
}

impl PublicationTrace {
    /// The trace begins with a fresh publication, and each step is carried out and taken in.
    pub open spec fn lawful(
        self,
        name: Seq<char>,
        json: Seq<u8>,
        process: nat,
        counter: nat,
    ) -> bool {
        &&& self.runs.len() > 0
        &&& self.filled.len() == self.runs.len() - 1
        &&& self.answers.len() == self.runs.len() - 1
        &&& self.files.len() == self.runs.len()
        &&& self.runs[0].step == PublishStep::Create
        &&& self.runs[0].consistent()
        &&& self.runs[0].written() == 0
        &&& self.runs[0].temporary_name@ == guest_protocol::temporary_name_text(
            name,
            process,
            counter,
        )
        &&& forall|i: int|
            0 <= i < self.answers.len() ==> carried_out(
                name,
                json,
                self.runs[i],
                #[trigger] self.filled[i],
                self.answers[i],
                self.files[i],
                self.files[i + 1],
            ) && published(self.filled[i], self.answers[i], self.runs[i + 1])
    }

    /// The directory once the temporary file was discarded where that is asked for.
    pub open spec fn settled(self) -> Map<Seq<char>, Seq<u8>> {
        if self.runs.last().discard {
            self.files.last().remove(self.runs[0].temporary_name@)
        } else {
            self.files.last()
        }
    }
}

/// What a directory that held `initial` holds at a step of a publication.
spec fn stands(
    initial: Map<Seq<char>, Seq<u8>>,
    name: Seq<char>,
    json: Seq<u8>,
    first: Publication,
    run: Publication,
    files: Map<Seq<char>, Seq<u8>>,
) -> bool {
    let temporary = first.temporary_name@;
    let prepared = initial.insert(temporary, json);
    let fits = json.len() <= first.maximum;
    &&& run.maximum == first.maximum
    &&& run.step != PublishStep::Done ==> run.temporary_name@ == temporary && run.consistent()
    &&& run.step != PublishStep::Create && run.step != PublishStep::Done ==> !initial.contains_key(
        temporary,
    )
    &&& match run.step {
        PublishStep::Create => files == initial && run.written() == 0,
        PublishStep::Write => files == initial.insert(temporary, Seq::empty()) && run.written() == 0,
        PublishStep::Flush => fits && files == prepared,
        PublishStep::Link => fits && files == prepared,
        PublishStep::Remove => fits && !initial.contains_key(name) && files == prepared.insert(
            name,
            json,
        ),
        PublishStep::Done => {
            let settled = if run.discard {
                files.remove(temporary)
            } else {
                files
            };
            let placed = fits && !initial.contains_key(name) && settled == initial.insert(name, json);
            match run.outcome {
                Some(Ok(_)) => placed && !run.discard,
                Some(Err(_)) => settled == initial || placed,
                None => false,
            }
        },
    }
}

proof fn lemma_stands_next(
    initial: Map<Seq<char>, Seq<u8>>,
    name: Seq<char>,
    json: Seq<u8>,
    first: Publication,
    before: Publication,
    filled: Publication,
    answer: Result<(), String>,
    after: Publication,
    files: Map<Seq<char>, Seq<u8>>,
    later: Map<Seq<char>, Seq<u8>>,
)
    requires
        first.temporary_name@ != name,
        stands(initial, name, json, first, before, files),
        carried_out(name, json, before, filled, answer, files, later),
        published(filled, answer, after),
    ensures
        stands(initial, name, json, first, after, later),
{
    let temporary = first.temporary_name@;
    let prepared = initial.insert(temporary, json);
    match before.step {
        PublishStep::Create => {},
        PublishStep::Write => {
            assert(initial.insert(temporary, Seq::empty()).insert(temporary, json) =~= prepared);
            if answer is Err {
                assert(later.remove(temporary) =~= initial);
            }
        },
        PublishStep::Flush => {
            assert(prepared.remove(temporary) =~= initial);
        },
        PublishStep::Link => {
            assert(prepared.remove(temporary) =~= initial);
            assert(prepared[temporary] == json);
        },
        PublishStep::Remove => {
            assert(prepared.insert(name, json).remove(temporary) =~= initial.insert(name, json));
        },
        PublishStep::Done => {},
    }
}

proof fn lemma_stands(
    trace: PublicationTrace,
    name: Seq<char>,
    json: Seq<u8>,
    process: nat,
    counter: nat,
    at: int,
)
    requires
        trace.lawful(name, json, process, counter),
        trace.runs[0].temporary_name@ != name,
        0 <= at < trace.runs.len(),
    ensures
        stands(trace.files[0], name, json, trace.runs[0], trace.runs[at], trace.files[at]),
    decreases at,
{
    if at > 0 {
        lemma_stands(trace, name, json, process, counter, at - 1);
        let filled = trace.filled[at - 1];
        lemma_stands_next(
            trace.files[0],
            name,
            json,
            trace.runs[0],
            trace.runs[at - 1],
            filled,
            trace.answers[at - 1],
            trace.runs[at],
            trace.files[at - 1],
            trace.files[at],
        );
    }
}

/// The name of a temporary file is longer than the name that it stands in for.
proof fn lemma_temporary_name(name: Seq<char>, process: nat, counter: nat)
    ensures
        guest_protocol::temporary_name_text(name, process, counter) != name,
{
    reveal_strlit(".");
    assert(guest_protocol::temporary_name_text(name, process, counter).len() > name.len());
}

// ---------------------------------------------------------------------------------------------
// Laws
// ---------------------------------------------------------------------------------------------

/// A value is only ever read from a regular file that is no link, that is within the limit and that
/// was read whole.
pub proof fn values_come_from_bounded_files<T>(reading: BoundedJson<T>, value: T)
    requires
        reading.consistent(),
        reading.outcome == Some(Ok::<T, ProtocolError>(value)),
    ensures
        reading.facts.regular,
        !reading.facts.link,
        !reading.facts.reparse_point,
        reading.facts.len <= reading.maximum,
        reading.count == reading.facts.len,
{
}

/// Nothing is published but what was written and flushed within the limit, and a temporary file
/// never stays: it was removed, or is to be.
pub proof fn publications_are_bounded_and_leave_nothing(run: Publication)
    requires
        run.consistent(),
        run.step == PublishStep::Done,
    ensures
        0 <= run.written() <= run.maximum,
        run.outcome matches Some(outcome) && (run.created ==> outcome is Ok || run.discard),
        run.outcome == Some(Ok::<(), ProtocolError>(())) ==> run.created && !run.discard,
{
}

/// A publication that succeeds puts the whole text of its value under its name, which was free, and
/// nothing else into the directory. One whose text exceeds the limit, or whose name is taken, fails
/// and leaves the directory as it was. However it ends, no temporary file stays.
pub proof fn publications_take_effect_once(
    trace: PublicationTrace,
    name: Seq<char>,
    json: Seq<u8>,
    process: nat,
    counter: nat,
)
    requires
        trace.lawful(name, json, process, counter),
        trace.runs.last().step == PublishStep::Done,
    ensures
        ({
            let initial = trace.files[0];
            let outcome = trace.runs.last().outcome;
            &&& outcome is Some
            &&& outcome->0 is Ok ==> {
                &&& !initial.contains_key(name)
                &&& json.len() <= trace.runs[0].maximum
                &&& trace.settled() == initial.insert(name, json)
            }
            &&& json.len() > trace.runs[0].maximum || initial.contains_key(name) ==> {
                &&& outcome->0 is Err
                &&& trace.settled() == initial
            }
            &&& trace.settled() == initial || trace.settled() == initial.insert(name, json)
        }),
{
    lemma_temporary_name(name, process, counter);
    lemma_stands(trace, name, json, process, counter, trace.runs.len() - 1);
}

/// A faithful account of the reading of a file that holds `bytes`: the file is a regular one, it can
/// be opened, and what is read is what it holds. `decode` is what the bytes are as JSON.
pub open spec fn truthful<T>(
    bytes: Seq<u8>,
    decode: spec_fn(Seq<u8>) -> JsonOutcome<T>,
    reading: BoundedJson<T>,
    event: ReadEvent<T>,
) -> bool {
    match (reading.step, event) {
        (ReadStep::Inspect, ReadEvent::Inspected(inspected)) => inspected matches Ok(facts)
            && facts.regular && !facts.link && !facts.reparse_point && facts.len == bytes.len(),
        (ReadStep::Open, ReadEvent::Opened(opened)) => opened is Ok,
        (ReadStep::Read, ReadEvent::Read(read)) => read matches Ok(count) && count == if bytes.len()
            <= reading.maximum {
            bytes.len()
        } else {
            (reading.maximum + 1) as nat
        },
        (ReadStep::Parse, ReadEvent::Parsed(parsed)) => parsed == decode(bytes),
        _ => false,
    }
}

/// What a publication put under its name is read back as the value, within any limit that its text
/// keeps to: `decode` reads the text `json` as `value`, and the file was not touched in between.
pub proof fn published_values_read_back<T>(
    trace: PublicationTrace,
    name: Seq<char>,
    json: Seq<u8>,
    process: nat,
    counter: nat,
    decode: spec_fn(Seq<u8>) -> JsonOutcome<T>,
    value: T,
    readings: Seq<BoundedJson<T>>,
    events: Seq<ReadEvent<T>>,
)
    requires
        trace.lawful(name, json, process, counter),
        trace.runs.last().outcome == Some(Ok::<(), ProtocolError>(())),
        trace.runs.last().step == PublishStep::Done,
        decode(json) == JsonOutcome::Value(value),
        readings.len() == 5,
        events.len() == 4,
        readings[0].step == ReadStep::Inspect,
        readings[0].maximum >= trace.runs[0].maximum,
        readings[0].maximum > 0,
        forall|i: int|
            0 <= i < 4 ==> truthful(
                trace.settled()[name],
                decode,
                readings[i],
                #[trigger] events[i],
            ) && read(readings[i], events[i], readings[i + 1]),
    ensures
        trace.settled().contains_key(name),
        readings[4].step == ReadStep::Done,
        readings[4].outcome == Some(Ok::<T, ProtocolError>(value)),
{
    publications_take_effect_once(trace, name, json, process, counter);
    let first = events[0];
    let second = events[1];
    let third = events[2];
    let fourth = events[3];
    assert(read(readings[0], first, readings[1]));
    assert(readings[1].step == ReadStep::Open);
    assert(read(readings[1], second, readings[2]));
    assert(readings[2].step == ReadStep::Read);
    assert(read(readings[2], third, readings[3]));
    assert(readings[3].step == ReadStep::Parse);
    assert(read(readings[3], fourth, readings[4]));
}

/// A second publication under a name fails, whatever its value and its limit, and leaves what the
/// first one put there.
pub proof fn published_files_are_never_replaced(
    first: PublicationTrace,
    second: PublicationTrace,
    name: Seq<char>,
    json: Seq<u8>,
    other: Seq<u8>,
    process: nat,
    counter: nat,
    later: nat,
)
    requires
        first.lawful(name, json, process, counter),
        first.runs.last().step == PublishStep::Done,
        first.runs.last().outcome == Some(Ok::<(), ProtocolError>(())),
        second.lawful(name, other, process, later),
        second.runs.last().step == PublishStep::Done,
        second.files[0] == first.settled(),
    ensures
        second.runs.last().outcome matches Some(Err(_)),
        second.settled() == first.settled(),
        second.settled().contains_key(name),
        second.settled()[name] == json,
{
    publications_take_effect_once(first, name, json, process, counter);
    publications_take_effect_once(second, name, other, process, later);
}

/// How a value is published: it is written to a new temporary file, flushed, linked under its name and
/// the temporary name is removed. Whatever fails ends the publication with an error, and a temporary
/// file that was made is removed.
pub proof fn publications_go_in_order(
    before: Publication,
    outcome: Result<(), String>,
    after: Publication,
)
    requires
        before.consistent(),
        published(before, outcome, after),
    ensures
        outcome is Ok ==> {
            &&& before.step is Create ==> after.step is Write && after.created
            &&& before.step is Write ==> after.step is Flush
            &&& before.step is Flush ==> after.step is Link
            &&& before.step is Link ==> after.step is Remove
            &&& before.step is Remove ==> after.step is Done && after.outcome is Some
                && after.outcome->0 is Ok && !after.discard
        },
        outcome is Err && !(before.step is Done) ==> {
            &&& after.step is Done
            &&& after.outcome is Some && after.outcome->0 is Err
            &&& after.discard <==> !(before.step is Create)
        },
{
}

/// How a value is read: its file is looked at, opened, read and parsed, and the value is what was parsed.
pub proof fn readings_go_in_order<T>(
    before: BoundedJson<T>,
    event: ReadEvent<T>,
    after: BoundedJson<T>,
)
    requires
        before.consistent(),
        read(before, event, after),
    ensures
        before.step is Inspect && event is Inspected ==> {
            let inspected = event->Inspected_0;
            &&& after.step is Open <==> inspected is Ok && guest_protocol::bounded_file_verdict(
                before.shown@,
                inspected->Ok_0,
                before.maximum,
            ) is Ok
            &&& after.step is Open ==> after.facts == inspected->Ok_0
        },
        before.step is Open && event is Opened ==> (after.step is Read <==> event->Opened_0 is Ok),
        before.step is Read && event is Read ==> (after.step is Parse <==> event->Read_0 is Ok
            && guest_protocol::bounded_bytes_verdict(
            before.shown@,
            before.facts,
            before.maximum,
            event->Read_0->Ok_0,
        ) is Ok),
        before.step is Parse && event is Parsed ==> {
            &&& after.step is Done && after.outcome is Some
            &&& after.outcome->0 is Ok <==> event->Parsed_0 is Value
            &&& after.outcome->0 is Ok ==> after.outcome->0->Ok_0 == event->Parsed_0->Value_0
            &&& after.outcome->0 is Err ==> after.outcome->0->Err_0@.code == "invalid_json"@
        },
        !(before.step is Done) && !(before.step is Parse) && after.step is Done ==> after.outcome is Some
            && after.outcome->0 is Err,
{
}

} // verus!
