//! The files of a cleanup journal: each generation is written to a file of its own, and the latest
//! one that can be recovered is found again among the entries of a run directory.

use vstd::prelude::*;

use crate::backend;
use crate::backend::{SandboxError, SandboxResult};
use crate::host_path::HostPath;
use crate::hyperv::cleanup;
use crate::hyperv::journal;
use crate::hyperv::journal::{
    check_journal_len, journal_sequence_from_name, CleanupJournal, JournalSearch,
    MAX_JOURNAL_BYTES, MAX_JOURNAL_SEQUENCE, MAX_OTHER_ENTRIES,
};
use crate::text;

verus! {

pub open spec fn journal_fault(message: Seq<char>, source: Seq<char>) -> backend::Fault {
    backend::fault_from("hyperv_cleanup_journal"@, message, source)
}

fn journal_error(message: &str, source: &str) -> (error: SandboxError)
    ensures
        error@ == journal_fault(message@, source@),
{
    SandboxError::with_source("hyperv_cleanup_journal", message, source)
}

// ---------------------------------------------------------------------------------------------
// Writing a generation
// ---------------------------------------------------------------------------------------------

/// What is to be done next.
#[derive(Clone, Copy, Debug, PartialEq, Eq, Structural)]
pub enum GenerationStep {
    /// Write the journal as JSON text.
    Serialize,
    /// Create the file of the generation, which must not exist.
    Create,
    /// Write the text.
    Write,
    /// End the text with a line feed.
    Terminate,
    /// Wait until the file is on the disk.
    Store,
    Done,
}

/// What came of a step. A serialization tells how long the text is.
#[derive(Debug)]
pub enum GenerationEvent {
    Serialized(Result<u64, String>),
    Settled(Result<(), String>),
}

/// The writing of one generation of a journal.
#[derive(Debug)]
pub struct GenerationWriting {
    pub step: GenerationStep,
    pub len: u64,
    pub outcome: Option<SandboxResult<()>>,
}

impl GenerationWriting {
    pub open spec fn consistent(&self) -> bool {
        &&& (self.step == GenerationStep::Done) == (self.outcome is Some)
        &&& self.step == GenerationStep::Serialize || self.len <= MAX_JOURNAL_BYTES
            || self.outcome matches Some(Err(_))
    }
}

/// The writing ended with an error.
pub open spec fn unwritten(fault: backend::Fault, after: GenerationWriting) -> bool {
    &&& after.step == GenerationStep::Done
    &&& after.outcome matches Some(Err(error)) && error@ == fault
}

pub open spec fn generation_settled(
    before: GenerationWriting,
    settled: Result<(), String>,
    message: Seq<char>,
    step: GenerationStep,
    after: GenerationWriting,
) -> bool {
    match settled {
        Err(source) => unwritten(journal_fault(message, source@), after),
        Ok(_) => after == (GenerationWriting { step, ..before }),
    }
}

/// What one event makes of the writing. An event that is no answer to the step changes nothing.
pub open spec fn generation_written(
    before: GenerationWriting,
    event: GenerationEvent,
    after: GenerationWriting,
) -> bool {
    match (before.step, event) {
        (GenerationStep::Serialize, GenerationEvent::Serialized(serialized)) => match serialized {
            Err(source) => unwritten(journal_fault("serialize cleanup journal"@, source@), after),
            Ok(len) => if len > MAX_JOURNAL_BYTES {
                unwritten(
                    backend::fault(
                        "hyperv_cleanup_journal"@,
                        "cleanup journal exceeds its size limit"@,
                    ),
                    after,
                )
            } else {
                after == (GenerationWriting { step: GenerationStep::Create, len, ..before })
            },
        },
        (GenerationStep::Create, GenerationEvent::Settled(settled)) => generation_settled(
            before,
            settled,
            "create an append-only cleanup journal generation"@,
            GenerationStep::Write,
            after,
        ),
        (GenerationStep::Write, GenerationEvent::Settled(settled)) => generation_settled(
            before,
            settled,
            "write cleanup journal"@,
            GenerationStep::Terminate,
            after,
        ),
        (GenerationStep::Terminate, GenerationEvent::Settled(settled)) => generation_settled(
            before,
            settled,
            "terminate cleanup journal"@,
            GenerationStep::Store,
            after,
        ),
        (GenerationStep::Store, GenerationEvent::Settled(settled)) => match settled {
            Err(source) => unwritten(
                journal_fault("durably flush cleanup journal"@, source@),
                after,
            ),
            Ok(_) => after == (GenerationWriting {
                step: GenerationStep::Done,
                outcome: Some(Ok(())),
                ..before
            }),
        },
        _ => after == before,
    }
}

impl GenerationWriting {
    pub fn new() -> (run: GenerationWriting)
        ensures
            run.consistent(),
            run.step == GenerationStep::Serialize,
    {
        GenerationWriting { step: GenerationStep::Serialize, len: 0, outcome: None }
    }

    fn end(&mut self, error: SandboxError)
        ensures
            unwritten(error@, *final(self)),
            final(self).consistent(),
    {
        self.step = GenerationStep::Done;
        self.outcome = Some(Err(error));
    }

    fn settle(&mut self, settled: Result<(), String>, message: &str, step: GenerationStep)
        requires
            old(self).consistent(),
            old(self).step != GenerationStep::Serialize,
            old(self).step != GenerationStep::Done,
            step != GenerationStep::Done,
        ensures
            generation_settled(*old(self), settled, message@, step, *final(self)),
            final(self).consistent(),
    {
        match settled {
            Err(source) => self.end(journal_error(message, source.as_str())),
            Ok(_) => {
                self.step = step;
            },
        }
    }

    /// Takes what came of the step.
    pub fn advance(&mut self, event: GenerationEvent)
        requires
            old(self).consistent(),
        ensures
            generation_written(*old(self), event, *final(self)),
            final(self).consistent(),
    {
        match (self.step, event) {
            (GenerationStep::Serialize, GenerationEvent::Serialized(serialized)) => match serialized {
                Err(source) => {
                    self.end(journal_error("serialize cleanup journal", source.as_str()));
                },
                Ok(len) => match check_journal_len(len) {
                    Err(error) => self.end(error),
                    Ok(_) => {
                        self.len = len;
                        self.step = GenerationStep::Create;
                    },
                },
            },
            (GenerationStep::Create, GenerationEvent::Settled(settled)) => {
                self.settle(
                    settled,
                    "create an append-only cleanup journal generation",
                    GenerationStep::Write,
                );
            },
            (GenerationStep::Write, GenerationEvent::Settled(settled)) => {
                self.settle(settled, "write cleanup journal", GenerationStep::Terminate);
            },
            (GenerationStep::Terminate, GenerationEvent::Settled(settled)) => {
                self.settle(settled, "terminate cleanup journal", GenerationStep::Store);
            },
            (GenerationStep::Store, GenerationEvent::Settled(settled)) => match settled {
                Err(source) => {
                    self.end(journal_error("durably flush cleanup journal", source.as_str()));
                },
                Ok(_) => {
                    self.step = GenerationStep::Done;
                    self.outcome = Some(Ok(()));
                },
            },
            _ => {},
        }
    }
}

// ---------------------------------------------------------------------------------------------
// Finding the latest generation
// ---------------------------------------------------------------------------------------------

/// What is to be done next.
#[derive(Clone, Copy, Debug, PartialEq, Eq, Structural)]
pub enum ScanStep {
    /// Hold the directory, so that it cannot be replaced.
    Pin,
    /// Begin to list the directory.
    Enumerate,
    /// Take the next entry of the directory.
    Next,
    /// Open the entry as a regular file, without following a link.
    Open,
    /// Query the length of the file.
    Inspect,
    /// Read at most one byte more than a generation may have.
    Read,
    /// Read the bytes as a journal.
    Decode,
    Done,
}

/// An entry of the directory: its name, where it is Unicode.
#[derive(Clone, Debug, PartialEq, Eq)]
pub struct ScannedEntry {
    pub name: Option<String>,
}

/// What came of a step. A file that cannot be opened safely, or that holds no journal, is passed
/// over; a read tells how many bytes there were.
#[derive(Debug)]
pub enum ScanEvent {
    Settled(Result<(), String>),
    Entry(Result<Option<ScannedEntry>, String>),
    Opened(bool),
    Inspected(Result<u64, String>),
    Read(Result<u64, String>),
    Decoded(Option<CleanupJournal>),
}

/// The search for the latest generation that can be recovered.
pub struct JournalScan {
    pub step: ScanStep,
    pub run_root: HostPath,
    pub program_data: Option<HostPath>,
    pub search: JournalSearch,
    /// The number that the name of the entry denotes.
    pub sequence: u64,
    /// How long the file of the entry is.
    pub len: u64,
    /// The journals that were read, with the numbers that their names denote.
    pub seen: Ghost<Seq<(u64, CleanupJournal)>>,
    pub outcome: Option<SandboxResult<Option<CleanupJournal>>>,
}

impl JournalScan {
    /// The journal that was read can be recovered.
    pub open spec fn recovers(&self, found: (u64, CleanupJournal)) -> bool {
        journal::recoverable(
            found.1@,
            found.0,
            &self.run_root,
            cleanup::held(&self.program_data),
        )
    }

    /// The latest of the journals that were read and can be recovered.
    pub open spec fn is_latest(&self, latest: Option<CleanupJournal>) -> bool {
        match latest {
            None => forall|i: int|
                0 <= i < self.seen@.len() ==> !self.recovers(#[trigger] self.seen@[i]),
            Some(journal) => {
                &&& exists|i: int|
                    0 <= i < self.seen@.len() && (#[trigger] self.seen@[i]).1 == journal
                        && self.recovers(self.seen@[i])
                &&& forall|i: int|
                    0 <= i < self.seen@.len() && self.recovers(#[trigger] self.seen@[i])
                        ==> self.seen@[i].1.sequence <= journal.sequence
            },
        }
    }

    pub open spec fn consistent(&self) -> bool {
        if self.step == ScanStep::Done {
            self.outcome matches Some(outcome) && (outcome matches Ok(latest) ==> self.is_latest(
                latest,
            ))
        } else {
            &&& self.outcome is None
            &&& self.search.entries <= MAX_JOURNAL_SEQUENCE + MAX_OTHER_ENTRIES
            &&& self.is_latest(self.search.latest)
        }
    }
}

/// The search ended with an error.
pub open spec fn unscanned(fault: backend::Fault, after: JournalScan) -> bool {
    &&& after.step == ScanStep::Done
    &&& after.outcome matches Some(Err(error)) && error@ == fault
}

pub open spec fn scan_settled(
    before: JournalScan,
    settled: Result<(), String>,
    message: Seq<char>,
    step: ScanStep,
    after: JournalScan,
) -> bool {
    match settled {
        Err(source) => unscanned(journal_fault(message, source@), after),
        Ok(_) => after == (JournalScan { step, ..before }),
    }
}

pub open spec fn entry_taken(
    before: JournalScan,
    entry: Result<Option<ScannedEntry>, String>,
    after: JournalScan,
) -> bool {
    match entry {
        Err(source) => unscanned(journal_fault("read cleanup journal entry"@, source@), after),
        Ok(None) => {
            &&& after.step == ScanStep::Done
            &&& after.seen == before.seen
            &&& after.run_root == before.run_root
            &&& after.program_data == before.program_data
            &&& after.outcome == Some(
                Ok::<Option<CleanupJournal>, SandboxError>(before.search.latest),
            )
        },
        Ok(Some(found)) => if before.search.entries + 1 > MAX_JOURNAL_SEQUENCE + MAX_OTHER_ENTRIES {
            unscanned(
                backend::fault(
                    "hyperv_cleanup_journal"@,
                    "cleanup run directory contains too many entries"@,
                ),
                after,
            )
        } else {
            let search = JournalSearch {
                entries: (before.search.entries + 1) as u64,
                latest: before.search.latest,
            };
            let sequence = match found.name {
                Some(name) => journal::sequence_of_name(name@),
                None => None,
            };
            match sequence {
                Some(number) => {
                    &&& after.sequence == number
                    &&& after == (JournalScan {
                        step: ScanStep::Open,
                        search,
                        sequence: after.sequence,
                        ..before
                    })
                },
                None => after == (JournalScan { search, ..before }),
            }
        },
    }
}

/// The entry is passed over.
pub open spec fn passed_over(before: JournalScan, after: JournalScan) -> bool {
    after == (JournalScan { step: ScanStep::Next, ..before })
}

pub open spec fn journal_decoded(
    before: JournalScan,
    decoded: Option<CleanupJournal>,
    after: JournalScan,
) -> bool {
    match decoded {
        None => passed_over(before, after),
        Some(candidate) => {
            let found = (before.sequence, candidate);
            &&& after.seen@ == before.seen@.push(found)
            &&& after.search.entries == before.search.entries
            &&& after.search.latest == if before.recovers(found) && (before.search.latest matches
                Some(current) ==> candidate.sequence > current.sequence) {
                Some(candidate)
            } else {
                before.search.latest
            }
            &&& after == (JournalScan {
                step: ScanStep::Next,
                search: after.search,
                seen: after.seen,
                ..before
            })
        },
    }
}

/// What one event makes of the search. An event that is no answer to the step changes nothing.
pub open spec fn scanned(before: JournalScan, event: ScanEvent, after: JournalScan) -> bool {
    match (before.step, event) {
        (ScanStep::Pin, ScanEvent::Settled(settled)) => scan_settled(
            before,
            settled,
            "pin cleanup recovery directory without following reparse points"@,
            ScanStep::Enumerate,
            after,
        ),
        (ScanStep::Enumerate, ScanEvent::Settled(settled)) => scan_settled(
            before,
            settled,
            "enumerate cleanup journals"@,
            ScanStep::Next,
            after,
        ),
        (ScanStep::Next, ScanEvent::Entry(entry)) => entry_taken(before, entry, after),
        (ScanStep::Open, ScanEvent::Opened(opened)) => if opened {
            after == (JournalScan { step: ScanStep::Inspect, ..before })
        } else {
            passed_over(before, after)
        },
        (ScanStep::Inspect, ScanEvent::Inspected(inspected)) => match inspected {
            Err(source) => unscanned(journal_fault("inspect cleanup journal"@, source@), after),
            Ok(len) => if 0 < len <= MAX_JOURNAL_BYTES {
                after == (JournalScan { step: ScanStep::Read, len, ..before })
            } else {
                passed_over(before, after)
            },
        },
        (ScanStep::Read, ScanEvent::Read(read)) => match read {
            Err(source) => unscanned(
                journal_fault("read cleanup journal generation"@, source@),
                after,
            ),
            Ok(count) => if count == before.len {
                after == (JournalScan { step: ScanStep::Decode, ..before })
            } else {
                passed_over(before, after)
            },
        },
        (ScanStep::Decode, ScanEvent::Decoded(decoded)) => journal_decoded(before, decoded, after),
        _ => after == before,
    }
}

impl JournalScan {
    /// Begins the search in a run directory.
    pub fn latest_journal(run_root: &HostPath, program_data: Option<HostPath>) -> (started:
        SandboxResult<JournalScan>)
        ensures
            match (run_root.local_fault, started) {
                (Some(source), Err(error)) => error@ == journal_fault(
                    "cleanup recovery root must be an absolute local path"@,
                    source@,
                ),
                (None, Ok(run)) => {
                    &&& run.consistent()
                    &&& run.step == ScanStep::Pin
                    &&& run.run_root.copies(run_root)
                    &&& run.program_data == program_data
                    &&& run.search.entries == 0
                    &&& run.search.latest is None
                    &&& run.seen@.len() == 0
                    &&& run.outcome is None
                },
                _ => false,
            },
    {
        match JournalSearch::new(run_root) {
            Err(error) => Err(error),
            Ok(search) => Ok(
                JournalScan {
                    step: ScanStep::Pin,
                    run_root: run_root.duplicate(),
                    program_data,
                    search,
                    sequence: 0,
                    len: 0,
                    seen: Ghost(Seq::empty()),
                    outcome: None,
                },
            ),
        }
    }

    fn end(&mut self, error: SandboxError)
        ensures
            unscanned(error@, *final(self)),
            final(self).consistent(),
    {
        self.step = ScanStep::Done;
        self.outcome = Some(Err(error));
    }

    fn settle(&mut self, settled: Result<(), String>, message: &str, step: ScanStep)
        requires
            old(self).consistent(),
            old(self).step != ScanStep::Done,
            step != ScanStep::Done,
        ensures
            scan_settled(*old(self), settled, message@, step, *final(self)),
            final(self).consistent(),
    {
        match settled {
            Err(source) => self.end(journal_error(message, source.as_str())),
            Ok(_) => {
                self.step = step;
            },
        }
    }

    fn take_entry(&mut self, entry: Result<Option<ScannedEntry>, String>)
        requires
            old(self).consistent(),
            old(self).step == ScanStep::Next,
        ensures
            entry_taken(*old(self), entry, *final(self)),
            final(self).consistent(),
    {
        let found = match entry {
            Err(source) => {
                self.end(journal_error("read cleanup journal entry", source.as_str()));
                return;
            },
            Ok(None) => {
                let mut latest: Option<CleanupJournal> = None;
                std::mem::swap(&mut latest, &mut self.search.latest);
                self.step = ScanStep::Done;
                self.outcome = Some(Ok(latest));
                return;
            },
            Ok(Some(found)) => found,
        };
        match self.search.count_entry() {
            Err(error) => {
                self.end(error);
                return;
            },
            Ok(_) => {},
        }
        match found.name {
            None => {},
            Some(name) => match journal_sequence_from_name(name.as_str()) {
                None => {},
                Some(sequence) => {
                    self.sequence = sequence;
                    self.step = ScanStep::Open;
                },
            },
        }
    }

    fn decode(&mut self, decoded: Option<CleanupJournal>)
        requires
            old(self).consistent(),
            old(self).step == ScanStep::Decode,
        ensures
            journal_decoded(*old(self), decoded, *final(self)),
            final(self).consistent(),
    {
        match decoded {
            None => {},
            Some(candidate) => {
                let ghost before = *self;
                let ghost found = (self.sequence, candidate);
                let program_data = match &self.program_data {
                    Some(path) => Some(path),
                    None => None,
                };
                self.search.consider(candidate, self.sequence, &self.run_root, program_data);
                self.seen = Ghost(before.seen@.push(found));
                proof {
                    lemma_later_journal(before, found, *self);
                }
            },
        }
        self.step = ScanStep::Next;
    }

    /// Takes what came of the step.
    pub fn advance(&mut self, event: ScanEvent)
        requires
            old(self).consistent(),
        ensures
            scanned(*old(self), event, *final(self)),
            final(self).consistent(),
    {
        match (self.step, event) {
            (ScanStep::Pin, ScanEvent::Settled(settled)) => {
                self.settle(
                    settled,
                    "pin cleanup recovery directory without following reparse points",
                    ScanStep::Enumerate,
                );
            },
            (ScanStep::Enumerate, ScanEvent::Settled(settled)) => {
                self.settle(settled, "enumerate cleanup journals", ScanStep::Next);
            },
            (ScanStep::Next, ScanEvent::Entry(entry)) => self.take_entry(entry),
            (ScanStep::Open, ScanEvent::Opened(opened)) => {
                self.step = if opened {
                    ScanStep::Inspect
                } else {
                    ScanStep::Next
                };
            },
            (ScanStep::Inspect, ScanEvent::Inspected(inspected)) => match inspected {
                Err(source) => {
                    self.end(journal_error("inspect cleanup journal", source.as_str()));
                },
                Ok(len) => {
                    if JournalSearch::admits_len(len) {
                        self.len = len;
                        self.step = ScanStep::Read;
                    } else {
                        self.step = ScanStep::Next;
                    }
                },
            },
            (ScanStep::Read, ScanEvent::Read(read)) => match read {
                Err(source) => {
                    self.end(journal_error("read cleanup journal generation", source.as_str()));
                },
                Ok(count) => {
                    self.step = if count == self.len {
                        ScanStep::Decode
                    } else {
                        ScanStep::Next
                    };
                },
            },
            (ScanStep::Decode, ScanEvent::Decoded(decoded)) => self.decode(decoded),
            _ => {},
        }
    }
}

/// The latest of the journals stays the latest with one more of them.
proof fn lemma_later_journal(before: JournalScan, found: (u64, CleanupJournal), after: JournalScan)
    requires
        before.is_latest(before.search.latest),
        after.seen@ == before.seen@.push(found),
        after.run_root == before.run_root,
        after.program_data == before.program_data,
        after.search.latest == if before.recovers(found) && (before.search.latest matches Some(
            current,
        ) ==> found.1.sequence > current.sequence) {
            Some(found.1)
        } else {
            before.search.latest
        },
    ensures
        after.is_latest(after.search.latest),
{
    let count = before.seen@.len() as int;
    assert(after.seen@[count] == found);
    assert(forall|i: int| 0 <= i < count ==> #[trigger] after.seen@[i] == before.seen@[i]);
    match before.search.latest {
        None => {},
        Some(journal) => {
            let i = choose|i: int|
                0 <= i < before.seen@.len() && (#[trigger] before.seen@[i]).1 == journal
                    && before.recovers(before.seen@[i]);
            assert(after.seen@[i] == before.seen@[i]);
        },
    }
}

// ---------------------------------------------------------------------------------------------
// The search in a directory
// ---------------------------------------------------------------------------------------------

/// An entry of a run directory: its name where it is Unicode, whether it is a regular file that can
/// be opened safely, how long that is, and the journal that it holds, where it holds one.
pub struct StoredEntry {
    pub name: Option<Seq<char>>,
    pub opens: bool,
    pub len: u64,
    pub journal: Option<CleanupJournal>,
}

impl StoredEntry {
    /// The generation that the name denotes.
    pub open spec fn number(self) -> Option<nat> {
        match self.name {
            Some(name) => journal::sequence_of_name(name),
            None => None,
        }
    }

    /// The entry is a generation that can be recovered in `run_root`.
    pub open spec fn recoverable(self, run_root: &HostPath, program_data: Option<&HostPath>) -> bool {
        &&& self.opens
        &&& 0 < self.len <= MAX_JOURNAL_BYTES
        &&& self.number() matches Some(number) && self.journal matches Some(held)
            && journal::recoverable(held@, number as u64, run_root, program_data)
    }
}

/// What a host reports of the directory at a step of the search; entries come in the order of
/// `directory`.
pub open spec fn reported(directory: Seq<StoredEntry>, run: JournalScan, event: ScanEvent) -> bool {
    let taken = run.search.entries as int;
    let current = directory[taken - 1];
    match (run.step, event) {
        (ScanStep::Pin, ScanEvent::Settled(settled)) => settled is Ok,
        (ScanStep::Enumerate, ScanEvent::Settled(settled)) => settled is Ok,
        (ScanStep::Next, ScanEvent::Entry(entry)) => if taken < directory.len() {
            entry matches Ok(Some(found)) && text::view_option(found.name) == directory[taken].name
        } else {
            entry matches Ok(None)
        },
        (ScanStep::Open, ScanEvent::Opened(opened)) => opened == current.opens,
        (ScanStep::Inspect, ScanEvent::Inspected(inspected)) => inspected == Ok::<u64, String>(
            current.len,
        ),
        (ScanStep::Read, ScanEvent::Read(read)) => read == Ok::<u64, String>(current.len),
        (ScanStep::Decode, ScanEvent::Decoded(decoded)) => decoded == current.journal,
        (ScanStep::Done, _) => true,
        _ => false,
    }
}

/// A search through `directory` from its first step on.
pub open spec fn searched(
    directory: Seq<StoredEntry>,
    runs: Seq<JournalScan>,
    events: Seq<ScanEvent>,
) -> bool {
    &&& runs.len() > 0
    &&& events.len() == runs.len() - 1
    &&& runs[0].step == ScanStep::Pin
    &&& runs[0].consistent()
    &&& runs[0].search.entries == 0
    &&& runs[0].seen@.len() == 0
    &&& forall|i: int|
        0 <= i < events.len() ==> reported(directory, runs[i], #[trigger] events[i]) && scanned(
            runs[i],
            events[i],
            runs[i + 1],
        )
}

/// Where the search for the generation at `place` stands.
spec fn searching(
    directory: Seq<StoredEntry>,
    place: int,
    first: JournalScan,
    run: JournalScan,
) -> bool {
    let kept = directory[place].journal->0;
    let taken = run.search.entries as int;
    let current = directory[taken - 1];
    let in_entry = run.step == ScanStep::Open || run.step == ScanStep::Inspect || run.step
        == ScanStep::Read || run.step == ScanStep::Decode;
    let passed = if in_entry {
        taken - 1
    } else {
        taken
    };
    if run.step == ScanStep::Done {
        run.outcome == Some(Ok::<Option<CleanupJournal>, SandboxError>(Some(kept)))
    } else {
        &&& run.run_root == first.run_root
        &&& run.program_data == first.program_data
        &&& 0 <= taken <= directory.len()
        &&& run.step == ScanStep::Pin || run.step == ScanStep::Enumerate ==> taken == 0
        &&& in_entry ==> taken >= 1 && current.number() == Some(run.sequence as nat)
        &&& in_entry && run.step != ScanStep::Open ==> current.opens
        &&& run.step == ScanStep::Read || run.step == ScanStep::Decode ==> 0 < current.len
            <= MAX_JOURNAL_BYTES && run.len == current.len
        &&& if place < passed {
            run.search.latest == Some(kept)
        } else {
            run.search.latest matches Some(found) ==> found.sequence < kept.sequence
        }
    }
}

proof fn lemma_searching_next(
    directory: Seq<StoredEntry>,
    place: int,
    first: JournalScan,
    before: JournalScan,
    event: ScanEvent,
    after: JournalScan,
)
    requires
        directory.len() <= MAX_JOURNAL_SEQUENCE + MAX_OTHER_ENTRIES,
        0 <= place < directory.len(),
        directory[place].recoverable(&first.run_root, cleanup::held(&first.program_data)),
        forall|i: int|
            0 <= i < directory.len() && i != place && (#[trigger] directory[i]).recoverable(
                &first.run_root,
                cleanup::held(&first.program_data),
            ) ==> directory[i].journal->0.sequence < directory[place].journal->0.sequence,
        searching(directory, place, first, before),
        reported(directory, before, event),
        scanned(before, event, after),
    ensures
        searching(directory, place, first, after),
{
    let taken = before.search.entries as int;
    let current = directory[taken - 1];
    match before.step {
        ScanStep::Next => {
            if taken < directory.len() {
                assert(directory[taken].number() matches Some(number) ==> number <= u64::MAX);
            }
        },
        ScanStep::Decode => {
            if let Some(candidate) = current.journal {
                let found = (before.sequence, candidate);
                assert(current.recoverable(&first.run_root, cleanup::held(&first.program_data))
                    == before.recovers(found));
                assert(current == directory[taken - 1]);
            }
        },
        _ => {},
    }
}

proof fn lemma_searching(
    directory: Seq<StoredEntry>,
    place: int,
    runs: Seq<JournalScan>,
    events: Seq<ScanEvent>,
    at: int,
)
    requires
        directory.len() <= MAX_JOURNAL_SEQUENCE + MAX_OTHER_ENTRIES,
        0 <= place < directory.len(),
        directory[place].recoverable(&runs[0].run_root, cleanup::held(&runs[0].program_data)),
        forall|i: int|
            0 <= i < directory.len() && i != place && (#[trigger] directory[i]).recoverable(
                &runs[0].run_root,
                cleanup::held(&runs[0].program_data),
            ) ==> directory[i].journal->0.sequence < directory[place].journal->0.sequence,
        searched(directory, runs, events),
        0 <= at < runs.len(),
    ensures
        searching(directory, place, runs[0], runs[at]),
    decreases at,
{
    if at > 0 {
        lemma_searching(directory, place, runs, events, at - 1);
        let event = events[at - 1];
        lemma_searching_next(directory, place, runs[0], runs[at - 1], event, runs[at]);
    }
}

// ---------------------------------------------------------------------------------------------
// Laws
// ---------------------------------------------------------------------------------------------

/// What is recovered is the latest of the journals in the directory that are stored under their own
/// number, bound to that directory and valid; truncated and foreign ones never hide it.
pub proof fn the_latest_recoverable_journal_is_found(
    run: JournalScan,
    latest: Option<CleanupJournal>,
    other: int,
)
    requires
        run.consistent(),
        run.outcome == Some(Ok::<Option<CleanupJournal>, SandboxError>(latest)),
        0 <= other < run.seen@.len(),
        run.recovers(run.seen@[other]),
    ensures
        latest matches Some(journal) && run.seen@[other].1.sequence <= journal.sequence,
{
}

/// A journal that is recovered is bound to the directory that it was found in, and valid.
pub proof fn recovered_journals_are_valid(run: JournalScan, journal: CleanupJournal)
    requires
        run.consistent(),
        run.outcome == Some(Ok::<Option<CleanupJournal>, SandboxError>(Some(journal))),
    ensures
        journal@.run_root.same(&run.run_root),
        journal@.verdict(cleanup::held(&run.program_data)) is Ok,
{
}

/// A generation that was persisted is given back as it was by a search in its directory, wherever it
/// stands among the entries: earlier generations do not come before it, and later files that are
/// truncated, malformed, linked, invalid or bound to another directory neither fail the search nor
/// hide it. The text of the generation is followed by a line feed in its file, so it has to be
/// shorter than the longest file that is read.
pub proof fn persisted_generations_are_found_again(
    before: CleanupJournal,
    writing: GenerationWriting,
    directory: Seq<StoredEntry>,
    place: int,
    runs: Seq<JournalScan>,
    events: Seq<ScanEvent>,
)
    requires
        searched(directory, runs, events),
        runs.last().step == ScanStep::Done,
        runs[0].run_root.copies(&before.run_root),
        before@.persist_fault(cleanup::held(&runs[0].program_data)) is None,
        writing.consistent(),
        writing.outcome == Some(Ok::<(), SandboxError>(())),
        writing.len < MAX_JOURNAL_BYTES,
        directory.len() <= MAX_JOURNAL_SEQUENCE + MAX_OTHER_ENTRIES,
        0 <= place < directory.len(),
        directory[place] == (StoredEntry {
            name: Some(journal::journal_name(before.bumped().sequence as nat)),
            opens: true,
            len: (writing.len + 1) as u64,
            journal: Some(before.bumped()),
        }),
        forall|i: int|
            0 <= i < directory.len() && i != place ==> (#[trigger] directory[i]).name
                != directory[place].name,
        forall|i: int|
            0 <= i < directory.len() && ((#[trigger] directory[i]).number() matches Some(number)
                && number > before.bumped().sequence) ==> !directory[i].recoverable(
                &runs[0].run_root,
                cleanup::held(&runs[0].program_data),
            ),
    ensures
        runs.last().outcome == Some(
            Ok::<Option<CleanupJournal>, SandboxError>(Some(before.bumped())),
        ),
{
    let run_root = &runs[0].run_root;
    let program_data = cleanup::held(&runs[0].program_data);
    let kept = before.bumped();
    journal::written_generations_are_recoverable(before@, program_data);
    assert(kept@ == before@.next_generation());
    assert(kept@.run_root.same(run_root));
    assert(directory[place].recoverable(run_root, program_data));
    assert forall|i: int|
        0 <= i < directory.len() && i != place && (#[trigger] directory[i]).recoverable(
            run_root,
            program_data,
        ) implies directory[i].journal->0.sequence < directory[place].journal->0.sequence by {
        let number = directory[i].number()->0;
        if number == kept.sequence {
            journal::journal_names_are_unique(directory[i].name->0, directory[place].name->0);
        }
    }
    lemma_searching(directory, place, runs, events, runs.len() - 1);
}

/// How a generation is written: as JSON text of at most a mebibyte, to a new file, with a line end
/// behind it, and durably. Whatever fails ends the writing with an error.
pub proof fn generations_are_written_in_order(
    before: GenerationWriting,
    event: GenerationEvent,
    after: GenerationWriting,
)
    requires
        before.consistent(),
        generation_written(before, event, after),
    ensures
        before.step is Serialize && event is Serialized ==> {
            let serialized = event->Serialized_0;
            &&& after.step is Create <==> serialized is Ok && serialized->Ok_0 <= 1_048_576
            &&& after.step is Create ==> after.len == serialized->Ok_0
            &&& after.step is Create || after.outcome is Some && after.outcome->0 is Err
        },
        event is Settled && event->Settled_0 is Ok ==> {
            &&& before.step is Create ==> after.step is Write
            &&& before.step is Write ==> after.step is Terminate
            &&& before.step is Terminate ==> after.step is Store
            &&& before.step is Store ==> after.step is Done && after.outcome is Some
                && after.outcome->0 is Ok
        },
        event is Settled && event->Settled_0 is Err && (before.step is Create || before.step is Write
            || before.step is Terminate || before.step is Store) ==> after.step is Done
            && after.outcome is Some && after.outcome->0 is Err,
{
}

/// How journals are looked for: every entry of the held directory is taken, at most 10064 in all, and
/// what has the name of a generation is opened, looked at, read and decoded. What cannot be opened, is
/// empty, is larger than a mebibyte, changed while it was read or cannot be decoded is passed over.
pub proof fn journals_are_looked_for_in_order(before: JournalScan, event: ScanEvent, after: JournalScan)
    requires
        before.consistent(),
        scanned(before, event, after),
    ensures
        before.step is Pin && event is Settled ==> (after.step is Enumerate <==> event->Settled_0 is Ok),
        before.step is Enumerate && event is Settled ==> (after.step is Next <==> event->Settled_0
            is Ok),
        before.step is Next && event is Entry ==> {
            let entry = event->Entry_0;
            &&& entry is Ok && entry->Ok_0 is None ==> after.outcome == Some(
                Ok::<Option<CleanupJournal>, SandboxError>(before.search.latest),
            )
            &&& entry is Ok && entry->Ok_0 is Some ==> {
                let name = entry->Ok_0->0.name;
                &&& after.step is Done <==> before.search.entries >= 10_064
                &&& after.step is Done ==> after.outcome is Some && after.outcome->0 is Err
                &&& !(after.step is Done) ==> after.search.entries == before.search.entries + 1
                    && after.search.latest == before.search.latest
                &&& after.step is Open <==> before.search.entries < 10_064 && name is Some
                    && journal::sequence_of_name(name->0@) is Some
                &&& after.step is Open ==> after.sequence == journal::sequence_of_name(name->0@)->0
            }
            &&& entry is Err ==> after.outcome is Some && after.outcome->0 is Err
        },
        before.step is Open && event is Opened ==> after.step == if event->Opened_0 {
            ScanStep::Inspect
        } else {
            ScanStep::Next
        },
        before.step is Inspect && event is Inspected && event->Inspected_0 is Ok ==> after.step == if 0
            < event->Inspected_0->Ok_0 <= 1_048_576 {
            ScanStep::Read
        } else {
            ScanStep::Next
        },
        before.step is Read && event is Read && event->Read_0 is Ok ==> after.step == if event->Read_0->Ok_0
            == before.len {
            ScanStep::Decode
        } else {
            ScanStep::Next
        },
        before.step is Decode && event is Decoded ==> {
            let decoded = event->Decoded_0;
            let latest = before.search.latest;
            &&& after.step is Next
            &&& after.search.latest == if decoded is Some && decoded->0.sequence == before.sequence
                && decoded->0@.run_root.same(&before.run_root) && decoded->0@.verdict(
                cleanup::held(&before.program_data),
            ) is Ok && (latest is Some ==> decoded->0.sequence > latest->0.sequence) {
                decoded
            } else {
                latest
            }
        },
{
}

} // verus!
