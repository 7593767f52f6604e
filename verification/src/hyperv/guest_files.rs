//! The files that a guest left: read whole and bounded, and copied into the archive as they were.

use vstd::prelude::*;

use crate::backend;
use crate::backend::{SandboxError, SandboxResult};
use crate::digest;
use crate::hyperv::result_collector;
use crate::hyperv::result_collector::{
    accept_bounded_bytes, read_bounded_file, BoundedCopy, EntryFacts,
};
use crate::hyperv::tree_walk;
use crate::hyperv::tree_walk::sourced_error;
use crate::text;

verus! {

// ---------------------------------------------------------------------------------------------
// Reading
// ---------------------------------------------------------------------------------------------

/// What is to be done next.
#[derive(Clone, Copy, Debug, PartialEq, Eq, Structural)]
pub enum OutputStep {
    /// Look at the file without following a link.
    Inspect,
    Open,
    /// Read at most one byte more than the limit.
    Read,
    Done,
}

/// What came of a step.
#[derive(Debug)]
pub enum OutputEvent {
    Inspected(Result<EntryFacts, String>),
    Opened(Result<(), String>),
    Read(Result<Vec<u8>, String>),
}

/// The reading of an output file.
#[derive(Debug)]
pub struct OutputReading {
    pub step: OutputStep,
    /// The path as messages show it.
    pub shown: String,
    pub maximum: u64,
    pub facts: EntryFacts,
    pub outcome: Option<SandboxResult<Vec<u8>>>,
}

impl OutputReading {
    /// The bytes are the whole of a regular file within the limit.
    pub open spec fn whole(&self, bytes: Seq<u8>) -> bool {
        &&& result_collector::readable_verdict(self.shown@, self.facts, self.maximum) is Ok
        &&& bytes.len() == self.facts.len
    }

    pub open spec fn consistent(&self) -> bool {
        match self.step {
            OutputStep::Inspect => self.outcome is None,
            OutputStep::Done => self.outcome matches Some(outcome) && (outcome matches Ok(bytes)
                ==> self.whole(bytes@)),
            _ => {
                &&& self.outcome is None
                &&& result_collector::readable_verdict(self.shown@, self.facts, self.maximum) is Ok
            },
        }
    }
}

/// The reading ended with an error.
pub open spec fn unread(fault: backend::Fault, after: OutputReading) -> bool {
    &&& after.step == OutputStep::Done
    &&& after.outcome matches Some(Err(error)) && error@ == fault
}

/// What one event makes of the reading. An event that is no answer to the step changes nothing.
pub open spec fn output_read(
    before: OutputReading,
    event: OutputEvent,
    after: OutputReading,
) -> bool {
    match (before.step, event) {
        (OutputStep::Inspect, OutputEvent::Inspected(inspected)) => match inspected {
            Err(source) => unread(
                tree_walk::sourced("inspect guest output "@ + before.shown@, source@),
                after,
            ),
            Ok(facts) => match result_collector::readable_verdict(
                before.shown@,
                facts,
                before.maximum,
            ) {
                Err(fault) => unread(fault, after),
                Ok(_) => after == (OutputReading { step: OutputStep::Open, facts, ..before }),
            },
        },
        (OutputStep::Open, OutputEvent::Opened(opened)) => match opened {
            Err(source) => unread(
                tree_walk::sourced("open guest output "@ + before.shown@, source@),
                after,
            ),
            Ok(_) => after == (OutputReading { step: OutputStep::Read, ..before }),
        },
        (OutputStep::Read, OutputEvent::Read(read)) => match read {
            Err(source) => unread(
                tree_walk::sourced("read guest output "@ + before.shown@, source@),
                after,
            ),
            Ok(bytes) => match result_collector::bytes_verdict(
                bytes@,
                before.facts,
                before.maximum,
            ) {
                Err(fault) => unread(fault, after),
                Ok(_) => after == (OutputReading {
                    step: OutputStep::Done,
                    outcome: Some(Ok(bytes)),
                    ..before
                }),
            },
        },
        _ => after == before,
    }
}

impl OutputReading {
    /// Begins the reading of an output file of at most `maximum` bytes.
    pub fn new(shown: &str, maximum: u64) -> (reading: OutputReading)
        ensures
            reading.consistent(),
            reading.step == OutputStep::Inspect,
            reading.shown@ == shown@,
            reading.maximum == maximum,
            reading.outcome is None,
    {
        OutputReading {
            step: OutputStep::Inspect,
            shown: shown.to_owned(),
            maximum,
            facts: EntryFacts {
                link: false,
                reparse_point: false,
                directory: false,
                regular: false,
                len: 0,
            },
            outcome: None,
        }
    }

    fn end(&mut self, error: SandboxError)
        ensures
            unread(error@, *final(self)),
            final(self).consistent(),
    {
        self.step = OutputStep::Done;
        self.outcome = Some(Err(error));
    }

    fn fail(&mut self, action: &str, source: &str)
        ensures
            unread(tree_walk::sourced(action@ + old(self).shown@, source@), *final(self)),
            final(self).consistent(),
    {
        let message = text::cat2(action, self.shown.as_str());
        self.end(sourced_error(message.as_str(), source));
    }

    /// Takes what came of the step.
    pub fn advance(&mut self, event: OutputEvent)
        requires
            old(self).consistent(),
        ensures
            output_read(*old(self), event, *final(self)),
            final(self).consistent(),
    {
        match (self.step, event) {
            (OutputStep::Inspect, OutputEvent::Inspected(inspected)) => match inspected {
                Err(source) => self.fail("inspect guest output ", source.as_str()),
                Ok(facts) => match read_bounded_file(self.shown.as_str(), facts, self.maximum) {
                    Err(error) => self.end(error),
                    Ok(_) => {
                        self.facts = facts;
                        self.step = OutputStep::Open;
                    },
                },
            },
            (OutputStep::Open, OutputEvent::Opened(opened)) => match opened {
                Err(source) => self.fail("open guest output ", source.as_str()),
                Ok(_) => {
                    self.step = OutputStep::Read;
                },
            },
            (OutputStep::Read, OutputEvent::Read(read)) => match read {
                Err(source) => self.fail("read guest output ", source.as_str()),
                Ok(bytes) => match accept_bounded_bytes(
                    bytes.as_slice(),
                    self.facts,
                    self.maximum,
                ) {
                    Err(error) => self.end(error),
                    Ok(_) => {
                        self.step = OutputStep::Done;
                        self.outcome = Some(Ok(bytes));
                    },
                },
            },
            _ => {},
        }
    }
}

// ---------------------------------------------------------------------------------------------
// Copying
// ---------------------------------------------------------------------------------------------

/// What is to be done next.
#[derive(Clone, Copy, Debug, PartialEq, Eq, Structural)]
pub enum CopyStep {
    OpenSource,
    /// Create the destination, which must not exist.
    CreateDestination,
    /// Read on in the source; nothing is read at its end.
    Read,
    /// Write what was read to the destination.
    Write,
    Flush,
    /// Wait until the destination is on the disk.
    Store,
    Done,
}

/// What came of a step.
#[derive(Debug)]
pub enum CopyEvent {
    Settled(Result<(), String>),
    Read(Result<Vec<u8>, String>),
}

/// The copy of a guest's file into the archive.
pub struct ArtifactCopy {
    pub step: CopyStep,
    /// Source and destination, as messages show them.
    pub source: String,
    pub destination: String,
    /// How many bytes the source has.
    pub expected: u64,
    pub copy: BoundedCopy,
    /// The source as it was copied.
    pub copied: Ghost<Seq<u8>>,
    pub sha256: String,
    /// The destination is to be removed.
    pub discard: bool,
    pub outcome: Option<SandboxResult<String>>,
}

impl ArtifactCopy {
    /// The digest is that of all that was copied, and that is as long as it should be.
    pub open spec fn sealed(&self, sha256: Seq<char>) -> bool {
        &&& self.copied@.len() == self.expected
        &&& sha256 == digest::sha256_text(self.copied@)
    }

    pub open spec fn consistent(&self) -> bool {
        match self.step {
            CopyStep::Done => self.outcome matches Some(outcome) && (outcome matches Ok(sha256)
                ==> self.sealed(sha256@) && !self.discard),
            CopyStep::Flush | CopyStep::Store => {
                &&& self.outcome is None
                &&& self.sealed(self.sha256@)
                &&& !self.discard
            },
            _ => {
                &&& self.outcome is None
                &&& self.copy.well_formed()
                &&& self.copy.spec_expected() == self.expected
                &&& !self.discard
            },
        }
    }
}

/// The copy ended with an error.
pub open spec fn uncopied(fault: backend::Fault, discard: bool, after: ArtifactCopy) -> bool {
    &&& after.step == CopyStep::Done
    &&& after.discard == discard
    &&& after.outcome matches Some(Err(error)) && error@ == fault
}

/// What the outcome of a step other than a read makes of the copy.
pub open spec fn copy_settled(
    before: ArtifactCopy,
    outcome: Result<(), String>,
    message: Seq<char>,
    discard: bool,
    step: CopyStep,
    after: ArtifactCopy,
) -> bool {
    match outcome {
        Err(source) => uncopied(tree_walk::sourced(message, source@), discard, after),
        Ok(_) => after == (ArtifactCopy { step, ..before }),
    }
}

pub open spec fn source_read(
    before: ArtifactCopy,
    read: Result<Vec<u8>, String>,
    after: ArtifactCopy,
) -> bool {
    match read {
        Err(source) => uncopied(
            tree_walk::sourced("read guest artifact "@ + before.source@, source@),
            true,
            after,
        ),
        Ok(chunk) => if chunk@.len() == 0 {
            if before.copy.content().len() != before.expected {
                uncopied(
                    result_collector::collection_fault(
                        "guest artifact changed while it was being copied"@,
                    ),
                    true,
                    after,
                )
            } else {
                &&& after.copied@ == before.copy.content()
                &&& after.sha256@ == digest::sha256_text(before.copy.content())
                &&& after == (ArtifactCopy {
                    step: CopyStep::Flush,
                    copy: after.copy,
                    copied: after.copied,
                    sha256: after.sha256,
                    ..before
                })
            }
        } else if before.copy.content().len() + chunk@.len() > before.expected {
            uncopied(
                result_collector::collection_fault("guest artifact grew while it was being copied"@),
                true,
                after,
            )
        } else {
            &&& after.copy.content() == before.copy.content() + chunk@
            &&& after == (ArtifactCopy { step: CopyStep::Write, copy: after.copy, ..before })
        },
    }
}

/// What one event makes of the copy. An event that is no answer to the step changes nothing.
pub open spec fn artifact_copied(
    before: ArtifactCopy,
    event: CopyEvent,
    after: ArtifactCopy,
) -> bool {
    match (before.step, event) {
        (CopyStep::OpenSource, CopyEvent::Settled(opened)) => copy_settled(
            before,
            opened,
            "open guest artifact "@ + before.source@,
            false,
            CopyStep::CreateDestination,
            after,
        ),
        (CopyStep::CreateDestination, CopyEvent::Settled(created)) => copy_settled(
            before,
            created,
            "create archived artifact "@ + before.destination@,
            false,
            CopyStep::Read,
            after,
        ),
        (CopyStep::Read, CopyEvent::Read(read)) => source_read(before, read, after),
        (CopyStep::Write, CopyEvent::Settled(written)) => copy_settled(
            before,
            written,
            "write archived artifact "@ + before.destination@,
            true,
            CopyStep::Read,
            after,
        ),
        (CopyStep::Flush, CopyEvent::Settled(flushed)) => copy_settled(
            before,
            flushed,
            "flush archived artifact"@,
            false,
            CopyStep::Store,
            after,
        ),
        (CopyStep::Store, CopyEvent::Settled(stored)) => match stored {
            Err(source) => uncopied(
                tree_walk::sourced("durably store archived artifact"@, source@),
                false,
                after,
            ),
            Ok(_) => {
                &&& after.step == CopyStep::Done
                &&& after.copied == before.copied
                &&& after.outcome matches Some(Ok(sha256)) && sha256@ == before.sha256@
            },
        },
        _ => after == before,
    }
}

impl ArtifactCopy {
    /// Begins the copy of a file of `expected` bytes.
    pub fn copy_new_bounded(source: &str, destination: &str, expected: u64) -> (run: ArtifactCopy)
        ensures
            run.consistent(),
            run.step == CopyStep::OpenSource,
            run.source@ == source@,
            run.destination@ == destination@,
            run.expected == expected,
            run.copy.content() == Seq::<u8>::empty(),
            !run.discard,
            run.outcome is None,
    {
        ArtifactCopy {
            step: CopyStep::OpenSource,
            source: source.to_owned(),
            destination: destination.to_owned(),
            expected,
            copy: BoundedCopy::new(expected),
            copied: Ghost(Seq::empty()),
            sha256: "".to_owned(),
            discard: false,
            outcome: None,
        }
    }

    fn end(&mut self, error: SandboxError, discard: bool)
        ensures
            uncopied(error@, discard, *final(self)),
            final(self).consistent(),
    {
        self.step = CopyStep::Done;
        self.discard = discard;
        self.outcome = Some(Err(error));
    }

    fn settle(
        &mut self,
        outcome: Result<(), String>,
        message: &str,
        discard: bool,
        step: CopyStep,
    )
        requires
            outcome is Ok ==> (ArtifactCopy { step, ..*old(self) }).consistent(),
        ensures
            copy_settled(*old(self), outcome, message@, discard, step, *final(self)),
            final(self).consistent(),
    {
        match outcome {
            Err(source) => self.end(sourced_error(message, source.as_str()), discard),
            Ok(_) => {
                self.step = step;
            },
        }
    }

    fn take_read(&mut self, read: Result<Vec<u8>, String>)
        requires
            old(self).consistent(),
            old(self).step == CopyStep::Read,
        ensures
            source_read(*old(self), read, *final(self)),
            final(self).consistent(),
    {
        let chunk = match read {
            Err(source) => {
                let message = text::cat2("read guest artifact ", self.source.as_str());
                self.end(sourced_error(message.as_str(), source.as_str()), true);
                return;
            },
            Ok(chunk) => chunk,
        };
        if chunk.len() > 0 {
            match self.copy.absorb(chunk.as_slice()) {
                Err(error) => self.end(error, true),
                Ok(_) => {
                    self.step = CopyStep::Write;
                },
            }
            return;
        }
        let mut copy = BoundedCopy::new(0);
        std::mem::swap(&mut copy, &mut self.copy);
        let ghost content = copy.content();
        match copy.finish() {
            Err(error) => self.end(error, true),
            Ok(sha256) => {
                self.copied = Ghost(content);
                self.sha256 = sha256;
                self.step = CopyStep::Flush;
            },
        }
    }

    /// Takes what came of the step.
    pub fn advance(&mut self, event: CopyEvent)
        requires
            old(self).consistent(),
        ensures
            artifact_copied(*old(self), event, *final(self)),
            final(self).consistent(),
    {
        match (self.step, event) {
            (CopyStep::OpenSource, CopyEvent::Settled(opened)) => {
                let message = text::cat2("open guest artifact ", self.source.as_str());
                self.settle(opened, message.as_str(), false, CopyStep::CreateDestination);
            },
            (CopyStep::CreateDestination, CopyEvent::Settled(created)) => {
                let message = text::cat2("create archived artifact ", self.destination.as_str());
                self.settle(created, message.as_str(), false, CopyStep::Read);
            },
            (CopyStep::Read, CopyEvent::Read(read)) => self.take_read(read),
            (CopyStep::Write, CopyEvent::Settled(written)) => {
                let message = text::cat2("write archived artifact ", self.destination.as_str());
                self.settle(written, message.as_str(), true, CopyStep::Read);
            },
            (CopyStep::Flush, CopyEvent::Settled(flushed)) => {
                self.settle(flushed, "flush archived artifact", false, CopyStep::Store);
            },
            (CopyStep::Store, CopyEvent::Settled(stored)) => match stored {
                Err(source) => {
                    let error = sourced_error(
                        "durably store archived artifact",
                        source.as_str(),
                    );
                    self.end(error, false);
                },
                Ok(_) => {
                    let sha256 = self.sha256.as_str().to_owned();
                    self.step = CopyStep::Done;
                    self.outcome = Some(Ok(sha256));
                },
            },
            _ => {},
        }
    }
}

// ---------------------------------------------------------------------------------------------
// Laws
// ---------------------------------------------------------------------------------------------

/// What is read of a guest's file is the whole of a regular file that is no link and within the
/// limit.
pub proof fn outputs_are_read_whole(reading: OutputReading, bytes: Vec<u8>)
    requires
        reading.consistent(),
        reading.outcome == Some(Ok::<Vec<u8>, SandboxError>(bytes)),
    ensures
        bytes@.len() == reading.facts.len <= reading.maximum,
        reading.facts.regular,
        !reading.facts.link,
        !reading.facts.reparse_point,
{
}

/// The digest of a copied artifact is that of all the bytes that were copied, as many as were
/// expected.
pub proof fn copied_artifacts_are_sealed(run: ArtifactCopy, sha256: String)
    requires
        run.consistent(),
        run.outcome == Some(Ok::<String, SandboxError>(sha256)),
    ensures
        run.copied@.len() == run.expected,
        sha256@ == digest::sha256_text(run.copied@),
{
}

/// How an output is read: it is looked at, opened and read, and its bytes are what was read; what could
/// not be looked at, opened or read is an error.
pub proof fn outputs_are_read_in_order(before: OutputReading, event: OutputEvent, after: OutputReading)
    requires
        before.consistent(),
        output_read(before, event, after),
    ensures
        before.step is Inspect && event is Inspected ==> {
            let inspected = event->Inspected_0;
            &&& after.step is Open <==> inspected is Ok && result_collector::readable_verdict(
                before.shown@,
                inspected->Ok_0,
                before.maximum,
            ) is Ok
            &&& after.step is Open ==> after.facts == inspected->Ok_0
            &&& after.step is Open || after.outcome is Some && after.outcome->0 is Err
        },
        before.step is Open && event is Opened ==> {
            &&& after.step is Read <==> event->Opened_0 is Ok
            &&& event->Opened_0 is Err ==> after.outcome is Some && after.outcome->0 is Err
        },
        before.step is Read && event is Read ==> {
            let read = event->Read_0;
            &&& after.step is Done && after.outcome is Some
            &&& after.outcome->0 is Ok <==> read is Ok && result_collector::bytes_verdict(
                read->Ok_0@,
                before.facts,
                before.maximum,
            ) is Ok
            &&& after.outcome->0 is Ok ==> after.outcome->0->Ok_0 == read->Ok_0
        },
{
}

/// How an artifact is copied: what is read is written until as much was copied as was expected, and then
/// flushed and stored. A copy that fails while it is read or written is removed.
pub proof fn artifacts_are_copied_in_order(before: ArtifactCopy, event: CopyEvent, after: ArtifactCopy)
    requires
        before.consistent(),
        artifact_copied(before, event, after),
    ensures
        before.step is OpenSource && event is Settled && event->Settled_0 is Ok ==> after.step
            is CreateDestination,
        before.step is CreateDestination && event is Settled && event->Settled_0 is Ok ==> after.step
            is Read,
        before.step is Read && event is Read ==> {
            let read = event->Read_0;
            let so_far = before.copy.content();
            &&& after.step is Flush <==> read is Ok && read->Ok_0@.len() == 0 && so_far.len()
                == before.expected
            &&& after.step is Flush ==> after.copied@ == so_far && after.sha256@ == digest::sha256_text(
                so_far,
            )
            &&& after.step is Write <==> read is Ok && read->Ok_0@.len() > 0 && so_far.len()
                + read->Ok_0@.len() <= before.expected
            &&& after.step is Write ==> after.copy.content() == so_far + read->Ok_0@
            &&& after.step is Flush || after.step is Write || (after.outcome is Some
                && after.outcome->0 is Err && after.discard)
        },
        before.step is Write && event is Settled ==> {
            &&& event->Settled_0 is Ok ==> after.step is Read && after.copy == before.copy
            &&& event->Settled_0 is Err ==> after.outcome is Some && after.outcome->0 is Err
                && after.discard
        },
        before.step is Flush && event is Settled && event->Settled_0 is Ok ==> after.step is Store,
        before.step is Store && event is Settled ==> {
            &&& after.step is Done && after.outcome is Some
            &&& after.outcome->0 is Ok <==> event->Settled_0 is Ok
            &&& after.outcome->0 is Ok ==> after.outcome->0->Ok_0@ == before.sha256@
        },
        event is Settled && event->Settled_0 is Err && !(before.step is Done) && after != before
            ==> after.outcome is Some && after.outcome->0 is Err,
{
}

} // verus!
