//! Collecting the output of a guest that finished: what is to be looked at, read and archived, in
//! which order, and what is made of it. The output is archived only once the published states
//! authenticated the result.

use vstd::prelude::*;

use crate::backend;
use crate::backend::{SandboxError, SandboxResult};
use crate::digest;
use crate::host_path;
use crate::host_path::{HostPath, PathStyle};
use crate::hyperv::guest_protocol;
use crate::hyperv::guest_protocol::{
    ArtifactManifestEntry, GuestResultEnvelope, StatusRecord, MAX_STATUS_BYTES,
};
use crate::hyperv::result_collector;
use crate::hyperv::result_collector::{
    accept_result, all_protocol_states, archived_place, check_event_list, check_request_digest,
    check_status_entry, check_status_file, check_status_record, collect, prepare_archive_root,
    validate_limits, validate_plain_directory, validate_status_chain, Archive, CollectedArtifact,
    CollectedGuestOutput, CollectionLimits, EntryFacts, PlannedFile, PlannedView, MAX_STATUS_ENTRIES,
};
use crate::hyperv::tree_walk;
use crate::hyperv::tree_walk::{sourced_error, TreeEvent, TreeStep, TreeWalk};
use crate::structs::SandboxRunResult;
use crate::text;

verus! {

// ---------------------------------------------------------------------------------------------
// Files of the guest
// ---------------------------------------------------------------------------------------------

/// A directory of the guest's run.
#[derive(Clone, Copy, Debug, PartialEq, Eq, Structural)]
pub enum GuestDirectory {
    Output,
    Status,
}

/// How many states can be published, and how many event lists and directories a result has.
pub const STATE_COUNT: usize = 9;

pub const EVENT_LIST_COUNT: usize = 4;

pub const TREE_COUNT: usize = 2;

pub open spec fn event_list_name(index: int) -> Seq<char> {
    if index == 0 {
        "process-events.json"@
    } else if index == 1 {
        "network-events.json"@
    } else if index == 2 {
        "filesystem-events.json"@
    } else {
        "registry-events.json"@
    }
}

pub fn event_list_file(index: usize) -> (name: &'static str)
    ensures
        name@ == event_list_name(index as int),
{
    if index == 0 {
        "process-events.json"
    } else if index == 1 {
        "network-events.json"
    } else if index == 2 {
        "filesystem-events.json"
    } else {
        "registry-events.json"
    }
}

pub open spec fn tree_name(index: int) -> Seq<char> {
    if index == 0 {
        "screenshots"@
    } else {
        "extracted-files"@
    }
}

pub fn tree_directory(index: usize) -> (name: &'static str)
    ensures
        name@ == tree_name(index as int),
{
    if index == 0 {
        "screenshots"
    } else {
        "extracted-files"
    }
}

/// The files of the status directory: one for each state, then the agent's claim.
pub open spec fn status_file_name(index: int) -> Seq<char> {
    if 0 <= index < STATE_COUNT {
        result_collector::protocol_states()[index].spec_file_name()
    } else {
        "agent-claim.json"@
    }
}

pub fn status_file(index: usize) -> (name: &'static str)
    ensures
        name@ == status_file_name(index as int),
{
    if index < STATE_COUNT {
        let states = all_protocol_states();
        states[index].file_name()
    } else {
        "agent-claim.json"
    }
}

/// A place in the archive: `name` below `prefix`.
pub open spec fn is_place(place: HostPath, style: PathStyle, prefix: Seq<char>, name: Seq<char>) -> bool {
    &&& place.style == style
    &&& place.shown@ == host_path::joined_text(style, prefix, name)
    &&& !place.absolute
    &&& place.spec_parts() == seq![
        host_path::PartView::Normal(prefix),
        host_path::PartView::Normal(name),
    ]
}

// ---------------------------------------------------------------------------------------------
// Steps
// ---------------------------------------------------------------------------------------------

/// What is to be done next.
#[derive(Clone, Copy, Debug, PartialEq, Eq, Structural)]
pub enum CollectStep {
    /// Look at the output directory, links not followed.
    InspectOutput,
    /// Create the directory of the archive.
    CreateArchive,
    /// Read and parse the result.
    ReadResult,
    /// Look at the status directory, links not followed.
    InspectStatus,
    /// List the status directory.
    OpenStatus,
    /// Take the next entry of the status directory.
    NextStatus,
    /// Look at that entry, links not followed.
    InspectEntry,
    /// Read and parse the record of a state, if it is there.
    ReadRecord(usize),
    CopyResult,
    ReadStdout,
    ReadStderr,
    CopyStdout,
    CopyStderr,
    /// Read an event list, and write the same list of the result as JSON text.
    ReadEvents(usize),
    CopyEvents(usize),
    /// Look at a directory of the output, links not followed, if it is there.
    FindTree(usize),
    /// Do the step of the walk.
    WalkTree(usize),
    ReadWarnings,
    CopyWarnings,
    /// Read a file of the status directory, if it is there.
    ReadStatus(usize),
    CopyStatus(usize),
    Done,
}

/// What came of reading a file.
#[derive(Debug)]
pub enum Reading<T> {
    /// An optional file is not there.
    Missing,
    Failed(SandboxError),
    Malformed(String),
    Got(T),
}

/// What came of looking for an entry.
#[derive(Debug)]
pub enum Look {
    /// An optional entry is not there.
    Missing,
    Failed(String),
    Found(EntryFacts),
}

#[derive(Debug)]
pub struct ResultFile {
    pub bytes: Vec<u8>,
    pub envelope: GuestResultEnvelope<SandboxRunResult>,
}

#[derive(Debug)]
pub struct EventFile {
    pub observed: Vec<u8>,
    pub expected: Vec<u8>,
}

#[derive(Debug)]
pub struct StatusListing {
    /// The name of the entry, if it is Unicode.
    pub name: Option<String>,
    /// The path of the entry, as messages show it.
    pub shown: String,
}

/// What came of a step.
#[derive(Debug)]
pub enum CollectEvent {
    Looked(Look),
    Made(Result<(), String>),
    ResultRead(Reading<ResultFile>),
    Listed(Result<Option<StatusListing>, String>),
    RecordRead(Reading<StatusRecord>),
    FileRead(Reading<Vec<u8>>),
    EventsRead(Reading<EventFile>),
    Tree(TreeEvent),
    Copied(SandboxResult<String>),
}

/// The collection of a guest's output.
pub struct Collection {
    pub step: CollectStep,
    pub limits: CollectionLimits,
    pub mounted: HostPath,
    pub archive_root: HostPath,
    pub run_id: String,
    pub request_sha256: String,
    pub walk: TreeWalk,
    pub envelope: Option<GuestResultEnvelope<SandboxRunResult>>,
    /// The bytes of the result, once it was read.
    pub result: Ghost<Seq<u8>>,
    /// How many entries of the status directory were seen.
    pub entries: u64,
    /// The entry of the status directory that was listed last, as messages show it.
    pub listed: String,
    pub records: Vec<StatusRecord>,
    /// The records that the result was checked against.
    pub history: Ghost<Seq<StatusRecord>>,
    /// The file that was read last.
    pub bytes: Vec<u8>,
    /// The place in the archive of the file that is to be copied.
    pub place: HostPath,
    pub stdout: Option<Vec<u8>>,
    pub stderr: Option<Vec<u8>>,
    pub warnings: Option<Vec<u8>>,
    /// The last copy is not what was checked: it is to be removed.
    pub discard: bool,
    pub outcome: Option<SandboxResult<CollectedGuestOutput>>,
}

// ---------------------------------------------------------------------------------------------
// What holds at every step
// ---------------------------------------------------------------------------------------------

/// The steps up to the reading of the result, those up to the last record, and those behind.
pub open spec fn stage(step: CollectStep) -> int {
    match step {
        CollectStep::InspectOutput => 0,
        CollectStep::CreateArchive => 0,
        CollectStep::ReadResult => 0,
        CollectStep::InspectStatus => 1,
        CollectStep::OpenStatus => 1,
        CollectStep::NextStatus => 1,
        CollectStep::InspectEntry => 1,
        CollectStep::ReadRecord(_) => 1,
        _ => 2,
    }
}

pub open spec fn is_copy(step: CollectStep) -> bool {
    match step {
        CollectStep::CopyResult => true,
        CollectStep::CopyStdout => true,
        CollectStep::CopyStderr => true,
        CollectStep::CopyEvents(_) => true,
        CollectStep::CopyWarnings => true,
        CollectStep::CopyStatus(_) => true,
        _ => false,
    }
}

pub open spec fn bytes_of(held: Option<Vec<u8>>) -> Seq<u8> {
    match held {
        Some(bytes) => bytes@,
        None => Seq::empty(),
    }
}

impl Collection {
    /// The result is of the run, and the published states authenticate it.
    pub open spec fn authenticated(&self, result: &GuestResultEnvelope<SandboxRunResult>) -> bool {
        &&& result_collector::result_verdict(result, self.run_id@) is Ok
        &&& result_collector::status_chain_verdict(
            self.history@,
            self.run_id@,
            self.request_sha256@,
            digest::sha256_text(self.result@),
            result.outcome,
        ) is Ok
    }

    /// Whether the guest executed the target.
    pub open spec fn executed(&self) -> bool {
        self.envelope matches Some(envelope) && envelope.execution is Some
    }

    /// The bytes that are being copied.
    pub open spec fn copied_bytes(&self) -> Seq<u8> {
        match self.step {
            CollectStep::CopyStdout => bytes_of(self.stdout),
            CollectStep::CopyStderr => bytes_of(self.stderr),
            CollectStep::CopyWarnings => bytes_of(self.warnings),
            _ => self.bytes@,
        }
    }

    /// A file of this length that was admitted has room.
    pub open spec fn has_room(&self, len: int) -> bool {
        self.walk.archive.awaits(&self.place, len)
    }

    pub open spec fn step_fits(&self) -> bool {
        match self.step {
            CollectStep::ReadRecord(index) => index < STATE_COUNT,
            CollectStep::ReadEvents(index) => index < EVENT_LIST_COUNT && self.executed(),
            CollectStep::CopyEvents(index) => index < EVENT_LIST_COUNT && self.executed(),
            CollectStep::FindTree(index) => index < TREE_COUNT,
            CollectStep::WalkTree(index) => index < TREE_COUNT,
            CollectStep::ReadStatus(index) => index <= STATE_COUNT,
            CollectStep::CopyStatus(index) => index <= STATE_COUNT,
            CollectStep::CopyStdout => self.stdout is Some,
            CollectStep::CopyStderr => self.stderr is Some,
            CollectStep::CopyWarnings => self.warnings is Some,
            _ => true,
        }
    }

    /// The collection goes on: the archive keeps to its limits, and behind the records the result
    /// is authenticated.
    pub open spec fn going_on(&self) -> bool {
        &&& self.limits.verdict() is Ok
        &&& self.walk.archive.limits == self.limits
        &&& !is_copy(self.step) && !(self.step is WalkTree) ==> self.walk.archive.settled()
        &&& self.outcome is None
        &&& self.entries <= MAX_STATUS_ENTRIES
        &&& stage(self.step) < 2 ==> self.walk.archive.artifacts@.len() == 0
        &&& stage(self.step) >= 1 ==> (self.envelope matches Some(envelope)
            && result_collector::result_verdict(&envelope, self.run_id@) is Ok)
        &&& stage(self.step) == 1 ==> self.bytes@ == self.result@
        &&& stage(self.step) == 2 ==> self.authenticated(&self.envelope->0)
        &&& self.step == CollectStep::CopyResult ==> self.bytes@ == self.result@
        &&& is_copy(self.step) ==> self.has_room(self.copied_bytes().len() as int)
        &&& self.step_fits()
        &&& match self.step {
            CollectStep::WalkTree(_) => {
                &&& self.walk.step != TreeStep::Failed
                &&& self.walk.in_order()
            },
            _ => true,
        }
    }

    /// An output that was collected: authenticated, within the limits, and with every artifact
    /// that the result claims.
    pub open spec fn vouches_for(&self, output: CollectedGuestOutput) -> bool {
        &&& self.authenticated(&output.result)
        &&& result_collector::claims_verdict(
            output.result.artifacts@,
            output.artifacts@,
            0,
        ) is Ok
        &&& output.artifacts@.len() <= self.limits.maximum_artifacts
        &&& forall|i: int|
            0 <= i < output.artifacts@.len() ==> (#[trigger] output.artifacts@[i]).size_bytes
                <= self.limits.maximum_artifact_bytes
        &&& result_collector::collected_bytes(output.artifacts@) == output.total_bytes
            <= self.limits.maximum_total_bytes
        &&& result_collector::archived_keys(output.artifacts@).no_duplicates()
    }

    pub open spec fn consistent(&self) -> bool {
        if self.step == CollectStep::Done {
            self.outcome matches Some(outcome) && (outcome matches Ok(output) ==> self.vouches_for(
                output,
            ))
        } else {
            self.going_on()
        }
    }
}

// ---------------------------------------------------------------------------------------------
// What follows
// ---------------------------------------------------------------------------------------------

/// The collection ended with an error.
pub open spec fn ended(fault: backend::Fault, after: Collection) -> bool {
    &&& after.step == CollectStep::Done
    &&& after.outcome matches Some(Err(error)) && error@ == fault
}

pub open spec fn moved(before: Collection, step: CollectStep, after: Collection) -> bool {
    after == (Collection { step, ..before })
}

/// The collection goes on with the step, or ends with the error.
pub open spec fn judged(
    before: Collection,
    verdict: Result<(), backend::Fault>,
    step: CollectStep,
    after: Collection,
) -> bool {
    match verdict {
        Err(fault) => ended(fault, after),
        Ok(_) => moved(before, step, after),
    }
}

/// A file of `len` bytes is admitted to the archive and is to be copied there.
pub open spec fn kept(
    before: Collection,
    prefix: Seq<char>,
    name: Seq<char>,
    len: u64,
    step: CollectStep,
    after: Collection,
) -> bool {
    &&& is_place(after.place, before.archive_root.style, prefix, name)
    &&& after == (Collection {
        step: after.step,
        place: after.place,
        walk: after.walk,
        outcome: after.outcome,
        ..before
    })
    &&& match before.walk.archive.admission_verdict(
        &after.place,
        len,
        "guest output count or per-file archive size exceeds its limit"@,
    ) {
        Err(fault) => ended(fault, after),
        Ok(_) => {
            &&& before.walk.archive.charged(&after.place, len, &after.walk.archive)
            &&& after.walk == (TreeWalk { archive: after.walk.archive, ..before.walk })
            &&& after.step == step
            &&& after.outcome == before.outcome
        },
    }
}

/// The path of a directory of the guest's run.
pub open spec fn directory_text(mounted: HostPath, name: Seq<char>) -> Seq<char> {
    host_path::joined_text(mounted.style, mounted.shown@, name)
}

impl Collection {
    fn end(&mut self, error: SandboxError)
        ensures
            ended(error@, *final(self)),
            final(self).consistent(),
            *final(self) == (Collection {
                step: CollectStep::Done,
                outcome: final(self).outcome,
                ..*old(self)
            }),
    {
        self.step = CollectStep::Done;
        self.outcome = Some(Err(error));
    }

    fn judge(&mut self, verdict: SandboxResult<()>, step: CollectStep)
        requires
            verdict is Ok ==> (Collection { step, ..*old(self) }).consistent(),
        ensures
            judged(*old(self), backend::outcome(verdict), step, *final(self)),
            final(self).consistent(),
    {
        match verdict {
            Err(error) => self.end(error),
            Ok(_) => {
                self.step = step;
            },
        }
    }

    fn keep(&mut self, prefix: &str, name: &str, len: u64, step: CollectStep)
        requires
            old(self).going_on(),
            old(self).walk.archive.settled(),
            stage(old(self).step) >= 1,
            old(self).authenticated(&old(self).envelope->0),
            is_copy(step),
            (Collection { step, ..*old(self) }).step_fits(),
            (Collection { step, ..*old(self) }).copied_bytes().len() == len,
            step == CollectStep::CopyResult ==> old(self).bytes@ == old(self).result@,
        ensures
            kept(*old(self), prefix@, name@, len, step, *final(self)),
            final(self).consistent(),
    {
        self.place = archived_place(self.archive_root.style, prefix, name);
        let ghost before = self.walk.archive;
        match self.walk.archive.archive_known_file(&self.place, len) {
            Err(error) => self.end(error),
            Ok(_) => {
                self.step = step;
                proof {
                    result_collector::lemma_charged(before, self.walk.archive, &self.place, len);
                }
            },
        }
    }
}

// ---------------------------------------------------------------------------------------------
// The result and the published states
// ---------------------------------------------------------------------------------------------

/// The verdict on a directory of the guest's run.
pub open spec fn look_verdict(shown: Seq<char>, look: Look) -> Result<(), backend::Fault> {
    match look {
        Look::Found(facts) => result_collector::plain_directory_verdict(shown, facts),
        Look::Failed(source) => Err(
            tree_walk::sourced("inspect guest output directory "@ + shown, source@),
        ),
        Look::Missing => Ok(()),
    }
}

pub fn judge_look(shown: &str, look: &Look) -> (verdict: SandboxResult<()>)
    ensures
        backend::outcome(verdict) == look_verdict(shown@, *look),
{
    match look {
        Look::Found(facts) => validate_plain_directory(shown, *facts),
        Look::Failed(source) => {
            let message = text::cat2("inspect guest output directory ", shown);
            Err(sourced_error(message.as_str(), source.as_str()))
        },
        Look::Missing => Ok(()),
    }
}

pub open spec fn archive_root_verdict(path: HostPath) -> Result<(), backend::Fault> {
    if path.absolute {
        Ok(())
    } else {
        Err(result_collector::collection_fault("artifact archive root must be absolute"@))
    }
}

/// What follows on the result that was read.
pub open spec fn result_taken(before: Collection, read: Reading<ResultFile>, after: Collection) -> bool {
    match read {
        Reading::Missing => after == before,
        Reading::Failed(error) => ended(error@, after),
        Reading::Malformed(source) => ended(
            tree_walk::sourced("guest result.json is malformed"@, source@),
            after,
        ),
        Reading::Got(file) => match result_collector::result_verdict(
            &file.envelope,
            before.run_id@,
        ) {
            Err(fault) => ended(fault, after),
            Ok(_) => match guest_protocol::sha256_verdict(before.request_sha256@) {
                Err(fault) => ended(result_collector::protocol_refusal(fault), after),
                Ok(_) => after == (Collection {
                    step: CollectStep::InspectStatus,
                    bytes: file.bytes,
                    envelope: Some(file.envelope),
                    result: after.result,
                    ..before
                }) && after.result@ == file.bytes@,
            },
        },
    }
}

/// What follows on an entry of the status directory.
pub open spec fn entry_listed(
    before: Collection,
    listed: Result<Option<StatusListing>, String>,
    after: Collection,
) -> bool {
    match listed {
        Err(source) => ended(
            tree_walk::sourced("read a guest protocol status entry"@, source@),
            after,
        ),
        Ok(None) => moved(before, CollectStep::ReadRecord(0), after),
        Ok(Some(listing)) => match result_collector::status_entry_verdict(
            (before.entries + 1) as u64,
            text::view_option(listing.name),
        ) {
            Err(fault) => ended(fault, after),
            Ok(_) => after == (Collection {
                step: CollectStep::InspectEntry,
                entries: (before.entries + 1) as u64,
                listed: listing.shown,
                ..before
            }),
        },
    }
}

/// The verdict on what an entry of the status directory is.
pub open spec fn entry_verdict(shown: Seq<char>, look: Look) -> Result<(), backend::Fault> {
    match look {
        Look::Found(facts) => backend::both(
            result_collector::link_verdict(shown, facts),
            if facts.regular {
                Ok(())
            } else {
                Err(
                    result_collector::collection_fault(
                        "guest protocol status entries must be regular files"@,
                    ),
                )
            },
        ),
        Look::Failed(source) => Err(
            tree_walk::sourced("inspect a guest protocol status entry"@, source@),
        ),
        Look::Missing => Ok(()),
    }
}

/// What follows behind the record of a state: the next state, or the check of all records and then
/// the first file of the archive.
pub open spec fn records_after(before: Collection, index: usize, after: Collection) -> bool {
    if index + 1 < STATE_COUNT {
        moved(before, CollectStep::ReadRecord((index + 1) as usize), after)
    } else {
        match result_collector::status_chain_verdict(
            before.records@,
            before.run_id@,
            before.request_sha256@,
            digest::sha256_text(before.bytes@),
            (before.envelope->0).outcome,
        ) {
            Err(fault) => ended(fault, after),
            Ok(_) => {
                &&& after.history@ == before.records@
                &&& after.records@.len() == 0
                &&& kept(
                    Collection { history: after.history, records: after.records, ..before },
                    "guest-output"@,
                    "result.json"@,
                    before.bytes@.len() as u64,
                    CollectStep::CopyResult,
                    after,
                )
            },
        }
    }
}

pub open spec fn record_taken(
    before: Collection,
    index: usize,
    read: Reading<StatusRecord>,
    after: Collection,
) -> bool {
    match read {
        Reading::Missing => records_after(before, index, after),
        Reading::Failed(error) => ended(error@, after),
        Reading::Malformed(source) => ended(
            tree_walk::sourced(
                "guest protocol status "@ + status_file_name(index as int) + " is malformed"@,
                source@,
            ),
            after,
        ),
        Reading::Got(record) => if record.state != result_collector::protocol_states()[index as int] {
            ended(
                result_collector::collection_fault(
                    "guest protocol status filename contradicts its encoded state"@,
                ),
                after,
            )
        } else {
            exists|records: Vec<StatusRecord>|
                #![trigger records@]
                records@ == before.records@.push(record) && records_after(
                    Collection { records, ..before },
                    index,
                    after,
                )
        },
    }
}

impl Collection {
    pub fn new(
        limits: &CollectionLimits,
        mounted: HostPath,
        archive_root: HostPath,
        run_id: String,
        request_sha256: String,
    ) -> (started: SandboxResult<Collection>)
        ensures
            match (limits.verdict(), started) {
                (Err(fault), Err(error)) => error@ == fault,
                (Ok(_), Ok(run)) => {
                    &&& run.consistent()
                    &&& run.step == CollectStep::InspectOutput
                    &&& run.limits == *limits
                    &&& run.mounted == mounted
                    &&& run.archive_root == archive_root
                    &&& run.run_id == run_id
                    &&& run.request_sha256 == request_sha256
                    &&& run.walk.step == TreeStep::Idle
                    &&& run.walk.archive.artifacts@.len() == 0
                    &&& run.walk.archive.archived_paths@.len() == 0
                    &&& run.walk.archive.total_bytes == 0
                    &&& run.walk.archive.visited_entries == 0
                    &&& run.envelope is None
                    &&& run.entries == 0
                    &&& run.records@.len() == 0
                    &&& run.outcome is None
                    &&& run.stdout is None
                    &&& run.stderr is None
                    &&& run.warnings is None
                    &&& !run.discard
                },
                _ => false,
            },
    {
        match validate_limits(limits) {
            Err(error) => {
                return Err(error);
            },
            Ok(_) => {},
        }
        let place = archived_place(archive_root.style, "guest-output", "result.json");
        Ok(
            Collection {
                step: CollectStep::InspectOutput,
                limits: *limits,
                mounted,
                archive_root,
                run_id,
                request_sha256,
                walk: TreeWalk::new(limits),
                envelope: None,
                result: Ghost(Seq::empty()),
                entries: 0,
                listed: "".to_owned(),
                records: Vec::new(),
                history: Ghost(Seq::empty()),
                bytes: Vec::new(),
                place,
                stdout: None,
                stderr: None,
                warnings: None,
                discard: false,
                outcome: None,
            },
        )
    }

    fn output_seen(&mut self, look: Look)
        requires
            old(self).going_on(),
            old(self).step == CollectStep::InspectOutput,
            !(look is Missing),
        ensures
            judged(
                *old(self),
                backend::both(
                    look_verdict(directory_text(old(self).mounted, "output"@), look),
                    archive_root_verdict(old(self).archive_root),
                ),
                CollectStep::CreateArchive,
                *final(self),
            ),
            final(self).consistent(),
    {
        let directory = self.mounted.join("output");
        match judge_look(directory.shown.as_str(), &look) {
            Err(error) => self.end(error),
            Ok(_) => {
                let verdict = prepare_archive_root(&self.archive_root);
                self.judge(verdict, CollectStep::CreateArchive);
            },
        }
    }

    fn archive_made(&mut self, made: Result<(), String>)
        requires
            old(self).going_on(),
            old(self).step == CollectStep::CreateArchive,
        ensures
            match made {
                Ok(_) => moved(*old(self), CollectStep::ReadResult, *final(self)),
                Err(source) => ended(
                    tree_walk::sourced("create a new artifact archive root"@, source@),
                    *final(self),
                ),
            },
            final(self).consistent(),
    {
        match made {
            Ok(_) => {
                self.step = CollectStep::ReadResult;
            },
            Err(source) => {
                self.end(sourced_error("create a new artifact archive root", source.as_str()));
            },
        }
    }

    fn take_result(&mut self, read: Reading<ResultFile>)
        requires
            old(self).going_on(),
            old(self).step == CollectStep::ReadResult,
        ensures
            result_taken(*old(self), read, *final(self)),
            final(self).consistent(),
    {
        match read {
            Reading::Missing => {},
            Reading::Failed(error) => self.end(error),
            Reading::Malformed(source) => {
                self.end(sourced_error("guest result.json is malformed", source.as_str()));
            },
            Reading::Got(file) => match accept_result(&file.envelope, self.run_id.as_str()) {
                Err(error) => self.end(error),
                Ok(_) => match check_request_digest(self.request_sha256.as_str()) {
                    Err(error) => self.end(error),
                    Ok(_) => {
                        self.result = Ghost(file.bytes@);
                        self.bytes = file.bytes;
                        self.envelope = Some(file.envelope);
                        self.step = CollectStep::InspectStatus;
                    },
                },
            },
        }
    }

    fn status_seen(&mut self, look: Look)
        requires
            old(self).going_on(),
            old(self).step == CollectStep::InspectStatus,
            !(look is Missing),
        ensures
            judged(
                *old(self),
                look_verdict(directory_text(old(self).mounted, "status"@), look),
                CollectStep::OpenStatus,
                *final(self),
            ),
            final(self).consistent(),
    {
        let directory = self.mounted.join("status");
        let verdict = judge_look(directory.shown.as_str(), &look);
        self.judge(verdict, CollectStep::OpenStatus);
    }

    fn status_opened(&mut self, made: Result<(), String>)
        requires
            old(self).going_on(),
            old(self).step == CollectStep::OpenStatus,
        ensures
            match made {
                Ok(_) => moved(*old(self), CollectStep::NextStatus, *final(self)),
                Err(source) => ended(
                    tree_walk::sourced("enumerate guest protocol status directory"@, source@),
                    *final(self),
                ),
            },
            final(self).consistent(),
    {
        match made {
            Ok(_) => {
                self.step = CollectStep::NextStatus;
            },
            Err(source) => {
                self.end(
                    sourced_error("enumerate guest protocol status directory", source.as_str()),
                );
            },
        }
    }

    fn list_entry(&mut self, listed: Result<Option<StatusListing>, String>)
        requires
            old(self).going_on(),
            old(self).step == CollectStep::NextStatus,
        ensures
            entry_listed(*old(self), listed, *final(self)),
            final(self).consistent(),
    {
        match listed {
            Err(source) => {
                self.end(sourced_error("read a guest protocol status entry", source.as_str()));
            },
            Ok(None) => {
                self.step = CollectStep::ReadRecord(0);
            },
            Ok(Some(listing)) => {
                let count: u64 = self.entries + 1;
                match check_status_entry(count, &listing.name) {
                    Err(error) => self.end(error),
                    Ok(_) => {
                        self.entries = count;
                        self.listed = listing.shown;
                        self.step = CollectStep::InspectEntry;
                    },
                }
            },
        }
    }

    fn entry_seen(&mut self, look: Look)
        requires
            old(self).going_on(),
            old(self).step == CollectStep::InspectEntry,
            !(look is Missing),
        ensures
            judged(
                *old(self),
                entry_verdict(old(self).listed@, look),
                CollectStep::NextStatus,
                *final(self),
            ),
            final(self).consistent(),
    {
        match look {
            Look::Found(facts) => {
                let verdict = check_status_file(self.listed.as_str(), facts);
                self.judge(verdict, CollectStep::NextStatus);
            },
            Look::Failed(source) => {
                self.end(sourced_error("inspect a guest protocol status entry", source.as_str()));
            },
            Look::Missing => {},
        }
    }

    fn next_record(&mut self, index: usize)
        requires
            old(self).going_on(),
            old(self).step == CollectStep::ReadRecord(index),
        ensures
            records_after(*old(self), index, *final(self)),
            final(self).consistent(),
    {
        if index + 1 < STATE_COUNT {
            self.step = CollectStep::ReadRecord(index + 1);
            return;
        }
        let outcome = match &self.envelope {
            Some(envelope) => envelope.outcome,
            None => {
                return;
            },
        };
        let result_sha256 = digest::sha256_bytes(self.bytes.as_slice());
        let mut records: Vec<StatusRecord> = Vec::new();
        std::mem::swap(&mut records, &mut self.records);
        let ghost history = records@;
        match validate_status_chain(
            records,
            self.run_id.as_str(),
            self.request_sha256.as_str(),
            result_sha256.as_str(),
            outcome,
        ) {
            Err(error) => self.end(error),
            Ok(_) => {
                self.history = Ghost(history);
                let len: u64 = self.bytes.len() as u64;
                self.keep("guest-output", "result.json", len, CollectStep::CopyResult);
            },
        }
    }

    fn take_record(&mut self, index: usize, read: Reading<StatusRecord>)
        requires
            old(self).going_on(),
            old(self).step == CollectStep::ReadRecord(index),
        ensures
            record_taken(*old(self), index, read, *final(self)),
            final(self).consistent(),
    {
        match read {
            Reading::Missing => self.next_record(index),
            Reading::Failed(error) => self.end(error),
            Reading::Malformed(source) => {
                let message = text::cat3(
                    "guest protocol status ",
                    status_file(index),
                    " is malformed",
                );
                self.end(sourced_error(message.as_str(), source.as_str()));
            },
            Reading::Got(record) => {
                let states = all_protocol_states();
                match check_status_record(states[index], &record) {
                    Err(error) => self.end(error),
                    Ok(_) => {
                        let ghost before = *self;
                        self.records.push(record);
                        let ghost records = self.records;
                        self.next_record(index);
                        proof {
                            assert(records@ == before.records@.push(record));
                        }
                    },
                }
            },
        }
    }
}

// ---------------------------------------------------------------------------------------------
// The streams, the event lists and what else was left
// ---------------------------------------------------------------------------------------------

pub open spec fn streams_after(before: Collection, after: Collection) -> bool {
    if before.executed() {
        moved(before, CollectStep::ReadEvents(0), after)
    } else {
        moved(before, CollectStep::FindTree(0), after)
    }
}

pub open spec fn stderr_kept(before: Collection, after: Collection) -> bool {
    match before.stderr {
        Some(bytes) => kept(
            before,
            "guest-output"@,
            "stderr.txt"@,
            bytes@.len() as u64,
            CollectStep::CopyStderr,
            after,
        ),
        None => streams_after(before, after),
    }
}

pub open spec fn streams_kept(before: Collection, after: Collection) -> bool {
    match before.stdout {
        Some(bytes) => kept(
            before,
            "guest-output"@,
            "stdout.txt"@,
            bytes@.len() as u64,
            CollectStep::CopyStdout,
            after,
        ),
        None => stderr_kept(before, after),
    }
}

pub open spec fn stdout_taken(before: Collection, read: Reading<Vec<u8>>, after: Collection) -> bool {
    match read {
        Reading::Missing => if before.executed() {
            after == before
        } else {
            moved(before, CollectStep::ReadStderr, after)
        },
        Reading::Failed(error) => ended(error@, after),
        Reading::Malformed(_) => after == before,
        Reading::Got(bytes) => after == (Collection {
            step: CollectStep::ReadStderr,
            stdout: Some(bytes),
            ..before
        }),
    }
}

pub open spec fn stderr_taken(before: Collection, read: Reading<Vec<u8>>, after: Collection) -> bool {
    match read {
        Reading::Missing => if before.executed() {
            after == before
        } else {
            streams_kept(before, after)
        },
        Reading::Failed(error) => ended(error@, after),
        Reading::Malformed(_) => after == before,
        Reading::Got(bytes) => streams_kept(Collection { stderr: Some(bytes), ..before }, after),
    }
}

pub open spec fn events_taken(
    before: Collection,
    index: usize,
    read: Reading<EventFile>,
    after: Collection,
) -> bool {
    match read {
        Reading::Missing => after == before,
        Reading::Failed(error) => ended(error@, after),
        Reading::Malformed(_) => after == before,
        Reading::Got(file) => match result_collector::event_list_verdict(
            event_list_name(index as int),
            result_collector::json_comparison(file.observed@, file.expected@),
        ) {
            Err(fault) => ended(fault, after),
            Ok(_) => kept(
                Collection { bytes: file.observed, ..before },
                "guest-output"@,
                event_list_name(index as int),
                file.observed@.len() as u64,
                CollectStep::CopyEvents(index),
                after,
            ),
        },
    }
}

pub open spec fn trees_after(before: Collection, index: usize, after: Collection) -> bool {
    if index + 1 < TREE_COUNT {
        moved(before, CollectStep::FindTree((index + 1) as usize), after)
    } else {
        moved(before, CollectStep::ReadWarnings, after)
    }
}

/// The path of a directory of the output.
pub open spec fn tree_text(mounted: HostPath, index: usize) -> Seq<char> {
    host_path::joined_text(
        mounted.style,
        directory_text(mounted, "output"@),
        tree_name(index as int),
    )
}

pub open spec fn tree_found(before: Collection, index: usize, look: Look, after: Collection) -> bool {
    match look {
        Look::Missing => trees_after(before, index, after),
        _ => match look_verdict(tree_text(before.mounted, index), look) {
            Err(fault) => ended(fault, after),
            Ok(_) => {
                &&& after.walk == (TreeWalk {
                    step: TreeStep::Open,
                    depth: 0,
                    directory: after.walk.directory,
                    entry: None,
                    ..before.walk
                })
                &&& after.walk.directory@ == tree_text(before.mounted, index)
                &&& after == (Collection {
                    step: CollectStep::WalkTree(index),
                    walk: after.walk,
                    ..before
                })
            },
        },
    }
}

/// What follows on a step of the walk.
pub open spec fn tree_walked(
    before: Collection,
    index: usize,
    event: TreeEvent,
    after: Collection,
) -> bool {
    exists|walk: TreeWalk|
        #![trigger tree_walk::walked(before.walk, event, walk)]
        {
            &&& tree_walk::walked(before.walk, event, walk)
            &&& match walk.step {
                TreeStep::Idle => trees_after(Collection { walk, ..before }, index, after),
                TreeStep::Failed => walk.failure matches Some(error) && ended(error@, after),
                _ => after == (Collection { walk, ..before }),
            }
        }
}

pub open spec fn warnings_taken(before: Collection, read: Reading<Vec<u8>>, after: Collection) -> bool {
    match read {
        Reading::Missing => moved(before, CollectStep::ReadStatus(0), after),
        Reading::Failed(error) => ended(error@, after),
        Reading::Malformed(_) => after == before,
        Reading::Got(bytes) => kept(
            Collection { warnings: Some(bytes), ..before },
            "guest-output"@,
            "warnings.txt"@,
            bytes@.len() as u64,
            CollectStep::CopyWarnings,
            after,
        ),
    }
}

/// Everything is archived: the collection ends with what was collected, unless the result claims
/// more.
pub open spec fn finished(before: Collection, after: Collection) -> bool {
    match result_collector::claims_verdict(
        (before.envelope->0).artifacts@,
        before.walk.archive.artifacts@,
        0,
    ) {
        Err(fault) => ended(fault, after),
        Ok(_) => {
            &&& after.step == CollectStep::Done
            &&& after.outcome matches Some(Ok(output)) && {
                &&& Some(output.result) == before.envelope
                &&& output.artifacts == before.walk.archive.artifacts
                &&& output.total_bytes == before.walk.archive.total_bytes
                &&& output.stdout@ == result_collector::decoded_stream(bytes_of(before.stdout))
                &&& output.stderr@ == result_collector::decoded_stream(bytes_of(before.stderr))
                &&& text::views(output.warnings@) == match before.warnings {
                    Some(bytes) => result_collector::warning_lines(text::utf8_lossy(bytes@)),
                    None => Seq::empty(),
                }
            }
        },
    }
}

pub open spec fn statuses_after(before: Collection, index: usize, after: Collection) -> bool {
    if index < STATE_COUNT {
        moved(before, CollectStep::ReadStatus((index + 1) as usize), after)
    } else {
        finished(before, after)
    }
}

pub open spec fn status_taken(
    before: Collection,
    index: usize,
    read: Reading<Vec<u8>>,
    after: Collection,
) -> bool {
    match read {
        Reading::Missing => statuses_after(before, index, after),
        Reading::Failed(error) => ended(error@, after),
        Reading::Malformed(_) => after == before,
        Reading::Got(bytes) => kept(
            Collection { bytes, ..before },
            "guest-status"@,
            status_file_name(index as int),
            bytes@.len() as u64,
            CollectStep::CopyStatus(index),
            after,
        ),
    }
}

/// What follows behind a file that was copied and recorded.
pub open spec fn copies_after(before: Collection, after: Collection) -> bool {
    match before.step {
        CollectStep::CopyResult => moved(before, CollectStep::ReadStdout, after),
        CollectStep::CopyStdout => stderr_kept(before, after),
        CollectStep::CopyStderr => streams_after(before, after),
        CollectStep::CopyEvents(index) => if index + 1 < EVENT_LIST_COUNT {
            moved(before, CollectStep::ReadEvents((index + 1) as usize), after)
        } else {
            moved(before, CollectStep::FindTree(0), after)
        },
        CollectStep::CopyWarnings => moved(before, CollectStep::ReadStatus(0), after),
        CollectStep::CopyStatus(index) => statuses_after(before, index, after),
        _ => after == before,
    }
}

pub open spec fn with_archive(before: Collection, archive: Archive) -> Collection {
    Collection { walk: TreeWalk { archive, ..before.walk }, ..before }
}

pub open spec fn file_copied(
    before: Collection,
    copied: SandboxResult<String>,
    after: Collection,
) -> bool {
    match copied {
        Err(error) => ended(error@, after),
        Ok(sha256) => if sha256@ != digest::sha256_text(before.copied_bytes()) {
            &&& ended(
                result_collector::collection_fault(
                    "guest output changed between validation and archival"@,
                ),
                after,
            )
            &&& after.discard
        } else {
            exists|archive: Archive|
                #![trigger with_archive(before, archive)]
                before.walk.archive.recorded(
                    &before.place,
                    before.copied_bytes().len() as u64,
                    sha256@,
                    &archive,
                ) && copies_after(with_archive(before, archive), after)
        },
    }
}

impl Collection {
    /// The step of a file behind the records, once nothing of it is to be copied any more.
    pub open spec fn between(&self) -> bool {
        &&& self.going_on()
        &&& stage(self.step) == 2
        &&& !is_copy(self.step)
        &&& match self.step {
            CollectStep::WalkTree(_) => false,
            _ => true,
        }
    }

    fn after_streams(&mut self)
        requires
            old(self).between(),
        ensures
            streams_after(*old(self), *final(self)),
            final(self).consistent(),
    {
        if self.has_execution() {
            self.step = CollectStep::ReadEvents(0);
        } else {
            self.step = CollectStep::FindTree(0);
        }
    }

    fn keep_stderr(&mut self)
        requires
            old(self).between(),
        ensures
            stderr_kept(*old(self), *final(self)),
            final(self).consistent(),
    {
        match &self.stderr {
            Some(bytes) => {
                let len: u64 = bytes.len() as u64;
                self.keep("guest-output", "stderr.txt", len, CollectStep::CopyStderr);
            },
            None => self.after_streams(),
        }
    }

    fn keep_streams(&mut self)
        requires
            old(self).between(),
        ensures
            streams_kept(*old(self), *final(self)),
            final(self).consistent(),
    {
        match &self.stdout {
            Some(bytes) => {
                let len: u64 = bytes.len() as u64;
                self.keep("guest-output", "stdout.txt", len, CollectStep::CopyStdout);
            },
            None => self.keep_stderr(),
        }
    }

    fn has_execution(&self) -> (yes: bool)
        ensures
            yes == self.executed(),
    {
        match &self.envelope {
            Some(envelope) => envelope.execution.is_some(),
            None => false,
        }
    }

    fn take_stdout(&mut self, read: Reading<Vec<u8>>)
        requires
            old(self).going_on(),
            old(self).step == CollectStep::ReadStdout,
        ensures
            stdout_taken(*old(self), read, *final(self)),
            final(self).consistent(),
    {
        match read {
            Reading::Missing => {
                if !self.has_execution() {
                    self.step = CollectStep::ReadStderr;
                }
            },
            Reading::Failed(error) => self.end(error),
            Reading::Malformed(_) => {},
            Reading::Got(bytes) => {
                self.stdout = Some(bytes);
                self.step = CollectStep::ReadStderr;
            },
        }
    }

    fn take_stderr(&mut self, read: Reading<Vec<u8>>)
        requires
            old(self).going_on(),
            old(self).step == CollectStep::ReadStderr,
        ensures
            stderr_taken(*old(self), read, *final(self)),
            final(self).consistent(),
    {
        match read {
            Reading::Missing => {
                if !self.has_execution() {
                    self.keep_streams();
                }
            },
            Reading::Failed(error) => self.end(error),
            Reading::Malformed(_) => {},
            Reading::Got(bytes) => {
                self.stderr = Some(bytes);
                self.keep_streams();
            },
        }
    }

    fn take_events(&mut self, index: usize, read: Reading<EventFile>)
        requires
            old(self).going_on(),
            old(self).step == CollectStep::ReadEvents(index),
        ensures
            events_taken(*old(self), index, read, *final(self)),
            final(self).consistent(),
    {
        match read {
            Reading::Missing => {},
            Reading::Failed(error) => self.end(error),
            Reading::Malformed(_) => {},
            Reading::Got(file) => {
                let name = event_list_file(index);
                match check_event_list(name, file.observed.as_slice(), file.expected.as_slice()) {
                    Err(error) => self.end(error),
                    Ok(_) => {
                        let len: u64 = file.observed.len() as u64;
                        self.bytes = file.observed;
                        self.keep("guest-output", name, len, CollectStep::CopyEvents(index));
                    },
                }
            },
        }
    }

    fn after_trees(&mut self, index: usize)
        requires
            index < TREE_COUNT,
            old(self).going_on(),
            old(self).walk.archive.settled(),
            old(self).step == CollectStep::FindTree(index) || old(self).step
                == CollectStep::WalkTree(index),
        ensures
            trees_after(*old(self), index, *final(self)),
            final(self).consistent(),
    {
        if index + 1 < TREE_COUNT {
            self.step = CollectStep::FindTree(index + 1);
        } else {
            self.step = CollectStep::ReadWarnings;
        }
    }

    fn find_tree(&mut self, index: usize, look: Look)
        requires
            old(self).going_on(),
            old(self).step == CollectStep::FindTree(index),
        ensures
            tree_found(*old(self), index, look, *final(self)),
            final(self).consistent(),
    {
        match look {
            Look::Missing => self.after_trees(index),
            _ => {
                let output = self.mounted.join("output");
                let directory = output.join(tree_directory(index));
                match judge_look(directory.shown.as_str(), &look) {
                    Err(error) => self.end(error),
                    Ok(_) => {
                        self.walk.enter(directory.shown);
                        self.step = CollectStep::WalkTree(index);
                    },
                }
            },
        }
    }

    fn walk_tree(&mut self, index: usize, event: TreeEvent)
        requires
            old(self).going_on(),
            old(self).step == CollectStep::WalkTree(index),
        ensures
            tree_walked(*old(self), index, event, *final(self)),
            final(self).consistent(),
    {
        let ghost before = self.walk;
        self.walk.advance(event);
        let ghost walk = self.walk;
        proof {
            assert(tree_walk::walked(before, event, walk));
            tree_walk::walks_stay_within_limits(before, event, walk);
        }
        match self.walk.step {
            TreeStep::Idle => self.after_trees(index),
            TreeStep::Failed => match self.walk.failure.take() {
                Some(error) => self.end(error),
                None => {},
            },
            _ => {},
        }
    }

    fn take_warnings(&mut self, read: Reading<Vec<u8>>)
        requires
            old(self).going_on(),
            old(self).step == CollectStep::ReadWarnings,
        ensures
            warnings_taken(*old(self), read, *final(self)),
            final(self).consistent(),
    {
        match read {
            Reading::Missing => {
                self.step = CollectStep::ReadStatus(0);
            },
            Reading::Failed(error) => self.end(error),
            Reading::Malformed(_) => {},
            Reading::Got(bytes) => {
                let len: u64 = bytes.len() as u64;
                self.warnings = Some(bytes);
                self.keep("guest-output", "warnings.txt", len, CollectStep::CopyWarnings);
            },
        }
    }

    fn finish(&mut self)
        requires
            old(self).between(),
        ensures
            finished(*old(self), *final(self)),
            final(self).consistent(),
    {
        let envelope = match self.envelope.take() {
            Some(envelope) => envelope,
            None => {
                return;
            },
        };
        let limits = self.limits;
        let mut archive = Archive::new(&limits);
        std::mem::swap(&mut archive, &mut self.walk.archive);
        let none: Vec<u8> = Vec::new();
        proof {
            assert(none@ =~= Seq::<u8>::empty());
        }
        let stdout = match &self.stdout {
            Some(bytes) => bytes.as_slice(),
            None => none.as_slice(),
        };
        let stderr = match &self.stderr {
            Some(bytes) => bytes.as_slice(),
            None => none.as_slice(),
        };
        let warnings = match &self.warnings {
            Some(bytes) => Some(bytes.as_slice()),
            None => None,
        };
        let outcome = collect(envelope, archive, stdout, stderr, warnings);
        self.outcome = Some(outcome);
        self.step = CollectStep::Done;
    }

    fn after_statuses(&mut self, index: usize)
        requires
            index <= STATE_COUNT,
            old(self).between(),
        ensures
            statuses_after(*old(self), index, *final(self)),
            final(self).consistent(),
    {
        if index < STATE_COUNT {
            self.step = CollectStep::ReadStatus(index + 1);
        } else {
            self.finish();
        }
    }

    fn take_status(&mut self, index: usize, read: Reading<Vec<u8>>)
        requires
            old(self).going_on(),
            old(self).step == CollectStep::ReadStatus(index),
        ensures
            status_taken(*old(self), index, read, *final(self)),
            final(self).consistent(),
    {
        match read {
            Reading::Missing => self.after_statuses(index),
            Reading::Failed(error) => self.end(error),
            Reading::Malformed(_) => {},
            Reading::Got(bytes) => {
                let len: u64 = bytes.len() as u64;
                self.bytes = bytes;
                self.keep("guest-status", status_file(index), len, CollectStep::CopyStatus(index));
            },
        }
    }
}

impl Collection {
    /// Records the file that was copied, unless the copy is not what was checked.
    fn record_copy(&mut self, sha256: String) -> (verdict: SandboxResult<()>)
        requires
            old(self).going_on(),
            is_copy(old(self).step),
        ensures
            match verdict {
                Err(error) => {
                    &&& sha256@ != digest::sha256_text(old(self).copied_bytes())
                    &&& *final(self) == *old(self)
                    &&& error@ == result_collector::collection_fault(
                        "guest output changed between validation and archival"@,
                    )
                },
                Ok(_) => {
                    &&& sha256@ == digest::sha256_text(old(self).copied_bytes())
                    &&& old(self).walk.archive.recorded(
                        &old(self).place,
                        old(self).copied_bytes().len() as u64,
                        sha256@,
                        &final(self).walk.archive,
                    )
                    &&& *final(self) == with_archive(*old(self), final(self).walk.archive)
                    &&& final(self).walk.archive.settled()
                },
            },
    {
        let ghost before = self.walk.archive;
        let ghost len = self.copied_bytes().len() as u64;
        let verdict = match self.step {
            CollectStep::CopyStdout => match &self.stdout {
                Some(bytes) => self.walk.archive.record_known_file(
                    &self.place,
                    bytes.as_slice(),
                    sha256,
                ),
                None => Ok(()),
            },
            CollectStep::CopyStderr => match &self.stderr {
                Some(bytes) => self.walk.archive.record_known_file(
                    &self.place,
                    bytes.as_slice(),
                    sha256,
                ),
                None => Ok(()),
            },
            CollectStep::CopyWarnings => match &self.warnings {
                Some(bytes) => self.walk.archive.record_known_file(
                    &self.place,
                    bytes.as_slice(),
                    sha256,
                ),
                None => Ok(()),
            },
            _ => self.walk.archive.record_known_file(&self.place, self.bytes.as_slice(), sha256),
        };
        proof {
            if verdict is Ok {
                result_collector::lemma_recorded(before, self.walk.archive, &self.place, len, sha256@);
            }
        }
        verdict
    }

    fn take_copy(&mut self, copied: SandboxResult<String>)
        requires
            old(self).going_on(),
            is_copy(old(self).step),
        ensures
            file_copied(*old(self), copied, *final(self)),
            final(self).consistent(),
    {
        let sha256 = match copied {
            Err(error) => {
                self.end(error);
                return;
            },
            Ok(sha256) => sha256,
        };
        match self.record_copy(sha256) {
            Err(error) => {
                self.discard = true;
                self.end(error);
                return;
            },
            Ok(_) => {},
        }
        let ghost before = *old(self);
        let ghost archive = self.walk.archive;
        proof {
            assert(*self == with_archive(before, archive));
        }
        match self.step {
            CollectStep::CopyResult => {
                self.step = CollectStep::ReadStdout;
            },
            CollectStep::CopyStdout => {
                self.step = CollectStep::ReadStderr;
                self.keep_stderr();
            },
            CollectStep::CopyStderr => {
                self.step = CollectStep::ReadStderr;
                self.after_streams();
            },
            CollectStep::CopyEvents(index) => {
                if index + 1 < EVENT_LIST_COUNT {
                    self.step = CollectStep::ReadEvents(index + 1);
                } else {
                    self.step = CollectStep::FindTree(0);
                }
            },
            CollectStep::CopyWarnings => {
                self.step = CollectStep::ReadStatus(0);
            },
            CollectStep::CopyStatus(index) => {
                self.step = CollectStep::ReadStatus(index);
                self.after_statuses(index);
            },
            _ => {},
        }
        proof {
            assert(copies_after(with_archive(before, archive), *self));
        }
    }
}

// ---------------------------------------------------------------------------------------------
// The whole
// ---------------------------------------------------------------------------------------------

/// What one event makes of the collection. An event that is no answer to the step changes nothing.
pub open spec fn collected(before: Collection, event: CollectEvent, after: Collection) -> bool {
    match (before.step, event) {
        (CollectStep::InspectOutput, CollectEvent::Looked(look)) => if look is Missing {
            after == before
        } else {
            judged(
                before,
                backend::both(
                    look_verdict(directory_text(before.mounted, "output"@), look),
                    archive_root_verdict(before.archive_root),
                ),
                CollectStep::CreateArchive,
                after,
            )
        },
        (CollectStep::CreateArchive, CollectEvent::Made(made)) => match made {
            Ok(_) => moved(before, CollectStep::ReadResult, after),
            Err(source) => ended(
                tree_walk::sourced("create a new artifact archive root"@, source@),
                after,
            ),
        },
        (CollectStep::ReadResult, CollectEvent::ResultRead(read)) => result_taken(
            before,
            read,
            after,
        ),
        (CollectStep::InspectStatus, CollectEvent::Looked(look)) => if look is Missing {
            after == before
        } else {
            judged(
                before,
                look_verdict(directory_text(before.mounted, "status"@), look),
                CollectStep::OpenStatus,
                after,
            )
        },
        (CollectStep::OpenStatus, CollectEvent::Made(made)) => match made {
            Ok(_) => moved(before, CollectStep::NextStatus, after),
            Err(source) => ended(
                tree_walk::sourced("enumerate guest protocol status directory"@, source@),
                after,
            ),
        },
        (CollectStep::NextStatus, CollectEvent::Listed(listed)) => entry_listed(
            before,
            listed,
            after,
        ),
        (CollectStep::InspectEntry, CollectEvent::Looked(look)) => if look is Missing {
            after == before
        } else {
            judged(before, entry_verdict(before.listed@, look), CollectStep::NextStatus, after)
        },
        (CollectStep::ReadRecord(index), CollectEvent::RecordRead(read)) => record_taken(
            before,
            index,
            read,
            after,
        ),
        (CollectStep::ReadStdout, CollectEvent::FileRead(read)) => stdout_taken(before, read, after),
        (CollectStep::ReadStderr, CollectEvent::FileRead(read)) => stderr_taken(before, read, after),
        (CollectStep::ReadEvents(index), CollectEvent::EventsRead(read)) => events_taken(
            before,
            index,
            read,
            after,
        ),
        (CollectStep::FindTree(index), CollectEvent::Looked(look)) => tree_found(
            before,
            index,
            look,
            after,
        ),
        (CollectStep::WalkTree(index), CollectEvent::Tree(step)) => tree_walked(
            before,
            index,
            step,
            after,
        ),
        (CollectStep::ReadWarnings, CollectEvent::FileRead(read)) => warnings_taken(
            before,
            read,
            after,
        ),
        (CollectStep::ReadStatus(index), CollectEvent::FileRead(read)) => status_taken(
            before,
            index,
            read,
            after,
        ),
        (step, CollectEvent::Copied(copied)) => if is_copy(step) {
            file_copied(before, copied, after)
        } else {
            after == before
        },
        _ => after == before,
    }
}

impl Collection {
    /// Takes what came of the step.
    pub fn advance(&mut self, event: CollectEvent)
        requires
            old(self).consistent(),
        ensures
            collected(*old(self), event, *final(self)),
            final(self).consistent(),
    {
        match (self.step, event) {
            (CollectStep::InspectOutput, CollectEvent::Looked(look)) => match look {
                Look::Missing => {},
                _ => self.output_seen(look),
            },
            (CollectStep::CreateArchive, CollectEvent::Made(made)) => self.archive_made(made),
            (CollectStep::ReadResult, CollectEvent::ResultRead(read)) => self.take_result(read),
            (CollectStep::InspectStatus, CollectEvent::Looked(look)) => match look {
                Look::Missing => {},
                _ => self.status_seen(look),
            },
            (CollectStep::OpenStatus, CollectEvent::Made(made)) => self.status_opened(made),
            (CollectStep::NextStatus, CollectEvent::Listed(listed)) => self.list_entry(listed),
            (CollectStep::InspectEntry, CollectEvent::Looked(look)) => match look {
                Look::Missing => {},
                _ => self.entry_seen(look),
            },
            (CollectStep::ReadRecord(index), CollectEvent::RecordRead(read)) => self.take_record(
                index,
                read,
            ),
            (CollectStep::ReadStdout, CollectEvent::FileRead(read)) => self.take_stdout(read),
            (CollectStep::ReadStderr, CollectEvent::FileRead(read)) => self.take_stderr(read),
            (CollectStep::ReadEvents(index), CollectEvent::EventsRead(read)) => self.take_events(
                index,
                read,
            ),
            (CollectStep::FindTree(index), CollectEvent::Looked(look)) => self.find_tree(index, look),
            (CollectStep::WalkTree(index), CollectEvent::Tree(step)) => self.walk_tree(index, step),
            (CollectStep::ReadWarnings, CollectEvent::FileRead(read)) => self.take_warnings(read),
            (CollectStep::ReadStatus(index), CollectEvent::FileRead(read)) => self.take_status(
                index,
                read,
            ),
            (CollectStep::CopyResult, CollectEvent::Copied(copied)) => self.take_copy(copied),
            (CollectStep::CopyStdout, CollectEvent::Copied(copied)) => self.take_copy(copied),
            (CollectStep::CopyStderr, CollectEvent::Copied(copied)) => self.take_copy(copied),
            (CollectStep::CopyEvents(_), CollectEvent::Copied(copied)) => self.take_copy(copied),
            (CollectStep::CopyWarnings, CollectEvent::Copied(copied)) => self.take_copy(copied),
            (CollectStep::CopyStatus(_), CollectEvent::Copied(copied)) => self.take_copy(copied),
            _ => {},
        }
    }
}

// ---------------------------------------------------------------------------------------------
// What a step is about
// ---------------------------------------------------------------------------------------------

/// An entry of the guest's run that a step is about.
#[derive(Clone, Copy, Debug, PartialEq, Eq)]
pub struct Wanted {
    pub directory: GuestDirectory,
    pub file: PlannedFile,
}

pub open spec fn wanted_view(wanted: Option<Wanted>) -> Option<(GuestDirectory, PlannedView)> {
    match wanted {
        Some(entry) => Some((entry.directory, entry.file@)),
        None => None,
    }
}

pub open spec fn in_output(name: Seq<char>, maximum: u64, required: bool) -> Option<
    (GuestDirectory, PlannedView),
> {
    Some((GuestDirectory::Output, result_collector::planned(name, maximum, required)))
}

pub open spec fn in_status(index: usize) -> Option<(GuestDirectory, PlannedView)> {
    Some(
        (
            GuestDirectory::Status,
            result_collector::planned(status_file_name(index as int), MAX_STATUS_BYTES, false),
        ),
    )
}

pub fn output_file(name: &'static str, maximum: u64, required: bool) -> (wanted: Option<Wanted>)
    ensures
        wanted_view(wanted) == in_output(name@, maximum, required),
{
    Some(
        Wanted {
            directory: GuestDirectory::Output,
            file: PlannedFile { name, maximum, required },
        },
    )
}

pub fn state_file(index: usize) -> (wanted: Option<Wanted>)
    ensures
        wanted_view(wanted) == in_status(index),
{
    Some(
        Wanted {
            directory: GuestDirectory::Status,
            file: PlannedFile {
                name: status_file(index),
                maximum: MAX_STATUS_BYTES,
                required: false,
            },
        },
    )
}

impl Collection {
    pub open spec fn spec_wanted(&self) -> Option<(GuestDirectory, PlannedView)> {
        let stream = self.limits.maximum_stream_bytes;
        match self.step {
            CollectStep::ReadResult => in_output(
                "result.json"@,
                self.limits.maximum_result_bytes,
                true,
            ),
            CollectStep::CopyResult => in_output(
                "result.json"@,
                self.limits.maximum_result_bytes,
                true,
            ),
            CollectStep::ReadStdout => in_output("stdout.txt"@, stream, self.executed()),
            CollectStep::CopyStdout => in_output("stdout.txt"@, stream, self.executed()),
            CollectStep::ReadStderr => in_output("stderr.txt"@, stream, self.executed()),
            CollectStep::CopyStderr => in_output("stderr.txt"@, stream, self.executed()),
            CollectStep::ReadEvents(index) => in_output(event_list_name(index as int), stream, true),
            CollectStep::CopyEvents(index) => in_output(event_list_name(index as int), stream, true),
            CollectStep::FindTree(index) => in_output(tree_name(index as int), 0, false),
            CollectStep::WalkTree(index) => in_output(tree_name(index as int), 0, false),
            CollectStep::ReadWarnings => in_output("warnings.txt"@, stream, false),
            CollectStep::CopyWarnings => in_output("warnings.txt"@, stream, false),
            CollectStep::ReadRecord(index) => in_status(index),
            CollectStep::ReadStatus(index) => in_status(index),
            CollectStep::CopyStatus(index) => in_status(index),
            _ => None,
        }
    }

    /// The file or the directory that the step is about, if it is about one, how much of it may be
    /// read, and whether it must be there.
    pub fn wanted(&self) -> (wanted: Option<Wanted>)
        ensures
            wanted_view(wanted) == self.spec_wanted(),
    {
        let stream: u64 = self.limits.maximum_stream_bytes;
        let executed = self.has_execution();
        match self.step {
            CollectStep::ReadResult => output_file(
                "result.json",
                self.limits.maximum_result_bytes,
                true,
            ),
            CollectStep::CopyResult => output_file(
                "result.json",
                self.limits.maximum_result_bytes,
                true,
            ),
            CollectStep::ReadStdout => output_file("stdout.txt", stream, executed),
            CollectStep::CopyStdout => output_file("stdout.txt", stream, executed),
            CollectStep::ReadStderr => output_file("stderr.txt", stream, executed),
            CollectStep::CopyStderr => output_file("stderr.txt", stream, executed),
            CollectStep::ReadEvents(index) => output_file(event_list_file(index), stream, true),
            CollectStep::CopyEvents(index) => output_file(event_list_file(index), stream, true),
            CollectStep::FindTree(index) => output_file(tree_directory(index), 0, false),
            CollectStep::WalkTree(index) => output_file(tree_directory(index), 0, false),
            CollectStep::ReadWarnings => output_file("warnings.txt", stream, false),
            CollectStep::CopyWarnings => output_file("warnings.txt", stream, false),
            CollectStep::ReadRecord(index) => state_file(index),
            CollectStep::ReadStatus(index) => state_file(index),
            CollectStep::CopyStatus(index) => state_file(index),
            _ => None,
        }
    }

    /// The length of the file that is to be copied.
    pub fn copied_len(&self) -> (len: u64)
        ensures
            len == self.copied_bytes().len() as u64,
    {
        match self.step {
            CollectStep::CopyStdout => len_of(&self.stdout),
            CollectStep::CopyStderr => len_of(&self.stderr),
            CollectStep::CopyWarnings => len_of(&self.warnings),
            _ => self.bytes.len() as u64,
        }
    }
}

fn len_of(held: &Option<Vec<u8>>) -> (len: u64)
    ensures
        len == bytes_of(*held).len() as u64,
{
    match held {
        Some(bytes) => bytes.len() as u64,
        None => 0,
    }
}

// ---------------------------------------------------------------------------------------------
// Laws
// ---------------------------------------------------------------------------------------------

/// A claimed artifact is among the collected ones, with the size and the digest that it claims.
pub open spec fn was_collected(
    claimed: ArtifactManifestEntry,
    artifacts: Seq<CollectedArtifact>,
) -> bool {
    result_collector::collected_at(artifacts, result_collector::claimed_key(&claimed)) matches Some(
        observed,
    ) && observed.size_bytes == claimed.size_bytes && text::same_ignoring_case(
        observed.sha256@,
        claimed.sha256@,
    )
}

/// What was collected is authenticated: the result is of the run, every record of the history that
/// it was checked against is bound to the staged request, the terminal ones vouch for the bytes of
/// the result, every claimed artifact was collected as it was claimed, all of it keeps to the
/// limits, the bytes in all are those of the artifacts, and no two of them have the same place up to
/// letter case.
pub proof fn collected_outputs_are_authenticated(run: Collection, output: CollectedGuestOutput)
    requires
        run.consistent(),
        run.outcome == Some(Ok::<CollectedGuestOutput, SandboxError>(output)),
    ensures
        output.result.run_id@ == run.run_id@,
        output.result.metadata_verdict() is Ok,
        ({
            let history = result_collector::in_sequence(run.history@);
            forall|i: int|
                0 <= i < history.len() ==> {
                    &&& text::view_option((#[trigger] history[i]).request_sha256) == Some(
                        run.request_sha256@,
                    )
                    &&& history[i].run_id@ == run.run_id@
                    &&& result_collector::result_state(history[i].state) ==> text::view_option(
                        history[i].result_sha256,
                    ) == Some(digest::sha256_text(run.result@))
                }
        }),
        forall|i: int|
            0 <= i < output.result.artifacts@.len() ==> was_collected(
                #[trigger] output.result.artifacts@[i],
                output.artifacts@,
            ),
        output.artifacts@.len() <= run.limits.maximum_artifacts,
        result_collector::collected_bytes(output.artifacts@) == output.total_bytes,
        output.total_bytes <= run.limits.maximum_total_bytes,
        result_collector::archived_keys(output.artifacts@).no_duplicates(),
{
    assert(run.vouches_for(output));
    let history = result_collector::in_sequence(run.history@);
    let fresh = result_collector::fresh_machine(run.run_id@);
    let result_sha256 = digest::sha256_text(run.result@);
    assert forall|i: int| 0 <= i < history.len() implies {
        &&& text::view_option((#[trigger] history[i]).request_sha256) == Some(run.request_sha256@)
        &&& history[i].run_id@ == run.run_id@
        &&& result_collector::result_state(history[i].state) ==> text::view_option(
            history[i].result_sha256,
        ) == Some(result_sha256)
    } by {
        result_collector::accepted_chains_bind_request_and_result(
            fresh,
            history,
            0,
            run.request_sha256@,
            result_sha256,
            i,
        );
    }
    assert forall|i: int|
        0 <= i < output.result.artifacts@.len() implies was_collected(
        #[trigger] output.result.artifacts@[i],
        output.artifacts@,
    ) by {
        result_collector::claimed_artifacts_are_collected(
            output.result.artifacts@,
            output.artifacts@,
            0,
            i,
        );
    }
}

/// Nothing of the guest's output is archived before the published states authenticated the result.
pub proof fn archives_follow_authentication(run: Collection)
    requires
        run.consistent(),
        run.step != CollectStep::Done,
        run.walk.archive.artifacts@.len() > 0,
    ensures
        run.envelope matches Some(envelope) && run.authenticated(&envelope),
{
}

/// The files that are collected have fixed names: four event lists, two trees, and one status file for
/// each state besides the agent's claim.
pub proof fn collected_files_have_fixed_names()
    ensures
        event_list_name(0) == "process-events.json"@,
        event_list_name(1) == "network-events.json"@,
        event_list_name(2) == "filesystem-events.json"@,
        event_list_name(3) == "registry-events.json"@,
        tree_name(0) == "screenshots"@,
        tree_name(1) == "extracted-files"@,
        status_file_name(0) == "host-ready.json"@,
        status_file_name(1) == "request-written.json"@,
        status_file_name(2) == "start-allowed.json"@,
        status_file_name(3) == "cancel-requested.json"@,
        status_file_name(4) == "guest-ready.json"@,
        status_file_name(5) == "running.json"@,
        status_file_name(6) == "completed.json"@,
        status_file_name(7) == "failed.json"@,
        status_file_name(8) == "shutdown-ready.json"@,
        status_file_name(9) == "agent-claim.json"@,
{
}

/// How an output is authenticated: its directory is looked at, the archive is made, the result is read,
/// and the status directory is read record by record; only then anything is copied.
pub proof fn outputs_are_authenticated_in_order(
    before: Collection,
    event: CollectEvent,
    after: Collection,
)
    requires
        before.consistent(),
        collected(before, event, after),
    ensures
        before.step is InspectOutput && event is Looked && event->Looked_0 is Found ==> (after.step
            is CreateArchive <==> {
            &&& event->Looked_0->Found_0.directory
            &&& !event->Looked_0->Found_0.link
            &&& !event->Looked_0->Found_0.reparse_point
            &&& before.archive_root.absolute
        }),
        before.step is CreateArchive && event is Made ==> (after.step is ReadResult <==> event->Made_0
            is Ok),
        before.step is ReadResult && event is ResultRead && event->ResultRead_0 is Got ==> {
            let file = event->ResultRead_0->Got_0;
            &&& after.step is InspectStatus <==> result_collector::result_verdict(
                &file.envelope,
                before.run_id@,
            ) is Ok && guest_protocol::sha256_verdict(before.request_sha256@) is Ok
            &&& after.step is InspectStatus ==> after.envelope == Some(file.envelope)
                && after.result@ == file.bytes@
        },
        before.step is InspectStatus && event is Looked && event->Looked_0 is Found ==> (after.step
            is OpenStatus <==> event->Looked_0->Found_0.directory && !event->Looked_0->Found_0.link
            && !event->Looked_0->Found_0.reparse_point),
        before.step is OpenStatus && event is Made ==> (after.step is NextStatus <==> event->Made_0 is Ok),
        before.step is NextStatus && event is Listed && event->Listed_0 is Ok ==> {
            let listed = event->Listed_0->Ok_0;
            &&& listed is None ==> after.step == CollectStep::ReadRecord(0)
            &&& listed is Some ==> (after.step is InspectEntry <==> result_collector::status_entry_verdict(
                (before.entries + 1) as u64,
                text::view_option(listed->0.name),
            ) is Ok)
            &&& after.step is InspectEntry ==> after.entries == before.entries + 1
        },
        before.step is InspectEntry && event is Looked && event->Looked_0 is Found ==> (after.step
            is NextStatus <==> event->Looked_0->Found_0.regular && !event->Looked_0->Found_0.link
            && !event->Looked_0->Found_0.reparse_point),
        before.step is ReadRecord && event is RecordRead && event->RecordRead_0 is Missing
            && before.step->ReadRecord_0 < 8 ==> after.step == CollectStep::ReadRecord(
            (before.step->ReadRecord_0 + 1) as usize,
        ) && after.records == before.records,
        before.step is ReadRecord && event is RecordRead && event->RecordRead_0 is Got
            && before.step->ReadRecord_0 < 8 ==> {
            let record = event->RecordRead_0->Got_0;
            &&& after.step == CollectStep::ReadRecord((before.step->ReadRecord_0 + 1) as usize)
                <==> record.state == result_collector::protocol_states()[before.step->ReadRecord_0 as int]
            &&& after.step is ReadRecord ==> after.records@ == before.records@.push(record)
        },
        before.step is ReadRecord && event is RecordRead && (event->RecordRead_0 is Failed
            || event->RecordRead_0 is Malformed) ==> after.outcome is Some && after.outcome->0 is Err,
{
}

/// How an output is archived: the result, the two streams, the event lists of an execution, the two
/// trees, the warnings and the status files. What is not there is passed over where it may be missing,
/// and a copy with another digest than what was read ends the collection.
pub proof fn outputs_are_archived_in_order(before: Collection, event: CollectEvent, after: Collection)
    requires
        before.consistent(),
        collected(before, event, after),
    ensures
        before.step is CopyResult && event is Copied && event->Copied_0 is Ok && event->Copied_0->Ok_0@
            == digest::sha256_text(before.bytes@) ==> after.step is ReadStdout,
        is_copy(before.step) && event is Copied && (event->Copied_0 is Err || event->Copied_0->Ok_0@
            != digest::sha256_text(before.copied_bytes())) ==> after.outcome is Some
            && after.outcome->0 is Err,
        before.step is ReadStdout && event is FileRead && event->FileRead_0 is Got ==> after.step
            is ReadStderr && after.stdout == Some(event->FileRead_0->Got_0),
        before.step is ReadStdout && event is FileRead && event->FileRead_0 is Missing && !(
        before.envelope->0.execution is Some) ==> after.step is ReadStderr,
        before.step is ReadStderr && event is FileRead && event->FileRead_0 is Got && after.outcome is None
            ==> after.stderr == Some(event->FileRead_0->Got_0) && after.step == if before.stdout is Some {
            CollectStep::CopyStdout
        } else {
            CollectStep::CopyStderr
        },
        before.step is CopyStderr && event is Copied && event->Copied_0 is Ok && event->Copied_0->Ok_0@
            == digest::sha256_text(before.stderr->0@) ==> after.step == if before.envelope->0.execution
            is Some {
            CollectStep::ReadEvents(0)
        } else {
            CollectStep::FindTree(0)
        },
        before.step is ReadEvents && event is EventsRead && event->EventsRead_0 is Got && after.outcome
            is None ==> after.step == CollectStep::CopyEvents(before.step->ReadEvents_0) && after.bytes
            == event->EventsRead_0->Got_0.observed,
        before.step is CopyEvents && event is Copied && event->Copied_0 is Ok && event->Copied_0->Ok_0@
            == digest::sha256_text(before.bytes@) ==> after.step == if before.step->CopyEvents_0 < 3 {
            CollectStep::ReadEvents((before.step->CopyEvents_0 + 1) as usize)
        } else {
            CollectStep::FindTree(0)
        },
        before.step is FindTree && event is Looked && event->Looked_0 is Missing ==> after.step == if
            before.step->FindTree_0 == 0 {
            CollectStep::FindTree(1)
        } else {
            CollectStep::ReadWarnings
        },
        before.step is ReadWarnings && event is FileRead && event->FileRead_0 is Missing ==> after.step
            == CollectStep::ReadStatus(0),
        before.step is CopyWarnings && event is Copied && event->Copied_0 is Ok && event->Copied_0->Ok_0@
            == digest::sha256_text(before.warnings->0@) ==> after.step == CollectStep::ReadStatus(0),
        before.step is ReadStatus && event is FileRead && event->FileRead_0 is Missing
            && before.step->ReadStatus_0 < 9 ==> after.step == CollectStep::ReadStatus(
            (before.step->ReadStatus_0 + 1) as usize,
        ),
        before.step is ReadStatus && event is FileRead && event->FileRead_0 is Missing
            && before.step->ReadStatus_0 == 9 ==> {
            &&& after.outcome is Some
            &&& after.outcome->0 is Ok <==> result_collector::claims_verdict(
                before.envelope->0.artifacts@,
                before.walk.archive.artifacts@,
                0,
            ) is Ok
            &&& after.outcome->0 is Ok ==> {
                let output = after.outcome->0->Ok_0;
                &&& output.result == before.envelope->0
                &&& output.artifacts == before.walk.archive.artifacts
                &&& before.stdout is Some ==> output.stdout@ == result_collector::decoded_stream(
                    before.stdout->0@,
                )
                &&& before.stderr is Some ==> output.stderr@ == result_collector::decoded_stream(
                    before.stderr->0@,
                )
                &&& before.warnings is None ==> output.warnings@.len() == 0
            }
        },
{
    if before.step is ReadStatus && event is FileRead && event->FileRead_0 is Missing
        && before.step->ReadStatus_0 == 9 && after.outcome is Some && after.outcome->0 is Ok {
        assert(text::views(after.outcome->0->Ok_0.warnings@).len()
            == after.outcome->0->Ok_0.warnings@.len());
    }
}

} // verus!
