//! Staging the package of a run on its data disk: the request, the target and the states that let
//! the guest start, in this order.

use vstd::prelude::*;

use crate::backend;
use crate::backend::{SandboxError, SandboxResult};
use crate::digest;
use crate::host_path;
use crate::host_path::HostPath;
use crate::hyperv::data_disk;
use crate::hyperv::data_disk::{
    check_package, check_target, seal_request, staged_records, StagedCopy, TargetFacts,
    RUN_DIRECTORY_NAME,
};
use crate::hyperv::guest_protocol::{GuestRunRequest, StatusRecord};
use crate::text;

verus! {

/// How many directories a package has, and how many states are published with it.
pub const DIRECTORY_COUNT: usize = 4;

pub const STATE_COUNT: usize = 3;

/// What is to be done next.
#[derive(Clone, Copy, Debug, PartialEq, Eq, Structural)]
pub enum StageStep {
    /// Query what the pinned target is.
    InspectTarget,
    /// Create the directory of the package, or one below it.
    MakeDirectory(usize),
    /// Write the request as JSON text.
    Serialize,
    /// Publish the request.
    WriteRequest,
    /// Go back to the beginning of the target.
    Rewind,
    /// Create the staged target.
    CreateTarget,
    /// Read on in the target; nothing is read at its end.
    ReadTarget,
    /// Write what was read to the staged target.
    WriteTarget,
    /// Flush the staged target.
    FlushTarget,
    /// Publish a state.
    PublishState(usize),
    Done,
}

/// What came of a step.
#[derive(Debug)]
pub enum StageEvent {
    Inspected(Result<TargetFacts, String>),
    Settled(Result<(), String>),
    Serialized(Result<Vec<u8>, String>),
    Read(Result<Vec<u8>, String>),
}

/// The staging of a package.
pub struct Staging {
    pub step: StageStep,
    /// The directory of the package.
    pub root: HostPath,
    pub run_id: String,
    pub target_sha256: Option<String>,
    /// The length of the target.
    pub len: u64,
    pub copy: StagedCopy,
    /// The request as it is written.
    pub request: Ghost<Seq<u8>>,
    pub request_sha256: String,
    /// The target as it was staged.
    pub staged: Ghost<Seq<u8>>,
    pub records: Vec<StatusRecord>,
    /// The staged target is to be removed.
    pub discard: bool,
    pub outcome: Option<SandboxResult<String>>,
}

pub open spec fn directory_name(index: int) -> Seq<char> {
    if index == 1 {
        "input"@
    } else if index == 2 {
        "output"@
    } else {
        "status"@
    }
}

/// The directory of the package, or one below it.
pub open spec fn directory_text(root: HostPath, index: int) -> Seq<char> {
    if index == 0 {
        root.shown@
    } else {
        host_path::joined_text(root.style, root.shown@, directory_name(index))
    }
}

pub open spec fn stage_fault(message: Seq<char>, source: Seq<char>) -> backend::Fault {
    backend::fault_from("hyperv_data_disk"@, message, source)
}

fn stage_error(message: &str, source: &str) -> (error: SandboxError)
    ensures
        error@ == stage_fault(message@, source@),
{
    SandboxError::with_source("hyperv_data_disk", message, source)
}

/// The steps behind the staged target.
pub open spec fn is_publishing(step: StageStep) -> bool {
    match step {
        StageStep::PublishState(_) => true,
        _ => false,
    }
}

/// The steps behind the serialized request.
pub open spec fn is_sealed(step: StageStep) -> bool {
    match step {
        StageStep::InspectTarget => false,
        StageStep::MakeDirectory(_) => false,
        StageStep::Serialize => false,
        StageStep::Done => false,
        _ => true,
    }
}

impl Staging {
    /// The digest is that of the request as it is written.
    pub open spec fn seals(&self, sha256: Seq<char>) -> bool {
        sha256 == digest::sha256_text(self.request@)
    }

    /// The whole target was staged, as the request binds it.
    pub open spec fn target_staged(&self) -> bool {
        &&& self.staged@.len() == self.len
        &&& data_disk::staged_digest_verdict(
            self.staged@,
            text::view_option(self.target_sha256),
        ) is Ok
    }

    /// The records of the package are ready.
    pub open spec fn records_ready(&self) -> bool {
        &&& self.records@.len() == STATE_COUNT
        &&& forall|i: int|
            0 <= i < STATE_COUNT ==> data_disk::is_staged_record(
                &#[trigger] self.records@[i],
                i,
                self.run_id@,
                self.request_sha256@,
            )
    }

    pub open spec fn consistent(&self) -> bool {
        if self.step == StageStep::Done {
            self.outcome matches Some(outcome) && (outcome matches Ok(sha256) ==> self.seals(
                sha256@,
            ) && self.target_staged())
        } else {
            &&& self.outcome is None
            &&& self.copy.well_formed()
            &&& is_sealed(self.step) ==> self.seals(self.request_sha256@)
            &&& self.step == StageStep::FlushTarget ==> self.copy.content().len() == self.len
            &&& is_publishing(self.step) ==> self.target_staged() && self.records_ready()
            &&& match self.step {
                StageStep::MakeDirectory(index) => index < DIRECTORY_COUNT,
                StageStep::PublishState(index) => index < STATE_COUNT,
                _ => true,
            }
        }
    }
}

// ---------------------------------------------------------------------------------------------
// What follows
// ---------------------------------------------------------------------------------------------

/// The staging ended with an error.
pub open spec fn ended(fault: backend::Fault, discard: bool, after: Staging) -> bool {
    &&& after.step == StageStep::Done
    &&& after.discard == discard
    &&& after.outcome matches Some(Err(error)) && error@ == fault
}

pub open spec fn moved(before: Staging, step: StageStep, after: Staging) -> bool {
    after == (Staging { step, ..before })
}

pub open spec fn settled(
    before: Staging,
    settled: Result<(), String>,
    message: Seq<char>,
    discard: bool,
    step: StageStep,
    after: Staging,
) -> bool {
    match settled {
        Err(source) => ended(stage_fault(message, source@), discard, after),
        Ok(_) => moved(before, step, after),
    }
}

pub open spec fn target_inspected(
    before: Staging,
    inspected: Result<TargetFacts, String>,
    after: Staging,
) -> bool {
    match inspected {
        Err(source) => ended(stage_fault("query pinned target size"@, source@), false, after),
        Ok(facts) => match data_disk::target_verdict(facts) {
            Err(fault) => ended(fault, false, after),
            Ok(_) => after == (Staging {
                step: StageStep::MakeDirectory(0),
                len: facts.len,
                ..before
            }),
        },
    }
}

pub open spec fn request_serialized(
    before: Staging,
    serialized: Result<Vec<u8>, String>,
    after: Staging,
) -> bool {
    match serialized {
        Err(source) => ended(stage_fault("serialize guest request"@, source@), false, after),
        Ok(bytes) => if bytes@.len() > crate::hyperv::guest_protocol::MAX_REQUEST_BYTES {
            ended(
                backend::fault(
                    "hyperv_data_disk"@,
                    "serialized guest request exceeds the protocol size limit"@,
                ),
                false,
                after,
            )
        } else {
            &&& after.request@ == bytes@
            &&& after.request_sha256@ == digest::sha256_text(bytes@)
            &&& after == (Staging {
                step: StageStep::WriteRequest,
                request: after.request,
                request_sha256: after.request_sha256,
                ..before
            })
        },
    }
}

pub open spec fn target_read(before: Staging, read: Result<Vec<u8>, String>, after: Staging) -> bool {
    match read {
        Err(source) => ended(stage_fault("read pinned target"@, source@), true, after),
        Ok(chunk) => if chunk@.len() == 0 {
            match data_disk::staged_len_verdict(before.copy.content(), before.len) {
                Err(fault) => ended(fault, true, after),
                Ok(_) => moved(before, StageStep::FlushTarget, after),
            }
        } else if before.copy.content().len() + chunk@.len() > data_disk::MAX_STAGED_TARGET_BYTES {
            ended(
                backend::fault(
                    "hyperv_data_disk"@,
                    "pinned target exceeded the staging limit while copying"@,
                ),
                true,
                after,
            )
        } else {
            &&& after.copy.content() == before.copy.content() + chunk@
            &&& after == (Staging {
                step: StageStep::WriteTarget,
                copy: after.copy,
                ..before
            })
        },
    }
}

pub open spec fn target_flushed(
    before: Staging,
    flushed: Result<(), String>,
    after: Staging,
) -> bool {
    match flushed {
        Err(source) => ended(stage_fault("flush staged target"@, source@), false, after),
        Ok(_) => match data_disk::staged_digest_verdict(
            before.copy.content(),
            text::view_option(before.target_sha256),
        ) {
            Err(fault) => ended(fault, true, after),
            Ok(_) => match data_disk::staged_records_verdict(
                before.run_id@,
                before.request_sha256@,
            ) {
                Err(fault) => ended(fault, false, after),
                Ok(_) => {
                    &&& after.staged@ == before.copy.content()
                    &&& after.records_ready()
                    &&& after == (Staging {
                        step: StageStep::PublishState(0),
                        copy: after.copy,
                        staged: after.staged,
                        records: after.records,
                        ..before
                    })
                },
            },
        },
    }
}

pub open spec fn state_published(
    before: Staging,
    index: usize,
    published: Result<(), String>,
    after: Staging,
) -> bool {
    match published {
        Err(shown) => ended(backend::fault("hyperv_data_disk"@, shown@), false, after),
        Ok(_) => if index + 1 < STATE_COUNT {
            moved(before, StageStep::PublishState((index + 1) as usize), after)
        } else {
            &&& after.step == StageStep::Done
            &&& after.outcome matches Some(Ok(sha256)) && sha256@ == before.request_sha256@
        },
    }
}

/// What one event makes of the staging. An event that is no answer to the step changes nothing.
pub open spec fn staged(before: Staging, event: StageEvent, after: Staging) -> bool {
    match (before.step, event) {
        (StageStep::InspectTarget, StageEvent::Inspected(inspected)) => target_inspected(
            before,
            inspected,
            after,
        ),
        (StageStep::MakeDirectory(index), StageEvent::Settled(made)) => settled(
            before,
            made,
            "create new data-disk directory "@ + directory_text(before.root, index as int),
            false,
            if index + 1 < DIRECTORY_COUNT {
                StageStep::MakeDirectory((index + 1) as usize)
            } else {
                StageStep::Serialize
            },
            after,
        ),
        (StageStep::Serialize, StageEvent::Serialized(serialized)) => request_serialized(
            before,
            serialized,
            after,
        ),
        (StageStep::WriteRequest, StageEvent::Settled(written)) => match written {
            Err(shown) => ended(backend::fault("hyperv_data_disk"@, shown@), false, after),
            Ok(_) => moved(before, StageStep::Rewind, after),
        },
        (StageStep::Rewind, StageEvent::Settled(rewound)) => settled(
            before,
            rewound,
            "rewind pinned target"@,
            false,
            StageStep::CreateTarget,
            after,
        ),
        (StageStep::CreateTarget, StageEvent::Settled(created)) => settled(
            before,
            created,
            "create staged target"@,
            false,
            StageStep::ReadTarget,
            after,
        ),
        (StageStep::ReadTarget, StageEvent::Read(read)) => target_read(before, read, after),
        (StageStep::WriteTarget, StageEvent::Settled(written)) => settled(
            before,
            written,
            "write staged target"@,
            true,
            StageStep::ReadTarget,
            after,
        ),
        (StageStep::FlushTarget, StageEvent::Settled(flushed)) => target_flushed(
            before,
            flushed,
            after,
        ),
        (StageStep::PublishState(index), StageEvent::Settled(published)) => state_published(
            before,
            index,
            published,
            after,
        ),
        _ => after == before,
    }
}

// ---------------------------------------------------------------------------------------------
// The staging
// ---------------------------------------------------------------------------------------------

impl Staging {
    /// Begins the staging of a package below `mount`, unless the request is none of a package.
    pub fn stage_package(mount: &HostPath, request: &GuestRunRequest) -> (started: SandboxResult<
        Staging,
    >)
        ensures
            match (data_disk::package_verdict(request), started) {
                (Err(fault), Err(error)) => error@ == fault,
                (Ok(_), Ok(run)) => {
                    &&& run.consistent()
                    &&& run.step == StageStep::InspectTarget
                    &&& run.root.extends(mount, RUN_DIRECTORY_NAME@)
                    &&& run.run_id@ == request.run_id@
                    &&& text::view_option(run.target_sha256) == text::view_option(
                        request.target_sha256,
                    )
                    &&& run.copy.content() == Seq::<u8>::empty()
                    &&& run.request_sha256@ == ""@
                    &&& run.records@.len() == 0
                    &&& !run.discard
                    &&& run.outcome is None
                },
                _ => false,
            },
    {
        match check_package(request) {
            Err(error) => {
                return Err(error);
            },
            Ok(_) => {},
        }
        Ok(
            Staging {
                step: StageStep::InspectTarget,
                root: mount.join(RUN_DIRECTORY_NAME),
                run_id: request.run_id.as_str().to_owned(),
                target_sha256: text::clone_option(&request.target_sha256),
                len: 0,
                copy: StagedCopy::new(),
                request: Ghost(Seq::empty()),
                request_sha256: "".to_owned(),
                staged: Ghost(Seq::empty()),
                records: Vec::new(),
                discard: false,
                outcome: None,
            },
        )
    }

    fn end(&mut self, error: SandboxError, discard: bool)
        ensures
            ended(error@, discard, *final(self)),
            final(self).consistent(),
    {
        self.step = StageStep::Done;
        self.discard = discard;
        self.outcome = Some(Err(error));
    }

    fn settle(
        &mut self,
        outcome: Result<(), String>,
        message: &str,
        discard: bool,
        step: StageStep,
    )
        requires
            outcome is Ok ==> (Staging { step, ..*old(self) }).consistent(),
        ensures
            settled(*old(self), outcome, message@, discard, step, *final(self)),
            final(self).consistent(),
    {
        match outcome {
            Err(source) => self.end(stage_error(message, source.as_str()), discard),
            Ok(_) => {
                self.step = step;
            },
        }
    }

    /// The directory that is to be created, as messages show it.
    pub fn directory(&self, index: usize) -> (shown: String)
        ensures
            shown@ == directory_text(self.root, index as int),
    {
        if index == 0 {
            return self.root.shown.as_str().to_owned();
        }
        let name = if index == 1 {
            "input"
        } else if index == 2 {
            "output"
        } else {
            "status"
        };
        let directory = self.root.join(name);
        directory.shown
    }

    fn inspect(&mut self, inspected: Result<TargetFacts, String>)
        requires
            old(self).consistent(),
            old(self).step == StageStep::InspectTarget,
        ensures
            target_inspected(*old(self), inspected, *final(self)),
            final(self).consistent(),
    {
        match inspected {
            Err(source) => {
                self.end(stage_error("query pinned target size", source.as_str()), false);
            },
            Ok(facts) => match check_target(facts) {
                Err(error) => self.end(error, false),
                Ok(_) => {
                    self.len = facts.len;
                    self.step = StageStep::MakeDirectory(0);
                },
            },
        }
    }

    fn seal(&mut self, serialized: Result<Vec<u8>, String>)
        requires
            old(self).consistent(),
            old(self).step == StageStep::Serialize,
        ensures
            request_serialized(*old(self), serialized, *final(self)),
            final(self).consistent(),
    {
        match serialized {
            Err(source) => {
                self.end(stage_error("serialize guest request", source.as_str()), false);
            },
            Ok(bytes) => match seal_request(bytes.as_slice()) {
                Err(error) => self.end(error, false),
                Ok(sha256) => {
                    self.request = Ghost(bytes@);
                    self.request_sha256 = sha256;
                    self.step = StageStep::WriteRequest;
                },
            },
        }
    }

    fn take_read(&mut self, read: Result<Vec<u8>, String>)
        requires
            old(self).consistent(),
            old(self).step == StageStep::ReadTarget,
        ensures
            target_read(*old(self), read, *final(self)),
            final(self).consistent(),
    {
        match read {
            Err(source) => self.end(stage_error("read pinned target", source.as_str()), true),
            Ok(chunk) => {
                if chunk.len() == 0 {
                    match self.copy.check_len(self.len) {
                        Err(error) => self.end(error, true),
                        Ok(_) => {
                            self.step = StageStep::FlushTarget;
                        },
                    }
                } else {
                    match self.copy.absorb(chunk.as_slice()) {
                        Err(error) => self.end(error, true),
                        Ok(_) => {
                            self.step = StageStep::WriteTarget;
                        },
                    }
                }
            },
        }
    }

    fn flush(&mut self, flushed: Result<(), String>)
        requires
            old(self).consistent(),
            old(self).step == StageStep::FlushTarget,
        ensures
            target_flushed(*old(self), flushed, *final(self)),
            final(self).consistent(),
    {
        match flushed {
            Err(source) => {
                self.end(stage_error("flush staged target", source.as_str()), false);
                return;
            },
            Ok(_) => {},
        }
        let mut copy = StagedCopy::new();
        std::mem::swap(&mut copy, &mut self.copy);
        let ghost content = copy.content();
        match copy.finish(&self.target_sha256) {
            Err(error) => {
                self.end(error, true);
                return;
            },
            Ok(_) => {},
        }
        match staged_records(self.run_id.as_str(), self.request_sha256.as_str()) {
            Err(error) => self.end(error, false),
            Ok(records) => {
                self.records = records;
                self.staged = Ghost(content);
                self.step = StageStep::PublishState(0);
            },
        }
    }

    fn publish(&mut self, index: usize, published: Result<(), String>)
        requires
            old(self).consistent(),
            old(self).step == StageStep::PublishState(index),
        ensures
            state_published(*old(self), index, published, *final(self)),
            final(self).consistent(),
    {
        match published {
            Err(shown) => self.end(SandboxError::new("hyperv_data_disk", shown.as_str()), false),
            Ok(_) => {
                if index + 1 < STATE_COUNT {
                    self.step = StageStep::PublishState(index + 1);
                } else {
                    let sha256 = self.request_sha256.as_str().to_owned();
                    self.outcome = Some(Ok(sha256));
                    self.step = StageStep::Done;
                }
            },
        }
    }

    /// Takes what came of the step.
    pub fn advance(&mut self, event: StageEvent)
        requires
            old(self).consistent(),
        ensures
            staged(*old(self), event, *final(self)),
            final(self).consistent(),
    {
        match (self.step, event) {
            (StageStep::InspectTarget, StageEvent::Inspected(inspected)) => self.inspect(inspected),
            (StageStep::MakeDirectory(index), StageEvent::Settled(made)) => {
                let directory = self.directory(index);
                let message = text::cat2("create new data-disk directory ", directory.as_str());
                let step = if index + 1 < DIRECTORY_COUNT {
                    StageStep::MakeDirectory(index + 1)
                } else {
                    StageStep::Serialize
                };
                self.settle(made, message.as_str(), false, step);
            },
            (StageStep::Serialize, StageEvent::Serialized(serialized)) => self.seal(serialized),
            (StageStep::WriteRequest, StageEvent::Settled(written)) => match written {
                Err(shown) => {
                    self.end(SandboxError::new("hyperv_data_disk", shown.as_str()), false);
                },
                Ok(_) => {
                    self.step = StageStep::Rewind;
                },
            },
            (StageStep::Rewind, StageEvent::Settled(rewound)) => {
                self.settle(rewound, "rewind pinned target", false, StageStep::CreateTarget);
            },
            (StageStep::CreateTarget, StageEvent::Settled(created)) => {
                self.settle(created, "create staged target", false, StageStep::ReadTarget);
            },
            (StageStep::ReadTarget, StageEvent::Read(read)) => self.take_read(read),
            (StageStep::WriteTarget, StageEvent::Settled(written)) => {
                self.settle(written, "write staged target", true, StageStep::ReadTarget);
            },
            (StageStep::FlushTarget, StageEvent::Settled(flushed)) => self.flush(flushed),
            (StageStep::PublishState(index), StageEvent::Settled(published)) => self.publish(
                index,
                published,
            ),
            _ => {},
        }
    }
}

// ---------------------------------------------------------------------------------------------
// Laws
// ---------------------------------------------------------------------------------------------

/// No state is published before the whole target was staged as the request binds it, and every
/// record that is published carries the digest of the request that was written.
pub proof fn states_are_published_for_staged_packages(run: Staging, index: usize)
    requires
        run.consistent(),
        run.step == StageStep::PublishState(index),
    ensures
        index < STATE_COUNT,
        run.staged@.len() == run.len,
        text::view_option(run.target_sha256) matches Some(wanted) && text::same_ignoring_case(
            digest::sha256_text(run.staged@),
            wanted,
        ),
        text::view_option(run.records@[index as int].request_sha256) == Some(
            digest::sha256_text(run.request@),
        ),
        run.records@[index as int].run_id@ == run.run_id@,
{
    assert(data_disk::is_staged_record(
        &run.records@[index as int],
        index as int,
        run.run_id@,
        run.request_sha256@,
    ));
}

/// What the staging gives back is the digest of the request that was written.
pub proof fn staged_digests_are_those_of_the_request(run: Staging, sha256: String)
    requires
        run.consistent(),
        run.outcome == Some(Ok::<String, SandboxError>(sha256)),
    ensures
        sha256@ == digest::sha256_text(run.request@),
{
}

/// How a package is staged: the target is looked at, four directories are made, the request is written,
/// the target is copied, flushed and held against its digest, and three states are published. Whatever
/// fails ends the staging.
pub proof fn packages_are_staged_in_order(before: Staging, event: StageEvent, after: Staging)
    requires
        before.consistent(),
        staged(before, event, after),
    ensures
        before.step is MakeDirectory && event is Settled && event->Settled_0 is Ok ==> after.step == if
            before.step->MakeDirectory_0 < 3 {
            StageStep::MakeDirectory((before.step->MakeDirectory_0 + 1) as usize)
        } else {
            StageStep::Serialize
        },
        before.step is Serialize && event is Serialized ==> {
            let written = event->Serialized_0;
            &&& after.step is WriteRequest <==> written is Ok && written->Ok_0@.len() <= 1_048_576
            &&& after.step is WriteRequest ==> after.request@ == written->Ok_0@
            &&& after.step is WriteRequest || after.outcome is Some && after.outcome->0 is Err
        },
        before.step is WriteRequest && event is Settled && event->Settled_0 is Ok ==> after.step is Rewind,
        before.step is Rewind && event is Settled && event->Settled_0 is Ok ==> after.step is CreateTarget,
        before.step is CreateTarget && event is Settled && event->Settled_0 is Ok ==> after.step
            is ReadTarget,
        before.step is WriteTarget && event is Settled && event->Settled_0 is Ok ==> after.step
            is ReadTarget && after.copy == before.copy,
        before.step is ReadTarget && event is Read ==> {
            let read = event->Read_0;
            let so_far = before.copy.content();
            &&& after.step is FlushTarget <==> read is Ok && read->Ok_0@.len() == 0 && so_far.len()
                == before.len
            &&& after.step is WriteTarget <==> read is Ok && read->Ok_0@.len() > 0 && so_far.len()
                + read->Ok_0@.len() <= 536_870_912
            &&& after.step is WriteTarget ==> after.copy.content() == so_far + read->Ok_0@
            &&& after.step is FlushTarget || after.step is WriteTarget || (after.outcome is Some
                && after.outcome->0 is Err && after.discard)
        },
        before.step is FlushTarget && event is Settled ==> {
            &&& after.step == StageStep::PublishState(0) <==> {
                &&& event->Settled_0 is Ok
                &&& before.target_sha256 is Some
                &&& text::same_ignoring_case(
                    digest::sha256_text(before.copy.content()),
                    before.target_sha256->0@,
                )
                &&& crate::hyperv::guest_protocol::run_id_verdict(before.run_id@) is Ok
                &&& crate::hyperv::guest_protocol::sha256_verdict(before.request_sha256@) is Ok
            }
            &&& after.step == StageStep::PublishState(0) ==> after.staged@ == before.copy.content()
        },
        before.step is PublishState && event is Settled ==> {
            &&& event->Settled_0 is Err ==> after.outcome is Some && after.outcome->0 is Err
            &&& event->Settled_0 is Ok && before.step->PublishState_0 < 2 ==> after.step
                == StageStep::PublishState((before.step->PublishState_0 + 1) as usize)
            &&& event->Settled_0 is Ok && before.step->PublishState_0 == 2 ==> after.step is Done
                && after.outcome is Some && after.outcome->0 is Ok && after.outcome->0->Ok_0@
                == before.request_sha256@
        },
        event is Settled && event->Settled_0 is Err && before.step != StageStep::Done && after
            != before ==> after.outcome is Some && after.outcome->0 is Err,
{
}

/// The directories of a package: its root, and one each for input, output and states below it.
pub proof fn packages_have_four_directories(root: HostPath)
    ensures
        directory_text(root, 0) == root.shown@,
        directory_text(root, 1) == host_path::joined_text(root.style, root.shown@, "input"@),
        directory_text(root, 2) == host_path::joined_text(root.style, root.shown@, "output"@),
        directory_text(root, 3) == host_path::joined_text(root.style, root.shown@, "status"@),
{
}

} // verus!
