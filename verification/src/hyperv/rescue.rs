//! Rescuing what a guest that was stopped left: whatever is there is archived within the limits,
//! and nothing of it is trusted.

use vstd::prelude::*;

use crate::backend;
use crate::backend::{SandboxError, SandboxResult};
use crate::digest;
use crate::host_path;
use crate::host_path::HostPath;
use crate::hyperv::collection;
use crate::hyperv::collection::{
    judge_look, status_file, tree_directory, GuestDirectory, Look, Reading, Wanted, STATE_COUNT,
    TREE_COUNT,
};
use crate::hyperv::result_collector;
use crate::hyperv::result_collector::{
    archived_place, collect_partial, partial_files, prepare_archive_root, validate_limits, Archive,
    CollectionLimits, PartialCollection, PlannedFile, PlannedView,
};
use crate::hyperv::tree_walk;
use crate::hyperv::tree_walk::{sourced_error, TreeEvent, TreeStep, TreeWalk};

verus! {

/// How many files of the output are looked for.
pub const RESCUED_COUNT: usize = 8;

/// What is to be done next.
#[derive(Clone, Copy, Debug, PartialEq, Eq, Structural)]
pub enum RescueStep {
    /// Create the directory of the archive.
    CreateArchive,
    /// Look at the output directory, links not followed, if it is there.
    FindOutput,
    /// Read a file of the output, if it is there.
    ReadFile(usize),
    CopyFile(usize),
    /// Look at a directory of the output, links not followed, if it is there.
    FindTree(usize),
    /// Do the step of the walk.
    WalkTree(usize),
    /// Look at the status directory, links not followed, if it is there.
    FindStatus,
    /// Read a file of the status directory, if it is there.
    ReadStatus(usize),
    CopyStatus(usize),
    Done,
}

/// What came of a step.
#[derive(Debug)]
pub enum RescueEvent {
    Looked(Look),
    Made(Result<(), String>),
    FileRead(Reading<Vec<u8>>),
    Tree(TreeEvent),
    Copied(SandboxResult<String>),
}

/// The rescue of what a guest left.
#[derive(Debug)]
pub struct Rescue {
    pub step: RescueStep,
    pub limits: CollectionLimits,
    pub mounted: HostPath,
    pub archive_root: HostPath,
    pub walk: TreeWalk,
    /// The file that was read last.
    pub bytes: Vec<u8>,
    /// The place in the archive of the file that is to be copied.
    pub place: HostPath,
    /// The last copy is not what was read: it is to be removed.
    pub discard: bool,
    pub outcome: Option<SandboxResult<PartialCollection>>,
}

pub open spec fn is_copy(step: RescueStep) -> bool {
    match step {
        RescueStep::CopyFile(_) => true,
        RescueStep::CopyStatus(_) => true,
        _ => false,
    }
}

impl Rescue {
    pub open spec fn has_room(&self, len: int) -> bool {
        self.walk.archive.awaits(&self.place, len)
    }

    pub open spec fn step_fits(&self) -> bool {
        match self.step {
            RescueStep::ReadFile(index) => index < RESCUED_COUNT,
            RescueStep::CopyFile(index) => index < RESCUED_COUNT,
            RescueStep::FindTree(index) => index < TREE_COUNT,
            RescueStep::WalkTree(index) => index < TREE_COUNT,
            RescueStep::ReadStatus(index) => index <= STATE_COUNT,
            RescueStep::CopyStatus(index) => index <= STATE_COUNT,
            _ => true,
        }
    }

    /// The rescue goes on, and its archive keeps to the limits.
    pub open spec fn going_on(&self) -> bool {
        &&& self.limits.verdict() is Ok
        &&& self.walk.archive.limits == self.limits
        &&& !is_copy(self.step) && !(self.step is WalkTree) ==> self.walk.archive.settled()
        &&& self.outcome is None
        &&& is_copy(self.step) ==> self.has_room(self.bytes@.len() as int)
        &&& self.step_fits()
        &&& match self.step {
            RescueStep::WalkTree(_) => {
                &&& self.walk.step != TreeStep::Failed
                &&& self.walk.in_order()
            },
            _ => true,
        }
    }

    pub open spec fn consistent(&self) -> bool {
        if self.step == RescueStep::Done {
            self.outcome matches Some(outcome) && (outcome matches Ok(rescued) ==> {
                &&& rescued.artifact_count <= self.limits.maximum_artifacts
                &&& rescued.total_bytes <= self.limits.maximum_total_bytes
            })
        } else {
            self.going_on()
        }
    }
}

// ---------------------------------------------------------------------------------------------
// What follows
// ---------------------------------------------------------------------------------------------

/// The rescue ended with an error.
pub open spec fn ended(fault: backend::Fault, after: Rescue) -> bool {
    &&& after.step == RescueStep::Done
    &&& after.outcome matches Some(Err(error)) && error@ == fault
}

pub open spec fn moved(before: Rescue, step: RescueStep, after: Rescue) -> bool {
    after == (Rescue { step, ..before })
}

pub open spec fn judged(
    before: Rescue,
    verdict: Result<(), backend::Fault>,
    step: RescueStep,
    after: Rescue,
) -> bool {
    match verdict {
        Err(fault) => ended(fault, after),
        Ok(_) => moved(before, step, after),
    }
}

/// The file that was read is admitted to the archive and is to be copied there.
pub open spec fn kept(
    before: Rescue,
    prefix: Seq<char>,
    name: Seq<char>,
    step: RescueStep,
    after: Rescue,
) -> bool {
    &&& collection::is_place(after.place, before.archive_root.style, prefix, name)
    &&& match before.walk.archive.admission_verdict(
        &after.place,
        before.bytes@.len() as u64,
        "guest output count or per-file archive size exceeds its limit"@,
    ) {
        Err(fault) => ended(fault, after),
        Ok(_) => {
            &&& before.walk.archive.charged(
                &after.place,
                before.bytes@.len() as u64,
                &after.walk.archive,
            )
            &&& after.walk == (TreeWalk { archive: after.walk.archive, ..before.walk })
            &&& after == (Rescue { step, place: after.place, walk: after.walk, ..before })
        },
    }
}

pub open spec fn file_name(before: Rescue, index: usize) -> Seq<char> {
    result_collector::partial_plan(before.limits)[index as int].name
}

pub open spec fn files_after(before: Rescue, index: usize, after: Rescue) -> bool {
    if index + 1 < RESCUED_COUNT {
        moved(before, RescueStep::ReadFile((index + 1) as usize), after)
    } else {
        moved(before, RescueStep::FindTree(0), after)
    }
}

pub open spec fn file_taken(
    before: Rescue,
    index: usize,
    read: Reading<Vec<u8>>,
    after: Rescue,
) -> bool {
    match read {
        Reading::Missing => files_after(before, index, after),
        Reading::Failed(error) => ended(error@, after),
        Reading::Malformed(_) => after == before,
        Reading::Got(bytes) => kept(
            Rescue { bytes, ..before },
            "partial-guest-output"@,
            file_name(before, index),
            RescueStep::CopyFile(index),
            after,
        ),
    }
}

pub open spec fn trees_after(before: Rescue, index: usize, after: Rescue) -> bool {
    if index + 1 < TREE_COUNT {
        moved(before, RescueStep::FindTree((index + 1) as usize), after)
    } else {
        moved(before, RescueStep::FindStatus, after)
    }
}

pub open spec fn tree_found(before: Rescue, index: usize, look: Look, after: Rescue) -> bool {
    match look {
        Look::Missing => trees_after(before, index, after),
        _ => match collection::look_verdict(collection::tree_text(before.mounted, index), look) {
            Err(fault) => ended(fault, after),
            Ok(_) => {
                &&& after.walk == (TreeWalk {
                    step: TreeStep::Open,
                    depth: 0,
                    directory: after.walk.directory,
                    entry: None,
                    ..before.walk
                })
                &&& after.walk.directory@ == collection::tree_text(before.mounted, index)
                &&& after == (Rescue {
                    step: RescueStep::WalkTree(index),
                    walk: after.walk,
                    ..before
                })
            },
        },
    }
}

/// What follows on a step of the walk.
pub open spec fn tree_walked(before: Rescue, index: usize, event: TreeEvent, after: Rescue) -> bool {
    exists|walk: TreeWalk|
        #![trigger tree_walk::walked(before.walk, event, walk)]
        {
            &&& tree_walk::walked(before.walk, event, walk)
            &&& match walk.step {
                TreeStep::Idle => trees_after(Rescue { walk, ..before }, index, after),
                TreeStep::Failed => walk.failure matches Some(error) && ended(error@, after),
                _ => after == (Rescue { walk, ..before }),
            }
        }
}

/// Nothing more is there: the rescue ends with what was archived.
pub open spec fn finished(before: Rescue, after: Rescue) -> bool {
    &&& after.step == RescueStep::Done
    &&& after.outcome matches Some(Ok(rescued)) && {
        &&& rescued.artifact_count == before.walk.archive.artifacts@.len()
        &&& rescued.total_bytes == before.walk.archive.total_bytes
    }
}

pub open spec fn status_found(before: Rescue, look: Look, after: Rescue) -> bool {
    match look {
        Look::Missing => finished(before, after),
        _ => judged(
            before,
            collection::look_verdict(
                collection::directory_text(before.mounted, "status"@),
                look,
            ),
            RescueStep::ReadStatus(0),
            after,
        ),
    }
}

pub open spec fn statuses_after(before: Rescue, index: usize, after: Rescue) -> bool {
    if index < STATE_COUNT {
        moved(before, RescueStep::ReadStatus((index + 1) as usize), after)
    } else {
        finished(before, after)
    }
}

pub open spec fn status_taken(
    before: Rescue,
    index: usize,
    read: Reading<Vec<u8>>,
    after: Rescue,
) -> bool {
    match read {
        Reading::Missing => statuses_after(before, index, after),
        Reading::Failed(error) => ended(error@, after),
        Reading::Malformed(_) => after == before,
        Reading::Got(bytes) => kept(
            Rescue { bytes, ..before },
            "partial-guest-status"@,
            collection::status_file_name(index as int),
            RescueStep::CopyStatus(index),
            after,
        ),
    }
}

pub open spec fn with_archive(before: Rescue, archive: Archive) -> Rescue {
    Rescue { walk: TreeWalk { archive, ..before.walk }, ..before }
}

pub open spec fn copies_after(before: Rescue, after: Rescue) -> bool {
    match before.step {
        RescueStep::CopyFile(index) => files_after(before, index, after),
        RescueStep::CopyStatus(index) => statuses_after(before, index, after),
        _ => after == before,
    }
}

pub open spec fn file_copied(before: Rescue, copied: SandboxResult<String>, after: Rescue) -> bool {
    match copied {
        Err(error) => ended(error@, after),
        Ok(sha256) => if sha256@ != digest::sha256_text(before.bytes@) {
            &&& ended(
                result_collector::collection_fault(
                    "guest output changed between validation and archival"@,
                ),
                after,
            )
            &&& after.discard
        } else {
            exists|archive: Archive|
                #![trigger with_archive(before, archive)]
                before.walk.archive.recorded(
                    &before.place,
                    before.bytes@.len() as u64,
                    sha256@,
                    &archive,
                ) && copies_after(with_archive(before, archive), after)
        },
    }
}

/// What one event makes of the rescue. An event that is no answer to the step changes nothing.
pub open spec fn rescued(before: Rescue, event: RescueEvent, after: Rescue) -> bool {
    match (before.step, event) {
        (RescueStep::CreateArchive, RescueEvent::Made(made)) => match made {
            Ok(_) => moved(before, RescueStep::FindOutput, after),
            Err(source) => ended(
                tree_walk::sourced("create a new artifact archive root"@, source@),
                after,
            ),
        },
        (RescueStep::FindOutput, RescueEvent::Looked(look)) => match look {
            Look::Missing => moved(before, RescueStep::FindStatus, after),
            _ => judged(
                before,
                collection::look_verdict(
                    collection::directory_text(before.mounted, "output"@),
                    look,
                ),
                RescueStep::ReadFile(0),
                after,
            ),
        },
        (RescueStep::ReadFile(index), RescueEvent::FileRead(read)) => file_taken(
            before,
            index,
            read,
            after,
        ),
        (RescueStep::FindTree(index), RescueEvent::Looked(look)) => tree_found(
            before,
            index,
            look,
            after,
        ),
        (RescueStep::WalkTree(index), RescueEvent::Tree(step)) => tree_walked(
            before,
            index,
            step,
            after,
        ),
        (RescueStep::FindStatus, RescueEvent::Looked(look)) => status_found(before, look, after),
        (RescueStep::ReadStatus(index), RescueEvent::FileRead(read)) => status_taken(
            before,
            index,
            read,
            after,
        ),
        (step, RescueEvent::Copied(copied)) => if is_copy(step) {
            file_copied(before, copied, after)
        } else {
            after == before
        },
        _ => after == before,
    }
}

// ---------------------------------------------------------------------------------------------
// The rescue
// ---------------------------------------------------------------------------------------------

impl Rescue {
    pub fn new(limits: &CollectionLimits, mounted: HostPath, archive_root: HostPath) -> (started:
        SandboxResult<Rescue>)
        ensures
            match (
                backend::both(limits.verdict(), collection::archive_root_verdict(archive_root)),
                started,
            ) {
                (Err(fault), Err(error)) => error@ == fault,
                (Ok(_), Ok(run)) => {
                    &&& run.consistent()
                    &&& run.step == RescueStep::CreateArchive
                    &&& run.limits == *limits
                    &&& run.mounted == mounted
                    &&& run.archive_root == archive_root
                    &&& run.walk.step == TreeStep::Idle
                    &&& run.walk.archive.artifacts@.len() == 0
                    &&& run.walk.archive.archived_paths@.len() == 0
                    &&& run.walk.archive.total_bytes == 0
                    &&& run.walk.archive.visited_entries == 0
                    &&& !run.discard
                    &&& run.outcome is None
                },
                _ => false,
            },
    {
        match validate_limits(limits) {
            Err(error) => {
                return Err(error);
            },
            Ok(_) => {},
        }
        match prepare_archive_root(&archive_root) {
            Err(error) => {
                return Err(error);
            },
            Ok(_) => {},
        }
        let place = archived_place(archive_root.style, "partial-guest-output", "result.json");
        Ok(
            Rescue {
                step: RescueStep::CreateArchive,
                limits: *limits,
                mounted,
                archive_root,
                walk: TreeWalk::new(limits),
                bytes: Vec::new(),
                place,
                discard: false,
                outcome: None,
            },
        )
    }

    fn end(&mut self, error: SandboxError)
        ensures
            ended(error@, *final(self)),
            final(self).consistent(),
            *final(self) == (Rescue {
                step: RescueStep::Done,
                outcome: final(self).outcome,
                ..*old(self)
            }),
    {
        self.step = RescueStep::Done;
        self.outcome = Some(Err(error));
    }

    fn judge(&mut self, verdict: SandboxResult<()>, step: RescueStep)
        requires
            verdict is Ok ==> (Rescue { step, ..*old(self) }).consistent(),
        ensures
            judged(*old(self), backend::outcome(verdict), step, *final(self)),
            final(self).consistent(),
    {
        match verdict {
            Err(error) => self.end(error),
            Ok(_) => {
                self.step = step;
            },
        }
    }

    fn keep(&mut self, prefix: &str, name: &str, step: RescueStep)
        requires
            old(self).going_on(),
            old(self).walk.archive.settled(),
            is_copy(step),
            (Rescue { step, ..*old(self) }).step_fits(),
        ensures
            kept(*old(self), prefix@, name@, step, *final(self)),
            final(self).consistent(),
    {
        self.place = archived_place(self.archive_root.style, prefix, name);
        let len: u64 = self.bytes.len() as u64;
        let ghost before = self.walk.archive;
        match self.walk.archive.archive_known_file(&self.place, len) {
            Err(error) => self.end(error),
            Ok(_) => {
                self.step = step;
                proof {
                    result_collector::lemma_charged(before, self.walk.archive, &self.place, len);
                }
            },
        }
    }

    fn after_files(&mut self, index: usize)
        requires
            index < RESCUED_COUNT,
            old(self).going_on(),
            old(self).walk.archive.settled(),
        ensures
            files_after(*old(self), index, *final(self)),
            final(self).consistent(),
    {
        if index + 1 < RESCUED_COUNT {
            self.step = RescueStep::ReadFile(index + 1);
        } else {
            self.step = RescueStep::FindTree(0);
        }
    }

    fn planned_file(&self, index: usize) -> (file: PlannedFile)
        requires
            index < RESCUED_COUNT,
        ensures
            file@ == result_collector::partial_plan(self.limits)[index as int],
    {
        let files = partial_files(&self.limits);
        proof {
            let views = result_collector::plan_views(files@);
            assert(views.len() == RESCUED_COUNT);
            assert(views[index as int] == files@[index as int]@);
        }
        files[index]
    }

    fn take_file(&mut self, index: usize, read: Reading<Vec<u8>>)
        requires
            old(self).going_on(),
            old(self).step == RescueStep::ReadFile(index),
        ensures
            file_taken(*old(self), index, read, *final(self)),
            final(self).consistent(),
    {
        match read {
            Reading::Missing => self.after_files(index),
            Reading::Failed(error) => self.end(error),
            Reading::Malformed(_) => {},
            Reading::Got(bytes) => {
                let file = self.planned_file(index);
                self.bytes = bytes;
                self.keep("partial-guest-output", file.name, RescueStep::CopyFile(index));
            },
        }
    }

    fn after_trees(&mut self, index: usize)
        requires
            index < TREE_COUNT,
            old(self).going_on(),
            old(self).walk.archive.settled(),
        ensures
            trees_after(*old(self), index, *final(self)),
            final(self).consistent(),
    {
        if index + 1 < TREE_COUNT {
            self.step = RescueStep::FindTree(index + 1);
        } else {
            self.step = RescueStep::FindStatus;
        }
    }

    fn find_tree(&mut self, index: usize, look: Look)
        requires
            old(self).going_on(),
            old(self).step == RescueStep::FindTree(index),
        ensures
            tree_found(*old(self), index, look, *final(self)),
            final(self).consistent(),
    {
        match look {
            Look::Missing => self.after_trees(index),
            _ => {
                let output = self.mounted.join("output");
                let directory = output.join(tree_directory(index));
                match judge_look(directory.shown.as_str(), &look) {
                    Err(error) => self.end(error),
                    Ok(_) => {
                        self.walk.enter(directory.shown);
                        self.step = RescueStep::WalkTree(index);
                    },
                }
            },
        }
    }

    fn walk_tree(&mut self, index: usize, event: TreeEvent)
        requires
            old(self).going_on(),
            old(self).step == RescueStep::WalkTree(index),
        ensures
            tree_walked(*old(self), index, event, *final(self)),
            final(self).consistent(),
    {
        let ghost before = self.walk;
        self.walk.advance(event);
        let ghost walk = self.walk;
        proof {
            assert(tree_walk::walked(before, event, walk));
            tree_walk::walks_stay_within_limits(before, event, walk);
        }
        match self.walk.step {
            TreeStep::Idle => self.after_trees(index),
            TreeStep::Failed => match self.walk.failure.take() {
                Some(error) => self.end(error),
                None => {},
            },
            _ => {},
        }
    }

    fn finish(&mut self)
        requires
            old(self).going_on(),
        ensures
            finished(*old(self), *final(self)),
            final(self).consistent(),
    {
        let rescued = collect_partial(&self.walk.archive);
        self.outcome = Some(Ok(rescued));
        self.step = RescueStep::Done;
    }

    fn find_status(&mut self, look: Look)
        requires
            old(self).going_on(),
            old(self).step == RescueStep::FindStatus,
        ensures
            status_found(*old(self), look, *final(self)),
            final(self).consistent(),
    {
        match look {
            Look::Missing => self.finish(),
            _ => {
                let directory = self.mounted.join("status");
                let verdict = judge_look(directory.shown.as_str(), &look);
                self.judge(verdict, RescueStep::ReadStatus(0));
            },
        }
    }

    fn after_statuses(&mut self, index: usize)
        requires
            index <= STATE_COUNT,
            old(self).going_on(),
            old(self).walk.archive.settled(),
        ensures
            statuses_after(*old(self), index, *final(self)),
            final(self).consistent(),
    {
        if index < STATE_COUNT {
            self.step = RescueStep::ReadStatus(index + 1);
        } else {
            self.finish();
        }
    }

    fn take_status(&mut self, index: usize, read: Reading<Vec<u8>>)
        requires
            old(self).going_on(),
            old(self).step == RescueStep::ReadStatus(index),
        ensures
            status_taken(*old(self), index, read, *final(self)),
            final(self).consistent(),
    {
        match read {
            Reading::Missing => self.after_statuses(index),
            Reading::Failed(error) => self.end(error),
            Reading::Malformed(_) => {},
            Reading::Got(bytes) => {
                self.bytes = bytes;
                self.keep(
                    "partial-guest-status",
                    status_file(index),
                    RescueStep::CopyStatus(index),
                );
            },
        }
    }

    fn take_copy(&mut self, copied: SandboxResult<String>)
        requires
            old(self).going_on(),
            is_copy(old(self).step),
        ensures
            file_copied(*old(self), copied, *final(self)),
            final(self).consistent(),
    {
        let sha256 = match copied {
            Err(error) => {
                self.end(error);
                return;
            },
            Ok(sha256) => sha256,
        };
        let ghost before = *self;
        match self.walk.archive.record_known_file(&self.place, self.bytes.as_slice(), sha256) {
            Err(error) => {
                self.discard = true;
                self.end(error);
                return;
            },
            Ok(_) => {},
        }
        let ghost archive = self.walk.archive;
        proof {
            let len = before.bytes@.len() as u64;
            result_collector::lemma_recorded(before.walk.archive, archive, &before.place, len, sha256@);
            assert(*self == with_archive(before, archive));
        }
        match self.step {
            RescueStep::CopyFile(index) => {
                self.step = RescueStep::ReadFile(index);
                self.after_files(index);
            },
            RescueStep::CopyStatus(index) => {
                self.step = RescueStep::ReadStatus(index);
                self.after_statuses(index);
            },
            _ => {},
        }
        proof {
            assert(copies_after(with_archive(before, archive), *self));
        }
    }

    /// Takes what came of the step.
    pub fn advance(&mut self, event: RescueEvent)
        requires
            old(self).consistent(),
        ensures
            rescued(*old(self), event, *final(self)),
            final(self).consistent(),
    {
        match (self.step, event) {
            (RescueStep::CreateArchive, RescueEvent::Made(made)) => match made {
                Ok(_) => {
                    self.step = RescueStep::FindOutput;
                },
                Err(source) => {
                    self.end(sourced_error("create a new artifact archive root", source.as_str()));
                },
            },
            (RescueStep::FindOutput, RescueEvent::Looked(look)) => match look {
                Look::Missing => {
                    self.step = RescueStep::FindStatus;
                },
                _ => {
                    let directory = self.mounted.join("output");
                    let verdict = judge_look(directory.shown.as_str(), &look);
                    self.judge(verdict, RescueStep::ReadFile(0));
                },
            },
            (RescueStep::ReadFile(index), RescueEvent::FileRead(read)) => self.take_file(index, read),
            (RescueStep::FindTree(index), RescueEvent::Looked(look)) => self.find_tree(index, look),
            (RescueStep::WalkTree(index), RescueEvent::Tree(step)) => self.walk_tree(index, step),
            (RescueStep::FindStatus, RescueEvent::Looked(look)) => self.find_status(look),
            (RescueStep::ReadStatus(index), RescueEvent::FileRead(read)) => self.take_status(
                index,
                read,
            ),
            (RescueStep::CopyFile(_), RescueEvent::Copied(copied)) => self.take_copy(copied),
            (RescueStep::CopyStatus(_), RescueEvent::Copied(copied)) => self.take_copy(copied),
            _ => {},
        }
    }

    pub open spec fn spec_wanted(&self) -> Option<(GuestDirectory, PlannedView)> {
        let plan = result_collector::partial_plan(self.limits);
        match self.step {
            RescueStep::ReadFile(index) => Some((GuestDirectory::Output, plan[index as int])),
            RescueStep::CopyFile(index) => Some((GuestDirectory::Output, plan[index as int])),
            RescueStep::FindTree(index) => collection::in_output(
                collection::tree_name(index as int),
                0,
                false,
            ),
            RescueStep::WalkTree(index) => collection::in_output(
                collection::tree_name(index as int),
                0,
                false,
            ),
            RescueStep::ReadStatus(index) => collection::in_status(index),
            RescueStep::CopyStatus(index) => collection::in_status(index),
            _ => None,
        }
    }

    /// The file or the directory that the step is about, if it is about one, and how much of it
    /// may be read.
    pub fn wanted(&self) -> (wanted: Option<Wanted>)
        requires
            self.step_fits(),
        ensures
            collection::wanted_view(wanted) == self.spec_wanted(),
    {
        match self.step {
            RescueStep::ReadFile(index) => Some(
                Wanted { directory: GuestDirectory::Output, file: self.planned_file(index) },
            ),
            RescueStep::CopyFile(index) => Some(
                Wanted { directory: GuestDirectory::Output, file: self.planned_file(index) },
            ),
            RescueStep::FindTree(index) => collection::output_file(tree_directory(index), 0, false),
            RescueStep::WalkTree(index) => collection::output_file(tree_directory(index), 0, false),
            RescueStep::ReadStatus(index) => collection::state_file(index),
            RescueStep::CopyStatus(index) => collection::state_file(index),
            _ => None,
        }
    }
}

/// However a rescue goes, what it archived keeps to the limits.
pub proof fn rescues_stay_within_limits(run: Rescue, rescued: PartialCollection)
    requires
        run.consistent(),
        run.outcome == Some(Ok::<PartialCollection, SandboxError>(rescued)),
    ensures
        rescued.artifact_count <= run.limits.maximum_artifacts,
        rescued.total_bytes <= run.limits.maximum_total_bytes,
{
}

/// How a rescue goes: eight files, then two trees, then ten status files, each of which may be missing;
/// what is there and fits is copied, and everything copied is counted in the end.
pub proof fn rescues_go_file_by_file(before: Rescue, event: RescueEvent, after: Rescue)
    requires
        before.consistent(),
        rescued(before, event, after),
    ensures
        before.step is CreateArchive && event is Made ==> (after.step is FindOutput <==> event->Made_0
            is Ok),
        before.step is FindOutput && event is Looked && event->Looked_0 is Missing ==> after.step
            is FindStatus,
        before.step is FindOutput && event is Looked && event->Looked_0 is Found ==> (after.step
            == RescueStep::ReadFile(0) <==> event->Looked_0->Found_0.directory
            && !event->Looked_0->Found_0.link && !event->Looked_0->Found_0.reparse_point),
        before.step is ReadFile && event is FileRead && event->FileRead_0 is Missing ==> after.step == if
            before.step->ReadFile_0 < 7 {
            RescueStep::ReadFile((before.step->ReadFile_0 + 1) as usize)
        } else {
            RescueStep::FindTree(0)
        },
        before.step is ReadFile && event is FileRead && event->FileRead_0 is Got ==> {
            &&& after.step is CopyFile || after.outcome is Some && after.outcome->0 is Err
            &&& after.step is CopyFile ==> after.step->CopyFile_0 == before.step->ReadFile_0
                && after.bytes == event->FileRead_0->Got_0 && after.place.spec_parts() == seq![
                host_path::PartView::Normal("partial-guest-output"@),
                host_path::PartView::Normal(
                    result_collector::partial_plan(before.limits)[before.step->ReadFile_0 as int].name,
                ),
            ]
        },
        before.step is FindTree && event is Looked && event->Looked_0 is Missing ==> after.step == if
            before.step->FindTree_0 == 0 {
            RescueStep::FindTree(1)
        } else {
            RescueStep::FindStatus
        },
        before.step is FindStatus && event is Looked && event->Looked_0 is Missing ==> after.outcome
            is Some && after.outcome->0 is Ok && after.outcome->0->Ok_0.artifact_count
            == before.walk.archive.artifacts@.len() && after.outcome->0->Ok_0.total_bytes
            == before.walk.archive.total_bytes,
        before.step is ReadStatus && event is FileRead && event->FileRead_0 is Missing ==> {
            &&& before.step->ReadStatus_0 < 9 ==> after.step == RescueStep::ReadStatus(
                (before.step->ReadStatus_0 + 1) as usize,
            )
            &&& before.step->ReadStatus_0 == 9 ==> after.outcome is Some && after.outcome->0 is Ok
                && after.outcome->0->Ok_0.artifact_count == before.walk.archive.artifacts@.len()
        },
        before.step is ReadStatus && event is FileRead && event->FileRead_0 is Got && after.step
            is CopyStatus ==> after.step->CopyStatus_0 == before.step->ReadStatus_0 && after.bytes
            == event->FileRead_0->Got_0 && after.place.spec_parts() == seq![
            host_path::PartView::Normal("partial-guest-status"@),
            host_path::PartView::Normal(collection::status_file_name(before.step->ReadStatus_0 as int)),
        ],
        (before.step is CopyFile || before.step is CopyStatus) && event is Copied && (event->Copied_0 is Err
            || event->Copied_0->Ok_0@ != digest::sha256_text(before.bytes@)) ==> after.outcome is Some
            && after.outcome->0 is Err,
        before.step is CopyFile && event is Copied && event->Copied_0 is Ok && event->Copied_0->Ok_0@
            == digest::sha256_text(before.bytes@) ==> after.step == if before.step->CopyFile_0 < 7 {
            RescueStep::ReadFile((before.step->CopyFile_0 + 1) as usize)
        } else {
            RescueStep::FindTree(0)
        },
        event is FileRead && event->FileRead_0 is Failed && (before.step is ReadFile || before.step
            is ReadStatus) ==> after.outcome is Some && after.outcome->0 is Err,
{
}

} // verus!
