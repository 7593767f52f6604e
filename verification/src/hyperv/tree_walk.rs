//! Walking through a directory of the guest's output: every entry is charged and classified, every
//! regular file is archived, every directory is entered.

use vstd::prelude::*;

use crate::backend;
use crate::backend::SandboxError;
use crate::backend::SandboxResult;
use crate::host_path::HostPath;
use crate::hyperv::result_collector;
use crate::hyperv::result_collector::{
    charge_tree_entry, check_tree_depth, classify_tree_entry, Archive, CollectionLimits, EntryFacts,
    TreeEntry, MAX_GUEST_TREE_ENTRIES, MAX_TREE_DEPTH,
};
use crate::text;

verus! {

/// What is to be done next on the walk.
#[derive(Clone, Copy, Debug, PartialEq, Eq, Structural)]
pub enum TreeStep {
    /// No directory is being walked through.
    Idle,
    /// List the directory that was found last.
    Open,
    /// Take the next entry of the directory that was opened last and is not yet exhausted.
    Next,
    /// Look at the entry, links not followed.
    Inspect,
    /// Copy the file to its place in the archive.
    Copy,
    Failed,
}

/// An entry of a directory of the guest's output.
#[derive(Clone, Debug, PartialEq, Eq)]
pub struct ListedEntry {
    /// The path of the entry, as messages show it.
    pub shown: String,
    /// Its place in the archive.
    pub place: HostPath,
}

/// What came of a step.
#[derive(Debug)]
pub enum TreeEvent {
    Opened(Result<(), String>),
    Entry(Result<Option<ListedEntry>, String>),
    Looked(Result<EntryFacts, String>),
    Copied(SandboxResult<String>),
}

/// An archive, and the walk through a directory of the guest's output that fills it.
#[derive(Debug)]
pub struct TreeWalk {
    pub archive: Archive,
    pub step: TreeStep,
    /// How many directories lie between the entered one and the first.
    pub depth: usize,
    /// The directory to be listed, as messages show it.
    pub directory: String,
    pub entry: Option<ListedEntry>,
    /// The length of the file to be copied.
    pub len: u64,
    pub failure: Option<SandboxError>,
}

/// The walk ended with an error; nothing more is archived.
pub open spec fn stopped(before: TreeWalk, fault: backend::Fault, after: TreeWalk) -> bool {
    &&& after.step == TreeStep::Failed
    &&& after.failure matches Some(error) && error@ == fault
    &&& after.archive.artifacts == before.archive.artifacts
    &&& after.archive.limits == before.archive.limits
}

pub open spec fn sourced(message: Seq<char>, source: Seq<char>) -> backend::Fault {
    backend::fault_from("hyperv_result_collection"@, message, source)
}

/// The archive with one more entry charged.
pub open spec fn charged_entry(archive: Archive) -> Archive {
    Archive { visited_entries: (archive.visited_entries + 1) as u64, ..archive }
}

/// What follows on an entry that was taken.
pub open spec fn entry_taken(before: TreeWalk, entry: ListedEntry, after: TreeWalk) -> bool {
    if before.archive.visited_entries == u64::MAX {
        stopped(
            before,
            result_collector::collection_fault("guest artifact entry count overflowed"@),
            after,
        )
    } else if before.archive.visited_entries + 1 > MAX_GUEST_TREE_ENTRIES {
        stopped(
            before,
            result_collector::collection_fault(
                "guest artifact tree exceeds the aggregate entry limit"@,
            ),
            after,
        )
    } else {
        after == (TreeWalk {
            step: TreeStep::Inspect,
            entry: Some(entry),
            archive: charged_entry(before.archive),
            ..before
        })
    }
}

/// What follows on what an entry is.
pub open spec fn entry_seen(
    before: TreeWalk,
    entry: ListedEntry,
    facts: EntryFacts,
    after: TreeWalk,
) -> bool {
    match result_collector::tree_entry_value(entry.shown@, facts) {
        Err(fault) => stopped(before, fault, after),
        Ok(TreeEntry::Descend) => if before.depth + 1 > MAX_TREE_DEPTH {
            stopped(
                before,
                result_collector::collection_fault(
                    "guest artifact directory nesting exceeds 16 levels"@,
                ),
                after,
            )
        } else {
            after == (TreeWalk {
                step: TreeStep::Open,
                depth: (before.depth + 1) as usize,
                directory: entry.shown,
                entry: None,
                ..before
            })
        },
        Ok(TreeEntry::Archive) => match before.archive.admission_verdict(
            &entry.place,
            facts.len,
            "guest artifact count or per-file size exceeds its limit"@,
        ) {
            Err(fault) => stopped(before, fault, after),
            Ok(_) => {
                &&& before.archive.charged(&entry.place, facts.len, &after.archive)
                &&& after == (TreeWalk {
                    step: TreeStep::Copy,
                    len: facts.len,
                    archive: after.archive,
                    ..before
                })
            },
        },
    }
}

/// What follows on the copy of a file.
pub open spec fn file_copied(
    before: TreeWalk,
    entry: ListedEntry,
    copied: SandboxResult<String>,
    after: TreeWalk,
) -> bool {
    match copied {
        Err(error) => stopped(before, error@, after),
        Ok(sha256) => {
            &&& before.archive.recorded(&entry.place, before.len, sha256@, &after.archive)
            &&& after == (TreeWalk {
                step: TreeStep::Next,
                entry: None,
                archive: after.archive,
                ..before
            })
        },
    }
}

/// What one event makes of the walk. An event that is no answer to the step changes nothing.
pub open spec fn walked(before: TreeWalk, event: TreeEvent, after: TreeWalk) -> bool {
    match (before.step, event) {
        (TreeStep::Open, TreeEvent::Opened(opened)) => match opened {
            Ok(_) => after == (TreeWalk { step: TreeStep::Next, ..before }),
            Err(source) => stopped(
                before,
                sourced("enumerate guest artifact directory "@ + before.directory@, source@),
                after,
            ),
        },
        (TreeStep::Next, TreeEvent::Entry(listed)) => match listed {
            Err(source) => stopped(before, sourced("read a guest artifact entry"@, source@), after),
            Ok(None) => if before.depth == 0 {
                after == (TreeWalk { step: TreeStep::Idle, ..before })
            } else {
                after == (TreeWalk { depth: (before.depth - 1) as usize, ..before })
            },
            Ok(Some(entry)) => entry_taken(before, entry, after),
        },
        (TreeStep::Inspect, TreeEvent::Looked(looked)) => match (before.entry, looked) {
            (Some(entry), Err(source)) => stopped(
                before,
                sourced("inspect guest artifact "@ + entry.shown@, source@),
                after,
            ),
            (Some(entry), Ok(facts)) => entry_seen(before, entry, facts, after),
            (None, _) => after == before,
        },
        (TreeStep::Copy, TreeEvent::Copied(copied)) => match before.entry {
            Some(entry) => file_copied(before, entry, copied, after),
            None => after == before,
        },
        _ => after == before,
    }
}

pub fn sourced_error(message: &str, source: &str) -> (error: SandboxError)
    ensures
        error@ == sourced(message@, source@),
{
    SandboxError::with_source("hyperv_result_collection", message, source)
}

impl TreeWalk {
    pub open spec fn with_entry(self, entry: ListedEntry) -> TreeWalk {
        TreeWalk { entry: Some(entry), ..self }
    }

    /// The archive holds what was charged to it, but for the file that is being copied.
    pub open spec fn in_order(self) -> bool {
        if self.step == TreeStep::Copy {
            self.entry matches Some(entry) && self.archive.awaits(&entry.place, self.len as int)
        } else {
            self.archive.settled()
        }
    }

    pub fn new(limits: &CollectionLimits) -> (walk: TreeWalk)
        ensures
            walk.step == TreeStep::Idle,
            walk.depth == 0,
            walk.failure is None,
            walk.archive.limits == *limits,
            walk.archive.artifacts@.len() == 0,
            walk.archive.archived_paths@.len() == 0,
            walk.archive.total_bytes == 0,
            walk.archive.visited_entries == 0,
            walk.archive.settled(),
    {
        TreeWalk {
            archive: Archive::new(limits),
            step: TreeStep::Idle,
            depth: 0,
            directory: "".to_owned(),
            entry: None,
            len: 0,
            failure: None,
        }
    }

    /// Begins the walk through a directory.
    pub fn enter(&mut self, directory: String)
        ensures
            *final(self) == (TreeWalk {
                step: TreeStep::Open,
                depth: 0,
                directory,
                entry: None,
                ..*old(self)
            }),
    {
        self.step = TreeStep::Open;
        self.depth = 0;
        self.directory = directory;
        self.entry = None;
    }

    fn stop(&mut self, error: SandboxError)
        ensures
            stopped(*old(self), error@, *final(self)),
    {
        self.step = TreeStep::Failed;
        self.failure = Some(error);
    }

    fn take_entry(&mut self, entry: ListedEntry)
        ensures
            entry_taken(*old(self), entry, *final(self)),
    {
        match charge_tree_entry(&mut self.archive.visited_entries) {
            Err(error) => self.stop(error),
            Ok(_) => {
                self.step = TreeStep::Inspect;
                self.entry = Some(entry);
            },
        }
    }

    fn see_entry(&mut self, entry: ListedEntry, facts: EntryFacts)
        ensures
            entry_seen(old(self).with_entry(entry), entry, facts, *final(self)),
    {
        match classify_tree_entry(entry.shown.as_str(), facts) {
            Err(error) => self.stop(error),
            Ok(TreeEntry::Descend) => {
                if self.depth >= MAX_TREE_DEPTH {
                    match check_tree_depth(MAX_TREE_DEPTH + 1) {
                        Err(error) => self.stop(error),
                        Ok(_) => {},
                    }
                } else {
                    self.depth = self.depth + 1;
                    self.step = TreeStep::Open;
                    self.directory = entry.shown;
                    self.entry = None;
                }
            },
            Ok(TreeEntry::Archive) => match self.archive.archive_tree_file(&entry.place, facts.len) {
                Err(error) => self.stop(error),
                Ok(_) => {
                    self.step = TreeStep::Copy;
                    self.len = facts.len;
                    self.entry = Some(entry);
                },
            },
        }
    }

    fn take_copy(&mut self, entry: ListedEntry, copied: SandboxResult<String>)
        ensures
            file_copied(old(self).with_entry(entry), entry, copied, *final(self)),
    {
        match copied {
            Err(error) => self.stop(error),
            Ok(sha256) => {
                let len: u64 = self.len;
                self.archive.record_tree_file(&entry.place, len, sha256);
                self.step = TreeStep::Next;
                self.entry = None;
            },
        }
    }

    /// Takes what came of the step.
    pub fn advance(&mut self, event: TreeEvent)
        ensures
            walked(*old(self), event, *final(self)),
    {
        match (self.step, event) {
            (TreeStep::Open, TreeEvent::Opened(opened)) => match opened {
                Ok(_) => {
                    self.step = TreeStep::Next;
                },
                Err(source) => {
                    let message = text::cat2(
                        "enumerate guest artifact directory ",
                        self.directory.as_str(),
                    );
                    self.stop(sourced_error(message.as_str(), source.as_str()));
                },
            },
            (TreeStep::Next, TreeEvent::Entry(listed)) => match listed {
                Err(source) => {
                    self.stop(sourced_error("read a guest artifact entry", source.as_str()));
                },
                Ok(None) => {
                    if self.depth == 0 {
                        self.step = TreeStep::Idle;
                    } else {
                        self.depth = self.depth - 1;
                    }
                },
                Ok(Some(entry)) => self.take_entry(entry),
            },
            (TreeStep::Inspect, TreeEvent::Looked(looked)) => {
                match self.entry.take() {
                    None => {},
                    Some(entry) => match looked {
                        Err(source) => {
                            let message = text::cat2(
                                "inspect guest artifact ",
                                entry.shown.as_str(),
                            );
                            self.stop(sourced_error(message.as_str(), source.as_str()));
                        },
                        Ok(facts) => self.see_entry(entry, facts),
                    },
                }
            },
            (TreeStep::Copy, TreeEvent::Copied(copied)) => match self.entry.take() {
                None => {},
                Some(entry) => self.take_copy(entry, copied),
            },
            _ => {},
        }
    }
}

/// Whatever is reported, a walk that has not failed keeps its archive within the limits, with exactly
/// the files that were admitted to it.
pub proof fn walks_stay_within_limits(before: TreeWalk, event: TreeEvent, after: TreeWalk)
    requires
        walked(before, event, after),
        before.in_order(),
    ensures
        after.step != TreeStep::Failed ==> after.in_order(),
        after.archive.limits == before.archive.limits,
{
    if let TreeEvent::Looked(Ok(facts)) = event {
        if before.step == TreeStep::Inspect && after.step == TreeStep::Copy {
            let entry = before.entry->0;
            result_collector::lemma_charged(
                before.archive,
                after.archive,
                &entry.place,
                facts.len,
            );
        }
    }
    if let TreeEvent::Copied(Ok(sha256)) = event {
        if before.step == TreeStep::Copy && after.step == TreeStep::Next {
            let entry = before.entry->0;
            result_collector::lemma_recorded(
                before.archive,
                after.archive,
                &entry.place,
                before.len,
                sha256@,
            );
        }
    }
}

/// How a tree is walked: a directory is opened and its entries are taken one after the other, at most
/// 4096 in all; what lies in a directory is walked before what follows it, down to sixteen levels; and a
/// file is copied and recorded. Whatever fails ends the walk.
pub proof fn trees_are_walked_in_order(before: TreeWalk, event: TreeEvent, after: TreeWalk)
    requires
        walked(before, event, after),
    ensures
        before.step is Open && event is Opened ==> after.step == if event->Opened_0 is Ok {
            TreeStep::Next
        } else {
            TreeStep::Failed
        },
        before.step is Next && event is Entry ==> {
            let listed = event->Entry_0;
            &&& listed is Err ==> after.step is Failed
            &&& listed is Ok && listed->Ok_0 is None && before.depth == 0 ==> after.step is Idle
            &&& listed is Ok && listed->Ok_0 is None && before.depth > 0 ==> after.step is Next
                && after.depth == before.depth - 1
            &&& listed is Ok && listed->Ok_0 is Some ==> {
                &&& after.step is Inspect <==> before.archive.visited_entries < 4096
                &&& after.step is Inspect ==> after.entry == Some(listed->Ok_0->0)
                    && after.archive.visited_entries == before.archive.visited_entries + 1
                &&& after.step is Inspect || after.step is Failed
            }
        },
        before.step is Inspect && event is Looked && before.entry is Some ==> {
            let looked = event->Looked_0;
            &&& looked is Err ==> after.step is Failed
            &&& looked is Ok ==> {
                let entry = before.entry->0;
                let kind = result_collector::tree_entry_value(entry.shown@, looked->Ok_0);
                &&& after.step is Open <==> kind == Ok::<TreeEntry, backend::Fault>(TreeEntry::Descend)
                    && before.depth < 16
                &&& after.step is Open ==> after.depth == before.depth + 1 && after.directory
                    == entry.shown
                &&& after.step is Copy <==> kind == Ok::<TreeEntry, backend::Fault>(TreeEntry::Archive)
                    && before.archive.admission_verdict(
                    &entry.place,
                    looked->Ok_0.len,
                    "guest artifact count or per-file size exceeds its limit"@,
                ) is Ok
                &&& after.step is Copy ==> after.len == looked->Ok_0.len && after.entry == before.entry
                &&& after.step is Open || after.step is Copy || after.step is Failed
            }
        },
        before.step is Copy && event is Copied && before.entry is Some ==> after.step == if
            event->Copied_0 is Ok {
            TreeStep::Next
        } else {
            TreeStep::Failed
        },
{
}

} // verus!
