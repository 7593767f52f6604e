//! Virtual disks of a run: where they may lie, what a created one must be, and when one may be
//! deleted.

use vstd::prelude::*;
use vstd::string::*;

use crate::backend;
use crate::backend::{SandboxError, SandboxResult};
use crate::host_path;
use crate::host_path::HostPath;
use crate::hyperv::powershell;
use crate::hyperv::powershell::{command_path, PowerShellInvocation};
use crate::hyperv::scripts;
use crate::text;

verus! {

/// What the host reports of a virtual disk.
#[derive(Clone, Debug, PartialEq, Eq)]
pub struct VhdInfo {
    pub path: HostPath,
    pub vhd_format: String,
    pub vhd_type: String,
    pub attached: bool,
    pub parent_path: Option<HostPath>,
    pub size_bytes: u64,
    pub logical_sector_size: u32,
    pub disk_identifier: Option<String>,
}

#[derive(Clone, Debug, PartialEq, Eq)]
pub struct DifferencingDiskSpec {
    pub run_root: HostPath,
    pub path: HostPath,
    pub parent_path: HostPath,
}

#[derive(Clone, Debug, PartialEq, Eq)]
pub struct DifferencingDisk {
    pub path: HostPath,
    pub parent_path: HostPath,
    pub disk_identifier: Option<String>,
    pub size_bytes: u64,
}

pub fn paths_equal_lexically(left: &HostPath, right: &HostPath) -> (same: bool)
    ensures
        same == left.same(right),
{
    left.is_same(right)
}

/// One of the two disks that a run has.
pub open spec fn owned_disk_name(name: Option<Seq<char>>) -> bool {
    match name {
        Some(found) => text::same_ignoring_case(found, "os-diff.vhdx"@) || text::same_ignoring_case(
            found,
            "run-data.vhdx"@,
        ),
        None => false,
    }
}

/// A disk of the run, directly below its root.
pub open spec fn owned_disk_path(path: &HostPath, run_root: &HostPath) -> bool {
    &&& path.absolute
    &&& run_root.absolute
    &&& !path.equals(run_root)
    &&& path.within(run_root)
    &&& host_path::parent_of(path.spec_parts()) matches Some(parent) && host_path::same_parts(
        path.style,
        parent,
        run_root.spec_parts(),
    )
    &&& owned_disk_name(host_path::name_of(path.spec_parts()))
    &&& !exists|i: int| 0 <= i < path.parts@.len() && (#[trigger] path.parts@[i]) is Parent
}

pub open spec fn owned_path_verdict(path: &HostPath, run_root: &HostPath) -> Result<
    (),
    backend::Fault,
> {
    if !owned_disk_path(path, run_root) {
        Err(
            backend::fault(
                "hyperv_disk"@,
                "owned disk path is not an exact direct VHDX child of the per-run root"@,
            ),
        )
    } else if !host_path::has_extension_spec(path.spec_parts(), "vhdx"@) {
        Err(backend::fault("hyperv_disk"@, "owned disk must use a .vhdx extension"@))
    } else {
        Ok(())
    }
}

pub fn validate_owned_path(path: &HostPath, run_root: &HostPath) -> (verdict: SandboxResult<()>)
    ensures
        backend::outcome(verdict) == owned_path_verdict(path, run_root),
{
    let expected_name = match path.file_name() {
        Some(name) => text::eq_ignoring_case(name.as_str(), "os-diff.vhdx")
            || text::eq_ignoring_case(name.as_str(), "run-data.vhdx"),
        None => false,
    };
    if !path.is_absolute() || !run_root.is_absolute() || path.is_equal(run_root) || !path.is_within(
        run_root,
    ) || !path.is_child_of(run_root) || !expected_name || path.climbs() {
        return Err(
            SandboxError::new(
                "hyperv_disk",
                "owned disk path is not an exact direct VHDX child of the per-run root",
            ),
        );
    }
    if !path.has_extension("vhdx") {
        return Err(SandboxError::new("hyperv_disk", "owned disk must use a .vhdx extension"));
    }
    Ok(())
}

impl DifferencingDiskSpec {
    pub open spec fn verdict(&self) -> Result<(), backend::Fault> {
        backend::both(
            owned_path_verdict(&self.path, &self.run_root),
            if !self.parent_path.absolute || self.parent_path.equals(&self.path)
                || self.parent_path.within(&self.run_root) {
                Err(
                    backend::fault(
                        "hyperv_disk"@,
                        "base-image parent must be an absolute path outside the per-run root"@,
                    ),
                )
            } else {
                Ok(())
            },
        )
    }
}

pub fn validate_spec(spec: &DifferencingDiskSpec) -> (verdict: SandboxResult<()>)
    ensures
        backend::outcome(verdict) == spec.verdict(),
{
    match validate_owned_path(&spec.path, &spec.run_root) {
        Err(error) => {
            return Err(error);
        },
        Ok(_) => {},
    }
    if !spec.parent_path.is_absolute() || spec.parent_path.is_equal(&spec.path)
        || spec.parent_path.is_within(&spec.run_root) {
        return Err(
            SandboxError::new(
                "hyperv_disk",
                "base-image parent must be an absolute path outside the per-run root",
            ),
        );
    }
    Ok(())
}

/// The data of the script that creates a differencing disk.
#[derive(Clone, Debug, PartialEq, Eq)]
pub struct DifferencingDiskInput {
    pub path: String,
    pub parent_path: String,
}

/// Why a differencing disk cannot be created.
pub open spec fn creation_fault(spec: &DifferencingDiskSpec, exists_already: bool) -> Option<
    backend::Fault,
> {
    match spec.verdict() {
        Err(error) => Some(error),
        Ok(_) => if exists_already {
            Some(
                backend::fault("hyperv_disk"@, "differencing-disk destination already exists"@),
            )
        } else {
            match powershell::command_path_value(&spec.path, "differencing-disk path"@) {
                Err(error) => Some(error),
                Ok(_) => match powershell::command_path_value(
                    &spec.parent_path,
                    "base-image parent path"@,
                ) {
                    Err(error) => Some(error),
                    Ok(_) => None,
                },
            }
        },
    }
}

/// The invocation that creates the differencing disk of a run. `exists_already` says whether
/// something lies at its destination.
pub fn create_differencing_disk(spec: &DifferencingDiskSpec, exists_already: bool) -> (invocation:
    SandboxResult<PowerShellInvocation<DifferencingDiskInput>>)
    ensures
        match invocation {
            Ok(made) => {
                &&& creation_fault(spec, exists_already) is None
                &&& made.operation@ == "create Hyper-V differencing disk"@
                &&& made.script@ == scripts::CREATE_DIFFERENCING_DISK_SCRIPT@
                &&& powershell::command_path_value(&spec.path, "differencing-disk path"@) == Ok::<
                    Seq<char>,
                    backend::Fault,
                >(made.input.path@)
                &&& powershell::command_path_value(&spec.parent_path, "base-image parent path"@)
                    == Ok::<Seq<char>, backend::Fault>(made.input.parent_path@)
                &&& made.admission_limits_are_default()
            },
            Err(error) => creation_fault(spec, exists_already) == Some(error@),
        },
{
    match validate_spec(spec) {
        Err(error) => {
            return Err(error);
        },
        Ok(_) => {},
    }
    if exists_already {
        return Err(
            SandboxError::new("hyperv_disk", "differencing-disk destination already exists"),
        );
    }
    let path = match command_path(&spec.path, "differencing-disk path") {
        Ok(path) => path,
        Err(error) => {
            return Err(error);
        },
    };
    let parent_path = match command_path(&spec.parent_path, "base-image parent path") {
        Ok(path) => path,
        Err(error) => {
            return Err(error);
        },
    };
    Ok(
        PowerShellInvocation::new(
            "create Hyper-V differencing disk",
            scripts::CREATE_DIFFERENCING_DISK_SCRIPT,
            DifferencingDiskInput { path, parent_path },
        ),
    )
}

impl DifferencingDiskSpec {
    /// The reported disk is the one that was asked for, over the parent that was asked for.
    pub open spec fn created_as(&self, info: &VhdInfo) -> bool {
        &&& text::same_ignoring_case(info.vhd_format@, "vhdx"@)
        &&& text::same_ignoring_case(info.vhd_type@, "differencing"@)
        &&& !info.attached
        &&& info.size_bytes > 0
        &&& info.logical_sector_size > 0
        &&& info.path.same(&self.path)
        &&& info.parent_path matches Some(parent) && parent.same(&self.parent_path)
    }
}

pub open spec fn created_disk_verdict(spec: &DifferencingDiskSpec, info: &VhdInfo) -> Result<
    (),
    backend::Fault,
> {
    if spec.created_as(info) {
        Ok(())
    } else {
        Err(
            backend::fault(
                "hyperv_disk"@,
                "created VHDX does not match the requested differencing disk and parent"@,
            ),
        )
    }
}

pub fn validate_created_disk(spec: &DifferencingDiskSpec, info: &VhdInfo) -> (verdict: SandboxResult<
    (),
>)
    ensures
        backend::outcome(verdict) == created_disk_verdict(spec, info),
{
    let parent_matches = match &info.parent_path {
        Some(parent) => paths_equal_lexically(parent, &spec.parent_path),
        None => false,
    };
    if !text::eq_ignoring_case(info.vhd_format.as_str(), "vhdx") || !text::eq_ignoring_case(
        info.vhd_type.as_str(),
        "differencing",
    ) || info.attached || info.size_bytes == 0 || info.logical_sector_size == 0
        || !paths_equal_lexically(&info.path, &spec.path) || !parent_matches {
        return Err(
            SandboxError::new(
                "hyperv_disk",
                "created VHDX does not match the requested differencing disk and parent",
            ),
        );
    }
    Ok(())
}

/// The disk of a run, once the host reported it as asked for.
pub fn accept_differencing_disk(spec: &DifferencingDiskSpec, info: VhdInfo) -> (disk: SandboxResult<
    DifferencingDisk,
>)
    ensures
        match disk {
            Ok(made) => {
                &&& created_disk_verdict(spec, &info) is Ok
                &&& made.path.copies(&spec.path)
                &&& made.parent_path.copies(&spec.parent_path)
                &&& made.disk_identifier == info.disk_identifier
                &&& made.size_bytes == info.size_bytes
            },
            Err(error) => created_disk_verdict(spec, &info) == Err::<(), backend::Fault>(error@),
        },
{
    match validate_created_disk(spec, &info) {
        Err(error) => Err(error),
        Ok(_) => Ok(
            DifferencingDisk {
                path: spec.path.duplicate(),
                parent_path: spec.parent_path.duplicate(),
                disk_identifier: info.disk_identifier,
                size_bytes: info.size_bytes,
            },
        ),
    }
}

/// The data of a script that takes one path.
#[derive(Clone, Debug, PartialEq, Eq)]
pub struct PathInput {
    pub path: String,
}

/// The invocation that reports the facts of a virtual disk.
pub fn inspect_vhd(path: &HostPath) -> (invocation: SandboxResult<PowerShellInvocation<PathInput>>)
    ensures
        match invocation {
            Ok(made) => {
                &&& made.operation@ == "inspect Hyper-V disk"@
                &&& made.script@ == scripts::INSPECT_VHD_SCRIPT@
                &&& powershell::command_path_value(path, "VHDX path"@) == Ok::<
                    Seq<char>,
                    backend::Fault,
                >(made.input.path@)
                &&& made.admission_limits_are_default()
            },
            Err(error) => powershell::command_path_value(path, "VHDX path"@) == Err::<
                Seq<char>,
                backend::Fault,
            >(error@),
        },
{
    match command_path(path, "VHDX path") {
        Ok(path) => Ok(
            PowerShellInvocation::new(
                "inspect Hyper-V disk",
                scripts::INSPECT_VHD_SCRIPT,
                PathInput { path },
            ),
        ),
        Err(error) => Err(error),
    }
}

// ---------------------------------------------------------------------------------------------
// Deletion
// ---------------------------------------------------------------------------------------------

pub open spec fn deletion_request_verdict(
    path: &HostPath,
    run_root: &HostPath,
    expected_identifier: Seq<char>,
) -> Result<(), backend::Fault> {
    backend::both(
        owned_path_verdict(path, run_root),
        if text::blank(expected_identifier) {
            Err(
                backend::fault(
                    "hyperv_disk_cleanup"@,
                    "refusing to delete a VHDX without its recorded disk identifier"@,
                ),
            )
        } else {
            Ok(())
        },
    )
}

/// Whether the deletion of a disk may be looked into at all.
pub fn check_deletion(path: &HostPath, run_root: &HostPath, expected_identifier: &str) -> (verdict:
    SandboxResult<()>)
    ensures
        backend::outcome(verdict) == deletion_request_verdict(path, run_root, expected_identifier@),
{
    match validate_owned_path(path, run_root) {
        Err(error) => {
            return Err(error);
        },
        Ok(_) => {},
    }
    if text::is_blank(expected_identifier) {
        return Err(
            SandboxError::new(
                "hyperv_disk_cleanup",
                "refusing to delete a VHDX without its recorded disk identifier",
            ),
        );
    }
    Ok(())
}

/// The inspected disk is detached and is the recorded one.
pub open spec fn deletable(info: &VhdInfo, path: &HostPath, expected_identifier: Seq<char>) -> bool {
    &&& !info.attached
    &&& text::same_ignoring_case(info.vhd_format@, "vhdx"@)
    &&& info.path.same(path)
    &&& info.disk_identifier matches Some(observed) && text::same_ignoring_case(
        observed@,
        expected_identifier,
    )
}

/// Whether the inspected disk may be deleted.
pub fn confirm_deletion(info: &VhdInfo, path: &HostPath, expected_identifier: &str) -> (verdict:
    SandboxResult<()>)
    ensures
        backend::outcome(verdict) == if deletable(info, path, expected_identifier@) {
            Ok(())
        } else {
            Err(unconfirmed_fault())
        },
{
    let identity_matches = match &info.disk_identifier {
        Some(observed) => text::eq_ignoring_case(observed.as_str(), expected_identifier),
        None => false,
    };
    if info.attached || !text::eq_ignoring_case(info.vhd_format.as_str(), "vhdx")
        || !paths_equal_lexically(&info.path, path) || !identity_matches {
        return Err(
            SandboxError::new(
                "hyperv_disk_cleanup",
                "refusing to delete a VHDX whose path, attachment state, or disk identity does not match the recorded run resource",
            ),
        );
    }
    Ok(())
}

/// What is to be done next.
#[derive(Clone, Copy, Debug, PartialEq, Eq, Structural)]
pub enum DeletionStep {
    /// Open the disk so that it may be inspected meanwhile.
    OpenForInspection,
    /// Query the facts of the disk.
    Inspect,
    /// Open the disk for deletion, if it is still the inspected file.
    Reopen,
    /// Delete the open file.
    Delete,
    Done,
}

/// What came of a step.
#[derive(Debug)]
pub enum DeletionEvent {
    Settled(Result<(), String>),
    Inspected(SandboxResult<VhdInfo>),
}

/// The deletion of a recorded disk.
#[derive(Debug)]
pub struct DiskDeletion {
    pub step: DeletionStep,
    pub path: HostPath,
    pub expected_identifier: String,
    /// What the inspection found.
    pub info: Option<VhdInfo>,
    pub outcome: Option<SandboxResult<()>>,
}

pub open spec fn unconfirmed_fault() -> backend::Fault {
    backend::fault(
        "hyperv_disk_cleanup"@,
        "refusing to delete a VHDX whose path, attachment state, or disk identity does not match the recorded run resource"@,
    )
}

pub open spec fn deletion_fault(message: Seq<char>, source: Seq<char>) -> backend::Fault {
    backend::fault_from("hyperv_disk_cleanup"@, message, source)
}

fn deletion_error(message: &str, source: &str) -> (error: SandboxError)
    ensures
        error@ == deletion_fault(message@, source@),
{
    SandboxError::with_source("hyperv_disk_cleanup", message, source)
}

impl DiskDeletion {
    /// The inspected disk is detached and is the recorded one.
    pub open spec fn confirmed(&self) -> bool {
        self.info matches Some(info) && deletable(&info, &self.path, self.expected_identifier@)
    }

    pub open spec fn consistent(&self) -> bool {
        if self.step == DeletionStep::Done {
            self.outcome matches Some(outcome) && (outcome is Ok ==> self.confirmed())
        } else {
            &&& self.outcome is None
            &&& self.step == DeletionStep::Reopen ==> self.info is Some
            &&& self.step == DeletionStep::Delete ==> self.confirmed()
        }
    }
}

/// The deletion ended with an error.
pub open spec fn undeleted(fault: backend::Fault, after: DiskDeletion) -> bool {
    &&& after.step == DeletionStep::Done
    &&& after.outcome matches Some(Err(error)) && error@ == fault
}

/// What one event makes of the deletion. An event that is no answer to the step changes nothing.
pub open spec fn deleted(before: DiskDeletion, event: DeletionEvent, after: DiskDeletion) -> bool {
    match (before.step, event) {
        (DeletionStep::OpenForInspection, DeletionEvent::Settled(opened)) => match opened {
            Err(source) => undeleted(
                deletion_fault(
                    "open the owned VHDX for identity-preserving inspection"@,
                    source@,
                ),
                after,
            ),
            Ok(_) => after == (DiskDeletion { step: DeletionStep::Inspect, ..before }),
        },
        (DeletionStep::Inspect, DeletionEvent::Inspected(inspected)) => match inspected {
            Err(error) => undeleted(error@, after),
            Ok(info) => after == (DiskDeletion {
                step: DeletionStep::Reopen,
                info: Some(info),
                ..before
            }),
        },
        (DeletionStep::Reopen, DeletionEvent::Settled(reopened)) => match reopened {
            Err(source) => undeleted(
                deletion_fault(
                    "reopen the inspected VHDX for deletion without an identity change"@,
                    source@,
                ),
                after,
            ),
            Ok(_) => if before.confirmed() {
                after == (DiskDeletion { step: DeletionStep::Delete, ..before })
            } else {
                undeleted(unconfirmed_fault(), after)
            },
        },
        (DeletionStep::Delete, DeletionEvent::Settled(removed)) => match removed {
            Err(source) => undeleted(
                deletion_fault(
                    "delete owned disk by verified handle "@ + before.path.shown@,
                    source@,
                ),
                after,
            ),
            Ok(_) => after == (DiskDeletion {
                step: DeletionStep::Done,
                outcome: Some(Ok(())),
                ..before
            }),
        },
        _ => after == before,
    }
}

impl DiskDeletion {
    /// Begins the deletion of a disk of a run, where its place and its identity are recorded.
    pub fn delete_owned_disk(path: &HostPath, run_root: &HostPath, expected_identifier: &str) -> (started:
        SandboxResult<DiskDeletion>)
        ensures
            match (deletion_request_verdict(path, run_root, expected_identifier@), started) {
                (Err(fault), Err(error)) => error@ == fault,
                (Ok(_), Ok(run)) => {
                    &&& run.consistent()
                    &&& run.step == DeletionStep::OpenForInspection
                    &&& run.path.copies(path)
                    &&& run.expected_identifier@ == expected_identifier@
                    &&& run.info is None
                    &&& run.outcome is None
                },
                _ => false,
            },
    {
        match check_deletion(path, run_root, expected_identifier) {
            Err(error) => Err(error),
            Ok(_) => Ok(
                DiskDeletion {
                    step: DeletionStep::OpenForInspection,
                    path: path.duplicate(),
                    expected_identifier: expected_identifier.to_owned(),
                    info: None,
                    outcome: None,
                },
            ),
        }
    }

    fn end(&mut self, error: SandboxError)
        ensures
            undeleted(error@, *final(self)),
            final(self).consistent(),
    {
        self.step = DeletionStep::Done;
        self.outcome = Some(Err(error));
    }

    fn confirm(&mut self)
        requires
            old(self).consistent(),
            old(self).step == DeletionStep::Reopen,
        ensures
            final(self).consistent(),
            if old(self).confirmed() {
                *final(self) == (DiskDeletion { step: DeletionStep::Delete, ..*old(self) })
            } else {
                undeleted(unconfirmed_fault(), *final(self))
            },
    {
        match &self.info {
            None => {},
            Some(info) => match confirm_deletion(
                info,
                &self.path,
                self.expected_identifier.as_str(),
            ) {
                Err(error) => self.end(error),
                Ok(_) => {
                    self.step = DeletionStep::Delete;
                },
            },
        }
    }

    /// Takes what came of the step.
    pub fn advance(&mut self, event: DeletionEvent)
        requires
            old(self).consistent(),
        ensures
            deleted(*old(self), event, *final(self)),
            final(self).consistent(),
    {
        match (self.step, event) {
            (DeletionStep::OpenForInspection, DeletionEvent::Settled(opened)) => match opened {
                Err(source) => {
                    let error = deletion_error(
                        "open the owned VHDX for identity-preserving inspection",
                        source.as_str(),
                    );
                    self.end(error);
                },
                Ok(_) => {
                    self.step = DeletionStep::Inspect;
                },
            },
            (DeletionStep::Inspect, DeletionEvent::Inspected(inspected)) => match inspected {
                Err(error) => self.end(error),
                Ok(info) => {
                    self.info = Some(info);
                    self.step = DeletionStep::Reopen;
                },
            },
            (DeletionStep::Reopen, DeletionEvent::Settled(reopened)) => match reopened {
                Err(source) => {
                    let error = deletion_error(
                        "reopen the inspected VHDX for deletion without an identity change",
                        source.as_str(),
                    );
                    self.end(error);
                },
                Ok(_) => self.confirm(),
            },
            (DeletionStep::Delete, DeletionEvent::Settled(removed)) => match removed {
                Err(source) => {
                    let message = text::cat2(
                        "delete owned disk by verified handle ",
                        self.path.shown.as_str(),
                    );
                    self.end(deletion_error(message.as_str(), source.as_str()));
                },
                Ok(_) => {
                    self.step = DeletionStep::Done;
                    self.outcome = Some(Ok(()));
                },
            },
            _ => {},
        }
    }
}

// ---------------------------------------------------------------------------------------------
// Laws
// ---------------------------------------------------------------------------------------------

/// The parts of a path hold no parent directory.
pub open spec fn never_climbs(path: &HostPath) -> bool {
    !exists|i: int| 0 <= i < path.parts@.len() && (#[trigger] path.parts@[i]) is Parent
}

/// The two disks that a run plans, directly below an absolute root that never climbs, are owned
/// paths; so whatever a run creates there, its journal accepts.
pub proof fn planned_disks_are_owned(path: &HostPath, run_root: &HostPath, data: bool)
    requires
        run_root.absolute,
        never_climbs(run_root),
        path.extends(
            run_root,
            if data {
                "run-data.vhdx"@
            } else {
                "os-diff.vhdx"@
            },
        ),
    ensures
        owned_path_verdict(path, run_root) is Ok,
{
    let name = if data {
        "run-data.vhdx"@
    } else {
        "os-diff.vhdx"@
    };
    host_path::lemma_extension(path, run_root, name);
    assert(path.spec_parts().len() == run_root.spec_parts().len() + 1);
    assert(path.parts@.len() == path.spec_parts().len());
    assert(run_root.parts@.len() == run_root.spec_parts().len());
    assert(never_climbs(path)) by {
        assert forall|i: int| 0 <= i < path.parts@.len() implies !((#[trigger] path.parts@[i])
            is Parent) by {
            assert(path.spec_parts()[i] == path.parts@[i]@);
            if i < run_root.parts@.len() {
                assert(path.spec_parts()[i] == run_root.spec_parts()[i]);
                assert(run_root.spec_parts()[i] == run_root.parts@[i]@);
                assert(!(run_root.parts@[i] is Parent));
            }
        }
    }
    assert(host_path::same_parts(path.style, run_root.spec_parts(), run_root.spec_parts()));
    reveal_strlit("os-diff.vhdx");
    reveal_strlit("run-data.vhdx");
    reveal_strlit("vhdx");
    text::lemma_last_index(name, '.');
    let dot = text::last_index(name, '.');
    if data {
        assert(name[8] == '.');
        assert(dot == 8) by {
            assert(name[9] != '.' && name[10] != '.' && name[11] != '.' && name[12] != '.');
        }
    } else {
        assert(name[7] == '.');
        assert(dot == 7) by {
            assert(name[8] != '.' && name[9] != '.' && name[10] != '.' && name[11] != '.');
        }
    }
    assert(name.skip(dot + 1) =~= "vhdx"@);
}

/// A disk is deleted only where the host reported it detached, at the recorded path and with the
/// recorded identity.
pub proof fn only_confirmed_disks_are_deleted(run: DiskDeletion)
    requires
        run.consistent(),
        run.step == DeletionStep::Delete,
    ensures
        run.info matches Some(info) && {
            &&& !info.attached
            &&& info.path.same(&run.path)
            &&& info.disk_identifier matches Some(observed) && text::same_ignoring_case(
                observed@,
                run.expected_identifier@,
            )
        },
{
}

/// A disk with another identity than the recorded one may not be deleted.
pub proof fn another_disk_is_never_deleted(
    info: &VhdInfo,
    path: &HostPath,
    recorded: Seq<char>,
    observed: String,
)
    requires
        info.disk_identifier == Some(observed),
        !text::same_ignoring_case(observed@, recorded),
    ensures
        !deletable(info, path, recorded),
{
}

/// A disk is owned exactly where it is one of the two disks of a run, directly in the directory of the
/// run, with no way up in its path.
pub proof fn owned_disks(path: &HostPath, run_root: &HostPath)
    ensures
        owned_path_verdict(path, run_root) is Ok <==> {
            &&& path.absolute
            &&& run_root.absolute
            &&& !path.equals(run_root)
            &&& path.within(run_root)
            &&& host_path::parent_of(path.spec_parts()) is Some && host_path::same_parts(
                path.style,
                host_path::parent_of(path.spec_parts())->0,
                run_root.spec_parts(),
            )
            &&& host_path::name_of(path.spec_parts()) is Some && (text::same_ignoring_case(
                host_path::name_of(path.spec_parts())->0,
                "os-diff.vhdx"@,
            ) || text::same_ignoring_case(
                host_path::name_of(path.spec_parts())->0,
                "run-data.vhdx"@,
            ))
            &&& forall|i: int|
                0 <= i < path.parts@.len() ==> !((#[trigger] path.parts@[i]) is Parent)
            &&& host_path::has_extension_spec(path.spec_parts(), "vhdx"@)
        },
        owned_path_verdict(path, run_root) matches Err(fault) ==> fault.stage == "hyperv_disk"@,
{
}

/// A differencing disk is made exactly where it is owned, its parent lies outside the run, and nothing
/// stands at its place; it is taken exactly where it is an unattached differencing VHDX with the
/// planned parent at the planned place.
pub proof fn differencing_disks_are_the_planned_ones(spec: &DifferencingDiskSpec, info: &VhdInfo)
    ensures
        spec.verdict() is Ok <==> {
            &&& owned_path_verdict(&spec.path, &spec.run_root) is Ok
            &&& spec.parent_path.absolute
            &&& !spec.parent_path.equals(&spec.path)
            &&& !spec.parent_path.within(&spec.run_root)
        },
        creation_fault(spec, true) is Some,
        creation_fault(spec, false) is None ==> spec.verdict() is Ok,
        created_disk_verdict(spec, info) is Ok <==> {
            &&& text::same_ignoring_case(info.vhd_format@, "vhdx"@)
            &&& text::same_ignoring_case(info.vhd_type@, "differencing"@)
            &&& !info.attached
            &&& info.size_bytes >= 1
            &&& info.logical_sector_size >= 1
            &&& info.path.same(&spec.path)
            &&& info.parent_path is Some && info.parent_path->0.same(&spec.parent_path)
        },
{
}

/// A disk is deleted only where it is owned, its identifier was recorded, and the file at its place is
/// an unattached VHDX with that identifier.
pub proof fn deleted_disks_are_the_recorded_ones(
    info: &VhdInfo,
    path: &HostPath,
    run_root: &HostPath,
    expected_identifier: Seq<char>,
)
    ensures
        deletion_request_verdict(path, run_root, expected_identifier) is Ok <==> owned_path_verdict(
            path,
            run_root,
        ) is Ok && !text::blank(expected_identifier),
        deletable(info, path, expected_identifier) <==> {
            &&& !info.attached
            &&& text::same_ignoring_case(info.vhd_format@, "vhdx"@)
            &&& info.path.same(path)
            &&& info.disk_identifier is Some && text::same_ignoring_case(
                info.disk_identifier->0@,
                expected_identifier,
            )
        },
{
}

/// A deletion inspects the disk it opened, opens it again, and deletes it exactly where it is the
/// recorded one; whatever fails on the way leaves it undeleted.
pub proof fn deletions_go_step_by_step(before: DiskDeletion, event: DeletionEvent, after: DiskDeletion)
    requires
        deleted(before, event, after),
    ensures
        before.step == DeletionStep::OpenForInspection && event == DeletionEvent::Settled(Ok(()))
            ==> after.step == DeletionStep::Inspect,
        before.step == DeletionStep::Inspect && event is Inspected && event->Inspected_0 is Ok
            ==> after.step == DeletionStep::Reopen && after.info == Some(event->Inspected_0->Ok_0),
        before.step == DeletionStep::Reopen && event == DeletionEvent::Settled(Ok(())) ==> (after.step
            == DeletionStep::Delete <==> before.info is Some && deletable(
            &before.info->0,
            &before.path,
            before.expected_identifier@,
        )),
        before.step == DeletionStep::Delete && event == DeletionEvent::Settled(Ok(()))
            ==> after.outcome == Some(Ok::<(), SandboxError>(())),
        after.outcome == Some(Ok::<(), SandboxError>(())) && before.outcome is None ==> before.step
            == DeletionStep::Delete && event is Settled && event->Settled_0 is Ok,
        event is Settled && event->Settled_0 is Err && before.step != DeletionStep::Inspect
            && before.step != DeletionStep::Done ==> (after.outcome matches Some(Err(error))
            && error@.stage == "hyperv_disk_cleanup"@),
{
}

} // verus!
