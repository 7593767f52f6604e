//! The run-data disk: its specification, mounting and dismounting, and the package that is staged
//! on it for the guest.

use vstd::prelude::*;
use vstd::string::*;

use crate::backend;
use crate::backend::{SandboxError, SandboxResult};
use crate::digest;
use crate::digest::StreamDigest;
use crate::host_path;
use crate::host_path::{HostPath, PathStyle};
use crate::hyperv::disk;
use crate::hyperv::disk::validate_owned_path;
use crate::hyperv::guest_protocol;
use crate::hyperv::guest_protocol::{GuestRunRequest, ProtocolState, StatusRecord};
use crate::hyperv::network;
use crate::hyperv::powershell;
use crate::hyperv::powershell::{command_path, PowerShellInvocation, DEFAULT_MAX_OUTPUT_BYTES};
use crate::hyperv::reply;
use crate::hyperv::scripts;
use crate::text;

verus! {

pub const MIN_DATA_DISK_BYTES: u64 = 67_108_864;

pub const MAX_DATA_DISK_BYTES: u64 = 8_589_934_592;

pub const MAX_STAGED_TARGET_BYTES: u64 = 536_870_912;

pub const RUN_DIRECTORY_NAME: &'static str = "foxhole-run";

pub const TARGET_GUEST_PATH: &'static str = "input/target.bin";

pub const TARGET_GUEST_BATCH_PATH: &'static str = "input/target.bat";

pub const TARGET_GUEST_COMMAND_PATH: &'static str = "input/target.cmd";

/// The time that creating and mounting a disk may take.
pub const CREATE_TIMEOUT_MS: u64 = 300_000;

/// The time that mounting or dismounting a disk may take.
pub const MOUNT_TIMEOUT_MS: u64 = 120_000;

/// Where the guest finds the target, by the extension that it has on the host.
pub open spec fn guest_target(host_target: &HostPath) -> Seq<char> {
    if host_path::has_extension_spec(host_target.spec_parts(), "bat"@) {
        TARGET_GUEST_BATCH_PATH@
    } else if host_path::has_extension_spec(host_target.spec_parts(), "cmd"@) {
        TARGET_GUEST_COMMAND_PATH@
    } else {
        TARGET_GUEST_PATH@
    }
}

pub fn guest_target_path(host_target: &HostPath) -> (path: &'static str)
    ensures
        path@ == guest_target(host_target),
{
    if host_target.has_extension("bat") {
        TARGET_GUEST_BATCH_PATH
    } else if host_target.has_extension("cmd") {
        TARGET_GUEST_COMMAND_PATH
    } else {
        TARGET_GUEST_PATH
    }
}

/// One of the three places at which a target may be staged.
pub open spec fn fixed_guest_target(path: Seq<char>) -> bool {
    path == TARGET_GUEST_PATH@ || path == TARGET_GUEST_BATCH_PATH@ || path
        == TARGET_GUEST_COMMAND_PATH@
}

pub fn is_fixed_guest_target_path(path: &str) -> (yes: bool)
    ensures
        yes == fixed_guest_target(path@),
{
    text::same_text(path, TARGET_GUEST_PATH) || text::same_text(path, TARGET_GUEST_BATCH_PATH)
        || text::same_text(path, TARGET_GUEST_COMMAND_PATH)
}

// ---------------------------------------------------------------------------------------------
// Specification
// ---------------------------------------------------------------------------------------------

pub open spec fn run_id_verdict(run_id: Seq<char>) -> Result<(), backend::Fault> {
    if network::network_run_id(run_id) {
        Ok(())
    } else {
        Err(
            backend::fault(
                "hyperv_data_disk"@,
                "run identifier must contain 16 to 64 hexadecimal characters"@,
            ),
        )
    }
}

pub fn validate_run_id(run_id: &str) -> (verdict: SandboxResult<()>)
    ensures
        backend::outcome(verdict) == run_id_verdict(run_id@),
{
    if network::validate_run_id(run_id).is_err() {
        return Err(
            SandboxError::new(
                "hyperv_data_disk",
                "run identifier must contain 16 to 64 hexadecimal characters",
            ),
        );
    }
    Ok(())
}

/// The text of a path without the slashes and backslashes at its end.
pub open spec fn unslashed(shown: Seq<char>) -> Seq<char>
    decreases shown.len(),
{
    if shown.len() > 0 && (shown.last() == '/' || shown.last() == '\\') {
        unslashed(shown.drop_last())
    } else {
        shown
    }
}

/// Two paths are shown alike but for slashes at the end and, on Windows, the case of ASCII letters.
pub open spec fn shown_alike(left: &HostPath, right: &HostPath) -> bool {
    match left.style {
        PathStyle::Windows => text::same_ignoring_case(
            unslashed(left.shown@),
            unslashed(right.shown@),
        ),
        PathStyle::Unix => unslashed(left.shown@) == unslashed(right.shown@),
    }
}

fn trim_slashes(shown: &str) -> (trimmed: String)
    ensures
        trimmed@ == unslashed(shown@),
{
    let chars = text::chars_of(shown);
    let mut end: usize = chars.len();
    proof {
        assert(chars@.take(end as int) =~= shown@);
    }
    while end > 0 && (chars[end - 1] == '/' || chars[end - 1] == '\\')
        invariant
            end <= chars@.len(),
            chars@ == shown@,
            unslashed(chars@.take(end as int)) == unslashed(shown@),
        decreases end,
    {
        proof {
            assert(chars@.take(end as int).drop_last() =~= chars@.take(end - 1));
            assert(chars@.take(end as int).last() == chars@[end - 1]);
        }
        end = end - 1;
    }
    proof {
        if end > 0 {
            assert(chars@.take(end as int).last() == chars@[end - 1]);
        }
        assert(chars@.take(end as int) =~= chars@.subrange(0, end as int));
    }
    text::string_of(&chars, 0, end)
}

pub fn paths_equal_normalized(left: &HostPath, right: &HostPath) -> (same: bool)
    ensures
        same == shown_alike(left, right),
{
    let first = trim_slashes(left.shown.as_str());
    let second = trim_slashes(right.shown.as_str());
    match left.style {
        PathStyle::Windows => text::eq_ignoring_case(first.as_str(), second.as_str()),
        PathStyle::Unix => text::same_text(first.as_str(), second.as_str()),
    }
}

pub fn paths_equal(left: &HostPath, right: &HostPath) -> (same: bool)
    ensures
        same == left.same(right),
{
    left.is_same(right)
}

#[derive(Clone, Debug, PartialEq, Eq)]
pub struct RunDataDiskSpec {
    pub run_id: String,
    pub run_root: HostPath,
    pub path: HostPath,
    pub mount_path: HostPath,
    pub size_bytes: u64,
}

/// The volume label of a run: its first twelve digits in upper case.
pub open spec fn label_text(run_id: Seq<char>) -> Seq<char> {
    "FOXHOLE_"@ + text::upper(
        run_id.take(
            if run_id.len() < 12 {
                run_id.len() as int
            } else {
                12
            },
        ),
    )
}

pub fn volume_label(run_id: &str) -> (label: String)
    ensures
        label@ == label_text(run_id@),
{
    let chars = text::chars_of(run_id);
    let end: usize = if chars.len() < 12 {
        chars.len()
    } else {
        12
    };
    let head = text::string_of(&chars, 0, end);
    proof {
        assert(head@ =~= run_id@.take(end as int));
    }
    let raised = text::to_upper(head.as_str());
    text::cat2("FOXHOLE_", raised.as_str())
}

impl RunDataDiskSpec {
    pub fn label(&self) -> (label: SandboxResult<String>)
        ensures
            match label {
                Ok(shown) => run_id_verdict(self.run_id@) is Ok && shown@ == label_text(self.run_id@),
                Err(error) => run_id_verdict(self.run_id@) == Err::<(), backend::Fault>(error@),
            },
    {
        match validate_run_id(self.run_id.as_str()) {
            Err(error) => {
                return Err(error);
            },
            Ok(_) => {},
        }
        Ok(volume_label(self.run_id.as_str()))
    }

    /// Where the disk of the run must be mounted: `data-mount` below the root.
    pub open spec fn mount_verdict(&self) -> bool {
        let expected = host_path::joined_text(
            self.run_root.style,
            self.run_root.shown@,
            "data-mount"@,
        );
        match self.mount_path.style {
            PathStyle::Windows => text::same_ignoring_case(
                unslashed(self.mount_path.shown@),
                unslashed(expected),
            ),
            PathStyle::Unix => unslashed(self.mount_path.shown@) == unslashed(expected),
        }
    }

    pub open spec fn verdict(&self) -> Result<(), backend::Fault> {
        backend::both(
            run_id_verdict(self.run_id@),
            backend::both(
                disk::owned_path_verdict(&self.path, &self.run_root),
                if host_path::name_of(self.path.spec_parts()) == Some("run-data.vhdx"@)
                    && self.mount_path.absolute && self.mount_verdict() && MIN_DATA_DISK_BYTES
                    <= self.size_bytes <= MAX_DATA_DISK_BYTES {
                    Ok(())
                } else {
                    Err(
                        backend::fault(
                            "hyperv_data_disk"@,
                            "run-data disk path, mount path, or size is invalid"@,
                        ),
                    )
                },
            ),
        )
    }
}

pub fn validate_spec(spec: &RunDataDiskSpec) -> (verdict: SandboxResult<()>)
    ensures
        backend::outcome(verdict) == spec.verdict(),
{
    match validate_run_id(spec.run_id.as_str()) {
        Err(error) => {
            return Err(error);
        },
        Ok(_) => {},
    }
    match validate_owned_path(&spec.path, &spec.run_root) {
        Err(error) => {
            return Err(error);
        },
        Ok(_) => {},
    }
    let expected_mount = spec.run_root.join("data-mount");
    if !spec.path.is_named("run-data.vhdx") || !spec.mount_path.is_absolute()
        || !paths_equal_normalized(&spec.mount_path, &expected_mount) || spec.size_bytes
        < MIN_DATA_DISK_BYTES || spec.size_bytes > MAX_DATA_DISK_BYTES {
        return Err(
            SandboxError::new(
                "hyperv_data_disk",
                "run-data disk path, mount path, or size is invalid",
            ),
        );
    }
    Ok(())
}

/// What the host reports of a mounted disk.
#[derive(Clone, Debug, PartialEq, Eq)]
pub struct DataDiskMount {
    pub path: HostPath,
    pub mount_path: HostPath,
    pub disk_number: u32,
    pub partition_number: u32,
    pub disk_unique_id: String,
    pub vhd_identifier: String,
    pub label: String,
    pub attached: bool,
}

#[derive(Clone, Copy, Debug, PartialEq, Eq, Structural)]
pub enum DataDiskState {
    Planned,
    Mounted,
    Detached,
}

/// The run-data disk as the run records it.
#[derive(Clone, Debug, PartialEq, Eq)]
pub struct RunDataDisk {
    pub path: HostPath,
    pub mount_path: HostPath,
    pub size_bytes: u64,
    pub label: String,
    pub disk_unique_id: Option<String>,
    pub vhd_identifier: Option<String>,
    pub state: DataDiskState,
}

/// The mounted disk is the one asked for.
pub open spec fn mounted_as(spec: &RunDataDiskSpec, mount: &DataDiskMount, label: Seq<char>) -> bool {
    &&& mount.attached
    &&& mount.label@ == label
    &&& !text::blank(mount.vhd_identifier@)
    &&& !text::blank(mount.disk_unique_id@)
    &&& mount.disk_number != u32::MAX
    &&& mount.partition_number != 0
    &&& mount.path.same(&spec.path)
    &&& shown_alike(&mount.mount_path, &spec.mount_path)
}

pub open spec fn mount_verdict(
    spec: &RunDataDiskSpec,
    mount: &DataDiskMount,
    label: Seq<char>,
) -> Result<(), backend::Fault> {
    if mounted_as(spec, mount, label) {
        Ok(())
    } else {
        Err(
            backend::fault(
                "hyperv_data_disk"@,
                "mounted run-data disk does not match the requested disk"@,
            ),
        )
    }
}

pub fn validate_mount(spec: &RunDataDiskSpec, mount: &DataDiskMount, label: &str) -> (verdict:
    SandboxResult<()>)
    ensures
        backend::outcome(verdict) == mount_verdict(spec, mount, label@),
{
    if !mount.attached || !text::same_text(mount.label.as_str(), label) || text::is_blank(
        mount.vhd_identifier.as_str(),
    ) || text::is_blank(mount.disk_unique_id.as_str()) || mount.disk_number == u32::MAX
        || mount.partition_number == 0 || !paths_equal(&mount.path, &spec.path)
        || !paths_equal_normalized(&mount.mount_path, &spec.mount_path) {
        return Err(
            SandboxError::new(
                "hyperv_data_disk",
                "mounted run-data disk does not match the requested disk",
            ),
        );
    }
    Ok(())
}

// ---------------------------------------------------------------------------------------------
// Creation
// ---------------------------------------------------------------------------------------------

/// The data of the script that creates and mounts a disk.
#[derive(Clone, Debug, PartialEq, Eq)]
pub struct CreateDataDiskInput {
    pub path: String,
    pub mount_path: String,
    pub size_bytes: u64,
    pub label: String,
}

/// Why the two paths of a disk cannot be named to a script.
pub open spec fn paths_fault(path: &HostPath, mount_path: &HostPath) -> Option<backend::Fault> {
    match powershell::command_path_value(path, "run-data disk path"@) {
        Err(error) => Some(error),
        Ok(_) => match powershell::command_path_value(mount_path, "run-data mount path"@) {
            Err(error) => Some(error),
            Ok(_) => None,
        },
    }
}

/// The two texts are the command paths of the disk and its mount.
pub open spec fn paths_named(
    path: &HostPath,
    mount_path: &HostPath,
    shown: Seq<char>,
    shown_mount: Seq<char>,
) -> bool {
    &&& powershell::command_path_value(path, "run-data disk path"@) == Ok::<
        Seq<char>,
        backend::Fault,
    >(shown)
    &&& powershell::command_path_value(mount_path, "run-data mount path"@) == Ok::<
        Seq<char>,
        backend::Fault,
    >(shown_mount)
}

fn name_paths(path: &HostPath, mount_path: &HostPath) -> (named: SandboxResult<(String, String)>)
    ensures
        match named {
            Ok((shown, shown_mount)) => paths_fault(path, mount_path) is None && paths_named(
                path,
                mount_path,
                shown@,
                shown_mount@,
            ),
            Err(error) => paths_fault(path, mount_path) == Some(error@),
        },
{
    let shown = match command_path(path, "run-data disk path") {
        Ok(shown) => shown,
        Err(error) => {
            return Err(error);
        },
    };
    match command_path(mount_path, "run-data mount path") {
        Ok(shown_mount) => Ok((shown, shown_mount)),
        Err(error) => Err(error),
    }
}

pub open spec fn creation_fault(spec: &RunDataDiskSpec) -> Option<backend::Fault> {
    match spec.verdict() {
        Err(error) => Some(error),
        Ok(_) => paths_fault(&spec.path, &spec.mount_path),
    }
}

/// The invocation that creates the disk of a run and mounts it.
pub fn create_and_mount(spec: &RunDataDiskSpec) -> (invocation: SandboxResult<
    PowerShellInvocation<CreateDataDiskInput>,
>)
    ensures
        match invocation {
            Ok(made) => {
                &&& creation_fault(spec) is None
                &&& made.operation@ == "create and mount Hyper-V run-data disk"@
                &&& made.script@ == scripts::CREATE_AND_MOUNT_DATA_DISK_SCRIPT@
                &&& paths_named(
                    &spec.path,
                    &spec.mount_path,
                    made.input.path@,
                    made.input.mount_path@,
                )
                &&& made.input.size_bytes == spec.size_bytes
                &&& made.input.label@ == label_text(spec.run_id@)
                &&& made.timeout_ms == CREATE_TIMEOUT_MS
                &&& made.max_output_bytes == DEFAULT_MAX_OUTPUT_BYTES
            },
            Err(error) => creation_fault(spec) == Some(error@),
        },
{
    match validate_spec(spec) {
        Err(error) => {
            return Err(error);
        },
        Ok(_) => {},
    }
    let label = match spec.label() {
        Ok(label) => label,
        Err(error) => {
            return Err(error);
        },
    };
    match name_paths(&spec.path, &spec.mount_path) {
        Ok((path, mount_path)) => Ok(
            PowerShellInvocation {
                operation: "create and mount Hyper-V run-data disk",
                script: scripts::CREATE_AND_MOUNT_DATA_DISK_SCRIPT,
                input: CreateDataDiskInput { path, mount_path, size_bytes: spec.size_bytes, label },
                timeout_ms: CREATE_TIMEOUT_MS,
                max_output_bytes: DEFAULT_MAX_OUTPUT_BYTES,
            },
        ),
        Err(error) => Err(error),
    }
}

impl RunDataDiskSpec {
    /// The disk as it is recorded before it is created.
    pub fn planned(&self) -> (disk: SandboxResult<RunDataDisk>)
        ensures
            match disk {
                Ok(made) => run_id_verdict(self.run_id@) is Ok && self.plans(&made),
                Err(error) => run_id_verdict(self.run_id@) == Err::<(), backend::Fault>(error@),
            },
    {
        match self.label() {
            Err(error) => Err(error),
            Ok(label) => Ok(
                RunDataDisk {
                    path: self.path.duplicate(),
                    mount_path: self.mount_path.duplicate(),
                    size_bytes: self.size_bytes,
                    label,
                    disk_unique_id: None,
                    vhd_identifier: None,
                    state: DataDiskState::Planned,
                },
            ),
        }
    }

    /// The record names the specified disk, without identities yet.
    pub open spec fn plans(&self, disk: &RunDataDisk) -> bool {
        &&& disk.path.copies(&self.path)
        &&& disk.mount_path.copies(&self.mount_path)
        &&& disk.size_bytes == self.size_bytes
        &&& disk.label@ == label_text(self.run_id@)
        &&& disk.disk_unique_id is None
        &&& disk.vhd_identifier is None
        &&& disk.state == DataDiskState::Planned
    }
}

impl RunDataDisk {
    /// The record of a disk that the host reported mounted.
    pub open spec fn mounted_with(self, mount: DataDiskMount) -> RunDataDisk {
        RunDataDisk {
            disk_unique_id: Some(mount.disk_unique_id),
            vhd_identifier: Some(mount.vhd_identifier),
            state: DataDiskState::Mounted,
            ..self
        }
    }

    /// Records the creation of a planned disk, where the host reports it mounted as asked for.
    pub fn accept_created(&mut self, spec: &RunDataDiskSpec, mount: DataDiskMount) -> (verdict:
        SandboxResult<()>)
        ensures
            match mount_verdict(spec, &mount, old(self).label@) {
                Ok(_) => verdict is Ok && *final(self) == old(self).mounted_with(mount),
                Err(error) => backend::outcome(verdict) == Err::<(), backend::Fault>(error)
                    && *final(self) == *old(self),
            },
    {
        match validate_mount(spec, &mount, self.label.as_str()) {
            Err(error) => Err(error),
            Ok(_) => {
                self.disk_unique_id = Some(mount.disk_unique_id);
                self.vhd_identifier = Some(mount.vhd_identifier);
                self.state = DataDiskState::Mounted;
                Ok(())
            },
        }
    }
}

// ---------------------------------------------------------------------------------------------
// Mounting and dismounting
// ---------------------------------------------------------------------------------------------

/// The data of the script that mounts a recorded disk.
#[derive(Clone, Debug, PartialEq, Eq)]
pub struct MountDataDiskInput {
    pub path: String,
    pub mount_path: String,
    pub label: String,
    pub expected_disk_unique_id: String,
    pub expected_vhd_identifier: String,
}

/// The data of the script that dismounts a recorded disk.
#[derive(Clone, Debug, PartialEq, Eq)]
pub struct DismountDataDiskInput {
    pub path: String,
    pub mount_path: String,
    pub expected_disk_unique_id: String,
    pub expected_vhd_identifier: String,
}

impl RunDataDisk {
    /// Why a disk without both recorded identities is left alone.
    pub open spec fn mount_identity_fault(&self) -> Option<backend::Fault> {
        if self.disk_unique_id is None {
            Some(
                backend::fault(
                    "hyperv_data_disk"@,
                    "refusing to mount a run-data disk without its recorded disk identity"@,
                ),
            )
        } else if self.vhd_identifier is None {
            Some(
                backend::fault(
                    "hyperv_data_disk"@,
                    "refusing to mount a run-data VHD without its recorded VHD identity"@,
                ),
            )
        } else {
            None
        }
    }

    pub open spec fn dismount_identity_fault(&self) -> Option<backend::Fault> {
        if self.disk_unique_id is None {
            Some(
                backend::fault(
                    "hyperv_data_disk"@,
                    "refusing to dismount a run-data disk without its recorded disk identity"@,
                ),
            )
        } else if self.vhd_identifier is None {
            Some(
                backend::fault(
                    "hyperv_data_disk"@,
                    "refusing to dismount a run-data VHD without its recorded VHD identity"@,
                ),
            )
        } else {
            None
        }
    }

    /// Why the recorded disk cannot be mounted.
    pub open spec fn mount_fault(&self) -> Option<backend::Fault> {
        match self.mount_identity_fault() {
            Some(error) => Some(error),
            None => paths_fault(&self.path, &self.mount_path),
        }
    }

    /// Why the recorded disk cannot be dismounted.
    pub open spec fn dismount_fault(&self) -> Option<backend::Fault> {
        match self.dismount_identity_fault() {
            Some(error) => Some(error),
            None => paths_fault(&self.path, &self.mount_path),
        }
    }
}

/// The invocation that mounts a recorded disk again; `None` where it is mounted. The disk's file is
/// opened and held while it runs.
pub fn mount_existing(disk: &RunDataDisk) -> (invocation: SandboxResult<
    Option<PowerShellInvocation<MountDataDiskInput>>,
>)
    ensures
        match invocation {
            Ok(None) => disk.state == DataDiskState::Mounted,
            Ok(Some(made)) => {
                &&& disk.state != DataDiskState::Mounted
                &&& disk.mount_fault() is None
                &&& made.operation@ == "mount existing Hyper-V run-data disk"@
                &&& made.script@ == scripts::MOUNT_DATA_DISK_SCRIPT@
                &&& paths_named(
                    &disk.path,
                    &disk.mount_path,
                    made.input.path@,
                    made.input.mount_path@,
                )
                &&& made.input.label@ == disk.label@
                &&& text::view_option(disk.disk_unique_id) == Some(
                    made.input.expected_disk_unique_id@,
                )
                &&& text::view_option(disk.vhd_identifier) == Some(
                    made.input.expected_vhd_identifier@,
                )
                &&& made.timeout_ms == MOUNT_TIMEOUT_MS
                &&& made.max_output_bytes == DEFAULT_MAX_OUTPUT_BYTES
            },
            Err(error) => disk.state != DataDiskState::Mounted && disk.mount_fault() == Some(error@),
        },
{
    if disk.state == DataDiskState::Mounted {
        return Ok(None);
    }
    let expected_disk_unique_id = match &disk.disk_unique_id {
        Some(expected) => expected.clone(),
        None => {
            return Err(
                SandboxError::new(
                    "hyperv_data_disk",
                    "refusing to mount a run-data disk without its recorded disk identity",
                ),
            );
        },
    };
    let expected_vhd_identifier = match &disk.vhd_identifier {
        Some(expected) => expected.clone(),
        None => {
            return Err(
                SandboxError::new(
                    "hyperv_data_disk",
                    "refusing to mount a run-data VHD without its recorded VHD identity",
                ),
            );
        },
    };
    match name_paths(&disk.path, &disk.mount_path) {
        Ok((path, mount_path)) => Ok(
            Some(
                PowerShellInvocation {
                    operation: "mount existing Hyper-V run-data disk",
                    script: scripts::MOUNT_DATA_DISK_SCRIPT,
                    input: MountDataDiskInput {
                        path,
                        mount_path,
                        label: disk.label.clone(),
                        expected_disk_unique_id,
                        expected_vhd_identifier,
                    },
                    timeout_ms: MOUNT_TIMEOUT_MS,
                    max_output_bytes: DEFAULT_MAX_OUTPUT_BYTES,
                },
            ),
        ),
        Err(error) => Err(error),
    }
}

/// A recorded identity, where there is one, is the observed one.
pub open spec fn identity_kept(recorded: Option<String>, observed: Seq<char>) -> bool {
    match recorded {
        Some(expected) => text::same_ignoring_case(expected@, observed),
        None => true,
    }
}

fn keeps_identity(recorded: &Option<String>, observed: &str) -> (kept: bool)
    ensures
        kept == identity_kept(*recorded, observed@),
{
    match recorded {
        Some(expected) => text::eq_ignoring_case(expected.as_str(), observed),
        None => true,
    }
}

impl RunDataDisk {
    /// The mounted disk is the recorded one.
    pub open spec fn remounted_as(&self, mount: &DataDiskMount) -> bool {
        &&& mount.attached
        &&& mount.label@ == self.label@
        &&& mount.path.same(&self.path)
        &&& shown_alike(&mount.mount_path, &self.mount_path)
        &&& identity_kept(self.disk_unique_id, mount.disk_unique_id@)
        &&& identity_kept(self.vhd_identifier, mount.vhd_identifier@)
    }

    /// Records that the disk was mounted, where the host reports the recorded disk.
    pub fn accept_mounted(&mut self, mount: DataDiskMount) -> (verdict: SandboxResult<()>)
        ensures
            match verdict {
                Ok(_) => {
                    &&& old(self).remounted_as(&mount)
                    &&& *final(self) == old(self).mounted_with(mount)
                },
                Err(error) => {
                    &&& !old(self).remounted_as(&mount)
                    &&& *final(self) == *old(self)
                    &&& error@ == backend::fault(
                        "hyperv_data_disk"@,
                        "mounted data disk does not match the recorded run disk"@,
                    )
                },
            },
    {
        if !mount.attached || !text::same_text(mount.label.as_str(), self.label.as_str())
            || !paths_equal(&mount.path, &self.path) || !paths_equal_normalized(
            &mount.mount_path,
            &self.mount_path,
        ) || !keeps_identity(&self.disk_unique_id, mount.disk_unique_id.as_str())
            || !keeps_identity(&self.vhd_identifier, mount.vhd_identifier.as_str()) {
            return Err(
                SandboxError::new(
                    "hyperv_data_disk",
                    "mounted data disk does not match the recorded run disk",
                ),
            );
        }
        self.disk_unique_id = Some(mount.disk_unique_id);
        self.vhd_identifier = Some(mount.vhd_identifier);
        self.state = DataDiskState::Mounted;
        Ok(())
    }
}

/// The invocation that dismounts a recorded disk; `None` where it is detached.
pub fn dismount(disk: &RunDataDisk) -> (invocation: SandboxResult<
    Option<PowerShellInvocation<DismountDataDiskInput>>,
>)
    ensures
        match invocation {
            Ok(None) => disk.state == DataDiskState::Detached,
            Ok(Some(made)) => {
                &&& disk.state != DataDiskState::Detached
                &&& disk.dismount_fault() is None
                &&& made.operation@ == "dismount Hyper-V run-data disk"@
                &&& made.script@ == scripts::DISMOUNT_DATA_DISK_SCRIPT@
                &&& paths_named(
                    &disk.path,
                    &disk.mount_path,
                    made.input.path@,
                    made.input.mount_path@,
                )
                &&& text::view_option(disk.disk_unique_id) == Some(
                    made.input.expected_disk_unique_id@,
                )
                &&& text::view_option(disk.vhd_identifier) == Some(
                    made.input.expected_vhd_identifier@,
                )
                &&& made.timeout_ms == MOUNT_TIMEOUT_MS
                &&& made.max_output_bytes == DEFAULT_MAX_OUTPUT_BYTES
            },
            Err(error) => disk.state != DataDiskState::Detached && disk.dismount_fault() == Some(
                error@,
            ),
        },
{
    if disk.state == DataDiskState::Detached {
        return Ok(None);
    }
    let expected_disk_unique_id = match &disk.disk_unique_id {
        Some(expected) => expected.clone(),
        None => {
            return Err(
                SandboxError::new(
                    "hyperv_data_disk",
                    "refusing to dismount a run-data disk without its recorded disk identity",
                ),
            );
        },
    };
    let expected_vhd_identifier = match &disk.vhd_identifier {
        Some(expected) => expected.clone(),
        None => {
            return Err(
                SandboxError::new(
                    "hyperv_data_disk",
                    "refusing to dismount a run-data VHD without its recorded VHD identity",
                ),
            );
        },
    };
    match name_paths(&disk.path, &disk.mount_path) {
        Ok((path, mount_path)) => Ok(
            Some(
                PowerShellInvocation {
                    operation: "dismount Hyper-V run-data disk",
                    script: scripts::DISMOUNT_DATA_DISK_SCRIPT,
                    input: DismountDataDiskInput {
                        path,
                        mount_path,
                        expected_disk_unique_id,
                        expected_vhd_identifier,
                    },
                    timeout_ms: MOUNT_TIMEOUT_MS,
                    max_output_bytes: DEFAULT_MAX_OUTPUT_BYTES,
                },
            ),
        ),
        Err(error) => Err(error),
    }
}

impl RunDataDisk {
    /// Records that the disk was dismounted, where the reply confirms it.
    pub fn accept_dismounted(&mut self, response: &serde_json::Value) -> (verdict: SandboxResult<()>)
        ensures
            dismount_recorded(
                *old(self),
                *final(self),
                reply::confirmed(*response, "dismounted"@),
                backend::outcome(verdict),
            ),
    {
        let confirmed = reply::confirms(response, "dismounted");
        self.record_dismount(confirmed)
    }

    /// Records a dismount, where it was confirmed.
    pub fn record_dismount(&mut self, confirmed: bool) -> (verdict: SandboxResult<()>)
        ensures
            dismount_recorded(*old(self), *final(self), confirmed, backend::outcome(verdict)),
    {
        if !confirmed {
            return Err(
                SandboxError::new(
                    "hyperv_data_disk",
                    "PowerShell did not confirm data-disk dismount",
                ),
            );
        }
        self.state = DataDiskState::Detached;
        Ok(())
    }
}

/// A confirmed dismount changes the state alone, another one nothing.
pub open spec fn dismount_recorded(
    before: RunDataDisk,
    after: RunDataDisk,
    confirmed: bool,
    verdict: Result<(), backend::Fault>,
) -> bool {
    if confirmed {
        &&& verdict is Ok
        &&& after == (RunDataDisk { state: DataDiskState::Detached, ..before })
    } else {
        &&& verdict == Err::<(), backend::Fault>(
            backend::fault(
                "hyperv_data_disk"@,
                "PowerShell did not confirm data-disk dismount"@,
            ),
        )
        &&& after == before
    }
}

// ---------------------------------------------------------------------------------------------
// Staging
// ---------------------------------------------------------------------------------------------

/// A protocol error as an error of the data disk.
pub open spec fn protocol_refusal(fault: guest_protocol::ProtocolFault) -> backend::Fault {
    backend::fault("hyperv_data_disk"@, guest_protocol::protocol_fault_text(fault))
}

/// What a pinned target is.
#[derive(Clone, Copy, Debug, PartialEq, Eq, Structural)]
pub struct TargetFacts {
    pub regular: bool,
    pub len: u64,
}

impl TargetFacts {
    pub open spec fn stageable(self) -> bool {
        self.regular && 0 < self.len <= MAX_STAGED_TARGET_BYTES
    }
}

pub open spec fn package_verdict(request: &GuestRunRequest) -> Result<(), backend::Fault> {
    match request.verdict() {
        Err(fault) => Err(protocol_refusal(fault)),
        Ok(_) => backend::both(
            run_id_verdict(request.run_id@),
            if fixed_guest_target(request.target@) {
                Ok(())
            } else {
                Err(
                    backend::fault(
                        "hyperv_data_disk"@,
                        "guest request target does not match an approved fixed staging path"@,
                    ),
                )
            },
        ),
    }
}

/// Whether a package for the guest may be staged at all.
pub fn check_package(request: &GuestRunRequest) -> (verdict: SandboxResult<()>)
    ensures
        backend::outcome(verdict) == package_verdict(request),
{
    match request.validate() {
        Err(error) => {
            let shown = error.to_string();
            return Err(SandboxError::new("hyperv_data_disk", shown.as_str()));
        },
        Ok(_) => {},
    }
    match validate_run_id(request.run_id.as_str()) {
        Err(error) => {
            return Err(error);
        },
        Ok(_) => {},
    }
    if !is_fixed_guest_target_path(request.target.as_str()) {
        return Err(
            SandboxError::new(
                "hyperv_data_disk",
                "guest request target does not match an approved fixed staging path",
            ),
        );
    }
    Ok(())
}

pub open spec fn target_verdict(target: TargetFacts) -> Result<(), backend::Fault> {
    if target.stageable() {
        Ok(())
    } else {
        Err(
            backend::fault(
                "hyperv_data_disk"@,
                "pinned target is empty, non-regular, or exceeds the staging limit"@,
            ),
        )
    }
}

/// Whether the pinned target may be staged.
pub fn check_target(target: TargetFacts) -> (verdict: SandboxResult<()>)
    ensures
        backend::outcome(verdict) == target_verdict(target),
{
    if !target.regular || target.len == 0 || target.len > MAX_STAGED_TARGET_BYTES {
        return Err(
            SandboxError::new(
                "hyperv_data_disk",
                "pinned target is empty, non-regular, or exceeds the staging limit",
            ),
        );
    }
    Ok(())
}

/// The digest that binds every status record to the serialized request.
pub fn seal_request(request_bytes: &[u8]) -> (request_sha256: SandboxResult<String>)
    ensures
        match request_sha256 {
            Ok(shown) => {
                &&& request_bytes@.len() <= guest_protocol::MAX_REQUEST_BYTES
                &&& shown@ == digest::sha256_text(request_bytes@)
                &&& guest_protocol::valid_sha256(shown@)
            },
            Err(error) => {
                &&& request_bytes@.len() > guest_protocol::MAX_REQUEST_BYTES
                &&& error@ == backend::fault(
                    "hyperv_data_disk"@,
                    "serialized guest request exceeds the protocol size limit"@,
                )
            },
        },
{
    if request_bytes.len() as u64 > guest_protocol::MAX_REQUEST_BYTES {
        return Err(
            SandboxError::new(
                "hyperv_data_disk",
                "serialized guest request exceeds the protocol size limit",
            ),
        );
    }
    Ok(digest::sha256_bytes(request_bytes))
}

/// The copy of a target onto the data disk: what was copied so far, within the staging limit.
pub struct StagedCopy {
    stream: StreamDigest,
}

impl StagedCopy {
    /// The bytes copied so far.
    pub closed spec fn content(&self) -> Seq<u8> {
        self.stream.content()
    }

    /// The bytes are counted, and within the limit.
    pub closed spec fn well_formed(&self) -> bool {
        self.stream.well_formed() && self.stream.content().len() <= MAX_STAGED_TARGET_BYTES
    }

    pub fn new() -> (copy: StagedCopy)
        ensures
            copy.well_formed(),
            copy.content() == Seq::<u8>::empty(),
    {
        StagedCopy { stream: StreamDigest::new() }
    }

    /// Takes in the next bytes of the target, before they are written.
    pub fn absorb(&mut self, chunk: &[u8]) -> (verdict: SandboxResult<()>)
        requires
            old(self).well_formed(),
        ensures
            final(self).well_formed(),
            match verdict {
                Ok(_) => final(self).content() == old(self).content() + chunk@,
                Err(error) => {
                    &&& old(self).content().len() + chunk@.len() > MAX_STAGED_TARGET_BYTES
                    &&& *final(self) == *old(self)
                    &&& error@ == backend::fault(
                        "hyperv_data_disk"@,
                        "pinned target exceeded the staging limit while copying"@,
                    )
                },
            },
            verdict is Ok ==> final(self).content().len() <= MAX_STAGED_TARGET_BYTES,
    {
        let copied: u64 = self.stream.copied.saturating_add(chunk.len() as u64);
        if copied > MAX_STAGED_TARGET_BYTES {
            return Err(
                SandboxError::new(
                    "hyperv_data_disk",
                    "pinned target exceeded the staging limit while copying",
                ),
            );
        }
        self.stream.absorb(chunk);
        Ok(())
    }

    /// Checks that the whole target was copied.
    pub fn check_len(&self, expected_len: u64) -> (verdict: SandboxResult<()>)
        requires
            self.well_formed(),
        ensures
            backend::outcome(verdict) == staged_len_verdict(self.content(), expected_len),
    {
        if self.stream.copied != expected_len {
            return Err(
                SandboxError::new(
                    "hyperv_data_disk",
                    "pinned target changed size or exceeded the staging limit while copying",
                ),
            );
        }
        Ok(())
    }

    /// Ends the copy of a target that the request binds by `expected`.
    pub fn finish(self, expected: &Option<String>) -> (verdict: SandboxResult<()>)
        ensures
            backend::outcome(verdict) == staged_digest_verdict(
                self.content(),
                text::view_option(*expected),
            ),
    {
        let staged = self.stream.finish();
        match expected {
            None => Err(
                SandboxError::new(
                    "hyperv_data_disk",
                    "guest request must bind the staged target with a SHA-256 digest",
                ),
            ),
            Some(wanted) => if text::eq_ignoring_case(staged.as_str(), wanted.as_str()) {
                Ok(())
            } else {
                Err(
                    SandboxError::new(
                        "hyperv_data_disk",
                        "staged target bytes do not match the request integrity digest",
                    ),
                )
            },
        }
    }
}

/// The verdict on the count of the bytes that were staged as the target.
pub open spec fn staged_len_verdict(content: Seq<u8>, expected_len: u64) -> Result<
    (),
    backend::Fault,
> {
    if content.len() == expected_len {
        Ok(())
    } else {
        Err(
            backend::fault(
                "hyperv_data_disk"@,
                "pinned target changed size or exceeded the staging limit while copying"@,
            ),
        )
    }
}

/// The verdict on the bytes that were staged as the target.
pub open spec fn staged_digest_verdict(content: Seq<u8>, expected: Option<Seq<char>>) -> Result<
    (),
    backend::Fault,
> {
    match expected {
        None => Err(
            backend::fault(
                "hyperv_data_disk"@,
                "guest request must bind the staged target with a SHA-256 digest"@,
            ),
        ),
        Some(wanted) => if text::same_ignoring_case(digest::sha256_text(content), wanted) {
            Ok(())
        } else {
            Err(
                backend::fault(
                    "hyperv_data_disk"@,
                    "staged target bytes do not match the request integrity digest"@,
                ),
            )
        },
    }
}

/// The states that the host publishes with the package, in order.
pub open spec fn staged_state(index: int) -> ProtocolState {
    if index == 0 {
        ProtocolState::HostReady
    } else if index == 1 {
        ProtocolState::RequestWritten
    } else {
        ProtocolState::StartAllowed
    }
}

/// The record that the host publishes with the package at place `index`.
pub open spec fn is_staged_record(
    record: &StatusRecord,
    index: int,
    run_id: Seq<char>,
    request_sha256: Seq<char>,
) -> bool {
    &&& record.protocol_version == guest_protocol::PROTOCOL_VERSION
    &&& record.run_id@ == run_id
    &&& record.sequence == index + 1
    &&& record.state == staged_state(index)
    &&& record.actor == record.state.spec_actor()
    &&& text::view_option(record.request_sha256) == Some(request_sha256)
    &&& record.result_sha256 is None
    &&& record.error is None
}

fn staged_record(run_id: &str, sequence: u64, state: ProtocolState, request_sha256: &str) -> (record:
    SandboxResult<StatusRecord>)
    requires
        sequence != 0,
        state.spec_actor() == guest_protocol::ProtocolActor::Host,
    ensures
        match record {
            Ok(made) => {
                &&& staged_records_verdict(run_id@, request_sha256@) is Ok
                &&& made.protocol_version == guest_protocol::PROTOCOL_VERSION
                &&& made.run_id@ == run_id@
                &&& made.sequence == sequence
                &&& made.state == state
                &&& made.actor == state.spec_actor()
                &&& text::view_option(made.request_sha256) == Some(request_sha256@)
                &&& made.result_sha256 is None
                &&& made.error is None
            },
            Err(error) => staged_records_verdict(run_id@, request_sha256@) == Err::<
                (),
                backend::Fault,
            >(error@),
        },
{
    let mut record = StatusRecord::new(run_id, sequence, state);
    record.request_sha256 = Some(request_sha256.to_owned());
    match record.validate() {
        Err(error) => {
            let shown = error.to_string();
            Err(SandboxError::new("hyperv_data_disk", shown.as_str()))
        },
        Ok(_) => Ok(record),
    }
}

/// The verdict on the records of a package.
pub open spec fn staged_records_verdict(run_id: Seq<char>, request_sha256: Seq<char>) -> Result<
    (),
    backend::Fault,
> {
    match guest_protocol::run_id_verdict(run_id) {
        Err(fault) => Err(protocol_refusal(fault)),
        Ok(_) => match guest_protocol::sha256_verdict(request_sha256) {
            Err(fault) => Err(protocol_refusal(fault)),
            Ok(_) => Ok(()),
        },
    }
}

/// The three records that the host publishes with a package.
pub fn staged_records(run_id: &str, request_sha256: &str) -> (records: SandboxResult<
    Vec<StatusRecord>,
>)
    ensures
        match records {
            Ok(made) => {
                &&& staged_records_verdict(run_id@, request_sha256@) is Ok
                &&& made@.len() == 3
                &&& forall|i: int|
                    0 <= i < 3 ==> is_staged_record(
                        &#[trigger] made@[i],
                        i,
                        run_id@,
                        request_sha256@,
                    )
            },
            Err(error) => staged_records_verdict(run_id@, request_sha256@) == Err::<
                (),
                backend::Fault,
            >(error@),
        },
{
    let mut records: Vec<StatusRecord> = Vec::new();
    match staged_record(run_id, 1, ProtocolState::HostReady, request_sha256) {
        Ok(record) => {
            records.push(record);
        },
        Err(error) => {
            return Err(error);
        },
    }
    match staged_record(run_id, 2, ProtocolState::RequestWritten, request_sha256) {
        Ok(record) => {
            records.push(record);
        },
        Err(error) => {
            return Err(error);
        },
    }
    match staged_record(run_id, 3, ProtocolState::StartAllowed, request_sha256) {
        Ok(record) => {
            records.push(record);
        },
        Err(error) => {
            return Err(error);
        },
    }
    Ok(records)
}

// ---------------------------------------------------------------------------------------------
// Laws
// ---------------------------------------------------------------------------------------------

/// The records of a package lead a fresh protocol machine of the run through host ready, request
/// written and start allowed, so that the guest may report ready and run.
pub proof fn staged_records_open_the_protocol(
    first: &StatusRecord,
    second: &StatusRecord,
    third: &StatusRecord,
    run_id: Seq<char>,
    request_sha256: Seq<char>,
)
    requires
        staged_records_verdict(run_id, request_sha256) is Ok,
        is_staged_record(first, 0, run_id, request_sha256),
        is_staged_record(second, 1, run_id, request_sha256),
        is_staged_record(third, 2, run_id, request_sha256),
    ensures
        ({
            let fresh = guest_protocol::MachineView {
                run_id,
                seen: Set::<ProtocolState>::empty(),
                last_sequence: 0,
            };
            let end = fresh.after(first).after(second).after(third);
            &&& fresh.verdict(first) is Ok
            &&& fresh.after(first).verdict(second) is Ok
            &&& fresh.after(first).after(second).verdict(third) is Ok
            &&& end.last_sequence == 3
            &&& guest_protocol::prerequisites_verdict(end.seen, ProtocolState::GuestReady) is Ok
            &&& guest_protocol::prerequisites_verdict(
                end.seen.insert(ProtocolState::GuestReady),
                ProtocolState::Running,
            ) is Ok
        }),
{
}

/// The place that the guest finds a target at is always one of the fixed places.
pub proof fn guest_targets_are_fixed(host_target: &HostPath)
    ensures
        fixed_guest_target(guest_target(host_target)),
{
}

/// A disk is never mounted or dismounted without both recorded identities.
pub proof fn identities_are_required(disk: &RunDataDisk)
    requires
        disk.disk_unique_id is None || disk.vhd_identifier is None,
    ensures
        disk.mount_fault() is Some,
        disk.dismount_fault() is Some,
{
}

/// A batch file is staged as one, a command script as one, and everything else as a program; which it
/// is, only its extension says, in whatever letter case.
pub proof fn targets_are_staged_by_their_extension(host_target: &HostPath)
    ensures
        guest_target(host_target) == "input/target.bat"@ <==> host_path::has_extension_spec(
            host_target.spec_parts(),
            "bat"@,
        ),
        guest_target(host_target) == "input/target.cmd"@ <==> host_path::has_extension_spec(
            host_target.spec_parts(),
            "cmd"@,
        ),
        guest_target(host_target) == "input/target.bin"@ <==> !host_path::has_extension_spec(
            host_target.spec_parts(),
            "bat"@,
        ) && !host_path::has_extension_spec(host_target.spec_parts(), "cmd"@),
{
    reveal_strlit("bat");
    reveal_strlit("cmd");
    reveal_strlit("input/target.bat");
    reveal_strlit("input/target.cmd");
    reveal_strlit("input/target.bin");
    assert("input/target.bat"@[14] == 'a');
    assert("input/target.cmd"@[14] == 'm');
    assert("input/target.bin"@[14] == 'i');
    match host_path::extension_of(host_target.spec_parts()) {
        Some(found) => {
            text::words_are_recognised_in_any_case(found, "bat"@);
            text::words_are_recognised_in_any_case(found, "cmd"@);
            if text::spells(found, "bat"@) && text::spells(found, "cmd"@) {
                assert("bat"@[1] == 'a' && "cmd"@[1] == 'm');
                assert(found[1] == 'a' || found[1] as int == 'a' as int - 32);
            }
        },
        None => {},
    }
}

/// A data disk is planned exactly where it is the run's own, mounted in its directory, and has 64 MiB
/// to 8 GiB; its label is the beginning of the run's name in capitals.
pub proof fn acceptable_data_disks(spec: &RunDataDiskSpec)
    ensures
        spec.verdict() is Ok <==> {
            &&& network::run_id_verdict(spec.run_id@) is Ok
            &&& disk::owned_path_verdict(&spec.path, &spec.run_root) is Ok
            &&& host_path::name_of(spec.path.spec_parts()) == Some("run-data.vhdx"@)
            &&& spec.mount_path.absolute
            &&& spec.mount_verdict()
            &&& 64 * 1024 * 1024 <= spec.size_bytes <= 8 * 1024 * 1024 * 1024
        },
        spec.run_id@.len() >= 12 ==> label_text(spec.run_id@) == "FOXHOLE_"@ + text::upper(
            spec.run_id@.take(12),
        ),
{
}

/// A mounted disk is taken exactly where it is attached at the planned place under the planned label
/// and shows its identity, and a disk that is mounted again where that identity did not change.
pub proof fn mounted_disks_are_the_recorded_ones(
    spec: &RunDataDiskSpec,
    disk: &RunDataDisk,
    mount: &DataDiskMount,
    label: Seq<char>,
)
    ensures
        mount_verdict(spec, mount, label) is Ok <==> {
            &&& mount.attached
            &&& mount.label@ == label
            &&& !text::blank(mount.vhd_identifier@)
            &&& !text::blank(mount.disk_unique_id@)
            &&& mount.disk_number != 0xffff_ffff
            &&& mount.partition_number >= 1
            &&& mount.path.same(&spec.path)
            &&& shown_alike(&mount.mount_path, &spec.mount_path)
        },
        disk.remounted_as(mount) <==> {
            &&& mount.attached
            &&& mount.label@ == disk.label@
            &&& mount.path.same(&disk.path)
            &&& shown_alike(&mount.mount_path, &disk.mount_path)
            &&& disk.disk_unique_id is Some ==> text::same_ignoring_case(
                disk.disk_unique_id->0@,
                mount.disk_unique_id@,
            )
            &&& disk.vhd_identifier is Some ==> text::same_ignoring_case(
                disk.vhd_identifier->0@,
                mount.vhd_identifier@,
            )
        },
        disk.mounted_with(*mount).disk_unique_id == Some(mount.disk_unique_id),
        disk.mounted_with(*mount).vhd_identifier == Some(mount.vhd_identifier),
        disk.mounted_with(*mount).state == DataDiskState::Mounted,
        disk.mounted_with(*mount).path == disk.path,
{
}

/// A target is staged exactly where it is a plain file of one byte to 512 MiB, and what was copied
/// counts exactly where it is all of it and has the digest of the request.
pub proof fn staged_targets_are_whole(
    target: TargetFacts,
    content: Seq<u8>,
    expected_len: u64,
    expected: Option<Seq<char>>,
)
    ensures
        target_verdict(target) is Ok <==> target.regular && 1 <= target.len <= 512 * 1024 * 1024,
        staged_len_verdict(content, expected_len) is Ok <==> content.len() == expected_len,
        staged_digest_verdict(content, expected) is Ok <==> expected is Some
            && text::same_ignoring_case(digest::sha256_text(content), expected->0),
{
}

/// A package is staged exactly for a request that the guest takes, of a run that is properly named,
/// for one of the three fixed targets.
pub proof fn staged_packages(request: &GuestRunRequest)
    ensures
        package_verdict(request) is Ok <==> {
            &&& request.verdict() is Ok
            &&& network::run_id_verdict(request.run_id@) is Ok
            &&& request.target@ == "input/target.bin"@ || request.target@ == "input/target.bat"@
                || request.target@ == "input/target.cmd"@
        },
{
}

/// A planned disk is the one that was asked for, not yet made and not yet identified.
pub proof fn planned_disks_are_the_wanted_ones(spec: &RunDataDiskSpec, disk: &RunDataDisk)
    requires
        spec.plans(disk),
    ensures
        disk.path.shown@ == spec.path.shown@,
        disk.mount_path.shown@ == spec.mount_path.shown@,
        disk.size_bytes == spec.size_bytes,
        disk.state == DataDiskState::Planned,
        disk.disk_unique_id is None,
        disk.vhd_identifier is None,
{
}

/// Slashes at the end of a path do not tell it apart.
pub proof fn ending_slashes_are_ignored(shown: Seq<char>)
    requires
        shown.len() > 0,
        shown.last() != '/' && shown.last() != '\\',
    ensures
        unslashed(shown) == shown,
        unslashed(shown.push('/')) == shown,
        unslashed(shown.push('\\')) == shown,
{
    assert(shown.push('/').drop_last() =~= shown);
    assert(shown.push('\\').drop_last() =~= shown);
}

} // verus!
