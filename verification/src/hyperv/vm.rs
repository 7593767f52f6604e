//! The disposable virtual machine of a run: its specification, the invocations that act on it, and
//! the checks on what the host replies.

use vstd::prelude::*;
use vstd::string::*;

use crate::backend;
use crate::backend::{SandboxError, SandboxResult};
use crate::host_path;
use crate::host_path::HostPath;
use crate::hyperv::network;
use crate::hyperv::powershell;
use crate::hyperv::powershell::{
    command_path, PowerShellInvocation, DEFAULT_MAX_OUTPUT_BYTES, DEFAULT_TIMEOUT_MS,
};
use crate::hyperv::reply;
use crate::hyperv::scripts;
use crate::text;

verus! {

pub const MIN_STARTUP_MEMORY_BYTES: u64 = 536_870_912;

pub const MAX_STARTUP_MEMORY_BYTES: u64 = 34_359_738_368;

pub const MAX_PROCESSOR_COUNT: u16 = 64;

/// The time that slow operations on a virtual machine may take.
pub const SLOW_OPERATION_TIMEOUT_MS: u64 = 120_000;

#[derive(Clone, Debug, PartialEq, Eq)]
pub struct VmSpec {
    pub run_id: String,
    pub name: String,
    pub run_root: HostPath,
    pub configuration_path: HostPath,
    pub processor_count: u16,
    pub startup_memory_bytes: u64,
    pub secure_boot_template: String,
}

/// The name of the virtual machine of a run.
pub open spec fn vm_name(run_id: Seq<char>) -> Seq<char> {
    "foxhole-"@ + run_id
}

impl VmSpec {
    pub fn new(run_id: String, run_root: HostPath, processor_count: u16, startup_memory_bytes: u64) -> (spec:
        VmSpec)
        ensures
            spec.run_id == run_id,
            spec.name@ == vm_name(run_id@),
            spec.run_root == run_root,
            spec.configuration_path.extends(&run_root, "vm"@),
            spec.processor_count == processor_count,
            spec.startup_memory_bytes == startup_memory_bytes,
            spec.secure_boot_template@ == "MicrosoftWindows"@,
    {
        let name = text::cat2("foxhole-", run_id.as_str());
        let configuration_path = run_root.join("vm");
        VmSpec {
            run_id,
            name,
            run_root,
            configuration_path,
            processor_count,
            startup_memory_bytes,
            secure_boot_template: "MicrosoftWindows".to_owned(),
        }
    }

    /// The specification keeps to the policy on names, paths, processors, memory and firmware.
    pub open spec fn acceptable(&self) -> bool {
        &&& network::network_run_id(self.run_id@)
        &&& self.name@ == vm_name(self.run_id@)
        &&& text::byte_len(self.name@) <= 80
        &&& self.run_root.absolute
        &&& self.configuration_path.absolute
        &&& self.configuration_path.within(&self.run_root)
        &&& 1 <= self.processor_count <= MAX_PROCESSOR_COUNT
        &&& MIN_STARTUP_MEMORY_BYTES <= self.startup_memory_bytes <= MAX_STARTUP_MEMORY_BYTES
        &&& self.startup_memory_bytes % 1_048_576 == 0
        &&& self.secure_boot_template@ == "MicrosoftWindows"@
    }

    pub open spec fn verdict(&self) -> Result<(), backend::Fault> {
        if self.acceptable() {
            Ok(())
        } else {
            Err(
                backend::fault(
                    "hyperv_vm"@,
                    "disposable VM specification violates name, path, CPU, memory, or firmware policy"@,
                ),
            )
        }
    }
}

pub fn validate_spec(spec: &VmSpec) -> (verdict: SandboxResult<()>)
    ensures
        backend::outcome(verdict) == spec.verdict(),
{
    let expected_name = text::cat2("foxhole-", spec.run_id.as_str());
    let valid_run_id = network::validate_run_id(spec.run_id.as_str()).is_ok();
    if !valid_run_id || !text::same_text(spec.name.as_str(), expected_name.as_str())
        || text::utf8_len(spec.name.as_str()) > 80 || !spec.run_root.is_absolute()
        || !spec.configuration_path.is_absolute() || !spec.configuration_path.is_within(
        &spec.run_root,
    ) || spec.processor_count < 1 || spec.processor_count > MAX_PROCESSOR_COUNT
        || spec.startup_memory_bytes < MIN_STARTUP_MEMORY_BYTES || spec.startup_memory_bytes
        > MAX_STARTUP_MEMORY_BYTES || spec.startup_memory_bytes % 1_048_576 != 0 || !text::same_text(
        spec.secure_boot_template.as_str(),
        "MicrosoftWindows",
    ) {
        return Err(
            SandboxError::new(
                "hyperv_vm",
                "disposable VM specification violates name, path, CPU, memory, or firmware policy",
            ),
        );
    }
    Ok(())
}

#[derive(Clone, Debug, PartialEq, Eq)]
pub struct VmHandle {
    pub id: String,
    pub name: String,
    pub generation: u16,
    pub state: String,
    pub configuration_path: HostPath,
}

impl VmHandle {
    /// `self` is `other` in every respect.
    pub open spec fn copies(&self, other: &VmHandle) -> bool {
        &&& self.id == other.id
        &&& self.name == other.name
        &&& self.generation == other.generation
        &&& self.state == other.state
        &&& self.configuration_path.copies(&other.configuration_path)
    }

    pub fn duplicate(&self) -> (copy: VmHandle)
        ensures
            copy.copies(self),
    {
        VmHandle {
            id: self.id.clone(),
            name: self.name.clone(),
            generation: self.generation,
            state: self.state.clone(),
            configuration_path: self.configuration_path.duplicate(),
        }
    }
}

#[derive(Clone, Debug, PartialEq, Eq)]
pub struct VmStatus {
    pub exists: bool,
    pub id: String,
    pub name: Option<String>,
    pub state: String,
    pub snapshot_count: u32,
    pub cpu_usage_percent: u16,
    pub memory_assigned_bytes: u64,
    pub uptime_ms: u64,
    pub health: String,
    pub heartbeat_enabled: bool,
    pub heartbeat_primary_status: String,
    pub heartbeat_secondary_status: String,
}

#[derive(Clone, Copy, Debug, PartialEq, Eq, Structural)]
pub enum DiskRole {
    OperatingSystem,
    RunData,
}

impl DiskRole {
    pub open spec fn spec_location(self) -> u32 {
        match self {
            DiskRole::OperatingSystem => 0,
            DiskRole::RunData => 1,
        }
    }

    /// The place of the disk on its controller.
    pub fn controller_location(self) -> (location: u32)
        ensures
            location == self.spec_location(),
    {
        match self {
            DiskRole::OperatingSystem => 0,
            DiskRole::RunData => 1,
        }
    }
}

#[derive(Clone, Debug, PartialEq, Eq)]
pub struct DiskAttachment {
    pub path: HostPath,
    pub controller_number: u32,
    pub controller_location: u32,
}

// ---------------------------------------------------------------------------------------------
// Identifiers and states
// ---------------------------------------------------------------------------------------------

pub open spec fn vm_id_char(c: char) -> bool {
    text::is_hex_digit(c) || c == '-' || c == '{' || c == '}'
}

/// One to sixty-four hexadecimal digits, hyphens and braces.
pub open spec fn valid_vm_id(id: Seq<char>) -> bool {
    &&& 1 <= id.len() <= 64
    &&& forall|i: int| 0 <= i < id.len() ==> vm_id_char(#[trigger] id[i])
}

pub open spec fn vm_id_verdict(id: Seq<char>) -> Result<(), backend::Fault> {
    if valid_vm_id(id) {
        Ok(())
    } else {
        Err(backend::fault("hyperv_vm"@, "VM identifier is empty or malformed"@))
    }
}

pub fn validate_vm_id(id: &str) -> (verdict: SandboxResult<()>)
    ensures
        backend::outcome(verdict) == vm_id_verdict(id@),
{
    let chars = text::chars_of(id);
    let mut valid = chars.len() > 0 && chars.len() <= 64;
    let mut i: usize = 0;
    while i < chars.len() && valid
        invariant
            i <= chars@.len(),
            chars@ == id@,
            valid ==> 1 <= chars@.len() <= 64,
            valid ==> forall|j: int| 0 <= j < i ==> vm_id_char(#[trigger] chars@[j]),
            !valid ==> !valid_vm_id(id@),
        decreases chars@.len() - i,
    {
        let c = chars[i];
        if !(text::char_is_hex_digit(c) || c == '-' || c == '{' || c == '}') {
            proof {
                assert(!vm_id_char(id@[i as int]));
            }
            valid = false;
        }
        i = i + 1;
    }
    if valid {
        Ok(())
    } else {
        Err(SandboxError::new("hyperv_vm", "VM identifier is empty or malformed"))
    }
}

pub open spec fn is_off(state: Seq<char>) -> bool {
    text::same_ignoring_case(state, "off"@)
}

pub open spec fn status_verdict(vm: &VmHandle, status: &VmStatus) -> Result<(), backend::Fault> {
    if status.exists && status.id@ == vm.id@ && (status.name matches Some(name) && name@ == vm.name@) {
        Ok(())
    } else {
        Err(
            backend::fault(
                "hyperv_vm"@,
                "VM state refers to a missing or different disposable VM"@,
            ),
        )
    }
}

pub fn validate_status(vm: &VmHandle, status: &VmStatus) -> (verdict: SandboxResult<()>)
    ensures
        backend::outcome(verdict) == status_verdict(vm, status),
{
    let named = match &status.name {
        Some(name) => text::same_text(name.as_str(), vm.name.as_str()),
        None => false,
    };
    if !status.exists || !text::same_text(status.id.as_str(), vm.id.as_str()) || !named {
        return Err(
            SandboxError::new(
                "hyperv_vm",
                "VM state refers to a missing or different disposable VM",
            ),
        );
    }
    Ok(())
}

pub fn paths_equal(left: &HostPath, right: &HostPath) -> (same: bool)
    ensures
        same == left.same(right),
{
    left.is_same(right)
}

// ---------------------------------------------------------------------------------------------
// Creation
// ---------------------------------------------------------------------------------------------

/// The data of the script that creates a virtual machine.
#[derive(Clone, Debug, PartialEq, Eq)]
pub struct CreateVmInput {
    pub name: String,
    pub configuration_path: String,
    pub processor_count: u16,
    pub startup_memory_bytes: u64,
    pub secure_boot_template: String,
}

/// The invocation that creates the virtual machine of a run. Its configuration directory is made
/// once the specification was accepted.
pub fn create(spec: &VmSpec) -> (invocation: SandboxResult<PowerShellInvocation<CreateVmInput>>)
    ensures
        match (
            spec.verdict(),
            powershell::command_path_value(&spec.configuration_path, "VM configuration path"@),
            invocation,
        ) {
            (Err(error), _, Err(found)) => found@ == error,
            (Ok(_), Err(error), Err(found)) => found@ == error,
            (Ok(_), Ok(path), Ok(made)) => {
                &&& made.operation@ == "create disposable Hyper-V VM"@
                &&& made.script@ == scripts::CREATE_VM_SCRIPT@
                &&& made.input.name@ == spec.name@
                &&& made.input.configuration_path@ == path
                &&& made.input.processor_count == spec.processor_count
                &&& made.input.startup_memory_bytes == spec.startup_memory_bytes
                &&& made.input.secure_boot_template@ == spec.secure_boot_template@
                &&& made.timeout_ms == SLOW_OPERATION_TIMEOUT_MS
                &&& made.max_output_bytes == DEFAULT_MAX_OUTPUT_BYTES
            },
            _ => false,
        },
{
    match validate_spec(spec) {
        Err(error) => {
            return Err(error);
        },
        Ok(_) => {},
    }
    let configuration_path = match command_path(&spec.configuration_path, "VM configuration path") {
        Ok(path) => path,
        Err(error) => {
            return Err(error);
        },
    };
    Ok(
        PowerShellInvocation {
            operation: "create disposable Hyper-V VM",
            script: scripts::CREATE_VM_SCRIPT,
            input: CreateVmInput {
                name: spec.name.clone(),
                configuration_path,
                processor_count: spec.processor_count,
                startup_memory_bytes: spec.startup_memory_bytes,
                secure_boot_template: spec.secure_boot_template.clone(),
            },
            timeout_ms: SLOW_OPERATION_TIMEOUT_MS,
            max_output_bytes: DEFAULT_MAX_OUTPUT_BYTES,
        },
    )
}

impl VmSpec {
    /// The reported machine is the specified one: switched off, of the second generation, with its
    /// configuration in its own directory.
    pub open spec fn created_as(&self, handle: &VmHandle) -> bool {
        &&& handle.name@ == self.name@
        &&& handle.generation == 2
        &&& is_off(handle.state@)
        &&& handle.configuration_path.within(&self.configuration_path)
    }

    pub open spec fn creation_verdict(&self, handle: &VmHandle) -> Result<(), backend::Fault> {
        if self.created_as(handle) {
            vm_id_verdict(handle.id@)
        } else {
            Err(
                backend::fault(
                    "hyperv_vm"@,
                    "created VM does not match its Generation 2 disposable specification"@,
                ),
            )
        }
    }
}

/// Checks what the host replied to the creation.
pub fn accept_created(spec: &VmSpec, handle: &VmHandle) -> (verdict: SandboxResult<()>)
    ensures
        backend::outcome(verdict) == spec.creation_verdict(handle),
{
    if !text::same_text(handle.name.as_str(), spec.name.as_str()) || handle.generation != 2
        || !text::eq_ignoring_case(handle.state.as_str(), "off")
        || !handle.configuration_path.is_within(&spec.configuration_path) {
        return Err(
            SandboxError::new(
                "hyperv_vm",
                "created VM does not match its Generation 2 disposable specification",
            ),
        );
    }
    validate_vm_id(handle.id.as_str())
}

// ---------------------------------------------------------------------------------------------
// Disks
// ---------------------------------------------------------------------------------------------

/// The data of the script that attaches a disk.
#[derive(Clone, Debug, PartialEq, Eq)]
pub struct AttachDiskInput {
    pub vm_id: String,
    pub expected_name: String,
    pub expected_configuration_root: String,
    pub path: String,
    pub controller_number: u32,
    pub controller_location: u32,
}

/// The data of a script that acts on a machine bound to its recorded name and place.
#[derive(Clone, Debug, PartialEq, Eq)]
pub struct BoundVmInput {
    pub vm_id: String,
    pub expected_name: String,
    pub expected_configuration_root: String,
}

impl BoundVmInput {
    /// The data name the machine by all that is recorded of it.
    pub open spec fn names(&self, vm: &VmHandle) -> bool {
        &&& self.vm_id@ == vm.id@
        &&& self.expected_name@ == vm.name@
        &&& powershell::command_path_value(&vm.configuration_path, "VM configuration root"@) == Ok::<
            Seq<char>,
            backend::Fault,
        >(self.expected_configuration_root@)
    }
}

/// Why a machine cannot be named to a script.
pub open spec fn binding_fault(vm: &VmHandle) -> Option<backend::Fault> {
    match vm_id_verdict(vm.id@) {
        Err(error) => Some(error),
        Ok(_) => match powershell::command_path_value(
            &vm.configuration_path,
            "VM configuration root"@,
        ) {
            Err(error) => Some(error),
            Ok(_) => None,
        },
    }
}

fn bind(vm: &VmHandle) -> (input: SandboxResult<BoundVmInput>)
    ensures
        match input {
            Ok(data) => binding_fault(vm) is None && data.names(vm),
            Err(error) => binding_fault(vm) == Some(error@),
        },
{
    match validate_vm_id(vm.id.as_str()) {
        Err(error) => {
            return Err(error);
        },
        Ok(_) => {},
    }
    match command_path(&vm.configuration_path, "VM configuration root") {
        Ok(root) => Ok(
            BoundVmInput {
                vm_id: vm.id.clone(),
                expected_name: vm.name.clone(),
                expected_configuration_root: root,
            },
        ),
        Err(error) => Err(error),
    }
}

/// Why a disk of a machine cannot be named to a script.
pub open spec fn disk_binding_fault(vm: &VmHandle, path: &HostPath) -> Option<backend::Fault> {
    match binding_fault(vm) {
        Some(error) => Some(error),
        None => match powershell::command_path_value(path, "VM disk path"@) {
            Err(error) => Some(error),
            Ok(_) => None,
        },
    }
}

/// The invocation that attaches a disk at the place of its role.
pub fn attach_disk(vm: &VmHandle, path: &HostPath, role: DiskRole) -> (invocation: SandboxResult<
    PowerShellInvocation<AttachDiskInput>,
>)
    ensures
        match invocation {
            Ok(made) => {
                &&& disk_binding_fault(vm, path) is None
                &&& made.operation@ == "attach disposable VM disk"@
                &&& made.script@ == scripts::ATTACH_VM_DISK_SCRIPT@
                &&& made.input.vm_id@ == vm.id@
                &&& made.input.expected_name@ == vm.name@
                &&& powershell::command_path_value(
                    &vm.configuration_path,
                    "VM configuration root"@,
                ) == Ok::<Seq<char>, backend::Fault>(made.input.expected_configuration_root@)
                &&& powershell::command_path_value(path, "VM disk path"@) == Ok::<
                    Seq<char>,
                    backend::Fault,
                >(made.input.path@)
                &&& made.input.controller_number == 0
                &&& made.input.controller_location == role.spec_location()
                &&& made.admission_limits_are_default()
            },
            Err(error) => disk_binding_fault(vm, path) == Some(error@),
        },
{
    let bound = match bind(vm) {
        Ok(bound) => bound,
        Err(error) => {
            return Err(error);
        },
    };
    let shown = match command_path(path, "VM disk path") {
        Ok(shown) => shown,
        Err(error) => {
            return Err(error);
        },
    };
    Ok(
        PowerShellInvocation::new(
            "attach disposable VM disk",
            scripts::ATTACH_VM_DISK_SCRIPT,
            AttachDiskInput {
                vm_id: bound.vm_id,
                expected_name: bound.expected_name,
                expected_configuration_root: bound.expected_configuration_root,
                path: shown,
                controller_number: 0,
                controller_location: role.controller_location(),
            },
        ),
    )
}

pub open spec fn attachment_verdict(
    attachment: &DiskAttachment,
    path: &HostPath,
    role: DiskRole,
) -> Result<(), backend::Fault> {
    if attachment.controller_number == 0 && attachment.controller_location == role.spec_location()
        && attachment.path.same(path) {
        Ok(())
    } else {
        Err(
            backend::fault(
                "hyperv_vm"@,
                "VM disk was attached at an unexpected path or controller location"@,
            ),
        )
    }
}

/// Checks where the host attached a disk.
pub fn accept_attachment(attachment: &DiskAttachment, path: &HostPath, role: DiskRole) -> (verdict:
    SandboxResult<()>)
    ensures
        backend::outcome(verdict) == attachment_verdict(attachment, path, role),
{
    if attachment.controller_number != 0 || attachment.controller_location
        != role.controller_location() || !paths_equal(&attachment.path, path) {
        return Err(
            SandboxError::new(
                "hyperv_vm",
                "VM disk was attached at an unexpected path or controller location",
            ),
        );
    }
    Ok(())
}

/// The data of the script that detaches a disk.
#[derive(Clone, Debug, PartialEq, Eq)]
pub struct DetachDiskInput {
    pub vm: BoundVmInput,
    pub path: String,
}

/// The invocation that detaches a disk from the recorded machine.
pub fn detach_disk(vm: &VmHandle, path: &HostPath) -> (invocation: SandboxResult<
    PowerShellInvocation<DetachDiskInput>,
>)
    ensures
        match invocation {
            Ok(made) => {
                &&& disk_binding_fault(vm, path) is None
                &&& made.operation@ == "detach disposable VM disk"@
                &&& made.script@ == scripts::DETACH_VM_DISK_SCRIPT@
                &&& made.input.vm.names(vm)
                &&& powershell::command_path_value(path, "VM disk path"@) == Ok::<
                    Seq<char>,
                    backend::Fault,
                >(made.input.path@)
                &&& made.admission_limits_are_default()
            },
            Err(error) => disk_binding_fault(vm, path) == Some(error@),
        },
{
    let bound = match bind(vm) {
        Ok(bound) => bound,
        Err(error) => {
            return Err(error);
        },
    };
    let shown = match command_path(path, "VM disk path") {
        Ok(shown) => shown,
        Err(error) => {
            return Err(error);
        },
    };
    Ok(
        PowerShellInvocation::new(
            "detach disposable VM disk",
            scripts::DETACH_VM_DISK_SCRIPT,
            DetachDiskInput { vm: bound, path: shown },
        ),
    )
}

/// The verdict on a reply that has to confirm an operation.
pub open spec fn confirmation_verdict(confirmed: bool, message: Seq<char>) -> Result<
    (),
    backend::Fault,
> {
    if confirmed {
        Ok(())
    } else {
        Err(backend::fault("hyperv_vm"@, message))
    }
}

/// Checks the reply to a detachment.
pub fn accept_detached(response: &serde_json::Value) -> (verdict: SandboxResult<()>)
    ensures
        backend::outcome(verdict) == confirmation_verdict(
            reply::confirmed(*response, "detached"@),
            "VM disk detach was not confirmed"@,
        ),
{
    confirm(reply::confirms(response, "detached"), "VM disk detach was not confirmed")
}

/// The verdict on a confirmation.
pub fn confirm(confirmed: bool, message: &str) -> (verdict: SandboxResult<()>)
    ensures
        backend::outcome(verdict) == confirmation_verdict(confirmed, message@),
{
    if confirmed {
        Ok(())
    } else {
        Err(SandboxError::new("hyperv_vm", message))
    }
}

// ---------------------------------------------------------------------------------------------
// Running
// ---------------------------------------------------------------------------------------------

/// The data of a script that takes the identifier of a machine.
#[derive(Clone, Debug, PartialEq, Eq)]
pub struct VmIdInput {
    pub vm_id: String,
}

/// The invocation that starts a machine.
pub fn start(vm: &VmHandle) -> (invocation: SandboxResult<PowerShellInvocation<VmIdInput>>)
    ensures
        match invocation {
            Ok(made) => {
                &&& vm_id_verdict(vm.id@) is Ok
                &&& made.operation@ == "start disposable Hyper-V VM"@
                &&& made.script@ == scripts::START_VM_SCRIPT@
                &&& made.input.vm_id@ == vm.id@
                &&& made.timeout_ms == SLOW_OPERATION_TIMEOUT_MS
                &&& made.max_output_bytes == DEFAULT_MAX_OUTPUT_BYTES
            },
            Err(error) => vm_id_verdict(vm.id@) == Err::<(), backend::Fault>(error@),
        },
{
    match validate_vm_id(vm.id.as_str()) {
        Err(error) => Err(error),
        Ok(_) => Ok(
            PowerShellInvocation {
                operation: "start disposable Hyper-V VM",
                script: scripts::START_VM_SCRIPT,
                input: VmIdInput { vm_id: vm.id.clone() },
                timeout_ms: SLOW_OPERATION_TIMEOUT_MS,
                max_output_bytes: DEFAULT_MAX_OUTPUT_BYTES,
            },
        ),
    }
}

pub open spec fn start_verdict(vm: &VmHandle, status: &VmStatus) -> Result<(), backend::Fault> {
    backend::both(
        status_verdict(vm, status),
        if status.snapshot_count != 0 || is_off(status.state@) {
            Err(
                backend::fault(
                    "hyperv_vm"@,
                    "VM did not enter a running state without checkpoints"@,
                ),
            )
        } else {
            Ok(())
        },
    )
}

/// Checks what the host replied to the start.
pub fn accept_started(vm: &VmHandle, status: &VmStatus) -> (verdict: SandboxResult<()>)
    ensures
        backend::outcome(verdict) == start_verdict(vm, status),
{
    match validate_status(vm, status) {
        Err(error) => {
            return Err(error);
        },
        Ok(_) => {},
    }
    if status.snapshot_count != 0 || text::eq_ignoring_case(status.state.as_str(), "off") {
        return Err(
            SandboxError::new("hyperv_vm", "VM did not enter a running state without checkpoints"),
        );
    }
    Ok(())
}

/// The invocation that reports the state of a machine.
pub fn query(vm_id: &str) -> (invocation: SandboxResult<PowerShellInvocation<VmIdInput>>)
    ensures
        match invocation {
            Ok(made) => {
                &&& vm_id_verdict(vm_id@) is Ok
                &&& made.operation@ == "query disposable Hyper-V VM"@
                &&& made.script@ == scripts::QUERY_VM_SCRIPT@
                &&& made.input.vm_id@ == vm_id@
                &&& made.admission_limits_are_default()
            },
            Err(error) => vm_id_verdict(vm_id@) == Err::<(), backend::Fault>(error@),
        },
{
    match validate_vm_id(vm_id) {
        Err(error) => Err(error),
        Ok(_) => Ok(
            PowerShellInvocation::new(
                "query disposable Hyper-V VM",
                scripts::QUERY_VM_SCRIPT,
                VmIdInput { vm_id: vm_id.to_owned() },
            ),
        ),
    }
}

/// Checks that a state is that of the machine asked for.
pub fn accept_query(vm_id: &str, status: &VmStatus) -> (verdict: SandboxResult<()>)
    ensures
        backend::outcome(verdict) == confirmation_verdict(
            status.id@ == vm_id@,
            "VM query returned a different identifier"@,
        ),
{
    confirm(
        text::same_text(status.id.as_str(), vm_id),
        "VM query returned a different identifier",
    )
}

/// One look of the wait for a machine to switch off: the answer, or `None` to look again.
pub fn wait_for_off(status: &VmStatus, deadline_passed: bool) -> (answer: Option<bool>)
    ensures
        answer == if !status.exists || is_off(status.state@) {
            Some(true)
        } else if deadline_passed {
            Some(false)
        } else {
            None
        },
{
    if !status.exists || text::eq_ignoring_case(status.state.as_str(), "off") {
        return Some(true);
    }
    if deadline_passed {
        return Some(false);
    }
    None
}

/// The data of the script that stops a machine.
#[derive(Clone, Debug, PartialEq, Eq)]
pub struct StopVmInput {
    pub vm: BoundVmInput,
    pub force: bool,
}

/// The invocation that stops the recorded machine.
pub fn stop(vm: &VmHandle, force: bool) -> (invocation: SandboxResult<
    PowerShellInvocation<StopVmInput>,
>)
    ensures
        match invocation {
            Ok(made) => {
                &&& binding_fault(vm) is None
                &&& made.operation@ == if force {
                    "force-stop disposable Hyper-V VM"@
                } else {
                    "request disposable Hyper-V VM shutdown"@
                }
                &&& made.script@ == scripts::STOP_VM_SCRIPT@
                &&& made.input.vm.names(vm)
                &&& made.input.force == force
                &&& made.timeout_ms == if force {
                    DEFAULT_TIMEOUT_MS
                } else {
                    SLOW_OPERATION_TIMEOUT_MS
                }
                &&& made.max_output_bytes == DEFAULT_MAX_OUTPUT_BYTES
            },
            Err(error) => binding_fault(vm) == Some(error@),
        },
{
    match bind(vm) {
        Err(error) => Err(error),
        Ok(bound) => Ok(
            PowerShellInvocation {
                operation: if force {
                    "force-stop disposable Hyper-V VM"
                } else {
                    "request disposable Hyper-V VM shutdown"
                },
                script: scripts::STOP_VM_SCRIPT,
                input: StopVmInput { vm: bound, force },
                timeout_ms: if force {
                    DEFAULT_TIMEOUT_MS
                } else {
                    SLOW_OPERATION_TIMEOUT_MS
                },
                max_output_bytes: DEFAULT_MAX_OUTPUT_BYTES,
            },
        ),
    }
}

/// Whether a reply says that the machine stopped.
pub fn accept_stopped(response: &serde_json::Value) -> (stopped: SandboxResult<bool>)
    ensures
        match stopped {
            Ok(truth) => reply::truth_fields(*response).contains_pair("stopped"@, truth),
            Err(error) => !reply::truth_fields(*response).dom().contains("stopped"@) && error@
                == backend::fault(
                "hyperv_vm"@,
                "VM stop operation omitted its completion state"@,
            ),
        },
{
    stop_state(reply::truth_field(response, "stopped"))
}

/// The answer of a reply to a stop.
pub fn stop_state(field: Option<bool>) -> (stopped: SandboxResult<bool>)
    ensures
        match (field, stopped) {
            (Some(truth), Ok(found)) => found == truth,
            (None, Err(error)) => error@ == backend::fault(
                "hyperv_vm"@,
                "VM stop operation omitted its completion state"@,
            ),
            _ => false,
        },
{
    match field {
        Some(truth) => Ok(truth),
        None => Err(
            SandboxError::new("hyperv_vm", "VM stop operation omitted its completion state"),
        ),
    }
}

// ---------------------------------------------------------------------------------------------
// Removal
// ---------------------------------------------------------------------------------------------

/// The invocation that removes the recorded machine.
pub fn remove(vm: &VmHandle) -> (invocation: SandboxResult<PowerShellInvocation<BoundVmInput>>)
    ensures
        match invocation {
            Ok(made) => {
                &&& binding_fault(vm) is None
                &&& made.operation@ == "remove disposable Hyper-V VM"@
                &&& made.script@ == scripts::REMOVE_VM_SCRIPT@
                &&& made.input.names(vm)
                &&& made.timeout_ms == SLOW_OPERATION_TIMEOUT_MS
                &&& made.max_output_bytes == DEFAULT_MAX_OUTPUT_BYTES
            },
            Err(error) => binding_fault(vm) == Some(error@),
        },
{
    match bind(vm) {
        Err(error) => Err(error),
        Ok(bound) => Ok(
            PowerShellInvocation {
                operation: "remove disposable Hyper-V VM",
                script: scripts::REMOVE_VM_SCRIPT,
                input: bound,
                timeout_ms: SLOW_OPERATION_TIMEOUT_MS,
                max_output_bytes: DEFAULT_MAX_OUTPUT_BYTES,
            },
        ),
    }
}

/// Checks the reply to a removal.
pub fn accept_removed(response: &serde_json::Value) -> (verdict: SandboxResult<()>)
    ensures
        backend::outcome(verdict) == confirmation_verdict(
            reply::confirmed(*response, "removed"@),
            "VM removal was not confirmed"@,
        ),
{
    confirm(reply::confirms(response, "removed"), "VM removal was not confirmed")
}

/// The data of the script that removes a planned machine.
#[derive(Clone, Debug, PartialEq, Eq)]
pub struct PlannedVmInput {
    pub expected_name: String,
    pub run_root: String,
}

/// Why a planned machine cannot be looked for.
pub open spec fn planned_removal_fault(run_id: Seq<char>, run_root: &HostPath) -> Option<
    backend::Fault,
> {
    if !network::network_run_id(run_id) {
        Some(backend::fault("hyperv_vm"@, "planned VM run identifier is malformed"@))
    } else if !run_root.absolute || host_path::name_of(run_root.spec_parts()) != Some(run_id) {
        Some(
            backend::fault(
                "hyperv_vm"@,
                "planned VM run root does not match the run identifier"@,
            ),
        )
    } else {
        match powershell::command_path_value(run_root, "planned VM run root"@) {
            Err(error) => Some(error),
            Ok(_) => None,
        }
    }
}

/// The invocation that removes a machine which was planned but not recorded as created.
pub fn remove_planned(run_id: &str, run_root: &HostPath) -> (invocation: SandboxResult<
    PowerShellInvocation<PlannedVmInput>,
>)
    ensures
        match invocation {
            Ok(made) => {
                &&& planned_removal_fault(run_id@, run_root) is None
                &&& made.operation@ == "reconcile planned disposable Hyper-V VM"@
                &&& made.script@ == scripts::REMOVE_PLANNED_VM_SCRIPT@
                &&& made.input.expected_name@ == vm_name(run_id@)
                &&& powershell::command_path_value(run_root, "planned VM run root"@) == Ok::<
                    Seq<char>,
                    backend::Fault,
                >(made.input.run_root@)
                &&& made.timeout_ms == SLOW_OPERATION_TIMEOUT_MS
                &&& made.max_output_bytes == DEFAULT_MAX_OUTPUT_BYTES
            },
            Err(error) => planned_removal_fault(run_id@, run_root) == Some(error@),
        },
{
    if network::validate_run_id(run_id).is_err() {
        return Err(SandboxError::new("hyperv_vm", "planned VM run identifier is malformed"));
    }
    if !run_root.is_absolute() || !run_root.is_named(run_id) {
        return Err(
            SandboxError::new(
                "hyperv_vm",
                "planned VM run root does not match the run identifier",
            ),
        );
    }
    let shown = match command_path(run_root, "planned VM run root") {
        Ok(shown) => shown,
        Err(error) => {
            return Err(error);
        },
    };
    Ok(
        PowerShellInvocation {
            operation: "reconcile planned disposable Hyper-V VM",
            script: scripts::REMOVE_PLANNED_VM_SCRIPT,
            input: PlannedVmInput {
                expected_name: text::cat2("foxhole-", run_id),
                run_root: shown,
            },
            timeout_ms: SLOW_OPERATION_TIMEOUT_MS,
            max_output_bytes: DEFAULT_MAX_OUTPUT_BYTES,
        },
    )
}

/// Checks the reply to the removal of a planned machine.
pub fn accept_planned_removed(response: &serde_json::Value) -> (verdict: SandboxResult<()>)
    ensures
        backend::outcome(verdict) == confirmation_verdict(
            reply::confirmed(*response, "removed"@),
            "planned VM reconciliation was not confirmed"@,
        ),
{
    confirm(reply::confirms(response, "removed"), "planned VM reconciliation was not confirmed")
}

// ---------------------------------------------------------------------------------------------
// Laws
// ---------------------------------------------------------------------------------------------

/// A machine is planned exactly where it is named after its run, is configured below the directory of
/// the run, has 1 to 64 processors, whole mebibytes of memory from 512 MiB to 32 GiB, and boots by
/// the Windows certificates alone.
pub proof fn acceptable_machines(spec: &VmSpec)
    ensures
        spec.verdict() is Ok <==> {
            &&& network::run_id_verdict(spec.run_id@) is Ok
            &&& spec.name@ == "foxhole-"@ + spec.run_id@
            &&& vstd::utf8::encode_utf8(spec.name@).len() <= 80
            &&& spec.run_root.absolute
            &&& spec.configuration_path.absolute
            &&& spec.configuration_path.within(&spec.run_root)
            &&& 1 <= spec.processor_count <= 64
            &&& 512 * 1024 * 1024 <= spec.startup_memory_bytes <= 32 * 1024 * 1024 * 1024
            &&& spec.startup_memory_bytes % 1_048_576 == 0
            &&& spec.secure_boot_template@ == "MicrosoftWindows"@
        },
        spec.verdict() matches Err(fault) ==> fault.stage == "hyperv_vm"@,
{
}

/// A created machine is taken exactly where it has the planned name, is of the second generation, is
/// off, lies where it was planned, and has a proper identifier.
pub proof fn created_machines_are_the_planned_ones(spec: &VmSpec, handle: &VmHandle)
    ensures
        spec.creation_verdict(handle) is Ok <==> {
            &&& handle.name@ == spec.name@
            &&& handle.generation == 2
            &&& text::same_ignoring_case(handle.state@, "off"@)
            &&& handle.configuration_path.within(&spec.configuration_path)
            &&& 1 <= handle.id@.len() <= 64
            &&& forall|i: int|
                0 <= i < handle.id@.len() ==> {
                    let c = #[trigger] handle.id@[i];
                    '0' <= c <= '9' || 'a' <= c <= 'f' || 'A' <= c <= 'F' || c == '-' || c == '{' || c
                        == '}'
                }
        },
{
    let id = handle.id@;
    if valid_vm_id(id) {
        assert forall|i: int| 0 <= i < id.len() implies ({
            let c = #[trigger] id[i];
            '0' <= c <= '9' || 'a' <= c <= 'f' || 'A' <= c <= 'F' || c == '-' || c == '{' || c == '}'
        }) by {
            assert(vm_id_char(id[i]));
        }
    }
}

/// A state is one of a machine exactly where it names its identifier and its name; a machine has
/// started exactly where, by such a state, it is not off and has no checkpoint.
pub proof fn states_are_of_their_machine(vm: &VmHandle, status: &VmStatus)
    ensures
        status_verdict(vm, status) is Ok <==> status.exists && status.id@ == vm.id@ && status.name
            is Some && status.name->0@ == vm.name@,
        start_verdict(vm, status) is Ok <==> {
            &&& status_verdict(vm, status) is Ok
            &&& status.snapshot_count == 0
            &&& !text::same_ignoring_case(status.state@, "off"@)
        },
{
}

/// The system disk hangs at the first place of the first controller and the data disk at the second.
pub proof fn disks_hang_at_their_places(attachment: &DiskAttachment, path: &HostPath, role: DiskRole)
    ensures
        attachment_verdict(attachment, path, role) is Ok <==> {
            &&& attachment.controller_number == 0
            &&& attachment.controller_location == match role {
                DiskRole::OperatingSystem => 0u32,
                DiskRole::RunData => 1u32,
            }
            &&& attachment.path.same(path)
        },
{
}

/// A machine that was only planned is removed exactly by the name and the directory of its run.
pub proof fn planned_machines_are_removed_by_their_run(run_id: Seq<char>, run_root: &HostPath)
    ensures
        planned_removal_fault(run_id, run_root) is None <==> {
            &&& network::run_id_verdict(run_id) is Ok
            &&& run_root.absolute
            &&& host_path::name_of(run_root.spec_parts()) == Some(run_id)
            &&& powershell::command_path_value(run_root, "planned VM run root"@) is Ok
        },
{
}

} // verus!
