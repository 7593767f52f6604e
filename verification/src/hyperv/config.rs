//! The configuration of Hyper-V runs and the budgets that follow from it.

use vstd::prelude::*;
use vstd::string::*;

use crate::backend;
use crate::backend::{SandboxError, SandboxResult};
use crate::host_path;
use crate::host_path::HostPath;
use crate::hyperv::data_disk::{MAX_DATA_DISK_BYTES, MIN_DATA_DISK_BYTES};
use crate::hyperv::network::ControlledGatewayConfig;
use crate::hyperv::result_collector;
use crate::hyperv::result_collector::CollectionLimits;
use crate::hyperv::runtime::MAX_VM_WRITABLE_DISK_BYTES;
use crate::hyperv::vm::{MAX_PROCESSOR_COUNT, MAX_STARTUP_MEMORY_BYTES, MIN_STARTUP_MEMORY_BYTES};
use crate::text;

verus! {

pub const DEFAULT_DATA_DISK_BYTES: u64 = 2_147_483_648;

pub const DEFAULT_OS_DISK_GROWTH_BYTES: u64 = 3_221_225_472;

pub const MIN_OS_DISK_GROWTH_BYTES: u64 = 536_870_912;

pub const MAX_OS_DISK_GROWTH_BYTES: u64 = 137_438_953_472;

/// What a data disk needs besides the target and the output.
pub const DATA_DISK_RESERVE_BYTES: u64 = 134_217_728;

/// What the host's volume needs besides the disks.
pub const HOST_RESERVE_BYTES: u64 = 2_147_483_648;

#[derive(Clone, Debug)]
pub struct HyperVConfig {
    pub base_image_path: HostPath,
    pub base_manifest_path: HostPath,
    pub run_root: HostPath,
    pub processor_count: u16,
    pub startup_memory_bytes: u64,
    pub data_disk_bytes: u64,
    pub maximum_os_disk_growth_bytes: u64,
    pub boot_timeout_secs: u64,
    pub shutdown_grace_secs: u64,
    pub controlled_gateway: Option<ControlledGatewayConfig>,
    pub collection_limits: CollectionLimits,
}

pub open spec fn config_fault(message: Seq<char>) -> backend::Fault {
    backend::fault("hyperv_configuration"@, message)
}

fn config_error(message: &str) -> (error: SandboxError)
    ensures
        error@ == config_fault(message@),
{
    SandboxError::new("hyperv_configuration", message)
}

impl HyperVConfig {
    /// The standard configuration over an image, with its runs below the artifact root. A root
    /// that could not be found is given by the text of the error.
    pub fn new(
        base_image_path: HostPath,
        base_manifest_path: HostPath,
        artifact_root: Result<HostPath, String>,
    ) -> (config: SandboxResult<HyperVConfig>)
        ensures
            match (artifact_root, config) {
                (Err(source), Err(error)) => error@ == backend::fault_from(
                    "hyperv_configuration"@,
                    "resolve protected Foxhole storage"@,
                    source@,
                ),
                (Ok(root), Ok(made)) => {
                    &&& made.base_image_path == base_image_path
                    &&& made.base_manifest_path == base_manifest_path
                    &&& made.run_root.extends_twice(&root, "hyperv"@, "runs"@)
                    &&& made.processor_count == 2
                    &&& made.startup_memory_bytes == 2_147_483_648
                    &&& made.data_disk_bytes == DEFAULT_DATA_DISK_BYTES
                    &&& made.maximum_os_disk_growth_bytes == DEFAULT_OS_DISK_GROWTH_BYTES
                    &&& made.boot_timeout_secs == 120
                    &&& made.shutdown_grace_secs == 15
                    &&& made.controlled_gateway is None
                    &&& made.collection_limits == result_collector::default_limits()
                    &&& root.absolute ==> made.verdict() is Ok
                },
                _ => false,
            },
    {
        match artifact_root {
            Err(source) => Err(
                SandboxError::with_source(
                    "hyperv_configuration",
                    "resolve protected Foxhole storage",
                    source.as_str(),
                ),
            ),
            Ok(root) => Ok(
                HyperVConfig {
                    base_image_path,
                    base_manifest_path,
                    run_root: root.join("hyperv").join("runs"),
                    processor_count: 2,
                    startup_memory_bytes: 2_147_483_648,
                    data_disk_bytes: DEFAULT_DATA_DISK_BYTES,
                    maximum_os_disk_growth_bytes: DEFAULT_OS_DISK_GROWTH_BYTES,
                    boot_timeout_secs: 120,
                    shutdown_grace_secs: 15,
                    controlled_gateway: None,
                    collection_limits: CollectionLimits::default(),
                },
            ),
        }
    }

    /// The bounds on the machine, its disks and its times.
    pub open spec fn bounded(&self) -> bool {
        &&& self.run_root.absolute
        &&& 1 <= self.processor_count <= MAX_PROCESSOR_COUNT
        &&& MIN_STARTUP_MEMORY_BYTES <= self.startup_memory_bytes <= MAX_STARTUP_MEMORY_BYTES
        &&& MIN_DATA_DISK_BYTES <= self.data_disk_bytes <= MAX_DATA_DISK_BYTES
        &&& MIN_OS_DISK_GROWTH_BYTES <= self.maximum_os_disk_growth_bytes
            <= MAX_OS_DISK_GROWTH_BYTES
        &&& self.data_disk_bytes + self.maximum_os_disk_growth_bytes <= MAX_VM_WRITABLE_DISK_BYTES
        &&& self.boot_timeout_secs > 0
        &&& self.shutdown_grace_secs > 0
    }

    pub open spec fn verdict(&self) -> Result<(), backend::Fault> {
        if self.bounded() {
            Ok(())
        } else {
            Err(
                config_fault(
                    "Hyper-V run root, CPU, memory, disk, or timeout configuration is invalid"@,
                ),
            )
        }
    }

    pub fn validate(&self) -> (verdict: SandboxResult<()>)
        ensures
            backend::outcome(verdict) == self.verdict(),
    {
        let within_budget = match self.data_disk_bytes.checked_add(
            self.maximum_os_disk_growth_bytes,
        ) {
            Some(total) => total <= MAX_VM_WRITABLE_DISK_BYTES,
            None => false,
        };
        if !self.run_root.is_absolute() || self.processor_count == 0 || self.processor_count
            > MAX_PROCESSOR_COUNT || self.startup_memory_bytes < MIN_STARTUP_MEMORY_BYTES
            || self.startup_memory_bytes > MAX_STARTUP_MEMORY_BYTES || self.data_disk_bytes
            < MIN_DATA_DISK_BYTES || self.data_disk_bytes > MAX_DATA_DISK_BYTES
            || self.maximum_os_disk_growth_bytes < MIN_OS_DISK_GROWTH_BYTES
            || self.maximum_os_disk_growth_bytes > MAX_OS_DISK_GROWTH_BYTES || !within_budget
            || self.boot_timeout_secs == 0 || self.shutdown_grace_secs == 0 {
            return Err(
                config_error(
                    "Hyper-V run root, CPU, memory, disk, or timeout configuration is invalid",
                ),
            );
        }
        Ok(())
    }

    /// The bytes that the data disk must have for a target.
    pub open spec fn needed_data_bytes(&self, target_len: u64) -> int {
        target_len + self.collection_limits.maximum_total_bytes + DATA_DISK_RESERVE_BYTES
    }

    pub open spec fn capacity_verdict(&self, target_len: u64) -> Result<(), backend::Fault> {
        if self.needed_data_bytes(target_len) > u64::MAX {
            Err(config_fault("run-data capacity calculation overflowed"@))
        } else if self.data_disk_bytes < self.needed_data_bytes(target_len) {
            Err(
                config_fault(
                    "run-data disk is too small for the target and configured output budget (need at least "@
                        + text::decimal(self.needed_data_bytes(target_len) as nat) + " bytes)"@,
                ),
            )
        } else {
            Ok(())
        }
    }

    /// Whether the data disk has room for the target and all that may be collected.
    pub fn check_data_capacity(&self, target_len: u64) -> (verdict: SandboxResult<()>)
        ensures
            backend::outcome(verdict) == self.capacity_verdict(target_len),
    {
        let with_output: u64 = match target_len.checked_add(
            self.collection_limits.maximum_total_bytes,
        ) {
            Some(sum) => sum,
            None => {
                return Err(config_error("run-data capacity calculation overflowed"));
            },
        };
        let needed: u64 = match with_output.checked_add(DATA_DISK_RESERVE_BYTES) {
            Some(sum) => sum,
            None => {
                return Err(config_error("run-data capacity calculation overflowed"));
            },
        };
        if self.data_disk_bytes < needed {
            let shown = text::decimal_text(needed);
            let message = text::cat3(
                "run-data disk is too small for the target and configured output budget (need at least ",
                shown.as_str(),
                " bytes)",
            );
            return Err(config_error(message.as_str()));
        }
        Ok(())
    }

    /// The bytes that the host's volume must have free.
    pub open spec fn needed_free_bytes(&self) -> int {
        self.maximum_os_disk_growth_bytes + self.data_disk_bytes + HOST_RESERVE_BYTES
    }

    pub open spec fn free_bytes_value(&self) -> Result<u64, backend::Fault> {
        if self.needed_free_bytes() > u64::MAX {
            Err(config_fault("host free-space reservation calculation overflowed"@))
        } else {
            Ok(self.needed_free_bytes() as u64)
        }
    }

    pub fn required_free_bytes(&self) -> (needed: SandboxResult<u64>)
        ensures
            backend::outcome(needed) == self.free_bytes_value(),
    {
        let disks: u64 = match self.maximum_os_disk_growth_bytes.checked_add(self.data_disk_bytes) {
            Some(sum) => sum,
            None => {
                return Err(config_error("host free-space reservation calculation overflowed"));
            },
        };
        match disks.checked_add(HOST_RESERVE_BYTES) {
            Some(sum) => Ok(sum),
            None => Err(config_error("host free-space reservation calculation overflowed")),
        }
    }
}

pub open spec fn free_space_verdict(available: &Result<u64, String>, required_bytes: u64) -> Result<
    (),
    backend::Fault,
> {
    match available {
        Err(source) => Err(
            backend::fault_from(
                "hyperv_configuration"@,
                "query free space for the protected Hyper-V run volume"@,
                source@,
            ),
        ),
        Ok(free) => if *free < required_bytes {
            Err(
                config_fault(
                    "Hyper-V run volume has "@ + text::decimal(*free as nat)
                        + " available bytes but the configured disk budgets require "@
                        + text::decimal(required_bytes as nat),
                ),
            )
        } else {
            Ok(())
        },
    }
}

/// Whether the host's volume has room, by the bytes that it reports free.
pub fn require_host_free_space(available: &Result<u64, String>, required_bytes: u64) -> (verdict:
    SandboxResult<()>)
    ensures
        backend::outcome(verdict) == free_space_verdict(available, required_bytes),
{
    match available {
        Err(source) => Err(
            SandboxError::with_source(
                "hyperv_configuration",
                "query free space for the protected Hyper-V run volume",
                source.as_str(),
            ),
        ),
        Ok(free) => {
            if *free < required_bytes {
                let found = text::decimal_text(*free);
                let needed = text::decimal_text(required_bytes);
                let message = text::cat4(
                    "Hyper-V run volume has ",
                    found.as_str(),
                    " available bytes but the configured disk budgets require ",
                    needed.as_str(),
                );
                return Err(config_error(message.as_str()));
            }
            Ok(())
        },
    }
}

/// The disks that a valid configuration lets a machine write to never take more than five gibibytes
/// together, and the space that is reserved for them can always be computed.
pub proof fn writable_disks_stay_within_five_gibibytes(config: &HyperVConfig)
    requires
        config.verdict() is Ok,
    ensures
        config.data_disk_bytes + config.maximum_os_disk_growth_bytes <= 5 * 1_073_741_824,
        config.free_bytes_value() is Ok,
{
}

/// A configuration is accepted exactly where its run root is absolute, it has 1 to 64 processors,
/// 512 MiB to 32 GiB of memory, a data disk of 64 MiB to 8 GiB and 512 MiB to 128 GiB of growth of
/// the system disk, of which both together take no more than 5 GiB, and time to boot and to shut
/// down.
pub proof fn accepted_configurations(config: &HyperVConfig)
    ensures
        config.verdict() is Ok <==> {
            &&& config.run_root.absolute
            &&& 1 <= config.processor_count <= 64
            &&& 512 * 1024 * 1024 <= config.startup_memory_bytes <= 32 * 1024 * 1024 * 1024
            &&& 64 * 1024 * 1024 <= config.data_disk_bytes <= 8 * 1024 * 1024 * 1024
            &&& 512 * 1024 * 1024 <= config.maximum_os_disk_growth_bytes <= 128 * 1024 * 1024 * 1024
            &&& config.data_disk_bytes + config.maximum_os_disk_growth_bytes <= 5 * 1024 * 1024
                * 1024
            &&& config.boot_timeout_secs >= 1
            &&& config.shutdown_grace_secs >= 1
        },
        config.verdict() matches Err(fault) ==> fault.stage == "hyperv_configuration"@,
{
}

/// The data disk is large enough exactly where it holds the target, all output that may be collected,
/// and 128 MiB beside them.
pub proof fn data_disks_hold_target_and_output(config: &HyperVConfig, target_len: u64)
    ensures
        config.capacity_verdict(target_len) is Ok <==> target_len
            + config.collection_limits.maximum_total_bytes + 128 * 1024 * 1024
            <= config.data_disk_bytes,
{
}

/// A run needs room on the host for both disks at their largest and 2 GiB beside them, and is refused
/// exactly where there is less or nobody knows.
pub proof fn hosts_have_room_for_both_disks(config: &HyperVConfig, available: &Result<u64, String>)
    ensures
        config.free_bytes_value() matches Ok(needed) ==> {
            &&& needed == config.maximum_os_disk_growth_bytes + config.data_disk_bytes + 2 * 1024
                * 1024 * 1024
            &&& free_space_verdict(available, needed) is Ok <==> (available matches Ok(free) && *free
                >= needed)
        },
        config.free_bytes_value() is Err <==> config.maximum_os_disk_growth_bytes
            + config.data_disk_bytes + 2 * 1024 * 1024 * 1024 > u64::MAX,
{
}

/// With the limits that hold unless others are set, the disks together use up what a machine may write,
/// and targets up to 1408 MiB have room beside their output.
pub proof fn default_disks_use_up_the_quota(config: &HyperVConfig, target_len: u64)
    requires
        config.data_disk_bytes == DEFAULT_DATA_DISK_BYTES,
        config.maximum_os_disk_growth_bytes == DEFAULT_OS_DISK_GROWTH_BYTES,
        config.collection_limits == result_collector::default_limits(),
    ensures
        config.data_disk_bytes == 2 * 1024 * 1024 * 1024,
        config.maximum_os_disk_growth_bytes == 3 * 1024 * 1024 * 1024,
        config.capacity_verdict(target_len) is Ok <==> target_len <= 1408 * 1024 * 1024,
{
}

} // verus!
