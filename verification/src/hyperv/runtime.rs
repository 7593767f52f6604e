//! Watching a virtual machine while it runs: its health, its disks and its deadline.

use vstd::prelude::*;
use vstd::string::*;

use crate::backend;
use crate::backend::{SandboxError, SandboxResult};
use crate::hyperv::result_collector::EntryFacts;
use crate::hyperv::vm;
use crate::hyperv::vm::{VmHandle, VmStatus};
use crate::text;

verus! {

pub const MAX_VM_WRITABLE_DISK_BYTES: u64 = 5_368_709_120;

/// How often the disks are looked at.
pub const DISK_QUOTA_WATCH_INTERVAL_MS: u64 = 50;

/// How often the machine is asked for its state.
pub const VM_POLL_INTERVAL_MS: u64 = 250;

pub open spec fn runtime_fault(message: Seq<char>) -> backend::Fault {
    backend::fault("hyperv_runtime"@, message)
}

fn runtime_error(message: &str) -> (error: SandboxError)
    ensures
        error@ == runtime_fault(message@),
{
    SandboxError::new("hyperv_runtime", message)
}

/// The error of a run that the operator interrupted.
pub fn interrupted_run() -> (error: SandboxError)
    ensures
        error@ == runtime_fault("sandbox run interrupted; cleanup will now run"@),
{
    runtime_error("sandbox run interrupted; cleanup will now run")
}

// ---------------------------------------------------------------------------------------------
// Observations
// ---------------------------------------------------------------------------------------------

#[derive(Clone, Debug, PartialEq, Eq)]
pub struct HostVmObservations {
    pub maximum_cpu_percent: u16,
    pub maximum_memory_bytes: u64,
    pub maximum_uptime_ms: u64,
    pub heartbeat_enabled: bool,
    pub heartbeat_healthy_seen: bool,
    pub latest_heartbeat_primary_status: String,
    pub latest_heartbeat_secondary_status: String,
}

/// What was observed of a machine.
pub struct ObservationsView {
    pub maximum_cpu_percent: nat,
    pub maximum_memory_bytes: nat,
    pub maximum_uptime_ms: nat,
    pub heartbeat_enabled: bool,
    pub heartbeat_healthy_seen: bool,
    pub latest_heartbeat_primary_status: Seq<char>,
    pub latest_heartbeat_secondary_status: Seq<char>,
}

impl View for HostVmObservations {
    type V = ObservationsView;

    open spec fn view(&self) -> ObservationsView {
        ObservationsView {
            maximum_cpu_percent: self.maximum_cpu_percent as nat,
            maximum_memory_bytes: self.maximum_memory_bytes as nat,
            maximum_uptime_ms: self.maximum_uptime_ms as nat,
            heartbeat_enabled: self.heartbeat_enabled,
            heartbeat_healthy_seen: self.heartbeat_healthy_seen,
            latest_heartbeat_primary_status: self.latest_heartbeat_primary_status@,
            latest_heartbeat_secondary_status: self.latest_heartbeat_secondary_status@,
        }
    }
}

pub open spec fn larger(a: nat, b: nat) -> nat {
    if a >= b {
        a
    } else {
        b
    }
}

pub open spec fn truth_text(truth: bool) -> Seq<char> {
    if truth {
        "true"@
    } else {
        "false"@
    }
}

/// Nothing was observed.
pub open spec fn no_observations() -> ObservationsView {
    ObservationsView {
        maximum_cpu_percent: 0,
        maximum_memory_bytes: 0,
        maximum_uptime_ms: 0,
        heartbeat_enabled: false,
        heartbeat_healthy_seen: false,
        latest_heartbeat_primary_status: Seq::empty(),
        latest_heartbeat_secondary_status: Seq::empty(),
    }
}

impl ObservationsView {
    /// The observations with one more state.
    pub open spec fn with(self, status: &VmStatus) -> ObservationsView {
        ObservationsView {
            maximum_cpu_percent: larger(self.maximum_cpu_percent, status.cpu_usage_percent as nat),
            maximum_memory_bytes: larger(
                self.maximum_memory_bytes,
                status.memory_assigned_bytes as nat,
            ),
            maximum_uptime_ms: larger(self.maximum_uptime_ms, status.uptime_ms as nat),
            heartbeat_enabled: self.heartbeat_enabled || status.heartbeat_enabled,
            heartbeat_healthy_seen: self.heartbeat_healthy_seen || text::same_ignoring_case(
                status.heartbeat_primary_status@,
                "ok"@,
            ),
            latest_heartbeat_primary_status: status.heartbeat_primary_status@,
            latest_heartbeat_secondary_status: status.heartbeat_secondary_status@,
        }
    }

    /// The line that tells what was observed.
    pub open spec fn summary_text(self) -> Seq<char> {
        "host VM observations: maximum_cpu_percent="@ + text::decimal(self.maximum_cpu_percent)
            + ", maximum_memory_bytes="@ + text::decimal(self.maximum_memory_bytes)
            + ", maximum_uptime_ms="@ + text::decimal(self.maximum_uptime_ms)
            + ", heartbeat_enabled="@ + truth_text(self.heartbeat_enabled)
            + ", heartbeat_healthy_seen="@ + truth_text(self.heartbeat_healthy_seen)
            + ", latest_heartbeat_primary_status="@ + text::debug_form(
            self.latest_heartbeat_primary_status,
        ) + ", latest_heartbeat_secondary_status="@ + text::debug_form(
            self.latest_heartbeat_secondary_status,
        )
    }
}

impl Default for HostVmObservations {
    fn default() -> (observations: HostVmObservations)
        ensures
            observations@ == no_observations(),
    {
        let observations = HostVmObservations {
            maximum_cpu_percent: 0,
            maximum_memory_bytes: 0,
            maximum_uptime_ms: 0,
            heartbeat_enabled: false,
            heartbeat_healthy_seen: false,
            latest_heartbeat_primary_status: String::new(),
            latest_heartbeat_secondary_status: String::new(),
        };
        proof {
            assert(observations.latest_heartbeat_primary_status@ =~= Seq::<char>::empty());
            assert(observations.latest_heartbeat_secondary_status@ =~= Seq::<char>::empty());
        }
        observations
    }
}

fn truth_shown(truth: bool) -> (shown: &'static str)
    ensures
        shown@ == truth_text(truth),
{
    if truth {
        "true"
    } else {
        "false"
    }
}

impl HostVmObservations {
    /// Takes in one more state of the machine.
    pub fn record(&mut self, status: &VmStatus)
        ensures
            final(self)@ == old(self)@.with(status),
    {
        if self.maximum_cpu_percent < status.cpu_usage_percent {
            self.maximum_cpu_percent = status.cpu_usage_percent;
        }
        if self.maximum_memory_bytes < status.memory_assigned_bytes {
            self.maximum_memory_bytes = status.memory_assigned_bytes;
        }
        if self.maximum_uptime_ms < status.uptime_ms {
            self.maximum_uptime_ms = status.uptime_ms;
        }
        self.heartbeat_enabled = self.heartbeat_enabled || status.heartbeat_enabled;
        self.heartbeat_healthy_seen = self.heartbeat_healthy_seen || text::eq_ignoring_case(
            status.heartbeat_primary_status.as_str(),
            "ok",
        );
        self.latest_heartbeat_primary_status = status.heartbeat_primary_status.clone();
        self.latest_heartbeat_secondary_status = status.heartbeat_secondary_status.clone();
    }

    pub fn summary(&self) -> (shown: String)
        ensures
            shown@ == self@.summary_text(),
    {
        let cpu = text::decimal_text(self.maximum_cpu_percent as u64);
        let memory = text::decimal_text(self.maximum_memory_bytes);
        let uptime = text::decimal_text(self.maximum_uptime_ms);
        let primary = text::debug_text(self.latest_heartbeat_primary_status.as_str());
        let secondary = text::debug_text(self.latest_heartbeat_secondary_status.as_str());
        let mut shown: String = "host VM observations: maximum_cpu_percent=".to_owned();
        shown.append(cpu.as_str());
        shown.append(", maximum_memory_bytes=");
        shown.append(memory.as_str());
        shown.append(", maximum_uptime_ms=");
        shown.append(uptime.as_str());
        shown.append(", heartbeat_enabled=");
        shown.append(truth_shown(self.heartbeat_enabled));
        shown.append(", heartbeat_healthy_seen=");
        shown.append(truth_shown(self.heartbeat_healthy_seen));
        shown.append(", latest_heartbeat_primary_status=");
        shown.append(primary.as_str());
        shown.append(", latest_heartbeat_secondary_status=");
        shown.append(secondary.as_str());
        shown
    }
}

// ---------------------------------------------------------------------------------------------
// Disks
// ---------------------------------------------------------------------------------------------

#[derive(Clone, Copy, Debug, PartialEq, Eq, Structural)]
pub struct DiskQuotaBreach {
    pub observed_bytes: u64,
    pub maximum_bytes: u64,
}

/// How far the disks of a machine may grow: the system disk, and both together.
#[derive(Clone, Copy, Debug, PartialEq, Eq, Structural)]
pub struct WritableDiskQuota {
    pub maximum_os_disk_bytes: u64,
    pub maximum_total_disk_bytes: u64,
}

pub open spec fn vhd_length_value(facts: EntryFacts) -> Result<u64, backend::Fault> {
    if !facts.regular || facts.link {
        Err(runtime_fault("writable VHDX became a non-regular file or symbolic link"@))
    } else if facts.reparse_point {
        Err(runtime_fault("writable VHDX became a reparse point"@))
    } else {
        Ok(facts.len)
    }
}

/// The length of a disk's file, unless it is no plain file any more.
pub fn checked_vhd_length(facts: EntryFacts) -> (len: SandboxResult<u64>)
    ensures
        backend::outcome(len) == vhd_length_value(facts),
{
    if !facts.regular || facts.link {
        return Err(runtime_error("writable VHDX became a non-regular file or symbolic link"));
    }
    if facts.reparse_point {
        return Err(runtime_error("writable VHDX became a reparse point"));
    }
    Ok(facts.len)
}

pub open spec fn disk_usage_value(os_bytes: u64, data_bytes: u64, quota: WritableDiskQuota) -> Result<
    Option<DiskQuotaBreach>,
    backend::Fault,
> {
    if os_bytes + data_bytes > u64::MAX {
        Err(runtime_fault("aggregate writable-disk byte count overflowed"@))
    } else if os_bytes > quota.maximum_os_disk_bytes {
        Ok(
            Some(
                DiskQuotaBreach {
                    observed_bytes: os_bytes,
                    maximum_bytes: quota.maximum_os_disk_bytes,
                },
            ),
        )
    } else if os_bytes + data_bytes > quota.maximum_total_disk_bytes {
        Ok(
            Some(
                DiskQuotaBreach {
                    observed_bytes: (os_bytes + data_bytes) as u64,
                    maximum_bytes: quota.maximum_total_disk_bytes,
                },
            ),
        )
    } else {
        Ok(None)
    }
}

/// Whether the lengths of both disks exceed their quota.
pub fn writable_disk_usage(os_bytes: u64, data_bytes: u64, quota: WritableDiskQuota) -> (breach:
    SandboxResult<Option<DiskQuotaBreach>>)
    ensures
        backend::outcome(breach) == disk_usage_value(os_bytes, data_bytes, quota),
{
    let total_bytes: u64 = match os_bytes.checked_add(data_bytes) {
        Some(total) => total,
        None => {
            return Err(runtime_error("aggregate writable-disk byte count overflowed"));
        },
    };
    if os_bytes > quota.maximum_os_disk_bytes {
        Ok(
            Some(
                DiskQuotaBreach {
                    observed_bytes: os_bytes,
                    maximum_bytes: quota.maximum_os_disk_bytes,
                },
            ),
        )
    } else if total_bytes > quota.maximum_total_disk_bytes {
        Ok(
            Some(
                DiskQuotaBreach {
                    observed_bytes: total_bytes,
                    maximum_bytes: quota.maximum_total_disk_bytes,
                },
            ),
        )
    } else {
        Ok(None)
    }
}

// ---------------------------------------------------------------------------------------------
// Completion
// ---------------------------------------------------------------------------------------------

/// How a run ended on the host's side.
#[derive(Clone, Debug, PartialEq, Eq)]
pub enum VmCompletion {
    PoweredOff(HostVmObservations),
    TimedOut(HostVmObservations),
    DiskQuotaExceeded {
        observed_bytes: u64,
        maximum_bytes: u64,
        observations: HostVmObservations,
    },
}

/// A short text without control characters.
pub open spec fn plain_status_text(shown: Seq<char>) -> bool {
    text::byte_len(shown) <= 256 && !text::has_control(shown)
}

/// The machine is the one of the run and keeps to the run's policy.
pub open spec fn keeps_policy(machine: &VmHandle, status: &VmStatus, maximum_memory_bytes: u64) -> bool {
    &&& status.exists
    &&& status.name matches Some(name) && name@ == machine.name@
    &&& status.snapshot_count == 0
    &&& status.cpu_usage_percent <= 100
    &&& status.memory_assigned_bytes <= maximum_memory_bytes
    &&& plain_status_text(status.health@)
    &&& plain_status_text(status.heartbeat_primary_status@)
    &&& plain_status_text(status.heartbeat_secondary_status@)
}

/// A state of a machine that goes on.
pub open spec fn live_state(state: Seq<char>) -> bool {
    let folded = text::lower(state);
    folded == "running"@ || folded == "starting"@ || folded == "stopping"@ || folded
        == "forceshutdown"@
}

/// Whether the machine is off, by a state that was reported; or why the run must end.
pub open spec fn status_value(machine: &VmHandle, status: &VmStatus, maximum_memory_bytes: u64) -> Result<
    bool,
    backend::Fault,
> {
    if !keeps_policy(machine, status, maximum_memory_bytes) {
        Err(
            runtime_fault(
                "VM identity, health, checkpoint, CPU, or memory state violated the run policy"@,
            ),
        )
    } else if vm::is_off(status.state@) {
        Ok(true)
    } else if live_state(status.state@) {
        Ok(false)
    } else {
        Err(
            runtime_fault(
                "disposable VM entered an unexpected or unhealthy state: "@ + status.state@,
            ),
        )
    }
}

fn is_plain_status_text(shown: &str) -> (yes: bool)
    ensures
        yes == plain_status_text(shown@),
{
    text::utf8_len(shown) <= 256 && !text::contains_control(shown)
}

/// Takes in one reported state: whether the machine is off, or why the run must end.
pub fn observe_status(
    machine: &VmHandle,
    status: &VmStatus,
    maximum_memory_bytes: u64,
    observations: &mut HostVmObservations,
) -> (off: SandboxResult<bool>)
    ensures
        backend::outcome(off) == status_value(machine, status, maximum_memory_bytes),
        final(observations)@ == if keeps_policy(machine, status, maximum_memory_bytes) {
            old(observations)@.with(status)
        } else {
            old(observations)@
        },
{
    let named = match &status.name {
        Some(name) => text::same_text(name.as_str(), machine.name.as_str()),
        None => false,
    };
    if !status.exists || !named || status.snapshot_count != 0 || status.cpu_usage_percent > 100
        || status.memory_assigned_bytes > maximum_memory_bytes || !is_plain_status_text(
        status.health.as_str(),
    ) || !is_plain_status_text(status.heartbeat_primary_status.as_str()) || !is_plain_status_text(
        status.heartbeat_secondary_status.as_str(),
    ) {
        return Err(
            runtime_error(
                "VM identity, health, checkpoint, CPU, or memory state violated the run policy",
            ),
        );
    }
    observations.record(status);
    if text::eq_ignoring_case(status.state.as_str(), "off") {
        return Ok(true);
    }
    let folded = text::to_lower(status.state.as_str());
    let state = folded.as_str();
    if !(text::same_text(state, "running") || text::same_text(state, "starting") || text::same_text(
        state,
        "stopping",
    ) || text::same_text(state, "forceshutdown")) {
        let message = text::cat2(
            "disposable VM entered an unexpected or unhealthy state: ",
            status.state.as_str(),
        );
        return Err(runtime_error(message.as_str()));
    }
    Ok(false)
}

/// What was observed of a machine by the end of its run.
pub open spec fn observations_of(completion: VmCompletion) -> HostVmObservations {
    match completion {
        VmCompletion::PoweredOff(observations) => observations,
        VmCompletion::TimedOut(observations) => observations,
        VmCompletion::DiskQuotaExceeded { observations, .. } => observations,
    }
}

/// How a run ended, by the looks at its machine and by the watch over its disks: whatever the watch
/// found counts first.
pub fn wait_for_vm_completion(
    observed: SandboxResult<VmCompletion>,
    watch: Option<SandboxResult<DiskQuotaBreach>>,
) -> (completion: SandboxResult<VmCompletion>)
    ensures
        match watch {
            None => completion == observed,
            Some(Err(error)) => completion == Err::<VmCompletion, SandboxError>(error),
            Some(Ok(breach)) => {
                &&& completion matches Ok(VmCompletion::DiskQuotaExceeded {
                    observed_bytes,
                    maximum_bytes,
                    observations,
                })
                &&& observed_bytes == breach.observed_bytes
                &&& maximum_bytes == breach.maximum_bytes
                &&& match observed {
                    Ok(ended) => observations == observations_of(ended),
                    Err(_) => observations@ == no_observations(),
                }
            },
        },
{
    match watch {
        None => observed,
        Some(Err(error)) => Err(error),
        Some(Ok(breach)) => {
            let observations = match observed {
                Ok(VmCompletion::PoweredOff(observations)) => observations,
                Ok(VmCompletion::TimedOut(observations)) => observations,
                Ok(VmCompletion::DiskQuotaExceeded { observations, .. }) => observations,
                Err(_) => HostVmObservations::default(),
            };
            Ok(
                VmCompletion::DiskQuotaExceeded {
                    observed_bytes: breach.observed_bytes,
                    maximum_bytes: breach.maximum_bytes,
                    observations,
                },
            )
        },
    }
}

/// A sum, cut to 64 bits.
pub open spec fn capped_sum(a: nat, b: nat) -> nat {
    if a + b <= u64::MAX {
        a + b
    } else {
        u64::MAX as nat
    }
}

/// The seconds that the host gives a machine: for the target, to boot and to shut down.
pub fn vm_deadline_secs(timeout_secs: u64, boot_timeout_secs: u64, shutdown_grace_secs: u64) -> (secs: u64)
    ensures
        secs == capped_sum(
            capped_sum(timeout_secs as nat, boot_timeout_secs as nat),
            shutdown_grace_secs as nat,
        ),
{
    timeout_secs.saturating_add(boot_timeout_secs).saturating_add(shutdown_grace_secs)
}

// ---------------------------------------------------------------------------------------------
// Laws
// ---------------------------------------------------------------------------------------------

/// A machine goes on only while its disks keep to both quotas; where they do not, the breach names
/// bytes beyond the quota it names.
pub proof fn growth_beyond_the_quota_is_always_a_breach(
    os_bytes: u64,
    data_bytes: u64,
    quota: WritableDiskQuota,
)
    ensures
        disk_usage_value(os_bytes, data_bytes, quota) == Ok::<
            Option<DiskQuotaBreach>,
            backend::Fault,
        >(None) <==> os_bytes <= quota.maximum_os_disk_bytes && os_bytes + data_bytes
            <= quota.maximum_total_disk_bytes,
        disk_usage_value(os_bytes, data_bytes, quota) matches Ok(Some(breach)) ==> breach.observed_bytes
            > breach.maximum_bytes,
{
}

/// The observed maxima never sink, and what was seen once stays seen.
pub proof fn observations_only_grow(before: ObservationsView, status: &VmStatus)
    ensures
        before.with(status).maximum_cpu_percent >= before.maximum_cpu_percent,
        before.with(status).maximum_cpu_percent >= status.cpu_usage_percent,
        before.with(status).maximum_memory_bytes >= before.maximum_memory_bytes,
        before.with(status).maximum_memory_bytes >= status.memory_assigned_bytes,
        before.with(status).maximum_uptime_ms >= before.maximum_uptime_ms,
        before.with(status).maximum_uptime_ms >= status.uptime_ms,
        before.heartbeat_enabled ==> before.with(status).heartbeat_enabled,
        before.heartbeat_healthy_seen ==> before.with(status).heartbeat_healthy_seen,
{
}

proof fn lemma_words_of_states()
    ensures
        forall|i: int| 0 <= i < "off"@.len() ==> 'a' <= #[trigger] "off"@[i] <= 'z',
        forall|i: int| 0 <= i < "ok"@.len() ==> 'a' <= #[trigger] "ok"@[i] <= 'z',
        forall|i: int| 0 <= i < "running"@.len() ==> 'a' <= #[trigger] "running"@[i] <= 'z',
        forall|i: int| 0 <= i < "starting"@.len() ==> 'a' <= #[trigger] "starting"@[i] <= 'z',
        forall|i: int| 0 <= i < "stopping"@.len() ==> 'a' <= #[trigger] "stopping"@[i] <= 'z',
        forall|i: int|
            0 <= i < "forceshutdown"@.len() ==> 'a' <= #[trigger] "forceshutdown"@[i] <= 'z',
        "off"@.len() == 3,
        "running"@.len() == 7,
        "starting"@.len() == 8,
        "stopping"@.len() == 8,
        "forceshutdown"@.len() == 13,
{
    reveal_strlit("off");
    reveal_strlit("ok");
    reveal_strlit("running");
    reveal_strlit("starting");
    reveal_strlit("stopping");
    reveal_strlit("forceshutdown");
}

proof fn lemma_plain_status_text(shown: Seq<char>)
    ensures
        plain_status_text(shown) <==> {
            &&& vstd::utf8::encode_utf8(shown).len() <= 256
            &&& forall|i: int|
                0 <= i < shown.len() ==> 0x20 <= (#[trigger] shown[i]) as u32 && !(0x7f <= shown[i] as u32 <= 0x9f)
        },
{
    if !text::has_control(shown) {
        assert forall|i: int| 0 <= i < shown.len() implies 0x20 <= (#[trigger] shown[i]) as u32 && !(0x7f <= shown[i] as u32 <= 0x9f) by {
            assert(!text::is_control(shown[i]));
        }
    }
}

/// A machine that is reported soundly is done exactly where its state is, in whatever letter case,
/// off; the watch goes on exactly where it is running, starting, stopping or being forced to shut
/// down; in every other state, and where it is not reported soundly, the run ends with an error.
pub proof fn sound_machines_are_watched_until_they_are_off(
    machine: &VmHandle,
    status: &VmStatus,
    maximum_memory_bytes: u64,
)
    ensures
        ({
            let sound = {
                &&& status.exists
                &&& status.name is Some
                &&& status.name->0@ == machine.name@
                &&& status.snapshot_count == 0
                &&& status.cpu_usage_percent <= 100
                &&& status.memory_assigned_bytes <= maximum_memory_bytes
                &&& vstd::utf8::encode_utf8(status.health@).len() <= 256
                &&& forall|i: int|
                    0 <= i < status.health@.len() ==> 0x20 <= (#[trigger] status.health@[i]) as u32 && !(0x7f <= status.health@[i] as u32 <= 0x9f)
                &&& vstd::utf8::encode_utf8(status.heartbeat_primary_status@).len() <= 256
                &&& forall|i: int|
                    0 <= i < status.heartbeat_primary_status@.len() ==> 0x20 <= (#[trigger] status.heartbeat_primary_status@[i]) as u32 && !(0x7f <= status.heartbeat_primary_status@[i] as u32 <= 0x9f)
                &&& vstd::utf8::encode_utf8(status.heartbeat_secondary_status@).len() <= 256
                &&& forall|i: int|
                    0 <= i < status.heartbeat_secondary_status@.len() ==> 0x20 <= (#[trigger] status.heartbeat_secondary_status@[i]) as u32 && !(0x7f <= status.heartbeat_secondary_status@[i] as u32 <= 0x9f)
            };
            let judged = status_value(machine, status, maximum_memory_bytes);
            let state = status.state@;
            let live = text::spells(state, "running"@) || text::spells(state, "starting"@)
                || text::spells(state, "stopping"@) || text::spells(state, "forceshutdown"@);
            &&& judged == Ok::<bool, backend::Fault>(true) <==> sound && text::spells(state, "off"@)
            &&& judged == Ok::<bool, backend::Fault>(false) <==> sound && live
            &&& judged matches Err(fault) ==> fault.stage == "hyperv_runtime"@
            &&& keeps_policy(machine, status, maximum_memory_bytes) <==> sound
        }),
{
    let state = status.state@;
    lemma_words_of_states();
    text::words_are_recognised_in_any_case(state, "off"@);
    text::words_are_recognised_in_any_case(state, "running"@);
    text::words_are_recognised_in_any_case(state, "starting"@);
    text::words_are_recognised_in_any_case(state, "stopping"@);
    text::words_are_recognised_in_any_case(state, "forceshutdown"@);
    lemma_plain_status_text(status.health@);
    lemma_plain_status_text(status.heartbeat_primary_status@);
    lemma_plain_status_text(status.heartbeat_secondary_status@);
}

/// Each observed maximum is one that was reported or the earlier one, a heartbeat counts as healthy
/// where it ever said ok, and the latest heartbeat is the one that was reported last.
pub proof fn observations_are_what_was_reported(before: ObservationsView, status: &VmStatus)
    ensures
        ({
            let after = before.with(status);
            &&& after.maximum_cpu_percent == before.maximum_cpu_percent || after.maximum_cpu_percent
                == status.cpu_usage_percent
            &&& after.maximum_memory_bytes == before.maximum_memory_bytes
                || after.maximum_memory_bytes == status.memory_assigned_bytes
            &&& after.maximum_uptime_ms == before.maximum_uptime_ms || after.maximum_uptime_ms
                == status.uptime_ms
            &&& after.heartbeat_enabled <==> before.heartbeat_enabled || status.heartbeat_enabled
            &&& after.heartbeat_healthy_seen <==> before.heartbeat_healthy_seen || text::spells(
                status.heartbeat_primary_status@,
                "ok"@,
            )
            &&& after.latest_heartbeat_primary_status == status.heartbeat_primary_status@
            &&& after.latest_heartbeat_secondary_status == status.heartbeat_secondary_status@
        }),
        ({
            let none = no_observations();
            &&& none.maximum_cpu_percent == 0 && none.maximum_memory_bytes == 0
                && none.maximum_uptime_ms == 0
            &&& !none.heartbeat_enabled && !none.heartbeat_healthy_seen
            &&& none.latest_heartbeat_primary_status.len() == 0
                && none.latest_heartbeat_secondary_status.len() == 0
        }),
{
    lemma_words_of_states();
    text::words_are_recognised_in_any_case(status.heartbeat_primary_status@, "ok"@);
}

/// A breach names the quota that was broken and what was measured against it: that of the system
/// disk before that of both disks together. Only lengths whose sum no counter can hold are an error.
pub proof fn breaches_name_the_broken_quota(os_bytes: u64, data_bytes: u64, quota: WritableDiskQuota)
    ensures
        ({
            let used = disk_usage_value(os_bytes, data_bytes, quota);
            &&& used is Err <==> os_bytes + data_bytes >= 0x1_0000_0000_0000_0000
            &&& used matches Ok(Some(breach)) ==> if os_bytes > quota.maximum_os_disk_bytes {
                breach.observed_bytes == os_bytes && breach.maximum_bytes
                    == quota.maximum_os_disk_bytes
            } else {
                breach.observed_bytes == os_bytes + data_bytes && breach.maximum_bytes
                    == quota.maximum_total_disk_bytes
            }
        }),
{
}

/// A disk is measured only while it is a plain file, by its own length.
pub proof fn only_plain_files_are_measured(facts: EntryFacts)
    ensures
        vhd_length_value(facts) is Ok <==> facts.regular && !facts.link && !facts.reparse_point,
        vhd_length_value(facts) matches Ok(len) ==> len == facts.len,
        vhd_length_value(facts) matches Err(fault) ==> fault.stage == "hyperv_runtime"@,
{
}

/// The deadline is the sum of its three parts, or the latest there is.
pub proof fn deadlines_add_up(timeout: u64, boot: u64, grace: u64)
    ensures
        ({
            let secs = capped_sum(capped_sum(timeout as nat, boot as nat), grace as nat);
            &&& timeout + boot + grace <= u64::MAX ==> secs == timeout + boot + grace
            &&& timeout + boot + grace > u64::MAX ==> secs == u64::MAX
        }),
{
}

} // verus!
