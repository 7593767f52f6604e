//! What the host asks of the guest, and what it accepts of the guest's answer.

use vstd::prelude::*;
use vstd::string::*;

use crate::backend;
use crate::backend::{
    HyperVGuestProfile, IpNetwork, MitigationProfile, NetworkPolicy, SandboxError, SandboxRequest,
    SandboxResult,
};
use crate::clock;
use crate::digest;
use crate::digest::StreamDigest;
use crate::hyperv::data_disk;
use crate::hyperv::guest_protocol;
use crate::hyperv::guest_protocol::{
    CaptureCoverage, CaptureOptions, GuestExecutionProfile, GuestMitigationProfile,
    GuestNetworkPolicy, GuestResourceLimits, GuestResultEnvelope, GuestRunRequest,
    GuestTerminalOutcome, ObservationCoverage, PROTOCOL_VERSION,
};
use crate::hyperv::network;
use crate::hyperv::network::{ControlledNetworkMode, HyperVNetworkPlan};
use crate::hyperv::result_collector::CollectedGuestOutput;
use crate::structs::{CleanupStatus, FileObservation, SandboxRunResult, StreamCaptureSummary};
use crate::text;

verus! {

/// How many observations of one kind a result may hold.
pub const MAX_OBSERVATIONS: usize = 100_000;

pub const MAX_MONITOR_WARNINGS: usize = 4096;

// ---------------------------------------------------------------------------------------------
// Requests
// ---------------------------------------------------------------------------------------------

pub open spec fn guest_policy(policy: NetworkPolicy) -> GuestNetworkPolicy {
    match policy {
        NetworkPolicy::DenyAll => GuestNetworkPolicy::DenyAll,
        NetworkPolicy::HostServer => GuestNetworkPolicy::HostServer,
        NetworkPolicy::AllowList(_) => GuestNetworkPolicy::AllowList,
        NetworkPolicy::AllowInternet => GuestNetworkPolicy::AllowInternet,
        NetworkPolicy::CaptureOnly => GuestNetworkPolicy::CaptureOnly,
    }
}

/// The texts of the allowed networks.
pub open spec fn network_texts(entries: Seq<IpNetwork>) -> Seq<Seq<char>> {
    entries.map_values(|entry: IpNetwork| backend::network_text(entry@))
}

pub open spec fn allowed_texts(policy: NetworkPolicy) -> Seq<Seq<char>> {
    match policy {
        NetworkPolicy::AllowList(entries) => network_texts(entries@),
        _ => Seq::empty(),
    }
}

pub open spec fn guest_mitigation(profile: MitigationProfile) -> GuestMitigationProfile {
    match profile {
        MitigationProfile::Compatible => GuestMitigationProfile::Compatible,
        MitigationProfile::Strict => GuestMitigationProfile::Strict,
        MitigationProfile::Maximum => GuestMitigationProfile::Maximum,
    }
}

pub open spec fn guest_profile(profile: HyperVGuestProfile) -> GuestExecutionProfile {
    match profile {
        HyperVGuestProfile::Restricted => GuestExecutionProfile::Restricted,
        HyperVGuestProfile::Normal => GuestExecutionProfile::Normal,
        HyperVGuestProfile::Admin => GuestExecutionProfile::Admin,
    }
}

/// The interface of the guest is set up as the plan says.
pub open spec fn interface_as_planned(draft: &GuestRunRequest, plan: &HyperVNetworkPlan) -> bool {
    match plan {
        HyperVNetworkPlan::DenyAll => {
            &&& draft.guest_ipv4 is None
            &&& draft.prefix_length is None
            &&& draft.gateway_ipv4 is None
            &&& draft.dns_servers@.len() == 0
            &&& draft.host_service_ipv4 is None
            &&& draft.host_service_port is None
        },
        HyperVNetworkPlan::Controlled(controlled) => {
            &&& draft.guest_ipv4 == controlled.guest_ipv4
            &&& draft.prefix_length == Some(controlled.prefix_length)
            &&& draft.gateway_ipv4 == controlled.gateway_ipv4
            &&& draft.dns_servers@ == controlled.dns_servers@
            &&& draft.host_service_ipv4 == if controlled.network_mode
                == ControlledNetworkMode::HostServer {
                Some(controlled.host_ipv4)
            } else {
                None
            }
            &&& draft.host_service_port == if controlled.network_mode
                == ControlledNetworkMode::HostServer {
                controlled.host_service_port
            } else {
                None
            }
        },
    }
}

/// The request that the guest is sent, before it was checked.
pub open spec fn drafted(
    draft: &GuestRunRequest,
    request: &SandboxRequest,
    plan: &HyperVNetworkPlan,
    run_id: Seq<char>,
    target_sha256: Option<String>,
) -> bool {
    &&& draft.protocol_version == PROTOCOL_VERSION
    &&& draft.run_id@ == run_id
    &&& draft.target@ == data_disk::guest_target(&request.target)
    &&& draft.target_sha256 == target_sha256
    &&& draft.arguments@ == request.arguments@
    &&& draft.timeout_seconds == request.timeout_secs
    &&& draft.network_policy == guest_policy(request.network_policy)
    &&& text::views(draft.allowed_networks@) == allowed_texts(request.network_policy)
    &&& interface_as_planned(draft, plan)
    &&& draft.mitigation_profile == guest_mitigation(request.mitigation_profile)
    &&& draft.execution_profile == guest_profile(request.hyperv_guest_profile)
    &&& draft.resource_limits.active_process_limit == request.resource_limits.active_process_limit
    &&& draft.resource_limits.process_memory_bytes == request.resource_limits.process_memory_bytes
    &&& draft.resource_limits.job_memory_bytes == request.resource_limits.job_memory_bytes
    &&& draft.resource_limits.cpu_rate_percent == request.resource_limits.cpu_rate_percent
    &&& draft.capture == (CaptureOptions {
        stdout: true,
        stderr: true,
        processes: true,
        network: true,
        filesystem: true,
        registry: true,
    })
    &&& draft.shutdown_when_complete
}

/// A protocol error as an error of the request.
pub open spec fn request_refusal(fault: guest_protocol::ProtocolFault) -> backend::Fault {
    backend::fault("hyperv_guest_request"@, guest_protocol::protocol_fault_text(fault))
}

fn show_networks(entries: &Vec<IpNetwork>) -> (shown: Vec<String>)
    ensures
        text::views(shown@) == network_texts(entries@),
{
    let mut shown: Vec<String> = Vec::new();
    let mut i: usize = 0;
    proof {
        assert(text::views(shown@) =~= network_texts(entries@).take(0));
    }
    while i < entries.len()
        invariant
            i <= entries@.len(),
            text::views(shown@) == network_texts(entries@).take(i as int),
        decreases entries@.len() - i,
    {
        let ghost before = shown@;
        let line = entries[i].to_string();
        shown.push(line);
        proof {
            assert(text::views(shown@) =~= text::views(before).push(line@));
            assert(text::views(shown@) =~= network_texts(entries@).take(i + 1));
        }
        i = i + 1;
    }
    proof {
        assert(network_texts(entries@).take(i as int) =~= network_texts(entries@));
    }
    shown
}

/// The request that the guest is sent for a host request, checked by the rules that the guest goes
/// by.
pub fn build_guest_request(
    request: &SandboxRequest,
    network_plan: &HyperVNetworkPlan,
    run_id: &str,
    target_sha256: Option<String>,
) -> (built: SandboxResult<GuestRunRequest>)
    requires
        network_plan matches HyperVNetworkPlan::Controlled(controlled) ==> controlled.supported(),
    ensures
        match built {
            Ok(made) => drafted(&made, request, network_plan, run_id@, target_sha256)
                && made.verdict() is Ok,
            Err(error) => exists|draft: GuestRunRequest|
                {
                    &&& #[trigger] drafted(&draft, request, network_plan, run_id@, target_sha256)
                    &&& draft.verdict() matches Err(fault)
                    &&& error@ == request_refusal(fault)
                },
        },
{
    let network_policy = match &request.network_policy {
        NetworkPolicy::DenyAll => GuestNetworkPolicy::DenyAll,
        NetworkPolicy::HostServer => GuestNetworkPolicy::HostServer,
        NetworkPolicy::AllowList(_) => GuestNetworkPolicy::AllowList,
        NetworkPolicy::AllowInternet => GuestNetworkPolicy::AllowInternet,
        NetworkPolicy::CaptureOnly => GuestNetworkPolicy::CaptureOnly,
    };
    let allowed_networks = match &request.network_policy {
        NetworkPolicy::AllowList(entries) => show_networks(entries),
        _ => {
            let none: Vec<String> = Vec::new();
            proof {
                assert(text::views(none@) =~= Seq::<Seq<char>>::empty());
            }
            none
        },
    };
    let (
        guest_ipv4,
        prefix_length,
        gateway_ipv4,
        dns_servers,
        host_service_ipv4,
        host_service_port,
    ) = network::guest_configuration(network_plan);
    let draft = GuestRunRequest {
        protocol_version: PROTOCOL_VERSION,
        run_id: run_id.to_owned(),
        target: data_disk::guest_target_path(&request.target).to_owned(),
        target_sha256,
        arguments: text::clone_list(&request.arguments),
        timeout_seconds: request.timeout_secs,
        network_policy,
        allowed_networks,
        guest_ipv4,
        prefix_length,
        gateway_ipv4,
        dns_servers,
        host_service_ipv4,
        host_service_port,
        mitigation_profile: match request.mitigation_profile {
            MitigationProfile::Compatible => GuestMitigationProfile::Compatible,
            MitigationProfile::Strict => GuestMitigationProfile::Strict,
            MitigationProfile::Maximum => GuestMitigationProfile::Maximum,
        },
        execution_profile: match request.hyperv_guest_profile {
            HyperVGuestProfile::Restricted => GuestExecutionProfile::Restricted,
            HyperVGuestProfile::Normal => GuestExecutionProfile::Normal,
            HyperVGuestProfile::Admin => GuestExecutionProfile::Admin,
        },
        resource_limits: GuestResourceLimits {
            active_process_limit: request.resource_limits.active_process_limit,
            process_memory_bytes: request.resource_limits.process_memory_bytes as u64,
            job_memory_bytes: request.resource_limits.job_memory_bytes as u64,
            cpu_rate_percent: request.resource_limits.cpu_rate_percent,
        },
        capture: CaptureOptions::default(),
        shutdown_when_complete: true,
    };
    proof {
        assert(drafted(&draft, request, network_plan, run_id@, target_sha256));
    }
    match draft.validate() {
        Err(error) => {
            let shown = error.to_string();
            Err(SandboxError::new("hyperv_guest_request", shown.as_str()))
        },
        Ok(_) => Ok(draft),
    }
}

// ---------------------------------------------------------------------------------------------
// Results
// ---------------------------------------------------------------------------------------------

/// An error of the guest's result.
pub open spec fn result_fault(message: Seq<char>) -> backend::Fault {
    backend::fault("hyperv_result"@, message)
}

fn result_error(message: &str) -> (error: SandboxError)
    ensures
        error@ == result_fault(message@),
{
    SandboxError::new("hyperv_result", message)
}

/// The backend that the guest must have run a request with.
pub open spec fn expected_backend(profile: HyperVGuestProfile) -> Seq<char> {
    match profile {
        HyperVGuestProfile::Restricted => "restricted_process"@,
        _ => "guest_native"@,
    }
}

/// The integrity level that the guest must have run a request at.
pub open spec fn expected_integrity(
    profile: HyperVGuestProfile,
    mitigation: MitigationProfile,
) -> Seq<char> {
    match profile {
        HyperVGuestProfile::Restricted => if mitigation == MitigationProfile::Maximum {
            "untrusted"@
        } else {
            "low"@
        },
        HyperVGuestProfile::Normal => "medium"@,
        HyperVGuestProfile::Admin => "system"@,
    }
}

/// The execution was the one that the host asked for.
pub open spec fn executed_as_requested(
    execution: &SandboxRunResult,
    request: &SandboxRequest,
    timed_out: bool,
) -> bool {
    &&& execution.backend@ == expected_backend(request.hyperv_guest_profile)
    &&& execution.network_policy@ == request.network_policy.spec_name()
    &&& execution.mitigation_profile@ == request.mitigation_profile.spec_name()
    &&& execution.integrity_level@ == expected_integrity(
        request.hyperv_guest_profile,
        request.mitigation_profile,
    )
    &&& execution.timed_out == timed_out
    &&& execution.mapped_paths@.len() == 0
    &&& execution.cleanup.leftover_resources@.len() <= 128
    &&& execution.cleanup.warnings@.len() <= 256
}

/// The counts of a result are reasonable.
pub open spec fn reasonable_counts(execution: &SandboxRunResult) -> bool {
    &&& execution.processes@.len() <= MAX_OBSERVATIONS
    &&& execution.network_connections@.len() <= MAX_OBSERVATIONS
    &&& execution.file_observations@.len() <= MAX_OBSERVATIONS
    &&& execution.registry_observations@.len() <= MAX_OBSERVATIONS
    &&& execution.monitor_warnings@.len() <= MAX_MONITOR_WARNINGS
}

pub open spec fn file_observation_verdict(observation: &FileObservation) -> Result<
    (),
    backend::Fault,
> {
    if !guest_protocol::small_field(observation.relative_path@, 4096)
        || !guest_protocol::small_field(observation.kind@, 128) {
        Err(result_fault("guest result contains an invalid file observation"@))
    } else if observation.sha256 matches Some(digest) && !guest_protocol::valid_sha256(digest@) {
        Err(result_fault("guest result contains an invalid file-observation SHA-256"@))
    } else if observation.hash_source matches Some(source) && !guest_protocol::small_field(
        source@,
        128,
    ) {
        Err(result_fault("guest result contains an invalid file hash source"@))
    } else if observation.sha256 is None && observation.hash_source is Some {
        Err(result_fault("guest result names a file hash source without a digest"@))
    } else {
        Ok(())
    }
}

pub open spec fn file_observations_verdict(
    observations: Seq<FileObservation>,
    from: int,
) -> Result<(), backend::Fault>
    decreases observations.len() - from,
{
    if from >= observations.len() {
        Ok(())
    } else {
        backend::both(
            file_observation_verdict(&observations[from]),
            file_observations_verdict(observations, from + 1),
        )
    }
}

pub open spec fn capture_binding_verdict(name: Seq<char>, item: &CaptureCoverage) -> Result<
    (),
    backend::Fault,
> {
    if !item.requested {
        Err(
            result_fault("guest result says requested "@ + name + " capture was not requested"@),
        )
    } else if !item.collected && item.warnings@.len() == 0 {
        Err(result_fault("unavailable "@ + name + " capture has no limitation warning"@))
    } else {
        Ok(())
    }
}

/// Every capture was asked for, and one that is missing says why.
pub open spec fn coverage_verdict(coverage: &ObservationCoverage) -> Result<(), backend::Fault> {
    backend::both(
        capture_binding_verdict("stdout"@, &coverage.stdout),
        backend::both(
            capture_binding_verdict("stderr"@, &coverage.stderr),
            backend::both(
                capture_binding_verdict("process"@, &coverage.processes),
                backend::both(
                    capture_binding_verdict("network"@, &coverage.network),
                    backend::both(
                        capture_binding_verdict("filesystem"@, &coverage.filesystem),
                        capture_binding_verdict("registry"@, &coverage.registry),
                    ),
                ),
            ),
        ),
    )
}

pub open spec fn execution_verdict(
    execution: &SandboxRunResult,
    request: &SandboxRequest,
    timed_out: bool,
) -> Result<(), backend::Fault> {
    if !executed_as_requested(execution, request, timed_out) {
        Err(
            result_fault("guest execution metadata contradicts the authenticated host request"@),
        )
    } else if !execution.cleanup.attempted {
        Err(result_fault("guest process cleanup was not attempted"@))
    } else if !execution.stdout_capture.consistent() || !execution.stderr_capture.consistent() {
        Err(result_fault("guest stream capture summary is internally inconsistent"@))
    } else if !reasonable_counts(execution) {
        Err(
            result_fault("guest result contains an unreasonable observation or warning count"@),
        )
    } else {
        file_observations_verdict(execution.file_observations@, 0)
    }
}

/// The verdict on a collected result.
pub open spec fn guest_result_verdict(
    envelope: &GuestResultEnvelope<SandboxRunResult>,
    request: &SandboxRequest,
    expected_image: Seq<char>,
) -> Result<(), backend::Fault> {
    if envelope.guest_image_version@ != expected_image {
        Err(
            result_fault(
                "guest result image version does not match the pinned base-image manifest"@,
            ),
        )
    } else {
        match envelope.outcome {
            GuestTerminalOutcome::AgentFailed => match envelope.error {
                None => Err(result_fault("guest agent failed without an error record"@)),
                Some(error) => Err(
                    backend::fault(
                        "hyperv_guest_agent"@,
                        error.stage@ + ":"@ + error.code@ + ": "@ + error.message@,
                    ),
                ),
            },
            GuestTerminalOutcome::Cancelled => Err(
                backend::fault(
                    "hyperv_guest_agent"@,
                    "guest execution was cancelled before producing a sandbox result"@,
                ),
            ),
            _ => match envelope.execution {
                None => Err(
                    result_fault("terminal guest outcome omitted its execution result"@),
                ),
                Some(execution) => backend::both(
                    execution_verdict(
                        &execution,
                        request,
                        envelope.outcome == GuestTerminalOutcome::TimedOut,
                    ),
                    coverage_verdict(&envelope.coverage),
                ),
            },
        }
    }
}

fn is_small_field(value: &str, maximum: usize) -> (yes: bool)
    ensures
        yes == guest_protocol::small_field(value@, maximum as nat),
{
    guest_protocol::validate_small_field("field", value, maximum).is_ok()
}

fn check_file_observation(observation: &FileObservation) -> (verdict: SandboxResult<()>)
    ensures
        backend::outcome(verdict) == file_observation_verdict(observation),
{
    if !is_small_field(observation.relative_path.as_str(), 4096) || !is_small_field(
        observation.kind.as_str(),
        128,
    ) {
        return Err(result_error("guest result contains an invalid file observation"));
    }
    match &observation.sha256 {
        Some(digest) => {
            if guest_protocol::validate_sha256(digest.as_str()).is_err() {
                return Err(
                    result_error("guest result contains an invalid file-observation SHA-256"),
                );
            }
        },
        None => {},
    }
    match &observation.hash_source {
        Some(source) => {
            if !is_small_field(source.as_str(), 128) {
                return Err(result_error("guest result contains an invalid file hash source"));
            }
        },
        None => {},
    }
    if observation.sha256.is_none() && observation.hash_source.is_some() {
        return Err(result_error("guest result names a file hash source without a digest"));
    }
    Ok(())
}

fn check_file_observations(observations: &Vec<FileObservation>) -> (verdict: SandboxResult<()>)
    ensures
        backend::outcome(verdict) == file_observations_verdict(observations@, 0),
{
    let mut i: usize = 0;
    while i < observations.len()
        invariant
            i <= observations@.len(),
            file_observations_verdict(observations@, 0) == file_observations_verdict(
                observations@,
                i as int,
            ),
        decreases observations@.len() - i,
    {
        match check_file_observation(&observations[i]) {
            Err(error) => {
                return Err(error);
            },
            Ok(_) => {},
        }
        i = i + 1;
    }
    Ok(())
}

fn check_capture_binding(name: &str, item: &CaptureCoverage) -> (verdict: SandboxResult<()>)
    ensures
        backend::outcome(verdict) == capture_binding_verdict(name@, item),
{
    if !item.requested {
        let message = text::cat3(
            "guest result says requested ",
            name,
            " capture was not requested",
        );
        return Err(result_error(message.as_str()));
    }
    if !item.collected && item.warnings.len() == 0 {
        let message = text::cat3("unavailable ", name, " capture has no limitation warning");
        return Err(result_error(message.as_str()));
    }
    Ok(())
}

pub fn validate_coverage_binding(coverage: &ObservationCoverage) -> (verdict: SandboxResult<()>)
    ensures
        backend::outcome(verdict) == coverage_verdict(coverage),
{
    match check_capture_binding("stdout", &coverage.stdout) {
        Err(error) => {
            return Err(error);
        },
        Ok(_) => {},
    }
    match check_capture_binding("stderr", &coverage.stderr) {
        Err(error) => {
            return Err(error);
        },
        Ok(_) => {},
    }
    match check_capture_binding("process", &coverage.processes) {
        Err(error) => {
            return Err(error);
        },
        Ok(_) => {},
    }
    match check_capture_binding("network", &coverage.network) {
        Err(error) => {
            return Err(error);
        },
        Ok(_) => {},
    }
    match check_capture_binding("filesystem", &coverage.filesystem) {
        Err(error) => {
            return Err(error);
        },
        Ok(_) => {},
    }
    check_capture_binding("registry", &coverage.registry)
}

fn check_execution(execution: &SandboxRunResult, request: &SandboxRequest, timed_out: bool) -> (verdict:
    SandboxResult<()>)
    ensures
        backend::outcome(verdict) == execution_verdict(execution, request, timed_out),
{
    let backend_name = match request.hyperv_guest_profile {
        HyperVGuestProfile::Restricted => "restricted_process",
        _ => "guest_native",
    };
    let integrity = match request.hyperv_guest_profile {
        HyperVGuestProfile::Restricted => if request.mitigation_profile
            == MitigationProfile::Maximum {
            "untrusted"
        } else {
            "low"
        },
        HyperVGuestProfile::Normal => "medium",
        HyperVGuestProfile::Admin => "system",
    };
    let mitigation = request.mitigation_profile.to_string();
    if !text::same_text(execution.backend.as_str(), backend_name) || !text::same_text(
        execution.network_policy.as_str(),
        request.network_policy.name(),
    ) || !text::same_text(execution.mitigation_profile.as_str(), mitigation.as_str())
        || !text::same_text(execution.integrity_level.as_str(), integrity) || execution.timed_out
        != timed_out || execution.mapped_paths.len() > 0
        || execution.cleanup.leftover_resources.len() > 128 || execution.cleanup.warnings.len()
        > 256 {
        return Err(
            result_error("guest execution metadata contradicts the authenticated host request"),
        );
    }
    if !execution.cleanup.attempted {
        return Err(result_error("guest process cleanup was not attempted"));
    }
    if !execution.stdout_capture.is_consistent() || !execution.stderr_capture.is_consistent() {
        return Err(result_error("guest stream capture summary is internally inconsistent"));
    }
    if execution.processes.len() > MAX_OBSERVATIONS || execution.network_connections.len()
        > MAX_OBSERVATIONS || execution.file_observations.len() > MAX_OBSERVATIONS
        || execution.registry_observations.len() > MAX_OBSERVATIONS
        || execution.monitor_warnings.len() > MAX_MONITOR_WARNINGS {
        return Err(
            result_error("guest result contains an unreasonable observation or warning count"),
        );
    }
    check_file_observations(&execution.file_observations)
}

/// Checks a collected result against what the host asked for.
pub fn validate_guest_result(
    envelope: &GuestResultEnvelope<SandboxRunResult>,
    request: &SandboxRequest,
    expected_guest_image_version: &str,
) -> (verdict: SandboxResult<()>)
    ensures
        backend::outcome(verdict) == guest_result_verdict(
            envelope,
            request,
            expected_guest_image_version@,
        ),
{
    if !text::same_text(envelope.guest_image_version.as_str(), expected_guest_image_version) {
        return Err(
            result_error(
                "guest result image version does not match the pinned base-image manifest",
            ),
        );
    }
    match envelope.outcome {
        GuestTerminalOutcome::AgentFailed => {
            return match &envelope.error {
                None => Err(result_error("guest agent failed without an error record")),
                Some(error) => {
                    let message = text::cat5(
                        error.stage.as_str(),
                        ":",
                        error.code.as_str(),
                        ": ",
                        error.message.as_str(),
                    );
                    Err(SandboxError::new("hyperv_guest_agent", message.as_str()))
                },
            };
        },
        GuestTerminalOutcome::Cancelled => {
            return Err(
                SandboxError::new(
                    "hyperv_guest_agent",
                    "guest execution was cancelled before producing a sandbox result",
                ),
            );
        },
        _ => {},
    }
    match &envelope.execution {
        None => Err(result_error("terminal guest outcome omitted its execution result")),
        Some(execution) => {
            let timed_out = envelope.outcome == GuestTerminalOutcome::TimedOut;
            match check_execution(execution, request, timed_out) {
                Err(error) => Err(error),
                Ok(_) => validate_coverage_binding(&envelope.coverage),
            }
        },
    }
}

// ---------------------------------------------------------------------------------------------
// The host's own results
// ---------------------------------------------------------------------------------------------

/// Why the host speaks in place of the guest.
#[derive(Clone, Copy, Debug, PartialEq, Eq, Structural)]
pub enum SyntheticOutcome {
    DryRun,
    HostVmTimeout,
}

pub open spec fn synthetic_warning(outcome: SyntheticOutcome) -> Seq<char> {
    match outcome {
        SyntheticOutcome::DryRun => {
            "dry-run: the target and Hyper-V configuration were validated, but no VM was created and the target was not executed"@
        },
        SyntheticOutcome::HostVmTimeout => {
            "the authoritative host VM deadline expired before authenticated guest completion"@
        },
    }
}

/// A result of the host's own: it claims no process, no exit code and no observation.
pub open spec fn is_synthetic(
    result: &SandboxRunResult,
    request: &SandboxRequest,
    outcome: SyntheticOutcome,
    elapsed_ms: nat,
) -> bool {
    &&& result.backend@ == "hyperv"@
    &&& result.network_policy@ == request.network_policy.spec_name()
    &&& result.integrity_level@ == "guest_non_admin"@
    &&& result.mitigation_profile@ == request.mitigation_profile.spec_name()
    &&& result.pid == 0
    &&& result.exit_code is None
    &&& result.timed_out == (outcome == SyntheticOutcome::HostVmTimeout)
    &&& result.working_dir is None
    &&& result.duration_ms == clock::clamped(elapsed_ms)
    &&& result.stdout@.len() == 0
    &&& result.stderr@.len() == 0
    &&& result.stdout_capture == (StreamCaptureSummary {
        bytes_seen: 0,
        bytes_stored: 0,
        truncated: false,
    })
    &&& result.stderr_capture == result.stdout_capture
    &&& result.processes@.len() == 0
    &&& result.network_connections@.len() == 0
    &&& result.file_observations@.len() == 0
    &&& result.registry_observations@.len() == 0
    &&& result.mapped_paths@.len() == 0
    &&& text::views(result.monitor_warnings@) == seq![synthetic_warning(outcome)]
    &&& !result.cleanup.attempted
    &&& !result.cleanup.success
}

pub fn synthetic_result(request: &SandboxRequest, outcome: SyntheticOutcome, elapsed_ms: u128) -> (result:
    SandboxRunResult)
    ensures
        is_synthetic(&result, request, outcome, elapsed_ms as nat),
{
    let timed_out = match outcome {
        SyntheticOutcome::DryRun => false,
        SyntheticOutcome::HostVmTimeout => true,
    };
    let warning = match outcome {
        SyntheticOutcome::DryRun => {
            "dry-run: the target and Hyper-V configuration were validated, but no VM was created and the target was not executed"
        },
        SyntheticOutcome::HostVmTimeout => {
            "the authoritative host VM deadline expired before authenticated guest completion"
        },
    };
    let mut monitor_warnings: Vec<String> = Vec::new();
    monitor_warnings.push(warning.to_owned());
    proof {
        assert(text::views(monitor_warnings@) =~= seq![synthetic_warning(outcome)]);
    }
    SandboxRunResult {
        backend: "hyperv".to_owned(),
        network_policy: request.network_policy.name().to_owned(),
        integrity_level: "guest_non_admin".to_owned(),
        mitigation_profile: request.mitigation_profile.to_string(),
        pid: 0,
        exit_code: None,
        timed_out,
        working_dir: None,
        duration_ms: clock::clamp_millis(elapsed_ms),
        stdout: String::new(),
        stderr: String::new(),
        stdout_capture: StreamCaptureSummary::empty(),
        stderr_capture: StreamCaptureSummary::empty(),
        processes: Vec::new(),
        network_connections: Vec::new(),
        file_observations: Vec::new(),
        registry_observations: Vec::new(),
        mapped_paths: Vec::new(),
        monitor_warnings,
        cleanup: CleanupStatus::pending(),
    }
}

/// The error of a run whose disks outgrew their quota.
pub open spec fn quota_fault(observed: u64, maximum: u64, preservation: Seq<char>) -> backend::Fault {
    backend::fault(
        "hyperv_os_disk_quota"@,
        "critical containment event: disposable VM writable disks reached "@ + text::decimal(
            observed as nat,
        ) + " bytes and exceeded the "@ + text::decimal(maximum as nat)
            + " byte aggregate host quota; "@ + preservation,
    )
}

pub fn os_disk_quota_error(observed_bytes: u64, maximum_bytes: u64, preservation: &str) -> (error:
    SandboxError)
    ensures
        error@ == quota_fault(observed_bytes, maximum_bytes, preservation@),
        error.stage@ == "hyperv_os_disk_quota"@,
{
    let observed = text::decimal_text(observed_bytes);
    let maximum = text::decimal_text(maximum_bytes);
    let first = text::cat5(
        "critical containment event: disposable VM writable disks reached ",
        observed.as_str(),
        " bytes and exceeded the ",
        maximum.as_str(),
        " byte aggregate host quota; ",
    );
    let message = text::cat2(first.as_str(), preservation);
    SandboxError::new("hyperv_os_disk_quota", message.as_str())
}

/// The digest of a pinned target of `expected_len` bytes, from the bytes that were read of it.
pub fn hash_pinned_target(stream: StreamDigest, expected_len: u64) -> (sha256: SandboxResult<String>)
    requires
        stream.well_formed(),
    ensures
        match sha256 {
            Ok(shown) => {
                &&& stream.copied == expected_len
                &&& shown@ == digest::sha256_text(stream.content())
                &&& guest_protocol::valid_sha256(shown@)
            },
            Err(error) => {
                &&& stream.copied != expected_len
                &&& error@ == backend::fault(
                    "hyperv_prepare"@,
                    "target changed while its integrity hash was calculated"@,
                )
            },
        },
{
    match stream.finish_exactly(expected_len) {
        Some(shown) => Ok(shown),
        None => Err(
            SandboxError::new(
                "hyperv_prepare",
                "target changed while its integrity hash was calculated",
            ),
        ),
    }
}

// ---------------------------------------------------------------------------------------------
// The final result
// ---------------------------------------------------------------------------------------------

/// The line that tells how much was collected.
pub open spec fn collection_text(artifacts: nat, total_bytes: nat) -> Seq<char> {
    "collected "@ + text::decimal(artifacts) + " bounded guest artifact(s), "@ + text::decimal(
        total_bytes,
    ) + " total output bytes"@
}

/// The warnings of a finished run: those of the execution, what the host observed, and those of the
/// result, of its captures and of the guest's own file, then how much was collected.
pub open spec fn final_warnings(collected: &CollectedGuestOutput, observation: Seq<char>) -> Seq<
    Seq<char>,
> {
    let envelope = collected.result;
    let own = match envelope.execution {
        Some(execution) => text::views(execution.monitor_warnings@),
        None => Seq::empty(),
    };
    let listed = own.push(observation) + text::views(envelope.warnings@) + text::views(
        envelope.coverage.stdout.warnings@,
    ) + text::views(envelope.coverage.stderr.warnings@) + text::views(
        envelope.coverage.processes.warnings@,
    ) + text::views(envelope.coverage.network.warnings@) + text::views(
        envelope.coverage.filesystem.warnings@,
    ) + text::views(envelope.coverage.registry.warnings@) + text::views(collected.warnings@);
    if collected.artifacts@.len() > 0 {
        listed.push(
            collection_text(collected.artifacts@.len(), collected.total_bytes as nat),
        )
    } else {
        listed
    }
}

fn append(list: &mut Vec<String>, items: Vec<String>)
    ensures
        text::views(final(list)@) == text::views(old(list)@) + text::views(items@),
{
    let ghost before = list@;
    let ghost more = items@;
    let mut tail = items;
    list.append(&mut tail);
    proof {
        assert(text::views(list@) =~= text::views(before) + text::views(more));
    }
}

/// The execution of the guest with what the host collected in its place: streams, warnings and a
/// cleanup that is still to come.
pub open spec fn is_final(
    result: &SandboxRunResult,
    collected: &CollectedGuestOutput,
    observation: Seq<char>,
) -> bool {
    collected.result.execution matches Some(execution) && {
        &&& result.backend@ == "hyperv"@
        &&& result.stdout == collected.stdout
        &&& result.stderr == collected.stderr
        &&& text::views(result.monitor_warnings@) == final_warnings(collected, observation)
        &&& !result.cleanup.attempted
        &&& !result.cleanup.success
        &&& result.network_policy == execution.network_policy
        &&& result.integrity_level == execution.integrity_level
        &&& result.mitigation_profile == execution.mitigation_profile
        &&& result.pid == execution.pid
        &&& result.exit_code == execution.exit_code
        &&& result.timed_out == execution.timed_out
        &&& result.working_dir == execution.working_dir
        &&& result.duration_ms == execution.duration_ms
        &&& result.stdout_capture == execution.stdout_capture
        &&& result.stderr_capture == execution.stderr_capture
        &&& result.processes == execution.processes
        &&& result.network_connections == execution.network_connections
        &&& result.file_observations == execution.file_observations
        &&& result.registry_observations == execution.registry_observations
        &&& result.mapped_paths == execution.mapped_paths
    }
}

/// The result of a finished run.
pub fn assemble_result(collected: CollectedGuestOutput, observation: String) -> (result: SandboxResult<
    SandboxRunResult,
>)
    ensures
        match result {
            Ok(made) => is_final(&made, &collected, observation@),
            Err(error) => collected.result.execution is None && error@ == result_fault(
                "guest result did not contain an execution result"@,
            ),
        },
{
    let envelope = collected.result;
    let mut result = match envelope.execution {
        Some(execution) => execution,
        None => {
            return Err(result_error("guest result did not contain an execution result"));
        },
    };
    let count: u64 = collected.artifacts.len() as u64;
    let ghost own = result.monitor_warnings@;
    result.backend = "hyperv".to_owned();
    result.stdout = collected.stdout;
    result.stderr = collected.stderr;
    result.monitor_warnings.push(observation);
    proof {
        assert(text::views(result.monitor_warnings@) =~= text::views(own).push(observation@));
    }
    append(&mut result.monitor_warnings, envelope.warnings);
    append(&mut result.monitor_warnings, envelope.coverage.stdout.warnings);
    append(&mut result.monitor_warnings, envelope.coverage.stderr.warnings);
    append(&mut result.monitor_warnings, envelope.coverage.processes.warnings);
    append(&mut result.monitor_warnings, envelope.coverage.network.warnings);
    append(&mut result.monitor_warnings, envelope.coverage.filesystem.warnings);
    append(&mut result.monitor_warnings, envelope.coverage.registry.warnings);
    append(&mut result.monitor_warnings, collected.warnings);
    if count > 0 {
        let ghost before = result.monitor_warnings@;
        let artifacts = text::decimal_text(count);
        let bytes = text::decimal_text(collected.total_bytes);
        let line = text::cat5(
            "collected ",
            artifacts.as_str(),
            " bounded guest artifact(s), ",
            bytes.as_str(),
            " total output bytes",
        );
        result.monitor_warnings.push(line);
        proof {
            assert(text::views(result.monitor_warnings@) =~= text::views(before).push(line@));
        }
    }
    result.cleanup = CleanupStatus::pending();
    Ok(result)
}

// ---------------------------------------------------------------------------------------------
// Laws
// ---------------------------------------------------------------------------------------------

/// All requests that are drafted for one run are judged alike, so a run is refused for exactly one
/// reason.
pub proof fn drafts_are_judged_alike(
    first: &GuestRunRequest,
    second: &GuestRunRequest,
    request: &SandboxRequest,
    plan: &HyperVNetworkPlan,
    run_id: Seq<char>,
    target_sha256: Option<String>,
)
    requires
        drafted(first, request, plan, run_id, target_sha256),
        drafted(second, request, plan, run_id, target_sha256),
    ensures
        first.verdict() == second.verdict(),
{
    let a = first.allowed_networks@;
    let b = second.allowed_networks@;
    assert(text::views(a).len() == a.len());
    assert(text::views(b).len() == b.len());
    assert forall|i: int| 0 <= i < a.len() implies a[i]@ == b[i]@ by {
        assert(text::views(a)[i] == text::views(b)[i]);
    }
    lemma_same_networks(a, b, 0);
    assert(first.dns_servers@ =~= second.dns_servers@);
    assert(first.resource_limits == second.resource_limits);
    assert(first.target_verdict() == second.target_verdict());
    assert(first.allow_list_verdict() == second.allow_list_verdict());
    assert(first.network_verdict() == second.network_verdict());
}

proof fn lemma_same_networks(a: Seq<String>, b: Seq<String>, from: int)
    requires
        a.len() == b.len(),
        0 <= from,
        forall|i: int| 0 <= i < a.len() ==> a[i]@ == b[i]@,
    ensures
        guest_protocol::ip_networks_verdict(a, from) == guest_protocol::ip_networks_verdict(b, from),
    decreases a.len() - from,
{
    if from < a.len() {
        lemma_same_networks(a, b, from + 1);
    }
}

/// Whatever the target is called on the host, the guest is told one of the fixed places, asked for
/// every capture, and told to shut down; the host's path never reaches it.
pub proof fn guest_requests_reveal_no_host_path(
    draft: &GuestRunRequest,
    request: &SandboxRequest,
    plan: &HyperVNetworkPlan,
    run_id: Seq<char>,
    target_sha256: Option<String>,
)
    requires
        drafted(draft, request, plan, run_id, target_sha256),
    ensures
        data_disk::fixed_guest_target(draft.target@),
        draft.shutdown_when_complete,
        draft.capture.stdout && draft.capture.stderr && draft.capture.processes
            && draft.capture.network && draft.capture.filesystem && draft.capture.registry,
{
}

/// A result of the host's own never claims an exit code, and claims a timeout only where the host's
/// deadline expired.
pub proof fn synthetic_results_claim_no_exit(
    result: &SandboxRunResult,
    request: &SandboxRequest,
    outcome: SyntheticOutcome,
    elapsed_ms: nat,
)
    requires
        is_synthetic(result, request, outcome, elapsed_ms),
    ensures
        result.exit_code is None,
        result.pid == 0,
        result.timed_out <==> outcome == SyntheticOutcome::HostVmTimeout,
        result.monitor_warnings@.len() == 1,
{
    assert(text::views(result.monitor_warnings@).len() == result.monitor_warnings@.len());
}

/// An accepted result was executed by the guest exactly as the host asked, with every capture
/// requested and its cleanup attempted.
pub proof fn accepted_results_match_the_request(
    envelope: &GuestResultEnvelope<SandboxRunResult>,
    request: &SandboxRequest,
    expected_image: Seq<char>,
)
    requires
        guest_result_verdict(envelope, request, expected_image) is Ok,
    ensures
        envelope.guest_image_version@ == expected_image,
        envelope.outcome == GuestTerminalOutcome::Completed || envelope.outcome
            == GuestTerminalOutcome::TimedOut,
        envelope.execution matches Some(execution) && executed_as_requested(
            &execution,
            request,
            envelope.outcome == GuestTerminalOutcome::TimedOut,
        ) && execution.cleanup.attempted && execution.stdout_capture.consistent()
            && execution.stderr_capture.consistent(),
        envelope.coverage.stdout.requested && envelope.coverage.stderr.requested
            && envelope.coverage.processes.requested && envelope.coverage.network.requested
            && envelope.coverage.filesystem.requested && envelope.coverage.registry.requested,
{
}

/// The guest is sent what the host was asked for, under the same names: the policy, the mitigations
/// and the profile are those of the host request, and so are the arguments, the time and the limits.
pub proof fn guest_requests_ask_for_what_the_host_was_asked(
    draft: &GuestRunRequest,
    request: &SandboxRequest,
    plan: &HyperVNetworkPlan,
    run_id: Seq<char>,
    target_sha256: Option<String>,
)
    requires
        drafted(draft, request, plan, run_id, target_sha256),
    ensures
        draft.mitigation_profile == GuestMitigationProfile::Compatible
            <==> request.mitigation_profile == MitigationProfile::Compatible,
        draft.mitigation_profile == GuestMitigationProfile::Strict <==> request.mitigation_profile
            == MitigationProfile::Strict,
        draft.mitigation_profile == GuestMitigationProfile::Maximum <==> request.mitigation_profile
            == MitigationProfile::Maximum,
        draft.execution_profile == GuestExecutionProfile::Restricted
            <==> request.hyperv_guest_profile == HyperVGuestProfile::Restricted,
        draft.execution_profile == GuestExecutionProfile::Normal <==> request.hyperv_guest_profile
            == HyperVGuestProfile::Normal,
        draft.execution_profile == GuestExecutionProfile::Admin <==> request.hyperv_guest_profile
            == HyperVGuestProfile::Admin,
        draft.network_policy == GuestNetworkPolicy::DenyAll <==> request.network_policy is DenyAll,
        draft.network_policy == GuestNetworkPolicy::HostServer <==> request.network_policy
            is HostServer,
        draft.network_policy == GuestNetworkPolicy::AllowList <==> request.network_policy
            is AllowList,
        draft.network_policy == GuestNetworkPolicy::AllowInternet <==> request.network_policy
            is AllowInternet,
        draft.network_policy == GuestNetworkPolicy::CaptureOnly <==> request.network_policy
            is CaptureOnly,
        draft.run_id@ == run_id,
        draft.target_sha256 == target_sha256,
        draft.arguments@ == request.arguments@,
        draft.timeout_seconds == request.timeout_secs,
        draft.resource_limits.active_process_limit == request.resource_limits.active_process_limit,
        draft.resource_limits.process_memory_bytes == request.resource_limits.process_memory_bytes,
        draft.resource_limits.job_memory_bytes == request.resource_limits.job_memory_bytes,
        draft.resource_limits.cpu_rate_percent == request.resource_limits.cpu_rate_percent,
        draft.protocol_version == PROTOCOL_VERSION,
        draft.shutdown_when_complete,
{
}

/// The guest is told every allowed network, each by the text of its address and prefix length, in
/// their order; without an allow list it is told none.
pub proof fn allowed_networks_are_all_told(
    draft: &GuestRunRequest,
    request: &SandboxRequest,
    plan: &HyperVNetworkPlan,
    run_id: Seq<char>,
    target_sha256: Option<String>,
)
    requires
        drafted(draft, request, plan, run_id, target_sha256),
    ensures
        request.network_policy matches NetworkPolicy::AllowList(entries) ==> {
            &&& draft.allowed_networks@.len() == entries@.len()
            &&& forall|k: int|
                0 <= k < entries@.len() ==> (#[trigger] draft.allowed_networks@[k])@
                    == backend::network_text(entries@[k]@)
        },
        !(request.network_policy is AllowList) ==> draft.allowed_networks@.len() == 0,
{
    let told = draft.allowed_networks@;
    assert(text::views(told).len() == told.len());
    match request.network_policy {
        NetworkPolicy::AllowList(entries) => {
            assert forall|k: int| 0 <= k < entries@.len() implies (#[trigger] told[k])@
                == backend::network_text(entries@[k]@) by {
                assert(text::views(told)[k] == network_texts(entries@)[k]);
            }
        },
        _ => {},
    }
}

/// The guest sets up the interface that was planned: none without a network; otherwise the planned
/// address, prefix, gateway and resolvers, and the host's service exactly in the mode that serves it.
pub proof fn guest_interfaces_are_the_planned_ones(
    draft: &GuestRunRequest,
    request: &SandboxRequest,
    plan: &HyperVNetworkPlan,
    run_id: Seq<char>,
    target_sha256: Option<String>,
)
    requires
        drafted(draft, request, plan, run_id, target_sha256),
    ensures
        plan is DenyAll ==> draft.guest_ipv4 is None && draft.prefix_length is None
            && draft.gateway_ipv4 is None && draft.dns_servers@.len() == 0
            && draft.host_service_ipv4 is None && draft.host_service_port is None,
        plan matches HyperVNetworkPlan::Controlled(controlled) ==> {
            &&& draft.guest_ipv4 == controlled.guest_ipv4
            &&& draft.prefix_length == Some(controlled.prefix_length)
            &&& draft.gateway_ipv4 == controlled.gateway_ipv4
            &&& draft.dns_servers@ == controlled.dns_servers@
            &&& controlled.network_mode == ControlledNetworkMode::HostServer
                ==> draft.host_service_ipv4 == Some(controlled.host_ipv4) && draft.host_service_port
                == controlled.host_service_port
            &&& controlled.network_mode == ControlledNetworkMode::External
                ==> draft.host_service_ipv4 is None && draft.host_service_port is None
        },
{
}

/// A sound host request without a network is one that the guest takes.
pub proof fn sound_requests_without_a_network_are_sent(
    draft: &GuestRunRequest,
    request: &SandboxRequest,
    run_id: Seq<char>,
    target_sha256: String,
)
    requires
        drafted(draft, request, &HyperVNetworkPlan::DenyAll, run_id, Some(target_sha256)),
        request.network_policy is DenyAll,
        guest_protocol::valid_run_id(run_id),
        guest_protocol::valid_sha256(target_sha256@),
        guest_protocol::arguments_verdict(request.arguments@) is Ok,
        1 <= request.timeout_secs <= 3600,
        request.hyperv_guest_profile == HyperVGuestProfile::Restricted || request.mitigation_profile
            == MitigationProfile::Compatible,
        1 <= request.resource_limits.active_process_limit <= 1024,
        1 <= request.resource_limits.process_memory_bytes
            <= request.resource_limits.job_memory_bytes <= 68_719_476_736,
        1 <= request.resource_limits.cpu_rate_percent <= 100,
        guest_protocol::wire_path_verdict(draft.target@) is Ok,
        text::begins(draft.target@, "input/"@),
    ensures
        draft.verdict() is Ok,
{
    guest_protocol::accepted_requests(draft);
    guest_protocol::accepted_interfaces(draft);
    guest_protocol::resource_limits_are_bounded(draft.resource_limits);
    guest_requests_ask_for_what_the_host_was_asked(
        draft,
        request,
        &HyperVNetworkPlan::DenyAll,
        run_id,
        Some(target_sha256),
    );
    allowed_networks_are_all_told(
        draft,
        request,
        &HyperVNetworkPlan::DenyAll,
        run_id,
        Some(target_sha256),
    );
}

proof fn lemma_file_observations(observations: Seq<FileObservation>, from: int)
    requires
        0 <= from,
    ensures
        file_observations_verdict(observations, from) is Ok <==> (forall|k: int|
            from <= k < observations.len() ==> file_observation_verdict(
                &#[trigger] observations[k],
            ) is Ok),
    decreases observations.len() - from,
{
    if from < observations.len() {
        lemma_file_observations(observations, from + 1);
    }
}

/// A file observation names a path of at most 4096 bytes and a kind of at most 128, a digest is
/// hexadecimal, and the source of a digest is named only together with one.
pub proof fn accepted_file_observations(observation: &FileObservation)
    ensures
        file_observation_verdict(observation) is Ok <==> {
            &&& guest_protocol::small_field(observation.relative_path@, 4096)
            &&& guest_protocol::small_field(observation.kind@, 128)
            &&& observation.sha256 is Some ==> guest_protocol::valid_sha256(
                observation.sha256->0@,
            )
            &&& observation.hash_source is Some ==> observation.sha256 is Some
                && guest_protocol::small_field(observation.hash_source->0@, 128)
        },
        file_observation_verdict(observation) matches Err(fault) ==> fault.stage == "hyperv_result"@,
{
}

/// A result is believed exactly where it comes from the pinned image, ended by itself or by its time,
/// and says that it ran as it was asked to: in a restricted process at low integrity, at untrusted
/// integrity with the strongest mitigations; natively at medium integrity as a normal user; natively
/// at system integrity as an administrator; under the policy and the mitigations of the request; with
/// nothing mapped in, its own cleanup attempted, its counts within bounds, and every capture asked for
/// and either made or explained.
pub proof fn believed_results(
    envelope: &GuestResultEnvelope<SandboxRunResult>,
    request: &SandboxRequest,
    expected_image: Seq<char>,
)
    ensures
        guest_result_verdict(envelope, request, expected_image) is Ok <==> {
            &&& envelope.guest_image_version@ == expected_image
            &&& envelope.outcome == GuestTerminalOutcome::Completed || envelope.outcome
                == GuestTerminalOutcome::TimedOut
            &&& envelope.execution is Some
            &&& ({
                let execution = envelope.execution->0;
                &&& request.hyperv_guest_profile == HyperVGuestProfile::Restricted
                    ==> execution.backend@ == "restricted_process"@
                    && if request.mitigation_profile == MitigationProfile::Maximum {
                    execution.integrity_level@ == "untrusted"@
                } else {
                    execution.integrity_level@ == "low"@
                }
                &&& request.hyperv_guest_profile == HyperVGuestProfile::Normal ==> execution.backend@
                    == "guest_native"@ && execution.integrity_level@ == "medium"@
                &&& request.hyperv_guest_profile == HyperVGuestProfile::Admin ==> execution.backend@
                    == "guest_native"@ && execution.integrity_level@ == "system"@
                &&& execution.mitigation_profile@ == match request.mitigation_profile {
                    MitigationProfile::Compatible => "compatible"@,
                    MitigationProfile::Strict => "strict"@,
                    MitigationProfile::Maximum => "maximum"@,
                }
                &&& execution.network_policy@ == match request.network_policy {
                    NetworkPolicy::DenyAll => "deny_all"@,
                    NetworkPolicy::HostServer => "host_server"@,
                    NetworkPolicy::AllowList(_) => "allow_list"@,
                    NetworkPolicy::AllowInternet => "allow_internet"@,
                    NetworkPolicy::CaptureOnly => "capture_only"@,
                }
                &&& execution.timed_out <==> envelope.outcome == GuestTerminalOutcome::TimedOut
                &&& execution.mapped_paths@.len() == 0
                &&& execution.cleanup.attempted
                &&& execution.cleanup.leftover_resources@.len() <= 128
                &&& execution.cleanup.warnings@.len() <= 256
                &&& execution.stdout_capture.bytes_stored <= execution.stdout_capture.bytes_seen
                &&& execution.stdout_capture.truncated || execution.stdout_capture.bytes_stored
                    == execution.stdout_capture.bytes_seen
                &&& execution.stderr_capture.bytes_stored <= execution.stderr_capture.bytes_seen
                &&& execution.stderr_capture.truncated || execution.stderr_capture.bytes_stored
                    == execution.stderr_capture.bytes_seen
                &&& execution.processes@.len() <= 100_000
                &&& execution.network_connections@.len() <= 100_000
                &&& execution.file_observations@.len() <= 100_000
                &&& execution.registry_observations@.len() <= 100_000
                &&& execution.monitor_warnings@.len() <= 4096
                &&& forall|k: int|
                    0 <= k < execution.file_observations@.len() ==> file_observation_verdict(
                        &#[trigger] execution.file_observations@[k],
                    ) is Ok
            })
            &&& envelope.coverage.stdout.requested && (envelope.coverage.stdout.collected
                || envelope.coverage.stdout.warnings@.len() > 0)
            &&& envelope.coverage.stderr.requested && (envelope.coverage.stderr.collected
                || envelope.coverage.stderr.warnings@.len() > 0)
            &&& envelope.coverage.processes.requested && (envelope.coverage.processes.collected
                || envelope.coverage.processes.warnings@.len() > 0)
            &&& envelope.coverage.network.requested && (envelope.coverage.network.collected
                || envelope.coverage.network.warnings@.len() > 0)
            &&& envelope.coverage.filesystem.requested && (envelope.coverage.filesystem.collected
                || envelope.coverage.filesystem.warnings@.len() > 0)
            &&& envelope.coverage.registry.requested && (envelope.coverage.registry.collected
                || envelope.coverage.registry.warnings@.len() > 0)
        },
{
    match envelope.execution {
        Some(execution) => {
            lemma_file_observations(execution.file_observations@, 0);
        },
        None => {},
    }
}

/// Why a result is not believed: an agent that failed is quoted with its stage, code and message;
/// everything else is an error of the result itself, or of a run that was cancelled.
pub proof fn disbelieved_results_say_why(
    envelope: &GuestResultEnvelope<SandboxRunResult>,
    request: &SandboxRequest,
    expected_image: Seq<char>,
)
    requires
        envelope.guest_image_version@ == expected_image,
    ensures
        envelope.outcome == GuestTerminalOutcome::AgentFailed && envelope.error is Some
            ==> guest_result_verdict(envelope, request, expected_image) == Err::<(), backend::Fault>(
            backend::fault(
                "hyperv_guest_agent"@,
                envelope.error->0.stage@ + ":"@ + envelope.error->0.code@ + ": "@
                    + envelope.error->0.message@,
            ),
        ),
        envelope.outcome == GuestTerminalOutcome::Cancelled ==> (guest_result_verdict(
            envelope,
            request,
            expected_image,
        ) matches Err(fault) && fault.stage == "hyperv_guest_agent"@),
{
}

/// A final result is the guest's execution with the streams that the host collected, under the
/// host's own name; its warnings are all those of the execution, what the host observed, and all
/// those of the result, of every capture and of the guest's own file.
pub proof fn final_results_keep_what_was_reported(
    result: &SandboxRunResult,
    collected: &CollectedGuestOutput,
    observation: Seq<char>,
)
    requires
        is_final(result, collected, observation),
    ensures
        result.backend@ == "hyperv"@,
        result.stdout@ == collected.stdout@,
        result.stderr@ == collected.stderr@,
        collected.result.execution is Some,
        result.exit_code == collected.result.execution->0.exit_code,
        result.pid == collected.result.execution->0.pid,
        result.timed_out == collected.result.execution->0.timed_out,
        result.duration_ms == collected.result.execution->0.duration_ms,
        result.processes@ == collected.result.execution->0.processes@,
        result.network_connections@ == collected.result.execution->0.network_connections@,
        result.file_observations@ == collected.result.execution->0.file_observations@,
        result.registry_observations@ == collected.result.execution->0.registry_observations@,
        result.integrity_level@ == collected.result.execution->0.integrity_level@,
        !result.cleanup.attempted && !result.cleanup.success,
        final_warnings(collected, observation).len()
            == collected.result.execution->0.monitor_warnings@.len() + 1
            + collected.result.warnings@.len() + collected.result.coverage.stdout.warnings@.len()
            + collected.result.coverage.stderr.warnings@.len()
            + collected.result.coverage.processes.warnings@.len()
            + collected.result.coverage.network.warnings@.len()
            + collected.result.coverage.filesystem.warnings@.len()
            + collected.result.coverage.registry.warnings@.len() + collected.warnings@.len() + if
            collected.artifacts@.len() > 0 {
            1int
        } else {
            0int
        },
        result.monitor_warnings@[collected.result.execution->0.monitor_warnings@.len() as int]@
            == observation,
        forall|k: int|
            0 <= k < collected.result.execution->0.monitor_warnings@.len() ==> (
            #[trigger] result.monitor_warnings@[k])@
                == collected.result.execution->0.monitor_warnings@[k]@,
{
    let own = collected.result.execution->0.monitor_warnings@;
    let all = result.monitor_warnings@;
    let listed = final_warnings(collected, observation);
    assert(text::views(all).len() == all.len());
    assert(text::views(all)[own.len() as int] == listed[own.len() as int]);
    assert(listed[own.len() as int] == observation);
    assert forall|k: int| 0 <= k < own.len() implies (#[trigger] all[k])@ == own[k]@ by {
        assert(text::views(all)[k] == listed[k]);
        assert(listed[k] == text::views(own)[k]);
    }
}

/// A result of the host's own claims no process, no exit code, no output and no observation, and names
/// the policy and the profile of its request; it has timed out exactly where the machine did.
pub proof fn host_results_claim_nothing(
    result: &SandboxRunResult,
    request: &SandboxRequest,
    outcome: SyntheticOutcome,
    elapsed_ms: nat,
)
    requires
        is_synthetic(result, request, outcome, elapsed_ms),
    ensures
        result.backend@ == "hyperv"@,
        result.integrity_level@ == "guest_non_admin"@,
        result.network_policy@ == match request.network_policy {
            NetworkPolicy::DenyAll => "deny_all"@,
            NetworkPolicy::HostServer => "host_server"@,
            NetworkPolicy::AllowList(_) => "allow_list"@,
            NetworkPolicy::AllowInternet => "allow_internet"@,
            NetworkPolicy::CaptureOnly => "capture_only"@,
        },
        result.mitigation_profile@ == match request.mitigation_profile {
            MitigationProfile::Compatible => "compatible"@,
            MitigationProfile::Strict => "strict"@,
            MitigationProfile::Maximum => "maximum"@,
        },
        result.timed_out <==> outcome is HostVmTimeout,
        result.pid == 0,
        result.exit_code is None,
        result.processes@.len() == 0,
        result.network_connections@.len() == 0,
        result.file_observations@.len() == 0,
        result.registry_observations@.len() == 0,
        result.monitor_warnings@.len() == 1,
{
    assert(text::views(result.monitor_warnings@).len() == result.monitor_warnings@.len());
}

} // verus!
