//! What is found out before a run touches the host: capability, target, base image and network
//! plan, and then the run directory.

use vstd::prelude::*;
use vstd::string::*;

use crate::backend;
use crate::backend::{BackendKind, SandboxError, SandboxRequest, SandboxResult};
use crate::host_path::HostPath;
use crate::hyperv::base_image::ValidatedBaseImage;
use crate::hyperv::capability;
use crate::hyperv::capability::CapabilityReport;
use crate::hyperv::config::HyperVConfig;
use crate::hyperv::network;
use crate::hyperv::network::{ControlledGatewayConfig, HyperVNetworkPlan};

verus! {

/// What was found out so far, in the order in which it is found out. Failures outside are held as
/// the text of their error.
#[derive(Debug)]
pub struct AdmissionObservations {
    pub capability: Option<SandboxResult<CapabilityReport>>,
    /// The target is held open; its length.
    pub target_len: Option<Result<u64, String>>,
    /// The path that the held target has.
    pub target_path: Option<Result<HostPath, String>>,
    pub target_sha256: Option<SandboxResult<String>>,
    pub base_image: Option<SandboxResult<ValidatedBaseImage>>,
    /// A random identifier for the run.
    pub run_id: Option<Result<String, String>>,
}

/// The next thing to find out.
#[derive(Clone, Copy, Debug, PartialEq, Eq, Structural)]
pub enum AdmissionStep {
    DetectCapability,
    PinTarget,
    ResolveTarget,
    HashTarget,
    ValidateBaseImage,
    GenerateRunId,
}

/// How far the admission of a run has come. An admitted run has its network plan.
#[derive(Debug)]
pub enum Admission {
    Failed(SandboxError),
    Need(AdmissionStep),
    DryRun(HyperVNetworkPlan),
    Live(HyperVNetworkPlan),
}

pub enum AdmissionView {
    Failed(backend::Fault),
    Need(AdmissionStep),
    DryRun,
    Live,
}

impl View for Admission {
    type V = AdmissionView;

    open spec fn view(&self) -> AdmissionView {
        match self {
            Admission::Failed(error) => AdmissionView::Failed(error@),
            Admission::Need(step) => AdmissionView::Need(*step),
            Admission::DryRun(_) => AdmissionView::DryRun,
            Admission::Live(_) => AdmissionView::Live,
        }
    }
}

pub open spec fn prepare_fault(message: Seq<char>) -> backend::Fault {
    backend::fault("hyperv_prepare"@, message)
}

pub open spec fn prepare_fault_from(message: Seq<char>, source: Seq<char>) -> backend::Fault {
    backend::fault_from("hyperv_prepare"@, message, source)
}

fn prepare_error_from(message: &str, source: &str) -> (error: SandboxError)
    ensures
        error@ == prepare_fault_from(message@, source@),
{
    SandboxError::with_source("hyperv_prepare", message, source)
}

/// A reference to the gateway, where there is one.
pub open spec fn gateway_of<'a>(config: &'a HyperVConfig) -> Option<&'a ControlledGatewayConfig> {
    match &config.controlled_gateway {
        Some(gateway) => Some(gateway),
        None => None,
    }
}

impl AdmissionObservations {
    /// Nothing was found out yet.
    pub fn new() -> (seen: AdmissionObservations)
        ensures
            seen == (AdmissionObservations {
                capability: None,
                target_len: None,
                target_path: None,
                target_sha256: None,
                base_image: None,
                run_id: None,
            }),
    {
        AdmissionObservations {
            capability: None,
            target_len: None,
            target_path: None,
            target_sha256: None,
            base_image: None,
            run_id: None,
        }
    }

    /// First what was asked for, then what the host can do, then the target.
    pub open spec fn progress(
        &self,
        config: &HyperVConfig,
        request: &SandboxRequest,
        program_data: Option<&HostPath>,
    ) -> AdmissionView {
        match backend::both(config.verdict(), request.backend_verdict(BackendKind::HyperV)) {
            Err(error) => AdmissionView::Failed(error),
            Ok(_) => if request.mapped_paths@.len() > 0 {
                AdmissionView::Failed(
                    prepare_fault(
                        "Hyper-V mapped paths are not supported; copy approved inputs into the run package"@,
                    ),
                )
            } else {
                match self.capability {
                    None => AdmissionView::Need(AdmissionStep::DetectCapability),
                    Some(Err(error)) => AdmissionView::Failed(error@),
                    Some(Ok(report)) => match report.availability_verdict() {
                        Err(error) => AdmissionView::Failed(error),
                        Ok(_) => self.target_progress(config, request, program_data, &report),
                    },
                }
            },
        }
    }

    pub open spec fn target_progress(
        &self,
        config: &HyperVConfig,
        request: &SandboxRequest,
        program_data: Option<&HostPath>,
        report: &CapabilityReport,
    ) -> AdmissionView {
        match self.target_len {
            None => AdmissionView::Need(AdmissionStep::PinTarget),
            Some(Err(source)) => AdmissionView::Failed(
                prepare_fault_from("pin target for VM staging"@, source@),
            ),
            Some(Ok(len)) => match self.target_path {
                None => AdmissionView::Need(AdmissionStep::ResolveTarget),
                Some(Err(source)) => AdmissionView::Failed(
                    prepare_fault_from("resolve pinned target path"@, source@),
                ),
                Some(Ok(_)) => match self.target_sha256 {
                    None => AdmissionView::Need(AdmissionStep::HashTarget),
                    Some(Err(error)) => AdmissionView::Failed(error@),
                    Some(Ok(_)) => match self.base_image {
                        None => AdmissionView::Need(AdmissionStep::ValidateBaseImage),
                        Some(Err(error)) => AdmissionView::Failed(error@),
                        Some(Ok(_)) => self.plan_progress(
                            config,
                            request,
                            program_data,
                            report,
                            len,
                        ),
                    },
                },
            },
        }
    }

    /// The network plan, the run's identifier and its budget.
    pub open spec fn plan_progress(
        &self,
        config: &HyperVConfig,
        request: &SandboxRequest,
        program_data: Option<&HostPath>,
        report: &CapabilityReport,
        len: u64,
    ) -> AdmissionView {
        match network::plan_verdict(&request.network_policy, gateway_of(config), program_data) {
            Err(error) => AdmissionView::Failed(error),
            Ok(mode) => {
                let controls = if mode is Some {
                    report.network_verdict()
                } else {
                    Ok(())
                };
                match controls {
                    Err(error) => AdmissionView::Failed(error),
                    Ok(_) => match self.run_id {
                        None => AdmissionView::Need(AdmissionStep::GenerateRunId),
                        Some(Err(source)) => AdmissionView::Failed(
                            prepare_fault_from("generate run identifier"@, source@),
                        ),
                        Some(Ok(_)) => match config.capacity_verdict(len) {
                            Err(error) => AdmissionView::Failed(error),
                            Ok(_) => if request.dry_run {
                                AdmissionView::DryRun
                            } else {
                                AdmissionView::Live
                            },
                        },
                    },
                }
            },
        }
    }
}

/// A network plan that fits a request: made from the gateway for the mode that the policy asks for.
pub open spec fn plan_fits(
    plan: &HyperVNetworkPlan,
    config: &HyperVConfig,
    request: &SandboxRequest,
    program_data: Option<&HostPath>,
) -> bool {
    match plan {
        HyperVNetworkPlan::DenyAll => network::plan_verdict(
            &request.network_policy,
            gateway_of(config),
            program_data,
        ) == Ok::<Option<network::ControlledNetworkMode>, backend::Fault>(None),
        HyperVNetworkPlan::Controlled(controlled) => {
            &&& network::plan_verdict(&request.network_policy, gateway_of(config), program_data)
                == Ok::<Option<network::ControlledNetworkMode>, backend::Fault>(
                Some(controlled.network_mode),
            )
            &&& gateway_of(config) matches Some(gateway) && controlled.planned_from(
                gateway,
                controlled.network_mode,
            )
            &&& controlled.supported()
        },
    }
}

/// How far the admission of a run has come: failed, in need of one more observation, or admitted,
/// as a dry run or as a live one.
pub fn admit_run(
    config: &HyperVConfig,
    request: &SandboxRequest,
    program_data: Option<&HostPath>,
    seen: &AdmissionObservations,
) -> (progress: Admission)
    ensures
        progress@ == seen.progress(config, request, program_data),
        match progress {
            Admission::DryRun(plan) => plan_fits(&plan, config, request, program_data),
            Admission::Live(plan) => plan_fits(&plan, config, request, program_data),
            _ => true,
        },
{
    match config.validate() {
        Err(error) => {
            return Admission::Failed(error);
        },
        Ok(_) => {},
    }
    match request.validate_for_backend(BackendKind::HyperV) {
        Err(error) => {
            return Admission::Failed(error);
        },
        Ok(_) => {},
    }
    if request.mapped_paths.len() > 0 {
        return Admission::Failed(
            SandboxError::new(
                "hyperv_prepare",
                "Hyper-V mapped paths are not supported; copy approved inputs into the run package",
            ),
        );
    }
    let report = match &seen.capability {
        None => {
            return Admission::Need(AdmissionStep::DetectCapability);
        },
        Some(Err(error)) => {
            return Admission::Failed(error.duplicate());
        },
        Some(Ok(report)) => report,
    };
    match report.require_available() {
        Err(error) => Admission::Failed(error),
        Ok(_) => admit_target(config, request, program_data, seen, report),
    }
}

fn admit_target(
    config: &HyperVConfig,
    request: &SandboxRequest,
    program_data: Option<&HostPath>,
    seen: &AdmissionObservations,
    report: &CapabilityReport,
) -> (progress: Admission)
    ensures
        progress@ == seen.target_progress(config, request, program_data, report),
        match progress {
            Admission::DryRun(plan) => plan_fits(&plan, config, request, program_data),
            Admission::Live(plan) => plan_fits(&plan, config, request, program_data),
            _ => true,
        },
{
    let len: u64 = match &seen.target_len {
        None => {
            return Admission::Need(AdmissionStep::PinTarget);
        },
        Some(Err(source)) => {
            return Admission::Failed(
                prepare_error_from("pin target for VM staging", source.as_str()),
            );
        },
        Some(Ok(len)) => *len,
    };
    match &seen.target_path {
        None => {
            return Admission::Need(AdmissionStep::ResolveTarget);
        },
        Some(Err(source)) => {
            return Admission::Failed(
                prepare_error_from("resolve pinned target path", source.as_str()),
            );
        },
        Some(Ok(_)) => {},
    }
    match &seen.target_sha256 {
        None => {
            return Admission::Need(AdmissionStep::HashTarget);
        },
        Some(Err(error)) => {
            return Admission::Failed(error.duplicate());
        },
        Some(Ok(_)) => {},
    }
    match &seen.base_image {
        None => {
            return Admission::Need(AdmissionStep::ValidateBaseImage);
        },
        Some(Err(error)) => {
            return Admission::Failed(error.duplicate());
        },
        Some(Ok(_)) => {},
    }
    let gateway = match &config.controlled_gateway {
        Some(gateway) => Some(gateway),
        None => None,
    };
    let plan = match network::plan(&request.network_policy, gateway, program_data) {
        Ok(plan) => plan,
        Err(error) => {
            return Admission::Failed(error);
        },
    };
    let controlled = match &plan {
        HyperVNetworkPlan::Controlled(_) => true,
        HyperVNetworkPlan::DenyAll => false,
    };
    if controlled {
        match report.require_controlled_network_available() {
            Err(error) => {
                return Admission::Failed(error);
            },
            Ok(_) => {},
        }
    }
    match &seen.run_id {
        None => {
            return Admission::Need(AdmissionStep::GenerateRunId);
        },
        Some(Err(source)) => {
            return Admission::Failed(
                prepare_error_from("generate run identifier", source.as_str()),
            );
        },
        Some(Ok(_)) => {},
    }
    match config.check_data_capacity(len) {
        Err(error) => {
            return Admission::Failed(error);
        },
        Ok(_) => {},
    }
    if request.dry_run {
        Admission::DryRun(plan)
    } else {
        Admission::Live(plan)
    }
}

// ---------------------------------------------------------------------------------------------
// The run directory
// ---------------------------------------------------------------------------------------------

/// The work on the directory of a run, in order.
#[derive(Clone, Copy, Debug, PartialEq, Eq, Structural)]
pub enum DirectoryStep {
    VerifyVolume,
    PinRoot,
    HardenRoot,
    CreateRun,
    HardenRun,
    PinRun,
}

pub open spec fn directory_message(step: DirectoryStep) -> Seq<char> {
    match step {
        DirectoryStep::VerifyVolume => "Hyper-V run root must be on a fixed local volume"@,
        DirectoryStep::PinRoot => "create protected run root"@,
        DirectoryStep::HardenRoot => "harden Hyper-V run root"@,
        DirectoryStep::CreateRun => "create exclusive per-run directory"@,
        DirectoryStep::HardenRun => "harden per-run directory"@,
        DirectoryStep::PinRun => "pin per-run directory"@,
    }
}

pub open spec fn next_directory_step(step: DirectoryStep) -> Option<DirectoryStep> {
    match step {
        DirectoryStep::VerifyVolume => Some(DirectoryStep::PinRoot),
        DirectoryStep::PinRoot => Some(DirectoryStep::HardenRoot),
        DirectoryStep::HardenRoot => Some(DirectoryStep::CreateRun),
        DirectoryStep::CreateRun => Some(DirectoryStep::HardenRun),
        DirectoryStep::HardenRun => Some(DirectoryStep::PinRun),
        DirectoryStep::PinRun => None,
    }
}

/// The first work on the directory of a run, where its root is an absolute local path.
pub fn begin_directories(config: &HyperVConfig) -> (step: SandboxResult<DirectoryStep>)
    ensures
        backend::outcome(step) == match config.run_root.local_fault {
            Some(source) => Err(
                prepare_fault_from("Hyper-V run root must be an absolute local path"@, source@),
            ),
            None => Ok(DirectoryStep::VerifyVolume),
        },
{
    match &config.run_root.local_fault {
        Some(source) => Err(
            prepare_error_from("Hyper-V run root must be an absolute local path", source.as_str()),
        ),
        None => Ok(DirectoryStep::VerifyVolume),
    }
}

/// The next work on the directory of a run after the outcome of one; `None` when it is ready.
pub fn advance_directories(step: DirectoryStep, outcome: &Result<(), String>) -> (next: SandboxResult<
    Option<DirectoryStep>,
>)
    ensures
        backend::outcome(next) == match outcome {
            Err(source) => Err(prepare_fault_from(directory_message(step), source@)),
            Ok(_) => Ok(next_directory_step(step)),
        },
{
    match outcome {
        Err(source) => {
            let message = match step {
                DirectoryStep::VerifyVolume => "Hyper-V run root must be on a fixed local volume",
                DirectoryStep::PinRoot => "create protected run root",
                DirectoryStep::HardenRoot => "harden Hyper-V run root",
                DirectoryStep::CreateRun => "create exclusive per-run directory",
                DirectoryStep::HardenRun => "harden per-run directory",
                DirectoryStep::PinRun => "pin per-run directory",
            };
            Err(prepare_error_from(message, source.as_str()))
        },
        Ok(_) => Ok(
            match step {
                DirectoryStep::VerifyVolume => Some(DirectoryStep::PinRoot),
                DirectoryStep::PinRoot => Some(DirectoryStep::HardenRoot),
                DirectoryStep::HardenRoot => Some(DirectoryStep::CreateRun),
                DirectoryStep::CreateRun => Some(DirectoryStep::HardenRun),
                DirectoryStep::HardenRun => Some(DirectoryStep::PinRun),
                DirectoryStep::PinRun => None,
            },
        ),
    }
}

// ---------------------------------------------------------------------------------------------
// Laws
// ---------------------------------------------------------------------------------------------

/// A run is admitted only with a valid configuration and request, on a host whose capability was
/// reported complete, with its target held and hashed, its base image validated and room on its
/// data disk; a networked run only where the host has the controls for it as well.
pub proof fn admitted_runs_passed_every_check(
    config: &HyperVConfig,
    request: &SandboxRequest,
    program_data: Option<&HostPath>,
    seen: &AdmissionObservations,
)
    requires
        seen.progress(config, request, program_data) is Live || seen.progress(
            config,
            request,
            program_data,
        ) is DryRun,
    ensures
        config.verdict() is Ok,
        request.backend_verdict(BackendKind::HyperV) is Ok,
        request.mapped_paths@.len() == 0,
        seen.capability matches Some(Ok(report)) && report.complete(),
        seen.target_sha256 matches Some(Ok(_)),
        seen.base_image matches Some(Ok(_)),
        seen.run_id matches Some(Ok(_)),
        seen.target_len matches Some(Ok(len)) && config.data_disk_bytes >= config.needed_data_bytes(
            len,
        ),
        seen.progress(config, request, program_data) is DryRun <==> request.dry_run,
{
}

/// A run goes on to be prepared exactly where nothing speaks against it: configuration and request
/// are accepted and map nothing in, Hyper-V is there, the target was pinned, resolved and hashed, the
/// image is valid, the policy can be planned and its commands are there, the run has an identifier,
/// and the data disk has room; then it is a dry run exactly where one was asked for.
pub proof fn runs_are_admitted_where_nothing_speaks_against_them(
    seen: AdmissionObservations,
    config: &HyperVConfig,
    request: &SandboxRequest,
    program_data: Option<&HostPath>,
)
    ensures
        ({
            let progress = seen.progress(config, request, program_data);
            let planned = network::plan_verdict(
                &request.network_policy,
                gateway_of(config),
                program_data,
            );
            &&& progress == AdmissionView::Live || progress == AdmissionView::DryRun <==> {
                &&& config.verdict() is Ok
                &&& request.backend_verdict(BackendKind::HyperV) is Ok
                &&& request.mapped_paths@.len() == 0
                &&& seen.capability is Some && seen.capability->0 is Ok
                &&& seen.capability->0->Ok_0.availability_verdict() is Ok
                &&& seen.target_len is Some && seen.target_len->0 is Ok
                &&& seen.target_path is Some && seen.target_path->0 is Ok
                &&& seen.target_sha256 is Some && seen.target_sha256->0 is Ok
                &&& seen.base_image is Some && seen.base_image->0 is Ok
                &&& planned is Ok
                &&& planned->Ok_0 is Some ==> seen.capability->0->Ok_0.network_verdict() is Ok
                &&& seen.run_id is Some && seen.run_id->0 is Ok
                &&& config.capacity_verdict(seen.target_len->0->Ok_0) is Ok
            }
            &&& progress == AdmissionView::DryRun ==> request.dry_run
            &&& progress == AdmissionView::Live ==> !request.dry_run
        }),
{
}

/// The directory of a run is made in six steps, each after the one before: the volume is looked at,
/// the root is pinned and hardened, the directory is created, hardened and pinned.
pub proof fn directories_are_made_in_order()
    ensures
        next_directory_step(DirectoryStep::VerifyVolume) == Some(DirectoryStep::PinRoot),
        next_directory_step(DirectoryStep::PinRoot) == Some(DirectoryStep::HardenRoot),
        next_directory_step(DirectoryStep::HardenRoot) == Some(DirectoryStep::CreateRun),
        next_directory_step(DirectoryStep::CreateRun) == Some(DirectoryStep::HardenRun),
        next_directory_step(DirectoryStep::HardenRun) == Some(DirectoryStep::PinRun),
        next_directory_step(DirectoryStep::PinRun) is None,
{
}

} // verus!
