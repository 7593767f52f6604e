use foxhole::backend::{
    BackendKind, BackendMetadata, BackendState, HyperVGuestProfile, NetworkPolicy, ReportStage,
    SandboxError, SandboxRequest, StageTimer,
};
use foxhole::clock::{unix_millis, unix_time_ms};
use foxhole::host_path::HostPath;
use foxhole::hyperv::admission::{
    admit_run, advance_directories, begin_directories, Admission, AdmissionObservations,
    AdmissionStep, DirectoryStep,
};
use foxhole::hyperv::backend::{
    preparation_failure, report_outcome, CleanupStart, ExecutionStart, HyperVBackend,
};
use foxhole::hyperv::base_image::{BaseImageManifest, ValidatedBaseImage};
use foxhole::hyperv::capability::CapabilityReport;
use foxhole::hyperv::cleanup::{CleanupEvent, CleanupOutcome, CleanupStep};
use foxhole::hyperv::config::{
    require_host_free_space, HyperVConfig, DEFAULT_DATA_DISK_BYTES, DEFAULT_OS_DISK_GROWTH_BYTES,
};
use foxhole::hyperv::data_disk::{DataDiskMount, DataDiskState};
use foxhole::hyperv::disk::VhdInfo;
use foxhole::hyperv::exchange::{
    build_guest_request, os_disk_quota_error, synthetic_result, validate_guest_result,
    SyntheticOutcome,
};
use foxhole::hyperv::execution::{Execution, ExecutionEvent, ExecutionStep};
use foxhole::hyperv::guest_protocol::{
    CaptureCoverage, GuestExecutionProfile, GuestResultEnvelope, GuestTerminalOutcome,
    ObservationCoverage, PROTOCOL_VERSION,
};
use foxhole::hyperv::journal::CleanupPhase;
use foxhole::hyperv::lifecycle::{LifeEvent, LifeStep, Lifecycle};
use foxhole::hyperv::network::{HyperVNetworkPlan, NetworkAttachment};
use foxhole::hyperv::observation::{ObservationEvent, ObservationStep, VmObservation};
use foxhole::hyperv::provisioning::{Generation, ProvisionEvent, ProvisionStep, Provisioning};
use foxhole::hyperv::result_collector::{
    CollectedGuestOutput, CollectionLimits, EntryFacts, PartialCollection,
};
use foxhole::hyperv::runtime::{
    checked_vhd_length, observe_status, vm_deadline_secs, wait_for_vm_completion,
    writable_disk_usage, DiskQuotaBreach, HostVmObservations, VmCompletion, WritableDiskQuota,
    MAX_VM_WRITABLE_DISK_BYTES,
};
use foxhole::hyperv::vm::{DiskAttachment, VmHandle, VmStatus};
use foxhole::structs::SandboxRunResult;

const RUN_ID: &str = "0123456789abcdef0123456789abcdef";

fn path(shown: &str) -> HostPath {
    HostPath::parse(shown)
}

fn hyperv_request() -> SandboxRequest {
    SandboxRequest::hyperv(path("sample.exe"))
}

#[test]
fn guest_request_uses_only_guest_relative_paths() {
    let guest = build_guest_request(
        &hyperv_request(),
        &HyperVNetworkPlan::DenyAll,
        "0123456789abcdef",
        Some("a".repeat(64)),
    )
    .unwrap();
    assert_eq!(guest.target, "input/target.bin");
    assert!(guest.shutdown_when_complete);
    assert!(!format!("{guest:?}").contains("sample.exe"));
}

#[test]
fn guest_request_preserves_approved_batch_extension() {
    let request = SandboxRequest::hyperv(path("sample.CMD"));
    let guest = build_guest_request(
        &request,
        &HyperVNetworkPlan::DenyAll,
        "0123456789abcdef",
        Some("a".repeat(64)),
    )
    .unwrap();
    assert_eq!(guest.target, "input/target.cmd");
    assert!(!guest.target.contains("sample"));
}

#[test]
fn guest_request_authenticates_each_execution_profile() {
    for (host, guest_profile) in [
        (HyperVGuestProfile::Restricted, GuestExecutionProfile::Restricted),
        (HyperVGuestProfile::Normal, GuestExecutionProfile::Normal),
        (HyperVGuestProfile::Admin, GuestExecutionProfile::Admin),
    ] {
        let mut request = hyperv_request();
        request.hyperv_guest_profile = host;
        let guest = build_guest_request(
            &request,
            &HyperVNetworkPlan::DenyAll,
            "0123456789abcdef",
            Some("a".repeat(64)),
        )
        .unwrap();
        assert_eq!(guest.execution_profile, guest_profile);
    }
}

#[test]
fn unusable_guest_requests_are_refused() {
    let error = build_guest_request(&hyperv_request(), &HyperVNetworkPlan::DenyAll, "..", None)
        .unwrap_err();
    assert_eq!(error.stage, "hyperv_guest_request");
}

#[test]
fn os_disk_quota_is_a_typed_execution_error() {
    let error = os_disk_quota_error(
        2 * 1024 * 1024,
        1024 * 1024,
        "preserved 1 bounded untrusted partial guest output file(s), 64 bytes total",
    );
    assert_eq!(error.stage, "hyperv_os_disk_quota");
    assert!(error.message.contains("exceeded"));
    assert!(error.message.contains("preserved 1"));
}

fn config() -> HyperVConfig {
    HyperVConfig {
        base_image_path: path("/tmp").join("base.vhdx"),
        base_manifest_path: path("/tmp").join("base.json"),
        run_root: path("/tmp").join("foxhole-quota-config"),
        processor_count: 2,
        startup_memory_bytes: 2 * 1024 * 1024 * 1024,
        data_disk_bytes: DEFAULT_DATA_DISK_BYTES,
        maximum_os_disk_growth_bytes: DEFAULT_OS_DISK_GROWTH_BYTES,
        boot_timeout_secs: 120,
        shutdown_grace_secs: 15,
        controlled_gateway: None,
        collection_limits: CollectionLimits::default(),
    }
}

#[test]
fn writable_disk_budget_is_five_gibibytes_in_aggregate() {
    let config = config();
    assert_eq!(
        config.data_disk_bytes + config.maximum_os_disk_growth_bytes,
        MAX_VM_WRITABLE_DISK_BYTES
    );
    assert!(config.validate().is_ok());

    let mut oversized = config;
    oversized.maximum_os_disk_growth_bytes += 1;
    assert!(oversized.validate().is_err());
}

#[test]
fn configurations_have_safe_defaults_and_exact_budgets() {
    let made =
        HyperVConfig::new(path("/i.vhdx"), path("/i.json"), Ok(path("/var/foxhole"))).unwrap();
    assert_eq!(made.run_root.shown, "/var/foxhole/hyperv/runs");
    assert_eq!(made.collection_limits, CollectionLimits::default());
    assert!(made.validate().is_ok());
    let error =
        HyperVConfig::new(path("/i.vhdx"), path("/i.json"), Err("denied".into())).unwrap_err();
    assert_eq!(
        error.to_string(),
        "hyperv_configuration: resolve protected Foxhole storage: denied"
    );

    let mut config = config();
    assert_eq!(config.required_free_bytes().unwrap(), 7 * 1024 * 1024 * 1024);
    assert!(config.check_data_capacity(0).is_ok());
    let room = config.data_disk_bytes
        - config.collection_limits.maximum_total_bytes
        - 128 * 1024 * 1024;
    assert!(config.check_data_capacity(room).is_ok());
    let error = config.check_data_capacity(room + 1).unwrap_err();
    assert!(error.message.contains(&format!("need at least {} bytes", config.data_disk_bytes + 1)));
    assert!(config
        .check_data_capacity(u64::MAX)
        .unwrap_err()
        .message
        .contains("calculation overflowed"));
    config.data_disk_bytes = u64::MAX;
    assert!(config.required_free_bytes().unwrap_err().message.contains("overflowed"));

    assert!(require_host_free_space(&Ok(10), 10).is_ok());
    assert_eq!(
        require_host_free_space(&Ok(9), 10).unwrap_err().message,
        "Hyper-V run volume has 9 available bytes but the configured disk budgets require 10"
    );
    assert!(require_host_free_space(&Err("gone".into()), 10).is_err());
}

#[test]
fn aggregate_writable_disk_usage_counts_both_vhdx_files() {
    let facts =
        EntryFacts { link: false, reparse_point: false, directory: false, regular: true, len: 6 };
    let os_bytes = checked_vhd_length(facts).unwrap();
    let data_bytes = checked_vhd_length(EntryFacts { len: 5, ..facts }).unwrap();
    let disk_quota = WritableDiskQuota { maximum_os_disk_bytes: 10, maximum_total_disk_bytes: 10 };
    let breach = writable_disk_usage(os_bytes, data_bytes, disk_quota)
        .unwrap()
        .expect("combined files exceed the aggregate limit");
    assert_eq!(breach.observed_bytes, 11);
    assert_eq!(breach.maximum_bytes, 10);
    assert!(writable_disk_usage(5, 5, disk_quota).unwrap().is_none());
    assert!(checked_vhd_length(EntryFacts { link: true, ..facts }).is_err());
}

#[test]
fn synthetic_results_never_claim_a_successful_exit() {
    let request = hyperv_request();
    let dry_run = synthetic_result(&request, SyntheticOutcome::DryRun, 2);
    assert_eq!(dry_run.exit_code, None);
    assert!(!dry_run.timed_out);
    assert!(dry_run.monitor_warnings.iter().any(|warning| warning.contains("not executed")));

    let host_timeout = synthetic_result(&request, SyntheticOutcome::HostVmTimeout, 2);
    assert_eq!(host_timeout.exit_code, None);
    assert!(host_timeout.timed_out);
    assert!(host_timeout
        .monitor_warnings
        .iter()
        .any(|warning| warning.contains("host VM deadline")));
    assert_eq!(host_timeout.duration_ms, 2);
}

// ---------------------------------------------------------------------------------------------
// The watch
// ---------------------------------------------------------------------------------------------

fn handle() -> VmHandle {
    VmHandle {
        id: "11111111-1111-1111-1111-111111111111".into(),
        name: format!("foxhole-{RUN_ID}"),
        generation: 2,
        state: "Off".into(),
        configuration_path: path("/srv/runs").join(RUN_ID).join("vm"),
    }
}

fn status(state: &str) -> VmStatus {
    VmStatus {
        exists: true,
        id: "11111111-1111-1111-1111-111111111111".into(),
        name: Some(format!("foxhole-{RUN_ID}")),
        state: state.into(),
        snapshot_count: 0,
        cpu_usage_percent: 7,
        memory_assigned_bytes: 9,
        uptime_ms: 11,
        health: "Ok".into(),
        heartbeat_enabled: true,
        heartbeat_primary_status: "OK".into(),
        heartbeat_secondary_status: "fine".into(),
    }
}

#[test]
fn machines_are_watched_within_their_policy() {
    let mut seen = HostVmObservations::default();
    assert!(!observe_status(&handle(), &status("Running"), 100, &mut seen).unwrap());
    assert!(observe_status(&handle(), &status("Off"), 100, &mut seen).unwrap());
    assert_eq!(
        seen.summary(),
        "host VM observations: maximum_cpu_percent=7, maximum_memory_bytes=9, maximum_uptime_ms=11, heartbeat_enabled=true, heartbeat_healthy_seen=true, latest_heartbeat_primary_status=\"OK\", latest_heartbeat_secondary_status=\"fine\""
    );
    assert!(observe_status(&handle(), &status("Running"), 8, &mut seen).is_err());
    let mut gone = status("Running");
    gone.exists = false;
    assert!(observe_status(&handle(), &gone, 100, &mut seen).is_err());
    let mut hostile = status("Running");
    hostile.health = "\u{1b}[2J".into();
    assert!(observe_status(&handle(), &hostile, 100, &mut seen).is_err());

    let breach = DiskQuotaBreach { observed_bytes: 11, maximum_bytes: 10 };
    assert!(matches!(
        wait_for_vm_completion(
            Ok(VmCompletion::PoweredOff(HostVmObservations::default())),
            Some(Ok(breach))
        ),
        Ok(VmCompletion::DiskQuotaExceeded { observed_bytes: 11, maximum_bytes: 10, .. })
    ));
    assert!(wait_for_vm_completion(
        Ok(VmCompletion::PoweredOff(HostVmObservations::default())),
        Some(Err(SandboxError::new("hyperv_runtime", "unreadable")))
    )
    .is_err());
    assert_eq!(vm_deadline_secs(30, 120, 15), 165);
    assert_eq!(vm_deadline_secs(u64::MAX, 120, 15), u64::MAX);
}

/// A watch that was told that the machine runs, and has yet to measure its disks.
fn watching_a_running_machine() -> VmObservation {
    let mut watch = VmObservation::observe_vm_completion(&handle(), 100);
    watch.advance(ObservationEvent::Interrupted(false));
    watch.advance(ObservationEvent::Status(Ok(status("Running"))));
    assert_eq!(watch.step, ObservationStep::MeasureDisks);
    watch
}

#[test]
fn watches_end_with_the_machine_its_disks_or_its_time() {
    let mut watch = watching_a_running_machine();
    watch.advance(ObservationEvent::Measured(Ok(None)));
    watch.advance(ObservationEvent::Clock(false));
    assert_eq!(watch.step, ObservationStep::LookForInterrupt);
    watch.advance(ObservationEvent::Interrupted(false));
    let mut busy = status("Off");
    busy.cpu_usage_percent = 70;
    watch.advance(ObservationEvent::Status(Ok(busy)));
    match watch.outcome.unwrap().unwrap() {
        VmCompletion::PoweredOff(observations) => {
            assert_eq!(observations.maximum_cpu_percent, 70);
            assert_eq!(observations.maximum_memory_bytes, 9);
        }
        _ => panic!("the machine switched itself off"),
    }

    let mut watch = watching_a_running_machine();
    watch.advance(ObservationEvent::Measured(Ok(None)));
    watch.advance(ObservationEvent::Clock(true));
    assert!(matches!(watch.outcome.unwrap().unwrap(), VmCompletion::TimedOut(_)));

    let mut watch = watching_a_running_machine();
    let breach = DiskQuotaBreach { observed_bytes: 11, maximum_bytes: 10 };
    watch.advance(ObservationEvent::Measured(Ok(Some(breach))));
    assert!(matches!(
        watch.outcome.unwrap().unwrap(),
        VmCompletion::DiskQuotaExceeded { observed_bytes: 11, maximum_bytes: 10, .. }
    ));
}

#[test]
fn watches_are_broken_off_by_errors_and_interrupts() {
    let mut watch = VmObservation::observe_vm_completion(&handle(), 100);
    watch.advance(ObservationEvent::Interrupted(true));
    assert_eq!(
        watch.outcome.unwrap().unwrap_err().to_string(),
        "hyperv_runtime: sandbox run interrupted; cleanup will now run"
    );
    let mut watch = VmObservation::observe_vm_completion(&handle(), 100);
    watch.advance(ObservationEvent::Interrupted(false));
    watch.advance(ObservationEvent::Status(Ok(status("Paused"))));
    assert_eq!(
        watch.outcome.unwrap().unwrap_err().message,
        "disposable VM entered an unexpected or unhealthy state: Paused"
    );
    let mut watch = watching_a_running_machine();
    watch.advance(ObservationEvent::Measured(Err(SandboxError::new("hyperv_runtime", "gone"))));
    assert_eq!(watch.outcome.unwrap().unwrap_err().message, "gone");
}

// ---------------------------------------------------------------------------------------------
// Admission
// ---------------------------------------------------------------------------------------------

fn capability() -> CapabilityReport {
    CapabilityReport {
        available: true,
        platform_supported: true,
        hypervisor_present: true,
        feature_enabled: true,
        vmms_running: true,
        management_access: true,
        module_version: Some("1.0".into()),
        missing_cmdlets: Vec::new(),
        network_missing_cmdlets: Vec::new(),
        issues: Vec::new(),
    }
}

fn base_image() -> ValidatedBaseImage {
    ValidatedBaseImage {
        path: path("/images/base.vhdx"),
        manifest: BaseImageManifest {
            schema_version: 1,
            image_version: "1.0.0".into(),
            guest_protocol_version: PROTOCOL_VERSION,
            vm_generation: 2,
            secure_boot_template: "MicrosoftWindows".into(),
            sha256: "a".repeat(64),
            built_at_unix_secs: 1,
        },
    }
}

fn observations() -> AdmissionObservations {
    AdmissionObservations {
        capability: Some(Ok(capability())),
        target_len: Some(Ok(100)),
        target_path: Some(Ok(path("/samples/sample.exe"))),
        target_sha256: Some(Ok("ab".repeat(32))),
        base_image: Some(Ok(base_image())),
        run_id: Some(Ok(RUN_ID.to_string())),
    }
}

fn live_config() -> HyperVConfig {
    let mut config = config();
    config.run_root = path("/srv/runs");
    config
}

#[test]
fn runs_are_admitted_in_order() {
    let config = live_config();
    let request = hyperv_request();
    let mut seen = AdmissionObservations::new();
    let full = observations();
    let need = |seen: &AdmissionObservations| match admit_run(&config, &request, None, seen) {
        Admission::Need(step) => step,
        other => panic!("{other:?}"),
    };
    assert_eq!(need(&seen), AdmissionStep::DetectCapability);
    seen.capability = full.capability;
    assert_eq!(need(&seen), AdmissionStep::PinTarget);
    seen.target_len = full.target_len;
    assert_eq!(need(&seen), AdmissionStep::ResolveTarget);
    seen.target_path = full.target_path;
    assert_eq!(need(&seen), AdmissionStep::HashTarget);
    seen.target_sha256 = full.target_sha256;
    assert_eq!(need(&seen), AdmissionStep::ValidateBaseImage);
    seen.base_image = full.base_image;
    assert_eq!(need(&seen), AdmissionStep::GenerateRunId);
    seen.run_id = full.run_id;
    assert!(matches!(
        admit_run(&config, &request, None, &seen),
        Admission::Live(HyperVNetworkPlan::DenyAll)
    ));
    let mut dry = hyperv_request();
    dry.dry_run = true;
    assert!(matches!(admit_run(&config, &dry, None, &seen), Admission::DryRun(_)));
}

#[test]
fn refused_admissions_name_their_reason() {
    let config = live_config();
    let refusal = |request: &SandboxRequest, seen: &AdmissionObservations| {
        match admit_run(&config, request, None, seen) {
            Admission::Failed(error) => error.to_string(),
            other => panic!("{other:?}"),
        }
    };
    let mut seen = observations();
    seen.target_len = Some(Err("locked".into()));
    assert_eq!(
        refusal(&hyperv_request(), &seen),
        "hyperv_prepare: pin target for VM staging: locked"
    );
    let mut seen = observations();
    seen.target_path = Some(Err("moved".into()));
    assert_eq!(
        refusal(&hyperv_request(), &seen),
        "hyperv_prepare: resolve pinned target path: moved"
    );
    let mut seen = observations();
    seen.run_id = Some(Err("no entropy".into()));
    assert_eq!(
        refusal(&hyperv_request(), &seen),
        "hyperv_prepare: generate run identifier: no entropy"
    );
    let mut seen = observations();
    seen.target_len = Some(Ok(u64::MAX));
    assert!(refusal(&hyperv_request(), &seen).contains("calculation overflowed"));
    let mut networked = hyperv_request();
    networked.network_policy = NetworkPolicy::AllowInternet;
    assert!(refusal(&networked, &observations()).starts_with("hyperv_network: "));
    let mut seen = observations();
    seen.capability = Some(Ok(CapabilityReport::unsupported_platform()));
    assert!(refusal(&hyperv_request(), &seen).starts_with("hyperv_"));
    let mut short = live_config();
    short.processor_count = 0;
    assert!(matches!(
        admit_run(&short, &hyperv_request(), None, &observations()),
        Admission::Failed(_)
    ));
}

#[test]
fn run_directories_are_made_in_order() {
    let mut step = begin_directories(&live_config()).unwrap();
    let mut seen = vec![step];
    while let Some(next) = advance_directories(step, &Ok(())).unwrap() {
        seen.push(next);
        step = next;
    }
    assert_eq!(
        seen,
        [
            DirectoryStep::VerifyVolume,
            DirectoryStep::PinRoot,
            DirectoryStep::HardenRoot,
            DirectoryStep::CreateRun,
            DirectoryStep::HardenRun,
            DirectoryStep::PinRun
        ]
    );
    assert_eq!(
        advance_directories(DirectoryStep::CreateRun, &Err("exists".into()))
            .unwrap_err()
            .to_string(),
        "hyperv_prepare: create exclusive per-run directory: exists"
    );
}

// ---------------------------------------------------------------------------------------------
// Provisioning
// ---------------------------------------------------------------------------------------------

fn started(backend: &mut HyperVBackend) -> Provisioning {
    backend.begin_preparation().unwrap();
    backend
        .accept_live_run(hyperv_request(), HyperVNetworkPlan::DenyAll, observations())
        .unwrap()
        .unwrap()
}

fn answer(run: &Provisioning) -> ProvisionEvent {
    match run.step {
        ProvisionStep::Start => ProvisionEvent::Begin,
        ProvisionStep::Persist(_) | ProvisionStep::ReadBack => ProvisionEvent::Settled(Ok(())),
        ProvisionStep::QueryFreeSpace => ProvisionEvent::FreeSpace(Ok(u64::MAX)),
        ProvisionStep::CreateOsDisk => ProvisionEvent::OsDiskCreated(Ok(VhdInfo {
            path: run.os_spec.path.clone(),
            vhd_format: "VHDX".into(),
            vhd_type: "Differencing".into(),
            attached: false,
            parent_path: Some(run.os_spec.parent_path.clone()),
            size_bytes: 1,
            logical_sector_size: 512,
            disk_identifier: Some("os-identity".into()),
        })),
        ProvisionStep::CreateMountDirectory => ProvisionEvent::DirectoryMade(Ok(())),
        ProvisionStep::CreateDataDisk => ProvisionEvent::DataDiskCreated(Ok(mount(run))),
        ProvisionStep::StagePackage => ProvisionEvent::Staged(Ok("cd".repeat(32))),
        ProvisionStep::DismountDataDisk => ProvisionEvent::Dismounted(Ok(true)),
        ProvisionStep::CreateVm => ProvisionEvent::VmMade(Ok(handle())),
        ProvisionStep::AttachOsDisk => ProvisionEvent::Attached(Ok(DiskAttachment {
            path: run.os_spec.path.clone(),
            controller_number: 0,
            controller_location: 0,
        })),
        ProvisionStep::AttachDataDisk => ProvisionEvent::Attached(Ok(DiskAttachment {
            path: run.data_spec.path.clone(),
            controller_number: 0,
            controller_location: 1,
        })),
        ProvisionStep::ConfigureNetwork | ProvisionStep::VerifyNetwork => {
            ProvisionEvent::Attested(Ok(NetworkAttachment::default()))
        }
        step => panic!("unexpected step {step:?}"),
    }
}

fn mount(run: &Provisioning) -> DataDiskMount {
    DataDiskMount {
        path: run.data_spec.path.clone(),
        mount_path: run.data_spec.mount_path.clone(),
        disk_number: 1,
        partition_number: 1,
        disk_unique_id: "unique".into(),
        vhd_identifier: "identity".into(),
        label: "FOXHOLE_0123456789AB".into(),
        attached: true,
    }
}

fn provision_until(run: &mut Provisioning, step: ProvisionStep) {
    while run.step != step {
        assert!(
            run.step != ProvisionStep::Failed,
            "{:?}",
            run.failure.as_ref().map(|error| error.to_string())
        );
        let event = answer(run);
        run.advance(event);
    }
}

#[test]
fn provisioned_runs_are_ready_with_everything_recorded() {
    let mut backend = HyperVBackend::new(live_config(), None);
    let mut run = started(&mut backend);
    provision_until(&mut run, ProvisionStep::CreateOsDisk);
    assert_eq!(run.journal.os_disk.as_ref().unwrap().shown, format!("/srv/runs/{RUN_ID}/os-diff.vhdx"));
    provision_until(&mut run, ProvisionStep::CreateDataDisk);
    assert_eq!(run.journal.data_disk.as_ref().unwrap().state, DataDiskState::Planned);
    provision_until(&mut run, ProvisionStep::Ready);
    assert!(run.journal.vm.is_some());
    assert_eq!(run.journal.phase, CleanupPhase::VmCreated);
    assert_eq!(run.journal.data_disk.as_ref().unwrap().state, DataDiskState::Detached);
    assert_eq!(run.journal.sequence, 8);
    assert_eq!(run.guest_request.as_ref().unwrap().run_id, RUN_ID);
    backend.finish_preparation(run).unwrap();
    assert_eq!(backend.state(), BackendState::Ready);
}

#[test]
fn failed_writes_take_their_change_back() {
    let mut backend = HyperVBackend::new(live_config(), None);
    let mut run = started(&mut backend);
    provision_until(&mut run, ProvisionStep::Persist(Generation::VmCreated));
    assert_eq!(run.journal.sequence, 7);
    run.advance(ProvisionEvent::Settled(Err(SandboxError::new("disk", "full"))));
    assert_eq!(run.step, ProvisionStep::Failed);
    assert!(run.journal.vm.is_none());
    assert_eq!(run.journal.phase, CleanupPhase::Preparing);
    assert_eq!(run.journal.sequence, 6);
    let error = backend.finish_preparation(run).unwrap_err();
    assert_eq!(error.to_string(), "disk: full");
    assert_eq!(backend.state(), BackendState::Failed);
    match backend.begin_cleanup() {
        CleanupStart::Run(run) => assert_eq!(run.journal.sequence, 6),
        other => panic!("{other:?}"),
    }
}

#[test]
fn runs_that_never_read_their_journal_back_leave_nothing_to_clean() {
    let mut backend = HyperVBackend::new(live_config(), None);
    let mut run = started(&mut backend);
    provision_until(&mut run, ProvisionStep::ReadBack);
    run.advance(ProvisionEvent::Settled(Err(SandboxError::new("journal", "unreadable"))));
    assert!(backend.finish_preparation(run).is_err());
    assert!(matches!(backend.begin_cleanup(), CleanupStart::Nothing));
}

#[test]
fn provisioning_stops_at_the_first_mismatch() {
    let mut backend = HyperVBackend::new(live_config(), None);
    let mut run = started(&mut backend);
    provision_until(&mut run, ProvisionStep::CreateDataDisk);
    let mut wrong = mount(&run);
    wrong.label = "SOMETHING".into();
    run.advance(ProvisionEvent::DataDiskCreated(Ok(wrong)));
    assert_eq!(run.step, ProvisionStep::Failed);
    assert_eq!(run.failure.as_ref().unwrap().stage, "hyperv_data_disk");

    let mut backend = HyperVBackend::new(live_config(), None);
    let mut run = started(&mut backend);
    provision_until(&mut run, ProvisionStep::QueryFreeSpace);
    run.advance(ProvisionEvent::FreeSpace(Ok(1)));
    assert_eq!(run.failure.as_ref().unwrap().stage, "hyperv_configuration");
    assert!(run.journal.os_disk.is_none());

    let mut backend = HyperVBackend::new(live_config(), None);
    let mut run = started(&mut backend);
    provision_until(&mut run, ProvisionStep::CreateMountDirectory);
    run.advance(ProvisionEvent::DirectoryMade(Err("exists".into())));
    assert_eq!(
        run.failure.as_ref().unwrap().to_string(),
        "hyperv_prepare: create data-disk mount directory: exists"
    );

    let mut backend = HyperVBackend::new(live_config(), None);
    let mut run = started(&mut backend);
    run.advance(ProvisionEvent::Staged(Ok(String::new())));
    assert_eq!(run.step, ProvisionStep::Start);
}

// ---------------------------------------------------------------------------------------------
// Execution
// ---------------------------------------------------------------------------------------------

fn ready() -> HyperVBackend {
    let mut backend = HyperVBackend::new(live_config(), None);
    let mut run = started(&mut backend);
    provision_until(&mut run, ProvisionStep::Ready);
    backend.finish_preparation(run).unwrap();
    backend
}

fn executing(backend: &mut HyperVBackend) -> Execution {
    match backend.begin_execution(&hyperv_request()) {
        ExecutionStart::Run(run) => run,
        ExecutionStart::Refused(error) => panic!("{}", error.to_string()),
        ExecutionStart::Finished(_) => panic!("not a dry run"),
    }
}

fn watching(backend: &mut HyperVBackend) -> Execution {
    let mut run = executing(backend);
    run.advance(ExecutionEvent::Attested(Ok(NetworkAttachment::default())));
    assert_eq!(run.step, ExecutionStep::StartVm);
    run.advance(ExecutionEvent::Started(Ok(status("Running"))));
    assert_eq!(run.step, ExecutionStep::PersistRunning);
    assert_eq!(run.journal.phase, CleanupPhase::Running);
    run.advance(ExecutionEvent::Settled(Ok(())));
    assert_eq!(run.step, ExecutionStep::AwaitCompletion);
    run
}

fn remount(run: &Execution) -> DataDiskMount {
    let disk = run.journal.data_disk.as_ref().unwrap();
    DataDiskMount {
        path: disk.path.clone(),
        mount_path: disk.mount_path.clone(),
        disk_number: 1,
        partition_number: 1,
        disk_unique_id: "unique".into(),
        vhd_identifier: "identity".into(),
        label: "FOXHOLE_0123456789AB".into(),
        attached: true,
    }
}

fn coverage() -> CaptureCoverage {
    CaptureCoverage { requested: true, collected: true, complete: true, warnings: Vec::new() }
}

fn collected(timed_out: bool) -> CollectedGuestOutput {
    let request = hyperv_request();
    let mut execution = synthetic_result(&request, SyntheticOutcome::DryRun, 5);
    execution.backend = "restricted_process".into();
    execution.integrity_level = "low".into();
    execution.pid = 77;
    execution.exit_code = if timed_out { None } else { Some(0) };
    execution.timed_out = timed_out;
    execution.monitor_warnings = vec!["guest note".into()];
    execution.cleanup.attempted = true;
    execution.cleanup.success = true;
    CollectedGuestOutput {
        result: GuestResultEnvelope {
            protocol_version: PROTOCOL_VERSION,
            run_id: RUN_ID.into(),
            agent_version: "0.2.0".into(),
            guest_image_version: "1.0.0".into(),
            outcome: if timed_out {
                GuestTerminalOutcome::TimedOut
            } else {
                GuestTerminalOutcome::Completed
            },
            execution: Some(execution),
            coverage: ObservationCoverage {
                stdout: coverage(),
                stderr: coverage(),
                processes: coverage(),
                network: coverage(),
                filesystem: coverage(),
                registry: coverage(),
            },
            artifacts: Vec::new(),
            warnings: vec!["agent note".into()],
            network_attestation: None,
            error: None,
        },
        stdout: "out".into(),
        stderr: "err".into(),
        artifacts: Vec::new(),
        warnings: Vec::new(),
        total_bytes: 6,
    }
}

fn finish_collection(run: &mut Execution, output: CollectedGuestOutput) {
    run.advance(ExecutionEvent::Completed(Ok(VmCompletion::PoweredOff(
        HostVmObservations::default(),
    ))));
    assert_eq!(run.step, ExecutionStep::VerifyAfter);
    run.advance(ExecutionEvent::Attested(Ok(NetworkAttachment::default())));
    run.advance(ExecutionEvent::Settled(Ok(())));
    assert_eq!(run.step, ExecutionStep::MountData);
    run.advance(ExecutionEvent::Mounted(Ok(remount(run))));
    run.advance(ExecutionEvent::Settled(Ok(())));
    assert_eq!(run.step, ExecutionStep::Collect);
    run.advance(ExecutionEvent::Collected(Ok(output)));
    run.advance(ExecutionEvent::Dismounted(Ok(true)));
    assert_eq!(run.step, ExecutionStep::PersistDismount);
    run.advance(ExecutionEvent::Settled(Ok(())));
    assert_eq!(run.step, ExecutionStep::Done);
}

#[test]
fn completed_runs_give_the_guests_result() {
    assert!(
        validate_guest_result(&collected(false).result, &hyperv_request(), "1.0.0").is_ok(),
        "{:?}",
        validate_guest_result(&collected(false).result, &hyperv_request(), "1.0.0")
            .map_err(|error| error.to_string())
    );
    let mut backend = ready();
    let mut run = watching(&mut backend);
    finish_collection(&mut run, collected(false));
    let stages: Vec<String> = run.stages.iter().map(|stage| stage.stage.clone()).collect();
    assert_eq!(stages, ["observation", "timeout_or_completion", "artifact_collection"]);
    assert!(run.stages.iter().all(|stage| stage.start_time_unix_ms <= stage.end_time_unix_ms));
    let result = backend.finish_execution(run).unwrap();
    assert_eq!(backend.state(), BackendState::Completed);
    assert_eq!(result.backend, "hyperv");
    assert_eq!(result.stdout, "out");
    assert_eq!(result.pid, 77);
    assert_eq!(result.exit_code, Some(0));
    assert_eq!(result.monitor_warnings[0], "guest note");
    assert!(result.monitor_warnings[1].starts_with("host VM observations"));
    assert_eq!(result.monitor_warnings[2], "agent note");
}

#[test]
fn target_timeouts_are_told_from_host_deadlines() {
    let mut backend = ready();
    let mut run = watching(&mut backend);
    finish_collection(&mut run, collected(true));
    assert!(run.stages[1].warnings[0].contains("the host VM deadline did not expire"));
    assert!(backend.finish_execution(run).unwrap().timed_out);
}

#[test]
fn results_of_other_runs_or_images_are_refused() {
    let mut foreign = collected(false);
    foreign.result.run_id = "fedcba9876543210".into();
    let mut backend = ready();
    let mut run = watching(&mut backend);
    finish_collection(&mut run, foreign);
    let error = backend.finish_execution(run).unwrap_err();
    assert_eq!(error.message, "guest result run identifier does not match");
    assert_eq!(backend.state(), BackendState::Failed);

    let mut stale = collected(false);
    stale.result.guest_image_version = "0.9.0".into();
    let mut backend = ready();
    let mut run = watching(&mut backend);
    finish_collection(&mut run, stale);
    assert!(backend.finish_execution(run).is_err());
}

fn rescue(run: &mut Execution) {
    assert_eq!(run.step, ExecutionStep::ForceStop);
    run.advance(ExecutionEvent::Stopped(Ok(true)));
    run.advance(ExecutionEvent::Stopped(Ok(true)));
    run.advance(ExecutionEvent::Settled(Ok(())));
    run.advance(ExecutionEvent::Mounted(Ok(remount(run))));
    run.advance(ExecutionEvent::Settled(Ok(())));
    assert_eq!(run.step, ExecutionStep::CollectPartial);
    run.advance(ExecutionEvent::Rescued(Ok(PartialCollection {
        artifact_count: 2,
        total_bytes: 64,
    })));
    run.advance(ExecutionEvent::Dismounted(Ok(true)));
    run.advance(ExecutionEvent::Settled(Ok(())));
    assert_eq!(run.step, ExecutionStep::VerifyAfterStop);
}

#[test]
fn host_deadlines_stop_the_machine_and_keep_partial_output() {
    let mut backend = ready();
    let mut run = watching(&mut backend);
    run.advance(ExecutionEvent::Completed(Ok(VmCompletion::TimedOut(
        HostVmObservations::default(),
    ))));
    rescue(&mut run);
    run.advance(ExecutionEvent::Attested(Ok(NetworkAttachment::default())));
    let result = backend.finish_execution(run).unwrap();
    assert!(result.timed_out);
    assert_eq!(result.monitor_warnings.len(), 3);
    assert_eq!(
        result.monitor_warnings[2],
        "preserved 2 bounded untrusted partial guest output file(s), 64 bytes total"
    );
}

#[test]
fn quota_breaches_and_drift_are_errors() {
    let breach = || {
        Ok(VmCompletion::DiskQuotaExceeded {
            observed_bytes: 11,
            maximum_bytes: 10,
            observations: HostVmObservations::default(),
        })
    };
    let mut backend = ready();
    let mut run = watching(&mut backend);
    run.advance(ExecutionEvent::Completed(breach()));
    rescue(&mut run);
    run.advance(ExecutionEvent::Attested(Ok(NetworkAttachment::default())));
    assert!(!run.stages[0].success);
    assert_eq!(backend.finish_execution(run).unwrap_err().stage, "hyperv_os_disk_quota");

    let mut backend = ready();
    let mut run = watching(&mut backend);
    run.advance(ExecutionEvent::Completed(breach()));
    rescue(&mut run);
    run.advance(ExecutionEvent::Attested(Ok(NetworkAttachment {
        adapter_count: 1,
        ..NetworkAttachment::default()
    })));
    assert_eq!(run.stages[2].errors.len(), 1);
    assert_eq!(backend.finish_execution(run).unwrap_err().stage, "hyperv_containment_drift");
}

#[test]
fn failed_rescues_are_reported() {
    let mut backend = ready();
    let mut run = watching(&mut backend);
    run.advance(ExecutionEvent::Completed(Ok(VmCompletion::TimedOut(
        HostVmObservations::default(),
    ))));
    run.advance(ExecutionEvent::Stopped(Err(SandboxError::new("hyperv_vm", "refused"))));
    run.advance(ExecutionEvent::Stopped(Ok(false)));
    assert_eq!(run.step, ExecutionStep::VerifyAfterStop);
    run.advance(ExecutionEvent::Attested(Ok(NetworkAttachment::default())));
    assert_eq!(
        run.stages[2].errors,
        [
            "could not preserve partial guest output: hyperv_partial_collection: VM did not stop within the partial-output collection grace period",
            "force-stop request failed: hyperv_vm: refused"
        ]
    );
    assert!(backend.finish_execution(run).is_ok());
}

#[test]
fn errors_of_the_watch_stop_the_machine() {
    let mut backend = ready();
    let mut run = watching(&mut backend);
    run.advance(ExecutionEvent::Completed(Err(SandboxError::new("hyperv_runtime", "lost"))));
    assert_eq!(run.step, ExecutionStep::StopAfterError);
    run.advance(ExecutionEvent::Stopped(Err(SandboxError::new("hyperv_vm", "refused"))));
    run.advance(ExecutionEvent::Attested(Err(SandboxError::new("hyperv_network", "drift"))));
    assert_eq!(
        backend.finish_execution(run).unwrap_err().to_string(),
        "hyperv_containment_drift: hyperv_runtime: lost; post-run network containment also failed: hyperv_network: drift"
    );
}

// ---------------------------------------------------------------------------------------------
// The lifecycle
// ---------------------------------------------------------------------------------------------

#[test]
fn backends_prepare_once_and_execute_only_what_they_prepared() {
    let mut backend = HyperVBackend::new(live_config(), None);
    match backend.begin_execution(&hyperv_request()) {
        ExecutionStart::Refused(error) => {
            assert_eq!(error.message, "Hyper-V backend cannot execute from Created")
        }
        _ => panic!("executed without preparation"),
    }
    backend.begin_preparation().unwrap();
    assert_eq!(
        backend.begin_preparation().unwrap_err().message,
        "Hyper-V backend cannot prepare from Preparing"
    );
    backend.refuse_preparation();
    assert_eq!(backend.state(), BackendState::Failed);

    let mut backend = ready();
    let other = SandboxRequest::hyperv(path("other.exe"));
    match backend.begin_execution(&other) {
        ExecutionStart::Refused(error) => {
            assert_eq!(error.message, "execute request differs from prepared request")
        }
        _ => panic!("executed another request"),
    }
    assert_eq!(backend.state(), BackendState::Failed);
}

#[test]
fn dry_runs_end_at_once_and_own_nothing() {
    let mut backend = HyperVBackend::new(live_config(), None);
    assert!(backend.capability().script.contains("Get-VMHost"));
    backend.begin_preparation().unwrap();
    let mut request = hyperv_request();
    request.dry_run = true;
    backend.accept_dry_run(request.clone(), HyperVNetworkPlan::DenyAll, observations());
    let result = match backend.begin_execution(&request) {
        ExecutionStart::Finished(result) => result,
        _ => panic!("a dry run starts nothing"),
    };
    assert_eq!(result.exit_code, None);
    assert_eq!(backend.state(), BackendState::Completed);
    assert!(matches!(backend.begin_cleanup(), CleanupStart::Nothing));
    assert!(backend.finish_cleanup(CleanupOutcome::nothing_to_clean()).is_ok());
    assert!(matches!(backend.begin_cleanup(), CleanupStart::AlreadyFinished));
    assert!(backend.cleanup_outcome().success);
}

fn outcome(warnings: Vec<&str>) -> CleanupOutcome {
    CleanupOutcome {
        attempted: true,
        success: false,
        warnings: warnings.into_iter().map(|warning| warning.to_string()).collect(),
        leftover_resources: vec!["os_disk:/x".into()],
        removed_resources: Vec::new(),
    }
}

#[test]
fn unsuccessful_cleanups_are_errors() {
    let mut backend = ready();
    assert_eq!(
        backend.finish_cleanup(outcome(vec!["a", "b"])).unwrap_err().to_string(),
        "hyperv_cleanup: a; b"
    );
    let mut backend = ready();
    assert_eq!(
        backend.finish_cleanup(outcome(vec![])).unwrap_err().to_string(),
        "hyperv_cleanup: Hyper-V cleanup left resources behind"
    );
    let error = preparation_failure(
        SandboxError::new("hyperv_prepare", "no"),
        Some(SandboxError::new("hyperv_cleanup", "neither")),
    );
    assert_eq!(error.stage, "hyperv_preparation_and_cleanup");
    assert_eq!(error.message, "hyperv_prepare: no; cleanup also failed: hyperv_cleanup: neither");
    assert_eq!(
        preparation_failure(SandboxError::new("hyperv_prepare", "no"), None).message,
        "no"
    );
}

fn concluded(
    cleanup: CleanupOutcome,
) -> (HyperVBackend, SandboxRunResult, Result<(), SandboxError>) {
    let mut backend = ready();
    let mut run = watching(&mut backend);
    finish_collection(&mut run, collected(false));
    let result = backend.finish_execution(run).unwrap();
    assert!(matches!(backend.begin_cleanup(), CleanupStart::Run(_)));
    let verdict = backend.finish_cleanup(cleanup);
    (backend, result, verdict)
}

fn stage(name: &str) -> ReportStage {
    ReportStage::instant(name, true)
}

#[test]
fn reports_carry_every_stage_and_the_cleanup() {
    let (backend, result, verdict) = concluded(CleanupOutcome::nothing_to_clean());
    let run = backend
        .conclude(
            &hyperv_request(),
            Ok(result),
            verdict,
            ["request_validation", "preparation", "execution", "cleanup"].map(stage).to_vec(),
        )
        .unwrap();
    let names: Vec<&str> = run.stages.iter().map(|stage| stage.stage.as_str()).collect();
    assert_eq!(
        names,
        [
            "request_validation",
            "preparation",
            "execution",
            "observation",
            "timeout_or_completion",
            "artifact_collection",
            "cleanup"
        ]
    );
    assert!(run.result.cleanup.attempted);
    assert!(run.result.cleanup.success);
    assert_eq!(run.run_id, RUN_ID);
    assert_eq!(run.target_size_bytes, 100);
    match run.metadata {
        BackendMetadata::HyperV { vm_generation, secure_boot, network_mode, network, .. } => {
            assert_eq!(vm_generation, 2);
            assert!(secure_boot);
            assert_eq!(network_mode, "deny_all");
            assert!(network.pre_run_verification.is_some());
            assert!(network.post_run_verification.is_some());
        }
        _ => panic!("metadata of another backend"),
    }
}

#[test]
fn failed_cleanups_stay_in_the_report() {
    let (backend, result, verdict) = concluded(outcome(vec!["left"]));
    let run = backend
        .conclude(
            &hyperv_request(),
            Ok(result),
            verdict,
            ["a", "b", "c", "d"].map(stage).to_vec(),
        )
        .unwrap();
    assert!(!run.result.cleanup.success);
    assert_eq!(run.result.cleanup.warnings, ["hyperv_cleanup: left"]);
    assert_eq!(run.result.cleanup.leftover_resources, ["os_disk:/x"]);

    let (backend, _, verdict) = concluded(outcome(vec!["left"]));
    let error = backend
        .conclude(
            &hyperv_request(),
            Err(SandboxError::new("hyperv_runtime", "lost")),
            verdict,
            ["a", "b", "c", "d"].map(stage).to_vec(),
        )
        .unwrap_err();
    assert_eq!(
        error.to_string(),
        "hyperv_execution_and_cleanup: hyperv_runtime: lost; cleanup also failed: hyperv_cleanup: left"
    );
}

#[test]
fn lost_metadata_is_an_error() {
    let backend = HyperVBackend::new(live_config(), None);
    let error = backend
        .conclude(
            &hyperv_request(),
            Ok(synthetic_result(&hyperv_request(), SyntheticOutcome::DryRun, 1)),
            Ok(()),
            ["a", "b", "c", "d"].map(stage).to_vec(),
        )
        .unwrap_err();
    assert_eq!(error.to_string(), "hyperv_result: run identifier was not retained");
    let report = report_outcome(StageTimer::start("execution"), Vec::new(), Some(&error));
    assert!(!report.success);
    assert_eq!(report.errors, ["hyperv_result: run identifier was not retained"]);
    assert_eq!(hyperv_request().backend, BackendKind::HyperV);
}

#[test]
fn lives_end_with_a_cleanup() {
    let (backend, result, verdict) = concluded(CleanupOutcome::nothing_to_clean());
    let mut life = Lifecycle::start_with_request(&hyperv_request()).unwrap();
    assert_eq!(life.step, LifeStep::Prepare);
    life.advance(LifeEvent::Prepared(Ok(())));
    assert_eq!(life.step, LifeStep::Execute);
    life.advance(LifeEvent::Executed(Ok(result)));
    assert_eq!(life.step, LifeStep::Clean);
    life.advance(LifeEvent::Cleaned(verdict, vec!["slow".to_string()]));
    assert_eq!(life.step, LifeStep::Conclude);
    let run = life.conclude(backend, &hyperv_request()).unwrap();
    assert_eq!(run.stages[0].stage, "request_validation");
    assert_eq!(run.stages.last().unwrap().stage, "cleanup");
    assert_eq!(run.stages.last().unwrap().warnings, ["slow"]);
    assert!(run.stages.iter().all(|stage| stage.success));
    assert!(run.stages.iter().all(|stage| stage.start_time_unix_ms <= stage.end_time_unix_ms));
}

#[test]
fn stages_run_from_their_clocks() {
    let timer = StageTimer { start_time_unix_ms: u64::MAX, ..StageTimer::start("execution") };
    let report = report_outcome(timer, Vec::new(), None);
    assert_eq!(report.stage, "execution");
    assert_eq!(report.start_time_unix_ms, u64::MAX);
    assert_eq!(report.end_time_unix_ms, u64::MAX);
    assert!(report.duration_ms < 10_000);

    let mut life = Lifecycle::start_with_request(&hyperv_request()).unwrap();
    let begun = life.timer.start_time_unix_ms;
    life.advance(LifeEvent::Prepared(Ok(())));
    assert_eq!(life.stages[1].start_time_unix_ms, begun);
    assert!(life.stages[1].end_time_unix_ms >= begun);

    let mut backend = ready();
    let mut run = watching(&mut backend);
    let started = run.started;
    let timer = StageTimer { start_time_unix_ms: 7, ..StageTimer::start("observation") };
    run.observation_timer = Some(timer);
    let timer = StageTimer { start_time_unix_ms: 9, ..StageTimer::start("completion") };
    run.completion_timer = Some(timer);
    finish_collection(&mut run, collected(true));
    assert_eq!(run.started, started);
    assert_eq!(run.stages[0].start_time_unix_ms, 7);
    assert_eq!(run.stages[1].start_time_unix_ms, 9);
    assert!(run.stages[2].start_time_unix_ms > 9);
    assert!(run.stages.iter().all(|stage| stage.start_time_unix_ms <= stage.end_time_unix_ms));
}

#[test]
fn clocks_before_the_epoch_read_as_zero() {
    assert_eq!(unix_millis(None), 0);
    assert_eq!(unix_millis(Some(1_700_000_000_123)), 1_700_000_000_123);
    assert_eq!(unix_millis(Some(u128::MAX)), u64::MAX);
    assert!(unix_time_ms() > 1_000_000_000_000);
}

#[test]
fn failed_preparations_are_cleaned_up_after() {
    let mut life = Lifecycle::start_with_request(&hyperv_request()).unwrap();
    life.advance(LifeEvent::Prepared(Err(SandboxError::new("hyperv_prepare", "no"))));
    assert_eq!(life.step, LifeStep::CleanUnprepared);
    life.advance(LifeEvent::Executed(Err(SandboxError::new("hyperv_runtime", "early"))));
    assert_eq!(life.step, LifeStep::CleanUnprepared);
    let failed = Err(SandboxError::new("hyperv_cleanup", "neither"));
    life.advance(LifeEvent::Cleaned(failed, Vec::new()));
    assert_eq!(life.step, LifeStep::Conclude);
    let backend = HyperVBackend::new(live_config(), None);
    assert_eq!(
        life.conclude(backend, &hyperv_request()).unwrap_err().to_string(),
        "hyperv_preparation_and_cleanup: hyperv_prepare: no; cleanup also failed: hyperv_cleanup: neither"
    );
}

#[test]
fn failed_executions_are_reported_and_cleaned_up_after() {
    let mut life = Lifecycle::start_with_request(&hyperv_request()).unwrap();
    life.advance(LifeEvent::Prepared(Ok(())));
    life.advance(LifeEvent::Executed(Err(SandboxError::new("hyperv_runtime", "lost"))));
    assert_eq!(life.stages[2].errors, ["hyperv_runtime: lost"]);
    assert!(!life.stages[2].success);
    life.advance(LifeEvent::Cleaned(Ok(()), Vec::new()));
    let backend = HyperVBackend::new(live_config(), None);
    assert_eq!(
        life.conclude(backend, &hyperv_request()).unwrap_err().to_string(),
        "hyperv_runtime: lost"
    );
}

#[test]
fn requests_for_another_backend_never_begin() {
    let mut request = hyperv_request();
    request.backend = BackendKind::RestrictedProcess;
    assert!(Lifecycle::start_with_request(&request).is_err());
}

#[test]
fn runs_keep_the_paths_that_their_backend_was_made_with() {
    let mut backend = HyperVBackend::new(live_config(), Some(path("/srv/data")));
    let mut run = started(&mut backend);
    assert_eq!(run.program_data.as_ref().unwrap().shown, "/srv/data");
    assert_eq!(
        run.required_free_bytes.as_ref().unwrap(),
        &live_config().required_free_bytes().unwrap()
    );
    let root = format!("/srv/runs/{RUN_ID}");
    assert_eq!(run.vm_spec.configuration_path.shown, format!("{root}/vm"));
    assert_eq!(run.vm_spec.secure_boot_template, "MicrosoftWindows");
    for spec_root in [&run.os_spec.run_root, &run.data_spec.run_root, &run.vm_spec.run_root] {
        assert_eq!(spec_root.shown, root);
    }
    provision_until(&mut run, ProvisionStep::Persist(Generation::VmCreated));
    run.advance(ProvisionEvent::Settled(Err(SandboxError::new("disk", "full"))));
    backend.finish_preparation(run).unwrap_err();
    match backend.begin_cleanup() {
        CleanupStart::Run(run) => {
            assert_eq!(run.program_data.as_ref().unwrap().shown, "/srv/data")
        }
        other => panic!("{other:?}"),
    }
}

#[test]
fn second_cleanups_succeed_and_change_nothing() {
    let mut backend = ready();
    let run = match backend.begin_cleanup() {
        CleanupStart::Run(mut run) => {
            run.advance(CleanupEvent::Pinned(Err("denied".into())));
            assert_eq!(run.step, CleanupStep::Done);
            run
        }
        other => panic!("{other:?}"),
    };
    assert!(backend.cleanup(CleanupStart::Run(run)).is_err());
    assert_eq!(backend.state(), BackendState::Finished);
    let kept = backend.cleanup_outcome().clone();
    assert!(!kept.success);

    let again = backend.begin_cleanup();
    assert!(matches!(again, CleanupStart::AlreadyFinished));
    assert!(backend.cleanup(again).is_ok());
    assert_eq!(backend.state(), BackendState::Finished);
    assert_eq!(backend.cleanup_outcome(), &kept);

    let mut unused = HyperVBackend::new(live_config(), None);
    let nothing = unused.begin_cleanup();
    assert!(unused.cleanup(nothing).is_ok());
    assert!(unused.cleanup_outcome().success);
}
