use foxhole::host_path::HostPath;
use foxhole::hyperv::capability::{
    accept_report, controlled_network_cmdlets, required_cmdlets, CapabilityReport,
};
use foxhole::hyperv::detect_capability;
use foxhole::hyperv::powershell::{
    bounded_diagnostic, command_path, judge_completion, malformed_reply, parse_envelope,
    read_bounded, unsupported_host, watch_step, BoundedOutput, ChildStatus, Completion,
    PowerShellError, PowerShellInvocation, ResponseEnvelope, WatchAction,
};
use foxhole::hyperv::scripts::{
    CREATE_VM_SCRIPT, DETACH_VM_DISK_SCRIPT, DETECT_CAPABILITY_SCRIPT, REMOVE_PLANNED_VM_SCRIPT,
    REMOVE_VM_SCRIPT, STOP_VM_SCRIPT,
};
use foxhole::hyperv::vm;
use foxhole::hyperv::vm::{
    accept_attachment, accept_created, accept_query, accept_started, accept_stopped, detach_disk,
    stop, validate_spec, validate_vm_id, wait_for_off, DiskAttachment, DiskRole, VmHandle, VmSpec,
    VmStatus, MIN_STARTUP_MEMORY_BYTES,
};
use serde_json::Value;

fn path(shown: &str) -> HostPath {
    HostPath::parse(shown)
}

fn complete_report() -> CapabilityReport {
    CapabilityReport {
        available: true,
        platform_supported: true,
        hypervisor_present: true,
        feature_enabled: true,
        vmms_running: true,
        management_access: true,
        module_version: Some("1.0".into()),
        missing_cmdlets: Vec::new(),
        network_missing_cmdlets: Vec::new(),
        issues: Vec::new(),
    }
}

#[test]
fn inconsistent_or_failed_reports_fail_closed() {
    let mut report = complete_report();
    assert!(report.require_available().is_ok());
    report.vmms_running = false;
    assert!(report.require_available().is_err());
}

#[test]
fn unsupported_platform_names_every_missing_control() {
    let report = CapabilityReport::unsupported_platform();
    assert!(!report.available);
    assert!(!report.platform_supported);
    assert_eq!(report.missing_cmdlets.len(), required_cmdlets().len());
    assert!(report.require_available().is_err());
}

#[test]
fn native_probe_checks_every_cmdlet_used_by_the_host_modules() {
    for required in required_cmdlets().iter().chain(controlled_network_cmdlets().iter()) {
        assert!(
            DETECT_CAPABILITY_SCRIPT.contains(&format!("'{required}'")),
            "capability script omitted {required}"
        );
    }
}

#[test]
fn capability_detection_is_typed_and_cross_platform_with_a_fake_host() {
    let invocation = detect_capability();
    assert!(invocation.script.contains("Get-VMHost"));
    let mut report = complete_report();
    report.module_version = Some("10.0".into());
    accept_report(&report).unwrap();
    report.require_available().unwrap();
}

#[test]
fn networked_runs_need_their_own_cmdlets() {
    let mut report = complete_report();
    assert!(report.require_controlled_network_available().is_ok());
    report.network_missing_cmdlets.push("New-NetFirewallRule".into());
    assert!(report.require_controlled_network_available().is_err());
    assert!(report.require_available().is_ok());
}

#[test]
fn command_paths_remove_only_supported_windows_extended_prefixes() {
    assert_eq!(
        command_path(&path(r"\\?\C:\ProgramData\Foxhole\base.vhdx"), "test path").unwrap(),
        r"C:\ProgramData\Foxhole\base.vhdx"
    );
    assert_eq!(
        command_path(&path(r"\\?\UNC\server\share\base.vhdx"), "test path").unwrap(),
        r"\\server\share\base.vhdx"
    );
    assert!(command_path(&path(r"\\?\Volume{0123}\base.vhdx"), "test path").is_err());
}

#[test]
fn parses_only_successful_versioned_envelopes() {
    let envelope = |schema_version: u32, ok: bool, data: Option<i32>| ResponseEnvelope {
        schema_version,
        ok,
        data,
        error: None,
    };
    assert_eq!(parse_envelope("test", envelope(1, true, Some(42))).unwrap(), 42);
    assert!(parse_envelope("test", envelope(2, true, Some(0))).is_err());
    assert!(parse_envelope("test", envelope(1, true, None)).is_err());
    let refused: ResponseEnvelope<i32> = ResponseEnvelope {
        schema_version: 1,
        ok: false,
        data: None,
        error: Some(PowerShellError { code: "x".into(), message: "no".into() }),
    };
    assert!(parse_envelope("test", refused).is_err());
    assert_eq!(malformed_reply("test", "expected value").stage, "hyperv_powershell");
}

#[test]
fn bounded_reader_drains_but_reports_overflow() {
    let output = read_bounded(&b"0123456789"[..], 4);
    assert_eq!(output.stored, b"0123");
    assert_eq!(output.total, 10);
    assert!(output.overflowed);
}

#[test]
fn hostile_input_remains_json_data() {
    let input = Value::String("'; Remove-VM *; $(whoami)\n".to_string());
    let invocation = PowerShellInvocation::new("test", "'static script'", input);
    assert_eq!(invocation.script, "'static script'");
    assert!(serde_json::to_string(&invocation.input).unwrap().contains("Remove-VM"));
}

#[test]
fn native_executor_is_explicitly_unsupported_off_windows() {
    assert_eq!(unsupported_host("detect").stage, "hyperv_powershell");
}

#[test]
fn children_are_watched_until_they_end_or_time_out() {
    assert_eq!(watch_step(true, ChildStatus::Exited, true), WatchAction::Interrupt);
    assert_eq!(watch_step(false, ChildStatus::Exited, false), WatchAction::Collect);
    assert_eq!(watch_step(false, ChildStatus::Running, true), WatchAction::Pause);
    assert_eq!(watch_step(false, ChildStatus::Running, false), WatchAction::TimeOut);
    assert_eq!(watch_step(false, ChildStatus::Unknown, true), WatchAction::GiveUp);
}

fn output(bytes: &[u8]) -> BoundedOutput {
    BoundedOutput { stored: bytes.to_vec(), total: bytes.len(), overflowed: false }
}

#[test]
fn completions_are_judged() {
    let good = Completion {
        timed_out: false,
        success: true,
        exit_code: Some(0),
        stdout: output(b"{}"),
        stderr: output(b""),
    };
    assert!(judge_completion("probe", 1000, &good).is_ok());
    let late = Completion { timed_out: true, ..good.clone() };
    assert!(judge_completion("probe", 1000, &late).is_err());
    let failed = Completion {
        success: false,
        exit_code: Some(5),
        stderr: output(b"broken\xff pipe"),
        ..good.clone()
    };
    let error = judge_completion("probe", 1000, &failed).unwrap_err();
    assert!(error.to_string().contains("broken\u{fffd} pipe"), "{}", error.to_string());
    assert_eq!(bounded_diagnostic(b"plain"), "plain");
    let overflowed = Completion {
        stdout: BoundedOutput { stored: Vec::new(), total: 9, overflowed: true },
        ..good
    };
    assert!(judge_completion("probe", 1000, &overflowed).is_err());
}

#[test]
fn vm_spec_is_generation_two_and_resource_bounded() {
    let root = path("/tmp").join("foxhole-vm-spec");
    let mut spec = VmSpec::new("0123456789abcdef".into(), root, 2, MIN_STARTUP_MEMORY_BYTES);
    assert!(validate_spec(&spec).is_ok());
    spec.processor_count = 0;
    assert!(validate_spec(&spec).is_err());
    spec.processor_count = 2;
    spec.startup_memory_bytes = MIN_STARTUP_MEMORY_BYTES - 1;
    assert!(validate_spec(&spec).is_err());
}

#[test]
fn disk_roles_have_fixed_non_overlapping_scsi_slots() {
    assert_eq!(DiskRole::OperatingSystem.controller_location(), 0);
    assert_eq!(DiskRole::RunData.controller_location(), 1);
}

#[test]
fn vm_identifier_validation_rejects_command_text() {
    assert!(validate_vm_id("11111111-1111-1111-1111-111111111111").is_ok());
    assert!(validate_vm_id("'; Remove-VM *").is_err());
}

#[test]
fn disposable_vm_script_minimizes_host_integration_and_nested_attack_surface() {
    for required in [
        "-EnableHostResourceProtection $true",
        "-ExposeVirtualizationExtensions $false",
        "Remove-VMDvdDrive",
        "Disable-VMIntegrationService",
        "-EnableSecureBoot On",
        "-CheckpointType Disabled",
    ] {
        assert!(CREATE_VM_SCRIPT.contains(required), "missing {required}");
    }
    assert!(CREATE_VM_SCRIPT.contains("Name -ne 'Heartbeat'"));
}

fn handle() -> VmHandle {
    VmHandle {
        id: "11111111-1111-1111-1111-111111111111".into(),
        name: "foxhole-0123456789abcdef".into(),
        generation: 2,
        state: "Running".into(),
        configuration_path: path("/tmp/foxhole-vm-stop/vm"),
    }
}

#[test]
fn stop_binds_the_live_vm_to_recorded_name_generation_and_location() {
    let vm = handle();
    let reply: Value = serde_json::from_str("{\"stopped\":true,\"detached\":true}").unwrap();
    let invocation = stop(&vm, true).unwrap();
    assert!(accept_stopped(&reply).unwrap());
    assert_eq!(invocation.input.vm.vm_id, vm.id);
    assert_eq!(invocation.input.vm.expected_name, vm.name);
    assert!(!invocation.input.vm.expected_configuration_root.is_empty());
    assert!(invocation.input.force);
    for script in [STOP_VM_SCRIPT, DETACH_VM_DISK_SCRIPT] {
        assert!(script.contains("expected_name"));
        assert!(script.contains("expected_configuration_root"));
        assert!(script.contains("Generation"));
        assert!(script.contains("ConfigurationLocation"));
    }
    for script in [REMOVE_VM_SCRIPT, REMOVE_PLANNED_VM_SCRIPT] {
        assert!(script.contains("Generation"));
    }

    let disk = path("/tmp/foxhole-vm-stop/run-data.vhdx");
    let invocation = detach_disk(&vm, &disk).unwrap();
    assert!(vm::accept_detached(&reply).is_ok());
    assert_eq!(invocation.input.vm.vm_id, vm.id);
    assert_eq!(invocation.input.vm.expected_name, vm.name);
    assert!(!invocation.input.vm.expected_configuration_root.is_empty());
    assert_eq!(invocation.input.path, "/tmp/foxhole-vm-stop/run-data.vhdx");
}

#[test]
fn replies_are_believed_only_where_they_confirm() {
    let unclear: Value = serde_json::from_str("{}").unwrap();
    assert!(accept_stopped(&unclear).is_err());
    assert!(vm::accept_detached(&unclear).is_err());
    assert!(vm::accept_removed(&unclear).is_err());
    let still: Value = serde_json::from_str("{\"stopped\":false,\"removed\":true}").unwrap();
    assert!(!accept_stopped(&still).unwrap());
    assert!(vm::accept_removed(&still).is_ok());
    assert!(vm::accept_planned_removed(&still).is_ok());
}

fn status(state: &str) -> VmStatus {
    VmStatus {
        exists: true,
        id: "11111111-1111-1111-1111-111111111111".into(),
        name: Some("foxhole-0123456789abcdef".into()),
        state: state.into(),
        snapshot_count: 0,
        cpu_usage_percent: 1,
        memory_assigned_bytes: 1,
        uptime_ms: 1,
        health: "Ok".into(),
        heartbeat_enabled: true,
        heartbeat_primary_status: "OK".into(),
        heartbeat_secondary_status: String::new(),
    }
}

#[test]
fn machines_are_accepted_as_specified() {
    let root = path("/tmp/foxhole-vm-stop");
    let spec = VmSpec::new("0123456789abcdef".into(), root.clone(), 2, MIN_STARTUP_MEMORY_BYTES);
    let mut made = handle();
    assert!(accept_created(&spec, &made).is_err());
    made.state = "Off".into();
    assert!(accept_created(&spec, &made).is_ok());
    made.generation = 1;
    assert!(accept_created(&spec, &made).is_err());

    assert!(accept_started(&handle(), &status("Running")).is_ok());
    assert!(accept_started(&handle(), &status("Off")).is_err());
    let mut copied = status("Running");
    copied.snapshot_count = 1;
    assert!(accept_started(&handle(), &copied).is_err());
    assert!(accept_query(&handle().id, &status("Running")).is_ok());
    assert!(accept_query("22222222-2222-2222-2222-222222222222", &status("Running")).is_err());

    assert_eq!(wait_for_off(&status("Off"), false), Some(true));
    assert_eq!(wait_for_off(&status("Running"), false), None);
    assert_eq!(wait_for_off(&status("Running"), true), Some(false));

    let disk = root.join("run-data.vhdx");
    let mut place =
        DiskAttachment { path: disk.clone(), controller_number: 0, controller_location: 1 };
    assert!(accept_attachment(&place, &disk, DiskRole::RunData).is_ok());
    place.controller_location = 0;
    assert!(accept_attachment(&place, &disk, DiskRole::RunData).is_err());
}
