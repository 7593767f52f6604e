use foxhole::host_path::HostPath;
use foxhole::hyperv::guest_protocol::{
    admit_bounded_bytes, admit_bounded_file, read_allowance, temporary_name, unix_timestamp_ms,
    validate_relative_wire_path, wire_path_to_native, ArtifactManifestEntry, BoundedWriter,
    CaptureCoverage, CaptureOptions, FileFacts, GuestExecutionProfile, GuestMitigationProfile,
    GuestNetworkPolicy, GuestResourceLimits, GuestResultEnvelope, GuestRunRequest,
    GuestTerminalOutcome, ObservationCoverage, ProtocolState, ProtocolStateMachine, StatusRecord,
    MAX_ARGUMENT_BYTES, MAX_REQUEST_BYTES, PROTOCOL_VERSION,
};
use foxhole::hyperv::protocol_files::{
    BoundedJson, JsonOutcome, Publication, PublishStep, ReadEvent, ReadStep,
};
use foxhole::net::Ipv4Addr;

fn request() -> GuestRunRequest {
    GuestRunRequest {
        protocol_version: PROTOCOL_VERSION,
        run_id: "01234567-abcd-4321-abcd-0123456789ab".to_string(),
        target: "input/target.exe".to_string(),
        target_sha256: Some("ab".repeat(32)),
        arguments: vec!["--example".to_string(), "value".to_string()],
        timeout_seconds: 30,
        network_policy: GuestNetworkPolicy::DenyAll,
        allowed_networks: Vec::new(),
        guest_ipv4: None,
        prefix_length: None,
        gateway_ipv4: None,
        dns_servers: Vec::new(),
        host_service_ipv4: None,
        host_service_port: None,
        mitigation_profile: GuestMitigationProfile::Strict,
        execution_profile: GuestExecutionProfile::Restricted,
        resource_limits: GuestResourceLimits::default(),
        capture: CaptureOptions::default(),
        shutdown_when_complete: false,
    }
}

fn status(run_id: &str, sequence: u64, state: ProtocolState) -> StatusRecord {
    let mut record = StatusRecord::new(run_id, sequence, state);
    record.request_sha256 = Some("ab".repeat(32));
    if matches!(state, ProtocolState::Completed | ProtocolState::ShutdownReady) {
        record.result_sha256 = Some("cd".repeat(32));
    }
    record
}

#[test]
fn well_formed_requests_pass_and_mixed_profiles_do_not() {
    request().validate().unwrap();
    let mut invalid = request();
    invalid.execution_profile = GuestExecutionProfile::Normal;
    invalid.mitigation_profile = GuestMitigationProfile::Strict;
    assert!(invalid.validate().is_err());
    invalid.mitigation_profile = GuestMitigationProfile::Compatible;
    assert!(invalid.validate().is_ok());
    assert_eq!(GuestExecutionProfile::default(), GuestExecutionProfile::Restricted);
}

#[test]
fn unsafe_wire_paths_are_rejected_on_every_host_os() {
    for path in [
        "",
        "../target.exe",
        "./target.exe",
        "/target.exe",
        r"C:\target.exe",
        "C:target.exe",
        r"\\server\share",
        r"\\?\C:\target.exe",
        "input\\target.exe",
        "input//target.exe",
        "input/target.exe/",
        "input/file:stream",
        "input/NUL.txt",
        "input/trailing.",
        "input/trailing ",
    ] {
        assert!(validate_relative_wire_path(path).is_err(), "unsafe path accepted: {path:?}");
    }
    assert!(validate_relative_wire_path("input/target.exe").is_ok());
}

#[test]
fn every_bounded_request_field_is_enforced() {
    let mut invalid = request();
    invalid.protocol_version += 1;
    assert!(invalid.validate().is_err());

    let mut invalid = request();
    invalid.timeout_seconds = 0;
    assert!(invalid.validate().is_err());

    let mut invalid = request();
    invalid.arguments = vec!["x".repeat(MAX_ARGUMENT_BYTES + 1)];
    assert!(invalid.validate().is_err());

    let mut invalid = request();
    invalid.allowed_networks = vec!["192.0.2.0/24".to_string()];
    assert!(invalid.validate().is_err());

    let mut valid = request();
    valid.network_policy = GuestNetworkPolicy::AllowList;
    valid.allowed_networks = vec!["192.0.2.0/24".to_string(), "2001:db8::/32".to_string()];
    assert!(valid.validate().is_ok());

    valid.allowed_networks[0] = "192.0.2.1/33".to_string();
    assert!(valid.validate().is_err());
}

#[test]
fn controlled_guest_addressing_is_strict_and_mode_specific() {
    let mut host = request();
    host.network_policy = GuestNetworkPolicy::HostServer;
    host.guest_ipv4 = Some(Ipv4Addr::new(192, 168, 250, 10));
    host.prefix_length = Some(24);
    host.host_service_ipv4 = Some(Ipv4Addr::new(192, 168, 250, 1));
    host.host_service_port = Some(8080);
    assert!(host.validate().is_ok());
    host.dns_servers.push(Ipv4Addr::new(1, 1, 1, 1));
    assert!(host.validate().is_err());

    let mut external = request();
    external.network_policy = GuestNetworkPolicy::AllowInternet;
    external.guest_ipv4 = Some(Ipv4Addr::new(192, 168, 250, 10));
    external.prefix_length = Some(24);
    external.gateway_ipv4 = Some(Ipv4Addr::new(192, 168, 250, 1));
    external.dns_servers.push(Ipv4Addr::new(1, 1, 1, 1));
    assert!(external.validate().is_ok());
    external.dns_servers[0] = Ipv4Addr::new(169, 254, 169, 254);
    assert!(external.validate().is_err());
}

#[test]
fn state_machine_supports_preapproved_and_live_start_orders() {
    let run_id = request().run_id;
    for states in [
        vec![
            ProtocolState::HostReady,
            ProtocolState::RequestWritten,
            ProtocolState::StartAllowed,
            ProtocolState::GuestReady,
            ProtocolState::Running,
            ProtocolState::Completed,
            ProtocolState::ShutdownReady,
        ],
        vec![
            ProtocolState::HostReady,
            ProtocolState::RequestWritten,
            ProtocolState::GuestReady,
            ProtocolState::StartAllowed,
            ProtocolState::Running,
            ProtocolState::Completed,
            ProtocolState::ShutdownReady,
        ],
    ] {
        let mut machine = ProtocolStateMachine::new(&run_id).unwrap();
        for (index, state) in states.into_iter().enumerate() {
            machine.observe(&status(&run_id, index as u64 + 1, state)).unwrap();
        }
    }
}

#[test]
fn state_machine_rejects_replay_wrong_run_and_missing_prerequisites() {
    let run_id = request().run_id;
    let mut machine = ProtocolStateMachine::new(&run_id).unwrap();
    assert!(machine.observe(&status(&run_id, 1, ProtocolState::Running)).is_err());
    machine.observe(&status(&run_id, 1, ProtocolState::HostReady)).unwrap();
    assert!(machine.observe(&status(&run_id, 2, ProtocolState::HostReady)).is_err());
    assert!(machine
        .observe(&status("different-run-id", 3, ProtocolState::RequestWritten))
        .is_err());
}

fn envelope() -> GuestResultEnvelope<u32> {
    let coverage = CaptureCoverage {
        requested: true,
        collected: true,
        complete: true,
        warnings: Vec::new(),
    };
    GuestResultEnvelope {
        protocol_version: PROTOCOL_VERSION,
        run_id: request().run_id,
        agent_version: "0.2.0".to_string(),
        guest_image_version: "1.0.0".to_string(),
        outcome: GuestTerminalOutcome::Completed,
        execution: Some(0),
        coverage: ObservationCoverage {
            stdout: coverage.clone(),
            stderr: coverage.clone(),
            processes: coverage.clone(),
            network: coverage.clone(),
            filesystem: coverage.clone(),
            registry: CaptureCoverage::unavailable(true, "not implemented"),
        },
        artifacts: vec![ArtifactManifestEntry {
            relative_path: "extracted/a.bin".to_string(),
            size_bytes: 1,
            sha256: "01".repeat(32),
            kind: "extracted_file".to_string(),
        }],
        warnings: Vec::new(),
        network_attestation: None,
        error: None,
    }
}

#[test]
fn manifest_rejects_case_duplicates_and_bad_totals() {
    let mut envelope = envelope();
    envelope.validate_metadata().unwrap();
    envelope.artifacts.push(ArtifactManifestEntry {
        relative_path: "EXTRACTED/A.BIN".to_string(),
        ..envelope.artifacts[0].clone()
    });
    assert!(envelope.validate_metadata().is_err());
}

#[test]
fn completed_results_carry_an_execution_and_no_error() {
    let mut incomplete = envelope();
    incomplete.execution = None;
    assert!(incomplete.validate_metadata().is_err());
    let mut oversized = envelope();
    oversized.artifacts[0].size_bytes = u64::MAX;
    assert!(oversized.validate_metadata().is_err());
}

#[test]
fn bounded_files_are_regular_and_do_not_grow() {
    let facts = FileFacts { regular: true, link: false, reparse_point: false, len: 10 };
    assert!(admit_bounded_file("f", &facts, MAX_REQUEST_BYTES).is_ok());
    assert_eq!(admit_bounded_file("f", &facts, 0).unwrap_err().code, "invalid_bound");
    assert_eq!(admit_bounded_file("f", &facts, 9).unwrap_err().code, "protocol_size");
    let linked = FileFacts { link: true, ..facts };
    assert_eq!(
        admit_bounded_file("f", &linked, 10).unwrap_err().message,
        "f is not a regular bounded protocol file"
    );
    let reparse = FileFacts { reparse_point: true, ..facts };
    assert_eq!(admit_bounded_file("f", &reparse, 10).unwrap_err().code, "protocol_io");
    assert!(admit_bounded_bytes("f", &facts, 10, 10).is_ok());
    assert!(admit_bounded_bytes("f", &facts, 10, 11).is_err());
    assert!(admit_bounded_bytes("f", &facts, 20, 9).is_err());
    assert_eq!(read_allowance(10), 11);
    assert_eq!(read_allowance(u64::MAX), u64::MAX);
}

#[test]
fn temporary_names_hide_beside_their_destination() {
    let path = HostPath::parse("/run/request.json");
    assert_eq!(
        temporary_name(&path, Some("request.json"), 1, 42, 7).unwrap(),
        ".request.json.42.7.tmp"
    );
    assert_eq!(
        temporary_name(&path, Some("request.json"), 0, 42, 7).unwrap_err().code,
        "invalid_bound"
    );
    assert_eq!(
        temporary_name(&HostPath::parse("/"), None, 1, 42, 7).unwrap_err().message,
        "protocol destination has no parent"
    );
    assert_eq!(
        temporary_name(&HostPath::parse("/run/.."), None, 1, 42, 7).unwrap_err().message,
        "protocol destination has no file name"
    );
}

#[test]
fn bounded_writers_never_exceed_their_limit() {
    let mut writer = BoundedWriter::new(8);
    assert!(writer.admits(8));
    writer.record(5);
    assert!(writer.admits(3));
    assert!(!writer.admits(4));
    writer.record(9);
    assert!(writer.admits(0));
    assert!(!writer.admits(1));
}

#[test]
fn wire_paths_become_native_below_their_root() {
    let path = wire_path_to_native(&HostPath::parse("/srv"), "input/target.bin").unwrap();
    assert_eq!(path.shown, "/srv/input/target.bin");
    assert!(path.is_within(&HostPath::parse("/srv")));
    assert!(wire_path_to_native(&HostPath::parse("/srv"), "../target.bin").is_err());
}

#[test]
fn timestamps_are_those_of_the_system_clock() {
    assert!(unix_timestamp_ms() > 1_577_836_800_000);
}

fn plain_file(len: u64) -> FileFacts {
    FileFacts { regular: true, link: false, reparse_point: false, len }
}

fn opened(len: u64) -> BoundedJson<u8> {
    let mut reading = BoundedJson::read_bounded_json("/run/f.json", 16).unwrap();
    reading.advance(ReadEvent::Inspected(Ok(plain_file(len))));
    reading.advance(ReadEvent::Opened(Ok(())));
    assert_eq!(reading.step, ReadStep::Read);
    reading
}

#[test]
fn values_are_read_from_bounded_files_only() {
    let unbounded = BoundedJson::<u8>::read_bounded_json("/run/f.json", 0).unwrap_err();
    assert_eq!(unbounded.to_string(), "invalid_bound: JSON byte limit must be non-zero");

    let mut reading = opened(4);
    reading.advance(ReadEvent::Read(Ok(4)));
    reading.advance(ReadEvent::Parsed(JsonOutcome::Value(9)));
    assert_eq!(reading.outcome.unwrap().unwrap(), 9);

    let mut reading = opened(4);
    reading.advance(ReadEvent::Read(Ok(5)));
    assert_eq!(
        reading.outcome.unwrap().unwrap_err().to_string(),
        "protocol_size: /run/f.json changed or grew beyond its byte limit"
    );

    let mut reading: BoundedJson<u8> =
        BoundedJson::read_bounded_json("/run/f.json", 16).unwrap();
    reading.advance(ReadEvent::Inspected(Ok(FileFacts { link: true, ..plain_file(1) })));
    assert_eq!(reading.step, ReadStep::Done);
    assert_eq!(reading.outcome.unwrap().unwrap_err().code, "protocol_size");

    let mut reading: BoundedJson<u8> =
        BoundedJson::read_bounded_json("/run/f.json", 16).unwrap();
    reading.advance(ReadEvent::Inspected(Err("absent".to_string())));
    assert_eq!(
        reading.outcome.unwrap().unwrap_err().to_string(),
        "protocol_io: inspect /run/f.json: absent"
    );
}

#[test]
fn malformed_and_trailing_data_are_refused() {
    let mut reading = opened(4);
    reading.advance(ReadEvent::Read(Ok(4)));
    reading.advance(ReadEvent::Parsed(JsonOutcome::Malformed("eof".to_string())));
    assert_eq!(
        reading.outcome.unwrap().unwrap_err().to_string(),
        "invalid_json: parse /run/f.json: eof"
    );
    let mut reading = opened(4);
    reading.advance(ReadEvent::Read(Ok(4)));
    reading.advance(ReadEvent::Parsed(JsonOutcome::TrailingData("more".to_string())));
    assert_eq!(
        reading.outcome.unwrap().unwrap_err().to_string(),
        "invalid_json: reject trailing data in /run/f.json: more"
    );
}

fn publication() -> Publication {
    let path = HostPath::parse("/run/status/ready.json");
    Publication::write_atomic_json_new(&path, Some("ready.json"), 8, 7, 3).unwrap()
}

#[test]
fn publications_link_a_flushed_temporary_file() {
    let mut run = publication();
    assert_eq!(run.temporary_name, ".ready.json.7.3.tmp");
    assert_eq!(run.temporary, "/run/status/.ready.json.7.3.tmp");
    let mut steps = Vec::new();
    while run.step != PublishStep::Done {
        steps.push(run.step);
        run.advance(Ok(()));
    }
    assert_eq!(
        steps,
        [
            PublishStep::Create,
            PublishStep::Write,
            PublishStep::Flush,
            PublishStep::Link,
            PublishStep::Remove
        ]
    );
    assert!(!run.discard);
    assert!(run.outcome.unwrap().is_ok());
}

#[test]
fn failed_publications_discard_their_temporary_file() {
    let mut run = publication();
    run.advance(Err("taken".to_string()));
    assert!(!run.discard);
    assert_eq!(
        run.outcome.unwrap().unwrap_err().to_string(),
        "protocol_io: create /run/status/.ready.json.7.3.tmp: taken"
    );

    let mut run = publication();
    run.advance(Ok(()));
    assert!(run.admits(8));
    run.record(5);
    assert!(!run.admits(4));
    run.advance(Err("too long".to_string()));
    assert!(run.discard);
    assert_eq!(
        run.outcome.unwrap().unwrap_err().to_string(),
        "protocol_json: serialize /run/status/ready.json: too long"
    );

    let mut run = publication();
    run.advance(Ok(()));
    run.advance(Ok(()));
    run.advance(Ok(()));
    run.advance(Err("exists".to_string()));
    assert!(run.discard);
    assert_eq!(
        run.outcome.unwrap().unwrap_err().to_string(),
        "protocol_publish: publish /run/status/ready.json without replacement: exists"
    );
}

#[test]
fn atomic_json_publication_is_bounded_and_never_overwrites() {
    let destination = HostPath::parse("/srv/atomic/request.json");
    let publish = |counter| {
        Publication::write_atomic_json_new(
            &destination,
            Some("request.json"),
            MAX_REQUEST_BYTES,
            1,
            counter,
        )
        .unwrap()
    };
    let mut first = publish(0);
    while first.step != PublishStep::Done {
        first.advance(Ok(()));
    }
    assert!(first.outcome.unwrap().is_ok());

    // The link to a destination that exists fails.
    let mut second = publish(1);
    while second.step != PublishStep::Link {
        second.advance(Ok(()));
    }
    second.advance(Err("File exists".to_string()));
    assert!(
        second.outcome.unwrap().is_err(),
        "a second publication must not replace the first"
    );
    assert!(second.discard);

    let oversized = HostPath::parse("/srv/atomic/oversized.json");
    let mut third =
        Publication::write_atomic_json_new(&oversized, Some("oversized.json"), 8, 1, 2).unwrap();
    third.advance(Ok(()));
    assert!(!third.admits(9));
    third.advance(Err("serialized protocol file exceeded its byte limit".to_string()));
    assert!(third.outcome.unwrap().is_err());
    assert!(third.discard);
}
