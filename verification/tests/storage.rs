use foxhole::backend::{SandboxError, SandboxRequest};
use foxhole::digest::{sha256_bytes, StreamDigest};
use foxhole::host_path::{directory_of, name_beside, HostPath, PathPart, PathStyle};
use foxhole::hyperv::base_image::{
    require_read_only_parent, validate, validate_config, validate_manifest, BaseImageConfig,
    BaseImageManifest, BaseImageProbe, ImageDigest, ImageObservations, ImageProgress, ImageStep,
    ManifestOutcome,
};
use foxhole::hyperv::data_disk;
use foxhole::hyperv::data_disk::{
    guest_target_path, seal_request, staged_records, DataDiskMount, DataDiskState, RunDataDiskSpec,
    StagedCopy, TargetFacts, MIN_DATA_DISK_BYTES, TARGET_GUEST_BATCH_PATH,
    TARGET_GUEST_COMMAND_PATH, TARGET_GUEST_PATH,
};
use foxhole::hyperv::disk::{
    create_differencing_disk, validate_created_disk, validate_owned_path, DeletionEvent,
    DeletionStep, DifferencingDiskSpec, DiskDeletion, VhdInfo,
};
use foxhole::hyperv::exchange::build_guest_request;
use foxhole::hyperv::guest_protocol::{GuestRunRequest, ProtocolState, ProtocolStateMachine};
use foxhole::hyperv::network::HyperVNetworkPlan;
use foxhole::hyperv::scripts::{DISMOUNT_DATA_DISK_SCRIPT, MOUNT_DATA_DISK_SCRIPT};
use foxhole::hyperv::staging::{StageEvent, StageStep, Staging};
use serde_json::Value;

fn path(shown: &str) -> HostPath {
    HostPath::parse(shown)
}

fn valid_manifest() -> BaseImageManifest {
    BaseImageManifest {
        schema_version: 1,
        image_version: "1.0.0".into(),
        guest_protocol_version: 1,
        vm_generation: 2,
        secure_boot_template: "MicrosoftWindows".into(),
        sha256: "a".repeat(64),
        built_at_unix_secs: 1,
    }
}

#[test]
fn manifest_validation_fails_closed() {
    let mut manifest = valid_manifest();
    assert!(validate_manifest(&manifest, 1).is_ok());
    manifest.vm_generation = 1;
    assert!(validate_manifest(&manifest, 1).is_err());
    manifest = valid_manifest();
    manifest.guest_protocol_version = 2;
    assert!(validate_manifest(&manifest, 1).is_err());
    manifest = valid_manifest();
    manifest.sha256 = "../not-a-hash".into();
    assert!(validate_manifest(&manifest, 1).is_err());
}

#[test]
fn config_requires_absolute_vhdx_paths() {
    let config = BaseImageConfig::new(path("base.vhdx"), path("base.json"));
    assert!(validate_config(&config).is_err());
    let config = BaseImageConfig::new(path("/tmp").join("base.vhd"), path("/tmp").join("base.json"));
    assert!(validate_config(&config).is_err());
}

fn image_step(progress: ImageProgress) -> ImageStep {
    match progress {
        ImageProgress::Need(step) => step,
        ImageProgress::Failed(error) => panic!("{}", error.to_string()),
        ImageProgress::Valid(_) => panic!("validated too early"),
    }
}

#[test]
fn base_images_are_validated_step_by_step() {
    let config = BaseImageConfig::new(path("/images/base.vhdx"), path("/images/base.json"));
    let mut image = StreamDigest::new();
    image.absorb(b"image");
    let digest = ImageDigest::of(image);
    let mut manifest = valid_manifest();
    manifest.sha256 = digest.sha256.clone();
    manifest.guest_protocol_version = config.required_guest_protocol_version;

    let mut seen = ImageObservations::new();
    assert_eq!(image_step(validate(&config, &seen)), ImageStep::VerifyVolume);
    seen.volume = Some(Ok(()));
    assert_eq!(image_step(validate(&config, &seen)), ImageStep::PinDirectories);
    seen.directories = Some(Ok(()));
    assert_eq!(image_step(validate(&config, &seen)), ImageStep::OpenImage);
    seen.image_len = Some(Ok(5));
    assert_eq!(image_step(validate(&config, &seen)), ImageStep::ResolvePath);
    seen.canonical = Some(Ok(path("/images/base.vhdx")));
    assert_eq!(image_step(validate(&config, &seen)), ImageStep::ReadAttributes);
    seen.read_only = Some(Ok(true));
    assert_eq!(image_step(validate(&config, &seen)), ImageStep::HashImage);
    seen.digest = Some(Ok(digest));
    assert_eq!(image_step(validate(&config, &seen)), ImageStep::OpenManifest);
    seen.manifest_len = Some(Ok(100));
    assert_eq!(image_step(validate(&config, &seen)), ImageStep::ReadManifest);
    seen.manifest_read = Some(Ok(100));
    assert_eq!(image_step(validate(&config, &seen)), ImageStep::ParseManifest);
    seen.manifest = Some(ManifestOutcome::Parsed(manifest.clone()));
    assert_eq!(image_step(validate(&config, &seen)), ImageStep::Inspect);
    seen.probe = Some(Ok(BaseImageProbe {
        valid: true,
        path: path("/images/base.vhdx"),
        vhd_format: "VHDX".into(),
        vhd_type: "Dynamic".into(),
        attached: false,
        parent_path: None,
        size_bytes: 1 << 30,
        logical_sector_size: 512,
        disk_identifier: Some("id".into()),
        sha256: manifest.sha256.clone(),
    }));
    if let ImageProgress::Need(step) = validate(&config, &seen) {
        assert_eq!(step, ImageStep::ResolveReported);
        seen.reported = Some(Ok(path("/images/base.vhdx")));
    }
    match validate(&config, &seen) {
        ImageProgress::Valid(image) => {
            assert_eq!(image.manifest.image_version, "1.0.0");
            assert!(image.path.is_equal(&path("/images/base.vhdx")));
        }
        ImageProgress::Failed(error) => panic!("{}", error.to_string()),
        ImageProgress::Need(step) => panic!("{step:?}"),
    }
    seen.manifest = Some(ManifestOutcome::Malformed("broken".into()));
    assert!(matches!(validate(&config, &seen), ImageProgress::Failed(_)));
}

#[test]
fn only_windows_asks_for_a_read_only_parent() {
    assert!(require_read_only_parent(PathStyle::Windows, true).is_ok());
    assert!(require_read_only_parent(PathStyle::Windows, false).is_err());
}

#[test]
fn spec_and_run_ids_are_strict() {
    assert!(data_disk::validate_run_id("0123456789abcdef").is_ok());
    for invalid in ["short", "../escape0123456789", "gggggggggggggggg"] {
        assert!(data_disk::validate_run_id(invalid).is_err());
    }
    assert!(data_disk::validate_spec(&data_spec()).is_ok());
}

fn data_spec() -> RunDataDiskSpec {
    let root = path("/tmp/foxhole-data-spec");
    RunDataDiskSpec {
        run_id: "0123456789abcdef".into(),
        path: root.join("run-data.vhdx"),
        mount_path: root.join("data-mount"),
        run_root: root,
        size_bytes: MIN_DATA_DISK_BYTES,
    }
}

fn data_mount() -> DataDiskMount {
    let spec = data_spec();
    DataDiskMount {
        path: spec.path,
        mount_path: spec.mount_path,
        disk_number: 3,
        partition_number: 1,
        disk_unique_id: "unique".into(),
        vhd_identifier: "identifier".into(),
        label: "FOXHOLE_0123456789AB".into(),
        attached: true,
    }
}

#[test]
fn data_disks_are_planned_created_and_remounted_by_identity() {
    let spec = data_spec();
    assert_eq!(spec.label().unwrap(), "FOXHOLE_0123456789AB");
    let mut disk = spec.planned().unwrap();
    assert_eq!(disk.state, DataDiskState::Planned);
    assert!(data_disk::dismount(&disk).is_err());
    disk.accept_created(&spec, data_mount()).unwrap();
    assert_eq!(disk.state, DataDiskState::Mounted);
    assert_eq!(disk.vhd_identifier.as_deref(), Some("identifier"));
    assert!(disk.record_dismount(false).is_err());
    assert_eq!(disk.state, DataDiskState::Mounted);
    disk.record_dismount(true).unwrap();
    assert_eq!(disk.state, DataDiskState::Detached);
    assert!(data_disk::dismount(&disk).unwrap().is_none());

    let mut other = data_mount();
    other.disk_unique_id = "another".into();
    assert!(disk.accept_mounted(other).is_err());
    assert_eq!(disk.state, DataDiskState::Detached);
    disk.accept_mounted(data_mount()).unwrap();
    assert_eq!(disk.state, DataDiskState::Mounted);

    let mut blank = data_mount();
    blank.vhd_identifier = " ".into();
    let mut fresh = spec.planned().unwrap();
    assert!(fresh.accept_created(&spec, blank).is_err());
    assert_eq!(fresh.state, DataDiskState::Planned);
}

#[test]
fn dismounts_are_confirmed_by_the_reply() {
    let spec = data_spec();
    let mut disk = spec.planned().unwrap();
    disk.accept_created(&spec, data_mount()).unwrap();
    let reply: Value = serde_json::from_str("{\"dismounted\":false}").unwrap();
    assert!(disk.accept_dismounted(&reply).is_err());
    let reply: Value = serde_json::from_str("{\"dismounted\":\"true\"}").unwrap();
    assert!(disk.accept_dismounted(&reply).is_err());
    let reply: Value = serde_json::from_str("{\"dismounted\":true}").unwrap();
    assert!(disk.accept_dismounted(&reply).is_ok());
}

#[test]
fn remount_and_dismount_scripts_require_both_recorded_disk_identities() {
    for script in [MOUNT_DATA_DISK_SCRIPT, DISMOUNT_DATA_DISK_SCRIPT] {
        assert!(script.contains("expected_vhd_identifier"));
        assert!(script.contains("expected_disk_unique_id"));
        assert!(script.contains("DiskIdentifier"));
        assert!(script.contains("UniqueId"));
    }
}

#[test]
fn fixed_target_path_is_guest_relative() {
    assert_eq!(TARGET_GUEST_PATH, "input/target.bin");
    assert!(!path(TARGET_GUEST_PATH).is_absolute());
    assert_eq!(guest_target_path(&path(r"C:\samples\script.BAT")), TARGET_GUEST_BATCH_PATH);
    assert_eq!(guest_target_path(&path(r"C:\samples\script.cmd")), TARGET_GUEST_COMMAND_PATH);
    assert_eq!(guest_target_path(&path(r"C:\samples\program.exe")), TARGET_GUEST_PATH);
}

#[test]
fn staged_packages_are_hashed_and_open_the_protocol() {
    let sealed = seal_request(b"{}").unwrap();
    assert_eq!(sealed, "44136fa355b3678a1146ad16f7e8649e94fb4fc21fe77e8310c060f61caaff8a");
    let records = staged_records("0123456789abcdef", &sealed).unwrap();
    let mut machine = ProtocolStateMachine::new("0123456789abcdef").unwrap();
    for record in &records {
        machine.observe(record).unwrap();
    }
    assert!(machine.has_seen(ProtocolState::StartAllowed));
    assert!(!machine.has_seen(ProtocolState::Running));

    let mut copy = StagedCopy::new();
    copy.absorb(b"{}").unwrap();
    copy.check_len(2).unwrap();
    assert!(copy.check_len(3).is_err());
    copy.finish(&Some(sealed.clone())).unwrap();
    let mut copy = StagedCopy::new();
    copy.absorb(b"{ }").unwrap();
    assert!(copy.finish(&Some(sealed)).is_err());
}

fn package(target: &[u8]) -> GuestRunRequest {
    build_guest_request(
        &SandboxRequest::hyperv(path("/samples/run.bat")),
        &HyperVNetworkPlan::DenyAll,
        "0123456789abcdef",
        Some(sha256_bytes(target)),
    )
    .unwrap()
}

/// Answers every step of a staging whose target holds `target`, and notes what was done.
fn stage(mut run: Staging, target: &[u8], done: &mut Vec<String>) -> Staging {
    let mut chunks: Vec<Vec<u8>> = target.chunks(2).map(<[u8]>::to_vec).collect();
    chunks.reverse();
    while run.step != StageStep::Done {
        let event = match run.step {
            StageStep::InspectTarget => {
                StageEvent::Inspected(Ok(TargetFacts { regular: true, len: target.len() as u64 }))
            }
            StageStep::MakeDirectory(index) => {
                done.push(run.directory(index));
                StageEvent::Settled(Ok(()))
            }
            StageStep::Serialize => StageEvent::Serialized(Ok(b"{}".to_vec())),
            StageStep::ReadTarget => StageEvent::Read(Ok(chunks.pop().unwrap_or_default())),
            StageStep::PublishState(index) => {
                done.push(run.records[index].state.file_name().to_string());
                StageEvent::Settled(Ok(()))
            }
            _ => StageEvent::Settled(Ok(())),
        };
        run.advance(event);
    }
    run
}

#[test]
fn packages_are_staged_before_their_states() {
    let request = package(b"echo");
    let mut done = vec![];
    let run = Staging::stage_package(&path("/mnt"), &request).unwrap();
    let run = stage(run, b"echo", &mut done);
    assert_eq!(run.outcome.unwrap().unwrap(), sha256_bytes(b"{}"));
    assert!(!run.discard);
    assert_eq!(
        done,
        [
            "/mnt/foxhole-run",
            "/mnt/foxhole-run/input",
            "/mnt/foxhole-run/output",
            "/mnt/foxhole-run/status",
            "host-ready.json",
            "request-written.json",
            "start-allowed.json",
        ]
    );
}

#[test]
fn targets_that_changed_are_never_published() {
    let request = package(b"echo");
    let mut done = vec![];
    let run = Staging::stage_package(&path("/mnt"), &request).unwrap();
    let run = stage(run, b"evil", &mut done);
    assert!(run.discard);
    assert_eq!(done.len(), 4);
    assert!(run.outcome.unwrap().unwrap_err().to_string().contains("integrity digest"));

    let mut run = Staging::stage_package(&path("/mnt"), &request).unwrap();
    run.advance(StageEvent::Inspected(Ok(TargetFacts { regular: true, len: 9 })));
    while run.step != StageStep::ReadTarget {
        let event = match run.step {
            StageStep::Serialize => StageEvent::Serialized(Ok(b"{}".to_vec())),
            _ => StageEvent::Settled(Ok(())),
        };
        run.advance(event);
    }
    run.advance(StageEvent::Read(Ok(vec![])));
    assert!(run.discard);
    assert!(run.outcome.unwrap().unwrap_err().to_string().contains("changed size"));
}

#[test]
fn stagings_stop_at_the_first_error() {
    let request = package(b"echo");
    let fresh = || Staging::stage_package(&path("/mnt"), &request).unwrap();
    let mut run = fresh();
    run.advance(StageEvent::Inspected(Ok(TargetFacts { regular: true, len: 0 })));
    assert!(run.outcome.unwrap().unwrap_err().to_string().contains("empty, non-regular"));
    let mut run = fresh();
    run.advance(StageEvent::Inspected(Err("gone".to_string())));
    assert_eq!(
        run.outcome.unwrap().unwrap_err().to_string(),
        "hyperv_data_disk: query pinned target size: gone"
    );
    let mut run = fresh();
    run.advance(StageEvent::Inspected(Ok(TargetFacts { regular: true, len: 4 })));
    run.advance(StageEvent::Settled(Err("exists".to_string())));
    assert_eq!(
        run.outcome.unwrap().unwrap_err().to_string(),
        "hyperv_data_disk: create new data-disk directory /mnt/foxhole-run: exists"
    );
    let mut unfixed = package(b"echo");
    unfixed.target = "input/other.exe".to_string();
    assert!(Staging::stage_package(&path("/mnt"), &unfixed).is_err());
}

#[test]
fn owned_paths_must_be_contained_vhdx_files() {
    let root = path("/tmp").join("foxhole-disk-test");
    assert!(validate_owned_path(&root.join("os-diff.vhdx"), &root).is_ok());
    assert!(validate_owned_path(&root.join("run-data.vhdx"), &root).is_ok());
    assert!(validate_owned_path(&root, &root).is_err());
    assert!(validate_owned_path(&path("/tmp/foxhole-disk-test/../escape.vhdx"), &root).is_err());
    assert!(validate_owned_path(&root.join("disk.avhdx"), &root).is_err());
    assert!(validate_owned_path(&path("/tmp/foxhole-disk-test/nested/os-diff.vhdx"), &root).is_err());
}

#[test]
fn created_disk_metadata_must_match_exactly() {
    let root = path("/tmp").join("foxhole-disk-metadata");
    let spec = DifferencingDiskSpec {
        path: root.join("os-diff.vhdx"),
        parent_path: path("/tmp").join("base.vhdx"),
        run_root: root,
    };
    let mut info = VhdInfo {
        path: spec.path.duplicate(),
        vhd_format: "VHDX".into(),
        vhd_type: "Differencing".into(),
        attached: false,
        parent_path: Some(spec.parent_path.duplicate()),
        size_bytes: 1,
        logical_sector_size: 512,
        disk_identifier: Some("id".into()),
    };
    assert!(validate_created_disk(&spec, &info).is_ok());
    info.attached = true;
    assert!(validate_created_disk(&spec, &info).is_err());
    assert!(create_differencing_disk(&spec, false).is_ok());
    assert!(create_differencing_disk(&spec, true).is_err());
}

#[test]
fn deletion_preserves_a_vhdx_when_the_recorded_identity_does_not_match() {
    let root = path("/tmp/foxhole-disk-delete-test");
    let disk = root.join("os-diff.vhdx");
    let info = VhdInfo {
        path: disk.duplicate(),
        vhd_format: "VHDX".into(),
        vhd_type: "Dynamic".into(),
        attached: false,
        parent_path: None,
        size_bytes: 1,
        logical_sector_size: 512,
        disk_identifier: Some("observed-identifier".into()),
    };
    let mut run = DiskDeletion::delete_owned_disk(&disk, &root, "recorded-identifier").unwrap();
    run.advance(DeletionEvent::Settled(Ok(())));
    run.advance(DeletionEvent::Inspected(Ok(info.clone())));
    run.advance(DeletionEvent::Settled(Ok(())));
    assert_eq!(run.step, DeletionStep::Done);
    assert!(run.outcome.unwrap().is_err());

    let mut run = DiskDeletion::delete_owned_disk(&disk, &root, "observed-identifier").unwrap();
    run.advance(DeletionEvent::Settled(Ok(())));
    run.advance(DeletionEvent::Inspected(Ok(info)));
    run.advance(DeletionEvent::Settled(Ok(())));
    assert_eq!(run.step, DeletionStep::Delete);
    run.advance(DeletionEvent::Settled(Ok(())));
    assert!(run.outcome.unwrap().is_ok());
}

#[test]
fn deletions_stop_at_the_first_error() {
    let root = path("/tmp/foxhole-disk-delete-test");
    let disk = root.join("os-diff.vhdx");
    assert_eq!(
        DiskDeletion::delete_owned_disk(&disk, &root, " ").unwrap_err().message,
        "refusing to delete a VHDX without its recorded disk identifier"
    );
    let mut run = DiskDeletion::delete_owned_disk(&disk, &root, "id").unwrap();
    run.advance(DeletionEvent::Settled(Err("locked".into())));
    assert_eq!(
        run.outcome.unwrap().unwrap_err().message,
        "open the owned VHDX for identity-preserving inspection"
    );
    let mut run = DiskDeletion::delete_owned_disk(&disk, &root, "id").unwrap();
    run.advance(DeletionEvent::Settled(Ok(())));
    run.advance(DeletionEvent::Inspected(Err(SandboxError::new("hyperv_disk", "no"))));
    assert_eq!(run.outcome.unwrap().unwrap_err().to_string(), "hyperv_disk: no");
}

#[test]
fn deletion_does_not_self_lock_vhd_inspection() {
    let root = path("/tmp/foxhole-disk-self-lock-test");
    let disk = root.join("run-data.vhdx");
    let info = VhdInfo {
        path: disk.duplicate(),
        vhd_format: "VHDX".into(),
        vhd_type: "Dynamic".into(),
        attached: false,
        parent_path: None,
        size_bytes: 1,
        logical_sector_size: 512,
        disk_identifier: Some("recorded-identifier".into()),
    };
    let mut run = DiskDeletion::delete_owned_disk(&disk, &root, "recorded-identifier").unwrap();
    let mut steps = Vec::new();
    while run.step != DeletionStep::Done {
        steps.push(run.step);
        run.advance(if run.step == DeletionStep::Inspect {
            DeletionEvent::Inspected(Ok(info.clone()))
        } else {
            DeletionEvent::Settled(Ok(()))
        });
    }
    assert_eq!(
        steps,
        [
            DeletionStep::OpenForInspection,
            DeletionStep::Inspect,
            DeletionStep::Reopen,
            DeletionStep::Delete
        ],
        "inspection must complete before the delete-access handle is opened"
    );
    assert!(run.outcome.unwrap().is_ok());
}

fn windows(shown: &str, parts: Vec<PathPart>) -> HostPath {
    HostPath {
        style: PathStyle::Windows,
        shown: shown.into(),
        unicode: true,
        absolute: true,
        local_fault: None,
        parts,
    }
}

#[test]
fn windows_paths_are_equal_whatever_the_case_of_their_drive() {
    let on = |drive: &str, name: &str| {
        windows(
            "shown",
            vec![
                PathPart::Prefix(drive.into()),
                PathPart::Root,
                PathPart::Normal(name.into()),
            ],
        )
    };
    assert!(on("C:", "run").is_equal(&on("c:", "run")));
    assert!(on(r"\\?\C:", "run").is_equal(&on(r"\\?\c:", "run")));
    assert!(!on("C:", "run").is_equal(&on("D:", "run")));
    assert!(!on("C:", "run").is_equal(&on("C:", "Run")));
    assert!(!on("C:", "run").is_equal(&on(r"\\?\C:", "run")));
    assert!(!on(r"\\host\a", "run").is_equal(&on(r"\\host\A", "run")));
    assert!(on("C:", "run").is_same(&on("C:", "Run")));
}

#[test]
fn names_behind_a_bare_drive_are_relative_to_it() {
    let drive = windows("C:", vec![PathPart::Prefix("C:".into())]);
    assert_eq!(drive.join("run").shown, "C:run");
    let root = windows("C:\\", vec![PathPart::Prefix("C:".into()), PathPart::Root]);
    assert_eq!(root.join("run").shown, r"C:\run");
    assert_eq!(root.join("run").join("vm").shown, r"C:\run\vm");
    assert_eq!(directory_of(&root.join("run")), "C:\\");
    assert_eq!(name_beside(&root.join("run"), "other"), r"C:\other");
    assert_eq!(name_beside(&drive.join("run"), "other"), "C:other");
    assert_eq!(name_beside(&path("/srv/run"), "other"), "/srv/other");
}
