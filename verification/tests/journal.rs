use foxhole::backend::SandboxError;
use foxhole::host_path::HostPath;
use foxhole::hyperv::cleanup::{
    check_recovery_grace, cleanup_resources, delete_verified_disk, recover_stale_run,
    CleanupEvent, CleanupOutcome, CleanupRun, CleanupStep, DiskPresence,
    Recovery,
};
use foxhole::hyperv::data_disk::{DataDiskState, RunDataDisk, MIN_DATA_DISK_BYTES};
use foxhole::hyperv::journal::{
    check_journal_len, generation_name, journal_sequence_from_name, validate_journal,
    CleanupJournal, CleanupPhase, JournalSearch, OwnedSwitch,
};
use foxhole::hyperv::journal_files::{
    GenerationEvent, GenerationStep, GenerationWriting, JournalScan, ScanEvent, ScanStep,
    ScannedEntry,
};
use foxhole::hyperv::recovery::{RecoveryEvent, RecoveryRun, RecoveryStep};
use foxhole::hyperv::vm::{VmHandle, VmStatus};

const RUN_ID: &str = "0123456789abcdef";

fn path(shown: &str) -> HostPath {
    HostPath::parse(shown)
}

#[test]
fn journals_require_exact_run_owned_paths() {
    let root = path("/tmp").join(RUN_ID);
    let mut journal = CleanupJournal::new(RUN_ID.into(), root.clone()).unwrap();
    assert!(validate_journal(&journal, None).is_ok());
    journal.os_disk = Some(root.join("os-diff.vhdx"));
    assert!(validate_journal(&journal, None).is_ok());
    journal.phase = CleanupPhase::Running;
    assert!(
        validate_journal(&journal, None).is_err(),
        "destructive recovery requires the provisioned VHD identity"
    );
    journal.os_disk_identifier = Some("11111111-1111-1111-1111-111111111111".into());
    assert!(validate_journal(&journal, None).is_ok());
    journal.os_disk = Some(path("/tmp").join("escape.vhdx"));
    assert!(validate_journal(&journal, None).is_err());
}

#[test]
fn cleanup_outcome_defaults_to_not_attempted() {
    let outcome = CleanupOutcome::default();
    assert!(!outcome.attempted);
    assert!(!outcome.success);
}

/// A search that lists a run directory.
fn scanning(root: &HostPath) -> JournalScan {
    let mut run = JournalScan::latest_journal(root, None).unwrap();
    run.advance(ScanEvent::Settled(Ok(())));
    run.advance(ScanEvent::Settled(Ok(())));
    assert_eq!(run.step, ScanStep::Next);
    run
}

fn entry(name: &str) -> ScanEvent {
    ScanEvent::Entry(Ok(Some(ScannedEntry { name: Some(name.into()) })))
}

/// The search finds a file of three bytes that holds a journal, or none.
fn listed(run: &mut JournalScan, name: &str, journal: Option<CleanupJournal>) {
    run.advance(entry(name));
    assert_eq!(run.step, ScanStep::Open);
    run.advance(ScanEvent::Opened(true));
    run.advance(ScanEvent::Inspected(Ok(3)));
    run.advance(ScanEvent::Read(Ok(3)));
    assert_eq!(run.step, ScanStep::Decode);
    run.advance(ScanEvent::Decoded(journal));
    assert_eq!(run.step, ScanStep::Next);
}

#[test]
fn recovery_rejects_hard_linked_cleanup_journals() {
    let root = path("/tmp/linked-cleanup-journal-test").join(RUN_ID);
    let mut run = scanning(&root);
    run.advance(entry("cleanup-journal-000001.json"));
    // A file with another link to it is not opened as a safe regular file.
    run.advance(ScanEvent::Opened(false));
    run.advance(ScanEvent::Entry(Ok(None)));
    assert!(run.outcome.unwrap().unwrap().is_none());
}

#[test]
fn foreign_and_unfitting_entries_are_passed_over() {
    let root = path("/tmp/cleanup-journal-test").join(RUN_ID);
    let mut run = scanning(&root);
    run.advance(entry("os-diff.vhdx"));
    assert_eq!(run.step, ScanStep::Next);
    run.advance(ScanEvent::Entry(Ok(Some(ScannedEntry { name: None }))));
    assert_eq!(run.step, ScanStep::Next);
    for len in [0, 1_048_577] {
        run.advance(entry("cleanup-journal-000001.json"));
        run.advance(ScanEvent::Opened(true));
        run.advance(ScanEvent::Inspected(Ok(len)));
        assert_eq!(run.step, ScanStep::Next);
    }
    run.advance(entry("cleanup-journal-000001.json"));
    run.advance(ScanEvent::Opened(true));
    run.advance(ScanEvent::Inspected(Ok(9)));
    run.advance(ScanEvent::Read(Ok(8)));
    assert_eq!(run.step, ScanStep::Next);
    run.advance(ScanEvent::Entry(Err("denied".into())));
    assert_eq!(run.outcome.unwrap().unwrap_err().message, "read cleanup journal entry");
}

#[test]
fn crowded_run_directories_are_refused() {
    let root = path("/tmp/cleanup-journal-test").join(RUN_ID);
    let mut run = scanning(&root);
    for _ in 0..10_064 {
        run.advance(entry("x"));
        assert_eq!(run.step, ScanStep::Next);
    }
    run.advance(entry("x"));
    assert_eq!(
        run.outcome.unwrap().unwrap_err().message,
        "cleanup run directory contains too many entries"
    );
}

#[test]
fn generations_are_written_within_their_limit() {
    let mut run = GenerationWriting::new();
    run.advance(GenerationEvent::Serialized(Ok(1_048_576)));
    let mut steps = Vec::new();
    while run.step != GenerationStep::Done {
        steps.push(run.step);
        run.advance(GenerationEvent::Settled(Ok(())));
    }
    assert_eq!(
        steps,
        [
            GenerationStep::Create,
            GenerationStep::Write,
            GenerationStep::Terminate,
            GenerationStep::Store
        ]
    );
    assert!(run.outcome.unwrap().is_ok());

    let mut run = GenerationWriting::new();
    run.advance(GenerationEvent::Serialized(Ok(1_048_577)));
    assert_eq!(
        run.outcome.unwrap().unwrap_err().message,
        "cleanup journal exceeds its size limit"
    );
    let mut run = GenerationWriting::new();
    run.advance(GenerationEvent::Serialized(Ok(1)));
    run.advance(GenerationEvent::Settled(Err("exists".into())));
    assert_eq!(
        run.outcome.unwrap().unwrap_err().message,
        "create an append-only cleanup journal generation"
    );
}

#[test]
fn recovery_uses_latest_valid_bound_generation_after_a_truncated_write() {
    let root = path("/tmp/cleanup-journal-test").join(RUN_ID);
    let mut journal = CleanupJournal::new(RUN_ID.into(), root.clone()).unwrap();
    let written = journal.persist(None).unwrap();
    assert_eq!(written.file_name().as_deref(), Some("cleanup-journal-000001.json"));

    // The second generation is on disk, but does not parse.
    let mut run = scanning(&root);
    listed(&mut run, "cleanup-journal-000001.json", Some(journal));
    listed(&mut run, "cleanup-journal-000002.json", None);
    run.advance(ScanEvent::Entry(Ok(None)));
    let recovered = run.outcome.unwrap().unwrap().unwrap();
    assert_eq!(recovered.sequence, 1);
    assert!(recovered.run_root.is_equal(&root));
}

#[test]
fn the_highest_bound_generation_wins() {
    let root = path("/tmp/cleanup-journal-test").join(RUN_ID);
    let mut first = CleanupJournal::new(RUN_ID.into(), root.clone()).unwrap();
    first.persist(None).unwrap();
    let mut second = first.clone();
    second.persist(None).unwrap();
    let mut search = JournalSearch::new(&root).unwrap();
    search.consider(second.clone(), 2, &root, None);
    search.consider(first, 1, &root, None);
    assert_eq!(search.latest.as_ref().unwrap().sequence, 2);
    // A generation under another number, or of another directory, is not considered.
    let mut search = JournalSearch::new(&root).unwrap();
    search.consider(second.clone(), 3, &root, None);
    search.consider(second, 2, &path("/tmp/other").join(RUN_ID), None);
    assert!(search.latest.is_none());
}

#[test]
fn recovery_recognizes_schema_one_journals_but_retains_unverified_disks() {
    let root = path("/tmp/legacy-cleanup-journal-test").join(RUN_ID);
    let mut journal = CleanupJournal::new(RUN_ID.into(), root.clone()).unwrap();
    journal.schema_version = 1;
    journal.sequence = 1;
    journal.phase = CleanupPhase::Running;
    journal.os_disk = Some(root.join("os-diff.vhdx"));
    let mut search = JournalSearch::new(&root).unwrap();
    search.consider(journal, 1, &root, None);

    let recovered = search.latest.unwrap();
    assert_eq!(recovered.schema_version, 1);
    assert!(recovered.os_disk_identifier.is_none());
    assert!(validate_journal(&recovered, None).is_ok());

    let mut run = cleanup_resources(recovered, None);
    settle(&mut run);
    assert!(!run.outcome.success);
    assert!(run
        .outcome
        .leftover_resources
        .iter()
        .any(|leftover| leftover.ends_with(":retained_legacy_unverified_identity")));
}

/// Answers every question of a cleanup with success; a planned machine is gone.
fn settle(run: &mut CleanupRun) -> Vec<CleanupStep> {
    let mut steps = Vec::new();
    while run.step != CleanupStep::Done {
        steps.push(run.step);
        let event = match run.step {
            CleanupStep::PinRunRoot => CleanupEvent::Pinned(Ok(())),
            CleanupStep::QueryVm => CleanupEvent::Status(Ok(VmStatus {
                exists: true,
                id: "11111111-1111-1111-1111-111111111111".into(),
                name: Some(format!("foxhole-{RUN_ID}")),
                state: "Off".into(),
                snapshot_count: 0,
                cpu_usage_percent: 0,
                memory_assigned_bytes: 0,
                uptime_ms: 0,
                health: "Ok".into(),
                heartbeat_enabled: false,
                heartbeat_primary_status: String::new(),
                heartbeat_secondary_status: String::new(),
            })),
            CleanupStep::RequestStop
            | CleanupStep::ForceStop
            | CleanupStep::WaitForOff
            | CleanupStep::ForceStopLate => CleanupEvent::Stopped(Ok(true)),
            CleanupStep::CleanNetwork => CleanupEvent::Removed(Ok(Vec::new())),
            _ => CleanupEvent::Settled(Ok(())),
        };
        run.advance(event);
    }
    steps
}

#[test]
fn recovery_rejects_a_valid_but_external_crafted_run_journal() {
    let artifact_root = path("/tmp/protected-artifacts");
    let external_run_root = path("/tmp/attacker-controlled").join(RUN_ID);
    let error =
        RecoveryRun::recover_stale_run_from_root(&artifact_root, &external_run_root, 15_000, None)
            .expect_err("an external hexadecimal directory must not become a recovery authority");
    assert_eq!(error.stage, "hyperv_cleanup_recovery");
    assert!(error.to_string().contains("protected Foxhole runs"));
}

#[test]
fn recovery_retains_journal_supplied_switches_without_invoking_switch_removal() {
    let artifact_root = path("/tmp/protected-artifacts");
    let run_root = artifact_root.join("hyperv").join("runs").join(RUN_ID);
    let mut recovery =
        RecoveryRun::recover_stale_run_from_root(&artifact_root, &run_root, 15_000, None).unwrap();
    let mut journal = CleanupJournal::new(RUN_ID.into(), run_root).unwrap();
    journal.phase = CleanupPhase::Running;
    journal.owned_switch = Some(OwnedSwitch {
        id: "11111111-1111-1111-1111-111111111111".into(),
        name: "Foxhole Crafted Switch".into(),
    });
    journal.persist(None).unwrap();

    recovery.advance(RecoveryEvent::Settled(Ok(())));
    recovery.advance(RecoveryEvent::Settled(Ok(())));
    recovery.advance(RecoveryEvent::Settled(Ok(())));
    assert_eq!(recovery.step, RecoveryStep::FindJournal);
    recovery.advance(RecoveryEvent::Found(Ok(Some(journal))));
    let mut run = match recovery.outcome.unwrap().unwrap() {
        Recovery::Cleanup(run) => run,
        Recovery::Settled(_) => unreachable!(),
    };
    let steps = settle(&mut run);
    let outcome = run.outcome;
    assert!(outcome.attempted);
    assert!(!outcome.success);
    assert!(outcome
        .warnings
        .iter()
        .any(|warning| warning.contains("without independently authenticated ownership")));
    assert!(outcome.leftover_resources.iter().any(|leftover| {
        leftover
            == "switch:11111111-1111-1111-1111-111111111111:Foxhole Crafted Switch:retained_unverified_ownership"
    }));
    assert_eq!(
        steps,
        [
            CleanupStep::PinRunRoot,
            CleanupStep::PersistStart,
            CleanupStep::RemovePlannedVm,
            CleanupStep::PersistEnd
        ]
    );
}

#[test]
fn journal_filenames_are_exact_and_bounded() {
    assert_eq!(journal_sequence_from_name("cleanup-journal-000001.json"), Some(1));
    for invalid in [
        "cleanup-journal-000000.json",
        "cleanup-journal-10001.json",
        "cleanup-journal-000001.json.extra",
        "cleanup-journal-abcdef.json",
        "other-000001.json",
    ] {
        assert_eq!(journal_sequence_from_name(invalid), None);
    }
    assert_eq!(generation_name(42), "cleanup-journal-000042.json");
    assert!(check_journal_len(1024 * 1024).is_ok());
    assert!(check_journal_len(1024 * 1024 + 1).is_err());
}

fn full_journal() -> CleanupJournal {
    let root = path("/srv/runs").join(RUN_ID);
    let mut journal = CleanupJournal::new(RUN_ID.into(), root.clone()).unwrap();
    journal.phase = CleanupPhase::Running;
    journal.vm = Some(VmHandle {
        id: "11111111-1111-1111-1111-111111111111".into(),
        name: format!("foxhole-{RUN_ID}"),
        generation: 2,
        state: "Off".into(),
        configuration_path: root.join("vm"),
    });
    journal.os_disk = Some(root.join("os-diff.vhdx"));
    journal.os_disk_identifier = Some("os-identity".into());
    journal.data_disk = Some(RunDataDisk {
        path: root.join("run-data.vhdx"),
        mount_path: root.join("data-mount"),
        size_bytes: MIN_DATA_DISK_BYTES,
        label: "FOXHOLE_0123456789AB".into(),
        disk_unique_id: Some("unique".into()),
        vhd_identifier: Some("identity".into()),
        state: DataDiskState::Detached,
    });
    journal
}

#[test]
fn cleanups_remove_the_machine_before_its_disks() {
    let journal = full_journal();
    assert!(validate_journal(&journal, None).is_ok());
    let mut run = cleanup_resources(journal, None);
    let steps = settle(&mut run);
    let place = |step: CleanupStep| steps.iter().position(|seen| *seen == step).unwrap();
    assert!(place(CleanupStep::RemoveVm) < place(CleanupStep::DeleteDataDisk));
    assert!(place(CleanupStep::RemoveVm) < place(CleanupStep::DeleteOsDisk));
    assert!(run.outcome.success);
    assert!(run.outcome.warnings.is_empty());
    assert!(run.outcome.leftover_resources.is_empty());
    assert_eq!(run.journal.phase, CleanupPhase::Finished);
    assert!(run.journal.vm.is_none());
}

#[test]
fn cleanups_keep_disks_of_machines_that_remain() {
    let mut run = cleanup_resources(full_journal(), None);
    while run.step != CleanupStep::RemoveVm {
        let event = match run.step {
            CleanupStep::PinRunRoot => CleanupEvent::Pinned(Ok(())),
            CleanupStep::QueryVm => {
                CleanupEvent::Status(Err(SandboxError::new("hyperv_vm", "no answer")))
            }
            CleanupStep::RequestStop
            | CleanupStep::ForceStop
            | CleanupStep::WaitForOff
            | CleanupStep::ForceStopLate => CleanupEvent::Stopped(Ok(true)),
            CleanupStep::Done => panic!("done before the removal"),
            _ => CleanupEvent::Settled(Ok(())),
        };
        run.advance(event);
    }
    run.advance(CleanupEvent::Settled(Err(SandboxError::new("hyperv_vm", "still there"))));
    settle(&mut run);
    assert!(!run.outcome.success);
    assert!(run
        .outcome
        .leftover_resources
        .iter()
        .any(|leftover| leftover.ends_with(":retained_because_vm_removal_failed")));
    assert!(run.journal.os_disk.is_some());
}

#[test]
fn answers_to_other_questions_change_nothing() {
    let mut run = cleanup_resources(full_journal(), None);
    run.advance(CleanupEvent::Stopped(Ok(true)));
    assert_eq!(run.step, CleanupStep::PinRunRoot);
}

#[test]
fn recovery_without_a_journal_fails_and_a_finished_one_is_settled() {
    assert!(recover_stale_run(None, None).is_err());
    let mut journal = CleanupJournal::new(RUN_ID.into(), path("/srv/runs").join(RUN_ID)).unwrap();
    journal.phase = CleanupPhase::Finished;
    match recover_stale_run(Some(journal), None).unwrap() {
        Recovery::Settled(outcome) => assert!(outcome.success),
        Recovery::Cleanup(_) => unreachable!(),
    }
    assert!(check_recovery_grace(0).is_err());
    assert!(check_recovery_grace(600_000).is_ok());
    assert!(check_recovery_grace(600_001).is_err());
}

#[test]
fn disks_without_a_recorded_identity_are_kept() {
    let root = path("/srv/runs").join(RUN_ID);
    let disk = root.join("os-diff.vhdx");
    let missing = delete_verified_disk(&DiskPresence::Missing, &disk, &root, &None);
    assert!(missing.unwrap().is_none());
    assert!(delete_verified_disk(&DiskPresence::Present, &disk, &root, &None).is_err());
    let present = delete_verified_disk(&DiskPresence::Present, &disk, &root, &Some("id".into()));
    assert_eq!(present.unwrap().unwrap().expected_identifier, "id");
    assert!(delete_verified_disk(
        &DiskPresence::Unreadable("denied".into()),
        &disk,
        &root,
        &Some("id".into())
    )
    .is_err());
}

#[test]
fn recoveries_stop_at_the_first_error() {
    let artifact_root = path("/tmp/protected-artifacts");
    let run_root = artifact_root.join("hyperv").join("runs").join(RUN_ID);
    let begun = || {
        RecoveryRun::recover_stale_run_from_root(&artifact_root, &run_root, 15_000, None).unwrap()
    };
    let messages = [
        "cleanup recovery root must remain on Foxhole's fixed local artifact volume",
        "pin the protected Hyper-V run ancestry without following links or reparse points",
        "restore owner-only protection on the pinned Hyper-V run ancestry",
    ];
    for (done, message) in messages.iter().enumerate() {
        let mut run = begun();
        for _ in 0..done {
            run.advance(RecoveryEvent::Settled(Ok(())));
        }
        run.advance(RecoveryEvent::Settled(Err("denied".into())));
        assert_eq!(run.step, RecoveryStep::Done);
        assert_eq!(run.outcome.unwrap().unwrap_err().message, *message);
    }
    let mut run = begun();
    for _ in 0..3 {
        run.advance(RecoveryEvent::Settled(Ok(())));
    }
    run.advance(RecoveryEvent::Found(Ok(None)));
    assert_eq!(
        run.outcome.unwrap().unwrap_err().message,
        "no valid cleanup journal exists for the requested run directory"
    );
    let refused =
        RecoveryRun::recover_stale_run_from_root(&artifact_root, &run_root, 0, None).unwrap_err();
    assert_eq!(
        refused.message,
        "cleanup recovery grace period must be between one second and ten minutes"
    );
}
