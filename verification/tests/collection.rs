use std::collections::BTreeMap;

use foxhole::backend::SandboxError;
use foxhole::digest::sha256_bytes;
use foxhole::host_path::HostPath;
use foxhole::hyperv::collection::{
    CollectEvent, CollectStep, Collection, EventFile, GuestDirectory, Look, Reading, ResultFile,
    StatusListing, Wanted,
};
use foxhole::hyperv::exchange::{synthetic_result, SyntheticOutcome};
use foxhole::hyperv::guest_files::{
    ArtifactCopy, CopyEvent, CopyStep, OutputEvent, OutputReading, OutputStep,
};
use foxhole::hyperv::guest_protocol::{
    ArtifactManifestEntry, CaptureCoverage, GuestError, GuestResultEnvelope, GuestTerminalOutcome,
    ObservationCoverage, ProtocolState, StatusRecord, PROTOCOL_VERSION,
};
use foxhole::hyperv::rescue::{Rescue, RescueEvent, RescueStep};
use foxhole::hyperv::result_collector::{
    CollectedGuestOutput, CollectionLimits, EntryFacts, PartialCollection,
};
use foxhole::hyperv::tree_walk::{ListedEntry, TreeEvent, TreeStep, TreeWalk};
use foxhole::structs::SandboxRunResult;

const RUN_ID: &str = "0123456789abcdef";

fn request_sha256() -> String {
    "ab".repeat(32)
}

fn coverage() -> CaptureCoverage {
    CaptureCoverage { requested: true, collected: true, complete: true, warnings: vec![] }
}

fn envelope(executed: bool) -> GuestResultEnvelope<SandboxRunResult> {
    let request = foxhole::backend::SandboxRequest::hyperv(HostPath::parse("/s/sample.exe"));
    GuestResultEnvelope {
        protocol_version: PROTOCOL_VERSION,
        run_id: RUN_ID.to_string(),
        agent_version: "agent".to_string(),
        guest_image_version: "image".to_string(),
        outcome: if executed {
            GuestTerminalOutcome::Completed
        } else {
            GuestTerminalOutcome::AgentFailed
        },
        execution: executed.then(|| synthetic_result(&request, SyntheticOutcome::DryRun, 1)),
        coverage: ObservationCoverage {
            stdout: coverage(),
            stderr: coverage(),
            processes: coverage(),
            network: coverage(),
            filesystem: coverage(),
            registry: coverage(),
        },
        artifacts: vec![],
        warnings: vec![],
        network_attestation: None,
        error: (!executed).then(|| GuestError::new("stage", "code", "message")),
    }
}

/// A guest's run: its files, and the values that they hold.
struct Guest {
    files: BTreeMap<String, Vec<u8>>,
    envelope: GuestResultEnvelope<SandboxRunResult>,
    records: BTreeMap<String, StatusRecord>,
}

fn guest(executed: bool) -> Guest {
    let result = b"{\"result\":true}".to_vec();
    let mut files = BTreeMap::new();
    let mut records = BTreeMap::new();
    let states = if executed {
        vec![
            ProtocolState::HostReady,
            ProtocolState::RequestWritten,
            ProtocolState::StartAllowed,
            ProtocolState::GuestReady,
            ProtocolState::Running,
            ProtocolState::Completed,
            ProtocolState::ShutdownReady,
        ]
    } else {
        vec![
            ProtocolState::HostReady,
            ProtocolState::RequestWritten,
            ProtocolState::StartAllowed,
            ProtocolState::Failed,
            ProtocolState::ShutdownReady,
        ]
    };
    for (index, state) in states.into_iter().enumerate() {
        let mut record = StatusRecord::new(RUN_ID, index as u64 + 1, state);
        record.request_sha256 = Some(request_sha256());
        if matches!(
            state,
            ProtocolState::Completed | ProtocolState::Failed | ProtocolState::ShutdownReady
        ) {
            record.result_sha256 = Some(sha256_bytes(&result));
        }
        if state == ProtocolState::Failed {
            record.error = Some(GuestError::new("stage", "code", "message"));
        }
        files.insert(format!("status/{}", state.file_name()), vec![b's'; index + 1]);
        records.insert(state.file_name().to_string(), record);
    }
    files.insert("output/result.json".to_string(), result);
    if executed {
        for name in ["stdout.txt", "stderr.txt"] {
            files.insert(format!("output/{name}"), name.as_bytes().to_vec());
        }
        for name in ["process", "network", "filesystem", "registry"] {
            files.insert(format!("output/{name}-events.json"), b"[ ]".to_vec());
        }
    }
    Guest { files, envelope: envelope(executed), records }
}

fn regular(len: usize) -> EntryFacts {
    EntryFacts {
        link: false,
        reparse_point: false,
        directory: false,
        regular: true,
        len: len as u64,
    }
}

const DIRECTORY: EntryFacts =
    EntryFacts { link: false, reparse_point: false, directory: true, regular: false, len: 0 };

fn name_of(wanted: Wanted) -> String {
    match wanted.directory {
        GuestDirectory::Output => format!("output/{}", wanted.file.name),
        GuestDirectory::Status => format!("status/{}", wanted.file.name),
    }
}

impl Guest {
    fn has(&self, directory: &str) -> bool {
        self.files.keys().any(|name| name.starts_with(&format!("{directory}/")))
    }

    fn read(&self, wanted: Wanted) -> Reading<Vec<u8>> {
        match self.files.get(&name_of(wanted)) {
            Some(bytes) => Reading::Got(bytes.clone()),
            None if wanted.file.required => {
                Reading::Failed(SandboxError::new("test", &format!("no {}", name_of(wanted))))
            }
            None => Reading::Missing,
        }
    }

    fn look(&self, directory: &str) -> Look {
        if self.has(directory) {
            Look::Found(DIRECTORY)
        } else {
            Look::Missing
        }
    }

    /// The entries right below a directory.
    fn list(&self, directory: &str) -> Vec<String> {
        let prefix = format!("{directory}/");
        let mut names: Vec<String> = self
            .files
            .keys()
            .filter_map(|name| name.strip_prefix(&prefix))
            .map(|rest| format!("{prefix}{}", rest.split('/').next().unwrap()))
            .collect();
        names.dedup();
        names
    }

    /// Answers the step of a walk; `open` holds the entries still to be taken, directory by
    /// directory.
    fn walk(&self, walk: &TreeWalk, open: &mut Vec<Vec<String>>, prefix: &str) -> TreeEvent {
        match walk.step {
            TreeStep::Open => {
                let directory = walk.directory.strip_prefix("/mnt/").unwrap().to_string();
                let mut entries = self.list(&directory);
                entries.reverse();
                open.push(entries);
                TreeEvent::Opened(Ok(()))
            }
            TreeStep::Next => match open.last_mut().unwrap().pop() {
                Some(name) => {
                    let below = name.strip_prefix("output/").unwrap();
                    TreeEvent::Entry(Ok(Some(ListedEntry {
                        shown: format!("/mnt/{name}"),
                        place: HostPath::parse(&format!("{prefix}/{below}")),
                    })))
                }
                None => {
                    open.pop();
                    TreeEvent::Entry(Ok(None))
                }
            },
            TreeStep::Inspect => {
                let entry = walk.entry.as_ref().unwrap();
                let name = entry.shown.strip_prefix("/mnt/").unwrap();
                TreeEvent::Looked(Ok(match self.files.get(name) {
                    Some(bytes) => regular(bytes.len()),
                    None => DIRECTORY,
                }))
            }
            TreeStep::Copy => {
                let entry = walk.entry.as_ref().unwrap();
                let name = entry.shown.strip_prefix("/mnt/").unwrap();
                TreeEvent::Copied(Ok(sha256_bytes(&self.files[name])))
            }
            TreeStep::Idle | TreeStep::Failed => unreachable!(),
        }
    }
}

fn limits() -> CollectionLimits {
    CollectionLimits::default()
}

fn begun(limits: &CollectionLimits) -> Collection {
    Collection::new(
        limits,
        HostPath::parse("/mnt"),
        HostPath::parse("/archive"),
        RUN_ID.to_string(),
        request_sha256(),
    )
    .unwrap()
}

fn answer(
    run: &Collection,
    guest: &Guest,
    listing: &mut Vec<String>,
    open: &mut Vec<Vec<String>>,
) -> CollectEvent {
    match run.step {
        CollectStep::InspectOutput => CollectEvent::Looked(guest.look("output")),
        CollectStep::InspectStatus => CollectEvent::Looked(guest.look("status")),
        CollectStep::CreateArchive => CollectEvent::Made(Ok(())),
        CollectStep::OpenStatus => {
            *listing = guest.list("status");
            CollectEvent::Made(Ok(()))
        }
        CollectStep::NextStatus => CollectEvent::Listed(Ok(listing.pop().map(|name| {
            StatusListing {
                name: Some(name.strip_prefix("status/").unwrap().to_string()),
                shown: format!("/mnt/{name}"),
            }
        }))),
        CollectStep::InspectEntry => CollectEvent::Looked(Look::Found(regular(1))),
        CollectStep::ReadResult => {
            CollectEvent::ResultRead(match guest.read(run.wanted().unwrap()) {
                Reading::Got(bytes) => {
                    Reading::Got(ResultFile { bytes, envelope: guest.envelope.clone() })
                }
                Reading::Failed(error) => Reading::Failed(error),
                _ => unreachable!(),
            })
        }
        CollectStep::ReadRecord(_) => {
            let name = run.wanted().unwrap().file.name;
            CollectEvent::RecordRead(match guest.records.get(name) {
                Some(record) => Reading::Got(record.clone()),
                None => Reading::Missing,
            })
        }
        CollectStep::ReadEvents(_) => {
            CollectEvent::EventsRead(match guest.read(run.wanted().unwrap()) {
                Reading::Got(observed) => {
                    Reading::Got(EventFile { observed, expected: b"[]".to_vec() })
                }
                Reading::Failed(error) => Reading::Failed(error),
                _ => unreachable!(),
            })
        }
        CollectStep::ReadStdout
        | CollectStep::ReadStderr
        | CollectStep::ReadWarnings
        | CollectStep::ReadStatus(_) => CollectEvent::FileRead(guest.read(run.wanted().unwrap())),
        CollectStep::FindTree(_) => {
            CollectEvent::Looked(guest.look(&name_of(run.wanted().unwrap())))
        }
        CollectStep::WalkTree(_) => {
            CollectEvent::Tree(guest.walk(&run.walk, open, "guest-output"))
        }
        CollectStep::CopyResult
        | CollectStep::CopyStdout
        | CollectStep::CopyStderr
        | CollectStep::CopyEvents(_)
        | CollectStep::CopyWarnings
        | CollectStep::CopyStatus(_) => {
            let name = name_of(run.wanted().unwrap());
            assert_eq!(run.copied_len(), guest.files[&name].len() as u64);
            CollectEvent::Copied(Ok(sha256_bytes(&guest.files[&name])))
        }
        CollectStep::Done => unreachable!(),
    }
}

fn collect(mut run: Collection, guest: &Guest) -> Result<CollectedGuestOutput, SandboxError> {
    let mut listing = vec![];
    let mut open = vec![];
    for _ in 0..10_000 {
        if run.step == CollectStep::Done {
            return run.outcome.unwrap();
        }
        let event = answer(&run, guest, &mut listing, &mut open);
        run.advance(event);
    }
    panic!("the collection does not end");
}

fn places(output: &CollectedGuestOutput) -> Vec<&str> {
    output.artifacts.iter().map(|artifact| artifact.relative_path.shown.as_str()).collect()
}

#[test]
fn finished_guests_are_collected_whole_and_in_order() {
    let mut guest = guest(true);
    guest.files.insert("output/warnings.txt".to_string(), b"one\ntwo\n".to_vec());
    guest.files.insert("output/extracted-files/a/b.bin".to_string(), b"abc".to_vec());
    guest.files.insert("output/screenshots/first.png".to_string(), b"png".to_vec());
    guest.files.insert("status/agent-claim.json".to_string(), b"{}".to_vec());
    guest.envelope.artifacts = vec![ArtifactManifestEntry {
        relative_path: "extracted-files/a/b.bin".to_string(),
        size_bytes: 3,
        sha256: sha256_bytes(b"abc"),
        kind: "extracted_file".to_string(),
    }];
    let output = collect(begun(&limits()), &guest).unwrap();
    assert_eq!(
        places(&output),
        [
            "guest-output/result.json",
            "guest-output/stdout.txt",
            "guest-output/stderr.txt",
            "guest-output/process-events.json",
            "guest-output/network-events.json",
            "guest-output/filesystem-events.json",
            "guest-output/registry-events.json",
            "guest-output/screenshots/first.png",
            "guest-output/extracted-files/a/b.bin",
            "guest-output/warnings.txt",
            "guest-status/host-ready.json",
            "guest-status/request-written.json",
            "guest-status/start-allowed.json",
            "guest-status/guest-ready.json",
            "guest-status/running.json",
            "guest-status/completed.json",
            "guest-status/shutdown-ready.json",
            "guest-status/agent-claim.json",
        ]
    );
    assert_eq!(output.stdout, "stdout.txt");
    assert_eq!(output.stderr, "stderr.txt");
    assert_eq!(output.warnings, ["one", "two"]);
    assert_eq!(
        output.total_bytes,
        output.artifacts.iter().map(|artifact| artifact.size_bytes).sum::<u64>()
    );
    assert_eq!(output.artifacts[0].sha256, sha256_bytes(b"{\"result\":true}"));
}

#[test]
fn failed_agents_need_no_streams() {
    let output = collect(begun(&limits()), &guest(false)).unwrap();
    assert_eq!(output.stdout, "");
    assert_eq!(places(&output)[..2], ["guest-output/result.json", "guest-status/host-ready.json"]);

    let mut with_stderr = guest(false);
    with_stderr.files.insert("output/stderr.txt".to_string(), b"why".to_vec());
    let output = collect(begun(&limits()), &with_stderr).unwrap();
    assert_eq!(output.stderr, "why");
    assert_eq!(places(&output)[1], "guest-output/stderr.txt");
}

fn refusal(guest: &Guest) -> String {
    collect(begun(&limits()), guest).unwrap_err().to_string()
}

#[test]
fn outputs_that_are_not_authenticated_are_refused() {
    let mut missing = guest(true);
    missing.files.remove("output/stdout.txt");
    assert_eq!(refusal(&missing), "test: no output/stdout.txt");

    let mut other = guest(true);
    other.envelope.run_id = "fedcba9876543210".to_string();
    assert!(refusal(&other).contains("run identifier does not match"));

    let mut forged = guest(true);
    forged.files.insert("output/result.json".to_string(), b"{}".to_vec());
    assert!(refusal(&forged).contains("does not authenticate result.json"));

    let mut unexpected = guest(true);
    unexpected.files.insert("status/extra.json".to_string(), vec![]);
    assert!(refusal(&unexpected).contains("unexpected entry: extra.json"));

    let mut contradicting = guest(true);
    contradicting.files.insert("output/network-events.json".to_string(), b"[1]".to_vec());
    assert!(refusal(&contradicting).contains("guest network-events.json contradicts result.json"));

    let mut claiming = guest(true);
    claiming.envelope.artifacts = vec![ArtifactManifestEntry {
        relative_path: "extracted-files/none.bin".to_string(),
        size_bytes: 3,
        sha256: sha256_bytes(b"abc"),
        kind: "extracted_file".to_string(),
    }];
    assert!(refusal(&claiming).contains("refers to a missing file"));

    let mut swapped = guest(true);
    let record = swapped.records["running.json"].clone();
    swapped.records.insert("completed.json".to_string(), record);
    assert!(refusal(&swapped).contains("filename contradicts its encoded state"));
}

#[test]
fn nothing_is_archived_before_the_states_were_checked() {
    let guest = guest(true);
    let mut run = begun(&limits());
    let mut listing = vec![];
    let mut open = vec![];
    while !matches!(run.step, CollectStep::CopyResult) {
        assert!(run.walk.archive.artifacts.is_empty());
        let event = answer(&run, &guest, &mut listing, &mut open);
        run.advance(event);
    }
    assert_eq!(run.place.shown, "guest-output/result.json");
    run.advance(CollectEvent::Copied(Ok("00".repeat(32))));
    assert!(run.discard);
    assert!(run.outcome.unwrap().unwrap_err().to_string().contains("between validation"));
}

#[test]
fn limits_bound_the_collection() {
    let mut few = limits();
    few.maximum_artifacts = 3;
    let error = collect(begun(&few), &guest(true)).unwrap_err().to_string();
    assert!(error.contains("count or per-file archive size"));

    let mut deep = guest(true);
    deep.files.insert(format!("output/extracted-files{}", "/d".repeat(20)), vec![1]);
    assert!(refusal(&deep).contains("nesting exceeds 16 levels"));

    let mut none = limits();
    none.maximum_artifacts = 0;
    assert!(Collection::new(
        &none,
        HostPath::parse("/mnt"),
        HostPath::parse("/archive"),
        RUN_ID.to_string(),
        request_sha256(),
    )
    .is_err());
}

#[test]
fn archives_have_absolute_roots() {
    let mut run = Collection::new(
        &limits(),
        HostPath::parse("/mnt"),
        HostPath::parse("archive"),
        RUN_ID.to_string(),
        request_sha256(),
    )
    .unwrap();
    run.advance(CollectEvent::Looked(Look::Found(DIRECTORY)));
    assert!(run.outcome.unwrap().unwrap_err().to_string().contains("must be absolute"));
    assert!(Rescue::new(&limits(), HostPath::parse("/mnt"), HostPath::parse("archive")).is_err());
}

#[test]
fn inspections_that_fail_end_the_collection() {
    let mut run = begun(&limits());
    run.advance(CollectEvent::Looked(Look::Failed("denied".to_string())));
    assert_eq!(
        run.outcome.unwrap().unwrap_err().to_string(),
        "hyperv_result_collection: inspect guest output directory /mnt/output: denied"
    );
    let mut run = begun(&limits());
    run.advance(CollectEvent::Looked(Look::Found(regular(1))));
    assert!(run.outcome.unwrap().unwrap_err().to_string().contains("is not a directory"));
    let mut run = begun(&limits());
    run.advance(CollectEvent::Made(Ok(())));
    assert_eq!(run.step, CollectStep::InspectOutput);
}

fn rescue(guest: &Guest) -> Result<PartialCollection, SandboxError> {
    let mut run =
        Rescue::new(&limits(), HostPath::parse("/mnt"), HostPath::parse("/archive")).unwrap();
    let mut open = vec![];
    for _ in 0..10_000 {
        let event = match run.step {
            RescueStep::CreateArchive => RescueEvent::Made(Ok(())),
            RescueStep::FindOutput => RescueEvent::Looked(guest.look("output")),
            RescueStep::FindStatus => RescueEvent::Looked(guest.look("status")),
            RescueStep::FindTree(_) => {
                RescueEvent::Looked(guest.look(&name_of(run.wanted().unwrap())))
            }
            RescueStep::ReadFile(_) | RescueStep::ReadStatus(_) => {
                RescueEvent::FileRead(guest.read(run.wanted().unwrap()))
            }
            RescueStep::CopyFile(_) | RescueStep::CopyStatus(_) => {
                let name = name_of(run.wanted().unwrap());
                RescueEvent::Copied(Ok(sha256_bytes(&guest.files[&name])))
            }
            RescueStep::WalkTree(_) => {
                RescueEvent::Tree(guest.walk(&run.walk, &mut open, "partial-guest-output"))
            }
            RescueStep::Done => return run.outcome.unwrap(),
        };
        run.advance(event);
    }
    panic!("the rescue does not end");
}

#[test]
fn whatever_is_left_is_rescued() {
    let empty = Guest {
        files: BTreeMap::new(),
        envelope: envelope(false),
        records: BTreeMap::new(),
    };
    assert_eq!(rescue(&empty).unwrap(), PartialCollection { artifact_count: 0, total_bytes: 0 });

    let mut some = Guest {
        files: BTreeMap::new(),
        envelope: envelope(false),
        records: BTreeMap::new(),
    };
    some.files.insert("output/stdout.txt".to_string(), b"partial".to_vec());
    some.files.insert("output/screenshots/a/b.png".to_string(), b"png".to_vec());
    some.files.insert("status/running.json".to_string(), b"{}".to_vec());
    assert_eq!(rescue(&some).unwrap(), PartialCollection { artifact_count: 3, total_bytes: 12 });

    some.files.insert("output/screenshots/a/B.PNG".to_string(), b"png".to_vec());
    assert!(rescue(&some).unwrap_err().to_string().contains("case-insensitive duplicate"));
}

fn copying(expected: u64) -> ArtifactCopy {
    let mut run = ArtifactCopy::copy_new_bounded("/guest/a", "/archive/a", expected);
    run.advance(CopyEvent::Settled(Ok(())));
    run.advance(CopyEvent::Settled(Ok(())));
    assert_eq!(run.step, CopyStep::Read);
    run
}

#[test]
fn artifacts_are_copied_whole_and_sealed() {
    let mut run = copying(5);
    run.advance(CopyEvent::Read(Ok(b"abc".to_vec())));
    assert_eq!(run.step, CopyStep::Write);
    run.advance(CopyEvent::Settled(Ok(())));
    run.advance(CopyEvent::Read(Ok(b"de".to_vec())));
    run.advance(CopyEvent::Settled(Ok(())));
    run.advance(CopyEvent::Read(Ok(Vec::new())));
    assert_eq!(run.step, CopyStep::Flush);
    run.advance(CopyEvent::Settled(Ok(())));
    run.advance(CopyEvent::Settled(Ok(())));
    assert!(!run.discard);
    assert_eq!(run.outcome.unwrap().unwrap(), sha256_bytes(b"abcde"));
}

#[test]
fn copies_of_changing_artifacts_are_discarded() {
    let mut run = copying(2);
    run.advance(CopyEvent::Read(Ok(b"abc".to_vec())));
    assert!(run.discard);
    assert_eq!(
        run.outcome.unwrap().unwrap_err().message,
        "guest artifact grew while it was being copied"
    );
    let mut run = copying(2);
    run.advance(CopyEvent::Read(Ok(Vec::new())));
    assert!(run.discard);
    assert_eq!(
        run.outcome.unwrap().unwrap_err().message,
        "guest artifact changed while it was being copied"
    );
    let mut run = copying(2);
    run.advance(CopyEvent::Read(Err("gone".to_string())));
    assert!(run.discard);
    assert_eq!(run.outcome.unwrap().unwrap_err().message, "read guest artifact /guest/a");

    let mut run = ArtifactCopy::copy_new_bounded("/guest/a", "/archive/a", 2);
    run.advance(CopyEvent::Settled(Ok(())));
    run.advance(CopyEvent::Settled(Err("exists".to_string())));
    assert!(!run.discard);
    assert_eq!(run.outcome.unwrap().unwrap_err().message, "create archived artifact /archive/a");
}

fn plain(len: u64) -> EntryFacts {
    EntryFacts { link: false, reparse_point: false, directory: false, regular: true, len }
}

#[test]
fn output_files_are_read_whole_or_not_at_all() {
    let mut reading = OutputReading::new("/guest/f", 4);
    reading.advance(OutputEvent::Inspected(Ok(plain(3))));
    reading.advance(OutputEvent::Opened(Ok(())));
    assert_eq!(reading.step, OutputStep::Read);
    reading.advance(OutputEvent::Read(Ok(b"abc".to_vec())));
    assert_eq!(reading.outcome.unwrap().unwrap(), b"abc");

    let mut reading = OutputReading::new("/guest/f", 4);
    reading.advance(OutputEvent::Inspected(Ok(plain(3))));
    reading.advance(OutputEvent::Opened(Ok(())));
    reading.advance(OutputEvent::Read(Ok(b"abcd".to_vec())));
    assert_eq!(
        reading.outcome.unwrap().unwrap_err().message,
        "guest output changed or exceeded its limit while being read"
    );

    let mut reading = OutputReading::new("/guest/f", 4);
    reading.advance(OutputEvent::Inspected(Ok(plain(5))));
    assert_eq!(
        reading.outcome.unwrap().unwrap_err().message,
        "guest output is non-regular or oversized: /guest/f"
    );

    let mut reading = OutputReading::new("/guest/f", 4);
    reading.advance(OutputEvent::Inspected(Err("absent".to_string())));
    assert_eq!(reading.outcome.unwrap().unwrap_err().message, "inspect guest output /guest/f");
}
