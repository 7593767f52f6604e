use foxhole::digest::sha256_bytes;
use foxhole::host_path::{HostPath, PathStyle};
use foxhole::hyperv::guest_protocol::{
    ArtifactManifestEntry, GuestTerminalOutcome, ProtocolState, StatusRecord,
};
use foxhole::hyperv::result_collector::{
    accept_bounded_bytes, add_total_bytes, archived_place, charge_tree_entry, check_event_list,
    check_tree_depth, classify_tree_entry, collect_partial, decode_captured_stream, read_warnings,
    register_archive_path, reject_link_or_reparse, validate_artifact_manifest, validate_limits,
    validate_relative_path, validate_status_chain, Archive, BoundedCopy, CollectedArtifact,
    CollectionLimits, EntryFacts, TreeEntry, MAX_GUEST_TREE_ENTRIES,
};

fn path(shown: &str) -> HostPath {
    HostPath::parse(shown)
}

#[test]
fn captured_stream_decoder_handles_mixed_native_and_utf16_text() {
    let mut bytes = b"Access is denied.\r\n".to_vec();
    bytes.extend(
        "Windows PowerShell terminated with the following error:\r\n"
            .encode_utf16()
            .flat_map(u16::to_le_bytes),
    );
    let decoded = decode_captured_stream(&bytes);
    assert!(decoded.contains("Access is denied."));
    assert!(decoded.contains("Windows PowerShell terminated"));
    assert!(!decoded.contains('\0'));
}

#[test]
fn captured_stream_decoder_handles_utf16_bom() {
    let mut bytes = vec![0xff, 0xfe];
    bytes.extend("diagnostic".encode_utf16().flat_map(u16::to_le_bytes));
    assert_eq!(decode_captured_stream(&bytes), "diagnostic");
}

#[test]
fn malformed_text_is_decoded_with_replacement_characters() {
    assert_eq!(decode_captured_stream(b"a\xffb"), "a\u{fffd}b");
    assert_eq!(decode_captured_stream(&[0xff, 0xfe, 0x00, 0xd8]), "\u{fffd}");
    assert_eq!(decode_captured_stream(b""), "");
}

#[test]
fn relative_artifact_paths_are_strict() {
    assert!(validate_relative_path(&path("nested/file.bin")).is_ok());
    for invalid in ["", "../escape", "/absolute", "./same"] {
        assert!(validate_relative_path(&path(invalid)).is_err());
    }
}

#[test]
fn invalid_limit_relationships_fail_closed() {
    let mut limits = CollectionLimits::default();
    assert!(validate_limits(&limits).is_ok());
    limits.maximum_artifact_bytes = limits.maximum_total_bytes + 1;
    assert!(validate_limits(&limits).is_err());
}

#[test]
fn every_guest_tree_entry_consumes_the_shared_budget() {
    let mut visited = MAX_GUEST_TREE_ENTRIES - 1;
    charge_tree_entry(&mut visited).expect("the final allowed entry remains valid");
    let error = charge_tree_entry(&mut visited).expect_err("entry 4097 must be rejected");
    assert!(error.to_string().contains("aggregate entry limit"));
}

fn chain(run_id: &str, request_hash: &str, result_hash: &str) -> Vec<StatusRecord> {
    let states = [
        ProtocolState::HostReady,
        ProtocolState::RequestWritten,
        ProtocolState::StartAllowed,
        ProtocolState::GuestReady,
        ProtocolState::Running,
        ProtocolState::Completed,
        ProtocolState::ShutdownReady,
    ];
    let mut records = Vec::new();
    for (index, state) in states.into_iter().enumerate() {
        let mut record = StatusRecord::new(run_id, index as u64 + 1, state);
        record.request_sha256 = Some(request_hash.to_string());
        if matches!(state, ProtocolState::Completed | ProtocolState::ShutdownReady) {
            record.result_sha256 = Some(result_hash.to_string());
        }
        records.push(record);
    }
    records
}

#[test]
fn status_chain_binds_request_and_result_hashes() {
    let run_id = "0123456789abcdef";
    let request_hash = "ab".repeat(32);
    let result_hash = "cd".repeat(32);
    assert!(validate_status_chain(
        chain(run_id, &request_hash, &result_hash),
        run_id,
        &request_hash,
        &result_hash,
        GuestTerminalOutcome::Completed,
    )
    .is_ok());
    assert!(validate_status_chain(
        chain(run_id, &request_hash, &result_hash),
        run_id,
        &request_hash,
        &"ef".repeat(32),
        GuestTerminalOutcome::Completed,
    )
    .is_err());
}

#[test]
fn status_chains_may_come_in_any_order_but_not_incomplete() {
    let run_id = "0123456789abcdef";
    let request_hash = "ab".repeat(32);
    let result_hash = "cd".repeat(32);
    let mut records = chain(run_id, &request_hash, &result_hash);
    records.reverse();
    assert!(validate_status_chain(
        records,
        run_id,
        &request_hash,
        &result_hash,
        GuestTerminalOutcome::Completed,
    )
    .is_ok());
    let mut records = chain(run_id, &request_hash, &result_hash);
    records.pop();
    assert!(validate_status_chain(
        records,
        run_id,
        &request_hash,
        &result_hash,
        GuestTerminalOutcome::Completed,
    )
    .is_err());
}

const PLAIN: EntryFacts =
    EntryFacts { link: false, reparse_point: false, directory: false, regular: true, len: 3 };

#[test]
fn links_and_special_files_are_rejected() {
    assert!(reject_link_or_reparse("f", PLAIN).is_ok());
    assert!(reject_link_or_reparse("f", EntryFacts { link: true, ..PLAIN }).is_err());
    assert!(reject_link_or_reparse("f", EntryFacts { reparse_point: true, ..PLAIN }).is_err());
    assert!(matches!(classify_tree_entry("f", PLAIN), Ok(TreeEntry::Archive)));
    let directory = EntryFacts { regular: false, directory: true, ..PLAIN };
    assert!(matches!(classify_tree_entry("f", directory), Ok(TreeEntry::Descend)));
    assert!(classify_tree_entry("f", EntryFacts { regular: false, ..PLAIN }).is_err());
    assert!(accept_bounded_bytes(b"abc", PLAIN, 3).is_ok());
    assert!(accept_bounded_bytes(b"abcd", PLAIN, 4).is_err());
    assert!(check_tree_depth(0).is_ok());
    assert!(check_tree_depth(1_000_000).is_err());
}

#[test]
fn archives_stay_within_their_limits() {
    let limits = CollectionLimits::default();
    let mut total: u64 = 0;
    assert!(add_total_bytes(&mut total, limits.maximum_total_bytes, &limits).is_ok());
    assert!(add_total_bytes(&mut total, 1, &limits).is_err());

    let mut names = Vec::new();
    register_archive_path("out/a.bin", &mut names).unwrap();
    assert!(register_archive_path("OUT/A.BIN", &mut names).is_err());

    let mut archive = Archive::new(&limits);
    let place = archived_place(PathStyle::Unix, "extracted", "a.bin");
    assert_eq!(place.shown, "extracted/a.bin");
    archive.archive_tree_file(&place, 3).unwrap();
    let mut copy = BoundedCopy::new(3);
    copy.absorb(b"abc").unwrap();
    archive.record_tree_file(&place, 3, copy.finish().unwrap());
    let kept = collect_partial(&archive);
    assert_eq!(kept.artifact_count, 1);
    assert_eq!(kept.total_bytes, 3);

    let mut copy = BoundedCopy::new(3);
    copy.absorb(b"ab").unwrap();
    assert!(copy.finish().is_err());
    let mut copy = BoundedCopy::new(3);
    assert!(copy.absorb(b"abcd").is_err());
}

#[test]
fn claimed_artifacts_must_be_collected() {
    let claim = ArtifactManifestEntry {
        relative_path: "extracted/a.bin".into(),
        size_bytes: 3,
        sha256: sha256_bytes(b"abc"),
        kind: "extracted_file".into(),
    };
    let limits = CollectionLimits::default();
    let mut archive = Archive::new(&limits);
    assert!(validate_artifact_manifest(&vec![claim.clone()], &archive.artifacts).is_err());
    let place = path("guest-output/extracted/a.bin");
    archive.archive_tree_file(&place, 3).unwrap();
    archive.record_tree_file(&place, 3, sha256_bytes(b"abc"));
    let collected: &Vec<CollectedArtifact> = &archive.artifacts;
    assert!(validate_artifact_manifest(&vec![claim.clone()], collected).is_ok());
    let mut altered = claim;
    altered.sha256 = sha256_bytes(b"abd");
    assert!(validate_artifact_manifest(&vec![altered], collected).is_err());
}

#[test]
fn event_lists_are_compared_as_values() {
    assert!(check_event_list("processes", b"[ {\"a\":1,\"b\":2} ]", b"[{\"b\":2,\"a\":1}]").is_ok());
    assert!(check_event_list("processes", b"[1]", b"[2]").is_err());
    assert!(check_event_list("processes", b"[1", b"[1]").is_err());
    let first = check_event_list("processes", b"[1", b"{\"a\"").unwrap_err().to_string();
    assert_eq!(first, check_event_list("processes", b"[1", b"[1]").unwrap_err().to_string());
    assert_ne!(first, check_event_list("processes", b"[1]", b"{\"a\"").unwrap_err().to_string());
}

#[test]
fn warning_lines_are_read() {
    let warnings = read_warnings(b"first\n\nsecond\n");
    assert!(warnings.contains(&"first".to_string()));
    assert!(warnings.contains(&"second".to_string()));
}
