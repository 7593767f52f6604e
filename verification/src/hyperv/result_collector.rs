//! Collecting what the guest left: bounded reading, archiving within budgets, and the checks that
//! bind it to the request and to the published states.

use vstd::prelude::*;
use vstd::string::*;

use crate::address_text;
use crate::artifact;
use crate::backend;
use crate::backend::{list_contains, SandboxError, SandboxResult};
use crate::digest;
use crate::digest::StreamDigest;
use crate::host_path;
use crate::host_path::{HostPath, PathPart, PathStyle};
use crate::hyperv::guest_protocol;
use crate::hyperv::guest_protocol::{
    ArtifactManifestEntry, GuestResultEnvelope, GuestTerminalOutcome, MachineView, ProtocolState,
    ProtocolStateMachine, StatusRecord,
};
use crate::structs::SandboxRunResult;
use crate::text;

verus! {

pub const DEFAULT_MAX_RESULT_BYTES: u64 = 33_554_432;

pub const DEFAULT_MAX_STREAM_BYTES: u64 = 8_388_608;

pub const DEFAULT_MAX_ARTIFACT_BYTES: u64 = 67_108_864;

pub const DEFAULT_MAX_TOTAL_BYTES: u64 = 536_870_912;

pub const DEFAULT_MAX_ARTIFACTS: u64 = 512;

pub const MAX_GUEST_TREE_ENTRIES: u64 = 4096;

pub const MAX_TREE_DEPTH: usize = 16;

pub const MAX_STATUS_ENTRIES: u64 = 16;

pub const MAX_WARNING_LINES: usize = 1024;

pub const MAX_WARNING_LINE_CHARS: usize = 1024;

/// An error of the collection.
pub open spec fn collection_fault(message: Seq<char>) -> backend::Fault {
    backend::fault("hyperv_result_collection"@, message)
}

fn collection_error(message: &str) -> (error: SandboxError)
    ensures
        error@ == collection_fault(message@),
{
    SandboxError::new("hyperv_result_collection", message)
}

/// A protocol error as an error of the collection.
pub open spec fn protocol_refusal(fault: guest_protocol::ProtocolFault) -> backend::Fault {
    collection_fault(guest_protocol::protocol_fault_text(fault))
}

fn protocol_error(error: &guest_protocol::ProtocolError) -> (refusal: SandboxError)
    ensures
        refusal@ == protocol_refusal(error@),
{
    let shown = error.to_string();
    collection_error(shown.as_str())
}

// ---------------------------------------------------------------------------------------------
// Limits
// ---------------------------------------------------------------------------------------------

#[derive(Clone, Copy, Debug, PartialEq, Eq, Structural)]
pub struct CollectionLimits {
    pub maximum_result_bytes: u64,
    pub maximum_stream_bytes: u64,
    pub maximum_artifact_bytes: u64,
    pub maximum_total_bytes: u64,
    pub maximum_artifacts: u64,
}

/// The limits that hold unless others are set.
pub open spec fn default_limits() -> CollectionLimits {
    CollectionLimits {
        maximum_result_bytes: DEFAULT_MAX_RESULT_BYTES,
        maximum_stream_bytes: DEFAULT_MAX_STREAM_BYTES,
        maximum_artifact_bytes: DEFAULT_MAX_ARTIFACT_BYTES,
        maximum_total_bytes: DEFAULT_MAX_TOTAL_BYTES,
        maximum_artifacts: DEFAULT_MAX_ARTIFACTS,
    }
}

impl Default for CollectionLimits {
    fn default() -> (limits: CollectionLimits)
        ensures
            limits == default_limits(),
    {
        CollectionLimits {
            maximum_result_bytes: DEFAULT_MAX_RESULT_BYTES,
            maximum_stream_bytes: DEFAULT_MAX_STREAM_BYTES,
            maximum_artifact_bytes: DEFAULT_MAX_ARTIFACT_BYTES,
            maximum_total_bytes: DEFAULT_MAX_TOTAL_BYTES,
            maximum_artifacts: DEFAULT_MAX_ARTIFACTS,
        }
    }
}

impl CollectionLimits {
    pub open spec fn verdict(self) -> Result<(), backend::Fault> {
        if 0 < self.maximum_result_bytes <= self.maximum_total_bytes && 0
            < self.maximum_stream_bytes <= self.maximum_total_bytes && 0
            < self.maximum_artifact_bytes <= self.maximum_total_bytes && self.maximum_artifacts > 0 {
            Ok(())
        } else {
            Err(collection_fault("guest result collection limits are invalid"@))
        }
    }
}

pub fn validate_limits(limits: &CollectionLimits) -> (verdict: SandboxResult<()>)
    ensures
        backend::outcome(verdict) == limits.verdict(),
{
    if limits.maximum_result_bytes == 0 || limits.maximum_stream_bytes == 0
        || limits.maximum_artifact_bytes == 0 || limits.maximum_total_bytes == 0
        || limits.maximum_artifacts == 0 || limits.maximum_result_bytes > limits.maximum_total_bytes
        || limits.maximum_stream_bytes > limits.maximum_total_bytes || limits.maximum_artifact_bytes
        > limits.maximum_total_bytes {
        return Err(collection_error("guest result collection limits are invalid"));
    }
    Ok(())
}

// ---------------------------------------------------------------------------------------------
// Entries of the guest's directories
// ---------------------------------------------------------------------------------------------

/// What an entry of a directory is, links not followed.
#[derive(Clone, Copy, Debug, PartialEq, Eq, Structural)]
pub struct EntryFacts {
    pub link: bool,
    pub reparse_point: bool,
    pub directory: bool,
    pub regular: bool,
    pub len: u64,
}

pub open spec fn link_verdict(shown: Seq<char>, facts: EntryFacts) -> Result<(), backend::Fault> {
    if facts.link {
        Err(collection_fault("guest output contains a symbolic link: "@ + shown))
    } else if facts.reparse_point {
        Err(collection_fault("guest output contains a reparse point: "@ + shown))
    } else {
        Ok(())
    }
}

pub fn reject_link_or_reparse(shown: &str, facts: EntryFacts) -> (verdict: SandboxResult<()>)
    ensures
        backend::outcome(verdict) == link_verdict(shown@, facts),
{
    if facts.link {
        let message = text::cat2("guest output contains a symbolic link: ", shown);
        return Err(collection_error(message.as_str()));
    }
    if facts.reparse_point {
        let message = text::cat2("guest output contains a reparse point: ", shown);
        return Err(collection_error(message.as_str()));
    }
    Ok(())
}

pub open spec fn plain_directory_verdict(shown: Seq<char>, facts: EntryFacts) -> Result<
    (),
    backend::Fault,
> {
    backend::both(
        link_verdict(shown, facts),
        if facts.directory {
            Ok(())
        } else {
            Err(collection_fault("guest output path is not a directory: "@ + shown))
        },
    )
}

pub fn validate_plain_directory(shown: &str, facts: EntryFacts) -> (verdict: SandboxResult<()>)
    ensures
        backend::outcome(verdict) == plain_directory_verdict(shown@, facts),
{
    match reject_link_or_reparse(shown, facts) {
        Err(error) => {
            return Err(error);
        },
        Ok(_) => {},
    }
    if !facts.directory {
        let message = text::cat2("guest output path is not a directory: ", shown);
        return Err(collection_error(message.as_str()));
    }
    Ok(())
}

pub open spec fn readable_verdict(shown: Seq<char>, facts: EntryFacts, maximum: u64) -> Result<
    (),
    backend::Fault,
> {
    backend::both(
        link_verdict(shown, facts),
        if facts.regular && facts.len <= maximum {
            Ok(())
        } else {
            Err(collection_fault("guest output is non-regular or oversized: "@ + shown))
        },
    )
}

/// Whether an output file may be read; at most one byte more than `maximum` is then read of it.
pub fn read_bounded_file(shown: &str, facts: EntryFacts, maximum: u64) -> (verdict: SandboxResult<()>)
    ensures
        backend::outcome(verdict) == readable_verdict(shown@, facts, maximum),
{
    match reject_link_or_reparse(shown, facts) {
        Err(error) => {
            return Err(error);
        },
        Ok(_) => {},
    }
    if !facts.regular || facts.len > maximum {
        let message = text::cat2("guest output is non-regular or oversized: ", shown);
        return Err(collection_error(message.as_str()));
    }
    Ok(())
}

pub open spec fn bytes_verdict(bytes: Seq<u8>, facts: EntryFacts, maximum: u64) -> Result<
    (),
    backend::Fault,
> {
    if bytes.len() == facts.len && bytes.len() <= maximum {
        Ok(())
    } else {
        Err(collection_fault("guest output changed or exceeded its limit while being read"@))
    }
}

/// Whether the bytes read of an output file are the whole file, as it was before.
pub fn accept_bounded_bytes(bytes: &[u8], facts: EntryFacts, maximum: u64) -> (verdict: SandboxResult<
    (),
>)
    ensures
        backend::outcome(verdict) == bytes_verdict(bytes@, facts, maximum),
{
    let read: u64 = bytes.len() as u64;
    if read != facts.len || read > maximum {
        return Err(
            collection_error("guest output changed or exceeded its limit while being read"),
        );
    }
    Ok(())
}

/// Charges one more entry of the guest's tree to the shared budget.
pub fn charge_tree_entry(visited_entries: &mut u64) -> (verdict: SandboxResult<()>)
    ensures
        *final(visited_entries) == if *old(visited_entries) < u64::MAX {
            *old(visited_entries) + 1
        } else {
            *old(visited_entries) as int
        },
        backend::outcome(verdict) == if *old(visited_entries) == u64::MAX {
            Err(collection_fault("guest artifact entry count overflowed"@))
        } else if *old(visited_entries) + 1 > MAX_GUEST_TREE_ENTRIES {
            Err(collection_fault("guest artifact tree exceeds the aggregate entry limit"@))
        } else {
            Ok(())
        },
{
    match visited_entries.checked_add(1) {
        None => {
            return Err(collection_error("guest artifact entry count overflowed"));
        },
        Some(visited) => {
            *visited_entries = visited;
        },
    }
    if *visited_entries > MAX_GUEST_TREE_ENTRIES {
        return Err(collection_error("guest artifact tree exceeds the aggregate entry limit"));
    }
    Ok(())
}

/// Whether the guest's tree may be entered at this depth.
pub fn check_tree_depth(depth: usize) -> (verdict: SandboxResult<()>)
    ensures
        backend::outcome(verdict) == if depth > MAX_TREE_DEPTH {
            Err(collection_fault("guest artifact directory nesting exceeds 16 levels"@))
        } else {
            Ok(())
        },
{
    if depth > MAX_TREE_DEPTH {
        return Err(collection_error("guest artifact directory nesting exceeds 16 levels"));
    }
    Ok(())
}

/// Adds to the bytes of the whole collection.
pub fn add_total_bytes(total: &mut u64, additional: u64, limits: &CollectionLimits) -> (verdict:
    SandboxResult<()>)
    ensures
        *final(total) == if *old(total) + additional <= u64::MAX {
            *old(total) + additional
        } else {
            *old(total) as int
        },
        backend::outcome(verdict) == if *old(total) + additional > u64::MAX {
            Err(collection_fault("guest output aggregate byte count overflowed"@))
        } else if *old(total) + additional > limits.maximum_total_bytes {
            Err(collection_fault("guest output exceeds the aggregate size limit"@))
        } else {
            Ok(())
        },
{
    match total.checked_add(additional) {
        None => {
            return Err(collection_error("guest output aggregate byte count overflowed"));
        },
        Some(sum) => {
            *total = sum;
        },
    }
    if *total > limits.maximum_total_bytes {
        return Err(collection_error("guest output exceeds the aggregate size limit"));
    }
    Ok(())
}

/// Whether the archive may be created there.
pub fn prepare_archive_root(path: &HostPath) -> (verdict: SandboxResult<()>)
    ensures
        backend::outcome(verdict) == if path.absolute {
            Ok(())
        } else {
            Err(collection_fault("artifact archive root must be absolute"@))
        },
{
    if !path.is_absolute() {
        return Err(collection_error("artifact archive root must be absolute"));
    }
    Ok(())
}

// ---------------------------------------------------------------------------------------------
// Archived paths
// ---------------------------------------------------------------------------------------------

/// Every part is a plain name.
pub open spec fn plain_parts(path: &HostPath) -> bool {
    forall|i: int| 0 <= i < path.parts@.len() ==> is_plain(#[trigger] path.parts@[i])
}

pub open spec fn is_plain(part: PathPart) -> bool {
    part is Normal || part is Opaque
}

/// Every part is a name that is safe on Windows.
pub open spec fn safe_parts(path: &HostPath) -> bool {
    forall|i: int| 0 <= i < path.parts@.len() ==> is_safe_part(#[trigger] path.parts@[i])
}

pub open spec fn is_safe_part(part: PathPart) -> bool {
    match part {
        PathPart::Normal(name) => artifact::safe_windows_name(name@),
        _ => false,
    }
}

pub open spec fn relative_path_verdict(path: &HostPath) -> Result<(), backend::Fault> {
    if path.shown@.len() == 0 || path.absolute || !plain_parts(path) {
        Err(collection_fault("guest artifact path is empty, absolute, or contains traversal"@))
    } else if !safe_parts(path) {
        Err(
            backend::fault_from(
                "hyperv_result_collection"@,
                "guest artifact name is unsafe on the Windows host"@,
                "file name is reserved or malformed"@,
            ),
        )
    } else {
        Ok(())
    }
}

pub fn validate_relative_path(path: &HostPath) -> (verdict: SandboxResult<()>)
    ensures
        backend::outcome(verdict) == relative_path_verdict(path),
{
    let mut plain = true;
    let mut safe = true;
    let mut i: usize = 0;
    while i < path.parts.len()
        invariant
            i <= path.parts@.len(),
            plain == (forall|j: int| 0 <= j < i ==> is_plain(#[trigger] path.parts@[j])),
            safe == (forall|j: int| 0 <= j < i ==> is_safe_part(#[trigger] path.parts@[j])),
        decreases path.parts@.len() - i,
    {
        match &path.parts[i] {
            PathPart::Normal(name) => {
                if !artifact::is_safe_windows_name(name.as_str()) {
                    proof {
                        assert(!is_safe_part(path.parts@[i as int]));
                    }
                    safe = false;
                }
            },
            PathPart::Opaque(_, _) => {
                proof {
                    assert(!is_safe_part(path.parts@[i as int]));
                }
                safe = false;
            },
            _ => {
                proof {
                    assert(!is_safe_part(path.parts@[i as int]));
                    assert(!is_plain(path.parts@[i as int]));
                }
                plain = false;
                safe = false;
            },
        }
        i = i + 1;
    }
    if path.shown.as_str().is_empty() || path.is_absolute() || !plain {
        return Err(
            collection_error("guest artifact path is empty, absolute, or contains traversal"),
        );
    }
    if !safe {
        return Err(
            SandboxError::with_source(
                "hyperv_result_collection",
                "guest artifact name is unsafe on the Windows host",
                "file name is reserved or malformed",
            ),
        );
    }
    Ok(())
}

/// A path text with slashes in place of backslashes.
pub open spec fn slashed(shown: Seq<char>) -> Seq<char> {
    Seq::new(
        shown.len(),
        |i: int|
            if shown[i] == '\\' {
                '/'
            } else {
                shown[i]
            },
    )
}

/// The form in which archived paths are compared.
pub open spec fn folded_path(shown: Seq<char>) -> Seq<char> {
    text::unicode_lower(slashed(shown))
}

fn fold_path(shown: &str) -> (folded: String)
    ensures
        folded@ == folded_path(shown@),
{
    let chars = text::chars_of(shown);
    let mut replaced: String = String::new();
    let mut i: usize = 0;
    while i < chars.len()
        invariant
            i <= chars@.len(),
            chars@ == shown@,
            replaced@ == slashed(shown@).take(i as int),
        decreases chars@.len() - i,
    {
        let c = chars[i];
        replaced.push(
            if c == '\\' {
                '/'
            } else {
                c
            },
        );
        proof {
            assert(slashed(shown@).take(i + 1) =~= slashed(shown@).take(i as int).push(
                slashed(shown@)[i as int],
            ));
        }
        i = i + 1;
    }
    proof {
        assert(slashed(shown@).take(i as int) =~= slashed(shown@));
    }
    text::lowercase(replaced.as_str())
}

/// Registers an archived path; one that is there already, in whatever letter case, is refused.
pub fn register_archive_path(shown: &str, paths: &mut Vec<String>) -> (verdict: SandboxResult<()>)
    ensures
        match verdict {
            Ok(_) => {
                &&& !text::views(old(paths)@).contains(folded_path(shown@))
                &&& text::views(final(paths)@) == text::views(old(paths)@).push(folded_path(shown@))
            },
            Err(error) => {
                &&& text::views(old(paths)@).contains(folded_path(shown@))
                &&& *final(paths) == *old(paths)
                &&& error@ == collection_fault(
                    "guest output contains a case-insensitive duplicate archive path"@,
                )
            },
        },
{
    let folded = fold_path(shown);
    let known = list_contains(paths, folded.as_str());
    proof {
        let listed = text::views(paths@);
        if known {
            let k = choose|k: int| 0 <= k < paths@.len() && #[trigger] paths@[k]@ == folded@;
            assert(listed[k] == folded@);
        } else if listed.contains(folded@) {
            let k = choose|k: int| 0 <= k < listed.len() && listed[k] == folded@;
            assert(paths@[k]@ == folded@);
        }
    }
    if known {
        return Err(
            collection_error("guest output contains a case-insensitive duplicate archive path"),
        );
    }
    let ghost before = paths@;
    paths.push(folded);
    proof {
        assert(text::views(paths@) =~= text::views(before).push(folded@));
    }
    Ok(())
}

// ---------------------------------------------------------------------------------------------
// The archive
// ---------------------------------------------------------------------------------------------

#[derive(Clone, Debug, PartialEq, Eq)]
pub struct CollectedArtifact {
    pub relative_path: HostPath,
    pub size_bytes: u64,
    pub sha256: String,
}

/// What was archived so far, within the limits.
#[derive(Debug)]
pub struct Archive {
    pub limits: CollectionLimits,
    pub artifacts: Vec<CollectedArtifact>,
    pub archived_paths: Vec<String>,
    pub total_bytes: u64,
    pub visited_entries: u64,
}

/// The bytes of all artifacts together.
pub open spec fn collected_bytes(artifacts: Seq<CollectedArtifact>) -> nat
    decreases artifacts.len(),
{
    if artifacts.len() == 0 {
        0
    } else {
        collected_bytes(artifacts.drop_last()) + artifacts.last().size_bytes as nat
    }
}

/// The places of the artifacts, up to letter case.
pub open spec fn archived_keys(artifacts: Seq<CollectedArtifact>) -> Seq<Seq<char>> {
    artifacts.map_values(|artifact: CollectedArtifact| folded_path(artifact.relative_path.shown@))
}

impl Archive {
    /// The count of the artifacts, the size of each, their sum and their paths keep to the limits.
    pub open spec fn within_limits(&self) -> bool {
        &&& self.artifacts@.len() <= self.limits.maximum_artifacts
        &&& forall|i: int|
            0 <= i < self.artifacts@.len() ==> (#[trigger] self.artifacts@[i]).size_bytes
                <= self.limits.maximum_artifact_bytes
        &&& collected_bytes(self.artifacts@) <= self.total_bytes <= self.limits.maximum_total_bytes
        &&& text::views(self.archived_paths@).no_duplicates()
        &&& self.visited_entries <= MAX_GUEST_TREE_ENTRIES
    }

    /// Every file that was admitted is archived: the paths and the bytes that were charged are those
    /// of the artifacts.
    pub open spec fn settled(&self) -> bool {
        &&& self.within_limits()
        &&& self.total_bytes == collected_bytes(self.artifacts@)
        &&& text::views(self.archived_paths@) == archived_keys(self.artifacts@)
    }

    /// One file of `len` bytes was admitted under `place` and is yet to be archived.
    pub open spec fn awaits(&self, place: &HostPath, len: int) -> bool {
        &&& self.within_limits()
        &&& self.artifacts@.len() < self.limits.maximum_artifacts
        &&& len <= self.limits.maximum_artifact_bytes
        &&& self.total_bytes == collected_bytes(self.artifacts@) + len
        &&& text::views(self.archived_paths@) == archived_keys(self.artifacts@).push(
            folded_path(place.shown@),
        )
    }

    pub fn new(limits: &CollectionLimits) -> (archive: Archive)
        ensures
            archive.limits == *limits,
            archive.artifacts@.len() == 0,
            archive.archived_paths@.len() == 0,
            archive.total_bytes == 0,
            archive.visited_entries == 0,
            archive.settled(),
    {
        let archive = Archive {
            limits: *limits,
            artifacts: Vec::new(),
            archived_paths: Vec::new(),
            total_bytes: 0,
            visited_entries: 0,
        };
        proof {
            assert(text::views(archive.archived_paths@) =~= archived_keys(archive.artifacts@));
        }
        archive
    }

    /// The verdict on one more file; `message` says what exceeds its limit.
    pub open spec fn admission_verdict(&self, relative: &HostPath, len: u64, message: Seq<char>) -> Result<
        (),
        backend::Fault,
    > {
        if self.artifacts@.len() >= self.limits.maximum_artifacts || len
            > self.limits.maximum_artifact_bytes {
            Err(collection_fault(message))
        } else {
            backend::both(
                relative_path_verdict(relative),
                if text::views(self.archived_paths@).contains(folded_path(relative.shown@)) {
                    Err(
                        collection_fault(
                            "guest output contains a case-insensitive duplicate archive path"@,
                        ),
                    )
                } else if self.total_bytes + len > u64::MAX {
                    Err(collection_fault("guest output aggregate byte count overflowed"@))
                } else if self.total_bytes + len > self.limits.maximum_total_bytes {
                    Err(collection_fault("guest output exceeds the aggregate size limit"@))
                } else {
                    Ok(())
                },
            )
        }
    }

    /// The archive once a file was admitted: its path and its bytes are charged.
    pub open spec fn charged(&self, relative: &HostPath, len: u64, later: &Archive) -> bool {
        &&& later.limits == self.limits
        &&& later.artifacts == self.artifacts
        &&& text::views(later.archived_paths@) == text::views(self.archived_paths@).push(
            folded_path(relative.shown@),
        )
        &&& later.total_bytes == self.total_bytes + len
        &&& later.visited_entries == self.visited_entries
    }

    fn admit_file(&mut self, relative: &HostPath, len: u64, message: &str) -> (verdict: SandboxResult<()>)
        ensures
            backend::outcome(verdict) == old(self).admission_verdict(relative, len, message@),
            verdict is Ok ==> old(self).charged(relative, len, final(self)),
            final(self).limits == old(self).limits,
            final(self).artifacts == old(self).artifacts,
    {
        if self.artifacts.len() as u64 >= self.limits.maximum_artifacts || len
            > self.limits.maximum_artifact_bytes {
            return Err(collection_error(message));
        }
        match validate_relative_path(relative) {
            Err(error) => {
                return Err(error);
            },
            Ok(_) => {},
        }
        match register_archive_path(relative.shown.as_str(), &mut self.archived_paths) {
            Err(error) => {
                return Err(error);
            },
            Ok(_) => {},
        }
        let limits = self.limits;
        add_total_bytes(&mut self.total_bytes, len, &limits)
    }

    /// Admits a file of `len` bytes whose place is known beforehand.
    pub fn archive_known_file(&mut self, relative: &HostPath, len: u64) -> (verdict: SandboxResult<()>)
        ensures
            backend::outcome(verdict) == old(self).admission_verdict(
                relative,
                len,
                "guest output count or per-file archive size exceeds its limit"@,
            ),
            verdict is Ok ==> old(self).charged(relative, len, final(self)),
            final(self).limits == old(self).limits,
            final(self).artifacts == old(self).artifacts,
    {
        self.admit_file(
            relative,
            len,
            "guest output count or per-file archive size exceeds its limit",
        )
    }

    /// Admits a file of the guest's tree.
    pub fn archive_tree_file(&mut self, relative: &HostPath, len: u64) -> (verdict: SandboxResult<()>)
        ensures
            backend::outcome(verdict) == old(self).admission_verdict(
                relative,
                len,
                "guest artifact count or per-file size exceeds its limit"@,
            ),
            verdict is Ok ==> old(self).charged(relative, len, final(self)),
            final(self).limits == old(self).limits,
            final(self).artifacts == old(self).artifacts,
    {
        self.admit_file(
            relative,
            len,
            "guest artifact count or per-file size exceeds its limit",
        )
    }

    /// `later` holds one more artifact, of this path, size and digest.
    pub open spec fn recorded(
        &self,
        relative: &HostPath,
        len: u64,
        sha256: Seq<char>,
        later: &Archive,
    ) -> bool {
        &&& later.limits == self.limits
        &&& later.archived_paths == self.archived_paths
        &&& later.total_bytes == self.total_bytes
        &&& later.visited_entries == self.visited_entries
        &&& later.artifacts@.len() == self.artifacts@.len() + 1
        &&& later.artifacts@.drop_last() == self.artifacts@
        &&& later.artifacts@.last().relative_path.copies(relative)
        &&& later.artifacts@.last().size_bytes == len
        &&& later.artifacts@.last().sha256@ == sha256
    }

    fn record(&mut self, relative: &HostPath, len: u64, sha256: String)
        ensures
            old(self).recorded(relative, len, sha256@, final(self)),
    {
        let ghost before = self.artifacts@;
        self.artifacts.push(
            CollectedArtifact { relative_path: relative.duplicate(), size_bytes: len, sha256 },
        );
        proof {
            assert(self.artifacts@.drop_last() =~= before);
        }
    }

    /// Records an admitted file that was copied, unless the copy differs from the bytes that were
    /// checked.
    pub fn record_known_file(&mut self, relative: &HostPath, expected: &[u8], copied_sha256: String) -> (verdict:
        SandboxResult<()>)
        ensures
            match verdict {
                Ok(_) => {
                    &&& copied_sha256@ == digest::sha256_text(expected@)
                    &&& old(self).recorded(
                        relative,
                        expected@.len() as u64,
                        copied_sha256@,
                        final(self),
                    )
                },
                Err(error) => {
                    &&& copied_sha256@ != digest::sha256_text(expected@)
                    &&& *final(self) == *old(self)
                    &&& error@ == collection_fault(
                        "guest output changed between validation and archival"@,
                    )
                },
            },
    {
        let expected_sha256 = digest::sha256_bytes(expected);
        if !text::same_text(copied_sha256.as_str(), expected_sha256.as_str()) {
            return Err(collection_error("guest output changed between validation and archival"));
        }
        self.record(relative, expected.len() as u64, copied_sha256);
        Ok(())
    }

    /// Records an admitted file of the guest's tree that was copied.
    pub fn record_tree_file(&mut self, relative: &HostPath, len: u64, copied_sha256: String)
        ensures
            old(self).recorded(relative, len, copied_sha256@, final(self)),
    {
        self.record(relative, len, copied_sha256);
    }
}

/// What is to be done with an entry of the guest's tree.
#[derive(Clone, Copy, Debug, PartialEq, Eq, Structural)]
pub enum TreeEntry {
    Descend,
    Archive,
}

pub open spec fn tree_entry_value(shown: Seq<char>, facts: EntryFacts) -> Result<
    TreeEntry,
    backend::Fault,
> {
    match link_verdict(shown, facts) {
        Err(error) => Err(error),
        Ok(_) => if facts.directory {
            Ok(TreeEntry::Descend)
        } else if facts.regular {
            Ok(TreeEntry::Archive)
        } else {
            Err(collection_fault("guest artifact is not a regular file: "@ + shown))
        },
    }
}

/// Whether an entry of the guest's tree is entered or archived.
pub fn classify_tree_entry(shown: &str, facts: EntryFacts) -> (entry: SandboxResult<TreeEntry>)
    ensures
        backend::outcome(entry) == tree_entry_value(shown@, facts),
{
    match reject_link_or_reparse(shown, facts) {
        Err(error) => {
            return Err(error);
        },
        Ok(_) => {},
    }
    if facts.directory {
        return Ok(TreeEntry::Descend);
    }
    if !facts.regular {
        let message = text::cat2("guest artifact is not a regular file: ", shown);
        return Err(collection_error(message.as_str()));
    }
    Ok(TreeEntry::Archive)
}

/// The copy of a file into the archive: what was copied so far, of a file of `expected` bytes.
pub struct BoundedCopy {
    stream: StreamDigest,
    expected: u64,
}

impl BoundedCopy {
    pub closed spec fn content(&self) -> Seq<u8> {
        self.stream.content()
    }

    pub closed spec fn spec_expected(&self) -> u64 {
        self.expected
    }

    /// The bytes are counted, and no more than expected.
    pub closed spec fn well_formed(&self) -> bool {
        self.stream.well_formed() && self.stream.content().len() <= self.expected
    }

    pub fn new(expected: u64) -> (copy: BoundedCopy)
        ensures
            copy.well_formed(),
            copy.content() == Seq::<u8>::empty(),
            copy.spec_expected() == expected,
    {
        BoundedCopy { stream: StreamDigest::new(), expected }
    }

    /// Takes in the next bytes of the file, before they are written.
    pub fn absorb(&mut self, chunk: &[u8]) -> (verdict: SandboxResult<()>)
        requires
            old(self).well_formed(),
        ensures
            final(self).well_formed(),
            final(self).spec_expected() == old(self).spec_expected(),
            match verdict {
                Ok(_) => {
                    &&& old(self).content().len() + chunk@.len() <= old(self).spec_expected()
                    &&& final(self).content() == old(self).content() + chunk@
                },
                Err(error) => {
                    &&& old(self).content().len() + chunk@.len() > old(self).spec_expected()
                    &&& *final(self) == *old(self)
                    &&& error@ == collection_fault("guest artifact grew while it was being copied"@)
                },
            },
    {
        let within = chunk.len() as u64 <= self.expected - self.stream.copied;
        if !within {
            return Err(collection_error("guest artifact grew while it was being copied"));
        }
        self.stream.absorb(chunk);
        Ok(())
    }

    /// Ends the copy: the digest of the file, where all of it was copied.
    pub fn finish(self) -> (sha256: SandboxResult<String>)
        requires
            self.well_formed(),
        ensures
            match sha256 {
                Ok(shown) => {
                    &&& self.content().len() == self.spec_expected()
                    &&& shown@ == digest::sha256_text(self.content())
                },
                Err(error) => {
                    &&& self.content().len() != self.spec_expected()
                    &&& error@ == collection_fault(
                        "guest artifact changed while it was being copied"@,
                    )
                },
            },
    {
        match self.stream.finish_exactly(self.expected) {
            Some(shown) => Ok(shown),
            None => Err(collection_error("guest artifact changed while it was being copied")),
        }
    }
}

// ---------------------------------------------------------------------------------------------
// The claimed artifacts
// ---------------------------------------------------------------------------------------------

/// The last collected artifact at the folded path `key`, if there is one.
pub open spec fn collected_at(artifacts: Seq<CollectedArtifact>, key: Seq<char>) -> Option<
    CollectedArtifact,
>
    decreases artifacts.len(),
{
    if artifacts.len() == 0 {
        None
    } else if folded_path(artifacts.last().relative_path.shown@) == key {
        Some(artifacts.last())
    } else {
        collected_at(artifacts.drop_last(), key)
    }
}

/// Where a claimed artifact is archived.
pub open spec fn claimed_key(claimed: &ArtifactManifestEntry) -> Seq<char> {
    text::unicode_lower("guest-output/"@ + claimed.relative_path@)
}

pub open spec fn claim_verdict(
    claimed: &ArtifactManifestEntry,
    artifacts: Seq<CollectedArtifact>,
) -> Result<(), backend::Fault> {
    match collected_at(artifacts, claimed_key(claimed)) {
        None => Err(
            collection_fault(
                "guest artifact manifest refers to a missing file: "@ + claimed.relative_path@,
            ),
        ),
        Some(observed) => if observed.size_bytes != claimed.size_bytes || !text::same_ignoring_case(
            observed.sha256@,
            claimed.sha256@,
        ) {
            Err(
                collection_fault(
                    "guest artifact manifest hash or size is wrong: "@ + claimed.relative_path@,
                ),
            )
        } else {
            Ok(())
        },
    }
}

pub open spec fn claims_verdict(
    claims: Seq<ArtifactManifestEntry>,
    artifacts: Seq<CollectedArtifact>,
    from: int,
) -> Result<(), backend::Fault>
    decreases claims.len() - from,
{
    if from >= claims.len() {
        Ok(())
    } else {
        backend::both(
            claim_verdict(&claims[from], artifacts),
            claims_verdict(claims, artifacts, from + 1),
        )
    }
}

fn find_collected<'a>(artifacts: &'a Vec<CollectedArtifact>, key: &str) -> (found: Option<
    &'a CollectedArtifact,
>)
    ensures
        match (collected_at(artifacts@, key@), found) {
            (Some(expected), Some(artifact)) => *artifact == expected,
            (None, None) => true,
            _ => false,
        },
{
    let mut end: usize = artifacts.len();
    proof {
        assert(artifacts@.take(end as int) =~= artifacts@);
    }
    while end > 0
        invariant
            end <= artifacts@.len(),
            collected_at(artifacts@.take(end as int), key@) == collected_at(artifacts@, key@),
        decreases end,
    {
        let folded = fold_path(artifacts[end - 1].relative_path.shown.as_str());
        proof {
            assert(artifacts@.take(end as int).last() == artifacts@[end - 1]);
            assert(artifacts@.take(end as int).drop_last() =~= artifacts@.take(end - 1));
        }
        if text::same_text(folded.as_str(), key) {
            return Some(&artifacts[end - 1]);
        }
        end = end - 1;
    }
    None
}

/// Checks that every artifact that the result claims was collected with its size and digest.
pub fn validate_artifact_manifest(
    claims: &Vec<ArtifactManifestEntry>,
    artifacts: &Vec<CollectedArtifact>,
) -> (verdict: SandboxResult<()>)
    ensures
        backend::outcome(verdict) == claims_verdict(claims@, artifacts@, 0),
{
    let mut i: usize = 0;
    while i < claims.len()
        invariant
            i <= claims@.len(),
            claims_verdict(claims@, artifacts@, 0) == claims_verdict(claims@, artifacts@, i as int),
        decreases claims@.len() - i,
    {
        let claimed = &claims[i];
        let place = text::cat2("guest-output/", claimed.relative_path.as_str());
        let key = text::lowercase(place.as_str());
        match find_collected(artifacts, key.as_str()) {
            None => {
                let message = text::cat2(
                    "guest artifact manifest refers to a missing file: ",
                    claimed.relative_path.as_str(),
                );
                return Err(collection_error(message.as_str()));
            },
            Some(observed) => {
                if observed.size_bytes != claimed.size_bytes || !text::eq_ignoring_case(
                    observed.sha256.as_str(),
                    claimed.sha256.as_str(),
                ) {
                    let message = text::cat2(
                        "guest artifact manifest hash or size is wrong: ",
                        claimed.relative_path.as_str(),
                    );
                    return Err(collection_error(message.as_str()));
                }
            },
        }
        i = i + 1;
    }
    Ok(())
}

// ---------------------------------------------------------------------------------------------
// Captured streams
// ---------------------------------------------------------------------------------------------

/// The text that `String::from_utf16_lossy` gives.
pub uninterp spec fn utf16_lossy(units: Seq<u16>) -> Seq<char>;

/// `String::from_utf16_lossy` depends on the units alone. How unpaired surrogates are replaced is
/// not spelled out here.
#[verifier::external_body]
fn utf16_text(units: &[u16]) -> (shown: String)
    ensures
        shown@ == utf16_lossy(units@),
{
    String::from_utf16_lossy(units)
}

/// The byte pairs as numbers, the low byte first or last. A single byte at the end is left out.
pub open spec fn units_of(bytes: Seq<u8>, little: bool) -> Seq<u16> {
    Seq::new(
        bytes.len() / 2,
        |i: int|
            if little {
                (bytes[2 * i] + 256 * bytes[2 * i + 1]) as u16
            } else {
                (256 * bytes[2 * i] + bytes[2 * i + 1]) as u16
            },
    )
}

/// The bytes other than zero.
pub open spec fn without_nuls(bytes: Seq<u8>) -> Seq<u8>
    decreases bytes.len(),
{
    if bytes.len() == 0 {
        Seq::empty()
    } else if bytes.last() == 0 {
        without_nuls(bytes.drop_last())
    } else {
        without_nuls(bytes.drop_last()).push(bytes.last())
    }
}

/// The count of zero bytes.
pub open spec fn nul_count(bytes: Seq<u8>) -> int {
    bytes.len() - without_nuls(bytes).len()
}

/// The text of a stream: UTF-16 behind a byte order mark; where zero bytes are frequent, the rest
/// without them; else UTF-8.
pub open spec fn decoded_stream(bytes: Seq<u8>) -> Seq<char> {
    if bytes.len() >= 2 && bytes[0] == 0xff && bytes[1] == 0xfe {
        utf16_lossy(units_of(bytes.skip(2), true))
    } else if bytes.len() >= 2 && bytes[0] == 0xfe && bytes[1] == 0xff {
        utf16_lossy(units_of(bytes.skip(2), false))
    } else if nul_count(bytes) >= 2 && nul_count(bytes) * 20 >= bytes.len() {
        text::utf8_lossy(without_nuls(bytes))
    } else {
        text::utf8_lossy(bytes)
    }
}

fn pair_units(bytes: &[u8], little: bool) -> (units: Vec<u16>)
    requires
        bytes@.len() >= 2,
    ensures
        units@ == units_of(bytes@.skip(2), little),
{
    let mut units: Vec<u16> = Vec::new();
    let mut i: usize = 2;
    let count: usize = bytes.len();
    while i < count && count - i >= 2
        invariant
            2 <= i <= count,
            count == bytes@.len(),
            i % 2 == 0,
            units@ == units_of(bytes@.skip(2), little).take((i - 2) / 2),
        decreases count - i,
    {
        let unit: u16 = if little {
            bytes[i] as u16 + 256 * (bytes[i + 1] as u16)
        } else {
            256 * (bytes[i] as u16) + bytes[i + 1] as u16
        };
        proof {
            let rest = bytes@.skip(2);
            let k = (i - 2) / 2;
            let all = units_of(rest, little);
            assert(rest[2 * k] == bytes@[i as int]);
            assert(rest[2 * k + 1] == bytes@[i + 1]);
            assert(k < all.len());
            assert(all[k] == unit);
            assert(all.take(k + 1) =~= all.take(k).push(all[k]));
            assert((i + 2 - 2) / 2 == k + 1);
        }
        units.push(unit);
        i = i + 2;
    }
    proof {
        let all = units_of(bytes@.skip(2), little);
        assert((i - 2) / 2 == all.len());
        assert(all.take((i - 2) / 2) =~= all);
    }
    units
}

fn drop_nuls(bytes: &[u8]) -> (kept: Vec<u8>)
    ensures
        kept@ == without_nuls(bytes@),
        kept@.len() <= bytes@.len(),
{
    let mut kept: Vec<u8> = Vec::new();
    let mut i: usize = 0;
    while i < bytes.len()
        invariant
            i <= bytes@.len(),
            kept@ == without_nuls(bytes@.take(i as int)),
            kept@.len() <= i,
        decreases bytes@.len() - i,
    {
        proof {
            assert(bytes@.take(i + 1).drop_last() =~= bytes@.take(i as int));
            assert(bytes@.take(i + 1).last() == bytes@[i as int]);
        }
        if bytes[i] != 0 {
            kept.push(bytes[i]);
        }
        i = i + 1;
    }
    proof {
        assert(bytes@.take(i as int) =~= bytes@);
    }
    kept
}

/// Decodes console output of Windows tools: a stream can hold UTF-16 diagnostics of PowerShell next
/// to the text of native tools.
pub fn decode_captured_stream(bytes: &[u8]) -> (shown: String)
    ensures
        shown@ == decoded_stream(bytes@),
{
    let count: usize = bytes.len();
    if count >= 2 && bytes[0] == 0xff && bytes[1] == 0xfe {
        let units = pair_units(bytes, true);
        return utf16_text(units.as_slice());
    }
    if count >= 2 && bytes[0] == 0xfe && bytes[1] == 0xff {
        let units = pair_units(bytes, false);
        return utf16_text(units.as_slice());
    }
    let kept = drop_nuls(bytes);
    let nuls: usize = count - kept.len();
    if nuls >= 2 && nuls as u128 * 20 >= count as u128 {
        return text::lossy_text(kept.as_slice());
    }
    text::lossy_text(bytes)
}

// ---------------------------------------------------------------------------------------------
// Warnings
// ---------------------------------------------------------------------------------------------

/// A line without the carriage return before its line feed.
pub open spec fn without_return(line: Seq<char>) -> Seq<char> {
    if line.len() > 0 && line.last() == '\r' {
        line.drop_last()
    } else {
        line
    }
}

/// The first `count` items, or all.
pub open spec fn at_most<T>(items: Seq<T>, count: int) -> Seq<T> {
    if items.len() <= count {
        items
    } else {
        items.take(count)
    }
}

/// The lines of a text: each ends with a line feed, with or without a carriage return before it;
/// the last may end with the text.
pub open spec fn lines_of(shown: Seq<char>) -> Seq<Seq<char>> {
    let pieces = text::split(shown, '\n');
    let closed = Seq::new((pieces.len() - 1) as nat, |i: int| without_return(pieces[i]));
    if pieces.last().len() == 0 {
        closed
    } else {
        closed.push(pieces.last())
    }
}

/// The warnings of the guest: so many lines, so many characters of each.
pub open spec fn warning_lines(shown: Seq<char>) -> Seq<Seq<char>> {
    at_most(lines_of(shown), MAX_WARNING_LINES as int).map_values(
        |line: Seq<char>| at_most(line, MAX_WARNING_LINE_CHARS as int),
    )
}

fn short_line(line: &str, closed: bool) -> (kept: String)
    ensures
        kept@ == at_most(
            if closed {
                without_return(line@)
            } else {
                line@
            },
            MAX_WARNING_LINE_CHARS as int,
        ),
{
    let chars = text::chars_of(line);
    let mut end: usize = chars.len();
    if closed && end > 0 && chars[end - 1] == '\r' {
        end = end - 1;
    }
    proof {
        let whole = if closed {
            without_return(line@)
        } else {
            line@
        };
        assert(whole =~= chars@.subrange(0, end as int));
        if end > MAX_WARNING_LINE_CHARS {
            assert(whole.take(MAX_WARNING_LINE_CHARS as int) =~= chars@.subrange(
                0,
                MAX_WARNING_LINE_CHARS as int,
            ));
        }
    }
    if end > MAX_WARNING_LINE_CHARS {
        end = MAX_WARNING_LINE_CHARS;
    }
    text::string_of(&chars, 0, end)
}

/// The warnings that the guest wrote.
pub fn read_warnings(bytes: &[u8]) -> (warnings: Vec<String>)
    ensures
        text::views(warnings@) == warning_lines(text::utf8_lossy(bytes@)),
{
    let shown = text::lossy_text(bytes);
    split_warnings(shown.as_str())
}

/// The warnings in a text.
pub fn split_warnings(shown: &str) -> (warnings: Vec<String>)
    ensures
        text::views(warnings@) == warning_lines(shown@),
{
    let pieces = text::split_on(shown, '\n');
    let ghost parts = text::split(shown@, '\n');
    proof {
        text::lemma_split_nonempty(shown@, '\n');
        assert(pieces@.len() == parts.len());
    }
    let last: usize = pieces.len() - 1;
    proof {
        assert(parts.last() == pieces@[last as int]@);
    }
    let count: usize = if pieces[last].as_str().is_empty() {
        last
    } else {
        last + 1
    };
    let mut warnings: Vec<String> = Vec::new();
    let mut i: usize = 0;
    proof {
        assert(text::views(warnings@) =~= Seq::<Seq<char>>::empty());
        assert(lines_of(shown@).len() == count);
    }
    while i < count && i < MAX_WARNING_LINES
        invariant
            i <= count,
            i <= MAX_WARNING_LINES,
            last + 1 == pieces@.len(),
            count <= last + 1,
            parts == text::split(shown@, '\n'),
            text::views(pieces@) == parts,
            lines_of(shown@).len() == count,
            count == if parts.last().len() == 0 {
                last as int
            } else {
                last + 1
            },
            text::views(warnings@).len() == i,
            forall|k: int|
                0 <= k < i ==> #[trigger] text::views(warnings@)[k] == at_most(
                    lines_of(shown@)[k],
                    MAX_WARNING_LINE_CHARS as int,
                ),
        decreases count - i,
    {
        let line = short_line(pieces[i].as_str(), i < last);
        let ghost before = warnings@;
        proof {
            assert(text::views(pieces@)[i as int] == pieces@[i as int]@);
            assert(lines_of(shown@)[i as int] == if i < last {
                without_return(parts[i as int])
            } else {
                parts[i as int]
            });
        }
        warnings.push(line);
        proof {
            assert(text::views(warnings@) =~= text::views(before).push(line@));
        }
        i = i + 1;
    }
    proof {
        assert(text::views(warnings@) =~= warning_lines(shown@));
    }
    warnings
}

// ---------------------------------------------------------------------------------------------
// Event lists
// ---------------------------------------------------------------------------------------------

/// The value that `serde_json::from_slice` reads, or the text of its error.
pub uninterp spec fn json_value(text: Seq<u8>) -> Result<serde_json::Value, Seq<char>>;

/// Whether two values are equal by the `PartialEq` of `serde_json::Value`.
pub uninterp spec fn json_equality(left: serde_json::Value, right: serde_json::Value) -> bool;

pub open spec fn parsed_view(parsed: Result<serde_json::Value, String>) -> Result<
    serde_json::Value,
    Seq<char>,
> {
    match parsed {
        Ok(value) => Ok(value),
        Err(error) => Err(error@),
    }
}

/// `serde_json::from_slice` into a `Value`, with the text of its error. The result rests on the text
/// alone; the grammar is not spelled out here.
#[verifier::external_body]
fn parse_json(text: &[u8]) -> (parsed: Result<serde_json::Value, String>)
    ensures
        parsed_view(parsed) == json_value(text@),
{
    serde_json::from_slice(text).map_err(|error| error.to_string())
}

/// The equality of `serde_json::Value`. It rests on the two values alone; when numbers are equal is
/// not spelled out here.
#[verifier::external_body]
fn equal_json(left: &serde_json::Value, right: &serde_json::Value) -> (same: bool)
    ensures
        same == json_equality(*left, *right),
{
    left == right
}

/// Whether two texts are equal as JSON, or why one of them is none: the first, where neither is.
pub open spec fn json_comparison(observed: Seq<u8>, expected: Seq<u8>) -> Result<bool, Seq<char>> {
    match json_value(observed) {
        Err(error) => Err(error),
        Ok(left) => match json_value(expected) {
            Err(error) => Err(error),
            Ok(right) => Ok(json_equality(left, right)),
        },
    }
}

fn compare_json(observed: &[u8], expected: &[u8]) -> (same: Result<bool, String>)
    ensures
        comparison_view(same) == json_comparison(observed@, expected@),
{
    match parse_json(observed) {
        Err(error) => Err(error),
        Ok(left) => match parse_json(expected) {
            Err(error) => Err(error),
            Ok(right) => Ok(equal_json(&left, &right)),
        },
    }
}

pub open spec fn comparison_view(same: Result<bool, String>) -> Result<bool, Seq<char>> {
    match same {
        Ok(yes) => Ok(yes),
        Err(error) => Err(error@),
    }
}

/// The verdict on an event list by what its comparison with the result gave.
pub open spec fn event_list_verdict(name: Seq<char>, same: Result<bool, Seq<char>>) -> Result<
    (),
    backend::Fault,
> {
    match same {
        Err(source) => Err(
            backend::fault_from(
                "hyperv_result_collection"@,
                "guest "@ + name + " is malformed"@,
                source,
            ),
        ),
        Ok(yes) => if yes {
            Ok(())
        } else {
            Err(collection_fault("guest "@ + name + " contradicts result.json"@))
        },
    }
}

/// Judges an event list by what its comparison with the result gave.
pub fn judge_event_list(name: &str, same: &Result<bool, String>) -> (verdict: SandboxResult<()>)
    ensures
        backend::outcome(verdict) == event_list_verdict(name@, comparison_view(*same)),
{
    match same {
        Err(source) => {
            let message = text::cat3("guest ", name, " is malformed");
            Err(
                SandboxError::with_source(
                    "hyperv_result_collection",
                    message.as_str(),
                    source.as_str(),
                ),
            )
        },
        Ok(yes) => if *yes {
            Ok(())
        } else {
            let message = text::cat3("guest ", name, " contradicts result.json");
            Err(collection_error(message.as_str()))
        },
    }
}

/// Checks that an event list says what the result says. `expected` is the list of the result as
/// JSON text.
pub fn check_event_list(name: &str, observed: &[u8], expected: &[u8]) -> (verdict: SandboxResult<()>)
    ensures
        backend::outcome(verdict) == event_list_verdict(
            name@,
            json_comparison(observed@, expected@),
        ),
{
    let same = compare_json(observed, expected);
    judge_event_list(name, &same)
}

// ---------------------------------------------------------------------------------------------
// The published states
// ---------------------------------------------------------------------------------------------

pub open spec fn protocol_states() -> Seq<ProtocolState> {
    seq![
        ProtocolState::HostReady,
        ProtocolState::RequestWritten,
        ProtocolState::StartAllowed,
        ProtocolState::CancelRequested,
        ProtocolState::GuestReady,
        ProtocolState::Running,
        ProtocolState::Completed,
        ProtocolState::Failed,
        ProtocolState::ShutdownReady,
    ]
}

pub fn all_protocol_states() -> (states: Vec<ProtocolState>)
    ensures
        states@ == protocol_states(),
{
    let states: Vec<ProtocolState> = vec![
        ProtocolState::HostReady,
        ProtocolState::RequestWritten,
        ProtocolState::StartAllowed,
        ProtocolState::CancelRequested,
        ProtocolState::GuestReady,
        ProtocolState::Running,
        ProtocolState::Completed,
        ProtocolState::Failed,
        ProtocolState::ShutdownReady,
    ];
    proof {
        assert(states@ =~= protocol_states());
    }
    states
}

/// A name that an entry of the status directory may have.
pub open spec fn status_name(name: Seq<char>) -> bool {
    name == "agent-claim.json"@ || exists|i: int|
        0 <= i < protocol_states().len() && (#[trigger] protocol_states()[i]).spec_file_name() == name
}

fn is_status_name(name: &str) -> (yes: bool)
    ensures
        yes == status_name(name@),
{
    if text::same_text(name, "agent-claim.json") {
        return true;
    }
    let states = all_protocol_states();
    let mut i: usize = 0;
    while i < states.len()
        invariant
            i <= states@.len(),
            states@ == protocol_states(),
            forall|j: int| 0 <= j < i ==> (#[trigger] protocol_states()[j]).spec_file_name() != name@,
        decreases states@.len() - i,
    {
        if text::same_text(name, states[i].file_name()) {
            proof {
                assert(protocol_states()[i as int].spec_file_name() == name@);
            }
            return true;
        }
        i = i + 1;
    }
    false
}

/// The verdict on entry number `count` of the status directory; a name that is not Unicode is
/// `None`.
pub open spec fn status_entry_verdict(count: u64, name: Option<Seq<char>>) -> Result<
    (),
    backend::Fault,
> {
    if count > MAX_STATUS_ENTRIES {
        Err(collection_fault("guest protocol status directory contains too many entries"@))
    } else {
        match name {
            None => Err(
                collection_fault("guest protocol status filename is not valid Unicode"@),
            ),
            Some(shown) => if status_name(shown) {
                Ok(())
            } else {
                Err(
                    collection_fault(
                        "guest protocol status directory contains an unexpected entry: "@ + shown,
                    ),
                )
            },
        }
    }
}

pub fn check_status_entry(count: u64, name: &Option<String>) -> (verdict: SandboxResult<()>)
    ensures
        backend::outcome(verdict) == status_entry_verdict(count, text::view_option(*name)),
{
    if count > MAX_STATUS_ENTRIES {
        return Err(
            collection_error("guest protocol status directory contains too many entries"),
        );
    }
    match name {
        None => Err(collection_error("guest protocol status filename is not valid Unicode")),
        Some(shown) => if is_status_name(shown.as_str()) {
            Ok(())
        } else {
            let message = text::cat2(
                "guest protocol status directory contains an unexpected entry: ",
                shown.as_str(),
            );
            Err(collection_error(message.as_str()))
        },
    }
}

/// Checks what an entry of the status directory is.
pub fn check_status_file(shown: &str, facts: EntryFacts) -> (verdict: SandboxResult<()>)
    ensures
        backend::outcome(verdict) == backend::both(
            link_verdict(shown@, facts),
            if facts.regular {
                Ok(())
            } else {
                Err(collection_fault("guest protocol status entries must be regular files"@))
            },
        ),
{
    match reject_link_or_reparse(shown, facts) {
        Err(error) => {
            return Err(error);
        },
        Ok(_) => {},
    }
    if !facts.regular {
        return Err(collection_error("guest protocol status entries must be regular files"));
    }
    Ok(())
}

/// Checks that the record in the file of a state is of that state.
pub fn check_status_record(state: ProtocolState, record: &StatusRecord) -> (verdict: SandboxResult<()>)
    ensures
        backend::outcome(verdict) == if record.state == state {
            Ok(())
        } else {
            Err(
                collection_fault(
                    "guest protocol status filename contradicts its encoded state"@,
                ),
            )
        },
{
    if record.state != state {
        return Err(
            collection_error("guest protocol status filename contradicts its encoded state"),
        );
    }
    Ok(())
}

/// Records in the order of their sequence numbers, with `record` behind those of its number.
pub open spec fn record_inserted(records: Seq<StatusRecord>, record: StatusRecord) -> Seq<StatusRecord>
    decreases records.len(),
{
    if records.len() == 0 || records.last().sequence <= record.sequence {
        records.push(record)
    } else {
        record_inserted(records.drop_last(), record).push(records.last())
    }
}

/// The records in the order of their sequence numbers; equal numbers keep their order.
pub open spec fn in_sequence(records: Seq<StatusRecord>) -> Seq<StatusRecord>
    decreases records.len(),
{
    if records.len() == 0 {
        Seq::empty()
    } else {
        record_inserted(in_sequence(records.drop_last()), records.last())
    }
}

fn insert_record(records: &mut Vec<StatusRecord>, record: StatusRecord)
    ensures
        final(records)@ == record_inserted(old(records)@, record),
    decreases old(records)@.len(),
{
    let ghost before = records@;
    match records.pop() {
        None => {
            records.push(record);
            proof {
                assert(records@ =~= before.push(record));
            }
        },
        Some(last) => {
            proof {
                assert(records@ =~= before.drop_last());
                assert(before.last() == last);
            }
            if last.sequence <= record.sequence {
                records.push(last);
                proof {
                    assert(records@ =~= before);
                }
                records.push(record);
            } else {
                insert_record(records, record);
                records.push(last);
            }
        },
    }
}

fn sort_records(records: Vec<StatusRecord>) -> (ordered: Vec<StatusRecord>)
    ensures
        ordered@ == in_sequence(records@),
    decreases records@.len(),
{
    let ghost all = records@;
    let mut rest = records;
    match rest.pop() {
        None => rest,
        Some(last) => {
            proof {
                assert(rest@ =~= all.drop_last());
            }
            let mut ordered = sort_records(rest);
            insert_record(&mut ordered, last);
            ordered
        },
    }
}

/// A state that has to authenticate the result.
pub open spec fn result_state(state: ProtocolState) -> bool {
    state == ProtocolState::Completed || state == ProtocolState::Failed || state
        == ProtocolState::ShutdownReady
}

/// What one record adds to a history, or why it is refused.
pub open spec fn chained(
    machine: MachineView,
    record: &StatusRecord,
    request_sha256: Seq<char>,
    result_sha256: Seq<char>,
) -> Result<MachineView, backend::Fault> {
    if text::view_option(record.request_sha256) != Some(request_sha256) {
        Err(
            collection_fault("guest protocol status is not bound to the staged request bytes"@),
        )
    } else {
        match machine.verdict(record) {
            Err(fault) => Err(protocol_refusal(fault)),
            Ok(_) => if result_state(record.state) && text::view_option(record.result_sha256)
                != Some(result_sha256) {
                Err(collection_fault("guest terminal status does not authenticate result.json"@))
            } else if !result_state(record.state) && record.result_sha256 is Some {
                Err(
                    collection_fault(
                        "non-terminal guest status unexpectedly refers to result.json"@,
                    ),
                )
            } else {
                Ok(machine.after(record))
            },
        }
    }
}

/// The history that the records from `from` on lead to, or why one is refused.
pub open spec fn chain_value(
    machine: MachineView,
    records: Seq<StatusRecord>,
    from: int,
    request_sha256: Seq<char>,
    result_sha256: Seq<char>,
) -> Result<MachineView, backend::Fault>
    decreases records.len() - from,
{
    if from >= records.len() {
        Ok(machine)
    } else {
        match chained(machine, &records[from], request_sha256, result_sha256) {
            Err(error) => Err(error),
            Ok(next) => chain_value(next, records, from + 1, request_sha256, result_sha256),
        }
    }
}

pub open spec fn missing_state(state: ProtocolState) -> backend::Fault {
    collection_fault("guest protocol did not reach required state "@ + state.spec_label())
}

/// Whether the states that were published fit the outcome of the result.
pub open spec fn outcome_fits(outcome: GuestTerminalOutcome, seen: Set<ProtocolState>) -> bool {
    match outcome {
        GuestTerminalOutcome::AgentFailed => {
            &&& seen.contains(ProtocolState::Failed)
            &&& !seen.contains(ProtocolState::Completed)
            &&& !seen.contains(ProtocolState::CancelRequested)
        },
        GuestTerminalOutcome::Cancelled => {
            &&& seen.contains(ProtocolState::CancelRequested)
            &&& !seen.contains(ProtocolState::Completed)
            &&& !seen.contains(ProtocolState::Failed)
        },
        _ => {
            &&& seen.contains(ProtocolState::Running)
            &&& seen.contains(ProtocolState::Completed)
            &&& !seen.contains(ProtocolState::Failed)
            &&& !seen.contains(ProtocolState::CancelRequested)
        },
    }
}

/// An outcome that only an executed target has.
pub open spec fn executed(outcome: GuestTerminalOutcome) -> bool {
    outcome == GuestTerminalOutcome::Completed || outcome == GuestTerminalOutcome::TimedOut
}

/// The verdict on the history that the records lead to.
pub open spec fn history_verdict(outcome: GuestTerminalOutcome, seen: Set<ProtocolState>) -> Result<
    (),
    backend::Fault,
> {
    if !seen.contains(ProtocolState::HostReady) {
        Err(missing_state(ProtocolState::HostReady))
    } else if !seen.contains(ProtocolState::RequestWritten) {
        Err(missing_state(ProtocolState::RequestWritten))
    } else if !seen.contains(ProtocolState::StartAllowed) {
        Err(missing_state(ProtocolState::StartAllowed))
    } else if !seen.contains(ProtocolState::ShutdownReady) {
        Err(missing_state(ProtocolState::ShutdownReady))
    } else if executed(outcome) && !seen.contains(ProtocolState::GuestReady) {
        Err(
            collection_fault(
                "executed guest result omitted the trusted GuestReady attestation state"@,
            ),
        )
    } else if !outcome_fits(outcome, seen) {
        Err(
            collection_fault(
                "guest result outcome contradicts the authenticated protocol state chain"@,
            ),
        )
    } else {
        Ok(())
    }
}

/// A machine of the run that has seen nothing.
pub open spec fn fresh_machine(run_id: Seq<char>) -> MachineView {
    MachineView { run_id, seen: Set::empty(), last_sequence: 0 }
}

/// The verdict on the records that were found.
pub open spec fn status_chain_verdict(
    records: Seq<StatusRecord>,
    run_id: Seq<char>,
    request_sha256: Seq<char>,
    result_sha256: Seq<char>,
    outcome: GuestTerminalOutcome,
) -> Result<(), backend::Fault> {
    match guest_protocol::sha256_verdict(request_sha256) {
        Err(fault) => Err(protocol_refusal(fault)),
        Ok(_) => match guest_protocol::run_id_verdict(run_id) {
            Err(fault) => Err(protocol_refusal(fault)),
            Ok(_) => match chain_value(
                fresh_machine(run_id),
                in_sequence(records),
                0,
                request_sha256,
                result_sha256,
            ) {
                Err(error) => Err(error),
                Ok(machine) => history_verdict(outcome, machine.seen),
            },
        },
    }
}

/// Checks the digest that the records are to be bound to.
pub fn check_request_digest(request_sha256: &str) -> (verdict: SandboxResult<()>)
    ensures
        match (guest_protocol::sha256_verdict(request_sha256@), verdict) {
            (Ok(_), Ok(_)) => true,
            (Err(fault), Err(error)) => error@ == protocol_refusal(fault),
            _ => false,
        },
{
    match guest_protocol::validate_sha256(request_sha256) {
        Err(error) => Err(protocol_error(&error)),
        Ok(_) => Ok(()),
    }
}

fn has_digest(recorded: &Option<String>, expected: &str) -> (same: bool)
    ensures
        same == (text::view_option(*recorded) == Some(expected@)),
{
    match recorded {
        Some(found) => text::same_text(found.as_str(), expected),
        None => false,
    }
}

fn chain_record(
    machine: &mut ProtocolStateMachine,
    record: &StatusRecord,
    request_sha256: &str,
    result_sha256: &str,
) -> (verdict: SandboxResult<()>)
    requires
        old(machine).well_formed(),
    ensures
        final(machine).well_formed(),
        match (chained(old(machine)@, record, request_sha256@, result_sha256@), verdict) {
            (Ok(next), Ok(_)) => final(machine)@ == next,
            (Err(fault), Err(error)) => error@ == fault,
            _ => false,
        },
{
    if !has_digest(&record.request_sha256, request_sha256) {
        return Err(
            collection_error("guest protocol status is not bound to the staged request bytes"),
        );
    }
    match machine.observe(record) {
        Err(error) => {
            return Err(protocol_error(&error));
        },
        Ok(_) => {},
    }
    let terminal = match record.state {
        ProtocolState::Completed => true,
        ProtocolState::Failed => true,
        ProtocolState::ShutdownReady => true,
        _ => false,
    };
    if terminal && !has_digest(&record.result_sha256, result_sha256) {
        return Err(collection_error("guest terminal status does not authenticate result.json"));
    }
    if !terminal && record.result_sha256.is_some() {
        return Err(
            collection_error("non-terminal guest status unexpectedly refers to result.json"),
        );
    }
    Ok(())
}

fn missing_state_error(state: ProtocolState) -> (error: SandboxError)
    ensures
        error@ == missing_state(state),
{
    let message = text::cat2("guest protocol did not reach required state ", state.label());
    collection_error(message.as_str())
}

fn check_history(machine: &ProtocolStateMachine, outcome: GuestTerminalOutcome) -> (verdict:
    SandboxResult<()>)
    ensures
        backend::outcome(verdict) == history_verdict(outcome, machine@.seen),
{
    if !machine.has_seen(ProtocolState::HostReady) {
        return Err(missing_state_error(ProtocolState::HostReady));
    }
    if !machine.has_seen(ProtocolState::RequestWritten) {
        return Err(missing_state_error(ProtocolState::RequestWritten));
    }
    if !machine.has_seen(ProtocolState::StartAllowed) {
        return Err(missing_state_error(ProtocolState::StartAllowed));
    }
    if !machine.has_seen(ProtocolState::ShutdownReady) {
        return Err(missing_state_error(ProtocolState::ShutdownReady));
    }
    let ran = outcome == GuestTerminalOutcome::Completed || outcome
        == GuestTerminalOutcome::TimedOut;
    if ran && !machine.has_seen(ProtocolState::GuestReady) {
        return Err(
            collection_error(
                "executed guest result omitted the trusted GuestReady attestation state",
            ),
        );
    }
    let completed = machine.has_seen(ProtocolState::Completed);
    let failed = machine.has_seen(ProtocolState::Failed);
    let cancelled = machine.has_seen(ProtocolState::CancelRequested);
    let fits = match outcome {
        GuestTerminalOutcome::AgentFailed => failed && !completed && !cancelled,
        GuestTerminalOutcome::Cancelled => cancelled && !completed && !failed,
        _ => machine.has_seen(ProtocolState::Running) && completed && !failed && !cancelled,
    };
    if !fits {
        return Err(
            collection_error(
                "guest result outcome contradicts the authenticated protocol state chain",
            ),
        );
    }
    Ok(())
}

/// Checks that the records that were found are one lawful history of the run, bound to the staged
/// request and to the collected result, and that it fits the outcome.
pub fn validate_status_chain(
    records: Vec<StatusRecord>,
    expected_run_id: &str,
    expected_request_sha256: &str,
    expected_result_sha256: &str,
    outcome: GuestTerminalOutcome,
) -> (verdict: SandboxResult<()>)
    ensures
        backend::outcome(verdict) == status_chain_verdict(
            records@,
            expected_run_id@,
            expected_request_sha256@,
            expected_result_sha256@,
            outcome,
        ),
{
    match check_request_digest(expected_request_sha256) {
        Err(error) => {
            return Err(error);
        },
        Ok(_) => {},
    }
    let mut machine = match ProtocolStateMachine::new(expected_run_id) {
        Ok(machine) => machine,
        Err(error) => {
            return Err(protocol_error(&error));
        },
    };
    let ordered = sort_records(records);
    let ghost start = fresh_machine(expected_run_id@);
    let mut i: usize = 0;
    while i < ordered.len()
        invariant
            i <= ordered@.len(),
            ordered@ == in_sequence(records@),
            start == fresh_machine(expected_run_id@),
            guest_protocol::sha256_verdict(expected_request_sha256@) is Ok,
            guest_protocol::run_id_verdict(expected_run_id@) is Ok,
            machine.well_formed(),
            chain_value(
                start,
                ordered@,
                0,
                expected_request_sha256@,
                expected_result_sha256@,
            ) == chain_value(
                machine@,
                ordered@,
                i as int,
                expected_request_sha256@,
                expected_result_sha256@,
            ),
        decreases ordered@.len() - i,
    {
        match chain_record(
            &mut machine,
            &ordered[i],
            expected_request_sha256,
            expected_result_sha256,
        ) {
            Err(error) => {
                return Err(error);
            },
            Ok(_) => {},
        }
        i = i + 1;
    }
    check_history(&machine, outcome)
}

// ---------------------------------------------------------------------------------------------
// The collection
// ---------------------------------------------------------------------------------------------

/// A file to look for below the guest's output.
#[derive(Clone, Copy, Debug, PartialEq, Eq)]
pub struct PlannedFile {
    pub name: &'static str,
    pub maximum: u64,
    /// Whether its absence is an error.
    pub required: bool,
}

/// What a planned file is, apart from its representation.
pub struct PlannedView {
    pub name: Seq<char>,
    pub maximum: u64,
    pub required: bool,
}

impl View for PlannedFile {
    type V = PlannedView;

    open spec fn view(&self) -> PlannedView {
        PlannedView { name: self.name@, maximum: self.maximum, required: self.required }
    }
}

pub open spec fn planned(name: Seq<char>, maximum: u64, required: bool) -> PlannedView {
    PlannedView { name, maximum, required }
}

pub open spec fn plan_views(files: Seq<PlannedFile>) -> Seq<PlannedView> {
    files.map_values(|file: PlannedFile| file@)
}

/// The files that are rescued of a run that did not finish.
pub open spec fn partial_plan(limits: CollectionLimits) -> Seq<PlannedView> {
    let maximum = limits.maximum_stream_bytes;
    seq![
        planned("result.json"@, limits.maximum_result_bytes, false),
        planned("stdout.txt"@, maximum, false),
        planned("stderr.txt"@, maximum, false),
        planned("process-events.json"@, maximum, false),
        planned("network-events.json"@, maximum, false),
        planned("filesystem-events.json"@, maximum, false),
        planned("registry-events.json"@, maximum, false),
        planned("warnings.txt"@, maximum, false),
    ]
}

pub fn partial_files(limits: &CollectionLimits) -> (files: Vec<PlannedFile>)
    ensures
        plan_views(files@) == partial_plan(*limits),
{
    let maximum: u64 = limits.maximum_stream_bytes;
    let files: Vec<PlannedFile> = vec![
        PlannedFile { name: "result.json", maximum: limits.maximum_result_bytes, required: false },
        PlannedFile { name: "stdout.txt", maximum, required: false },
        PlannedFile { name: "stderr.txt", maximum, required: false },
        PlannedFile { name: "process-events.json", maximum, required: false },
        PlannedFile { name: "network-events.json", maximum, required: false },
        PlannedFile { name: "filesystem-events.json", maximum, required: false },
        PlannedFile { name: "registry-events.json", maximum, required: false },
        PlannedFile { name: "warnings.txt", maximum, required: false },
    ];
    proof {
        assert(plan_views(files@) =~= partial_plan(*limits));
    }
    files
}

/// The place of a known file in the archive: `name` below `prefix`.
pub fn archived_place(style: PathStyle, prefix: &str, name: &str) -> (place: HostPath)
    ensures
        place.style == style,
        place.shown@ == host_path::joined_text(style, prefix@, name@),
        !place.absolute,
        place.spec_parts() == seq![
            host_path::PartView::Normal(prefix@),
            host_path::PartView::Normal(name@),
        ],
{
    let base = HostPath {
        style,
        shown: prefix.to_owned(),
        unicode: true,
        absolute: false,
        local_fault: Some("path is not absolute".to_owned()),
        parts: vec![PathPart::Normal(prefix.to_owned())],
    };
    let place = base.join(name);
    proof {
        assert(base.spec_parts() =~= seq![host_path::PartView::Normal(prefix@)]);
        assert(place.spec_parts() =~= seq![
            host_path::PartView::Normal(prefix@),
            host_path::PartView::Normal(name@),
        ]);
    }
    place
}

pub open spec fn result_verdict(
    result: &GuestResultEnvelope<SandboxRunResult>,
    expected_run_id: Seq<char>,
) -> Result<(), backend::Fault> {
    match result.metadata_verdict() {
        Err(fault) => Err(protocol_refusal(fault)),
        Ok(_) => if result.run_id@ == expected_run_id {
            Ok(())
        } else {
            Err(
                collection_fault("guest result run identifier does not match the host run"@),
            )
        },
    }
}

/// Checks the result that the guest wrote, before anything of it is archived.
pub fn accept_result(result: &GuestResultEnvelope<SandboxRunResult>, expected_run_id: &str) -> (verdict:
    SandboxResult<()>)
    ensures
        backend::outcome(verdict) == result_verdict(result, expected_run_id@),
{
    match result.validate_metadata() {
        Err(error) => {
            return Err(protocol_error(&error));
        },
        Ok(_) => {},
    }
    if !text::same_text(result.run_id.as_str(), expected_run_id) {
        return Err(collection_error("guest result run identifier does not match the host run"));
    }
    Ok(())
}

#[derive(Clone, Debug)]
pub struct CollectedGuestOutput {
    pub result: GuestResultEnvelope<SandboxRunResult>,
    pub stdout: String,
    pub stderr: String,
    pub artifacts: Vec<CollectedArtifact>,
    pub warnings: Vec<String>,
    pub total_bytes: u64,
}

/// Ends the collection: everything is archived, and what the result claims is there.
pub fn collect(
    result: GuestResultEnvelope<SandboxRunResult>,
    archive: Archive,
    stdout: &[u8],
    stderr: &[u8],
    warnings: Option<&[u8]>,
) -> (collected: SandboxResult<CollectedGuestOutput>)
    ensures
        match (claims_verdict(result.artifacts@, archive.artifacts@, 0), collected) {
            (Err(fault), Err(error)) => error@ == fault,
            (Ok(_), Ok(output)) => {
                &&& output.result == result
                &&& output.stdout@ == decoded_stream(stdout@)
                &&& output.stderr@ == decoded_stream(stderr@)
                &&& output.artifacts == archive.artifacts
                &&& output.total_bytes == archive.total_bytes
                &&& text::views(output.warnings@) == match warnings {
                    Some(bytes) => warning_lines(text::utf8_lossy(bytes@)),
                    None => Seq::empty(),
                }
            },
            _ => false,
        },
{
    match validate_artifact_manifest(&result.artifacts, &archive.artifacts) {
        Err(error) => {
            return Err(error);
        },
        Ok(_) => {},
    }
    let listed = match warnings {
        Some(bytes) => read_warnings(bytes),
        None => {
            let none: Vec<String> = Vec::new();
            proof {
                assert(text::views(none@) =~= Seq::<Seq<char>>::empty());
            }
            none
        },
    };
    Ok(
        CollectedGuestOutput {
            result,
            stdout: decode_captured_stream(stdout),
            stderr: decode_captured_stream(stderr),
            artifacts: archive.artifacts,
            warnings: listed,
            total_bytes: archive.total_bytes,
        },
    )
}

#[derive(Clone, Copy, Debug, PartialEq, Eq, Structural)]
pub struct PartialCollection {
    pub artifact_count: usize,
    pub total_bytes: u64,
}

/// Ends the rescue of what a run that did not finish left.
pub fn collect_partial(archive: &Archive) -> (collected: PartialCollection)
    ensures
        collected.artifact_count == archive.artifacts@.len(),
        collected.total_bytes == archive.total_bytes,
{
    PartialCollection {
        artifact_count: archive.artifacts.len(),
        total_bytes: archive.total_bytes,
    }
}

// ---------------------------------------------------------------------------------------------
// Laws
// ---------------------------------------------------------------------------------------------

/// An archive stays within its limits whatever file is admitted and recorded: neither the count, nor
/// the size of a file, nor the bytes in all are ever exceeded. The bytes in all are those of the
/// artifacts, and no two artifacts have the same place up to letter case.
pub proof fn archives_stay_within_limits(
    before: &Archive,
    admitted: &Archive,
    after: &Archive,
    relative: &HostPath,
    len: u64,
    message: Seq<char>,
    sha256: Seq<char>,
)
    requires
        before.settled(),
        before.admission_verdict(relative, len, message) is Ok,
        before.charged(relative, len, admitted),
        admitted.recorded(relative, len, sha256, after),
    ensures
        admitted.awaits(relative, len as int),
        after.settled(),
        after.artifacts@.len() == before.artifacts@.len() + 1,
        archived_keys(after.artifacts@).no_duplicates(),
{
    lemma_charged(*before, *admitted, relative, len);
    lemma_recorded(*admitted, *after, relative, len, sha256);
}

/// What an admitted file makes of an archive.
pub proof fn lemma_charged(before: Archive, after: Archive, place: &HostPath, len: u64)
    requires
        before.settled(),
        before.charged(place, len, &after),
        before.artifacts@.len() < before.limits.maximum_artifacts,
        len <= before.limits.maximum_artifact_bytes,
        before.total_bytes + len <= before.limits.maximum_total_bytes,
        !text::views(before.archived_paths@).contains(folded_path(place.shown@)),
    ensures
        after.awaits(place, len as int),
{
    let paths = text::views(before.archived_paths@);
    let more = text::views(after.archived_paths@);
    assert forall|i: int, j: int|
        0 <= i < more.len() && 0 <= j < more.len() && i != j implies more[i] != more[j] by {
        if i == paths.len() {
            assert(paths.contains(paths[j]));
        } else if j == paths.len() {
            assert(paths.contains(paths[i]));
        }
    }
}

/// What an archived file makes of an archive.
pub proof fn lemma_recorded(
    before: Archive,
    after: Archive,
    place: &HostPath,
    len: u64,
    sha256: Seq<char>,
)
    requires
        before.awaits(place, len as int),
        before.recorded(place, len, sha256, &after),
    ensures
        after.settled(),
{
    assert forall|i: int|
        0 <= i < after.artifacts@.len() implies (#[trigger] after.artifacts@[i]).size_bytes
        <= after.limits.maximum_artifact_bytes by {
        if i < before.artifacts@.len() {
            assert(after.artifacts@.drop_last()[i] == after.artifacts@[i]);
            assert(before.artifacts@[i] == after.artifacts@[i]);
        }
    }
    let keys = archived_keys(after.artifacts@);
    assert(keys =~= archived_keys(before.artifacts@).push(folded_path(place.shown@))) by {
        assert(after.artifacts@ =~= before.artifacts@.push(after.artifacts@.last()));
    }
}

/// No record has a lower number than one before it.
pub open spec fn ascends(records: Seq<StatusRecord>) -> bool {
    forall|i: int, j: int|
        0 <= i <= j < records.len() ==> (#[trigger] records[i]).sequence <= (
        #[trigger] records[j]).sequence
}

proof fn lemma_record_inserted(records: Seq<StatusRecord>, record: StatusRecord)
    requires
        ascends(records),
    ensures
        ascends(record_inserted(records, record)),
        record_inserted(records, record).to_multiset() =~= records.to_multiset().insert(record),
        record_inserted(records, record).len() == records.len() + 1,
        forall|k: int|
            0 <= k <= records.len() ==> {
                let kept = #[trigger] record_inserted(records, record)[k];
                kept == record || records.contains(kept)
            },
    decreases records.len(),
{
    broadcast use vstd::seq_lib::group_to_multiset_ensures;

    let inserted = record_inserted(records, record);
    if records.len() == 0 || records.last().sequence <= record.sequence {
        assert(inserted == records.push(record));
        assert forall|i: int, j: int| 0 <= i <= j < inserted.len() implies (
        #[trigger] inserted[i]).sequence <= (#[trigger] inserted[j]).sequence by {
            if i < records.len() {
                assert(records[i].sequence <= records.last().sequence);
            }
        }
    } else {
        let rest = records.drop_last();
        let before = record_inserted(rest, record);
        assert forall|i: int, j: int| 0 <= i <= j < rest.len() implies (#[trigger] rest[i]).sequence
            <= (#[trigger] rest[j]).sequence by {
            assert(records[i].sequence <= records[j].sequence);
        }
        lemma_record_inserted(rest, record);
        assert(inserted == before.push(records.last()));
        assert(records =~= rest.push(records.last()));
        assert(inserted.to_multiset() =~= records.to_multiset().insert(record));
        assert forall|k: int| 0 <= k < before.len() implies before[k].sequence
            <= records.last().sequence && (before[k] == record || records.contains(before[k])) by {
            if before[k] != record {
                assert(rest.contains(before[k]));
                let m = choose|m: int| 0 <= m < rest.len() && rest[m] == before[k];
                assert(records[m] == before[k]);
            }
        }
        assert forall|k: int| 0 <= k <= records.len() implies ({
            let kept = #[trigger] inserted[k];
            kept == record || records.contains(kept)
        }) by {
            if k == records.len() {
                assert(inserted[k] == records[records.len() - 1]);
            }
        }
    }
}

/// The records are put in the order of their sequence numbers: none is lost, and none stands before
/// one with a lower number.
pub proof fn records_are_put_in_sequence(records: Seq<StatusRecord>)
    ensures
        ascends(in_sequence(records)),
        in_sequence(records).to_multiset() == records.to_multiset(),
    decreases records.len(),
{
    broadcast use vstd::seq_lib::group_to_multiset_ensures;

    if records.len() > 0 {
        let rest = records.drop_last();
        records_are_put_in_sequence(rest);
        lemma_record_inserted(in_sequence(rest), records.last());
        assert(records =~= rest.push(records.last()));
    } else {
        assert(records =~= Seq::<StatusRecord>::empty());
    }
}

/// Where a chain of records is accepted, every record of it is of the run and bound to the staged
/// request, every terminal record authenticates the result, and no other record refers to it.
pub proof fn accepted_chains_bind_request_and_result(
    machine: MachineView,
    records: Seq<StatusRecord>,
    from: int,
    request_sha256: Seq<char>,
    result_sha256: Seq<char>,
    index: int,
)
    requires
        0 <= from <= index < records.len(),
        chain_value(machine, records, from, request_sha256, result_sha256) is Ok,
    ensures
        text::view_option(records[index].request_sha256) == Some(request_sha256),
        records[index].run_id@ == machine.run_id,
        result_state(records[index].state) ==> text::view_option(records[index].result_sha256)
            == Some(result_sha256),
        !result_state(records[index].state) ==> records[index].result_sha256 is None,
        from < index ==> records[from].sequence < records[index].sequence,
    decreases records.len() - from,
{
    let next = machine.after(&records[from]);
    if from < index {
        accepted_chains_bind_request_and_result(
            next,
            records,
            from + 1,
            request_sha256,
            result_sha256,
            index,
        );
        lemma_chain_grows(next, records, from + 1, request_sha256, result_sha256, index);
    }
}

proof fn lemma_chain_grows(
    machine: MachineView,
    records: Seq<StatusRecord>,
    from: int,
    request_sha256: Seq<char>,
    result_sha256: Seq<char>,
    index: int,
)
    requires
        0 <= from <= index < records.len(),
        chain_value(machine, records, from, request_sha256, result_sha256) is Ok,
    ensures
        machine.last_sequence < records[index].sequence,
    decreases records.len() - from,
{
    if from < index {
        lemma_chain_grows(
            machine.after(&records[from]),
            records,
            from + 1,
            request_sha256,
            result_sha256,
            index,
        );
    }
}

/// Every artifact that an accepted result claims was collected, with the size and the digest that
/// it claims.
pub proof fn claimed_artifacts_are_collected(
    claims: Seq<ArtifactManifestEntry>,
    artifacts: Seq<CollectedArtifact>,
    from: int,
    index: int,
)
    requires
        claims_verdict(claims, artifacts, from) is Ok,
        0 <= from <= index < claims.len(),
    ensures
        collected_at(artifacts, claimed_key(&claims[index])) matches Some(observed)
            && observed.size_bytes == claims[index].size_bytes && text::same_ignoring_case(
            observed.sha256@,
            claims[index].sha256@,
        ),
    decreases claims.len() - from,
{
    if from < index {
        claimed_artifacts_are_collected(claims, artifacts, from + 1, index);
    }
}

/// Where zero bytes are removed, every other byte is kept, as often as it was there and in its order.
pub proof fn only_zero_bytes_are_removed(bytes: Seq<u8>)
    ensures
        without_nuls(bytes) == bytes.filter(|byte: u8| byte != 0),
        !without_nuls(bytes).contains(0u8),
        forall|value: u8|
            value != 0 ==> #[trigger] without_nuls(bytes).to_multiset().count(value)
                == bytes.to_multiset().count(value),
        nul_count(bytes) == bytes.to_multiset().count(0),
        (forall|i: int| 0 <= i < bytes.len() ==> bytes[i] != 0) ==> without_nuls(bytes) == bytes,
    decreases bytes.len(),
{
    broadcast use vstd::seq_lib::group_to_multiset_ensures;

    reveal(Seq::filter);
    let kept = without_nuls(bytes);
    if bytes.len() == 0 {
        assert(bytes =~= Seq::<u8>::empty());
    } else {
        let rest = bytes.drop_last();
        only_zero_bytes_are_removed(rest);
        assert(bytes =~= rest.push(bytes.last()));
        if bytes.last() != 0 {
            assert(kept =~= without_nuls(rest).push(bytes.last()));
            assert(!kept.contains(0u8)) by {
                if kept.contains(0u8) {
                    let i = choose|i: int| 0 <= i < kept.len() && kept[i] == 0;
                    assert(without_nuls(rest)[i] == 0);
                }
            }
        }
        if forall|i: int| 0 <= i < bytes.len() ==> bytes[i] != 0 {
            assert(kept =~= bytes);
        }
    }
}

/// A stream behind a byte order mark is the UTF-16 text of its byte pairs in the order that the mark
/// says. Any other stream is the UTF-8 text of exactly its bytes, but for one in which at least two
/// bytes, and at least one of twenty, are zero: that one is the text of the others.
pub proof fn streams_are_decoded_by_their_marks(bytes: Seq<u8>)
    ensures
        ({
            let zeros = bytes.to_multiset().count(0);
            let marked = bytes.len() >= 2 && (bytes[0] == 0xff && bytes[1] == 0xfe || bytes[0] == 0xfe
                && bytes[1] == 0xff);
            &&& !marked && (zeros < 2 || 20 * zeros < bytes.len()) ==> decoded_stream(bytes)
                == text::utf8_lossy(bytes)
            &&& !marked && zeros >= 2 && 20 * zeros >= bytes.len() ==> decoded_stream(bytes)
                == text::utf8_lossy(bytes.filter(|byte: u8| byte != 0))
            &&& marked ==> (exists|units: Seq<u16>|
                {
                    &&& decoded_stream(bytes) == #[trigger] utf16_lossy(units)
                    &&& units.len() == (bytes.len() - 2) / 2
                    &&& forall|k: int|
                        0 <= k < units.len() ==> #[trigger] units[k] == if bytes[0] == 0xff {
                            bytes[2 * k + 2] + 256 * bytes[2 * k + 3]
                        } else {
                            256 * bytes[2 * k + 2] + bytes[2 * k + 3]
                        }
                })
        }),
{
    only_zero_bytes_are_removed(bytes);
    if bytes.len() >= 2 {
        let little = bytes[0] == 0xff;
        let rest = bytes.skip(2);
        let units = units_of(rest, little);
        assert forall|k: int| 0 <= k < units.len() implies #[trigger] units[k] == if bytes[0] == 0xff {
            bytes[2 * k + 2] + 256 * bytes[2 * k + 3]
        } else {
            256 * bytes[2 * k + 2] + bytes[2 * k + 3]
        } by {
            assert(rest[2 * k] == bytes[2 * k + 2]);
            assert(rest[2 * k + 1] == bytes[2 * k + 3]);
        }
        assert(utf16_lossy(units) == utf16_lossy(units_of(rest, little)));
    }
}

/// A stream without a byte order mark and without a zero byte is decoded as the text of exactly its
/// bytes.
pub proof fn plain_streams_are_decoded_whole(bytes: Seq<u8>)
    requires
        forall|i: int| 0 <= i < bytes.len() ==> bytes[i] != 0,
        bytes.len() >= 2 ==> !(bytes[0] == 0xff && bytes[1] == 0xfe) && !(bytes[0] == 0xfe && bytes[1]
            == 0xff),
    ensures
        decoded_stream(bytes) == text::utf8_lossy(bytes),
{
    only_zero_bytes_are_removed(bytes);
}

/// Warnings are the lines of their text: those that were joined by line feeds are all found again,
/// each cut to its first 1024 characters, and the first 1024 of them.
pub proof fn warnings_are_the_lines_of_their_text(lines: Seq<Seq<char>>)
    requires
        lines.len() > 0,
        lines.last().len() > 0,
        forall|i: int|
            0 <= i < lines.len() ==> !(#[trigger] lines[i]).contains('\n') && !lines[i].contains('\r'),
    ensures
        ({
            let found = warning_lines(text::join(lines, seq!['\n']));
            &&& found.len() == if lines.len() <= 1024 {
                lines.len() as int
            } else {
                1024
            }
            &&& forall|i: int|
                0 <= i < found.len() ==> #[trigger] found[i] == if lines[i].len() <= 1024 {
                    lines[i]
                } else {
                    lines[i].take(1024)
                }
        }),
{
    address_text::lemma_split_join(lines, '\n');
    let shown = text::join(lines, seq!['\n']);
    let pieces = text::split(shown, '\n');
    assert(pieces == lines);
    assert forall|i: int| 0 <= i < lines.len() implies without_return(#[trigger] lines[i]) == lines[i] by {
        if lines[i].len() > 0 && lines[i].last() == '\r' {
            assert(lines[i].contains('\r'));
        }
    }
    assert(lines_of(shown) =~= lines);
}

/// A carriage return before a line feed belongs to the line end, and a line feed at the end of the
/// text begins no further line.
pub proof fn line_ends_are_no_part_of_lines(front: Seq<char>, line: Seq<char>)
    requires
        !line.contains('\n'),
        !line.contains('\r'),
        front.len() > 0 ==> front.last() == '\n',
        line.len() > 0,
    ensures
        lines_of(front + line) == lines_of(front).push(line),
        lines_of(front + line.push('\n')) == lines_of(front).push(line),
        lines_of(front + line.push('\r').push('\n')) == lines_of(front).push(line),
{
    lemma_line_ends(front, line, Seq::empty());
    lemma_line_ends(front, line, seq!['\n']);
    lemma_line_ends(front, line, seq!['\r', '\n']);
    assert(front + line + Seq::<char>::empty() =~= front + line);
    assert(front + line + seq!['\n'] =~= front + line.push('\n'));
    assert(front + line + seq!['\r', '\n'] =~= front + line.push('\r').push('\n'));
}

proof fn lemma_line_ends(front: Seq<char>, line: Seq<char>, end: Seq<char>)
    requires
        !line.contains('\n'),
        !line.contains('\r'),
        front.len() > 0 ==> front.last() == '\n',
        line.len() > 0,
        end == Seq::<char>::empty() || end == seq!['\n'] || end == seq!['\r', '\n'],
    ensures
        lines_of(front + line + end) == lines_of(front).push(line),
{
    let before = text::split(front, '\n');
    text::lemma_split_nonempty(front, '\n');
    assert(before.last().len() == 0);
    let empty = Seq::<char>::empty();
    assert(before.last() =~= empty);
    assert forall|i: int| 0 <= i < line.len() implies line[i] != '\n' by {
        assert(line.contains(line[i]));
    }
    address_text::lemma_split_append(front, line, '\n');
    let whole = text::split(front + line, '\n');
    assert(empty + line =~= line);
    assert(whole == before.drop_last().push(line));
    assert(without_return(line) == line) by {
        if line.last() == '\r' {
            assert(line.contains('\r'));
        }
    }
    if end == empty {
        assert(front + line + end =~= front + line);
        assert(lines_of(front + line) =~= lines_of(front).push(line));
    } else if end == seq!['\n'] {
        let all = front + line + end;
        assert(all.drop_last() =~= front + line);
        assert(text::split(all, '\n') == whole.push(empty));
        assert(lines_of(all) =~= lines_of(front).push(line));
    } else {
        let closed = line.push('\r');
        assert forall|i: int| 0 <= i < closed.len() implies closed[i] != '\n' by {
        }
        address_text::lemma_split_append(front, closed, '\n');
        assert(empty + closed =~= closed);
        let all = front + line + end;
        assert(all.drop_last() =~= front + closed);
        assert(text::split(all, '\n') == before.drop_last().push(closed).push(empty));
        assert(closed.drop_last() =~= line);
        assert(lines_of(all) =~= lines_of(front).push(line));
    }
}

/// The status directory holds at most sixteen entries, each the agent's claim or the file of one of
/// the nine states.
pub proof fn status_directories_hold_states_only(count: u64, name: Option<Seq<char>>)
    ensures
        status_entry_verdict(count, name) is Ok <==> count <= 16 && (name matches Some(shown) && (shown
            == "agent-claim.json"@ || exists|state: ProtocolState| #[trigger]
            state.spec_file_name() == shown)),
{
    match name {
        Some(shown) => {
            let states = protocol_states();
            assert forall|state: ProtocolState| #[trigger] state.spec_file_name() == shown implies status_name(
                shown,
            ) by {
                assert(states[0] == ProtocolState::HostReady && states[1]
                    == ProtocolState::RequestWritten && states[2] == ProtocolState::StartAllowed
                    && states[3] == ProtocolState::CancelRequested && states[4]
                    == ProtocolState::GuestReady && states[5] == ProtocolState::Running && states[6]
                    == ProtocolState::Completed && states[7] == ProtocolState::Failed && states[8]
                    == ProtocolState::ShutdownReady);
                let i: int = match state {
                    ProtocolState::HostReady => 0,
                    ProtocolState::RequestWritten => 1,
                    ProtocolState::StartAllowed => 2,
                    ProtocolState::CancelRequested => 3,
                    ProtocolState::GuestReady => 4,
                    ProtocolState::Running => 5,
                    ProtocolState::Completed => 6,
                    ProtocolState::Failed => 7,
                    ProtocolState::ShutdownReady => 8,
                };
                assert(states[i].spec_file_name() == shown);
            }
        },
        None => {},
    }
}

/// A record is taken into a chain exactly where it is bound to the staged request, follows the ones
/// before it, and names the result's digest exactly where it says that the run completed, failed or
/// shut down.
pub proof fn records_join_the_chain(
    machine: MachineView,
    record: &StatusRecord,
    request_sha256: Seq<char>,
    result_sha256: Seq<char>,
)
    ensures
        chained(machine, record, request_sha256, result_sha256) is Ok <==> {
            &&& record.request_sha256 is Some && record.request_sha256->0@ == request_sha256
            &&& machine.verdict(record) is Ok
            &&& if record.state == ProtocolState::Completed || record.state == ProtocolState::Failed
                || record.state == ProtocolState::ShutdownReady {
                record.result_sha256 is Some && record.result_sha256->0@ == result_sha256
            } else {
                record.result_sha256 is None
            }
        },
        chained(machine, record, request_sha256, result_sha256) matches Ok(next) ==> next
            == machine.after(record),
        chained(machine, record, request_sha256, result_sha256) matches Err(fault) ==> fault.stage
            == "hyperv_result_collection"@,
{
}

/// A history fits an outcome exactly where the host was ready, wrote its request, allowed the start
/// and the guest shut down, and: an executed target ran to its completion after the guest was ready;
/// a failed agent published its failure alone; a cancelled run only its cancellation.
pub proof fn histories_fit_their_outcome(outcome: GuestTerminalOutcome, seen: Set<ProtocolState>)
    ensures
        history_verdict(outcome, seen) is Ok <==> {
            &&& seen.contains(ProtocolState::HostReady)
            &&& seen.contains(ProtocolState::RequestWritten)
            &&& seen.contains(ProtocolState::StartAllowed)
            &&& seen.contains(ProtocolState::ShutdownReady)
            &&& match outcome {
                GuestTerminalOutcome::Completed | GuestTerminalOutcome::TimedOut => {
                    &&& seen.contains(ProtocolState::GuestReady)
                    &&& seen.contains(ProtocolState::Running)
                    &&& seen.contains(ProtocolState::Completed)
                    &&& !seen.contains(ProtocolState::Failed)
                    &&& !seen.contains(ProtocolState::CancelRequested)
                },
                GuestTerminalOutcome::AgentFailed => {
                    &&& seen.contains(ProtocolState::Failed)
                    &&& !seen.contains(ProtocolState::Completed)
                    &&& !seen.contains(ProtocolState::CancelRequested)
                },
                GuestTerminalOutcome::Cancelled => {
                    &&& seen.contains(ProtocolState::CancelRequested)
                    &&& !seen.contains(ProtocolState::Completed)
                    &&& !seen.contains(ProtocolState::Failed)
                },
            }
        },
{
}

/// The records of a run are accepted exactly where, in the order of their numbers, each joins the
/// chain of a machine that has seen nothing yet, and the history they make fits the outcome.
pub proof fn accepted_histories(
    records: Seq<StatusRecord>,
    run_id: Seq<char>,
    request_sha256: Seq<char>,
    result_sha256: Seq<char>,
    outcome: GuestTerminalOutcome,
)
    ensures
        status_chain_verdict(records, run_id, request_sha256, result_sha256, outcome) is Ok <==> {
            let fresh = MachineView { run_id, seen: Set::empty(), last_sequence: 0 };
            let made = chain_value(fresh, in_sequence(records), 0, request_sha256, result_sha256);
            &&& guest_protocol::valid_sha256(request_sha256)
            &&& guest_protocol::valid_run_id(run_id)
            &&& made is Ok && history_verdict(outcome, made->Ok_0.seen) is Ok
        },
{
}

/// A chain is followed record by record, from the first to the last.
pub proof fn chains_are_followed_in_order(
    machine: MachineView,
    records: Seq<StatusRecord>,
    from: int,
    request_sha256: Seq<char>,
    result_sha256: Seq<char>,
)
    requires
        0 <= from <= records.len(),
    ensures
        from == records.len() ==> chain_value(
            machine,
            records,
            from,
            request_sha256,
            result_sha256,
        ) == Ok::<MachineView, backend::Fault>(machine),
        from < records.len() ==> match chained(
            machine,
            &records[from],
            request_sha256,
            result_sha256,
        ) {
            Err(fault) => chain_value(machine, records, from, request_sha256, result_sha256)
                == Err::<MachineView, backend::Fault>(fault),
            Ok(next) => chain_value(machine, records, from, request_sha256, result_sha256)
                == chain_value(next, records, from + 1, request_sha256, result_sha256),
        },
{
}

/// Links and reparse points are refused wherever they stand. A directory is entered, a plain file is
/// archived, read where it fits its bound, and counts as read where all of it was; nothing else is
/// taken.
pub proof fn only_plain_entries_are_taken(
    shown: Seq<char>,
    facts: EntryFacts,
    maximum: u64,
    bytes: Seq<u8>,
)
    ensures
        link_verdict(shown, facts) is Ok <==> !facts.link && !facts.reparse_point,
        plain_directory_verdict(shown, facts) is Ok <==> !facts.link && !facts.reparse_point
            && facts.directory,
        readable_verdict(shown, facts, maximum) is Ok <==> !facts.link && !facts.reparse_point
            && facts.regular && facts.len <= maximum,
        bytes_verdict(bytes, facts, maximum) is Ok <==> bytes.len() == facts.len && facts.len
            <= maximum,
        tree_entry_value(shown, facts) == Ok::<TreeEntry, backend::Fault>(TreeEntry::Descend) <==> !facts.link
            && !facts.reparse_point && facts.directory,
        tree_entry_value(shown, facts) == Ok::<TreeEntry, backend::Fault>(TreeEntry::Archive) <==> !facts.link
            && !facts.reparse_point && !facts.directory && facts.regular,
        link_verdict(shown, facts) matches Err(fault) ==> fault.stage == "hyperv_result_collection"@,
{
}

/// Limits are usable exactly where none is zero and none exceeds the total. By default a result has
/// at most 32 MiB, a stream 8 MiB, an artifact 64 MiB, everything together 512 MiB, in 512 files.
pub proof fn limits_are_positive_and_below_the_total(limits: CollectionLimits)
    ensures
        limits.verdict() is Ok <==> {
            &&& limits.maximum_artifacts >= 1
            &&& limits.maximum_result_bytes >= 1
            &&& limits.maximum_stream_bytes >= 1
            &&& limits.maximum_artifact_bytes >= 1
            &&& limits.maximum_result_bytes <= limits.maximum_total_bytes
            &&& limits.maximum_stream_bytes <= limits.maximum_total_bytes
            &&& limits.maximum_artifact_bytes <= limits.maximum_total_bytes
        },
        default_limits().maximum_result_bytes == 32 * 1024 * 1024,
        default_limits().maximum_stream_bytes == 8 * 1024 * 1024,
        default_limits().maximum_artifact_bytes == 64 * 1024 * 1024,
        default_limits().maximum_total_bytes == 512 * 1024 * 1024,
        default_limits().maximum_artifacts == 512,
        default_limits().verdict() is Ok,
{
}

/// A path is archived exactly where it is relative and each of its parts is a name that is safe on
/// Windows.
pub proof fn archived_paths_are_relative_and_safe(path: &HostPath)
    ensures
        relative_path_verdict(path) is Ok <==> {
            &&& path.shown@.len() > 0
            &&& !path.absolute
            &&& forall|i: int|
                0 <= i < path.parts@.len() ==> {
                    let part = #[trigger] path.parts@[i];
                    part is Normal && artifact::safe_windows_name(part->Normal_0@)
                }
        },
        relative_path_verdict(path) matches Err(fault) ==> fault.stage == "hyperv_result_collection"@,
{
    if forall|i: int| 0 <= i < path.parts@.len() ==> is_safe_part(#[trigger] path.parts@[i]) {
        assert forall|i: int| 0 <= i < path.parts@.len() implies ({
            let part = #[trigger] path.parts@[i];
            part is Normal && artifact::safe_windows_name(part->Normal_0@)
        }) by {
            assert(is_safe_part(path.parts@[i]));
        }
        assert forall|i: int| 0 <= i < path.parts@.len() implies is_plain(#[trigger] path.parts@[i]) by {
            assert(is_safe_part(path.parts@[i]));
        }
    }
}

/// A file is admitted exactly where there is room for one more of its size, its path may be archived,
/// and no file stands there yet, whatever its letter case and slashes.
pub proof fn admitted_files(archive: &Archive, relative: &HostPath, len: u64, message: Seq<char>)
    ensures
        archive.admission_verdict(relative, len, message) is Ok <==> {
            &&& archive.artifacts@.len() < archive.limits.maximum_artifacts
            &&& len <= archive.limits.maximum_artifact_bytes
            &&& archive.total_bytes + len <= archive.limits.maximum_total_bytes
            &&& relative_path_verdict(relative) is Ok
            &&& !text::views(archive.archived_paths@).contains(folded_path(relative.shown@))
        },
{
}

/// Two paths count as the same where they differ in nothing but letter case and the direction of
/// their slashes.
pub proof fn slashes_do_not_tell_paths_apart(first: Seq<char>, second: Seq<char>)
    requires
        first.len() == second.len(),
        forall|i: int|
            0 <= i < first.len() ==> #[trigger] first[i] == second[i] || first[i] == '\\' && second[i]
                == '/' || first[i] == '/' && second[i] == '\\',
    ensures
        folded_path(first) == folded_path(second),
        !first.contains('\\') ==> folded_path(second) == text::unicode_lower(first),
{
    assert(slashed(first) =~= slashed(second));
    if !first.contains('\\') {
        assert forall|i: int| 0 <= i < first.len() implies first[i] != '\\' by {
            assert(first.contains(first[i]));
        }
        assert(slashed(first) =~= first);
    }
}

proof fn lemma_collected_at(artifacts: Seq<CollectedArtifact>, key: Seq<char>)
    ensures
        match collected_at(artifacts, key) {
            Some(found) => artifacts.contains(found) && folded_path(found.relative_path.shown@) == key,
            None => forall|i: int|
                0 <= i < artifacts.len() ==> folded_path(
                    (#[trigger] artifacts[i]).relative_path.shown@,
                ) != key,
        },
    decreases artifacts.len(),
{
    if artifacts.len() > 0 {
        let rest = artifacts.drop_last();
        lemma_collected_at(rest, key);
        if folded_path(artifacts.last().relative_path.shown@) == key {
            assert(artifacts.contains(artifacts[artifacts.len() - 1]));
        } else {
            match collected_at(rest, key) {
                Some(found) => {
                    let i = choose|i: int| 0 <= i < rest.len() && rest[i] == found;
                    assert(artifacts[i] == found);
                },
                None => {
                    assert forall|i: int| 0 <= i < artifacts.len() implies folded_path(
                        (#[trigger] artifacts[i]).relative_path.shown@,
                    ) != key by {
                        if i < rest.len() {
                            assert(rest[i] == artifacts[i]);
                        }
                    }
                },
            }
        }
    }
}

/// A claim is accepted only where some collected file stands below the guest's output at the claimed
/// path, with the claimed size and digest; and it is refused where no file stands there.
pub proof fn claims_are_held_against_the_files(
    claimed: &ArtifactManifestEntry,
    artifacts: Seq<CollectedArtifact>,
)
    ensures
        claim_verdict(claimed, artifacts) is Ok ==> exists|i: int|
            {
                &&& 0 <= i < artifacts.len()
                &&& folded_path((#[trigger] artifacts[i]).relative_path.shown@)
                    == text::unicode_lower("guest-output/"@ + claimed.relative_path@)
                &&& artifacts[i].size_bytes == claimed.size_bytes
                &&& text::same_ignoring_case(artifacts[i].sha256@, claimed.sha256@)
            },
        (forall|i: int|
            0 <= i < artifacts.len() ==> folded_path((#[trigger] artifacts[i]).relative_path.shown@)
                != text::unicode_lower("guest-output/"@ + claimed.relative_path@)) ==> claim_verdict(
            claimed,
            artifacts,
        ) is Err,
        archived_keys(artifacts).no_duplicates() ==> (forall|i: int|
            0 <= i < artifacts.len() && folded_path((#[trigger] artifacts[i]).relative_path.shown@)
                == text::unicode_lower("guest-output/"@ + claimed.relative_path@) ==> (claim_verdict(
                claimed,
                artifacts,
            ) is Ok <==> artifacts[i].size_bytes == claimed.size_bytes && text::same_ignoring_case(
                artifacts[i].sha256@,
                claimed.sha256@,
            ))),
        claim_verdict(claimed, artifacts) matches Err(fault) ==> fault.stage
            == "hyperv_result_collection"@,
{
    let key = text::unicode_lower("guest-output/"@ + claimed.relative_path@);
    lemma_collected_at(artifacts, key);
    match collected_at(artifacts, key) {
        Some(found) => {
            let i = choose|i: int| 0 <= i < artifacts.len() && artifacts[i] == found;
            assert(artifacts[i] == found);
            let keys = archived_keys(artifacts);
            if keys.no_duplicates() {
                assert forall|j: int|
                    0 <= j < artifacts.len() && folded_path(
                        (#[trigger] artifacts[j]).relative_path.shown@,
                    ) == key implies artifacts[j] == found by {
                    assert(keys[j] == key && keys[i] == key);
                }
            }
        },
        None => {},
    }
}

/// A result is taken exactly where it is well formed and of the run.
pub proof fn results_are_of_the_run(
    result: &GuestResultEnvelope<SandboxRunResult>,
    expected_run_id: Seq<char>,
)
    ensures
        result_verdict(result, expected_run_id) is Ok <==> result.metadata_verdict() is Ok
            && result.run_id@ == expected_run_id,
{
}

/// Of a run that did not finish, eight files are looked for, each by its own name and none of them
/// required.
pub proof fn rescues_look_for_eight_files(limits: CollectionLimits)
    ensures
        ({
            let files = partial_plan(limits);
            &&& files.len() == 8
            &&& files[0].name == "result.json"@
            &&& files[1].name == "stdout.txt"@
            &&& files[2].name == "stderr.txt"@
            &&& files[3].name == "process-events.json"@
            &&& files[4].name == "network-events.json"@
            &&& files[5].name == "filesystem-events.json"@
            &&& files[6].name == "registry-events.json"@
            &&& files[7].name == "warnings.txt"@
            &&& files[0].maximum == limits.maximum_result_bytes
            &&& forall|k: int|
                0 < k < 8 ==> (#[trigger] files[k]).maximum == limits.maximum_stream_bytes
            &&& forall|k: int| 0 <= k < 8 ==> !(#[trigger] files[k]).required
        }),
{
}

/// An event list counts exactly where it could be compared with the result and says the same.
pub proof fn event_lists_say_what_the_result_says(name: Seq<char>, same: Result<bool, Seq<char>>)
    ensures
        event_list_verdict(name, same) is Ok <==> same == Ok::<bool, Seq<char>>(true),
{
}

} // verus!
