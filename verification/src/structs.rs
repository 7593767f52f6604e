//! What a sandboxed execution reports.

use vstd::prelude::*;

verus! {

/// How much of an output stream was seen and kept.
#[derive(Clone, Copy, Debug, PartialEq, Eq, Structural)]
pub struct StreamCaptureSummary {
    pub bytes_seen: u64,
    pub bytes_stored: u64,
    pub truncated: bool,
}

impl StreamCaptureSummary {
    /// No more was kept than seen, and everything seen was kept unless the stream was cut.
    pub open spec fn consistent(&self) -> bool {
        &&& self.bytes_stored <= self.bytes_seen
        &&& !self.truncated ==> self.bytes_stored == self.bytes_seen
    }

    pub fn empty() -> (summary: StreamCaptureSummary)
        ensures
            summary == (StreamCaptureSummary { bytes_seen: 0, bytes_stored: 0, truncated: false }),
            summary.consistent(),
    {
        StreamCaptureSummary { bytes_seen: 0, bytes_stored: 0, truncated: false }
    }

    pub fn is_consistent(&self) -> (yes: bool)
        ensures
            yes == self.consistent(),
    {
        self.bytes_stored <= self.bytes_seen && (self.truncated || self.bytes_stored
            == self.bytes_seen)
    }
}

/// What became of the resources of an execution.
#[derive(Clone, Debug, PartialEq, Eq)]
pub struct CleanupStatus {
    pub attempted: bool,
    pub success: bool,
    pub warnings: Vec<String>,
    pub leftover_resources: Vec<String>,
}

impl CleanupStatus {
    /// Nothing was attempted yet.
    pub fn pending() -> (status: CleanupStatus)
        ensures
            !status.attempted,
            !status.success,
            status.warnings@.len() == 0,
            status.leftover_resources@.len() == 0,
    {
        CleanupStatus {
            attempted: false,
            success: false,
            warnings: Vec::new(),
            leftover_resources: Vec::new(),
        }
    }
}

/// A file that the execution touched.
#[derive(Clone, Debug, PartialEq, Eq)]
pub struct FileObservation {
    pub relative_path: String,
    pub kind: String,
    pub sha256: Option<String>,
    pub hash_source: Option<String>,
}

/// The result of one execution. Process, connection, registry and mapping records are carried as
/// the text of their JSON form.
#[derive(Clone, Debug, PartialEq, Eq)]
pub struct SandboxRunResult {
    pub backend: String,
    pub network_policy: String,
    pub integrity_level: String,
    pub mitigation_profile: String,
    pub pid: u32,
    pub exit_code: Option<i32>,
    pub timed_out: bool,
    pub working_dir: Option<String>,
    pub duration_ms: u64,
    pub stdout: String,
    pub stderr: String,
    pub stdout_capture: StreamCaptureSummary,
    pub stderr_capture: StreamCaptureSummary,
    pub processes: Vec<String>,
    pub network_connections: Vec<String>,
    pub file_observations: Vec<FileObservation>,
    pub registry_observations: Vec<String>,
    pub mapped_paths: Vec<String>,
    pub monitor_warnings: Vec<String>,
    pub cleanup: CleanupStatus,
}

} // verus!
