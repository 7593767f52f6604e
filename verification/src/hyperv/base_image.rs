//! The base image that the disk of every run is made over: its manifest, its pinned bytes and what
//! the host reports of it.

use vstd::prelude::*;
use vstd::string::*;

use crate::backend;
use crate::backend::{SandboxError, SandboxResult};
use crate::digest;
use crate::digest::StreamDigest;
use crate::host_path;
use crate::host_path::{HostPath, PathStyle};
use crate::hyperv::disk::PathInput;
use crate::hyperv::guest_protocol;
use crate::hyperv::powershell;
use crate::hyperv::powershell::{command_path, PowerShellInvocation, DEFAULT_MAX_OUTPUT_BYTES};
use crate::hyperv::scripts;
use crate::text;

verus! {

pub const BASE_IMAGE_MANIFEST_SCHEMA_VERSION: u32 = 1;

pub const SUPPORTED_GUEST_PROTOCOL_VERSION: u32 = 2;

pub const MAX_MANIFEST_BYTES: u64 = 65_536;

pub const DEFAULT_MAX_BASE_IMAGE_BYTES: u64 = 274_877_906_944;

pub const DEFAULT_MAX_VIRTUAL_IMAGE_BYTES: u64 = 137_438_953_472;

/// The time that the inspection of an image may take.
pub const INSPECT_TIMEOUT_MS: u64 = 900_000;

#[derive(Clone, Debug, PartialEq, Eq)]
pub struct BaseImageManifest {
    pub schema_version: u32,
    pub image_version: String,
    pub guest_protocol_version: u32,
    pub vm_generation: u8,
    pub secure_boot_template: String,
    pub sha256: String,
    pub built_at_unix_secs: u64,
}

impl BaseImageManifest {
    pub fn duplicate(&self) -> (copy: BaseImageManifest)
        ensures
            copy == *self,
    {
        BaseImageManifest {
            schema_version: self.schema_version,
            image_version: self.image_version.clone(),
            guest_protocol_version: self.guest_protocol_version,
            vm_generation: self.vm_generation,
            secure_boot_template: self.secure_boot_template.clone(),
            sha256: self.sha256.clone(),
            built_at_unix_secs: self.built_at_unix_secs,
        }
    }
}

#[derive(Clone, Debug, PartialEq, Eq)]
pub struct BaseImageConfig {
    pub image_path: HostPath,
    pub manifest_path: HostPath,
    pub maximum_image_bytes: u64,
    pub maximum_virtual_size_bytes: u64,
    pub required_guest_protocol_version: u32,
}

impl BaseImageConfig {
    pub fn new(image_path: HostPath, manifest_path: HostPath) -> (config: BaseImageConfig)
        ensures
            config == (BaseImageConfig {
                image_path,
                manifest_path,
                maximum_image_bytes: DEFAULT_MAX_BASE_IMAGE_BYTES,
                maximum_virtual_size_bytes: DEFAULT_MAX_VIRTUAL_IMAGE_BYTES,
                required_guest_protocol_version: SUPPORTED_GUEST_PROTOCOL_VERSION,
            }),
    {
        BaseImageConfig {
            image_path,
            manifest_path,
            maximum_image_bytes: DEFAULT_MAX_BASE_IMAGE_BYTES,
            maximum_virtual_size_bytes: DEFAULT_MAX_VIRTUAL_IMAGE_BYTES,
            required_guest_protocol_version: SUPPORTED_GUEST_PROTOCOL_VERSION,
        }
    }

    pub open spec fn verdict(&self) -> Result<(), backend::Fault> {
        if self.maximum_image_bytes == 0 || self.maximum_virtual_size_bytes == 0
            || self.required_guest_protocol_version == 0 {
            Err(image_fault("base-image limits and guest protocol version must be non-zero"@))
        } else if !self.image_path.absolute || !self.manifest_path.absolute {
            Err(image_fault("base-image and manifest paths must be absolute"@))
        } else if !host_path::has_extension_spec(self.image_path.spec_parts(), "vhdx"@) {
            Err(image_fault("base image must use the VHDX format"@))
        } else {
            Ok(())
        }
    }
}

/// An error of the base image.
pub open spec fn image_fault(message: Seq<char>) -> backend::Fault {
    backend::fault("hyperv_base_image"@, message)
}

/// An error of the base image with what caused it.
pub open spec fn image_fault_from(message: Seq<char>, source: Seq<char>) -> backend::Fault {
    backend::fault_from("hyperv_base_image"@, message, source)
}

fn image_error(message: &str) -> (error: SandboxError)
    ensures
        error@ == image_fault(message@),
{
    SandboxError::new("hyperv_base_image", message)
}

fn image_error_from(message: &str, source: &str) -> (error: SandboxError)
    ensures
        error@ == image_fault_from(message@, source@),
{
    SandboxError::with_source("hyperv_base_image", message, source)
}

pub fn validate_config(config: &BaseImageConfig) -> (verdict: SandboxResult<()>)
    ensures
        backend::outcome(verdict) == config.verdict(),
{
    if config.maximum_image_bytes == 0 || config.maximum_virtual_size_bytes == 0
        || config.required_guest_protocol_version == 0 {
        return Err(image_error("base-image limits and guest protocol version must be non-zero"));
    }
    if !config.image_path.is_absolute() || !config.manifest_path.is_absolute() {
        return Err(image_error("base-image and manifest paths must be absolute"));
    }
    if !config.image_path.has_extension("vhdx") {
        return Err(image_error("base image must use the VHDX format"));
    }
    Ok(())
}

/// What the host reports of an image.
#[derive(Clone, Debug, PartialEq, Eq)]
pub struct BaseImageProbe {
    pub valid: bool,
    pub path: HostPath,
    pub vhd_format: String,
    pub vhd_type: String,
    pub attached: bool,
    pub parent_path: Option<HostPath>,
    pub size_bytes: u64,
    pub logical_sector_size: u32,
    pub disk_identifier: Option<String>,
    pub sha256: String,
}

/// An image that passed every check.
#[derive(Clone, Debug, PartialEq, Eq)]
pub struct ValidatedBaseImage {
    pub path: HostPath,
    pub manifest: BaseImageManifest,
}

/// The invocation that reports the facts of an image.
pub fn inspect(path: &HostPath) -> (invocation: SandboxResult<PowerShellInvocation<PathInput>>)
    ensures
        match invocation {
            Ok(made) => {
                &&& made.operation@ == "inspect Hyper-V base image"@
                &&& made.script@ == scripts::INSPECT_BASE_IMAGE_SCRIPT@
                &&& powershell::command_path_value(path, "base-image path"@) == Ok::<
                    Seq<char>,
                    backend::Fault,
                >(made.input.path@)
                &&& made.timeout_ms == INSPECT_TIMEOUT_MS
                &&& made.max_output_bytes == DEFAULT_MAX_OUTPUT_BYTES
            },
            Err(error) => powershell::command_path_value(path, "base-image path"@) == Err::<
                Seq<char>,
                backend::Fault,
            >(error@),
        },
{
    match command_path(path, "base-image path") {
        Ok(path) => Ok(
            PowerShellInvocation {
                operation: "inspect Hyper-V base image",
                script: scripts::INSPECT_BASE_IMAGE_SCRIPT,
                input: PathInput { path },
                timeout_ms: INSPECT_TIMEOUT_MS,
                max_output_bytes: DEFAULT_MAX_OUTPUT_BYTES,
            },
        ),
        Err(error) => Err(error),
    }
}

pub fn is_sha256(value: &str) -> (yes: bool)
    ensures
        yes == guest_protocol::valid_sha256(value@),
{
    guest_protocol::validate_sha256(value).is_ok()
}

// ---------------------------------------------------------------------------------------------
// Manifest and probe
// ---------------------------------------------------------------------------------------------

impl BaseImageManifest {
    pub open spec fn verdict(&self, required: u32) -> Result<(), backend::Fault> {
        if self.schema_version != BASE_IMAGE_MANIFEST_SCHEMA_VERSION {
            Err(
                image_fault(
                    "unsupported base-image manifest schema "@ + text::decimal(
                        self.schema_version as nat,
                    ),
                ),
            )
        } else if self.guest_protocol_version != required {
            Err(
                image_fault(
                    "base image guest protocol "@ + text::decimal(
                        self.guest_protocol_version as nat,
                    ) + " is incompatible with required protocol "@ + text::decimal(required as nat),
                ),
            )
        } else if self.vm_generation != 2 {
            Err(image_fault("base image must target a Generation 2 VM"@))
        } else if text::blank(self.image_version@) || self.secure_boot_template@
            != "MicrosoftWindows"@ || !guest_protocol::valid_sha256(self.sha256@)
            || self.built_at_unix_secs == 0 {
            Err(
                image_fault(
                    "base-image manifest has invalid version, Secure Boot, hash, or build metadata"@,
                ),
            )
        } else {
            Ok(())
        }
    }
}

pub fn validate_manifest(manifest: &BaseImageManifest, required_guest_protocol_version: u32) -> (verdict:
    SandboxResult<()>)
    ensures
        backend::outcome(verdict) == manifest.verdict(required_guest_protocol_version),
{
    if manifest.schema_version != BASE_IMAGE_MANIFEST_SCHEMA_VERSION {
        let shown = text::decimal_text(manifest.schema_version as u64);
        let message = text::cat2("unsupported base-image manifest schema ", shown.as_str());
        return Err(image_error(message.as_str()));
    }
    if manifest.guest_protocol_version != required_guest_protocol_version {
        let found = text::decimal_text(manifest.guest_protocol_version as u64);
        let required = text::decimal_text(required_guest_protocol_version as u64);
        let message = text::cat4(
            "base image guest protocol ",
            found.as_str(),
            " is incompatible with required protocol ",
            required.as_str(),
        );
        return Err(image_error(message.as_str()));
    }
    if manifest.vm_generation != 2 {
        return Err(image_error("base image must target a Generation 2 VM"));
    }
    if text::is_blank(manifest.image_version.as_str()) || !text::same_text(
        manifest.secure_boot_template.as_str(),
        "MicrosoftWindows",
    ) || !is_sha256(manifest.sha256.as_str()) || manifest.built_at_unix_secs == 0 {
        return Err(
            image_error(
                "base-image manifest has invalid version, Secure Boot, hash, or build metadata",
            ),
        );
    }
    Ok(())
}

impl BaseImageProbe {
    /// A sound, detached image without a parent, of the manifest's and the pinned bytes' digest.
    pub open spec fn sound(
        &self,
        manifest_sha256: Seq<char>,
        pinned_sha256: Seq<char>,
        maximum_virtual_size_bytes: u64,
    ) -> bool {
        &&& self.valid
        &&& text::same_ignoring_case(self.vhd_format@, "vhdx"@)
        &&& text::lower(self.vhd_type@) == "fixed"@ || text::lower(self.vhd_type@) == "dynamic"@
        &&& !self.attached
        &&& self.parent_path is None
        &&& 0 < self.size_bytes <= maximum_virtual_size_bytes
        &&& self.logical_sector_size != 0
        &&& text::same_ignoring_case(self.sha256@, manifest_sha256)
        &&& text::same_ignoring_case(self.sha256@, pinned_sha256)
    }
}

/// The verdict on a report. `same_location` says whether the reported path names the image, or why
/// that could not be found out; only a sound report is asked for its location.
pub open spec fn probe_verdict(
    manifest: &BaseImageManifest,
    probe: &BaseImageProbe,
    same_location: Result<bool, Seq<char>>,
    file_size: u64,
    pinned_sha256: Seq<char>,
    maximum_virtual_size_bytes: u64,
) -> Result<(), backend::Fault> {
    if !probe.sound(manifest.sha256@, pinned_sha256, maximum_virtual_size_bytes) {
        Err(
            image_fault(
                "base image failed VHDX type, attachment, parent, geometry, or hash validation"@,
            ),
        )
    } else {
        match same_location {
            Err(source) => Err(
                image_fault_from("canonicalize the path reported by Hyper-V"@, source),
            ),
            Ok(same) => if !same || file_size == 0 {
                Err(image_fault("Hyper-V inspected a different or empty base-image file"@))
            } else {
                Ok(())
            },
        }
    }
}

fn is_sound(
    probe: &BaseImageProbe,
    manifest_sha256: &str,
    pinned_sha256: &str,
    maximum_virtual_size_bytes: u64,
) -> (yes: bool)
    ensures
        yes == probe.sound(manifest_sha256@, pinned_sha256@, maximum_virtual_size_bytes),
{
    let kind = text::to_lower(probe.vhd_type.as_str());
    probe.valid && text::eq_ignoring_case(probe.vhd_format.as_str(), "vhdx") && (text::same_text(
        kind.as_str(),
        "fixed",
    ) || text::same_text(kind.as_str(), "dynamic")) && !probe.attached && probe.parent_path.is_none()
        && probe.size_bytes != 0 && probe.size_bytes <= maximum_virtual_size_bytes
        && probe.logical_sector_size != 0 && text::eq_ignoring_case(
        probe.sha256.as_str(),
        manifest_sha256,
    ) && text::eq_ignoring_case(probe.sha256.as_str(), pinned_sha256)
}

/// What is known of the location of a report.
pub open spec fn location_view(same_location: Result<bool, String>) -> Result<bool, Seq<char>> {
    match same_location {
        Ok(same) => Ok(same),
        Err(source) => Err(source@),
    }
}

/// Checks what the host reports of the pinned image.
pub fn validate_probe(
    manifest: &BaseImageManifest,
    probe: &BaseImageProbe,
    same_location: &Result<bool, String>,
    file_size: u64,
    pinned_sha256: &str,
    maximum_virtual_size_bytes: u64,
) -> (verdict: SandboxResult<()>)
    ensures
        backend::outcome(verdict) == probe_verdict(
            manifest,
            probe,
            location_view(*same_location),
            file_size,
            pinned_sha256@,
            maximum_virtual_size_bytes,
        ),
{
    if !is_sound(probe, manifest.sha256.as_str(), pinned_sha256, maximum_virtual_size_bytes) {
        return Err(
            image_error(
                "base image failed VHDX type, attachment, parent, geometry, or hash validation",
            ),
        );
    }
    match same_location {
        Err(source) => Err(
            image_error_from("canonicalize the path reported by Hyper-V", source.as_str()),
        ),
        Ok(same) => if !*same || file_size == 0 {
            Err(image_error("Hyper-V inspected a different or empty base-image file"))
        } else {
            Ok(())
        },
    }
}

// ---------------------------------------------------------------------------------------------
// Validation of an image
// ---------------------------------------------------------------------------------------------

/// The digest of the pinned image and the count of the bytes it was taken of.
#[derive(Clone, Debug, PartialEq, Eq)]
pub struct ImageDigest {
    pub copied: u64,
    pub sha256: String,
}

impl ImageDigest {
    /// The digest of the bytes that were read from the held image.
    pub fn of(stream: StreamDigest) -> (made: ImageDigest)
        requires
            stream.well_formed(),
        ensures
            made.copied == stream.copied,
            made.sha256@ == digest::sha256_text(stream.content()),
    {
        let copied: u64 = stream.copied;
        ImageDigest { copied, sha256: stream.finish() }
    }
}

/// What reading the manifest's bytes as a manifest gave.
#[derive(Clone, Debug, PartialEq, Eq)]
pub enum ManifestOutcome {
    Malformed(String),
    TrailingData(String),
    Parsed(BaseImageManifest),
}

/// What was found out of an image so far, in the order in which it is found out. A failed
/// observation is held as the text of its error.
#[derive(Debug)]
pub struct ImageObservations {
    /// The image lies on a fixed local volume.
    pub volume: Option<Result<(), String>>,
    /// Every directory above the image is held.
    pub directories: Option<Result<(), String>>,
    /// The image is held open; its length.
    pub image_len: Option<Result<u64, String>>,
    /// The path that the held image has.
    pub canonical: Option<Result<HostPath, String>>,
    /// Whether the held image is marked read-only.
    pub read_only: Option<Result<bool, String>>,
    pub digest: Option<Result<ImageDigest, String>>,
    /// The manifest is held open; its length.
    pub manifest_len: Option<Result<u64, String>>,
    /// The count of the manifest's bytes that were read.
    pub manifest_read: Option<Result<u64, String>>,
    pub manifest: Option<ManifestOutcome>,
    pub probe: Option<SandboxResult<BaseImageProbe>>,
    /// The path that the reported path resolves to; asked for where paths are not compared as texts.
    pub reported: Option<Result<HostPath, String>>,
}

/// The next thing to find out.
#[derive(Clone, Copy, Debug, PartialEq, Eq, Structural)]
pub enum ImageStep {
    VerifyVolume,
    PinDirectories,
    OpenImage,
    ResolvePath,
    ReadAttributes,
    HashImage,
    OpenManifest,
    ReadManifest,
    ParseManifest,
    Inspect,
    ResolveReported,
}

/// How far the validation of an image has come.
#[derive(Debug)]
pub enum ImageProgress {
    Failed(SandboxError),
    Need(ImageStep),
    Valid(ValidatedBaseImage),
}

/// How far a validation has come, with what an error says in its place.
pub enum ProgressView {
    Failed(backend::Fault),
    Need(ImageStep),
    Valid,
}

impl View for ImageProgress {
    type V = ProgressView;

    open spec fn view(&self) -> ProgressView {
        match self {
            ImageProgress::Failed(error) => ProgressView::Failed(error@),
            ImageProgress::Need(step) => ProgressView::Need(*step),
            ImageProgress::Valid(_) => ProgressView::Valid,
        }
    }
}

/// Why a writable image is refused.
pub open spec fn writable_text(style: PathStyle) -> Seq<char> {
    match style {
        PathStyle::Windows => "the VHDX read-only file attribute is not set"@,
        PathStyle::Unix => "the VHDX file permissions are writable"@,
    }
}

/// The source of the error for an image that is not marked read-only.
pub fn require_read_only_parent(style: PathStyle, read_only: bool) -> (verdict: Result<(), String>)
    ensures
        match verdict {
            Ok(_) => read_only,
            Err(source) => !read_only && source@ == writable_text(style),
        },
{
    if read_only {
        return Ok(());
    }
    match style {
        PathStyle::Windows => Err("the VHDX read-only file attribute is not set".to_owned()),
        PathStyle::Unix => Err("the VHDX file permissions are writable".to_owned()),
    }
}

impl ImageObservations {
    /// Nothing was found out yet.
    pub fn new() -> (seen: ImageObservations)
        ensures
            seen == (ImageObservations {
                volume: None,
                directories: None,
                image_len: None,
                canonical: None,
                read_only: None,
                digest: None,
                manifest_len: None,
                manifest_read: None,
                manifest: None,
                probe: None,
                reported: None,
            }),
    {
        ImageObservations {
            volume: None,
            directories: None,
            image_len: None,
            canonical: None,
            read_only: None,
            digest: None,
            manifest_len: None,
            manifest_read: None,
            manifest: None,
            probe: None,
            reported: None,
        }
    }

    /// The location of the image: first what the configuration says, then its volume, its
    /// directories and the image itself.
    pub open spec fn progress(&self, config: &BaseImageConfig) -> ProgressView {
        match config.verdict() {
            Err(error) => ProgressView::Failed(error),
            Ok(_) => match config.image_path.local_fault {
                Some(source) => ProgressView::Failed(
                    image_fault_from("base image must be on an absolute local path"@, source@),
                ),
                None => match self.volume {
                    None => ProgressView::Need(ImageStep::VerifyVolume),
                    Some(Err(source)) => ProgressView::Failed(
                        image_fault_from("base image must be on a fixed local volume"@, source@),
                    ),
                    Some(Ok(_)) => if host_path::parent_of(config.image_path.spec_parts()) is None {
                        ProgressView::Failed(image_fault("base image has no parent directory"@))
                    } else {
                        match self.directories {
                            None => ProgressView::Need(ImageStep::PinDirectories),
                            Some(Err(source)) => ProgressView::Failed(
                                image_fault_from("pin the base-image directory tree"@, source@),
                            ),
                            Some(Ok(_)) => match self.image_len {
                                None => ProgressView::Need(ImageStep::OpenImage),
                                Some(Err(source)) => ProgressView::Failed(
                                    image_fault_from(
                                        "base image is missing or unsafe; provision it at "@
                                            + config.image_path.shown@,
                                        source@,
                                    ),
                                ),
                                Some(Ok(len)) => self.image_progress(config, len),
                            },
                        }
                    },
                },
            },
        }
    }

    /// The held image: its path, its attributes and its digest.
    pub open spec fn image_progress(&self, config: &BaseImageConfig, len: u64) -> ProgressView {
        match self.canonical {
            None => ProgressView::Need(ImageStep::ResolvePath),
            Some(Err(source)) => ProgressView::Failed(
                image_fault_from("resolve the pinned base-image path"@, source@),
            ),
            Some(Ok(canonical)) => match self.read_only {
                None => ProgressView::Need(ImageStep::ReadAttributes),
                Some(Err(source)) => ProgressView::Failed(
                    image_fault_from(
                        "base image must be marked read-only before it can be used as a parent"@,
                        source@,
                    ),
                ),
                Some(Ok(false)) => ProgressView::Failed(
                    image_fault_from(
                        "base image must be marked read-only before it can be used as a parent"@,
                        writable_text(config.image_path.style),
                    ),
                ),
                Some(Ok(true)) => match self.digest {
                    None => ProgressView::Need(ImageStep::HashImage),
                    Some(Err(source)) => ProgressView::Failed(
                        image_fault_from("hash the pinned base-image bytes"@, source@),
                    ),
                    Some(Ok(digest)) => if digest.copied != len {
                        ProgressView::Failed(
                            image_fault_from(
                                "hash the pinned base-image bytes"@,
                                "base image changed while it was hashed"@,
                            ),
                        )
                    } else {
                        self.manifest_progress(config, len, &canonical, digest.sha256@)
                    },
                },
            },
        }
    }

    /// The manifest: its bytes, its content and the digest that it records.
    pub open spec fn manifest_progress(
        &self,
        config: &BaseImageConfig,
        len: u64,
        canonical: &HostPath,
        pinned_sha256: Seq<char>,
    ) -> ProgressView {
        match self.manifest_len {
            None => ProgressView::Need(ImageStep::OpenManifest),
            Some(Err(source)) => ProgressView::Failed(
                image_fault_from(
                    "base-image manifest is missing; provision it at "@ + config.manifest_path.shown@,
                    source@,
                ),
            ),
            Some(Ok(manifest_len)) => match self.manifest_read {
                None => ProgressView::Need(ImageStep::ReadManifest),
                Some(Err(source)) => ProgressView::Failed(
                    image_fault_from("read the pinned base-image manifest"@, source@),
                ),
                Some(Ok(read)) => if read != manifest_len || read > MAX_MANIFEST_BYTES {
                    ProgressView::Failed(
                        image_fault(
                            "base-image manifest changed while it was read or exceeded its size limit"@,
                        ),
                    )
                } else {
                    match self.manifest {
                        None => ProgressView::Need(ImageStep::ParseManifest),
                        Some(ManifestOutcome::Malformed(source)) => ProgressView::Failed(
                            image_fault_from("parse the base-image manifest"@, source@),
                        ),
                        Some(ManifestOutcome::TrailingData(source)) => ProgressView::Failed(
                            image_fault_from("reject trailing base-image manifest data"@, source@),
                        ),
                        Some(ManifestOutcome::Parsed(manifest)) => match manifest.verdict(
                            config.required_guest_protocol_version,
                        ) {
                            Err(error) => ProgressView::Failed(error),
                            Ok(_) => if !text::same_ignoring_case(pinned_sha256, manifest.sha256@) {
                                ProgressView::Failed(
                                    image_fault(
                                        "the pinned base-image bytes do not match the protected manifest hash"@,
                                    ),
                                )
                            } else {
                                self.probe_progress(
                                    config,
                                    len,
                                    canonical,
                                    pinned_sha256,
                                    &manifest,
                                )
                            },
                        },
                    }
                },
            },
        }
    }

    /// What the host reports of the pinned image.
    pub open spec fn probe_progress(
        &self,
        config: &BaseImageConfig,
        len: u64,
        canonical: &HostPath,
        pinned_sha256: Seq<char>,
        manifest: &BaseImageManifest,
    ) -> ProgressView {
        match self.probe {
            None => ProgressView::Need(ImageStep::Inspect),
            Some(Err(error)) => ProgressView::Failed(error@),
            Some(Ok(probe)) => {
                let sound = probe.sound(
                    manifest.sha256@,
                    pinned_sha256,
                    config.maximum_virtual_size_bytes,
                );
                if sound && canonical.style == PathStyle::Unix && self.reported is None {
                    ProgressView::Need(ImageStep::ResolveReported)
                } else {
                    match probe_verdict(
                        manifest,
                        &probe,
                        self.same_location(&probe, canonical),
                        len,
                        pinned_sha256,
                        config.maximum_virtual_size_bytes,
                    ) {
                        Err(error) => ProgressView::Failed(error),
                        Ok(_) => ProgressView::Valid,
                    }
                }
            },
        }
    }

    /// Whether the reported path names the pinned image: as texts on Windows, after it was resolved
    /// elsewhere.
    pub open spec fn same_location(&self, probe: &BaseImageProbe, canonical: &HostPath) -> Result<
        bool,
        Seq<char>,
    > {
        match canonical.style {
            PathStyle::Windows => Ok(
                host_path::same_parts(
                    PathStyle::Windows,
                    probe.path.spec_parts(),
                    canonical.spec_parts(),
                ),
            ),
            PathStyle::Unix => match self.reported {
                Some(Ok(reported)) => Ok(reported.equals(canonical)),
                Some(Err(source)) => Err(source@),
                None => Ok(false),
            },
        }
    }
}

/// Whether two paths are the same by the rules of Windows.
fn same_on_windows(left: &HostPath, right: &HostPath) -> (same: bool)
    ensures
        same == host_path::same_parts(PathStyle::Windows, left.spec_parts(), right.spec_parts()),
{
    let mut folded = left.duplicate();
    folded.style = PathStyle::Windows;
    folded.is_same(right)
}

/// How far the validation of an image has come: failed, in need of one more observation, or done.
pub fn validate(config: &BaseImageConfig, seen: &ImageObservations) -> (progress: ImageProgress)
    ensures
        progress@ == seen.progress(config),
        progress matches ImageProgress::Valid(image) ==> {
            &&& seen.canonical matches Some(Ok(canonical)) && image.path.copies(&canonical)
            &&& seen.manifest == Some(ManifestOutcome::Parsed(image.manifest))
        },
{
    match validate_config(config) {
        Err(error) => {
            return ImageProgress::Failed(error);
        },
        Ok(_) => {},
    }
    match &config.image_path.local_fault {
        Some(source) => {
            return ImageProgress::Failed(
                image_error_from("base image must be on an absolute local path", source.as_str()),
            );
        },
        None => {},
    }
    match &seen.volume {
        None => {
            return ImageProgress::Need(ImageStep::VerifyVolume);
        },
        Some(Err(source)) => {
            return ImageProgress::Failed(
                image_error_from("base image must be on a fixed local volume", source.as_str()),
            );
        },
        Some(Ok(_)) => {},
    }
    if !config.image_path.has_parent() {
        return ImageProgress::Failed(image_error("base image has no parent directory"));
    }
    match &seen.directories {
        None => {
            return ImageProgress::Need(ImageStep::PinDirectories);
        },
        Some(Err(source)) => {
            return ImageProgress::Failed(
                image_error_from("pin the base-image directory tree", source.as_str()),
            );
        },
        Some(Ok(_)) => {},
    }
    match &seen.image_len {
        None => ImageProgress::Need(ImageStep::OpenImage),
        Some(Err(source)) => {
            let message = text::cat2(
                "base image is missing or unsafe; provision it at ",
                config.image_path.shown.as_str(),
            );
            ImageProgress::Failed(image_error_from(message.as_str(), source.as_str()))
        },
        Some(Ok(len)) => validate_image(config, seen, *len),
    }
}

fn validate_image(config: &BaseImageConfig, seen: &ImageObservations, len: u64) -> (progress:
    ImageProgress)
    ensures
        progress@ == seen.image_progress(config, len),
        progress matches ImageProgress::Valid(image) ==> {
            &&& seen.canonical matches Some(Ok(canonical)) && image.path.copies(&canonical)
            &&& seen.manifest == Some(ManifestOutcome::Parsed(image.manifest))
        },
{
    let canonical = match &seen.canonical {
        None => {
            return ImageProgress::Need(ImageStep::ResolvePath);
        },
        Some(Err(source)) => {
            return ImageProgress::Failed(
                image_error_from("resolve the pinned base-image path", source.as_str()),
            );
        },
        Some(Ok(canonical)) => canonical,
    };
    match &seen.read_only {
        None => {
            return ImageProgress::Need(ImageStep::ReadAttributes);
        },
        Some(Err(source)) => {
            return ImageProgress::Failed(
                image_error_from(
                    "base image must be marked read-only before it can be used as a parent",
                    source.as_str(),
                ),
            );
        },
        Some(Ok(read_only)) => match require_read_only_parent(config.image_path.style, *read_only) {
            Err(source) => {
                return ImageProgress::Failed(
                    image_error_from(
                        "base image must be marked read-only before it can be used as a parent",
                        source.as_str(),
                    ),
                );
            },
            Ok(_) => {},
        },
    }
    match &seen.digest {
        None => ImageProgress::Need(ImageStep::HashImage),
        Some(Err(source)) => ImageProgress::Failed(
            image_error_from("hash the pinned base-image bytes", source.as_str()),
        ),
        Some(Ok(digest)) => if digest.copied != len {
            ImageProgress::Failed(
                image_error_from(
                    "hash the pinned base-image bytes",
                    "base image changed while it was hashed",
                ),
            )
        } else {
            validate_pinned(config, seen, len, canonical, digest.sha256.as_str())
        },
    }
}

fn validate_pinned(
    config: &BaseImageConfig,
    seen: &ImageObservations,
    len: u64,
    canonical: &HostPath,
    pinned_sha256: &str,
) -> (progress: ImageProgress)
    ensures
        progress@ == seen.manifest_progress(config, len, canonical, pinned_sha256@),
        progress matches ImageProgress::Valid(image) ==> {
            &&& image.path.copies(canonical)
            &&& seen.manifest == Some(ManifestOutcome::Parsed(image.manifest))
        },
{
    let manifest_len: u64 = match &seen.manifest_len {
        None => {
            return ImageProgress::Need(ImageStep::OpenManifest);
        },
        Some(Err(source)) => {
            let message = text::cat2(
                "base-image manifest is missing; provision it at ",
                config.manifest_path.shown.as_str(),
            );
            return ImageProgress::Failed(image_error_from(message.as_str(), source.as_str()));
        },
        Some(Ok(manifest_len)) => *manifest_len,
    };
    match &seen.manifest_read {
        None => {
            return ImageProgress::Need(ImageStep::ReadManifest);
        },
        Some(Err(source)) => {
            return ImageProgress::Failed(
                image_error_from("read the pinned base-image manifest", source.as_str()),
            );
        },
        Some(Ok(read)) => {
            if *read != manifest_len || *read > MAX_MANIFEST_BYTES {
                return ImageProgress::Failed(
                    image_error(
                        "base-image manifest changed while it was read or exceeded its size limit",
                    ),
                );
            }
        },
    }
    let manifest = match &seen.manifest {
        None => {
            return ImageProgress::Need(ImageStep::ParseManifest);
        },
        Some(ManifestOutcome::Malformed(source)) => {
            return ImageProgress::Failed(
                image_error_from("parse the base-image manifest", source.as_str()),
            );
        },
        Some(ManifestOutcome::TrailingData(source)) => {
            return ImageProgress::Failed(
                image_error_from("reject trailing base-image manifest data", source.as_str()),
            );
        },
        Some(ManifestOutcome::Parsed(manifest)) => manifest,
    };
    match validate_manifest(manifest, config.required_guest_protocol_version) {
        Err(error) => {
            return ImageProgress::Failed(error);
        },
        Ok(_) => {},
    }
    if !text::eq_ignoring_case(pinned_sha256, manifest.sha256.as_str()) {
        return ImageProgress::Failed(
            image_error("the pinned base-image bytes do not match the protected manifest hash"),
        );
    }
    let probe = match &seen.probe {
        None => {
            return ImageProgress::Need(ImageStep::Inspect);
        },
        Some(Err(error)) => {
            return ImageProgress::Failed(error.duplicate());
        },
        Some(Ok(probe)) => probe,
    };
    let sound = is_sound(
        probe,
        manifest.sha256.as_str(),
        pinned_sha256,
        config.maximum_virtual_size_bytes,
    );
    let same_location: Result<bool, String> = match canonical.style {
        PathStyle::Windows => Ok(same_on_windows(&probe.path, canonical)),
        PathStyle::Unix => match &seen.reported {
            Some(Ok(reported)) => Ok(reported.is_equal(canonical)),
            Some(Err(source)) => Err(source.clone()),
            None => {
                if sound {
                    return ImageProgress::Need(ImageStep::ResolveReported);
                }
                Ok(false)
            },
        },
    };
    match validate_probe(
        manifest,
        probe,
        &same_location,
        len,
        pinned_sha256,
        config.maximum_virtual_size_bytes,
    ) {
        Err(error) => ImageProgress::Failed(error),
        Ok(_) => ImageProgress::Valid(
            ValidatedBaseImage { path: canonical.duplicate(), manifest: manifest.duplicate() },
        ),
    }
}

// ---------------------------------------------------------------------------------------------
// Laws
// ---------------------------------------------------------------------------------------------

/// A valid image is marked read-only, was held and hashed whole, and its digest is the one that
/// its valid manifest records and that the host reports.
pub proof fn valid_images_are_bound_to_their_manifest(
    config: &BaseImageConfig,
    seen: &ImageObservations,
)
    requires
        seen.progress(config) is Valid,
    ensures
        config.verdict() is Ok,
        config.image_path.local_fault is None,
        seen.read_only == Some(Ok::<bool, String>(true)),
        ({
            &&& seen.image_len matches Some(Ok(len))
            &&& seen.digest matches Some(Ok(digest))
            &&& seen.manifest matches Some(ManifestOutcome::Parsed(manifest))
            &&& seen.probe matches Some(Ok(probe))
            &&& len > 0
            &&& digest.copied == len
            &&& manifest.verdict(config.required_guest_protocol_version) is Ok
            &&& text::same_ignoring_case(digest.sha256@, manifest.sha256@)
            &&& text::same_ignoring_case(probe.sha256@, digest.sha256@)
            &&& !probe.attached
            &&& probe.parent_path is None
            &&& probe.size_bytes <= config.maximum_virtual_size_bytes
        }),
{
}

/// The host is asked to inspect the image only while its directories and the image are held and
/// its digest was found to be the manifest's.
pub proof fn inspection_comes_after_pinning(config: &BaseImageConfig, seen: &ImageObservations)
    requires
        seen.progress(config) == ProgressView::Need(ImageStep::Inspect),
    ensures
        seen.volume matches Some(Ok(_)),
        seen.directories matches Some(Ok(_)),
        seen.image_len matches Some(Ok(_)),
        seen.canonical matches Some(Ok(_)),
        seen.read_only == Some(Ok::<bool, String>(true)),
        ({
            &&& seen.digest matches Some(Ok(digest))
            &&& seen.manifest matches Some(ManifestOutcome::Parsed(manifest))
            &&& text::same_ignoring_case(digest.sha256@, manifest.sha256@)
        }),
{
}

/// An image is configured exactly where its limits are set and both files are named absolutely, the
/// image as a VHDX.
pub proof fn usable_image_configurations(config: &BaseImageConfig)
    ensures
        config.verdict() is Ok <==> {
            &&& config.maximum_image_bytes >= 1
            &&& config.maximum_virtual_size_bytes >= 1
            &&& config.required_guest_protocol_version >= 1
            &&& config.image_path.absolute
            &&& config.manifest_path.absolute
            &&& host_path::has_extension_spec(config.image_path.spec_parts(), "vhdx"@)
        },
        config.verdict() matches Err(fault) ==> fault.stage == "hyperv_base_image"@,
{
}

/// A manifest is accepted exactly where it is of the first schema, speaks the required protocol, is
/// for a machine of the second generation that boots by the Windows certificates, and names a
/// version, a digest and the time of its making.
pub proof fn accepted_image_manifests(manifest: &BaseImageManifest, required: u32)
    ensures
        manifest.verdict(required) is Ok <==> {
            &&& manifest.schema_version == 1
            &&& manifest.guest_protocol_version == required
            &&& manifest.vm_generation == 2
            &&& !text::blank(manifest.image_version@)
            &&& manifest.secure_boot_template@ == "MicrosoftWindows"@
            &&& guest_protocol::valid_sha256(manifest.sha256@)
            &&& manifest.built_at_unix_secs != 0
        },
{
}

/// An inspected image is the pinned one exactly where it is a valid VHDX of fixed or dynamic size,
/// unattached and without a parent, not larger than allowed, with the digest of the manifest and of
/// the bytes that were pinned, at the pinned place and not empty.
pub proof fn inspected_images_are_the_pinned_ones(
    manifest: &BaseImageManifest,
    probe: &BaseImageProbe,
    same_location: Result<bool, Seq<char>>,
    file_size: u64,
    pinned_sha256: Seq<char>,
    maximum_virtual_size_bytes: u64,
)
    ensures
        probe_verdict(
            manifest,
            probe,
            same_location,
            file_size,
            pinned_sha256,
            maximum_virtual_size_bytes,
        ) is Ok <==> {
            &&& probe.valid
            &&& text::same_ignoring_case(probe.vhd_format@, "vhdx"@)
            &&& text::same_ignoring_case(probe.vhd_type@, "fixed"@) || text::same_ignoring_case(
                probe.vhd_type@,
                "dynamic"@,
            )
            &&& !probe.attached
            &&& probe.parent_path is None
            &&& 1 <= probe.size_bytes <= maximum_virtual_size_bytes
            &&& probe.logical_sector_size >= 1
            &&& text::same_ignoring_case(probe.sha256@, manifest.sha256@)
            &&& text::same_ignoring_case(probe.sha256@, pinned_sha256)
            &&& same_location == Ok::<bool, Seq<char>>(true)
            &&& file_size >= 1
        },
{
    reveal_strlit("fixed");
    reveal_strlit("dynamic");
    text::words_are_recognised_in_any_case(probe.vhd_type@, "fixed"@);
    text::words_are_recognised_in_any_case(probe.vhd_type@, "dynamic"@);
}

} // verus!
