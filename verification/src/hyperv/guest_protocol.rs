//! Versioned, bounded messages exchanged between the Hyper-V host and the guest agent, and the
//! state machine that their status records drive.

use vstd::prelude::*;
use vstd::string::*;

use crate::artifact;
use crate::backend::list_contains;
use crate::clock;
use crate::host_path;
use crate::host_path::HostPath;
use crate::net;
use crate::net::{IpAddr, Ipv4Addr};
use crate::text;

verus! {

pub const PROTOCOL_VERSION: u32 = 2;

pub const MAX_REQUEST_BYTES: u64 = 1_048_576;

pub const MAX_STATUS_BYTES: u64 = 65_536;

pub const MAX_RESULT_BYTES: u64 = 33_554_432;

pub const MAX_RUN_ID_BYTES: usize = 64;

pub const MAX_WIRE_PATH_BYTES: usize = 1024;

pub const MAX_ARGUMENTS: usize = 128;

pub const MAX_ARGUMENT_BYTES: usize = 32_768;

pub const MAX_ARGUMENT_TOTAL_BYTES: usize = 131_072;

pub const MAX_ALLOWED_NETWORKS: usize = 128;

pub const MAX_TIMEOUT_SECONDS: u64 = 3600;

pub const MAX_ACTIVE_PROCESSES: u32 = 1024;

pub const MAX_GUEST_MEMORY_BYTES: u64 = 68_719_476_736;

pub const MAX_WARNINGS: usize = 256;

pub const MAX_WARNING_BYTES: usize = 4096;

pub const MAX_ARTIFACTS: usize = 4096;

pub const MAX_ARTIFACT_BYTES: u64 = 134_217_728;

pub const MAX_TOTAL_ARTIFACT_BYTES: u64 = 536_870_912;

pub type ProtocolResult<T> = Result<T, ProtocolError>;

// ---------------------------------------------------------------------------------------------
// Errors
// ---------------------------------------------------------------------------------------------

#[derive(Clone, Debug, PartialEq, Eq)]
pub struct ProtocolError {
    pub code: &'static str,
    pub message: String,
}

/// What a protocol error says.
pub struct ProtocolFault {
    pub code: Seq<char>,
    pub message: Seq<char>,
}

impl View for ProtocolError {
    type V = ProtocolFault;

    open spec fn view(&self) -> ProtocolFault {
        ProtocolFault { code: self.code@, message: self.message@ }
    }
}

pub open spec fn refused(code: Seq<char>, message: Seq<char>) -> Result<(), ProtocolFault> {
    Err(ProtocolFault { code, message })
}

/// A result with what its error says in place of the error.
pub open spec fn verdict_of<T>(result: ProtocolResult<T>) -> Result<T, ProtocolFault> {
    match result {
        Ok(value) => Ok(value),
        Err(error) => Err(error@),
    }
}

/// The first verdict that is not `Ok`.
pub open spec fn both(
    first: Result<(), ProtocolFault>,
    second: Result<(), ProtocolFault>,
) -> Result<(), ProtocolFault> {
    match first {
        Ok(_) => second,
        Err(error) => Err(error),
    }
}

/// The line that shows a protocol error.
pub open spec fn protocol_fault_text(fault: ProtocolFault) -> Seq<char> {
    fault.code + ": "@ + fault.message
}

impl ProtocolError {
    pub fn new(code: &'static str, message: &str) -> (error: ProtocolError)
        ensures
            error@ == (ProtocolFault { code: code@, message: message@ }),
    {
        ProtocolError { code, message: message.to_owned() }
    }

    pub fn to_string(&self) -> (shown: String)
        ensures
            shown@ == protocol_fault_text(self@),
    {
        text::cat3(self.code, ": ", self.message.as_str())
    }
}

// ---------------------------------------------------------------------------------------------
// Fields
// ---------------------------------------------------------------------------------------------

pub open spec fn version_verdict(version: u32) -> Result<(), ProtocolFault> {
    if version == PROTOCOL_VERSION {
        Ok(())
    } else {
        refused(
            "unsupported_protocol"@,
            "expected protocol "@ + text::decimal(PROTOCOL_VERSION as nat) + ", received "@
                + text::decimal(version as nat),
        )
    }
}

pub fn validate_protocol_version(version: u32) -> (verdict: ProtocolResult<()>)
    ensures
        verdict_of(verdict) == version_verdict(version),
{
    if version == PROTOCOL_VERSION {
        Ok(())
    } else {
        let expected = text::decimal_text(PROTOCOL_VERSION as u64);
        let received = text::decimal_text(version as u64);
        let message = text::cat4(
            "expected protocol ",
            expected.as_str(),
            ", received ",
            received.as_str(),
        );
        Err(ProtocolError::new("unsupported_protocol", message.as_str()))
    }
}

pub open spec fn run_id_char(c: char) -> bool {
    text::is_ascii_alphanumeric(c) || c == '-' || c == '_'
}

/// Eight to sixty-four ASCII letters, digits, hyphens or underscores.
pub open spec fn valid_run_id(run_id: Seq<char>) -> bool {
    &&& 8 <= run_id.len() <= MAX_RUN_ID_BYTES
    &&& forall|i: int| 0 <= i < run_id.len() ==> run_id_char(#[trigger] run_id[i])
}

pub open spec fn run_id_verdict(run_id: Seq<char>) -> Result<(), ProtocolFault> {
    if valid_run_id(run_id) {
        Ok(())
    } else {
        refused(
            "invalid_run_id"@,
            "run id must be 8-64 ASCII letters, digits, hyphens, or underscores"@,
        )
    }
}

pub fn is_run_id(run_id: &str) -> (yes: bool)
    ensures
        yes == valid_run_id(run_id@),
{
    let chars = text::chars_of(run_id);
    if chars.len() < 8 || chars.len() > MAX_RUN_ID_BYTES {
        return false;
    }
    let mut i: usize = 0;
    while i < chars.len()
        invariant
            i <= chars@.len(),
            chars@ == run_id@,
            forall|j: int| 0 <= j < i ==> run_id_char(#[trigger] chars@[j]),
        decreases chars@.len() - i,
    {
        let c = chars[i];
        if !(text::char_is_ascii_alphanumeric(c) || c == '-' || c == '_') {
            proof {
                assert(!run_id_char(run_id@[i as int]));
            }
            return false;
        }
        i = i + 1;
    }
    true
}

pub fn validate_run_id(run_id: &str) -> (verdict: ProtocolResult<()>)
    ensures
        verdict_of(verdict) == run_id_verdict(run_id@),
{
    if is_run_id(run_id) {
        Ok(())
    } else {
        Err(
            ProtocolError::new(
                "invalid_run_id",
                "run id must be 8-64 ASCII letters, digits, hyphens, or underscores",
            ),
        )
    }
}

/// Sixty-four hexadecimal digits.
pub open spec fn valid_sha256(digest: Seq<char>) -> bool {
    digest.len() == 64 && text::all_hex(digest)
}

pub open spec fn sha256_verdict(digest: Seq<char>) -> Result<(), ProtocolFault> {
    if valid_sha256(digest) {
        Ok(())
    } else {
        refused(
            "invalid_checksum"@,
            "SHA-256 value must contain exactly 64 hexadecimal characters"@,
        )
    }
}

pub fn validate_sha256(digest: &str) -> (verdict: ProtocolResult<()>)
    ensures
        verdict_of(verdict) == sha256_verdict(digest@),
{
    if text::chars_of(digest).len() == 64 && text::is_all_hex(digest) {
        Ok(())
    } else {
        Err(
            ProtocolError::new(
                "invalid_checksum",
                "SHA-256 value must contain exactly 64 hexadecimal characters",
            ),
        )
    }
}

/// Not empty, free of NUL, and at most `maximum` bytes long.
pub open spec fn small_field(value: Seq<char>, maximum: nat) -> bool {
    value.len() > 0 && text::byte_len(value) <= maximum && !value.contains('\0')
}

pub open spec fn small_field_verdict(
    name: Seq<char>,
    value: Seq<char>,
    maximum: nat,
) -> Result<(), ProtocolFault> {
    if small_field(value, maximum) {
        Ok(())
    } else {
        refused(
            "invalid_field"@,
            name + " is empty, contains NUL, or exceeds "@ + text::decimal(maximum) + " bytes"@,
        )
    }
}

pub fn validate_small_field(name: &str, value: &str, maximum: usize) -> (verdict: ProtocolResult<()>)
    ensures
        verdict_of(verdict) == small_field_verdict(name@, value@, maximum as nat),
{
    if value.is_empty() || text::utf8_len(value) > maximum || text::contains_char(value, '\0') {
        let shown = text::decimal_text(maximum as u64);
        let message = text::cat4(
            name,
            " is empty, contains NUL, or exceeds ",
            shown.as_str(),
            " bytes",
        );
        Err(ProtocolError::new("invalid_field", message.as_str()))
    } else {
        Ok(())
    }
}

/// At most 256 warnings, each at most 4096 bytes long and free of NUL.
pub open spec fn small_warnings(warnings: Seq<String>) -> bool {
    &&& warnings.len() <= MAX_WARNINGS
    &&& forall|i: int|
        0 <= i < warnings.len() ==> text::byte_len((#[trigger] warnings[i])@) <= MAX_WARNING_BYTES
            && !warnings[i]@.contains('\0')
}

pub open spec fn warnings_verdict(warnings: Seq<String>) -> Result<(), ProtocolFault> {
    if small_warnings(warnings) {
        Ok(())
    } else {
        refused("invalid_warnings"@, "warning count or size exceeds the protocol limit"@)
    }
}

pub fn validate_warnings(warnings: &Vec<String>) -> (verdict: ProtocolResult<()>)
    ensures
        verdict_of(verdict) == warnings_verdict(warnings@),
{
    let mut small = warnings.len() <= MAX_WARNINGS;
    let mut i: usize = 0;
    while i < warnings.len() && small
        invariant
            i <= warnings@.len(),
            small ==> warnings@.len() <= MAX_WARNINGS,
            small ==> forall|j: int|
                0 <= j < i ==> text::byte_len((#[trigger] warnings@[j])@) <= MAX_WARNING_BYTES
                    && !warnings@[j]@.contains('\0'),
            !small ==> !small_warnings(warnings@),
        decreases warnings@.len() - i,
    {
        if text::utf8_len(warnings[i].as_str()) > MAX_WARNING_BYTES || text::contains_char(
            warnings[i].as_str(),
            '\0',
        ) {
            small = false;
        }
        i = i + 1;
    }
    if small {
        Ok(())
    } else {
        Err(
            ProtocolError::new(
                "invalid_warnings",
                "warning count or size exceeds the protocol limit",
            ),
        )
    }
}

// ---------------------------------------------------------------------------------------------
// Wire paths
// ---------------------------------------------------------------------------------------------

pub fn is_reserved_windows_component(component: &str) -> (yes: bool)
    ensures
        yes == artifact::reserved_name(component@),
{
    artifact::is_reserved_name(component)
}

/// A path as a whole: not empty, bounded, relative, slash-separated and free of what Windows
/// reads as a separator, a drive or a stream.
pub open spec fn plain_wire_text(value: Seq<char>) -> bool {
    &&& value.len() > 0
    &&& text::byte_len(value) <= MAX_WIRE_PATH_BYTES
    &&& value[0] != '/'
    &&& value.last() != '/'
    &&& !value.contains('\\')
    &&& !value.contains('\0')
    &&& !value.contains(':')
    &&& !text::has_control(value)
}

/// A name between two slashes that no host reads as anything but a name.
pub open spec fn safe_component(component: Seq<char>) -> bool {
    &&& component.len() > 0
    &&& component != "."@
    &&& component != ".."@
    &&& component.last() != '.'
    &&& component.last() != ' '
    &&& !artifact::reserved_name(component)
}

/// The verdict on the components from `from` on: the first unsafe one is named.
pub open spec fn components_verdict(components: Seq<Seq<char>>, from: int) -> Result<(), ProtocolFault>
    decreases components.len() - from,
{
    if from >= components.len() {
        Ok(())
    } else if !safe_component(components[from]) {
        refused(
            "invalid_relative_path"@,
            "path contains an unsafe component: "@ + text::debug_form(components[from]),
        )
    } else {
        components_verdict(components, from + 1)
    }
}

pub open spec fn wire_path_verdict(value: Seq<char>) -> Result<(), ProtocolFault> {
    if !plain_wire_text(value) {
        refused(
            "invalid_relative_path"@,
            "path is empty, absolute, non-canonical, or contains a forbidden character"@,
        )
    } else {
        components_verdict(text::split(value, '/'), 0)
    }
}

fn is_safe_component(component: &str) -> (yes: bool)
    ensures
        yes == safe_component(component@),
{
    let chars = text::chars_of(component);
    if chars.len() == 0 || text::same_text(component, ".") || text::same_text(component, "..") {
        return false;
    }
    let last = chars[chars.len() - 1];
    last != '.' && last != ' ' && !is_reserved_windows_component(component)
}

pub fn validate_relative_wire_path(value: &str) -> (verdict: ProtocolResult<()>)
    ensures
        verdict_of(verdict) == wire_path_verdict(value@),
{
    let chars = text::chars_of(value);
    if chars.len() == 0 || text::utf8_len(value) > MAX_WIRE_PATH_BYTES || chars[0] == '/'
        || chars[chars.len() - 1] == '/' || text::contains_char(value, '\\') || text::contains_char(
        value,
        '\0',
    ) || text::contains_char(value, ':') || text::contains_control(value) {
        return Err(
            ProtocolError::new(
                "invalid_relative_path",
                "path is empty, absolute, non-canonical, or contains a forbidden character",
            ),
        );
    }
    let components = text::split_on(value, '/');
    let mut i: usize = 0;
    while i < components.len()
        invariant
            i <= components@.len(),
            text::views(components@) == text::split(value@, '/'),
            plain_wire_text(value@),
            wire_path_verdict(value@) == components_verdict(text::views(components@), i as int),
        decreases components@.len() - i,
    {
        proof {
            assert(text::views(components@)[i as int] == components@[i as int]@);
        }
        if !is_safe_component(components[i].as_str()) {
            let shown = text::debug_text(components[i].as_str());
            let message = text::cat2("path contains an unsafe component: ", shown.as_str());
            return Err(ProtocolError::new("invalid_relative_path", message.as_str()));
        }
        i = i + 1;
    }
    Ok(())
}

/// The text of a path with further names behind it.
pub open spec fn native_text(
    style: host_path::PathStyle,
    shown: Seq<char>,
    names: Seq<Seq<char>>,
) -> Seq<char>
    decreases names.len(),
{
    if names.len() == 0 {
        shown
    } else {
        host_path::joined_text(style, native_text(style, shown, names.drop_last()), names.last())
    }
}

/// `path` is `root` with `names` behind it, one after another.
pub open spec fn descends(path: &HostPath, root: &HostPath, names: Seq<Seq<char>>) -> bool {
    &&& path.style == root.style
    &&& path.shown@ == native_text(root.style, root.shown@, names)
    &&& path.unicode == root.unicode
    &&& path.absolute == root.absolute
    &&& path.local_fault == root.local_fault
    &&& path.spec_parts() == root.spec_parts() + names.map_values(
        |name: Seq<char>| host_path::PartView::Normal(name),
    )
}

/// The place below `root` that a wire path names.
pub fn wire_path_to_native(root: &HostPath, value: &str) -> (path: ProtocolResult<HostPath>)
    ensures
        match path {
            Ok(place) => wire_path_verdict(value@) is Ok && descends(
                &place,
                root,
                text::split(value@, '/'),
            ),
            Err(error) => wire_path_verdict(value@) == Err::<(), ProtocolFault>(error@),
        },
{
    match validate_relative_wire_path(value) {
        Err(error) => {
            return Err(error);
        },
        Ok(_) => {},
    }
    let components = text::split_on(value, '/');
    let ghost names = text::views(components@);
    let mut output = root.duplicate();
    let mut i: usize = 0;
    proof {
        assert(output.spec_parts() =~= root.spec_parts() + names.take(0).map_values(
            |name: Seq<char>| host_path::PartView::Normal(name),
        ));
    }
    while i < components.len()
        invariant
            i <= components@.len(),
            names == text::views(components@),
            descends(&output, root, names.take(i as int)),
        decreases components@.len() - i,
    {
        let next = output.join(components[i].as_str());
        proof {
            assert(names.take(i + 1).drop_last() =~= names.take(i as int));
            assert(names.take(i + 1).last() == components@[i as int]@);
            assert(next.spec_parts() =~= root.spec_parts() + names.take(i + 1).map_values(
                |name: Seq<char>| host_path::PartView::Normal(name),
            ));
        }
        output = next;
        i = i + 1;
    }
    proof {
        assert(names.take(i as int) =~= names);
    }
    Ok(output)
}

// ---------------------------------------------------------------------------------------------
// Run requests
// ---------------------------------------------------------------------------------------------

#[derive(Clone, Copy, Debug, PartialEq, Eq, Structural)]
pub enum GuestNetworkPolicy {
    DenyAll,
    HostServer,
    AllowList,
    AllowInternet,
    CaptureOnly,
}

#[derive(Clone, Copy, Debug, PartialEq, Eq, Structural)]
pub enum GuestMitigationProfile {
    Compatible,
    Strict,
    Maximum,
}

#[derive(Clone, Copy, Debug, PartialEq, Eq, Structural)]
pub enum GuestExecutionProfile {
    Restricted,
    Normal,
    Admin,
}

impl Default for GuestExecutionProfile {
    fn default() -> (profile: GuestExecutionProfile)
        ensures
            profile == GuestExecutionProfile::Restricted,
    {
        GuestExecutionProfile::Restricted
    }
}

#[derive(Clone, Copy, Debug, PartialEq, Eq, Structural)]
pub struct GuestResourceLimits {
    pub active_process_limit: u32,
    pub process_memory_bytes: u64,
    pub job_memory_bytes: u64,
    pub cpu_rate_percent: u32,
}

impl Default for GuestResourceLimits {
    fn default() -> (limits: GuestResourceLimits)
        ensures
            limits == (GuestResourceLimits {
                active_process_limit: 32,
                process_memory_bytes: 268_435_456,
                job_memory_bytes: 536_870_912,
                cpu_rate_percent: 50,
            }),
            limits.verdict() is Ok,
    {
        GuestResourceLimits {
            active_process_limit: 32,
            process_memory_bytes: 268_435_456,
            job_memory_bytes: 536_870_912,
            cpu_rate_percent: 50,
        }
    }
}

impl GuestResourceLimits {
    pub open spec fn verdict(&self) -> Result<(), ProtocolFault> {
        if !(1 <= self.active_process_limit <= MAX_ACTIVE_PROCESSES) {
            refused(
                "invalid_resource_limits"@,
                "active process limit must be between 1 and 1024"@,
            )
        } else if !(1 <= self.process_memory_bytes <= self.job_memory_bytes
            <= MAX_GUEST_MEMORY_BYTES) {
            refused(
                "invalid_resource_limits"@,
                "guest memory limits are zero, out of range, or internally inconsistent"@,
            )
        } else if !(1 <= self.cpu_rate_percent <= 100) {
            refused("invalid_resource_limits"@, "CPU rate must be between 1 and 100 percent"@)
        } else {
            Ok(())
        }
    }

    pub fn validate(&self) -> (verdict: ProtocolResult<()>)
        ensures
            verdict_of(verdict) == self.verdict(),
    {
        if self.active_process_limit == 0 || self.active_process_limit > MAX_ACTIVE_PROCESSES {
            return Err(
                ProtocolError::new(
                    "invalid_resource_limits",
                    "active process limit must be between 1 and 1024",
                ),
            );
        }
        if self.process_memory_bytes == 0 || self.process_memory_bytes > MAX_GUEST_MEMORY_BYTES
            || self.job_memory_bytes == 0 || self.job_memory_bytes > MAX_GUEST_MEMORY_BYTES
            || self.job_memory_bytes < self.process_memory_bytes {
            return Err(
                ProtocolError::new(
                    "invalid_resource_limits",
                    "guest memory limits are zero, out of range, or internally inconsistent",
                ),
            );
        }
        if self.cpu_rate_percent < 1 || self.cpu_rate_percent > 100 {
            return Err(
                ProtocolError::new(
                    "invalid_resource_limits",
                    "CPU rate must be between 1 and 100 percent",
                ),
            );
        }
        Ok(())
    }
}

#[derive(Clone, Copy, Debug, PartialEq, Eq, Structural)]
pub struct CaptureOptions {
    pub stdout: bool,
    pub stderr: bool,
    pub processes: bool,
    pub network: bool,
    pub filesystem: bool,
    pub registry: bool,
}

impl Default for CaptureOptions {
    fn default() -> (options: CaptureOptions)
        ensures
            options == (CaptureOptions {
                stdout: true,
                stderr: true,
                processes: true,
                network: true,
                filesystem: true,
                registry: true,
            }),
    {
        CaptureOptions {
            stdout: true,
            stderr: true,
            processes: true,
            network: true,
            filesystem: true,
            registry: true,
        }
    }
}

#[derive(Clone, Debug, PartialEq, Eq)]
pub struct GuestRunRequest {
    pub protocol_version: u32,
    pub run_id: String,
    /// Slash-separated path relative to the run-data root, normally `input/target.exe`.
    pub target: String,
    pub target_sha256: Option<String>,
    pub arguments: Vec<String>,
    pub timeout_seconds: u64,
    pub network_policy: GuestNetworkPolicy,
    pub allowed_networks: Vec<String>,
    pub guest_ipv4: Option<Ipv4Addr>,
    pub prefix_length: Option<u8>,
    pub gateway_ipv4: Option<Ipv4Addr>,
    pub dns_servers: Vec<Ipv4Addr>,
    pub host_service_ipv4: Option<Ipv4Addr>,
    pub host_service_port: Option<u16>,
    pub mitigation_profile: GuestMitigationProfile,
    pub execution_profile: GuestExecutionProfile,
    pub resource_limits: GuestResourceLimits,
    pub capture: CaptureOptions,
    /// The agent only requests guest shutdown when this flag was explicitly set by the host.
    pub shutdown_when_complete: bool,
}

/// An address that one guest interface can have: not unspecified, loopback, link-local, multicast
/// or the limited broadcast address.
pub open spec fn guest_unicast(bits: u32) -> bool {
    &&& bits != 0
    &&& !net::loopback(bits)
    &&& !net::link_local(bits)
    &&& !net::multicast(bits)
    &&& bits != u32::MAX
}

pub fn valid_guest_unicast(address: Ipv4Addr) -> (yes: bool)
    ensures
        yes == guest_unicast(address.bits),
{
    !address.is_unspecified() && !address.is_loopback() && !address.is_link_local()
        && !address.is_multicast() && !address.is_broadcast()
}

/// The bytes of all arguments together.
pub open spec fn argument_bytes(arguments: Seq<String>) -> nat
    decreases arguments.len(),
{
    if arguments.len() == 0 {
        0
    } else {
        argument_bytes(arguments.drop_last()) + text::byte_len(arguments.last()@)
    }
}

pub open spec fn bad_argument(argument: Seq<char>) -> bool {
    argument.contains('\0') || text::byte_len(argument) > MAX_ARGUMENT_BYTES
}

pub open spec fn arguments_verdict(arguments: Seq<String>) -> Result<(), ProtocolFault> {
    if arguments.len() > MAX_ARGUMENTS {
        refused("invalid_arguments"@, "request contains more than 128 arguments"@)
    } else if exists|i: int| 0 <= i < arguments.len() && bad_argument(#[trigger] arguments[i]@) {
        refused(
            "invalid_arguments"@,
            "an argument contains NUL or exceeds the per-argument byte limit"@,
        )
    } else if argument_bytes(arguments) > MAX_ARGUMENT_TOTAL_BYTES {
        refused("invalid_arguments"@, "argument bytes exceed 131072"@)
    } else {
        Ok(())
    }
}

fn validate_arguments(arguments: &Vec<String>) -> (verdict: ProtocolResult<()>)
    ensures
        verdict_of(verdict) == arguments_verdict(arguments@),
{
    if arguments.len() > MAX_ARGUMENTS {
        return Err(
            ProtocolError::new("invalid_arguments", "request contains more than 128 arguments"),
        );
    }
    let mut total: usize = 0;
    let mut i: usize = 0;
    while i < arguments.len()
        invariant
            i <= arguments@.len() <= MAX_ARGUMENTS,
            total == argument_bytes(arguments@.take(i as int)),
            total <= i * MAX_ARGUMENT_BYTES,
            forall|j: int| 0 <= j < i ==> !bad_argument(#[trigger] arguments@[j]@),
        decreases arguments@.len() - i,
    {
        let argument = arguments[i].as_str();
        let len: usize = text::utf8_len(argument);
        if text::contains_char(argument, '\0') || len > MAX_ARGUMENT_BYTES {
            proof {
                assert(bad_argument(arguments@[i as int]@));
            }
            return Err(
                ProtocolError::new(
                    "invalid_arguments",
                    "an argument contains NUL or exceeds the per-argument byte limit",
                ),
            );
        }
        proof {
            assert(arguments@.take(i + 1).drop_last() =~= arguments@.take(i as int));
        }
        total = total + len;
        i = i + 1;
    }
    proof {
        assert(arguments@.take(i as int) =~= arguments@);
    }
    if total > MAX_ARGUMENT_TOTAL_BYTES {
        return Err(ProtocolError::new("invalid_arguments", "argument bytes exceed 131072"));
    }
    Ok(())
}

/// The verdict on one allow-list entry: an address, or an address, a slash and a prefix length.
pub open spec fn ip_network_verdict(value: Seq<char>) -> Result<(), ProtocolFault> {
    let slash = text::first_index(value, '/');
    let address = value.take(slash);
    let maximum: nat = if net::ipv4_value(address) is Some {
        32
    } else {
        128
    };
    if value.len() == 0 || text::byte_len(value) > 128 {
        refused("invalid_network_policy"@, "network entry is empty or too long"@)
    } else if !net::is_ip_text(address) {
        refused("invalid_network_policy"@, "invalid IP address or CIDR: "@ + value)
    } else if slash == value.len() {
        Ok(())
    } else {
        match net::u8_value(value.skip(slash + 1)) {
            None => refused("invalid_network_policy"@, "invalid CIDR prefix: "@ + value),
            Some(prefix) => if prefix > maximum {
                refused(
                    "invalid_network_policy"@,
                    "CIDR prefix exceeds /"@ + text::decimal(maximum) + ": "@ + value,
                )
            } else {
                Ok(())
            },
        }
    }
}

pub fn validate_ip_network(value: &str) -> (verdict: ProtocolResult<()>)
    ensures
        verdict_of(verdict) == ip_network_verdict(value@),
{
    if value.is_empty() || text::utf8_len(value) > 128 {
        return Err(
            ProtocolError::new("invalid_network_policy", "network entry is empty or too long"),
        );
    }
    let chars = text::chars_of(value);
    let count: usize = chars.len();
    proof {
        text::lemma_first_index(value@, '/');
    }
    let slash: usize = match text::find_first(&chars, '/') {
        Some(index) => index,
        None => count,
    };
    let address = text::string_of(&chars, 0, slash);
    proof {
        assert(address@ =~= value@.take(slash as int));
    }
    let maximum: u8 = match IpAddr::parse(address.as_str()) {
        Some(IpAddr::V4(_)) => 32,
        Some(IpAddr::V6(_)) => 128,
        None => {
            let message = text::cat2("invalid IP address or CIDR: ", value);
            return Err(ProtocolError::new("invalid_network_policy", message.as_str()));
        },
    };
    if slash < count {
        let numeral = text::string_of(&chars, slash + 1, count);
        proof {
            assert(numeral@ =~= value@.skip(slash + 1));
        }
        match net::parse_u8(numeral.as_str()) {
            None => {
                let message = text::cat2("invalid CIDR prefix: ", value);
                return Err(ProtocolError::new("invalid_network_policy", message.as_str()));
            },
            Some(prefix) => {
                if prefix > maximum {
                    let shown = text::decimal_text(maximum as u64);
                    let message = text::cat4("CIDR prefix exceeds /", shown.as_str(), ": ", value);
                    return Err(ProtocolError::new("invalid_network_policy", message.as_str()));
                }
            },
        }
    }
    Ok(())
}

/// The verdict on the entries from `from` on.
pub open spec fn ip_networks_verdict(networks: Seq<String>, from: int) -> Result<(), ProtocolFault>
    decreases networks.len() - from,
{
    if from >= networks.len() {
        Ok(())
    } else {
        both(ip_network_verdict(networks[from]@), ip_networks_verdict(networks, from + 1))
    }
}

fn validate_ip_networks(networks: &Vec<String>) -> (verdict: ProtocolResult<()>)
    ensures
        verdict_of(verdict) == ip_networks_verdict(networks@, 0),
{
    let mut i: usize = 0;
    while i < networks.len()
        invariant
            i <= networks@.len(),
            ip_networks_verdict(networks@, 0) == ip_networks_verdict(networks@, i as int),
        decreases networks@.len() - i,
    {
        match validate_ip_network(networks[i].as_str()) {
            Err(error) => {
                return Err(error);
            },
            Ok(_) => {},
        }
        i = i + 1;
    }
    Ok(())
}

pub open spec fn network_configuration_fault(message: Seq<char>) -> Result<(), ProtocolFault> {
    refused("invalid_network_configuration"@, message)
}

/// A DNS server that a guest on the internet may use.
pub open spec fn public_resolver(bits: u32) -> bool {
    guest_unicast(bits) && !net::private(bits) && !net::documentation(bits)
}

fn is_public_resolver(address: Ipv4Addr) -> (yes: bool)
    ensures
        yes == public_resolver(address.bits),
{
    valid_guest_unicast(address) && !address.is_private() && !address.is_documentation()
}

fn all_public_resolvers(servers: &Vec<Ipv4Addr>) -> (yes: bool)
    ensures
        yes == (forall|i: int| 0 <= i < servers@.len() ==> public_resolver((#[trigger] servers@[i]).bits)),
{
    let mut i: usize = 0;
    while i < servers.len()
        invariant
            i <= servers@.len(),
            forall|j: int| 0 <= j < i ==> public_resolver((#[trigger] servers@[j]).bits),
        decreases servers@.len() - i,
    {
        if !is_public_resolver(servers[i]) {
            return false;
        }
        i = i + 1;
    }
    true
}

fn all_guest_unicast(servers: &Vec<Ipv4Addr>) -> (yes: bool)
    ensures
        yes == (forall|i: int| 0 <= i < servers@.len() ==> guest_unicast((#[trigger] servers@[i]).bits)),
{
    let mut i: usize = 0;
    while i < servers.len()
        invariant
            i <= servers@.len(),
            forall|j: int| 0 <= j < i ==> guest_unicast((#[trigger] servers@[j]).bits),
        decreases servers@.len() - i,
    {
        if !valid_guest_unicast(servers[i]) {
            return false;
        }
        i = i + 1;
    }
    true
}

/// A neighbour that the guest reaches directly: a unicast address of the same subnet.
pub open spec fn neighbour(other: u32, guest: u32, prefix: u8) -> bool {
    &&& guest_unicast(other)
    &&& other != guest
    &&& net::subnet_start(other, prefix) == net::subnet_start(guest, prefix)
}

fn is_neighbour(other: Ipv4Addr, guest: Ipv4Addr, prefix: u8) -> (yes: bool)
    requires
        prefix <= 32,
    ensures
        yes == neighbour(other.bits, guest.bits, prefix),
{
    valid_guest_unicast(other) && other.bits != guest.bits && net::network_address(other, prefix).bits
        == net::network_address(guest, prefix).bits
}

impl GuestRunRequest {
    /// Some setting of the per-run network interface is present.
    pub open spec fn interface_configured(&self) -> bool {
        ||| self.guest_ipv4 is Some
        ||| self.prefix_length is Some
        ||| self.gateway_ipv4 is Some
        ||| self.dns_servers@.len() > 0
        ||| self.host_service_ipv4 is Some
        ||| self.host_service_port is Some
    }

    /// The interface settings of a guest that reaches one service of the host.
    pub open spec fn host_service_settings(&self, host: u32, guest: u32, prefix: u8) -> bool {
        &&& neighbour(host, guest, prefix)
        &&& self.host_service_port matches Some(port) && port > 0
        &&& self.gateway_ipv4 is None
        &&& self.dns_servers@.len() == 0
    }

    /// The interface settings of a guest that reaches the internet through a gateway.
    pub open spec fn internet_settings(&self, gateway: u32, guest: u32, prefix: u8) -> bool {
        &&& neighbour(gateway, guest, prefix)
        &&& 1 <= self.dns_servers@.len() <= 8
        &&& forall|i: int|
            0 <= i < self.dns_servers@.len() ==> public_resolver((#[trigger] self.dns_servers@[i]).bits)
        &&& self.host_service_ipv4 is None
        &&& self.host_service_port is None
    }

    pub open spec fn network_verdict(&self) -> Result<(), ProtocolFault> {
        if self.network_policy != GuestNetworkPolicy::HostServer && self.network_policy
            != GuestNetworkPolicy::AllowInternet {
            if self.interface_configured() {
                network_configuration_fault(
                    "per-run NIC configuration is valid only for host_server or allow_internet"@,
                )
            } else {
                Ok(())
            }
        } else {
            match (self.guest_ipv4, self.prefix_length) {
                (None, _) => network_configuration_fault(
                    "networked guest request requires guest_ipv4"@,
                ),
                (Some(_), None) => network_configuration_fault(
                    "networked guest request requires prefix_length"@,
                ),
                (Some(guest), Some(prefix)) => if !(1 <= prefix <= 30) || !guest_unicast(guest.bits) {
                    network_configuration_fault("guest address or prefix is unsafe"@)
                } else if guest.bits == net::subnet_start(guest.bits, prefix) || guest.bits
                    == net::subnet_end(guest.bits, prefix) {
                    network_configuration_fault(
                        "guest address is the subnet network or broadcast address"@,
                    )
                } else if self.network_policy == GuestNetworkPolicy::HostServer {
                    match self.host_service_ipv4 {
                        None => network_configuration_fault(
                            "host_server requires host_service_ipv4"@,
                        ),
                        Some(host) => if self.host_service_settings(host.bits, guest.bits, prefix) {
                            Ok(())
                        } else {
                            network_configuration_fault(
                                "host_server endpoint, gateway, or DNS configuration is unsafe"@,
                            )
                        },
                    }
                } else {
                    match self.gateway_ipv4 {
                        None => network_configuration_fault(
                            "allow_internet requires gateway_ipv4"@,
                        ),
                        Some(gateway) => if self.internet_settings(gateway.bits, guest.bits, prefix) {
                            Ok(())
                        } else {
                            network_configuration_fault(
                                "allow_internet gateway, DNS, or host-service configuration is unsafe"@,
                            )
                        },
                    }
                },
            }
        }
    }

    pub open spec fn target_verdict(&self) -> Result<(), ProtocolFault> {
        if !text::begins(self.target@, "input/"@) {
            refused("invalid_target"@, "target must be located below the input directory"@)
        } else {
            match self.target_sha256 {
                None => refused(
                    "invalid_target"@,
                    "target_sha256 is required for every guest execution request"@,
                ),
                Some(digest) => sha256_verdict(digest@),
            }
        }
    }

    pub open spec fn allow_list_verdict(&self) -> Result<(), ProtocolFault> {
        if self.allowed_networks@.len() > MAX_ALLOWED_NETWORKS {
            refused("invalid_network_policy"@, "allow list contains more than 128 entries"@)
        } else if self.network_policy != GuestNetworkPolicy::AllowList && self.allowed_networks@.len()
            > 0 {
            refused(
                "invalid_network_policy"@,
                "allowed_networks is only valid with allow_list policy"@,
            )
        } else if self.network_policy == GuestNetworkPolicy::AllowList && self.allowed_networks@.len()
            == 0 {
            refused(
                "invalid_network_policy"@,
                "allow_list policy requires at least one network"@,
            )
        } else {
            ip_networks_verdict(self.allowed_networks@, 0)
        }
    }

    pub open spec fn timeout_verdict(&self) -> Result<(), ProtocolFault> {
        if 1 <= self.timeout_seconds <= MAX_TIMEOUT_SECONDS {
            Ok(())
        } else {
            refused("invalid_timeout"@, "timeout must be between 1 and 3600 seconds"@)
        }
    }

    pub open spec fn profile_verdict(&self) -> Result<(), ProtocolFault> {
        if self.execution_profile != GuestExecutionProfile::Restricted && self.mitigation_profile
            != GuestMitigationProfile::Compatible {
            refused(
                "invalid_execution_profile"@,
                "normal and admin execution profiles require the compatible mitigation profile"@,
            )
        } else {
            Ok(())
        }
    }

    /// The verdict on the whole request: that of the first check that fails.
    pub open spec fn verdict(&self) -> Result<(), ProtocolFault> {
        both(
            version_verdict(self.protocol_version),
            both(
                run_id_verdict(self.run_id@),
                both(
                    wire_path_verdict(self.target@),
                    both(
                        self.target_verdict(),
                        both(
                            arguments_verdict(self.arguments@),
                            both(
                                self.timeout_verdict(),
                                both(
                                    self.allow_list_verdict(),
                                    both(
                                        self.network_verdict(),
                                        both(self.profile_verdict(), self.resource_limits.verdict()),
                                    ),
                                ),
                            ),
                        ),
                    ),
                ),
            ),
        )
    }

    pub fn validate(&self) -> (verdict: ProtocolResult<()>)
        ensures
            verdict_of(verdict) == self.verdict(),
    {
        match validate_protocol_version(self.protocol_version) {
            Err(error) => {
                return Err(error);
            },
            Ok(_) => {},
        }
        match validate_run_id(self.run_id.as_str()) {
            Err(error) => {
                return Err(error);
            },
            Ok(_) => {},
        }
        match validate_relative_wire_path(self.target.as_str()) {
            Err(error) => {
                return Err(error);
            },
            Ok(_) => {},
        }
        if !text::starts_with(self.target.as_str(), "input/") {
            return Err(
                ProtocolError::new(
                    "invalid_target",
                    "target must be located below the input directory",
                ),
            );
        }
        match &self.target_sha256 {
            None => {
                return Err(
                    ProtocolError::new(
                        "invalid_target",
                        "target_sha256 is required for every guest execution request",
                    ),
                );
            },
            Some(digest) => match validate_sha256(digest.as_str()) {
                Err(error) => {
                    return Err(error);
                },
                Ok(_) => {},
            },
        }
        match validate_arguments(&self.arguments) {
            Err(error) => {
                return Err(error);
            },
            Ok(_) => {},
        }
        if self.timeout_seconds == 0 || self.timeout_seconds > MAX_TIMEOUT_SECONDS {
            return Err(
                ProtocolError::new("invalid_timeout", "timeout must be between 1 and 3600 seconds"),
            );
        }
        if self.allowed_networks.len() > MAX_ALLOWED_NETWORKS {
            return Err(
                ProtocolError::new(
                    "invalid_network_policy",
                    "allow list contains more than 128 entries",
                ),
            );
        }
        if self.network_policy != GuestNetworkPolicy::AllowList && self.allowed_networks.len() > 0 {
            return Err(
                ProtocolError::new(
                    "invalid_network_policy",
                    "allowed_networks is only valid with allow_list policy",
                ),
            );
        }
        if self.network_policy == GuestNetworkPolicy::AllowList && self.allowed_networks.len() == 0 {
            return Err(
                ProtocolError::new(
                    "invalid_network_policy",
                    "allow_list policy requires at least one network",
                ),
            );
        }
        match validate_ip_networks(&self.allowed_networks) {
            Err(error) => {
                return Err(error);
            },
            Ok(_) => {},
        }
        match self.validate_network_configuration() {
            Err(error) => {
                return Err(error);
            },
            Ok(_) => {},
        }
        if self.execution_profile != GuestExecutionProfile::Restricted && self.mitigation_profile
            != GuestMitigationProfile::Compatible {
            return Err(
                ProtocolError::new(
                    "invalid_execution_profile",
                    "normal and admin execution profiles require the compatible mitigation profile",
                ),
            );
        }
        self.resource_limits.validate()
    }

    pub fn validate_network_configuration(&self) -> (verdict: ProtocolResult<()>)
        ensures
            verdict_of(verdict) == self.network_verdict(),
    {
        let configured = self.guest_ipv4.is_some() || self.prefix_length.is_some()
            || self.gateway_ipv4.is_some() || self.dns_servers.len() > 0
            || self.host_service_ipv4.is_some() || self.host_service_port.is_some();
        if self.network_policy != GuestNetworkPolicy::HostServer && self.network_policy
            != GuestNetworkPolicy::AllowInternet {
            if configured {
                return Err(
                    ProtocolError::new(
                        "invalid_network_configuration",
                        "per-run NIC configuration is valid only for host_server or allow_internet",
                    ),
                );
            }
            return Ok(());
        }
        let guest = match self.guest_ipv4 {
            Some(guest) => guest,
            None => {
                return Err(
                    ProtocolError::new(
                        "invalid_network_configuration",
                        "networked guest request requires guest_ipv4",
                    ),
                );
            },
        };
        let prefix: u8 = match self.prefix_length {
            Some(prefix) => prefix,
            None => {
                return Err(
                    ProtocolError::new(
                        "invalid_network_configuration",
                        "networked guest request requires prefix_length",
                    ),
                );
            },
        };
        if prefix < 1 || prefix > 30 || !valid_guest_unicast(guest) {
            return Err(
                ProtocolError::new(
                    "invalid_network_configuration",
                    "guest address or prefix is unsafe",
                ),
            );
        }
        if guest.bits == net::network_address(guest, prefix).bits || guest.bits
            == net::broadcast_address(guest, prefix).bits {
            return Err(
                ProtocolError::new(
                    "invalid_network_configuration",
                    "guest address is the subnet network or broadcast address",
                ),
            );
        }
        if self.network_policy == GuestNetworkPolicy::HostServer {
            let host = match self.host_service_ipv4 {
                Some(host) => host,
                None => {
                    return Err(
                        ProtocolError::new(
                            "invalid_network_configuration",
                            "host_server requires host_service_ipv4",
                        ),
                    );
                },
            };
            let open_port = match self.host_service_port {
                Some(port) => port > 0,
                None => false,
            };
            if !is_neighbour(host, guest, prefix) || !open_port || self.gateway_ipv4.is_some()
                || self.dns_servers.len() > 0 {
                return Err(
                    ProtocolError::new(
                        "invalid_network_configuration",
                        "host_server endpoint, gateway, or DNS configuration is unsafe",
                    ),
                );
            }
        } else {
            let gateway = match self.gateway_ipv4 {
                Some(gateway) => gateway,
                None => {
                    return Err(
                        ProtocolError::new(
                            "invalid_network_configuration",
                            "allow_internet requires gateway_ipv4",
                        ),
                    );
                },
            };
            if !is_neighbour(gateway, guest, prefix) || self.dns_servers.len() == 0
                || self.dns_servers.len() > 8 || !all_public_resolvers(&self.dns_servers)
                || self.host_service_ipv4.is_some() || self.host_service_port.is_some() {
                return Err(
                    ProtocolError::new(
                        "invalid_network_configuration",
                        "allow_internet gateway, DNS, or host-service configuration is unsafe",
                    ),
                );
            }
        }
        Ok(())
    }
}

// ---------------------------------------------------------------------------------------------
// Status records
// ---------------------------------------------------------------------------------------------

#[derive(Clone, Copy, Debug, PartialEq, Eq, Structural, Hash)]
pub enum ProtocolActor {
    Host,
    Guest,
}

#[derive(Clone, Copy, Debug, PartialEq, Eq, Structural, Hash)]
pub enum ProtocolState {
    HostReady,
    RequestWritten,
    StartAllowed,
    CancelRequested,
    GuestReady,
    Running,
    Completed,
    Failed,
    ShutdownReady,
}

impl ProtocolState {
    pub open spec fn spec_actor(self) -> ProtocolActor {
        match self {
            ProtocolState::HostReady => ProtocolActor::Host,
            ProtocolState::RequestWritten => ProtocolActor::Host,
            ProtocolState::StartAllowed => ProtocolActor::Host,
            ProtocolState::CancelRequested => ProtocolActor::Host,
            _ => ProtocolActor::Guest,
        }
    }

    pub open spec fn spec_file_name(self) -> Seq<char> {
        match self {
            ProtocolState::HostReady => "host-ready.json"@,
            ProtocolState::RequestWritten => "request-written.json"@,
            ProtocolState::StartAllowed => "start-allowed.json"@,
            ProtocolState::CancelRequested => "cancel-requested.json"@,
            ProtocolState::GuestReady => "guest-ready.json"@,
            ProtocolState::Running => "running.json"@,
            ProtocolState::Completed => "completed.json"@,
            ProtocolState::Failed => "failed.json"@,
            ProtocolState::ShutdownReady => "shutdown-ready.json"@,
        }
    }

    /// The name of the state as diagnostics show it.
    pub open spec fn spec_label(self) -> Seq<char> {
        match self {
            ProtocolState::HostReady => "HostReady"@,
            ProtocolState::RequestWritten => "RequestWritten"@,
            ProtocolState::StartAllowed => "StartAllowed"@,
            ProtocolState::CancelRequested => "CancelRequested"@,
            ProtocolState::GuestReady => "GuestReady"@,
            ProtocolState::Running => "Running"@,
            ProtocolState::Completed => "Completed"@,
            ProtocolState::Failed => "Failed"@,
            ProtocolState::ShutdownReady => "ShutdownReady"@,
        }
    }

    /// The side that publishes the state.
    pub fn actor(self) -> (actor: ProtocolActor)
        ensures
            actor == self.spec_actor(),
    {
        match self {
            ProtocolState::HostReady => ProtocolActor::Host,
            ProtocolState::RequestWritten => ProtocolActor::Host,
            ProtocolState::StartAllowed => ProtocolActor::Host,
            ProtocolState::CancelRequested => ProtocolActor::Host,
            _ => ProtocolActor::Guest,
        }
    }

    /// The file that publishes the state.
    pub fn file_name(self) -> (name: &'static str)
        ensures
            name@ == self.spec_file_name(),
    {
        match self {
            ProtocolState::HostReady => "host-ready.json",
            ProtocolState::RequestWritten => "request-written.json",
            ProtocolState::StartAllowed => "start-allowed.json",
            ProtocolState::CancelRequested => "cancel-requested.json",
            ProtocolState::GuestReady => "guest-ready.json",
            ProtocolState::Running => "running.json",
            ProtocolState::Completed => "completed.json",
            ProtocolState::Failed => "failed.json",
            ProtocolState::ShutdownReady => "shutdown-ready.json",
        }
    }

    pub fn label(self) -> (name: &'static str)
        ensures
            name@ == self.spec_label(),
    {
        match self {
            ProtocolState::HostReady => "HostReady",
            ProtocolState::RequestWritten => "RequestWritten",
            ProtocolState::StartAllowed => "StartAllowed",
            ProtocolState::CancelRequested => "CancelRequested",
            ProtocolState::GuestReady => "GuestReady",
            ProtocolState::Running => "Running",
            ProtocolState::Completed => "Completed",
            ProtocolState::Failed => "Failed",
            ProtocolState::ShutdownReady => "ShutdownReady",
        }
    }
}

#[derive(Clone, Debug, PartialEq, Eq)]
pub struct GuestError {
    pub stage: String,
    pub code: String,
    pub message: String,
}

impl GuestError {
    pub open spec fn verdict(&self) -> Result<(), ProtocolFault> {
        both(
            small_field_verdict("error stage"@, self.stage@, 128),
            both(
                small_field_verdict("error code"@, self.code@, 128),
                small_field_verdict("error message"@, self.message@, MAX_WARNING_BYTES as nat),
            ),
        )
    }

    pub fn new(stage: &str, code: &str, message: &str) -> (error: GuestError)
        ensures
            error.stage@ == stage@,
            error.code@ == code@,
            error.message@ == message@,
    {
        GuestError { stage: stage.to_owned(), code: code.to_owned(), message: message.to_owned() }
    }

    pub fn validate(&self) -> (verdict: ProtocolResult<()>)
        ensures
            verdict_of(verdict) == self.verdict(),
    {
        match validate_small_field("error stage", self.stage.as_str(), 128) {
            Err(error) => {
                return Err(error);
            },
            Ok(_) => {},
        }
        match validate_small_field("error code", self.code.as_str(), 128) {
            Err(error) => {
                return Err(error);
            },
            Ok(_) => {},
        }
        validate_small_field("error message", self.message.as_str(), MAX_WARNING_BYTES)
    }
}

#[derive(Clone, Debug, PartialEq, Eq)]
pub struct StatusRecord {
    pub protocol_version: u32,
    pub run_id: String,
    pub sequence: u64,
    pub actor: ProtocolActor,
    pub state: ProtocolState,
    pub timestamp_ms: u64,
    pub request_sha256: Option<String>,
    pub result_sha256: Option<String>,
    pub error: Option<GuestError>,
}

impl StatusRecord {
    pub open spec fn verdict(&self) -> Result<(), ProtocolFault> {
        both(
            version_verdict(self.protocol_version),
            both(
                run_id_verdict(self.run_id@),
                if self.sequence == 0 {
                    refused("invalid_status"@, "status sequence must be non-zero"@)
                } else if self.actor != self.state.spec_actor() {
                    refused("invalid_status"@, "status actor does not own the state"@)
                } else {
                    both(self.digests_verdict(), self.content_verdict())
                },
            ),
        )
    }

    pub open spec fn digests_verdict(&self) -> Result<(), ProtocolFault> {
        match self.request_sha256 {
            None => refused(
                "invalid_status"@,
                "every protocol status must authenticate request.json"@,
            ),
            Some(request) => both(
                sha256_verdict(request@),
                match self.result_sha256 {
                    Some(result) => sha256_verdict(result@),
                    None => Ok(()),
                },
            ),
        }
    }

    pub open spec fn content_verdict(&self) -> Result<(), ProtocolFault> {
        let error_verdict = match self.error {
            Some(error) => error.verdict(),
            None => Ok(()),
        };
        both(
            error_verdict,
            if self.state == ProtocolState::Failed && self.error is None {
                refused("invalid_status"@, "failed status requires an error"@)
            } else if self.state != ProtocolState::Failed && self.error is Some {
                refused("invalid_status"@, "only failed status may carry an error"@)
            } else if self.state == ProtocolState::Completed && self.result_sha256 is None {
                refused("invalid_status"@, "completed status must authenticate result.json"@)
            } else {
                Ok(())
            },
        )
    }

    /// A record of the present moment.
    pub fn new(run_id: &str, sequence: u64, state: ProtocolState) -> (record: StatusRecord)
        ensures
            record.protocol_version == PROTOCOL_VERSION,
            record.run_id@ == run_id@,
            record.sequence == sequence,
            record.actor == state.spec_actor(),
            record.state == state,
            record.request_sha256 is None,
            record.result_sha256 is None,
            record.error is None,
    {
        StatusRecord::at(run_id, sequence, state, unix_timestamp_ms())
    }

    /// A record of the given moment.
    pub fn at(run_id: &str, sequence: u64, state: ProtocolState, timestamp_ms: u64) -> (record:
        StatusRecord)
        ensures
            record.protocol_version == PROTOCOL_VERSION,
            record.run_id@ == run_id@,
            record.sequence == sequence,
            record.actor == state.spec_actor(),
            record.state == state,
            record.timestamp_ms == timestamp_ms,
            record.request_sha256 is None,
            record.result_sha256 is None,
            record.error is None,
    {
        StatusRecord {
            protocol_version: PROTOCOL_VERSION,
            run_id: run_id.to_owned(),
            sequence,
            actor: state.actor(),
            state,
            timestamp_ms,
            request_sha256: None,
            result_sha256: None,
            error: None,
        }
    }

    pub fn validate(&self) -> (verdict: ProtocolResult<()>)
        ensures
            verdict_of(verdict) == self.verdict(),
    {
        match validate_protocol_version(self.protocol_version) {
            Err(error) => {
                return Err(error);
            },
            Ok(_) => {},
        }
        match validate_run_id(self.run_id.as_str()) {
            Err(error) => {
                return Err(error);
            },
            Ok(_) => {},
        }
        if self.sequence == 0 {
            return Err(ProtocolError::new("invalid_status", "status sequence must be non-zero"));
        }
        if self.actor != self.state.actor() {
            return Err(ProtocolError::new("invalid_status", "status actor does not own the state"));
        }
        match &self.request_sha256 {
            None => {
                return Err(
                    ProtocolError::new(
                        "invalid_status",
                        "every protocol status must authenticate request.json",
                    ),
                );
            },
            Some(digest) => match validate_sha256(digest.as_str()) {
                Err(error) => {
                    return Err(error);
                },
                Ok(_) => {},
            },
        }
        match &self.result_sha256 {
            None => {},
            Some(digest) => match validate_sha256(digest.as_str()) {
                Err(error) => {
                    return Err(error);
                },
                Ok(_) => {},
            },
        }
        match &self.error {
            None => {},
            Some(error) => match error.validate() {
                Err(error) => {
                    return Err(error);
                },
                Ok(_) => {},
            },
        }
        if self.state == ProtocolState::Failed && self.error.is_none() {
            return Err(ProtocolError::new("invalid_status", "failed status requires an error"));
        }
        if self.state != ProtocolState::Failed && self.error.is_some() {
            return Err(
                ProtocolError::new("invalid_status", "only failed status may carry an error"),
            );
        }
        if self.state == ProtocolState::Completed && self.result_sha256.is_none() {
            return Err(
                ProtocolError::new(
                    "invalid_status",
                    "completed status must authenticate result.json",
                ),
            );
        }
        Ok(())
    }
}

// ---------------------------------------------------------------------------------------------
// Results
// ---------------------------------------------------------------------------------------------

#[derive(Clone, Copy, Debug, PartialEq, Eq, Structural)]
pub enum GuestTerminalOutcome {
    Completed,
    TimedOut,
    Cancelled,
    AgentFailed,
}

#[derive(Clone, Debug, PartialEq, Eq)]
pub struct CaptureCoverage {
    pub requested: bool,
    pub collected: bool,
    pub complete: bool,
    pub warnings: Vec<String>,
}

impl CaptureCoverage {
    pub open spec fn verdict(&self) -> Result<(), ProtocolFault> {
        if self.complete && self.requested && !self.collected {
            refused(
                "invalid_coverage"@,
                "requested capture cannot be complete when nothing was collected"@,
            )
        } else {
            warnings_verdict(self.warnings@)
        }
    }

    /// Nothing was collected; the warning says why where a capture was requested.
    pub fn unavailable(requested: bool, warning: &str) -> (coverage: CaptureCoverage)
        ensures
            coverage.requested == requested,
            !coverage.collected,
            coverage.complete == !requested,
            requested ==> text::views(coverage.warnings@) == seq![warning@],
            !requested ==> coverage.warnings@.len() == 0,
    {
        let mut warnings: Vec<String> = Vec::new();
        if requested {
            warnings.push(warning.to_owned());
            proof {
                assert(text::views(warnings@) =~= seq![warning@]);
            }
        }
        CaptureCoverage { requested, collected: false, complete: !requested, warnings }
    }

    pub fn validate(&self) -> (verdict: ProtocolResult<()>)
        ensures
            verdict_of(verdict) == self.verdict(),
    {
        if self.complete && self.requested && !self.collected {
            return Err(
                ProtocolError::new(
                    "invalid_coverage",
                    "requested capture cannot be complete when nothing was collected",
                ),
            );
        }
        validate_warnings(&self.warnings)
    }
}

#[derive(Clone, Debug, PartialEq, Eq)]
pub struct ObservationCoverage {
    pub stdout: CaptureCoverage,
    pub stderr: CaptureCoverage,
    pub processes: CaptureCoverage,
    pub network: CaptureCoverage,
    pub filesystem: CaptureCoverage,
    pub registry: CaptureCoverage,
}

impl ObservationCoverage {
    pub open spec fn verdict(&self) -> Result<(), ProtocolFault> {
        both(
            self.stdout.verdict(),
            both(
                self.stderr.verdict(),
                both(
                    self.processes.verdict(),
                    both(
                        self.network.verdict(),
                        both(self.filesystem.verdict(), self.registry.verdict()),
                    ),
                ),
            ),
        )
    }

    pub fn validate(&self) -> (verdict: ProtocolResult<()>)
        ensures
            verdict_of(verdict) == self.verdict(),
    {
        match self.stdout.validate() {
            Err(error) => {
                return Err(error);
            },
            Ok(_) => {},
        }
        match self.stderr.validate() {
            Err(error) => {
                return Err(error);
            },
            Ok(_) => {},
        }
        match self.processes.validate() {
            Err(error) => {
                return Err(error);
            },
            Ok(_) => {},
        }
        match self.network.validate() {
            Err(error) => {
                return Err(error);
            },
            Ok(_) => {},
        }
        match self.filesystem.validate() {
            Err(error) => {
                return Err(error);
            },
            Ok(_) => {},
        }
        self.registry.validate()
    }
}

#[derive(Clone, Debug, PartialEq, Eq)]
pub struct ArtifactManifestEntry {
    pub relative_path: String,
    pub size_bytes: u64,
    pub sha256: String,
    pub kind: String,
}

impl ArtifactManifestEntry {
    pub open spec fn verdict(&self) -> Result<(), ProtocolFault> {
        both(
            wire_path_verdict(self.relative_path@),
            if self.size_bytes > MAX_ARTIFACT_BYTES {
                refused("invalid_artifact"@, "artifact exceeds 134217728 bytes"@)
            } else {
                both(
                    sha256_verdict(self.sha256@),
                    small_field_verdict("artifact kind"@, self.kind@, 64),
                )
            },
        )
    }

    pub fn validate(&self) -> (verdict: ProtocolResult<()>)
        ensures
            verdict_of(verdict) == self.verdict(),
    {
        match validate_relative_wire_path(self.relative_path.as_str()) {
            Err(error) => {
                return Err(error);
            },
            Ok(_) => {},
        }
        if self.size_bytes > MAX_ARTIFACT_BYTES {
            return Err(ProtocolError::new("invalid_artifact", "artifact exceeds 134217728 bytes"));
        }
        match validate_sha256(self.sha256.as_str()) {
            Err(error) => {
                return Err(error);
            },
            Ok(_) => {},
        }
        validate_small_field("artifact kind", self.kind.as_str(), 64)
    }
}

#[derive(Clone, Debug, PartialEq, Eq)]
pub struct GuestNetworkAttestation {
    pub interface_index: u32,
    pub interface_guid: String,
    pub mac_address: String,
    pub guest_ipv4: Ipv4Addr,
    pub prefix_length: u8,
    pub gateway_ipv4: Option<Ipv4Addr>,
    pub dns_servers: Vec<Ipv4Addr>,
    pub ipv6_disabled: bool,
    pub no_unexpected_routes: bool,
}

impl GuestNetworkAttestation {
    /// The interface is named, has usable addresses and nothing beside them.
    pub open spec fn complete(&self) -> bool {
        &&& self.interface_index > 0
        &&& self.interface_guid@.len() > 0
        &&& text::byte_len(self.interface_guid@) <= 128
        &&& self.mac_address@.len() > 0
        &&& text::byte_len(self.mac_address@) <= 32
        &&& guest_unicast(self.guest_ipv4.bits)
        &&& 1 <= self.prefix_length <= 30
        &&& self.gateway_ipv4 matches Some(gateway) ==> guest_unicast(gateway.bits)
        &&& self.dns_servers@.len() <= 8
        &&& forall|i: int|
            0 <= i < self.dns_servers@.len() ==> guest_unicast((#[trigger] self.dns_servers@[i]).bits)
        &&& self.ipv6_disabled
        &&& self.no_unexpected_routes
    }

    pub open spec fn verdict(&self) -> Result<(), ProtocolFault> {
        if !self.complete() {
            refused(
                "invalid_network_attestation"@,
                "guest NIC attestation is incomplete or unsafe"@,
            )
        } else {
            both(
                small_field_verdict("guest interface GUID"@, self.interface_guid@, 128),
                small_field_verdict("guest MAC address"@, self.mac_address@, 32),
            )
        }
    }

    pub fn validate(&self) -> (verdict: ProtocolResult<()>)
        ensures
            verdict_of(verdict) == self.verdict(),
    {
        let gateway_fits = match self.gateway_ipv4 {
            Some(gateway) => valid_guest_unicast(gateway),
            None => true,
        };
        if self.interface_index == 0 || self.interface_guid.as_str().is_empty() || text::utf8_len(
            self.interface_guid.as_str(),
        ) > 128 || self.mac_address.as_str().is_empty() || text::utf8_len(self.mac_address.as_str())
            > 32 || !valid_guest_unicast(self.guest_ipv4) || self.prefix_length < 1
            || self.prefix_length > 30 || !gateway_fits || self.dns_servers.len() > 8
            || !all_guest_unicast(&self.dns_servers) || !self.ipv6_disabled
            || !self.no_unexpected_routes {
            return Err(
                ProtocolError::new(
                    "invalid_network_attestation",
                    "guest NIC attestation is incomplete or unsafe",
                ),
            );
        }
        match validate_small_field("guest interface GUID", self.interface_guid.as_str(), 128) {
            Err(error) => {
                return Err(error);
            },
            Ok(_) => {},
        }
        validate_small_field("guest MAC address", self.mac_address.as_str(), 32)
    }
}

#[derive(Clone, Debug, PartialEq, Eq)]
pub struct GuestResultEnvelope<T> {
    pub protocol_version: u32,
    pub run_id: String,
    pub agent_version: String,
    pub guest_image_version: String,
    pub outcome: GuestTerminalOutcome,
    pub execution: Option<T>,
    pub coverage: ObservationCoverage,
    pub artifacts: Vec<ArtifactManifestEntry>,
    pub warnings: Vec<String>,
    pub network_attestation: Option<GuestNetworkAttestation>,
    pub error: Option<GuestError>,
}

/// An earlier artifact has the path of artifact `index` up to letter case.
pub open spec fn repeated_path(artifacts: Seq<ArtifactManifestEntry>, index: int) -> bool {
    exists|earlier: int|
        0 <= earlier < index && text::unicode_lower(#[trigger] artifacts[earlier].relative_path@)
            == text::unicode_lower(artifacts[index].relative_path@)
}

/// The bytes of all artifacts together.
pub open spec fn artifact_bytes(artifacts: Seq<ArtifactManifestEntry>) -> nat
    decreases artifacts.len(),
{
    if artifacts.len() == 0 {
        0
    } else {
        artifact_bytes(artifacts.drop_last()) + artifacts.last().size_bytes as nat
    }
}

/// The verdict on the artifacts from `from` on, one by one.
pub open spec fn artifact_entries_verdict(
    artifacts: Seq<ArtifactManifestEntry>,
    from: int,
) -> Result<(), ProtocolFault>
    decreases artifacts.len() - from,
{
    if from >= artifacts.len() {
        Ok(())
    } else {
        both(
            artifacts[from].verdict(),
            if repeated_path(artifacts, from) {
                refused(
                    "invalid_artifact"@,
                    "manifest contains a case-insensitive duplicate path"@,
                )
            } else {
                artifact_entries_verdict(artifacts, from + 1)
            },
        )
    }
}

/// The verdict on a manifest: its length, its entries, then the bytes they add up to.
pub open spec fn manifest_verdict(artifacts: Seq<ArtifactManifestEntry>) -> Result<
    (),
    ProtocolFault,
> {
    if artifacts.len() > MAX_ARTIFACTS {
        refused("invalid_artifact"@, "manifest contains more than 4096 artifacts"@)
    } else {
        both(
            artifact_entries_verdict(artifacts, 0),
            if artifact_bytes(artifacts) > MAX_TOTAL_ARTIFACT_BYTES {
                refused("invalid_artifact"@, "artifact bytes exceed 536870912"@)
            } else {
                Ok(())
            },
        )
    }
}

fn validate_manifest(artifacts: &Vec<ArtifactManifestEntry>) -> (verdict: ProtocolResult<()>)
    ensures
        verdict_of(verdict) == manifest_verdict(artifacts@),
{
    if artifacts.len() > MAX_ARTIFACTS {
        return Err(
            ProtocolError::new("invalid_artifact", "manifest contains more than 4096 artifacts"),
        );
    }
    let mut paths: Vec<String> = Vec::new();
    let mut total: u64 = 0;
    let mut i: usize = 0;
    while i < artifacts.len()
        invariant
            i <= artifacts@.len() <= MAX_ARTIFACTS,
            paths@.len() == i,
            forall|j: int|
                0 <= j < i ==> #[trigger] paths@[j]@ == text::unicode_lower(
                    artifacts@[j].relative_path@,
                ),
            total == artifact_bytes(artifacts@.take(i as int)),
            total <= i * MAX_ARTIFACT_BYTES,
            artifact_entries_verdict(artifacts@, 0) == artifact_entries_verdict(artifacts@, i as int),
        decreases artifacts@.len() - i,
    {
        match artifacts[i].validate() {
            Err(error) => {
                return Err(error);
            },
            Ok(_) => {},
        }
        let folded = text::lowercase(artifacts[i].relative_path.as_str());
        let known = list_contains(&paths, folded.as_str());
        proof {
            if known {
                let j = choose|j: int| 0 <= j < paths@.len() && #[trigger] paths@[j]@ == folded@;
                assert(text::unicode_lower(artifacts@[j].relative_path@) == folded@);
                assert(repeated_path(artifacts@, i as int));
            } else {
                assert forall|j: int| 0 <= j < i implies text::unicode_lower(
                    #[trigger] artifacts@[j].relative_path@,
                ) != folded@ by {
                    assert(paths@[j]@ != folded@);
                }
                assert(!repeated_path(artifacts@, i as int));
            }
            assert(artifacts@.take(i + 1).drop_last() =~= artifacts@.take(i as int));
        }
        if known {
            return Err(
                ProtocolError::new(
                    "invalid_artifact",
                    "manifest contains a case-insensitive duplicate path",
                ),
            );
        }
        paths.push(folded);
        total = total + artifacts[i].size_bytes;
        i = i + 1;
    }
    proof {
        assert(artifacts@.take(i as int) =~= artifacts@);
    }
    if total > MAX_TOTAL_ARTIFACT_BYTES {
        return Err(ProtocolError::new("invalid_artifact", "artifact bytes exceed 536870912"));
    }
    Ok(())
}

/// What an outcome allows beside it: an agent failure carries an error and nothing else, an
/// execution that ended carries its result and no error, a cancelled one carries neither.
pub open spec fn terminal_verdict(
    outcome: GuestTerminalOutcome,
    has_execution: bool,
    has_error: bool,
) -> Result<(), ProtocolFault> {
    match outcome {
        GuestTerminalOutcome::AgentFailed => if !has_error {
            refused("invalid_result"@, "agent_failed outcome requires an error"@)
        } else if has_execution {
            refused(
                "invalid_result"@,
                "agent_failed outcome cannot contain an execution result"@,
            )
        } else {
            Ok(())
        },
        GuestTerminalOutcome::Cancelled => if has_execution || has_error {
            refused(
                "invalid_result"@,
                "cancelled outcome cannot contain execution data or an agent error"@,
            )
        } else {
            Ok(())
        },
        _ => if !has_execution {
            refused(
                "invalid_result"@,
                "completed and timed_out outcomes require an execution result"@,
            )
        } else if has_error {
            refused(
                "invalid_result"@,
                "successful or timed-out execution cannot carry an agent error"@,
            )
        } else {
            Ok(())
        },
    }
}

fn validate_terminal(outcome: GuestTerminalOutcome, has_execution: bool, has_error: bool) -> (verdict:
    ProtocolResult<()>)
    ensures
        verdict_of(verdict) == terminal_verdict(outcome, has_execution, has_error),
{
    match outcome {
        GuestTerminalOutcome::AgentFailed => if !has_error {
            Err(ProtocolError::new("invalid_result", "agent_failed outcome requires an error"))
        } else if has_execution {
            Err(
                ProtocolError::new(
                    "invalid_result",
                    "agent_failed outcome cannot contain an execution result",
                ),
            )
        } else {
            Ok(())
        },
        GuestTerminalOutcome::Cancelled => if has_execution || has_error {
            Err(
                ProtocolError::new(
                    "invalid_result",
                    "cancelled outcome cannot contain execution data or an agent error",
                ),
            )
        } else {
            Ok(())
        },
        _ => if !has_execution {
            Err(
                ProtocolError::new(
                    "invalid_result",
                    "completed and timed_out outcomes require an execution result",
                ),
            )
        } else if has_error {
            Err(
                ProtocolError::new(
                    "invalid_result",
                    "successful or timed-out execution cannot carry an agent error",
                ),
            )
        } else {
            Ok(())
        },
    }
}

impl<T> GuestResultEnvelope<T> {
    pub open spec fn metadata_verdict(&self) -> Result<(), ProtocolFault> {
        let attestation_verdict = match self.network_attestation {
            Some(attestation) => attestation.verdict(),
            None => Ok(()),
        };
        let error_verdict = match self.error {
            Some(error) => error.verdict(),
            None => Ok(()),
        };
        both(
            version_verdict(self.protocol_version),
            both(
                run_id_verdict(self.run_id@),
                both(
                    small_field_verdict("agent version"@, self.agent_version@, 128),
                    both(
                        small_field_verdict("guest image version"@, self.guest_image_version@, 128),
                        both(
                            self.coverage.verdict(),
                            both(
                                warnings_verdict(self.warnings@),
                                both(
                                    attestation_verdict,
                                    both(
                                        manifest_verdict(self.artifacts@),
                                        both(
                                            error_verdict,
                                            terminal_verdict(
                                                self.outcome,
                                                self.execution is Some,
                                                self.error is Some,
                                            ),
                                        ),
                                    ),
                                ),
                            ),
                        ),
                    ),
                ),
            ),
        )
    }

    pub fn validate_metadata(&self) -> (verdict: ProtocolResult<()>)
        ensures
            verdict_of(verdict) == self.metadata_verdict(),
    {
        match validate_protocol_version(self.protocol_version) {
            Err(error) => {
                return Err(error);
            },
            Ok(_) => {},
        }
        match validate_run_id(self.run_id.as_str()) {
            Err(error) => {
                return Err(error);
            },
            Ok(_) => {},
        }
        match validate_small_field("agent version", self.agent_version.as_str(), 128) {
            Err(error) => {
                return Err(error);
            },
            Ok(_) => {},
        }
        match validate_small_field("guest image version", self.guest_image_version.as_str(), 128) {
            Err(error) => {
                return Err(error);
            },
            Ok(_) => {},
        }
        match self.coverage.validate() {
            Err(error) => {
                return Err(error);
            },
            Ok(_) => {},
        }
        match validate_warnings(&self.warnings) {
            Err(error) => {
                return Err(error);
            },
            Ok(_) => {},
        }
        match &self.network_attestation {
            None => {},
            Some(attestation) => match attestation.validate() {
                Err(error) => {
                    return Err(error);
                },
                Ok(_) => {},
            },
        }
        match validate_manifest(&self.artifacts) {
            Err(error) => {
                return Err(error);
            },
            Ok(_) => {},
        }
        match &self.error {
            None => {},
            Some(error) => match error.validate() {
                Err(error) => {
                    return Err(error);
                },
                Ok(_) => {},
            },
        }
        validate_terminal(self.outcome, self.execution.is_some(), self.error.is_some())
    }
}

// ---------------------------------------------------------------------------------------------
// The state machine
// ---------------------------------------------------------------------------------------------

/// Follows the status records of one run.
#[derive(Clone, Debug)]
pub struct ProtocolStateMachine {
    run_id: String,
    seen: Vec<ProtocolState>,
    last_sequence: u64,
}

/// What a machine knows: the run, the states published so far and the last sequence number.
pub struct MachineView {
    pub run_id: Seq<char>,
    pub seen: Set<ProtocolState>,
    pub last_sequence: nat,
}

impl View for ProtocolStateMachine {
    type V = MachineView;

    closed spec fn view(&self) -> MachineView {
        MachineView {
            run_id: self.run_id@,
            seen: self.seen@.to_set(),
            last_sequence: self.last_sequence as nat,
        }
    }
}

/// A state after which only the shutdown may follow.
pub open spec fn is_over(seen: Set<ProtocolState>) -> bool {
    ||| seen.contains(ProtocolState::Completed)
    ||| seen.contains(ProtocolState::Failed)
    ||| seen.contains(ProtocolState::CancelRequested)
    ||| seen.contains(ProtocolState::ShutdownReady)
}

/// What must have been published before `state`, and what must not.
pub open spec fn prerequisites_met(seen: Set<ProtocolState>, state: ProtocolState) -> bool {
    match state {
        ProtocolState::HostReady => seen == Set::<ProtocolState>::empty(),
        ProtocolState::RequestWritten => seen.contains(ProtocolState::HostReady),
        ProtocolState::StartAllowed => seen.contains(ProtocolState::RequestWritten)
            && !seen.contains(ProtocolState::Running),
        ProtocolState::GuestReady => seen.contains(ProtocolState::RequestWritten),
        ProtocolState::Running => seen.contains(ProtocolState::GuestReady) && seen.contains(
            ProtocolState::StartAllowed,
        ),
        ProtocolState::Completed => seen.contains(ProtocolState::Running),
        ProtocolState::Failed => seen.contains(ProtocolState::RequestWritten),
        ProtocolState::CancelRequested => seen.contains(ProtocolState::RequestWritten),
        ProtocolState::ShutdownReady => seen.contains(ProtocolState::Completed) || seen.contains(
            ProtocolState::Failed,
        ) || seen.contains(ProtocolState::CancelRequested),
    }
}

pub open spec fn prerequisites_verdict(seen: Set<ProtocolState>, state: ProtocolState) -> Result<
    (),
    ProtocolFault,
> {
    if is_over(seen) && state != ProtocolState::ShutdownReady {
        refused("state_terminal"@, "no non-shutdown state may follow a terminal state"@)
    } else if !prerequisites_met(seen, state) {
        refused(
            "state_transition"@,
            "prerequisites for state "@ + state.spec_label() + " were not met"@,
        )
    } else {
        Ok(())
    }
}

impl MachineView {
    pub open spec fn verdict(self, record: &StatusRecord) -> Result<(), ProtocolFault> {
        both(
            record.verdict(),
            if record.run_id@ != self.run_id {
                refused("state_run_mismatch"@, "status belongs to a different run"@)
            } else if record.sequence <= self.last_sequence {
                refused("state_sequence"@, "status sequence did not increase"@)
            } else if self.seen.contains(record.state) {
                refused("state_replay"@, "protocol state was published more than once"@)
            } else {
                prerequisites_verdict(self.seen, record.state)
            },
        )
    }

    /// The machine after an accepted record.
    pub open spec fn after(self, record: &StatusRecord) -> MachineView {
        MachineView {
            run_id: self.run_id,
            seen: self.seen.insert(record.state),
            last_sequence: record.sequence as nat,
        }
    }

    /// A history that the protocol allows.
    pub open spec fn lawful(self) -> bool {
        let seen = self.seen;
        &&& seen == Set::<ProtocolState>::empty() || seen.contains(ProtocolState::HostReady)
        &&& seen.contains(ProtocolState::GuestReady) || seen.contains(ProtocolState::StartAllowed)
            || seen.contains(ProtocolState::Failed) || seen.contains(ProtocolState::CancelRequested)
            ==> seen.contains(ProtocolState::RequestWritten)
        &&& seen.contains(ProtocolState::Running) ==> seen.contains(ProtocolState::GuestReady)
            && seen.contains(ProtocolState::StartAllowed)
        &&& seen.contains(ProtocolState::Completed) ==> seen.contains(ProtocolState::Running)
        &&& seen.contains(ProtocolState::ShutdownReady) ==> seen.contains(ProtocolState::Completed)
            || seen.contains(ProtocolState::Failed) || seen.contains(ProtocolState::CancelRequested)
        &&& !(seen.contains(ProtocolState::Completed) && seen.contains(ProtocolState::Failed))
        &&& !(seen.contains(ProtocolState::Completed) && seen.contains(
            ProtocolState::CancelRequested,
        ))
        &&& !(seen.contains(ProtocolState::Failed) && seen.contains(ProtocolState::CancelRequested))
    }
}

impl ProtocolStateMachine {
    /// No state is held twice, and the history is one that the protocol allows.
    pub closed spec fn well_formed(&self) -> bool {
        self.seen@.no_duplicates() && self@.lawful()
    }

    pub fn new(run_id: &str) -> (machine: ProtocolResult<ProtocolStateMachine>)
        ensures
            match machine {
                Ok(made) => {
                    &&& run_id_verdict(run_id@) is Ok
                    &&& made.well_formed()
                    &&& made@ == (MachineView {
                        run_id: run_id@,
                        seen: Set::empty(),
                        last_sequence: 0,
                    })
                },
                Err(error) => run_id_verdict(run_id@) == Err::<(), ProtocolFault>(error@),
            },
    {
        match validate_run_id(run_id) {
            Err(error) => {
                return Err(error);
            },
            Ok(_) => {},
        }
        let machine = ProtocolStateMachine {
            run_id: run_id.to_owned(),
            seen: Vec::new(),
            last_sequence: 0,
        };
        proof {
            assert(machine@.seen =~= Set::<ProtocolState>::empty());
        }
        Ok(machine)
    }

    pub fn last_sequence(&self) -> (sequence: u64)
        ensures
            sequence == self@.last_sequence,
    {
        self.last_sequence
    }

    pub fn run_id(&self) -> (run_id: &str)
        ensures
            run_id@ == self@.run_id,
    {
        self.run_id.as_str()
    }

    pub fn has_seen(&self, state: ProtocolState) -> (seen: bool)
        ensures
            seen == self@.seen.contains(state),
    {
        let mut i: usize = 0;
        while i < self.seen.len()
            invariant
                i <= self.seen@.len(),
                forall|j: int| 0 <= j < i ==> #[trigger] self.seen@[j] != state,
            decreases self.seen@.len() - i,
        {
            if self.seen[i] == state {
                proof {
                    assert(self.seen@[i as int] == state);
                    assert(self.seen@.contains(state));
                }
                return true;
            }
            i = i + 1;
        }
        false
    }

    /// Takes in a record, or leaves the machine as it was.
    pub fn observe(&mut self, record: &StatusRecord) -> (verdict: ProtocolResult<()>)
        requires
            old(self).well_formed(),
        ensures
            final(self).well_formed(),
            verdict_of(verdict) == old(self)@.verdict(record),
            verdict is Ok ==> final(self)@ == old(self)@.after(record),
            verdict is Err ==> *final(self) == *old(self),
    {
        match record.validate() {
            Err(error) => {
                return Err(error);
            },
            Ok(_) => {},
        }
        if !text::same_text(record.run_id.as_str(), self.run_id.as_str()) {
            return Err(
                ProtocolError::new("state_run_mismatch", "status belongs to a different run"),
            );
        }
        if record.sequence <= self.last_sequence {
            return Err(ProtocolError::new("state_sequence", "status sequence did not increase"));
        }
        if self.has_seen(record.state) {
            return Err(
                ProtocolError::new("state_replay", "protocol state was published more than once"),
            );
        }
        match self.validate_prerequisites(record.state) {
            Err(error) => {
                return Err(error);
            },
            Ok(_) => {},
        }
        let ghost before = self@;
        let ghost list = self.seen@;
        self.last_sequence = record.sequence;
        self.seen.push(record.state);
        proof {
            assert(!list.contains(record.state)) by {
                if list.contains(record.state) {
                    assert(before.seen.contains(record.state));
                }
            }
            assert(self.seen@.to_set() =~= list.to_set().insert(record.state)) by {
                assert forall|state: ProtocolState| #[trigger] self.seen@.to_set().contains(state)
                    == list.to_set().insert(record.state).contains(state) by {
                    if list.contains(state) {
                        let k = choose|k: int| 0 <= k < list.len() && list[k] == state;
                        assert(self.seen@[k] == state);
                    }
                    if state == record.state {
                        assert(self.seen@[list.len() as int] == state);
                    }
                }
            }
            protocol_history(before, record);
        }
        Ok(())
    }

    pub fn validate_prerequisites(&self, state: ProtocolState) -> (verdict: ProtocolResult<()>)
        ensures
            verdict_of(verdict) == prerequisites_verdict(self@.seen, state),
    {
        let over = self.has_seen(ProtocolState::Completed) || self.has_seen(ProtocolState::Failed)
            || self.has_seen(ProtocolState::CancelRequested) || self.has_seen(
            ProtocolState::ShutdownReady,
        );
        if over && state != ProtocolState::ShutdownReady {
            return Err(
                ProtocolError::new(
                    "state_terminal",
                    "no non-shutdown state may follow a terminal state",
                ),
            );
        }
        let valid = match state {
            ProtocolState::HostReady => {
                proof {
                    if self.seen@.len() > 0 {
                        assert(self.seen@.contains(self.seen@[0]));
                        assert(self@.seen.contains(self.seen@[0]));
                        assert(!Set::<ProtocolState>::empty().contains(self.seen@[0]));
                    } else {
                        assert(self@.seen =~= Set::<ProtocolState>::empty());
                    }
                }
                self.seen.len() == 0
            },
            ProtocolState::RequestWritten => self.has_seen(ProtocolState::HostReady),
            ProtocolState::StartAllowed => self.has_seen(ProtocolState::RequestWritten)
                && !self.has_seen(ProtocolState::Running),
            ProtocolState::GuestReady => self.has_seen(ProtocolState::RequestWritten),
            ProtocolState::Running => self.has_seen(ProtocolState::GuestReady) && self.has_seen(
                ProtocolState::StartAllowed,
            ),
            ProtocolState::Completed => self.has_seen(ProtocolState::Running),
            ProtocolState::Failed => self.has_seen(ProtocolState::RequestWritten),
            ProtocolState::CancelRequested => self.has_seen(ProtocolState::RequestWritten),
            ProtocolState::ShutdownReady => self.has_seen(ProtocolState::Completed) || self.has_seen(
                ProtocolState::Failed,
            ) || self.has_seen(ProtocolState::CancelRequested),
        };
        if valid {
            Ok(())
        } else {
            let message = text::cat3("prerequisites for state ", state.label(), " were not met");
            Err(ProtocolError::new("state_transition", message.as_str()))
        }
    }
}

/// A record is accepted only with a higher sequence number and a state not seen before, and an
/// accepted record leads from a lawful history to a lawful history.
pub proof fn protocol_history(machine: MachineView, record: &StatusRecord)
    requires
        machine.lawful(),
        machine.verdict(record) is Ok,
    ensures
        machine.after(record).lawful(),
        machine.after(record).last_sequence > machine.last_sequence,
        !machine.seen.contains(record.state),
        machine.after(record).seen == machine.seen.insert(record.state),
        record.run_id@ == machine.run_id,
{
    let seen = machine.seen;
    let next = machine.after(record).seen;
    assert(next.contains(record.state));
    if record.state == ProtocolState::HostReady {
        assert(seen =~= Set::<ProtocolState>::empty());
    } else {
        assert(seen != Set::<ProtocolState>::empty()) by {
            if seen == Set::<ProtocolState>::empty() {
                assert(!seen.contains(ProtocolState::HostReady));
                assert(!seen.contains(ProtocolState::RequestWritten));
                assert(!seen.contains(ProtocolState::GuestReady));
                assert(!seen.contains(ProtocolState::Running));
                assert(!seen.contains(ProtocolState::Completed));
                assert(!seen.contains(ProtocolState::Failed));
                assert(!seen.contains(ProtocolState::CancelRequested));
            }
        }
    }
}

/// The history that a state machine holds is always one that the protocol allows.
pub proof fn held_histories_are_lawful(machine: &ProtocolStateMachine)
    requires
        machine.well_formed(),
    ensures
        machine@.lawful(),
{
}

/// Once a terminal state or a cancellation was published, every further record but the shutdown
/// is refused, and after the shutdown every record is.
pub proof fn nothing_follows_the_end(machine: MachineView, record: &StatusRecord)
    requires
        is_over(machine.seen),
        record.state != ProtocolState::ShutdownReady || machine.seen.contains(
            ProtocolState::ShutdownReady,
        ),
    ensures
        machine.verdict(record) is Err,
{
}

/// The order in which the host approves the start before the guest reports ready, and the order in
/// which it approves afterwards, are both accepted up to the shutdown.
pub proof fn both_start_orders_are_lawful(approved_first: bool)
    ensures
        ({
            let empty = Set::<ProtocolState>::empty();
            let ready = empty.insert(ProtocolState::HostReady).insert(ProtocolState::RequestWritten);
            let (first, second) = if approved_first {
                (ProtocolState::StartAllowed, ProtocolState::GuestReady)
            } else {
                (ProtocolState::GuestReady, ProtocolState::StartAllowed)
            };
            let started = ready.insert(first).insert(second);
            let running = started.insert(ProtocolState::Running);
            let completed = running.insert(ProtocolState::Completed);
            &&& prerequisites_verdict(empty, ProtocolState::HostReady) is Ok
            &&& prerequisites_verdict(
                empty.insert(ProtocolState::HostReady),
                ProtocolState::RequestWritten,
            ) is Ok
            &&& prerequisites_verdict(ready, first) is Ok
            &&& prerequisites_verdict(ready.insert(first), second) is Ok
            &&& prerequisites_verdict(started, ProtocolState::Running) is Ok
            &&& prerequisites_verdict(running, ProtocolState::Completed) is Ok
            &&& prerequisites_verdict(completed, ProtocolState::ShutdownReady) is Ok
        }),
{
}

// ---------------------------------------------------------------------------------------------
// Protocol files
// ---------------------------------------------------------------------------------------------

/// The system time in milliseconds since the Unix epoch. Nothing is said of its value.
pub fn unix_timestamp_ms() -> u64 {
    clock::unix_time_ms()
}

/// What the file system says of a file before it is opened.
#[derive(Clone, Copy, Debug, PartialEq, Eq, Structural)]
pub struct FileFacts {
    pub regular: bool,
    pub link: bool,
    pub reparse_point: bool,
    pub len: u64,
}

/// The verdict on a protocol file before it is read.
pub open spec fn bounded_file_verdict(
    shown: Seq<char>,
    facts: FileFacts,
    maximum: u64,
) -> Result<(), ProtocolFault> {
    if maximum == 0 {
        refused("invalid_bound"@, "JSON byte limit must be non-zero"@)
    } else if !facts.regular || facts.link || facts.len > maximum {
        refused("protocol_size"@, shown + " is not a regular bounded protocol file"@)
    } else if facts.reparse_point {
        refused("protocol_io"@, shown + " is a reparse point"@)
    } else {
        Ok(())
    }
}

/// Whether a protocol file may be read at all.
pub fn admit_bounded_file(shown: &str, facts: &FileFacts, maximum: u64) -> (verdict: ProtocolResult<
    (),
>)
    ensures
        verdict_of(verdict) == bounded_file_verdict(shown@, *facts, maximum),
{
    if maximum == 0 {
        return Err(ProtocolError::new("invalid_bound", "JSON byte limit must be non-zero"));
    }
    if !facts.regular || facts.link || facts.len > maximum {
        let message = text::cat2(shown, " is not a regular bounded protocol file");
        return Err(ProtocolError::new("protocol_size", message.as_str()));
    }
    if facts.reparse_point {
        let message = text::cat2(shown, " is a reparse point");
        return Err(ProtocolError::new("protocol_io", message.as_str()));
    }
    Ok(())
}

/// The bytes that may be asked of a bounded file: one more than the limit, to see it exceeded.
pub fn read_allowance(maximum: u64) -> (allowance: u64)
    ensures
        allowance == if maximum < u64::MAX {
            (maximum + 1) as u64
        } else {
            u64::MAX
        },
{
    if maximum < u64::MAX {
        maximum + 1
    } else {
        maximum
    }
}

/// The verdict on a protocol file of which `read` bytes were read.
pub open spec fn bounded_bytes_verdict(
    shown: Seq<char>,
    facts: FileFacts,
    maximum: u64,
    read: u64,
) -> Result<(), ProtocolFault> {
    if read > maximum || read != facts.len {
        refused("protocol_size"@, shown + " changed or grew beyond its byte limit"@)
    } else {
        Ok(())
    }
}

/// Whether the bytes read are the whole of the file that was admitted.
pub fn admit_bounded_bytes(shown: &str, facts: &FileFacts, maximum: u64, read: u64) -> (verdict:
    ProtocolResult<()>)
    ensures
        verdict_of(verdict) == bounded_bytes_verdict(shown@, *facts, maximum, read),
{
    if read > maximum || read != facts.len {
        let message = text::cat2(shown, " changed or grew beyond its byte limit");
        Err(ProtocolError::new("protocol_size", message.as_str()))
    } else {
        Ok(())
    }
}

/// The name under which a protocol file is written before it is published.
pub open spec fn temporary_name_text(name: Seq<char>, process: nat, counter: nat) -> Seq<char> {
    "."@ + name + "."@ + text::decimal(process) + "."@ + text::decimal(counter) + ".tmp"@
}

/// The name of the temporary file beside a destination. `name` is the shown file name of the
/// destination, where it has one.
pub fn temporary_name(
    path: &HostPath,
    name: Option<&str>,
    maximum: u64,
    process: u32,
    counter: u64,
) -> (temporary: ProtocolResult<String>)
    ensures
        match (temporary_verdict(path, name is Some, maximum), temporary) {
            (Err(fault), Err(error)) => error@ == fault,
            (Ok(_), Ok(made)) => name matches Some(shown) && made@ == temporary_name_text(
                shown@,
                process as nat,
                counter as nat,
            ),
            _ => false,
        },
{
    if maximum == 0 {
        return Err(ProtocolError::new("invalid_bound", "JSON byte limit must be non-zero"));
    }
    if !path.has_parent() {
        return Err(ProtocolError::new("protocol_io", "protocol destination has no parent"));
    }
    match name {
        None => Err(ProtocolError::new("protocol_io", "protocol destination has no file name")),
        Some(shown) => {
            let process = text::decimal_text(process as u64);
            let counter = text::decimal_text(counter);
            let mut temporary = text::cat5(".", shown, ".", process.as_str(), ".");
            temporary.append(counter.as_str());
            temporary.append(".tmp");
            Ok(temporary)
        },
    }
}

/// Whether a destination can be written to at all.
pub open spec fn temporary_verdict(path: &HostPath, named: bool, maximum: u64) -> Result<
    (),
    ProtocolFault,
> {
    if maximum == 0 {
        refused("invalid_bound"@, "JSON byte limit must be non-zero"@)
    } else if host_path::parent_of(path.spec_parts()) is None {
        refused("protocol_io"@, "protocol destination has no parent"@)
    } else if !named {
        refused("protocol_io"@, "protocol destination has no file name"@)
    } else {
        Ok(())
    }
}

/// Counts the bytes that a bounded file may still take.
#[derive(Clone, Copy, Debug, PartialEq, Eq, Structural)]
pub struct BoundedWriter {
    pub remaining: u64,
}

impl BoundedWriter {
    pub fn new(maximum_bytes: u64) -> (writer: BoundedWriter)
        ensures
            writer.remaining == maximum_bytes,
    {
        BoundedWriter { remaining: maximum_bytes }
    }

    /// Whether a buffer of `len` bytes may be written.
    pub fn admits(&self, len: u64) -> (yes: bool)
        ensures
            yes == (len <= self.remaining),
    {
        len <= self.remaining
    }

    /// Records that `written` bytes were written.
    pub fn record(&mut self, written: u64)
        ensures
            final(self).remaining == if written <= old(self).remaining {
                (old(self).remaining - written) as u64
            } else {
                0
            },
    {
        self.remaining = self.remaining.saturating_sub(written);
    }
}

// ---------------------------------------------------------------------------------------------
// Laws
// ---------------------------------------------------------------------------------------------

/// A run is named by eight to sixty-four letters, digits, hyphens and underscores.
pub proof fn run_ids_are_plain_words(run_id: Seq<char>)
    ensures
        run_id_verdict(run_id) is Ok <==> 8 <= run_id.len() <= 64 && (forall|i: int|
            0 <= i < run_id.len() ==> {
                let c = #[trigger] run_id[i];
                'a' <= c <= 'z' || 'A' <= c <= 'Z' || '0' <= c <= '9' || c == '-' || c == '_'
            }),
        run_id_verdict(run_id) matches Err(fault) ==> fault.code == "invalid_run_id"@,
{
    if run_id_verdict(run_id) is Ok {
        assert forall|i: int| 0 <= i < run_id.len() implies ({
            let c = #[trigger] run_id[i];
            'a' <= c <= 'z' || 'A' <= c <= 'Z' || '0' <= c <= '9' || c == '-' || c == '_'
        }) by {
            assert(run_id_char(run_id[i]));
        }
    }
}

/// A digest is shown by sixty-four hexadecimal digits of either letter case.
pub proof fn digests_are_hexadecimal(digest: Seq<char>)
    ensures
        sha256_verdict(digest) is Ok <==> digest.len() == 64 && (forall|i: int|
            0 <= i < digest.len() ==> {
                let c = #[trigger] digest[i];
                '0' <= c <= '9' || 'a' <= c <= 'f' || 'A' <= c <= 'F'
            }),
        sha256_verdict(digest) is Ok <==> valid_sha256(digest),
        sha256_verdict(digest) matches Err(fault) ==> fault.code == "invalid_checksum"@,
{
    if valid_sha256(digest) {
        assert forall|i: int| 0 <= i < digest.len() implies ({
            let c = #[trigger] digest[i];
            '0' <= c <= '9' || 'a' <= c <= 'f' || 'A' <= c <= 'F'
        }) by {
            assert(text::is_hex_digit(digest[i]));
        }
    }
}

/// A field is not empty, fits its bound in bytes and holds no zero character.
pub proof fn fields_are_bounded(name: Seq<char>, value: Seq<char>, maximum: nat)
    ensures
        small_field_verdict(name, value, maximum) is Ok <==> {
            &&& value.len() > 0
            &&& vstd::utf8::encode_utf8(value).len() <= maximum
            &&& forall|i: int| 0 <= i < value.len() ==> #[trigger] value[i] != '\0'
        },
        small_field_verdict(name, value, maximum) is Ok <==> small_field(value, maximum),
{
}

/// There are at most 256 warnings of at most 4096 bytes each, without zero characters.
pub proof fn warnings_are_bounded(warnings: Seq<String>)
    ensures
        warnings_verdict(warnings) is Ok <==> warnings.len() <= 256 && (forall|k: int|
            0 <= k < warnings.len() ==> vstd::utf8::encode_utf8((#[trigger] warnings[k])@).len()
                <= 4096 && !warnings[k]@.contains('\0')),
{
    if small_warnings(warnings) {
        assert forall|k: int| 0 <= k < warnings.len() implies vstd::utf8::encode_utf8(
            (#[trigger] warnings[k])@,
        ).len() <= 4096 && !warnings[k]@.contains('\0') by {
            assert(text::byte_len(warnings[k]@) <= 4096);
        }
    }
}

proof fn lemma_components(components: Seq<Seq<char>>, from: int)
    requires
        0 <= from,
    ensures
        components_verdict(components, from) is Ok <==> (forall|k: int|
            from <= k < components.len() ==> safe_component(#[trigger] components[k])),
        components_verdict(components, from) matches Err(fault) ==> fault.code
            == "invalid_relative_path"@,
    decreases components.len() - from,
{
    if from < components.len() {
        lemma_components(components, from + 1);
    }
}

/// A path is accepted exactly where it is not empty, has at most 1024 bytes, neither begins nor ends
/// with a slash, holds no backslash, colon or control character, and every name between its slashes
/// is one that Windows takes: not empty, not a reference to this or the upper directory, with no dot
/// or space at its end, and not that of a device.
pub proof fn wire_paths_stay_below_their_root(value: Seq<char>)
    ensures
        wire_path_verdict(value) is Ok <==> {
            &&& value.len() > 0
            &&& vstd::utf8::encode_utf8(value).len() <= 1024
            &&& value[0] != '/'
            &&& value[value.len() - 1] != '/'
            &&& forall|i: int|
                0 <= i < value.len() ==> {
                    let c = #[trigger] value[i];
                    c != '\\' && c != ':' && 32 <= c as u32 && !(127 <= c as u32 <= 159)
                }
            &&& forall|k: int|
                0 <= k < text::split(value, '/').len() ==> {
                    let name = #[trigger] text::split(value, '/')[k];
                    &&& name.len() > 0
                    &&& name[name.len() - 1] != '.'
                    &&& name[name.len() - 1] != ' '
                    &&& !artifact::reserved_name(name)
                }
        },
        wire_path_verdict(value) matches Err(fault) ==> fault.code == "invalid_relative_path"@,
{
    reveal_strlit(".");
    reveal_strlit("..");
    let names = text::split(value, '/');
    lemma_components(names, 0);
    if plain_wire_text(value) {
        assert forall|i: int| 0 <= i < value.len() implies ({
            let c = #[trigger] value[i];
            c != '\\' && c != ':' && 32 <= c as u32 && !(127 <= c as u32 <= 159)
        }) by {
            assert(value.contains(value[i]));
            assert(!text::is_control(value[i]));
        }
    }
    if forall|i: int|
        0 <= i < value.len() ==> {
            let c = #[trigger] value[i];
            c != '\\' && c != ':' && 32 <= c as u32 && !(127 <= c as u32 <= 159)
        } {
        assert(!text::has_control(value));
        assert(!value.contains('\\'));
        assert(!value.contains(':'));
        assert(!value.contains('\0'));
    }
    assert forall|k: int| 0 <= k < names.len() implies (safe_component(#[trigger] names[k]) <==> {
        &&& names[k].len() > 0
        &&& names[k][names[k].len() - 1] != '.'
        &&& names[k][names[k].len() - 1] != ' '
        &&& !artifact::reserved_name(names[k])
    }) by {
    }
}

/// An address that one interface can have is neither zero nor all ones, and lies outside 127.0.0.0/8,
/// 169.254.0.0/16 and 224.0.0.0/4; a public resolver lies outside the private and the documentation
/// networks too.
pub proof fn unicast_and_public_addresses(bits: u32)
    ensures
        guest_unicast(bits) <==> {
            &&& bits != 0
            &&& bits != 0xffff_ffff
            &&& !(0x7f00_0000 <= bits <= 0x7fff_ffff)
            &&& !(0xa9fe_0000 <= bits <= 0xa9fe_ffff)
            &&& !(0xe000_0000 <= bits <= 0xefff_ffff)
        },
        public_resolver(bits) <==> {
            &&& guest_unicast(bits)
            &&& !(0x0a00_0000 <= bits <= 0x0aff_ffff)
            &&& !(0xac10_0000 <= bits <= 0xac1f_ffff)
            &&& !(0xc0a8_0000 <= bits <= 0xc0a8_ffff)
            &&& !(0xc000_0200 <= bits <= 0xc000_02ff)
            &&& !(0xc633_6400 <= bits <= 0xc633_64ff)
            &&& !(0xcb00_7100 <= bits <= 0xcb00_71ff)
        },
{
    net::special_addresses(bits);
}

/// Between 1 and 1024 processes, a processor share of 1 to 100 percent, and no more memory for one
/// process than for all of them, of 64 GiB at most.
pub proof fn resource_limits_are_bounded(limits: GuestResourceLimits)
    ensures
        limits.verdict() is Ok <==> {
            &&& 1 <= limits.active_process_limit <= 1024
            &&& 1 <= limits.cpu_rate_percent <= 100
            &&& 0 < limits.process_memory_bytes
            &&& limits.process_memory_bytes <= limits.job_memory_bytes
            &&& limits.job_memory_bytes <= 68_719_476_736
        },
        limits.verdict() matches Err(fault) ==> fault.code == "invalid_resource_limits"@,
{
}

/// At most 128 arguments, none with a zero character or more than 32768 bytes, and no more than
/// 131072 bytes together.
pub proof fn arguments_are_bounded(arguments: Seq<String>)
    ensures
        arguments_verdict(arguments) is Ok <==> {
            &&& arguments.len() <= 128
            &&& forall|k: int|
                0 <= k < arguments.len() ==> vstd::utf8::encode_utf8((#[trigger] arguments[k])@).len()
                    <= 32_768 && !arguments[k]@.contains('\0')
            &&& argument_bytes(arguments) <= 131_072
        },
        arguments_verdict(arguments) matches Err(fault) ==> fault.code == "invalid_arguments"@,
        arguments.len() == 0 ==> argument_bytes(arguments) == 0,
        forall|more: String| #[trigger]
            argument_bytes(arguments.push(more)) == argument_bytes(arguments)
                + vstd::utf8::encode_utf8(more@).len(),
{
    assert forall|k: int| 0 <= k < arguments.len() implies (bad_argument((#[trigger] arguments[k])@)
        <==> !(vstd::utf8::encode_utf8(arguments[k]@).len() <= 32_768 && !arguments[k]@.contains(
        '\0',
    ))) by {
    }
    if exists|i: int| 0 <= i < arguments.len() && bad_argument(#[trigger] arguments[i]@) {
        let i = choose|i: int| 0 <= i < arguments.len() && bad_argument(#[trigger] arguments[i]@);
        assert(bad_argument(arguments[i]@));
    } else {
        assert forall|k: int| 0 <= k < arguments.len() implies vstd::utf8::encode_utf8(
            (#[trigger] arguments[k])@,
        ).len() <= 32_768 && !arguments[k]@.contains('\0') by {
            assert(!bad_argument(arguments[k]@));
        }
    }
    assert forall|more: String| #[trigger] argument_bytes(arguments.push(more)) == argument_bytes(
        arguments,
    ) + vstd::utf8::encode_utf8(more@).len() by {
        assert(arguments.push(more).drop_last() =~= arguments);
    }
}

proof fn lemma_networks(networks: Seq<String>, from: int)
    requires
        0 <= from,
    ensures
        ip_networks_verdict(networks, from) is Ok <==> (forall|k: int|
            from <= k < networks.len() ==> ip_network_verdict((#[trigger] networks[k])@) is Ok),
    decreases networks.len() - from,
{
    if from < networks.len() {
        lemma_networks(networks, from + 1);
    }
}

/// A request is accepted exactly where each of its parts is: the protocol, the run, a target below
/// the input directory with its digest, the arguments, a time of one second to one hour, networks
/// only and always with the allow list, the interface, a profile that goes with its mitigations, and
/// the limits.
pub proof fn accepted_requests(request: &GuestRunRequest)
    ensures
        request.verdict() is Ok <==> {
            &&& request.protocol_version == PROTOCOL_VERSION
            &&& run_id_verdict(request.run_id@) is Ok
            &&& wire_path_verdict(request.target@) is Ok
            &&& text::begins(request.target@, "input/"@)
            &&& request.target_sha256 is Some && sha256_verdict(request.target_sha256->0@) is Ok
            &&& arguments_verdict(request.arguments@) is Ok
            &&& 1 <= request.timeout_seconds <= 3600
            &&& request.allowed_networks@.len() <= 128
            &&& request.allowed_networks@.len() > 0 <==> request.network_policy
                == GuestNetworkPolicy::AllowList
            &&& forall|k: int|
                0 <= k < request.allowed_networks@.len() ==> ip_network_verdict(
                    (#[trigger] request.allowed_networks@[k])@,
                ) is Ok
            &&& request.network_verdict() is Ok
            &&& request.execution_profile == GuestExecutionProfile::Restricted
                || request.mitigation_profile == GuestMitigationProfile::Compatible
            &&& request.resource_limits.verdict() is Ok
        },
{
    lemma_networks(request.allowed_networks@, 0);
}

/// Without a network of its own a request sets up no interface at all. Towards the host's service it
/// names a guest address, a prefix and the service at another address of the same subnet, without
/// gateway and resolvers. Towards the internet it names a guest address, a prefix, a gateway of the
/// same subnet and one to eight public resolvers, without a service.
pub proof fn accepted_interfaces(request: &GuestRunRequest)
    ensures
        request.network_policy != GuestNetworkPolicy::HostServer && request.network_policy
            != GuestNetworkPolicy::AllowInternet ==> (request.network_verdict() is Ok <==> {
            &&& request.guest_ipv4 is None
            &&& request.prefix_length is None
            &&& request.gateway_ipv4 is None
            &&& request.dns_servers@.len() == 0
            &&& request.host_service_ipv4 is None
            &&& request.host_service_port is None
        }),
        request.network_policy == GuestNetworkPolicy::HostServer ==> (request.network_verdict() is Ok
            <==> {
            &&& request.guest_ipv4 is Some
            &&& request.prefix_length is Some
            &&& 1 <= request.prefix_length->0 <= 30
            &&& guest_unicast(request.guest_ipv4->0.bits)
            &&& request.guest_ipv4->0.bits != net::subnet_start(
                request.guest_ipv4->0.bits,
                request.prefix_length->0,
            )
            &&& request.guest_ipv4->0.bits != net::subnet_end(
                request.guest_ipv4->0.bits,
                request.prefix_length->0,
            )
            &&& request.host_service_ipv4 is Some
            &&& guest_unicast(request.host_service_ipv4->0.bits)
            &&& request.host_service_ipv4->0.bits != request.guest_ipv4->0.bits
            &&& net::subnet_start(request.host_service_ipv4->0.bits, request.prefix_length->0)
                == net::subnet_start(request.guest_ipv4->0.bits, request.prefix_length->0)
            &&& request.host_service_port is Some && request.host_service_port->0 >= 1
            &&& request.gateway_ipv4 is None
            &&& request.dns_servers@.len() == 0
        }),
        request.network_policy == GuestNetworkPolicy::AllowInternet ==> (request.network_verdict()
            is Ok <==> {
            &&& request.guest_ipv4 is Some
            &&& request.prefix_length is Some
            &&& 1 <= request.prefix_length->0 <= 30
            &&& guest_unicast(request.guest_ipv4->0.bits)
            &&& request.guest_ipv4->0.bits != net::subnet_start(
                request.guest_ipv4->0.bits,
                request.prefix_length->0,
            )
            &&& request.guest_ipv4->0.bits != net::subnet_end(
                request.guest_ipv4->0.bits,
                request.prefix_length->0,
            )
            &&& request.gateway_ipv4 is Some
            &&& guest_unicast(request.gateway_ipv4->0.bits)
            &&& request.gateway_ipv4->0.bits != request.guest_ipv4->0.bits
            &&& net::subnet_start(request.gateway_ipv4->0.bits, request.prefix_length->0)
                == net::subnet_start(request.guest_ipv4->0.bits, request.prefix_length->0)
            &&& 1 <= request.dns_servers@.len() <= 8
            &&& forall|k: int|
                0 <= k < request.dns_servers@.len() ==> public_resolver(
                    (#[trigger] request.dns_servers@[k]).bits,
                )
            &&& request.host_service_ipv4 is None
            &&& request.host_service_port is None
        }),
        request.network_verdict() matches Err(fault) ==> fault.code
            == "invalid_network_configuration"@,
{
}

/// Each state is published by one side, under a name of its own.
pub proof fn states_are_published_under_their_names(state: ProtocolState)
    ensures
        match state {
            ProtocolState::HostReady => state.spec_actor() == ProtocolActor::Host
                && state.spec_file_name() == "host-ready.json"@,
            ProtocolState::RequestWritten => state.spec_actor() == ProtocolActor::Host
                && state.spec_file_name() == "request-written.json"@,
            ProtocolState::StartAllowed => state.spec_actor() == ProtocolActor::Host
                && state.spec_file_name() == "start-allowed.json"@,
            ProtocolState::CancelRequested => state.spec_actor() == ProtocolActor::Host
                && state.spec_file_name() == "cancel-requested.json"@,
            ProtocolState::GuestReady => state.spec_actor() == ProtocolActor::Guest
                && state.spec_file_name() == "guest-ready.json"@,
            ProtocolState::Running => state.spec_actor() == ProtocolActor::Guest
                && state.spec_file_name() == "running.json"@,
            ProtocolState::Completed => state.spec_actor() == ProtocolActor::Guest
                && state.spec_file_name() == "completed.json"@,
            ProtocolState::Failed => state.spec_actor() == ProtocolActor::Guest
                && state.spec_file_name() == "failed.json"@,
            ProtocolState::ShutdownReady => state.spec_actor() == ProtocolActor::Guest
                && state.spec_file_name() == "shutdown-ready.json"@,
        },
{
}

/// A record is accepted on its own exactly where the protocol and the run are named, the sequence
/// number counts from one, the state is its publisher's, the request is authenticated, a failure and
/// only a failure carries an error, and a completion authenticates its result.
pub proof fn accepted_records(record: &StatusRecord)
    ensures
        record.verdict() is Ok <==> {
            &&& record.protocol_version == PROTOCOL_VERSION
            &&& run_id_verdict(record.run_id@) is Ok
            &&& record.sequence >= 1
            &&& record.actor == record.state.spec_actor()
            &&& record.request_sha256 is Some && sha256_verdict(record.request_sha256->0@) is Ok
            &&& record.result_sha256 is Some ==> sha256_verdict(record.result_sha256->0@) is Ok
            &&& record.error is Some <==> record.state == ProtocolState::Failed
            &&& record.error is Some ==> record.error->0.verdict() is Ok
            &&& record.state == ProtocolState::Completed ==> record.result_sha256 is Some
        },
{
}

/// The records of one run ascend, name each state once and keep the order of the protocol: the
/// request after the host is ready; start and readiness, in either order, after the request; the
/// run after both; completion after the run; failure or cancellation any time after the request;
/// and shutdown, alone, after one of these three.
pub proof fn accepted_successors(machine: MachineView, record: &StatusRecord)
    ensures
        machine.verdict(record) is Ok <==> {
            let seen = machine.seen;
            let ended = seen.contains(ProtocolState::Completed) || seen.contains(
                ProtocolState::Failed,
            ) || seen.contains(ProtocolState::CancelRequested);
            &&& record.verdict() is Ok
            &&& record.run_id@ == machine.run_id
            &&& record.sequence > machine.last_sequence
            &&& !seen.contains(record.state)
            &&& record.state != ProtocolState::ShutdownReady ==> !ended && !seen.contains(
                ProtocolState::ShutdownReady,
            )
            &&& match record.state {
                ProtocolState::HostReady => seen == Set::<ProtocolState>::empty(),
                ProtocolState::RequestWritten => seen.contains(ProtocolState::HostReady),
                ProtocolState::StartAllowed => seen.contains(ProtocolState::RequestWritten)
                    && !seen.contains(ProtocolState::Running),
                ProtocolState::GuestReady => seen.contains(ProtocolState::RequestWritten),
                ProtocolState::Running => seen.contains(ProtocolState::GuestReady)
                    && seen.contains(ProtocolState::StartAllowed),
                ProtocolState::Completed => seen.contains(ProtocolState::Running),
                ProtocolState::Failed => seen.contains(ProtocolState::RequestWritten),
                ProtocolState::CancelRequested => seen.contains(ProtocolState::RequestWritten),
                ProtocolState::ShutdownReady => ended,
            }
        },
        machine.after(record).run_id == machine.run_id,
        machine.after(record).last_sequence == record.sequence,
        forall|state: ProtocolState| #[trigger]
            machine.after(record).seen.contains(state) <==> machine.seen.contains(state) || state
                == record.state,
{
}

/// What a capture, an error and an artifact of a result may be.
pub proof fn accepted_parts_of_results(
    coverage: &CaptureCoverage,
    error: &GuestError,
    entry: &ArtifactManifestEntry,
)
    ensures
        coverage.verdict() is Ok <==> (coverage.complete && coverage.requested ==> coverage.collected)
            && warnings_verdict(coverage.warnings@) is Ok,
        error.verdict() is Ok <==> small_field(error.stage@, 128) && small_field(error.code@, 128)
            && small_field(error.message@, 4096),
        entry.verdict() is Ok <==> {
            &&& wire_path_verdict(entry.relative_path@) is Ok
            &&& entry.size_bytes <= 134_217_728
            &&& sha256_verdict(entry.sha256@) is Ok
            &&& small_field(entry.kind@, 64)
        },
{
}

/// A guest's account of its interface is accepted exactly where the interface is named, its addresses
/// are usable and there are neither IPv6 nor unexpected routes.
pub proof fn accepted_attestations(attestation: &GuestNetworkAttestation)
    ensures
        attestation.verdict() is Ok <==> {
            &&& attestation.interface_index >= 1
            &&& small_field(attestation.interface_guid@, 128)
            &&& small_field(attestation.mac_address@, 32)
            &&& guest_unicast(attestation.guest_ipv4.bits)
            &&& 1 <= attestation.prefix_length <= 30
            &&& attestation.gateway_ipv4 is Some ==> guest_unicast(attestation.gateway_ipv4->0.bits)
            &&& attestation.dns_servers@.len() <= 8
            &&& forall|k: int|
                0 <= k < attestation.dns_servers@.len() ==> guest_unicast(
                    (#[trigger] attestation.dns_servers@[k]).bits,
                )
            &&& attestation.ipv6_disabled
            &&& attestation.no_unexpected_routes
        },
{
}

proof fn lemma_entries(artifacts: Seq<ArtifactManifestEntry>, from: int)
    requires
        0 <= from,
    ensures
        artifact_entries_verdict(artifacts, from) is Ok <==> (forall|k: int|
            from <= k < artifacts.len() ==> (#[trigger] artifacts[k]).verdict() is Ok
                && !repeated_path(artifacts, k)),
    decreases artifacts.len() - from,
{
    if from < artifacts.len() {
        lemma_entries(artifacts, from + 1);
    }
}

/// A manifest is accepted exactly where it lists at most 4096 artifacts, each acceptable, no two at
/// one path up to letter case, and of no more than 512 MiB together.
pub proof fn accepted_manifests(artifacts: Seq<ArtifactManifestEntry>)
    ensures
        manifest_verdict(artifacts) is Ok <==> {
            &&& artifacts.len() <= 4096
            &&& forall|k: int|
                0 <= k < artifacts.len() ==> (#[trigger] artifacts[k]).verdict() is Ok
            &&& forall|j: int, k: int|
                0 <= j < k < artifacts.len() ==> text::unicode_lower(
                    (#[trigger] artifacts[j]).relative_path@,
                ) != text::unicode_lower((#[trigger] artifacts[k]).relative_path@)
            &&& artifact_bytes(artifacts) <= 536_870_912
        },
        artifacts.len() == 0 ==> artifact_bytes(artifacts) == 0,
        forall|more: ArtifactManifestEntry| #[trigger]
            artifact_bytes(artifacts.push(more)) == artifact_bytes(artifacts) + more.size_bytes,
{
    lemma_entries(artifacts, 0);
    assert forall|more: ArtifactManifestEntry| #[trigger] artifact_bytes(artifacts.push(more))
        == artifact_bytes(artifacts) + more.size_bytes by {
        assert(artifacts.push(more).drop_last() =~= artifacts);
    }
    if forall|k: int| 0 <= k < artifacts.len() ==> !repeated_path(artifacts, k) {
        assert forall|j: int, k: int| 0 <= j < k < artifacts.len() implies text::unicode_lower(
            (#[trigger] artifacts[j]).relative_path@,
        ) != text::unicode_lower((#[trigger] artifacts[k]).relative_path@) by {
            assert(!repeated_path(artifacts, k));
        }
    }
}

/// A run that came to its end, or to its time's, has an execution and no error; a failed agent has an
/// error and no execution; a cancelled run has neither.
pub proof fn accepted_endings(outcome: GuestTerminalOutcome, has_execution: bool, has_error: bool)
    ensures
        terminal_verdict(outcome, has_execution, has_error) is Ok <==> match outcome {
            GuestTerminalOutcome::Completed => has_execution && !has_error,
            GuestTerminalOutcome::TimedOut => has_execution && !has_error,
            GuestTerminalOutcome::Cancelled => !has_execution && !has_error,
            GuestTerminalOutcome::AgentFailed => !has_execution && has_error,
        },
{
}

/// A result is accepted exactly where each of its parts is.
pub proof fn accepted_results<T>(result: &GuestResultEnvelope<T>)
    ensures
        result.metadata_verdict() is Ok <==> {
            &&& result.protocol_version == PROTOCOL_VERSION
            &&& run_id_verdict(result.run_id@) is Ok
            &&& small_field(result.agent_version@, 128)
            &&& small_field(result.guest_image_version@, 128)
            &&& result.coverage.stdout.verdict() is Ok
            &&& result.coverage.stderr.verdict() is Ok
            &&& result.coverage.processes.verdict() is Ok
            &&& result.coverage.network.verdict() is Ok
            &&& result.coverage.filesystem.verdict() is Ok
            &&& result.coverage.registry.verdict() is Ok
            &&& warnings_verdict(result.warnings@) is Ok
            &&& result.network_attestation is Some ==> result.network_attestation->0.verdict() is Ok
            &&& manifest_verdict(result.artifacts@) is Ok
            &&& result.error is Some ==> result.error->0.verdict() is Ok
            &&& terminal_verdict(result.outcome, result.execution is Some, result.error is Some)
                is Ok
        },
{
}

/// A protocol file is read exactly where it is a plain file within a bound above zero, and what was
/// read of it counts exactly where it is the whole file.
pub proof fn protocol_files_are_plain_and_whole(
    shown: Seq<char>,
    facts: FileFacts,
    maximum: u64,
    read: u64,
)
    ensures
        bounded_file_verdict(shown, facts, maximum) is Ok <==> {
            &&& maximum >= 1
            &&& facts.regular
            &&& !facts.link
            &&& !facts.reparse_point
            &&& facts.len <= maximum
        },
        bounded_bytes_verdict(shown, facts, maximum, read) is Ok <==> read == facts.len && read
            <= maximum,
{
}

/// The protocol is spoken in its second version alone.
pub proof fn accepted_versions(version: u32)
    ensures
        version_verdict(version) is Ok <==> version == 2,
        version_verdict(version) matches Err(fault) ==> fault.code == "unsupported_protocol"@,
{
}

/// A temporary name is hidden, holds the name it stands for, and ends as temporary names do.
pub proof fn temporary_names_hold_the_name(name: Seq<char>, process: nat, counter: nat)
    ensures
        text::begins(temporary_name_text(name, process, counter), "."@ + name + "."@),
        text::ends(
            temporary_name_text(name, process, counter),
            "."@ + text::decimal(process) + "."@ + text::decimal(counter) + ".tmp"@,
        ),
{
    let whole = temporary_name_text(name, process, counter);
    let head = "."@ + name + "."@;
    let tail = "."@ + text::decimal(process) + "."@ + text::decimal(counter) + ".tmp"@;
    assert(whole.take(head.len() as int) =~= head);
    assert(whole.skip(whole.len() - tail.len()) =~= tail);
}

} // verus!
