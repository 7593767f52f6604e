//! Requests, policies, reports and errors that every sandbox backend shares.

use vstd::prelude::*;
use vstd::string::*;

use crate::artifact;
use crate::clock;
use crate::host_path::HostPath;
use crate::net;
use crate::net::{Ipv4Addr, Ipv6Addr};
use crate::structs::SandboxRunResult;
use crate::text;

verus! {

pub type SandboxResult<T> = Result<T, SandboxError>;

// ---------------------------------------------------------------------------------------------
// Errors
// ---------------------------------------------------------------------------------------------

/// A failed stage of a sandbox run. The underlying error is carried as its text.
#[derive(Debug)]
pub struct SandboxError {
    pub stage: &'static str,
    pub message: String,
    pub cause: Option<String>,
}

/// What an error says.
pub struct Fault {
    pub stage: Seq<char>,
    pub message: Seq<char>,
    pub source: Option<Seq<char>>,
}

impl View for SandboxError {
    type V = Fault;

    open spec fn view(&self) -> Fault {
        Fault {
            stage: self.stage@,
            message: self.message@,
            source: match self.cause {
                Some(cause) => Some(cause@),
                None => None,
            },
        }
    }
}

/// An error without an underlying error.
pub open spec fn fault(stage: Seq<char>, message: Seq<char>) -> Fault {
    Fault { stage, message, source: None }
}

/// An error with the text of its underlying error.
pub open spec fn fault_from(stage: Seq<char>, message: Seq<char>, source: Seq<char>) -> Fault {
    Fault { stage, message, source: Some(source) }
}

/// A result with what its error says in place of the error.
pub open spec fn outcome<T>(result: SandboxResult<T>) -> Result<T, Fault> {
    match result {
        Ok(value) => Ok(value),
        Err(error) => Err(error@),
    }
}

/// The first verdict that is not `Ok`.
pub open spec fn both(first: Result<(), Fault>, second: Result<(), Fault>) -> Result<(), Fault> {
    match first {
        Ok(_) => second,
        Err(error) => Err(error),
    }
}

/// The line that shows an error: stage and message, then the underlying error.
pub open spec fn fault_text(fault: Fault) -> Seq<char> {
    match fault.source {
        Some(source) => fault.stage + ": "@ + fault.message + ": "@ + source,
        None => fault.stage + ": "@ + fault.message,
    }
}

impl SandboxError {
    pub fn new(stage: &'static str, message: &str) -> (error: SandboxError)
        ensures
            error@ == fault(stage@, message@),
            error.stage@ == stage@,
            error.message@ == message@,
            error.cause is None,
    {
        SandboxError { stage, message: message.to_owned(), cause: None }
    }

    /// An error caused by another one, given by its text.
    pub fn with_source(stage: &'static str, message: &str, source: &str) -> (error: SandboxError)
        ensures
            error@ == fault_from(stage@, message@, source@),
    {
        SandboxError { stage, message: message.to_owned(), cause: Some(source.to_owned()) }
    }

    pub fn duplicate(&self) -> (copy: SandboxError)
        ensures
            copy@ == self@,
    {
        SandboxError {
            stage: self.stage,
            message: self.message.clone(),
            cause: text::clone_option(&self.cause),
        }
    }

    /// The text of the underlying error.
    pub fn source(&self) -> (source: Option<&str>)
        ensures
            match (source, self@.source) {
                (Some(found), Some(expected)) => found@ == expected,
                (None, None) => true,
                _ => false,
            },
    {
        match &self.cause {
            Some(cause) => Some(cause.as_str()),
            None => None,
        }
    }

    pub fn to_string(&self) -> (shown: String)
        ensures
            shown@ == fault_text(self@),
    {
        match &self.cause {
            Some(cause) => text::cat5(self.stage, ": ", self.message.as_str(), ": ", cause.as_str()),
            None => text::cat3(self.stage, ": ", self.message.as_str()),
        }
    }
}

// ---------------------------------------------------------------------------------------------
// Kinds and profiles
// ---------------------------------------------------------------------------------------------

#[derive(Clone, Copy, Debug, PartialEq, Eq, Structural)]
pub enum BackendKind {
    RestrictedProcess,
    HyperV,
}

impl BackendKind {
    pub open spec fn spec_name(self) -> Seq<char> {
        match self {
            BackendKind::RestrictedProcess => "restricted_process"@,
            BackendKind::HyperV => "hyperv"@,
        }
    }

    pub fn name(&self) -> (name: &'static str)
        ensures
            name@ == self.spec_name(),
    {
        match self {
            BackendKind::RestrictedProcess => "restricted_process",
            BackendKind::HyperV => "hyperv",
        }
    }

    pub fn to_string(&self) -> (shown: String)
        ensures
            shown@ == self.spec_name(),
    {
        self.name().to_owned()
    }
}

#[derive(Clone, Copy, Debug, PartialEq, Eq, Structural)]
pub enum MitigationProfile {
    Compatible,
    Strict,
    Maximum,
}

impl MitigationProfile {
    pub open spec fn spec_name(self) -> Seq<char> {
        match self {
            MitigationProfile::Compatible => "compatible"@,
            MitigationProfile::Strict => "strict"@,
            MitigationProfile::Maximum => "maximum"@,
        }
    }

    pub fn to_string(&self) -> (shown: String)
        ensures
            shown@ == self.spec_name(),
    {
        match self {
            MitigationProfile::Compatible => "compatible".to_owned(),
            MitigationProfile::Strict => "strict".to_owned(),
            MitigationProfile::Maximum => "maximum".to_owned(),
        }
    }
}

#[derive(Clone, Copy, Debug, PartialEq, Eq, Structural)]
pub enum HyperVGuestProfile {
    Restricted,
    Normal,
    Admin,
}

impl Default for HyperVGuestProfile {
    fn default() -> (profile: HyperVGuestProfile)
        ensures
            profile == HyperVGuestProfile::Restricted,
    {
        HyperVGuestProfile::Restricted
    }
}

impl HyperVGuestProfile {
    pub open spec fn spec_name(self) -> Seq<char> {
        match self {
            HyperVGuestProfile::Restricted => "restricted"@,
            HyperVGuestProfile::Normal => "normal"@,
            HyperVGuestProfile::Admin => "admin"@,
        }
    }

    pub fn to_string(&self) -> (shown: String)
        ensures
            shown@ == self.spec_name(),
    {
        match self {
            HyperVGuestProfile::Restricted => "restricted".to_owned(),
            HyperVGuestProfile::Normal => "normal".to_owned(),
            HyperVGuestProfile::Admin => "admin".to_owned(),
        }
    }
}

#[derive(Clone, Debug, PartialEq, Eq)]
pub enum NetworkPolicy {
    DenyAll,
    HostServer,
    AllowList(Vec<IpNetwork>),
    AllowInternet,
    CaptureOnly,
}

impl NetworkPolicy {
    pub open spec fn spec_name(self) -> Seq<char> {
        match self {
            NetworkPolicy::DenyAll => "deny_all"@,
            NetworkPolicy::HostServer => "host_server"@,
            NetworkPolicy::AllowList(_) => "allow_list"@,
            NetworkPolicy::AllowInternet => "allow_internet"@,
            NetworkPolicy::CaptureOnly => "capture_only"@,
        }
    }

    pub fn name(&self) -> (name: &'static str)
        ensures
            name@ == self.spec_name(),
    {
        match self {
            NetworkPolicy::DenyAll => "deny_all",
            NetworkPolicy::HostServer => "host_server",
            NetworkPolicy::AllowList(_) => "allow_list",
            NetworkPolicy::AllowInternet => "allow_internet",
            NetworkPolicy::CaptureOnly => "capture_only",
        }
    }

    pub fn needs_internet_capability(&self) -> (needed: bool)
        ensures
            needed == (self is AllowList || self is AllowInternet || self is CaptureOnly),
    {
        match self {
            NetworkPolicy::AllowList(_) => true,
            NetworkPolicy::AllowInternet => true,
            NetworkPolicy::CaptureOnly => true,
            _ => false,
        }
    }
}

// ---------------------------------------------------------------------------------------------
// Allow-list networks
// ---------------------------------------------------------------------------------------------

#[derive(Clone, Copy, Debug, PartialEq, Eq)]
pub enum IpNetwork {
    V4 { address: Ipv4Addr, prefix: u8 },
    V6 { address: Ipv6Addr, prefix: u8 },
}

pub enum NetworkView {
    V4(nat, nat),
    V6(Seq<u16>, nat),
}

impl View for IpNetwork {
    type V = NetworkView;

    open spec fn view(&self) -> NetworkView {
        match self {
            IpNetwork::V4 { address, prefix } => NetworkView::V4(address.bits as nat, *prefix as nat),
            IpNetwork::V6 { address, prefix } => NetworkView::V6(address.segments@, *prefix as nat),
        }
    }
}

/// The address and the prefix length with a slash between them.
pub open spec fn network_text(network: NetworkView) -> Seq<char> {
    match network {
        NetworkView::V4(bits, prefix) => net::ipv4_text(bits as u32) + "/"@ + text::decimal(prefix),
        NetworkView::V6(segments, prefix) => net::ipv6_text(segments) + "/"@ + text::decimal(prefix),
    }
}

/// The prefix length of an entry: `maximum` where none is written.
pub open spec fn prefix_value(
    prefix: Option<Seq<char>>,
    maximum: nat,
    original: Seq<char>,
) -> Result<nat, Fault> {
    match prefix {
        None => Ok(maximum),
        Some(numeral) => match net::u8_value(numeral) {
            None => Err(
                fault("request_validation"@, "allow-list entry has an invalid prefix: "@ + original),
            ),
            Some(value) => if value > maximum {
                Err(
                    fault(
                        "request_validation"@,
                        "allow-list prefix exceeds /"@ + text::decimal(maximum) + ": "@ + original,
                    ),
                )
            } else {
                Ok(value)
            },
        },
    }
}

/// What stands before the last slash of an entry.
pub open spec fn entry_address(entry: Seq<char>) -> Seq<char> {
    let slash = text::last_index(entry, '/');
    if slash < 0 {
        entry
    } else {
        entry.take(slash)
    }
}

/// What stands behind the last slash of an entry.
pub open spec fn entry_prefix(entry: Seq<char>) -> Option<Seq<char>> {
    let slash = text::last_index(entry, '/');
    if slash < 0 {
        None
    } else {
        Some(entry.skip(slash + 1))
    }
}

/// The network that an allow-list entry denotes, an address standing for the network of itself.
pub open spec fn network_value(entry: Seq<char>) -> Result<NetworkView, Fault> {
    match net::ipv4_value(entry_address(entry)) {
        Some(bits) => match prefix_value(entry_prefix(entry), 32, entry) {
            Ok(prefix) => Ok(NetworkView::V4(bits, prefix)),
            Err(error) => Err(error),
        },
        None => match net::ipv6_value(entry_address(entry)) {
            Some(segments) => match prefix_value(entry_prefix(entry), 128, entry) {
                Ok(prefix) => Ok(NetworkView::V6(segments, prefix)),
                Err(error) => Err(error),
            },
            None => Err(
                fault(
                    "request_validation"@,
                    "allow-list entry is not an IPv4/IPv6 address or CIDR: "@ + entry,
                ),
            ),
        },
    }
}

pub fn parse_prefix(prefix: Option<&str>, maximum: u8, original: &str) -> (parsed: SandboxResult<u8>)
    ensures
        match (prefix, parsed) {
            (None, Ok(value)) => value == maximum,
            (None, Err(_)) => false,
            (Some(numeral), Ok(value)) => prefix_value(Some(numeral@), maximum as nat, original@)
                == Ok::<nat, Fault>(value as nat),
            (Some(numeral), Err(error)) => prefix_value(Some(numeral@), maximum as nat, original@)
                == Err::<nat, Fault>(error@),
        },
{
    match prefix {
        None => Ok(maximum),
        Some(numeral) => match net::parse_u8(numeral) {
            None => {
                let message = text::cat2("allow-list entry has an invalid prefix: ", original);
                Err(SandboxError::new("request_validation", message.as_str()))
            },
            Some(value) => {
                if value > maximum {
                    let shown = text::decimal_text(maximum as u64);
                    let message = text::cat4(
                        "allow-list prefix exceeds /",
                        shown.as_str(),
                        ": ",
                        original,
                    );
                    Err(SandboxError::new("request_validation", message.as_str()))
                } else {
                    Ok(value)
                }
            },
        },
    }
}

impl IpNetwork {
    pub fn to_string(&self) -> (shown: String)
        ensures
            shown@ == network_text(self@),
    {
        match self {
            IpNetwork::V4 { address, prefix } => {
                let address = address.to_string();
                let prefix = text::decimal_text(*prefix as u64);
                text::cat3(address.as_str(), "/", prefix.as_str())
            },
            IpNetwork::V6 { address, prefix } => {
                let address = address.to_string();
                let prefix = text::decimal_text(*prefix as u64);
                text::cat3(address.as_str(), "/", prefix.as_str())
            },
        }
    }

    /// The network that an allow-list entry denotes.
    pub fn from_str(entry: &str) -> (parsed: SandboxResult<IpNetwork>)
        ensures
            match parsed {
                Ok(network) => network_value(entry@) == Ok::<NetworkView, Fault>(network@),
                Err(error) => network_value(entry@) == Err::<NetworkView, Fault>(error@),
            },
    {
        let chars = text::chars_of(entry);
        let count: usize = chars.len();
        let address: String;
        let numeral: String;
        let prefix: Option<&str>;
        match text::find_last(&chars, '/') {
            Some(slash) => {
                address = text::string_of(&chars, 0, slash);
                numeral = text::string_of(&chars, slash + 1, count);
                prefix = Some(numeral.as_str());
                proof {
                    assert(address@ =~= entry@.take(slash as int));
                    assert(numeral@ =~= entry@.skip(slash + 1));
                }
            },
            None => {
                address = entry.to_owned();
                prefix = None;
            },
        }
        match Ipv4Addr::parse(address.as_str()) {
            Some(address) => match parse_prefix(prefix, 32, entry) {
                Ok(prefix) => Ok(IpNetwork::V4 { address, prefix }),
                Err(error) => Err(error),
            },
            None => match Ipv6Addr::parse(address.as_str()) {
                Some(address) => match parse_prefix(prefix, 128, entry) {
                    Ok(prefix) => Ok(IpNetwork::V6 { address, prefix }),
                    Err(error) => Err(error),
                },
                None => {
                    let message = text::cat2(
                        "allow-list entry is not an IPv4/IPv6 address or CIDR: ",
                        entry,
                    );
                    Err(SandboxError::new("request_validation", message.as_str()))
                },
            },
        }
    }
}

impl std::str::FromStr for IpNetwork {
    type Err = SandboxError;

    fn from_str(entry: &str) -> Result<IpNetwork, SandboxError> {
        IpNetwork::from_str(entry)
    }
}

// ---------------------------------------------------------------------------------------------
// Requests
// ---------------------------------------------------------------------------------------------

#[derive(Clone, Copy, Debug, PartialEq, Eq, Structural)]
pub enum MappedPathAccess {
    ReadOnly,
    ReadWrite,
}

#[derive(Clone, Debug, PartialEq, Eq)]
pub struct MappedPath {
    pub host_path: HostPath,
    pub guest_name: String,
    pub access: MappedPathAccess,
}

#[derive(Clone, Copy, Debug, PartialEq, Eq, Structural)]
pub struct ResourceLimits {
    pub active_process_limit: u32,
    pub process_memory_bytes: usize,
    pub job_memory_bytes: usize,
    pub cpu_rate_percent: u32,
}

impl Default for ResourceLimits {
    fn default() -> (limits: ResourceLimits)
        ensures
            limits.active_process_limit == 32,
            limits.process_memory_bytes == 268_435_456,
            limits.job_memory_bytes == 536_870_912,
            limits.cpu_rate_percent == 50,
    {
        ResourceLimits {
            active_process_limit: 32,
            process_memory_bytes: 268_435_456,
            job_memory_bytes: 536_870_912,
            cpu_rate_percent: 50,
        }
    }
}

#[derive(Clone, Debug, PartialEq, Eq)]
pub struct SandboxRequest {
    pub target: HostPath,
    pub arguments: Vec<String>,
    pub timeout_secs: u64,
    pub network_policy: NetworkPolicy,
    pub backend: BackendKind,
    pub resource_limits: ResourceLimits,
    pub mitigation_profile: MitigationProfile,
    pub hyperv_guest_profile: HyperVGuestProfile,
    pub mapped_paths: Vec<MappedPath>,
    pub dry_run: bool,
}

/// Both policies are the same.
pub open spec fn same_policy(left: NetworkPolicy, right: NetworkPolicy) -> bool {
    match (left, right) {
        (NetworkPolicy::AllowList(these), NetworkPolicy::AllowList(those)) => network_views(these@)
            == network_views(those@),
        (NetworkPolicy::AllowList(_), _) => false,
        (_, NetworkPolicy::AllowList(_)) => false,
        _ => left == right,
    }
}

fn is_same_policy(left: &NetworkPolicy, right: &NetworkPolicy) -> (same: bool)
    ensures
        same == same_policy(*left, *right),
{
    match (left, right) {
        (NetworkPolicy::DenyAll, NetworkPolicy::DenyAll) => true,
        (NetworkPolicy::HostServer, NetworkPolicy::HostServer) => true,
        (NetworkPolicy::AllowInternet, NetworkPolicy::AllowInternet) => true,
        (NetworkPolicy::CaptureOnly, NetworkPolicy::CaptureOnly) => true,
        (NetworkPolicy::AllowList(these), NetworkPolicy::AllowList(those)) => are_same_networks(
            these,
            those,
        ),
        _ => false,
    }
}

pub open spec fn network_views(networks: Seq<IpNetwork>) -> Seq<NetworkView> {
    networks.map_values(|network: IpNetwork| network@)
}

fn is_same_network(left: &IpNetwork, right: &IpNetwork) -> (same: bool)
    ensures
        same == (left@ == right@),
{
    match (left, right) {
        (IpNetwork::V4 { address: a, prefix: p }, IpNetwork::V4 { address: b, prefix: q }) => a.bits
            == b.bits && *p == *q,
        (IpNetwork::V6 { address: a, prefix: p }, IpNetwork::V6 { address: b, prefix: q }) => *p
            == *q && are_same_segments(&a.segments, &b.segments),
        _ => false,
    }
}

fn are_same_segments(left: &[u16; 8], right: &[u16; 8]) -> (same: bool)
    ensures
        same == (left@ == right@),
{
    let mut i: usize = 0;
    while i < 8
        invariant
            i <= 8,
            forall|j: int| 0 <= j < i ==> left@[j] == right@[j],
        decreases 8 - i,
    {
        if left[i] != right[i] {
            return false;
        }
        i = i + 1;
    }
    proof {
        assert(left@ =~= right@);
    }
    true
}

fn are_same_networks(left: &Vec<IpNetwork>, right: &Vec<IpNetwork>) -> (same: bool)
    ensures
        same == (network_views(left@) == network_views(right@)),
{
    if left.len() != right.len() {
        proof {
            assert(network_views(left@).len() == left@.len());
            assert(network_views(right@).len() == right@.len());
        }
        return false;
    }
    let mut i: usize = 0;
    while i < left.len()
        invariant
            i <= left@.len(),
            left@.len() == right@.len(),
            forall|j: int| 0 <= j < i ==> left@[j]@ == right@[j]@,
        decreases left@.len() - i,
    {
        if !is_same_network(&left[i], &right[i]) {
            proof {
                assert(network_views(left@)[i as int] != network_views(right@)[i as int]);
            }
            return false;
        }
        i = i + 1;
    }
    proof {
        assert(network_views(left@) =~= network_views(right@));
    }
    true
}

/// Both mappings are the same.
pub open spec fn same_mapping(left: MappedPath, right: MappedPath) -> bool {
    &&& left.host_path.equals(&right.host_path)
    &&& left.guest_name@ == right.guest_name@
    &&& left.access == right.access
}

pub open spec fn same_mappings(left: Seq<MappedPath>, right: Seq<MappedPath>) -> bool {
    &&& left.len() == right.len()
    &&& forall|i: int| 0 <= i < left.len() ==> same_mapping(#[trigger] left[i], right[i])
}

fn are_same_mappings(left: &Vec<MappedPath>, right: &Vec<MappedPath>) -> (same: bool)
    ensures
        same == same_mappings(left@, right@),
{
    if left.len() != right.len() {
        return false;
    }
    let mut i: usize = 0;
    while i < left.len()
        invariant
            i <= left@.len(),
            left@.len() == right@.len(),
            forall|j: int| 0 <= j < i ==> same_mapping(#[trigger] left@[j], right@[j]),
        decreases left@.len() - i,
    {
        if !left[i].host_path.is_equal(&right[i].host_path) || !text::same_text(
            left[i].guest_name.as_str(),
            right[i].guest_name.as_str(),
        ) || left[i].access != right[i].access {
            proof {
                assert(!same_mapping(left@[i as int], right@[i as int]));
            }
            return false;
        }
        i = i + 1;
    }
    true
}

impl SandboxRequest {
    /// Both requests ask for the same.
    pub open spec fn same(&self, other: &SandboxRequest) -> bool {
        &&& self.target.equals(&other.target)
        &&& text::views(self.arguments@) == text::views(other.arguments@)
        &&& self.timeout_secs == other.timeout_secs
        &&& same_policy(self.network_policy, other.network_policy)
        &&& self.backend == other.backend
        &&& self.resource_limits == other.resource_limits
        &&& self.mitigation_profile == other.mitigation_profile
        &&& self.hyperv_guest_profile == other.hyperv_guest_profile
        &&& same_mappings(self.mapped_paths@, other.mapped_paths@)
        &&& self.dry_run == other.dry_run
    }

    pub fn is_same(&self, other: &SandboxRequest) -> (same: bool)
        ensures
            same == self.same(other),
    {
        self.target.is_equal(&other.target) && text::same_list(&self.arguments, &other.arguments)
            && self.timeout_secs == other.timeout_secs && is_same_policy(
            &self.network_policy,
            &other.network_policy,
        ) && self.backend == other.backend && self.resource_limits == other.resource_limits
            && self.mitigation_profile == other.mitigation_profile && self.hyperv_guest_profile
            == other.hyperv_guest_profile && are_same_mappings(
            &self.mapped_paths,
            &other.mapped_paths,
        ) && self.dry_run == other.dry_run
    }
}

/// The name of mapping `index` is unsafe, or an earlier mapping has it up to letter case.
pub open spec fn bad_mapping(mappings: Seq<MappedPath>, index: int) -> bool {
    ||| !artifact::safe_windows_name(mappings[index].guest_name@)
    ||| exists|earlier: int|
        0 <= earlier < index && text::same_ignoring_case(
            #[trigger] mappings[earlier].guest_name@,
            mappings[index].guest_name@,
        )
}

/// The first bad mapping from `from` on.
pub open spec fn first_bad_mapping(mappings: Seq<MappedPath>, from: int) -> Option<int>
    decreases mappings.len() - from,
{
    if from >= mappings.len() {
        None
    } else if bad_mapping(mappings, from) {
        Some(from)
    } else {
        first_bad_mapping(mappings, from + 1)
    }
}

impl ResourceLimits {
    /// Every limit is set and the CPU rate is a percentage.
    pub open spec fn nonzero(&self) -> bool {
        &&& self.active_process_limit > 0
        &&& self.process_memory_bytes > 0
        &&& self.job_memory_bytes > 0
        &&& 1 <= self.cpu_rate_percent <= 100
    }
}

impl SandboxRequest {
    /// What is wrong with the request whatever the backend, or `Ok`.
    pub open spec fn common_verdict(&self) -> Result<(), Fault> {
        if self.timeout_secs == 0 {
            Err(fault("request_validation"@, "timeout must be at least one second"@))
        } else if !self.resource_limits.nonzero() {
            Err(
                fault(
                    "request_validation"@,
                    "resource limits must be non-zero and CPU rate must be between 1 and 100"@,
                ),
            )
        } else if self.resource_limits.job_memory_bytes < self.resource_limits.process_memory_bytes {
            Err(
                fault(
                    "request_validation"@,
                    "job memory limit cannot be smaller than the per-process memory limit"@,
                ),
            )
        } else if self.backend != BackendKind::HyperV && self.hyperv_guest_profile
            != HyperVGuestProfile::Restricted {
            Err(
                fault(
                    "request_validation"@,
                    "normal and admin guest profiles require the Hyper-V backend"@,
                ),
            )
        } else if self.backend != BackendKind::HyperV && self.network_policy is HostServer {
            Err(
                fault(
                    "request_validation"@,
                    "host-server networking is supported only by the Hyper-V backend"@,
                ),
            )
        } else if self.hyperv_guest_profile != HyperVGuestProfile::Restricted
            && self.mitigation_profile != MitigationProfile::Compatible {
            Err(
                fault(
                    "request_validation"@,
                    "normal and admin guest profiles currently require the compatible mitigation profile"@,
                ),
            )
        } else {
            match first_bad_mapping(self.mapped_paths@, 0) {
                Some(index) => Err(
                    fault(
                        "request_validation"@,
                        "invalid or duplicate mapped-path name: "@
                            + self.mapped_paths@[index].guest_name@,
                    ),
                ),
                None => Ok(()),
            }
        }
    }

    /// What is wrong with the request for the backend `expected`, or `Ok`.
    pub open spec fn backend_verdict(&self, expected: BackendKind) -> Result<(), Fault> {
        match self.common_verdict() {
            Err(error) => Err(error),
            Ok(_) => if self.backend != expected {
                Err(
                    fault(
                        "request_validation"@,
                        expected.spec_name() + " backend received a request for "@
                            + self.backend.spec_name(),
                    ),
                )
            } else {
                Ok(())
            },
        }
    }

    pub fn restricted(target: HostPath) -> (request: SandboxRequest)
        ensures
            request.target == target,
            request.arguments@.len() == 0,
            request.timeout_secs == 30,
            request.network_policy == NetworkPolicy::DenyAll,
            request.backend == BackendKind::RestrictedProcess,
            request.resource_limits.active_process_limit == 32,
            request.resource_limits.process_memory_bytes == 268_435_456,
            request.resource_limits.job_memory_bytes == 536_870_912,
            request.resource_limits.cpu_rate_percent == 50,
            request.mitigation_profile == MitigationProfile::Compatible,
            request.hyperv_guest_profile == HyperVGuestProfile::Restricted,
            request.mapped_paths@.len() == 0,
            !request.dry_run,
            request.common_verdict() is Ok,
    {
        SandboxRequest {
            target,
            arguments: Vec::new(),
            timeout_secs: 30,
            network_policy: NetworkPolicy::DenyAll,
            backend: BackendKind::RestrictedProcess,
            resource_limits: ResourceLimits::default(),
            mitigation_profile: MitigationProfile::Compatible,
            hyperv_guest_profile: HyperVGuestProfile::Restricted,
            mapped_paths: Vec::new(),
            dry_run: false,
        }
    }

    pub fn hyperv(target: HostPath) -> (request: SandboxRequest)
        ensures
            request.target == target,
            request.arguments@.len() == 0,
            request.timeout_secs == 30,
            request.network_policy == NetworkPolicy::DenyAll,
            request.backend == BackendKind::HyperV,
            request.resource_limits.active_process_limit == 32,
            request.resource_limits.process_memory_bytes == 268_435_456,
            request.resource_limits.job_memory_bytes == 536_870_912,
            request.resource_limits.cpu_rate_percent == 50,
            request.mitigation_profile == MitigationProfile::Compatible,
            request.hyperv_guest_profile == HyperVGuestProfile::Restricted,
            request.mapped_paths@.len() == 0,
            !request.dry_run,
            request.backend_verdict(BackendKind::HyperV) is Ok,
    {
        let mut request = SandboxRequest::restricted(target);
        request.backend = BackendKind::HyperV;
        request
    }

    pub fn validate(&self) -> (verdict: SandboxResult<()>)
        ensures
            outcome(verdict) == self.common_verdict(),
    {
        self.validate_common()
    }

    pub fn validate_common(&self) -> (verdict: SandboxResult<()>)
        ensures
            outcome(verdict) == self.common_verdict(),
    {
        if self.timeout_secs == 0 {
            return Err(
                SandboxError::new("request_validation", "timeout must be at least one second"),
            );
        }
        let limits = &self.resource_limits;
        if limits.active_process_limit == 0 || limits.process_memory_bytes == 0
            || limits.job_memory_bytes == 0 || limits.cpu_rate_percent < 1 || limits.cpu_rate_percent
            > 100 {
            return Err(
                SandboxError::new(
                    "request_validation",
                    "resource limits must be non-zero and CPU rate must be between 1 and 100",
                ),
            );
        }
        if limits.job_memory_bytes < limits.process_memory_bytes {
            return Err(
                SandboxError::new(
                    "request_validation",
                    "job memory limit cannot be smaller than the per-process memory limit",
                ),
            );
        }
        if self.backend != BackendKind::HyperV && self.hyperv_guest_profile
            != HyperVGuestProfile::Restricted {
            return Err(
                SandboxError::new(
                    "request_validation",
                    "normal and admin guest profiles require the Hyper-V backend",
                ),
            );
        }
        if self.backend != BackendKind::HyperV && matches!(self.network_policy, NetworkPolicy::HostServer) {
            return Err(
                SandboxError::new(
                    "request_validation",
                    "host-server networking is supported only by the Hyper-V backend",
                ),
            );
        }
        if self.hyperv_guest_profile != HyperVGuestProfile::Restricted && self.mitigation_profile
            != MitigationProfile::Compatible {
            return Err(
                SandboxError::new(
                    "request_validation",
                    "normal and admin guest profiles currently require the compatible mitigation profile",
                ),
            );
        }
        let mut names: Vec<String> = Vec::new();
        let mut i: usize = 0;
        while i < self.mapped_paths.len()
            invariant
                i <= self.mapped_paths@.len(),
                names@.len() == i,
                forall|j: int|
                    0 <= j < i ==> #[trigger] names@[j]@ == text::lower(
                        self.mapped_paths@[j].guest_name@,
                    ),
                first_bad_mapping(self.mapped_paths@, 0) == first_bad_mapping(
                    self.mapped_paths@,
                    i as int,
                ),
                first_bad_mapping(self.mapped_paths@, 0) is None ==> self.common_verdict() is Ok,
                first_bad_mapping(self.mapped_paths@, 0) matches Some(index)
                    ==> self.common_verdict() == Err::<(), Fault>(
                    fault(
                        "request_validation"@,
                        "invalid or duplicate mapped-path name: "@
                            + self.mapped_paths@[index].guest_name@,
                    ),
                ),
            decreases self.mapped_paths@.len() - i,
        {
            let name = &self.mapped_paths[i].guest_name;
            let folded = text::to_lower(name.as_str());
            let known = list_contains(&names, folded.as_str());
            proof {
                if known {
                    let j = choose|j: int| 0 <= j < names@.len() && #[trigger] names@[j]@ == folded@;
                    assert(text::same_ignoring_case(
                        self.mapped_paths@[j].guest_name@,
                        self.mapped_paths@[i as int].guest_name@,
                    ));
                } else {
                    assert forall|j: int| 0 <= j < i implies !text::same_ignoring_case(
                        #[trigger] self.mapped_paths@[j].guest_name@,
                        self.mapped_paths@[i as int].guest_name@,
                    ) by {
                        assert(names@[j]@ != folded@);
                    }
                }
            }
            if known || !artifact::is_safe_windows_name(name.as_str()) {
                let message = text::cat2("invalid or duplicate mapped-path name: ", name.as_str());
                return Err(SandboxError::new("request_validation", message.as_str()));
            }
            names.push(folded);
            i = i + 1;
        }
        Ok(())
    }

    pub fn validate_for_backend(&self, expected: BackendKind) -> (verdict: SandboxResult<()>)
        ensures
            outcome(verdict) == self.backend_verdict(expected),
    {
        match self.validate_common() {
            Err(error) => Err(error),
            Ok(_) => {
                if self.backend != expected {
                    let message = text::cat3(
                        expected.name(),
                        " backend received a request for ",
                        self.backend.name(),
                    );
                    Err(SandboxError::new("request_validation", message.as_str()))
                } else {
                    Ok(())
                }
            },
        }
    }
}

/// Whether some string of `list` has the characters of `wanted`.
pub fn list_contains(list: &Vec<String>, wanted: &str) -> (found: bool)
    ensures
        found == (exists|i: int| 0 <= i < list@.len() && #[trigger] list@[i]@ == wanted@),
{
    let mut i: usize = 0;
    while i < list.len()
        invariant
            i <= list@.len(),
            forall|j: int| 0 <= j < i ==> #[trigger] list@[j]@ != wanted@,
        decreases list@.len() - i,
    {
        if text::same_text(list[i].as_str(), wanted) {
            return true;
        }
        i = i + 1;
    }
    false
}

// ---------------------------------------------------------------------------------------------
// Reports
// ---------------------------------------------------------------------------------------------

#[derive(Clone, Copy, Debug, PartialEq, Eq, Structural)]
pub enum BackendState {
    Created,
    Preparing,
    Ready,
    Running,
    Completed,
    Failed,
    Cleaning,
    Finished,
}

#[derive(Clone, Debug, PartialEq, Eq)]
pub struct ReportStage {
    pub stage: String,
    pub start_time_unix_ms: u64,
    pub end_time_unix_ms: u64,
    pub duration_ms: u64,
    pub success: bool,
    pub warnings: Vec<String>,
    pub errors: Vec<String>,
}

impl ReportStage {
    /// The stage does not end before it starts.
    pub open spec fn well_timed(&self) -> bool {
        self.start_time_unix_ms <= self.end_time_unix_ms
    }

    /// The times of a stage that began at `start`, for the given readings of the two clocks at its
    /// end: the end is never before the start, and the duration is the time that passed.
    pub open spec fn measured(&self, start: u64, now: u64, elapsed: u128) -> bool {
        &&& self.start_time_unix_ms == start
        &&& self.end_time_unix_ms == if now >= start {
            now
        } else {
            start
        }
        &&& self.duration_ms == clock::clamped(elapsed as nat)
    }

    /// The stage began at `start`, and its end and its duration are what the clocks read then.
    pub open spec fn timed_from(&self, start: u64) -> bool {
        exists|now: u64, elapsed: u128| #[trigger] self.measured(start, now, elapsed)
    }

    /// A stage that took no time, at the present moment.
    pub fn instant(stage: &str, success: bool) -> (report: ReportStage)
        ensures
            report.stage@ == stage@,
            report.start_time_unix_ms == report.end_time_unix_ms,
            report.duration_ms == 0,
            report.success == success,
            report.warnings@.len() == 0,
            report.errors@.len() == 0,
    {
        ReportStage::instant_at(stage, success, clock::unix_time_ms())
    }

    /// A stage that took no time, at the given moment.
    pub fn instant_at(stage: &str, success: bool, now: u64) -> (report: ReportStage)
        ensures
            report.stage@ == stage@,
            report.start_time_unix_ms == now,
            report.end_time_unix_ms == now,
            report.duration_ms == 0,
            report.success == success,
            report.warnings@.len() == 0,
            report.errors@.len() == 0,
    {
        ReportStage {
            stage: stage.to_owned(),
            start_time_unix_ms: now,
            end_time_unix_ms: now,
            duration_ms: 0,
            success,
            warnings: Vec::new(),
            errors: Vec::new(),
        }
    }
}

/// No stage ends before it starts.
pub open spec fn all_well_timed(stages: Seq<ReportStage>) -> bool {
    forall|i: int| 0 <= i < stages.len() ==> (#[trigger] stages[i]).well_timed()
}

pub struct StageTimer {
    pub stage: String,
    pub started_at: std::time::Instant,
    pub start_time_unix_ms: u64,
}

impl StageTimer {
    pub fn start(stage: &str) -> (timer: StageTimer)
        ensures
            timer.stage@ == stage@,
    {
        StageTimer {
            stage: stage.to_owned(),
            started_at: clock::instant_now(),
            start_time_unix_ms: clock::unix_time_ms(),
        }
    }

    /// The report of the stage that ends now.
    pub fn finish(self, success: bool, warnings: Vec<String>, errors: Vec<String>) -> (report:
        ReportStage)
        ensures
            report.stage == self.stage,
            report.timed_from(self.start_time_unix_ms),
            report.start_time_unix_ms == self.start_time_unix_ms,
            report.well_timed(),
            report.success == success,
            report.warnings == warnings,
            report.errors == errors,
    {
        let now: u64 = clock::unix_time_ms();
        let elapsed: u128 = clock::elapsed_millis(&self.started_at);
        let start: u64 = self.start_time_unix_ms;
        let report = self.finish_at(now, elapsed, success, warnings, errors);
        proof {
            assert(report.measured(start, now, elapsed));
        }
        report
    }

    /// The report of the stage, for the given readings of the two clocks.
    pub fn finish_at(
        self,
        now: u64,
        elapsed: u128,
        success: bool,
        warnings: Vec<String>,
        errors: Vec<String>,
    ) -> (report: ReportStage)
        ensures
            report.stage == self.stage,
            report.measured(self.start_time_unix_ms, now, elapsed),
            report.success == success,
            report.warnings == warnings,
            report.errors == errors,
    {
        let end_time_unix_ms: u64 = if now >= self.start_time_unix_ms {
            now
        } else {
            self.start_time_unix_ms
        };
        ReportStage {
            stage: self.stage,
            start_time_unix_ms: self.start_time_unix_ms,
            end_time_unix_ms,
            duration_ms: clock::clamp_millis(elapsed),
            success,
            warnings,
            errors,
        }
    }
}

#[derive(Clone, Debug, PartialEq, Eq)]
pub enum BackendMetadata {
    RestrictedProcess {
        profile_name: Option<String>,
        integrity_level: String,
        mitigation_profile: String,
    },
    HyperV {
        run_id: String,
        guest_image_version: String,
        protocol_version: u32,
        vm_generation: u8,
        secure_boot: bool,
        cpu_count: u16,
        startup_memory_bytes: u64,
        data_disk_bytes: u64,
        maximum_os_disk_growth_bytes: u64,
        network_mode: String,
        network: HyperVNetworkMetadata,
    },
}

#[derive(Clone, Debug, PartialEq, Eq)]
pub struct HyperVNetworkVerification {
    pub verified: bool,
    pub adapter_count: u32,
    pub switch_id: Option<String>,
    pub switch_type: Option<String>,
    pub host_adapter_id: Option<String>,
    pub firewall_scope_id: Option<String>,
    pub host_ipv4: Option<Ipv4Addr>,
    pub guest_ipv4: Option<Ipv4Addr>,
    pub nat_enabled: bool,
    pub firewall_rule_ids: Vec<String>,
    pub capture_active: bool,
    pub ipv6_disabled: bool,
    pub no_unexpected_routes: bool,
    pub warnings: Vec<String>,
}

impl Default for HyperVNetworkVerification {
    fn default() -> (verification: HyperVNetworkVerification)
        ensures
            !verification.verified,
            verification.adapter_count == 0,
            verification.switch_id is None,
            verification.switch_type is None,
            verification.host_adapter_id is None,
            verification.firewall_scope_id is None,
            verification.host_ipv4 is None,
            verification.guest_ipv4 is None,
            !verification.nat_enabled,
            verification.firewall_rule_ids@.len() == 0,
            !verification.capture_active,
            !verification.ipv6_disabled,
            !verification.no_unexpected_routes,
            verification.warnings@.len() == 0,
    {
        HyperVNetworkVerification {
            verified: false,
            adapter_count: 0,
            switch_id: None,
            switch_type: None,
            host_adapter_id: None,
            firewall_scope_id: None,
            host_ipv4: None,
            guest_ipv4: None,
            nat_enabled: false,
            firewall_rule_ids: Vec::new(),
            capture_active: false,
            ipv6_disabled: false,
            no_unexpected_routes: false,
            warnings: Vec::new(),
        }
    }
}

#[derive(Clone, Debug, PartialEq, Eq)]
pub struct HyperVNetworkMetadata {
    pub requested_mode: String,
    pub switch_id: Option<String>,
    pub switch_type: Option<String>,
    pub guest_ipv4: Option<Ipv4Addr>,
    pub prefix_length: Option<u8>,
    pub gateway_ipv4: Option<Ipv4Addr>,
    pub dns_servers: Vec<Ipv4Addr>,
    pub host_service_endpoint: Option<String>,
    pub firewall_scope_id: Option<String>,
    pub firewall_rule_ids: Vec<String>,
    pub capture_status: String,
    pub pre_run_verification: Option<HyperVNetworkVerification>,
    pub post_run_verification: Option<HyperVNetworkVerification>,
    pub cleanup_results: Vec<String>,
    pub warnings: Vec<String>,
}

impl Default for HyperVNetworkMetadata {
    fn default() -> (metadata: HyperVNetworkMetadata)
        ensures
            metadata.requested_mode@.len() == 0,
            metadata.switch_id is None,
            metadata.switch_type is None,
            metadata.guest_ipv4 is None,
            metadata.prefix_length is None,
            metadata.gateway_ipv4 is None,
            metadata.dns_servers@.len() == 0,
            metadata.host_service_endpoint is None,
            metadata.firewall_scope_id is None,
            metadata.firewall_rule_ids@.len() == 0,
            metadata.capture_status@.len() == 0,
            metadata.pre_run_verification is None,
            metadata.post_run_verification is None,
            metadata.cleanup_results@.len() == 0,
            metadata.warnings@.len() == 0,
    {
        HyperVNetworkMetadata {
            requested_mode: String::new(),
            switch_id: None,
            switch_type: None,
            guest_ipv4: None,
            prefix_length: None,
            gateway_ipv4: None,
            dns_servers: Vec::new(),
            host_service_endpoint: None,
            firewall_scope_id: None,
            firewall_rule_ids: Vec::new(),
            capture_status: String::new(),
            pre_run_verification: None,
            post_run_verification: None,
            cleanup_results: Vec::new(),
            warnings: Vec::new(),
        }
    }
}

/// A way to run a request in isolation.
pub trait SandboxBackend {
    fn prepare(&mut self, request: &SandboxRequest) -> SandboxResult<()>;

    fn execute(&mut self, request: &SandboxRequest) -> SandboxResult<SandboxRunResult>;

    fn cleanup(&mut self) -> SandboxResult<()>;
}

// ---------------------------------------------------------------------------------------------
// Laws
// ---------------------------------------------------------------------------------------------

/// A request passes the common checks exactly where its limits are set and consistent, what only
/// Hyper-V offers is asked of Hyper-V, raised guest profiles come with the compatible mitigations,
/// and the mapped names are safe and distinct up to letter case.
pub proof fn valid_requests(request: &SandboxRequest)
    ensures
        request.common_verdict() is Ok <==> {
            &&& request.timeout_secs > 0
            &&& request.resource_limits.nonzero()
            &&& request.resource_limits.process_memory_bytes <= request.resource_limits.job_memory_bytes
            &&& request.backend == BackendKind::HyperV || (request.hyperv_guest_profile
                == HyperVGuestProfile::Restricted && !(request.network_policy is HostServer))
            &&& request.hyperv_guest_profile == HyperVGuestProfile::Restricted
                || request.mitigation_profile == MitigationProfile::Compatible
            &&& forall|i: int|
                0 <= i < request.mapped_paths@.len() ==> artifact::safe_windows_name(
                    #[trigger] request.mapped_paths@[i].guest_name@,
                )
            &&& forall|i: int, j: int|
                0 <= i < j < request.mapped_paths@.len() ==> !text::same_ignoring_case(
                    #[trigger] request.mapped_paths@[i].guest_name@,
                    #[trigger] request.mapped_paths@[j].guest_name@,
                )
        },
{
    lemma_first_bad_mapping(request.mapped_paths@, 0);
    let mappings = request.mapped_paths@;
    if first_bad_mapping(mappings, 0) is None {
        assert forall|i: int| 0 <= i < mappings.len() implies artifact::safe_windows_name(
            #[trigger] mappings[i].guest_name@,
        ) by {
            assert(!bad_mapping(mappings, i));
        }
        assert forall|i: int, j: int| 0 <= i < j < mappings.len() implies !text::same_ignoring_case(
            #[trigger] mappings[i].guest_name@,
            #[trigger] mappings[j].guest_name@,
        ) by {
            assert(!bad_mapping(mappings, j));
        }
    } else {
        let index = first_bad_mapping(mappings, 0)->0;
        assert(bad_mapping(mappings, index));
    }
}

proof fn lemma_first_bad_mapping(mappings: Seq<MappedPath>, from: int)
    requires
        0 <= from,
    ensures
        match first_bad_mapping(mappings, from) {
            Some(index) => from <= index < mappings.len() && bad_mapping(mappings, index),
            None => forall|i: int|
                from <= i < mappings.len() ==> !(#[trigger] bad_mapping(mappings, i)),
        },
    decreases mappings.len() - from,
{
    if from < mappings.len() && !bad_mapping(mappings, from) {
        lemma_first_bad_mapping(mappings, from + 1);
    }
}

proof fn lemma_no_bad_mapping(mappings: Seq<MappedPath>, from: int)
    requires
        0 <= from,
    ensures
        first_bad_mapping(mappings, from) is None <==> (forall|k: int|
            from <= k < mappings.len() ==> !bad_mapping(mappings, k)),
        first_bad_mapping(mappings, from) matches Some(index) ==> from <= index < mappings.len()
            && bad_mapping(mappings, index),
    decreases mappings.len() - from,
{
    if from < mappings.len() {
        lemma_no_bad_mapping(mappings, from + 1);
    }
}

/// A request is accepted exactly where it has at least a second, limits that are set and agree, a
/// guest profile and a policy that its backend knows, mitigations that its profile allows, and mapped
/// names that are safe and differ in more than letter case.
pub proof fn accepted_host_requests(request: &SandboxRequest)
    ensures
        request.common_verdict() is Ok <==> {
            let limits = request.resource_limits;
            let maps = request.mapped_paths@;
            &&& request.timeout_secs >= 1
            &&& limits.active_process_limit >= 1
            &&& limits.process_memory_bytes >= 1
            &&& limits.job_memory_bytes >= limits.process_memory_bytes
            &&& 1 <= limits.cpu_rate_percent <= 100
            &&& request.backend == BackendKind::RestrictedProcess ==> request.hyperv_guest_profile
                == HyperVGuestProfile::Restricted && !(request.network_policy is HostServer)
            &&& request.hyperv_guest_profile == HyperVGuestProfile::Restricted
                || request.mitigation_profile == MitigationProfile::Compatible
            &&& forall|k: int|
                0 <= k < maps.len() ==> artifact::safe_windows_name((#[trigger] maps[k]).guest_name@)
            &&& forall|j: int, k: int|
                0 <= j < k < maps.len() ==> !text::same_ignoring_case(
                    (#[trigger] maps[j]).guest_name@,
                    (#[trigger] maps[k]).guest_name@,
                )
        },
        request.common_verdict() matches Err(fault) ==> fault.stage == "request_validation"@,
{
    let maps = request.mapped_paths@;
    lemma_no_bad_mapping(maps, 0);
    if forall|k: int| 0 <= k < maps.len() ==> !bad_mapping(maps, k) {
        assert forall|k: int| 0 <= k < maps.len() implies artifact::safe_windows_name(
            (#[trigger] maps[k]).guest_name@,
        ) by {
            assert(!bad_mapping(maps, k));
        }
        assert forall|j: int, k: int| 0 <= j < k < maps.len() implies !text::same_ignoring_case(
            (#[trigger] maps[j]).guest_name@,
            (#[trigger] maps[k]).guest_name@,
        ) by {
            assert(!bad_mapping(maps, k));
        }
    }
    if (forall|k: int|
        0 <= k < maps.len() ==> artifact::safe_windows_name((#[trigger] maps[k]).guest_name@)) && (
    forall|j: int, k: int|
        0 <= j < k < maps.len() ==> !text::same_ignoring_case(
            (#[trigger] maps[j]).guest_name@,
            (#[trigger] maps[k]).guest_name@,
        )) {
        assert forall|k: int| 0 <= k < maps.len() implies !bad_mapping(maps, k) by {
            assert(artifact::safe_windows_name(maps[k].guest_name@));
        }
    }
}

/// A backend takes exactly the accepted requests that are for it.
pub proof fn backends_take_their_own_requests(request: &SandboxRequest, expected: BackendKind)
    ensures
        request.backend_verdict(expected) is Ok <==> request.common_verdict() is Ok
            && request.backend == expected,
{
}

/// The names under which the choices of a request are reported.
pub proof fn choices_are_reported_by_name(
    kind: BackendKind,
    mitigation: MitigationProfile,
    profile: HyperVGuestProfile,
    policy: NetworkPolicy,
)
    ensures
        kind.spec_name() == match kind {
            BackendKind::RestrictedProcess => "restricted_process"@,
            BackendKind::HyperV => "hyperv"@,
        },
        mitigation.spec_name() == match mitigation {
            MitigationProfile::Compatible => "compatible"@,
            MitigationProfile::Strict => "strict"@,
            MitigationProfile::Maximum => "maximum"@,
        },
        profile.spec_name() == match profile {
            HyperVGuestProfile::Restricted => "restricted"@,
            HyperVGuestProfile::Normal => "normal"@,
            HyperVGuestProfile::Admin => "admin"@,
        },
        policy.spec_name() == match policy {
            NetworkPolicy::DenyAll => "deny_all"@,
            NetworkPolicy::HostServer => "host_server"@,
            NetworkPolicy::AllowList(_) => "allow_list"@,
            NetworkPolicy::AllowInternet => "allow_internet"@,
            NetworkPolicy::CaptureOnly => "capture_only"@,
        },
{
}

/// Two requests count as the same only where nothing that is run differs between them.
pub proof fn same_requests_run_the_same(left: &SandboxRequest, right: &SandboxRequest)
    requires
        left.same(right),
    ensures
        left.target.equals(&right.target),
        left.arguments@.len() == right.arguments@.len(),
        forall|k: int|
            0 <= k < left.arguments@.len() ==> (#[trigger] left.arguments@[k])@
                == right.arguments@[k]@,
        left.timeout_secs == right.timeout_secs,
        left.network_policy.spec_name() == right.network_policy.spec_name(),
        left.backend == right.backend,
        left.resource_limits == right.resource_limits,
        left.mitigation_profile == right.mitigation_profile,
        left.hyperv_guest_profile == right.hyperv_guest_profile,
        left.mapped_paths@.len() == right.mapped_paths@.len(),
        left.dry_run == right.dry_run,
{
    let a = left.arguments@;
    let b = right.arguments@;
    assert(text::views(a).len() == a.len() && text::views(b).len() == b.len());
    assert forall|k: int| 0 <= k < a.len() implies (#[trigger] a[k])@ == b[k]@ by {
        assert(text::views(a)[k] == text::views(b)[k]);
    }
}

/// An entry of an allow list is an address, or an address and a prefix behind its last slash; without a
/// prefix the whole address counts.
pub proof fn entries_are_addresses_with_prefixes(address: Seq<char>, prefix: Seq<char>, maximum: nat)
    requires
        forall|i: int| 0 <= i < prefix.len() ==> #[trigger] prefix[i] != '/',
    ensures
        entry_address(address.push('/') + prefix) == address,
        entry_prefix(address.push('/') + prefix) == Some(prefix),
        entry_address(prefix) == prefix,
        entry_prefix(prefix) is None,
        prefix_value(None, maximum, address) == Ok::<nat, Fault>(maximum),
{
    let entry = address.push('/') + prefix;
    lemma_last_slash(address.push('/'), prefix);
    lemma_last_slash(Seq::empty(), prefix);
    assert(Seq::<char>::empty() + prefix =~= prefix);
    assert(text::last_index(address.push('/'), '/') == address.len());
    assert(entry.take(address.len() as int) =~= address);
    assert(entry.skip(address.len() as int + 1) =~= prefix);
}

proof fn lemma_last_slash(head: Seq<char>, tail: Seq<char>)
    requires
        forall|i: int| 0 <= i < tail.len() ==> #[trigger] tail[i] != '/',
    ensures
        text::last_index(head + tail, '/') == text::last_index(head, '/'),
    decreases tail.len(),
{
    if tail.len() == 0 {
        assert(head + tail =~= head);
    } else {
        assert((head + tail).drop_last() =~= head + tail.drop_last());
        assert((head + tail).last() == tail.last());
        lemma_last_slash(head, tail.drop_last());
    }
}

/// A stage ends when it began or later, and lasts as long as was measured, as far as that can be told.
pub proof fn stages_end_after_they_begin(stage: ReportStage, start: u64, now: u64, elapsed: u128)
    requires
        stage.measured(start, now, elapsed),
    ensures
        stage.start_time_unix_ms == start,
        stage.end_time_unix_ms >= start,
        stage.end_time_unix_ms >= now,
        stage.end_time_unix_ms == start || stage.end_time_unix_ms == now,
        elapsed <= u64::MAX ==> stage.duration_ms == elapsed,
        elapsed > u64::MAX ==> stage.duration_ms == u64::MAX,
{
}

/// Two policies are the same where they are of one kind and, as allow lists, name the same networks in
/// the same order.
pub proof fn same_policies(left: NetworkPolicy, right: NetworkPolicy)
    ensures
        same_policy(left, right) <==> match left {
            NetworkPolicy::DenyAll => right is DenyAll,
            NetworkPolicy::HostServer => right is HostServer,
            NetworkPolicy::AllowInternet => right is AllowInternet,
            NetworkPolicy::CaptureOnly => right is CaptureOnly,
            NetworkPolicy::AllowList(these) => right is AllowList && these@.len()
                == right->AllowList_0@.len() && forall|i: int|
                0 <= i < these@.len() ==> (#[trigger] these@[i])@ == right->AllowList_0@[i]@,
        },
{
    if left is AllowList && right is AllowList {
        let these = left->AllowList_0@;
        let those = right->AllowList_0@;
        if network_views(these) == network_views(those) {
            assert(network_views(these).len() == these.len());
            assert(network_views(those).len() == those.len());
            assert forall|i: int| 0 <= i < these.len() implies (#[trigger] these[i])@ == those[i]@ by {
                assert(network_views(these)[i] == network_views(those)[i]);
            }
        } else if these.len() == those.len() {
            if forall|i: int| 0 <= i < these.len() ==> (#[trigger] these[i])@ == those[i]@ {
                assert(network_views(these) =~= network_views(those));
            }
        }
    }
}

} // verus!
