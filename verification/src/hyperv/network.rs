//! The network of a disposable virtual machine: the plan made from the gateway configuration, the
//! firewall rules of a run, the attestations held against the plan, and what cleanup may remove.

use vstd::prelude::*;
use vstd::string::*;

use crate::address_text;
use crate::backend;
use crate::backend::{
    HyperVNetworkMetadata, HyperVNetworkVerification, NetworkPolicy, SandboxError, SandboxResult,
};
use crate::host_path;
use crate::host_path::HostPath;
use crate::hyperv::address_space;
use crate::hyperv::guest_protocol;
use crate::hyperv::guest_protocol::{FileFacts, GuestNetworkAttestation};
use crate::hyperv::powershell::PowerShellInvocation;
use crate::hyperv::scripts;
use crate::net;
use crate::net::Ipv4Addr;
use crate::text;

verus! {

// ---------------------------------------------------------------------------------------------
// Configuration
// ---------------------------------------------------------------------------------------------

#[derive(Clone, Copy, Debug, PartialEq, Eq, Structural)]
pub enum ControlledSwitchType {
    Private,
    Internal,
    External,
}

impl ControlledSwitchType {
    pub open spec fn spec_name(self) -> Seq<char> {
        match self {
            ControlledSwitchType::Private => "Private"@,
            ControlledSwitchType::Internal => "Internal"@,
            ControlledSwitchType::External => "External"@,
        }
    }

    pub fn powershell_name(self) -> (name: &'static str)
        ensures
            name@ == self.spec_name(),
    {
        match self {
            ControlledSwitchType::Private => "Private",
            ControlledSwitchType::Internal => "Internal",
            ControlledSwitchType::External => "External",
        }
    }
}

#[derive(Clone, Debug, PartialEq, Eq)]
pub struct ControlledGatewayConfig {
    pub switch_name: String,
    pub switch_id: String,
    pub switch_type: ControlledSwitchType,
    pub gateway_id: String,
    pub host_ipv4: Ipv4Addr,
    pub prefix_length: u8,
    pub host_service_port: Option<u16>,
    pub host_adapter_id: String,
    pub guest_address_start: Ipv4Addr,
    pub guest_address_end: Ipv4Addr,
    pub dns_servers: Vec<Ipv4Addr>,
    pub gateway_ipv4: Option<Ipv4Addr>,
    pub allocation_directory: HostPath,
    pub firewall_enforced: bool,
    pub packet_capture_enabled: bool,
    pub host_private_ranges_blocked: bool,
    pub nat_enabled: bool,
    pub owned_by_run: bool,
}

#[derive(Clone, Copy, Debug, PartialEq, Eq, Structural)]
pub enum ControlledNetworkMode {
    HostServer,
    External,
}

impl ControlledNetworkMode {
    pub open spec fn spec_name(self) -> Seq<char> {
        match self {
            ControlledNetworkMode::HostServer => "host_server"@,
            ControlledNetworkMode::External => "allow_internet"@,
        }
    }

    pub fn name(self) -> (name: &'static str)
        ensures
            name@ == self.spec_name(),
    {
        match self {
            ControlledNetworkMode::HostServer => "host_server",
            ControlledNetworkMode::External => "allow_internet",
        }
    }

    /// The name by which the provisioning script knows the mode.
    pub open spec fn spec_script_name(self) -> Seq<char> {
        match self {
            ControlledNetworkMode::HostServer => "host_server"@,
            ControlledNetworkMode::External => "external"@,
        }
    }

    pub fn script_name(self) -> (name: &'static str)
        ensures
            name@ == self.spec_script_name(),
    {
        match self {
            ControlledNetworkMode::HostServer => "host_server",
            ControlledNetworkMode::External => "external",
        }
    }
}

// ---------------------------------------------------------------------------------------------
// Identifiers
// ---------------------------------------------------------------------------------------------

/// Sixteen to sixty-four hexadecimal digits.
pub open spec fn network_run_id(run_id: Seq<char>) -> bool {
    16 <= run_id.len() <= 64 && text::all_hex(run_id)
}

pub open spec fn run_id_verdict(run_id: Seq<char>) -> Result<(), backend::Fault> {
    if network_run_id(run_id) {
        Ok(())
    } else {
        Err(backend::fault("hyperv_network"@, "run identifier is invalid"@))
    }
}

pub fn validate_run_id(run_id: &str) -> (verdict: SandboxResult<()>)
    ensures
        backend::outcome(verdict) == run_id_verdict(run_id@),
{
    let count: usize = text::chars_of(run_id).len();
    if count < 16 || count > 64 || !text::is_all_hex(run_id) {
        return Err(SandboxError::new("hyperv_network", "run identifier is invalid"));
    }
    Ok(())
}

pub open spec fn identifier_char(c: char) -> bool {
    text::is_ascii_alphanumeric(c) || c == '-' || c == '_' || c == '{' || c == '}' || c == ':' || c
        == '\\'
}

/// One to 128 characters of the kind that the host uses in identifiers.
pub open spec fn valid_identifier(identifier: Seq<char>) -> bool {
    &&& 1 <= identifier.len() <= 128
    &&& forall|i: int| 0 <= i < identifier.len() ==> identifier_char(#[trigger] identifier[i])
}

pub open spec fn identifier_verdict(identifier: Seq<char>, description: Seq<char>) -> Result<
    (),
    backend::Fault,
> {
    if valid_identifier(identifier) {
        Ok(())
    } else {
        Err(backend::fault("hyperv_network"@, description + " contains unsafe characters"@))
    }
}

pub fn is_identifier(identifier: &str) -> (yes: bool)
    ensures
        yes == valid_identifier(identifier@),
{
    let chars = text::chars_of(identifier);
    if chars.len() == 0 || chars.len() > 128 {
        return false;
    }
    let mut i: usize = 0;
    while i < chars.len()
        invariant
            i <= chars@.len(),
            chars@ == identifier@,
            forall|j: int| 0 <= j < i ==> identifier_char(#[trigger] chars@[j]),
        decreases chars@.len() - i,
    {
        let c = chars[i];
        if !(text::char_is_ascii_alphanumeric(c) || c == '-' || c == '_' || c == '{' || c == '}' || c
            == ':' || c == '\\') {
            proof {
                assert(!identifier_char(identifier@[i as int]));
            }
            return false;
        }
        i = i + 1;
    }
    true
}

pub fn validate_identifier(identifier: &str, description: &str) -> (verdict: SandboxResult<()>)
    ensures
        backend::outcome(verdict) == identifier_verdict(identifier@, description@),
{
    if is_identifier(identifier) {
        Ok(())
    } else {
        let message = text::cat2(description, " contains unsafe characters");
        Err(SandboxError::new("hyperv_network", message.as_str()))
    }
}

// ---------------------------------------------------------------------------------------------
// Allocation directory
// ---------------------------------------------------------------------------------------------

/// The text of the one directory that may hold address leases, below the program data of the host.
pub open spec fn allocation_text(program_data: &HostPath) -> Seq<char> {
    let style = program_data.style;
    host_path::joined_text(
        style,
        host_path::joined_text(
            style,
            host_path::joined_text(style, program_data.shown@, "Foxhole"@),
            "network"@,
        ),
        "allocations"@,
    )
}

/// `shown` names the allocation directory, up to letter case.
pub open spec fn allowed_allocation(shown: Seq<char>, program_data: Option<&HostPath>) -> bool {
    match program_data {
        None => false,
        Some(root) => text::same_ignoring_case(shown, allocation_text(root)),
    }
}

/// Whether a directory may hold address leases. `program_data` is the program data directory of
/// the host, where it has one.
pub fn allocation_directory_is_allowed(directory: &str, program_data: Option<&HostPath>) -> (allowed:
    bool)
    ensures
        allowed == allowed_allocation(directory@, program_data),
{
    match program_data {
        None => false,
        Some(root) => {
            let expected = root.join("Foxhole").join("network").join("allocations");
            text::eq_ignoring_case(directory, expected.shown.as_str())
        },
    }
}

// ---------------------------------------------------------------------------------------------
// Gateway checks
// ---------------------------------------------------------------------------------------------

impl ControlledGatewayConfig {
    /// Switch, prefix, ownership and allocation directory are usable.
    pub open spec fn base_settings(&self, program_data: Option<&HostPath>) -> bool {
        &&& !text::blank(self.switch_name@)
        &&& text::byte_len(self.switch_name@) <= 80
        &&& !text::has_control(self.switch_name@)
        &&& !text::same_ignoring_case(self.switch_name@, "Default Switch"@)
        &&& self.switch_type != ControlledSwitchType::External
        &&& !self.owned_by_run
        &&& 1 <= self.prefix_length <= 30
        &&& self.allocation_directory.absolute
        &&& allowed_allocation(self.allocation_directory.shown@, program_data)
    }

    /// The pool ascends, lies in the subnet of the host and leaves the host out.
    pub open spec fn pool_settings(&self) -> bool {
        &&& self.guest_address_start.bits <= self.guest_address_end.bits
        &&& net::subnet_start(self.host_ipv4.bits, self.prefix_length) == net::subnet_start(
            self.guest_address_start.bits,
            self.prefix_length,
        )
        &&& net::subnet_start(self.host_ipv4.bits, self.prefix_length) == net::subnet_start(
            self.guest_address_end.bits,
            self.prefix_length,
        )
        &&& !(self.guest_address_start.bits <= self.host_ipv4.bits <= self.guest_address_end.bits)
    }

    /// `bits` is the first or the last address of the subnet of the host.
    pub open spec fn subnet_edge(&self, bits: u32) -> bool {
        ||| bits == net::subnet_start(self.host_ipv4.bits, self.prefix_length)
        ||| bits == net::subnet_end(self.host_ipv4.bits, self.prefix_length)
    }

    pub open spec fn addresses_verdict(&self) -> Result<(), backend::Fault> {
        if !self.pool_settings() {
            Err(
                backend::fault(
                    "hyperv_network"@,
                    "guest address pool is reversed, conflicts with the host, or leaves the subnet"@,
                ),
            )
        } else if self.subnet_edge(self.host_ipv4.bits) || self.subnet_edge(
            self.guest_address_start.bits,
        ) || self.subnet_edge(self.guest_address_end.bits) {
            Err(
                backend::fault(
                    "hyperv_network"@,
                    "network and broadcast addresses cannot identify host or guest endpoints"@,
                ),
            )
        } else {
            Ok(())
        }
    }

    /// The verdict on what every controlled network needs.
    pub open spec fn verdict(&self, program_data: Option<&HostPath>) -> Result<(), backend::Fault> {
        backend::both(
            identifier_verdict(self.switch_id@, "controlled switch identifier"@),
            backend::both(
                identifier_verdict(self.gateway_id@, "controlled gateway identifier"@),
                backend::both(
                    identifier_verdict(self.host_adapter_id@, "host adapter identifier"@),
                    if !self.base_settings(program_data) {
                        Err(
                            backend::fault(
                                "hyperv_network"@,
                                "switch, prefix, persistent ownership, or allocation configuration is invalid"@,
                            ),
                        )
                    } else {
                        backend::both(
                            address_space::unicast_verdict(
                                self.host_ipv4.bits,
                                "controlled IPv4 address"@,
                            ),
                            backend::both(
                                address_space::unicast_verdict(
                                    self.guest_address_start.bits,
                                    "controlled IPv4 address"@,
                                ),
                                backend::both(
                                    address_space::unicast_verdict(
                                        self.guest_address_end.bits,
                                        "controlled IPv4 address"@,
                                    ),
                                    self.addresses_verdict(),
                                ),
                            ),
                        )
                    },
                ),
            ),
        )
    }

    /// The fixed internal switch with one service port and nothing beyond it.
    pub open spec fn host_server_settings(&self) -> bool {
        &&& self.switch_type == ControlledSwitchType::Internal
        &&& self.switch_name@ == "Foxhole Internal"@
        &&& self.host_ipv4.bits == net::from_octets(192, 168, 250, 1)
        &&& self.prefix_length == 24
        &&& !self.nat_enabled
        &&& self.gateway_ipv4 is None
        &&& self.dns_servers@.len() == 0
        &&& self.host_service_port matches Some(port) && port > 0
        &&& self.firewall_enforced
    }

    /// An internal switch behind an enforced, captured gateway with public resolvers.
    pub open spec fn external_settings(&self, gateway: Ipv4Addr) -> bool {
        &&& self.switch_type == ControlledSwitchType::Internal
        &&& self.nat_enabled
        &&& self.firewall_enforced
        &&& self.packet_capture_enabled
        &&& self.host_private_ranges_blocked
        &&& 1 <= self.dns_servers@.len() <= 8
        &&& self.dns_servers@.no_duplicates()
        &&& self.host_service_port is None
        &&& gateway == self.host_ipv4
        &&& forall|i: int|
            0 <= i < self.dns_servers@.len() ==> !address_space::is_forbidden(
                (#[trigger] self.dns_servers@[i]).bits as int,
            )
    }

    pub open spec fn mode_verdict(&self, mode: ControlledNetworkMode) -> Result<(), backend::Fault> {
        match mode {
            ControlledNetworkMode::HostServer => if self.host_server_settings() {
                Ok(())
            } else {
                Err(
                    backend::fault(
                        "hyperv_network"@,
                        "host-server mode requires Foxhole Internal, NAT/DNS/gateway disabled, a service port, and expected firewall enforcement"@,
                    ),
                )
            },
            ControlledNetworkMode::External => match self.gateway_ipv4 {
                None => Err(
                    backend::fault(
                        "hyperv_network"@,
                        "external mode requires a controlled IPv4 gateway"@,
                    ),
                ),
                Some(gateway) => backend::both(
                    address_space::unicast_verdict(
                        gateway.bits,
                        "controlled gateway IPv4 address"@,
                    ),
                    if self.external_settings(gateway) {
                        Ok(())
                    } else {
                        Err(
                            backend::fault(
                                "hyperv_network"@,
                                "external mode requires Internal switch, NAT/gateway/firewall/capture/private blocks, and one to eight unique public DNS resolvers"@,
                            ),
                        )
                    },
                ),
            },
        }
    }
}

fn has_repeated_address(list: &Vec<Ipv4Addr>) -> (repeated: bool)
    ensures
        repeated == !list@.no_duplicates(),
{
    let mut i: usize = 0;
    while i < list.len()
        invariant
            i <= list@.len(),
            forall|a: int, b: int| 0 <= a < i && 0 <= b < i && a != b ==> list@[a] != list@[b],
        decreases list@.len() - i,
    {
        let mut j: usize = 0;
        while j < i
            invariant
                j <= i < list@.len(),
                forall|a: int| 0 <= a < j ==> list@[a] != list@[i as int],
            decreases i - j,
        {
            if list[j] == list[i] {
                proof {
                    assert(list@[j as int] == list@[i as int]);
                }
                return true;
            }
            j = j + 1;
        }
        i = i + 1;
    }
    false
}

fn all_public(list: &Vec<Ipv4Addr>) -> (yes: bool)
    ensures
        yes == (forall|i: int|
            0 <= i < list@.len() ==> !address_space::is_forbidden((#[trigger] list@[i]).bits as int)),
{
    let mut i: usize = 0;
    while i < list.len()
        invariant
            i <= list@.len(),
            forall|j: int|
                0 <= j < i ==> !address_space::is_forbidden((#[trigger] list@[j]).bits as int),
        decreases list@.len() - i,
    {
        if !address_space::is_public_ipv4(list[i]) {
            return false;
        }
        i = i + 1;
    }
    true
}

pub fn validate_gateway(gateway: &ControlledGatewayConfig, program_data: Option<&HostPath>) -> (verdict:
    SandboxResult<()>)
    ensures
        backend::outcome(verdict) == gateway.verdict(program_data),
{
    match validate_identifier(gateway.switch_id.as_str(), "controlled switch identifier") {
        Err(error) => {
            return Err(error);
        },
        Ok(_) => {},
    }
    match validate_identifier(gateway.gateway_id.as_str(), "controlled gateway identifier") {
        Err(error) => {
            return Err(error);
        },
        Ok(_) => {},
    }
    match validate_identifier(gateway.host_adapter_id.as_str(), "host adapter identifier") {
        Err(error) => {
            return Err(error);
        },
        Ok(_) => {},
    }
    let name = gateway.switch_name.as_str();
    if text::is_blank(name) || text::utf8_len(name) > 80 || text::contains_control(name)
        || text::eq_ignoring_case(name, "Default Switch") || gateway.switch_type
        == ControlledSwitchType::External || gateway.owned_by_run || gateway.prefix_length < 1
        || gateway.prefix_length > 30 || !gateway.allocation_directory.is_absolute()
        || !allocation_directory_is_allowed(
        gateway.allocation_directory.shown.as_str(),
        program_data,
    ) {
        return Err(
            SandboxError::new(
                "hyperv_network",
                "switch, prefix, persistent ownership, or allocation configuration is invalid",
            ),
        );
    }
    match address_space::validate_unicast(gateway.host_ipv4, "controlled IPv4 address") {
        Err(error) => {
            return Err(error);
        },
        Ok(_) => {},
    }
    match address_space::validate_unicast(gateway.guest_address_start, "controlled IPv4 address") {
        Err(error) => {
            return Err(error);
        },
        Ok(_) => {},
    }
    match address_space::validate_unicast(gateway.guest_address_end, "controlled IPv4 address") {
        Err(error) => {
            return Err(error);
        },
        Ok(_) => {},
    }
    let first: u32 = gateway.guest_address_start.bits;
    let last: u32 = gateway.guest_address_end.bits;
    let host: u32 = gateway.host_ipv4.bits;
    if first > last || !address_space::same_subnet(
        gateway.host_ipv4,
        gateway.guest_address_start,
        gateway.prefix_length,
    ) || !address_space::same_subnet(
        gateway.host_ipv4,
        gateway.guest_address_end,
        gateway.prefix_length,
    ) || (first <= host && host <= last) {
        return Err(
            SandboxError::new(
                "hyperv_network",
                "guest address pool is reversed, conflicts with the host, or leaves the subnet",
            ),
        );
    }
    let network: u32 = address_space::network_address(gateway.host_ipv4, gateway.prefix_length).bits;
    let broadcast: u32 = address_space::broadcast_address(
        gateway.host_ipv4,
        gateway.prefix_length,
    ).bits;
    if host == network || host == broadcast || first == network || first == broadcast || last == network
        || last == broadcast {
        return Err(
            SandboxError::new(
                "hyperv_network",
                "network and broadcast addresses cannot identify host or guest endpoints",
            ),
        );
    }
    Ok(())
}

pub fn validate_mode(gateway: &ControlledGatewayConfig, mode: ControlledNetworkMode) -> (verdict:
    SandboxResult<()>)
    ensures
        backend::outcome(verdict) == gateway.mode_verdict(mode),
{
    match mode {
        ControlledNetworkMode::HostServer => {
            let open_port = match gateway.host_service_port {
                Some(port) => port > 0,
                None => false,
            };
            if gateway.switch_type != ControlledSwitchType::Internal || !text::same_text(
                gateway.switch_name.as_str(),
                "Foxhole Internal",
            ) || gateway.host_ipv4.bits != Ipv4Addr::new(192, 168, 250, 1).bits
                || gateway.prefix_length != 24 || gateway.nat_enabled
                || gateway.gateway_ipv4.is_some() || gateway.dns_servers.len() > 0 || !open_port
                || !gateway.firewall_enforced {
                return Err(
                    SandboxError::new(
                        "hyperv_network",
                        "host-server mode requires Foxhole Internal, NAT/DNS/gateway disabled, a service port, and expected firewall enforcement",
                    ),
                );
            }
            Ok(())
        },
        ControlledNetworkMode::External => {
            let address = match gateway.gateway_ipv4 {
                Some(address) => address,
                None => {
                    return Err(
                        SandboxError::new(
                            "hyperv_network",
                            "external mode requires a controlled IPv4 gateway",
                        ),
                    );
                },
            };
            match address_space::validate_unicast(address, "controlled gateway IPv4 address") {
                Err(error) => {
                    return Err(error);
                },
                Ok(_) => {},
            }
            if gateway.switch_type != ControlledSwitchType::Internal || !gateway.nat_enabled
                || !gateway.firewall_enforced || !gateway.packet_capture_enabled
                || !gateway.host_private_ranges_blocked || gateway.dns_servers.len() == 0
                || gateway.dns_servers.len() > 8 || has_repeated_address(&gateway.dns_servers)
                || gateway.host_service_port.is_some() || address != gateway.host_ipv4 || !all_public(
                &gateway.dns_servers,
            ) {
                return Err(
                    SandboxError::new(
                        "hyperv_network",
                        "external mode requires Internal switch, NAT/gateway/firewall/capture/private blocks, and one to eight unique public DNS resolvers",
                    ),
                );
            }
            Ok(())
        },
    }
}

// ---------------------------------------------------------------------------------------------
// Firewall rules
// ---------------------------------------------------------------------------------------------

#[derive(Clone, Debug, PartialEq, Eq)]
pub struct FirewallRuleSpec {
    pub name: String,
    pub direction: String,
    pub action: String,
    pub protocol: String,
    pub priority: u16,
    pub stateful: bool,
    pub local_addresses: Vec<String>,
    pub remote_addresses: Vec<String>,
    pub remote_ports: Vec<String>,
}

/// What a firewall rule says.
pub struct RuleView {
    pub name: Seq<char>,
    pub direction: Seq<char>,
    pub action: Seq<char>,
    pub protocol: Seq<char>,
    pub priority: nat,
    pub stateful: bool,
    pub local_addresses: Seq<Seq<char>>,
    pub remote_addresses: Seq<Seq<char>>,
    pub remote_ports: Seq<Seq<char>>,
}

impl View for FirewallRuleSpec {
    type V = RuleView;

    open spec fn view(&self) -> RuleView {
        RuleView {
            name: self.name@,
            direction: self.direction@,
            action: self.action@,
            protocol: self.protocol@,
            priority: self.priority as nat,
            stateful: self.stateful,
            local_addresses: text::views(self.local_addresses@),
            remote_addresses: text::views(self.remote_addresses@),
            remote_ports: text::views(self.remote_ports@),
        }
    }
}

pub open spec fn rule_views(rules: Seq<FirewallRuleSpec>) -> Seq<RuleView> {
    rules.map_values(|rule: FirewallRuleSpec| rule@)
}

/// A rule for one local and one remote address and at most one remote port.
pub open spec fn rule_of(
    name: Seq<char>,
    direction: Seq<char>,
    action: Seq<char>,
    protocol: Seq<char>,
    priority: nat,
    stateful: bool,
    local_address: Seq<char>,
    remote_address: Seq<char>,
    remote_port: Option<Seq<char>>,
) -> RuleView {
    RuleView {
        name,
        direction,
        action,
        protocol,
        priority,
        stateful,
        local_addresses: seq![local_address],
        remote_addresses: seq![remote_address],
        remote_ports: match remote_port {
            Some(port) => seq![port],
            None => Seq::empty(),
        },
    }
}

pub open spec fn option_view(value: Option<&str>) -> Option<Seq<char>> {
    match value {
        Some(inner) => Some(inner@),
        None => None,
    }
}

pub fn firewall_rule(
    name: &str,
    direction: &str,
    action: &str,
    protocol: &str,
    priority: u16,
    stateful: bool,
    local_address: &str,
    remote_address: &str,
    remote_port: Option<&str>,
) -> (rule: FirewallRuleSpec)
    ensures
        rule@ == rule_of(
            name@,
            direction@,
            action@,
            protocol@,
            priority as nat,
            stateful,
            local_address@,
            remote_address@,
            option_view(remote_port),
        ),
{
    let mut local_addresses: Vec<String> = Vec::new();
    local_addresses.push(local_address.to_owned());
    let mut remote_addresses: Vec<String> = Vec::new();
    remote_addresses.push(remote_address.to_owned());
    let mut remote_ports: Vec<String> = Vec::new();
    match remote_port {
        Some(port) => {
            remote_ports.push(port.to_owned());
        },
        None => {},
    }
    let rule = FirewallRuleSpec {
        name: name.to_owned(),
        direction: direction.to_owned(),
        action: action.to_owned(),
        protocol: protocol.to_owned(),
        priority,
        stateful,
        local_addresses,
        remote_addresses,
        remote_ports,
    };
    proof {
        assert(rule@.local_addresses =~= seq![local_address@]);
        assert(rule@.remote_addresses =~= seq![remote_address@]);
        match remote_port {
            Some(port) => {
                assert(rule@.remote_ports =~= seq![port@]);
            },
            None => {
                assert(rule@.remote_ports =~= Seq::<Seq<char>>::empty());
            },
        }
    }
    rule
}

/// The prefix of the names of everything that a run owns in the firewall.
pub open spec fn rule_prefix_text(run_id: Seq<char>) -> Seq<char> {
    "Foxhole-"@ + run_id + "-"@
}

/// Every rule has a weight of its own.
pub open spec fn distinct_weights(rules: Seq<RuleView>) -> bool {
    forall|i: int, j: int|
        0 <= i < j < rules.len() ==> (#[trigger] rules[i]).priority != (
        #[trigger] rules[j]).priority
}

/// The two rules that let a guest reach one service of the host.
pub open spec fn host_service_rules(
    prefix: Seq<char>,
    local: Seq<char>,
    host: Seq<char>,
    port: Seq<char>,
) -> Seq<RuleView> {
    seq![
        rule_of(
            prefix + "host-service"@,
            "Outbound"@,
            "Allow"@,
            "TCP"@,
            300,
            true,
            local,
            host,
            Some(port),
        ),
        rule_of(
            prefix + "host-service-reply"@,
            "Inbound"@,
            "Allow"@,
            "TCP"@,
            299,
            false,
            local,
            host,
            Some(port),
        ),
    ]
}

/// A query rule and a reply rule for each resolver.
pub open spec fn resolver_rules(prefix: Seq<char>, local: Seq<char>, servers: Seq<Ipv4Addr>) -> Seq<
    RuleView,
> {
    Seq::new(
        2 * servers.len(),
        |k: int|
            if k % 2 == 0 {
                rule_of(
                    prefix + "dns-"@ + text::decimal((k / 2) as nat),
                    "Outbound"@,
                    "Allow"@,
                    "Any"@,
                    (60_000 - k / 2) as nat,
                    false,
                    local,
                    net::ipv4_text(servers[k / 2].bits),
                    Some("53"@),
                )
            } else {
                rule_of(
                    prefix + "dns-reply-"@ + text::decimal((k / 2) as nat),
                    "Inbound"@,
                    "Allow"@,
                    "Any"@,
                    (65_000 - k / 2) as nat,
                    false,
                    local,
                    net::ipv4_text(servers[k / 2].bits),
                    Some("53"@),
                )
            },
    )
}

/// The rule that keeps a guest from every other resolver.
pub open spec fn other_dns_rule(prefix: Seq<char>, local: Seq<char>) -> RuleView {
    rule_of(
        prefix + "block-other-dns"@,
        "Outbound"@,
        "Deny"@,
        "Any"@,
        50_000,
        false,
        local,
        "Any"@,
        Some("53"@),
    )
}

/// A rule against each block of forbidden addresses.
pub open spec fn local_block_rules(
    prefix: Seq<char>,
    local: Seq<char>,
    list: Seq<address_space::Block>,
) -> Seq<RuleView> {
    Seq::new(
        list.len(),
        |k: int|
            rule_of(
                prefix + "block-local-"@ + text::padded3(k as nat),
                "Outbound"@,
                "Deny"@,
                "Any"@,
                (40_000 - k) as nat,
                false,
                local,
                list[k].spec_text(),
                None,
            ),
    )
}

/// A rule for each block of public addresses.
pub open spec fn public_rules(
    prefix: Seq<char>,
    local: Seq<char>,
    list: Seq<address_space::Block>,
) -> Seq<RuleView> {
    Seq::new(
        list.len(),
        |k: int|
            rule_of(
                prefix + "public-ipv4-"@ + text::padded3(k as nat),
                "Outbound"@,
                "Allow"@,
                "TCP"@,
                (20_000 - k) as nat,
                true,
                local,
                list[k].spec_text(),
                None,
            ),
    )
}

/// The two rules that block everything not allowed before them.
pub open spec fn closing_rules(prefix: Seq<char>, local: Seq<char>) -> Seq<RuleView> {
    seq![
        rule_of(
            prefix + "block-outbound"@,
            "Outbound"@,
            "Deny"@,
            "Any"@,
            1,
            false,
            local,
            "Any"@,
            None,
        ),
        rule_of(
            prefix + "block-inbound"@,
            "Inbound"@,
            "Deny"@,
            "Any"@,
            2,
            false,
            local,
            "Any"@,
            None,
        ),
    ]
}

/// The rules of a guest that reaches the internet.
pub open spec fn external_rules(prefix: Seq<char>, local: Seq<char>, servers: Seq<Ipv4Addr>) -> Seq<
    RuleView,
> {
    resolver_rules(prefix, local, servers).push(other_dns_rule(prefix, local)) + local_block_rules(
        prefix,
        local,
        address_space::all_forbidden_blocks(),
    ) + public_rules(prefix, local, address_space::all_public_blocks()) + closing_rules(prefix, local)
}

/// The rules of a guest that reaches one service of the host.
pub open spec fn host_server_rules(
    prefix: Seq<char>,
    local: Seq<char>,
    host: Seq<char>,
    port: Seq<char>,
) -> Seq<RuleView> {
    host_service_rules(prefix, local, host, port) + closing_rules(prefix, local)
}

proof fn lemma_rule_views_push(rules: Seq<FirewallRuleSpec>, rule: FirewallRuleSpec)
    ensures
        rule_views(rules.push(rule)) == rule_views(rules).push(rule@),
{
    assert(rule_views(rules.push(rule)) =~= rule_views(rules).push(rule@));
}

fn push_resolver_rules(
    rules: &mut Vec<FirewallRuleSpec>,
    prefix: &str,
    local: &str,
    servers: &Vec<Ipv4Addr>,
)
    requires
        servers@.len() <= 60_001,
    ensures
        rule_views(final(rules)@) == rule_views(old(rules)@) + resolver_rules(
            prefix@,
            local@,
            servers@,
        ),
{
    let ghost start = rule_views(rules@);
    let mut i: usize = 0;
    while i < servers.len()
        invariant
            i <= servers@.len() <= 60_001,
            rule_views(rules@) == start + resolver_rules(prefix@, local@, servers@).take(2 * i),
        decreases servers@.len() - i,
    {
        let index = text::decimal_text(i as u64);
        let query_weight: u16 = 60_000 - i as u16;
        let reply_weight: u16 = 65_000 - i as u16;
        let address = servers[i].to_string();
        let query_name = text::cat3(prefix, "dns-", index.as_str());
        let query = firewall_rule(
            query_name.as_str(),
            "Outbound",
            "Allow",
            "Any",
            query_weight,
            false,
            local,
            address.as_str(),
            Some("53"),
        );
        let reply_name = text::cat3(prefix, "dns-reply-", index.as_str());
        let reply = firewall_rule(
            reply_name.as_str(),
            "Inbound",
            "Allow",
            "Any",
            reply_weight,
            false,
            local,
            address.as_str(),
            Some("53"),
        );
        let ghost before = rules@;
        rules.push(query);
        rules.push(reply);
        proof {
            lemma_rule_views_push(before, query);
            lemma_rule_views_push(before.push(query), reply);
            let all = resolver_rules(prefix@, local@, servers@);
            assert(all[2 * i as int] == query@);
            assert((2 * i + 1) / 2 == i as int);
            assert(all[2 * i + 1] == reply@);
            assert(rule_views(rules@) =~= start + all.take(2 * (i + 1)));
        }
        i = i + 1;
    }
    proof {
        assert(resolver_rules(prefix@, local@, servers@).take(2 * i) =~= resolver_rules(
            prefix@,
            local@,
            servers@,
        ));
    }
}

fn push_local_block_rules(
    rules: &mut Vec<FirewallRuleSpec>,
    prefix: &str,
    local: &str,
    list: &Vec<address_space::Block>,
)
    requires
        address_space::all_aligned(list@),
        list@.len() <= 975,
    ensures
        rule_views(final(rules)@) == rule_views(old(rules)@) + local_block_rules(
            prefix@,
            local@,
            list@,
        ),
{
    let ghost start = rule_views(rules@);
    let mut i: usize = 0;
    while i < list.len()
        invariant
            i <= list@.len() <= 975,
            address_space::all_aligned(list@),
            rule_views(rules@) == start + local_block_rules(prefix@, local@, list@).take(i as int),
        decreases list@.len() - i,
    {
        proof {
            assert(list@[i as int].aligned());
        }
        let index = text::padded3_text(i as u64);
        let weight: u16 = 40_000 - i as u16;
        let cidr = list[i].to_string();
        let name = text::cat3(prefix, "block-local-", index.as_str());
        let rule = firewall_rule(
            name.as_str(),
            "Outbound",
            "Deny",
            "Any",
            weight,
            false,
            local,
            cidr.as_str(),
            None,
        );
        let ghost before = rules@;
        rules.push(rule);
        proof {
            lemma_rule_views_push(before, rule);
            let all = local_block_rules(prefix@, local@, list@);
            assert(all[i as int] == rule@);
            assert(rule_views(rules@) =~= start + all.take(i + 1));
        }
        i = i + 1;
    }
    proof {
        assert(local_block_rules(prefix@, local@, list@).take(i as int) =~= local_block_rules(
            prefix@,
            local@,
            list@,
        ));
    }
}

fn push_public_rules(
    rules: &mut Vec<FirewallRuleSpec>,
    prefix: &str,
    local: &str,
    list: &Vec<address_space::Block>,
)
    requires
        address_space::all_aligned(list@),
        list@.len() <= 975,
    ensures
        rule_views(final(rules)@) == rule_views(old(rules)@) + public_rules(prefix@, local@, list@),
{
    let ghost start = rule_views(rules@);
    let mut i: usize = 0;
    while i < list.len()
        invariant
            i <= list@.len() <= 975,
            address_space::all_aligned(list@),
            rule_views(rules@) == start + public_rules(prefix@, local@, list@).take(i as int),
        decreases list@.len() - i,
    {
        proof {
            assert(list@[i as int].aligned());
        }
        let index = text::padded3_text(i as u64);
        let weight: u16 = 20_000 - i as u16;
        let cidr = list[i].to_string();
        let name = text::cat3(prefix, "public-ipv4-", index.as_str());
        let rule = firewall_rule(
            name.as_str(),
            "Outbound",
            "Allow",
            "TCP",
            weight,
            true,
            local,
            cidr.as_str(),
            None,
        );
        let ghost before = rules@;
        rules.push(rule);
        proof {
            lemma_rule_views_push(before, rule);
            let all = public_rules(prefix@, local@, list@);
            assert(all[i as int] == rule@);
            assert(rule_views(rules@) =~= start + all.take(i + 1));
        }
        i = i + 1;
    }
    proof {
        assert(public_rules(prefix@, local@, list@).take(i as int) =~= public_rules(
            prefix@,
            local@,
            list@,
        ));
    }
}

fn push_closing_rules(rules: &mut Vec<FirewallRuleSpec>, prefix: &str, local: &str)
    ensures
        rule_views(final(rules)@) == rule_views(old(rules)@) + closing_rules(prefix@, local@),
{
    let ghost start = rules@;
    let outbound_name = text::cat2(prefix, "block-outbound");
    let outbound = firewall_rule(
        outbound_name.as_str(),
        "Outbound",
        "Deny",
        "Any",
        1,
        false,
        local,
        "Any",
        None,
    );
    let inbound_name = text::cat2(prefix, "block-inbound");
    let inbound = firewall_rule(
        inbound_name.as_str(),
        "Inbound",
        "Deny",
        "Any",
        2,
        false,
        local,
        "Any",
        None,
    );
    rules.push(outbound);
    rules.push(inbound);
    proof {
        lemma_rule_views_push(start, outbound);
        lemma_rule_views_push(start.push(outbound), inbound);
        assert(rule_views(rules@) =~= rule_views(start) + closing_rules(prefix@, local@));
    }
}

fn make_external_rules(prefix: &str, local: &str, servers: &Vec<Ipv4Addr>) -> (rules: Vec<
    FirewallRuleSpec,
>)
    requires
        servers@.len() <= 60_001,
    ensures
        rule_views(rules@) == external_rules(prefix@, local@, servers@),
{
    let mut rules: Vec<FirewallRuleSpec> = Vec::new();
    proof {
        assert(rule_views(rules@) =~= Seq::<RuleView>::empty());
    }
    push_resolver_rules(&mut rules, prefix, local, servers);
    let ghost resolvers = resolver_rules(prefix@, local@, servers@);
    proof {
        assert(Seq::<RuleView>::empty() + resolvers =~= resolvers);
    }
    let name = text::cat2(prefix, "block-other-dns");
    let other = firewall_rule(
        name.as_str(),
        "Outbound",
        "Deny",
        "Any",
        50_000,
        false,
        local,
        "Any",
        Some("53"),
    );
    let ghost before = rules@;
    rules.push(other);
    proof {
        lemma_rule_views_push(before, other);
    }
    let banned = address_space::forbidden_ipv4_blocks();
    push_local_block_rules(&mut rules, prefix, local, &banned);
    let public = address_space::public_ipv4_blocks();
    push_public_rules(&mut rules, prefix, local, &public);
    push_closing_rules(&mut rules, prefix, local);
    rules
}

fn make_host_server_rules(prefix: &str, local: &str, host: &str, port: &str) -> (rules: Vec<
    FirewallRuleSpec,
>)
    ensures
        rule_views(rules@) == host_server_rules(prefix@, local@, host@, port@),
{
    let mut rules: Vec<FirewallRuleSpec> = Vec::new();
    let service_name = text::cat2(prefix, "host-service");
    let service = firewall_rule(
        service_name.as_str(),
        "Outbound",
        "Allow",
        "TCP",
        300,
        true,
        local,
        host,
        Some(port),
    );
    let reply_name = text::cat2(prefix, "host-service-reply");
    let reply = firewall_rule(
        reply_name.as_str(),
        "Inbound",
        "Allow",
        "TCP",
        299,
        false,
        local,
        host,
        Some(port),
    );
    rules.push(service);
    rules.push(reply);
    proof {
        assert(rule_views(rules@) =~= host_service_rules(prefix@, local@, host@, port@));
    }
    push_closing_rules(&mut rules, prefix, local);
    rules
}

// ---------------------------------------------------------------------------------------------
// Plans
// ---------------------------------------------------------------------------------------------

/// A controlled network: what the gateway configuration fixes, then what the run adds to it.
#[derive(Clone, Debug, PartialEq, Eq)]
pub struct ControlledPlan {
    pub network_mode: ControlledNetworkMode,
    pub switch_name: String,
    pub switch_id: String,
    pub switch_type: ControlledSwitchType,
    pub gateway_id: String,
    pub host_ipv4: Ipv4Addr,
    pub prefix_length: u8,
    pub host_service_port: Option<u16>,
    pub host_adapter_id: String,
    pub guest_address_start: Ipv4Addr,
    pub guest_address_end: Ipv4Addr,
    pub dns_servers: Vec<Ipv4Addr>,
    pub gateway_ipv4: Option<Ipv4Addr>,
    pub allocation_directory: HostPath,
    pub nat_enabled: bool,
    pub guest_ipv4: Option<Ipv4Addr>,
    pub lease_path: Option<HostPath>,
    pub firewall_rules: Vec<FirewallRuleSpec>,
    pub host_firewall_rule_id: Option<String>,
    pub capture_session: Option<String>,
    pub capture_file: Option<HostPath>,
    pub firewall_scope_id: Option<String>,
}

#[derive(Clone, Debug, PartialEq, Eq)]
pub enum HyperVNetworkPlan {
    DenyAll,
    Controlled(ControlledPlan),
}

impl ControlledPlan {
    /// The plan holds what `gateway` configures for `mode`, and nothing of a run yet.
    pub open spec fn planned_from(
        &self,
        gateway: &ControlledGatewayConfig,
        mode: ControlledNetworkMode,
    ) -> bool {
        &&& self.network_mode == mode
        &&& self.switch_name@ == gateway.switch_name@
        &&& self.switch_id@ == gateway.switch_id@
        &&& self.switch_type == gateway.switch_type
        &&& self.gateway_id@ == gateway.gateway_id@
        &&& self.host_ipv4 == gateway.host_ipv4
        &&& self.prefix_length == gateway.prefix_length
        &&& self.host_service_port == gateway.host_service_port
        &&& self.host_adapter_id@ == gateway.host_adapter_id@
        &&& self.guest_address_start == gateway.guest_address_start
        &&& self.guest_address_end == gateway.guest_address_end
        &&& self.dns_servers@ == gateway.dns_servers@
        &&& self.gateway_ipv4 == gateway.gateway_ipv4
        &&& self.allocation_directory.copies(&gateway.allocation_directory)
        &&& self.nat_enabled == gateway.nat_enabled
        &&& self.guest_ipv4 is None
        &&& self.lease_path is None
        &&& self.firewall_rules@.len() == 0
        &&& self.host_firewall_rule_id is None
        &&& self.capture_session is None
        &&& self.capture_file is None
        &&& self.firewall_scope_id is None
    }

    /// What rule generation counts on: a host-server plan has its service port, and the resolvers
    /// leave their weights above zero.
    pub open spec fn supported(&self) -> bool {
        &&& self.network_mode == ControlledNetworkMode::HostServer ==> self.host_service_port is Some
        &&& self.dns_servers@.len() <= 60_001
    }

    /// Both plans have the same configuration and firewall scope.
    pub open spec fn same_configuration(&self, other: &ControlledPlan) -> bool {
        &&& self.network_mode == other.network_mode
        &&& self.switch_name == other.switch_name
        &&& self.switch_id == other.switch_id
        &&& self.switch_type == other.switch_type
        &&& self.gateway_id == other.gateway_id
        &&& self.host_ipv4 == other.host_ipv4
        &&& self.prefix_length == other.prefix_length
        &&& self.host_service_port == other.host_service_port
        &&& self.host_adapter_id == other.host_adapter_id
        &&& self.guest_address_start == other.guest_address_start
        &&& self.guest_address_end == other.guest_address_end
        &&& self.dns_servers == other.dns_servers
        &&& self.gateway_ipv4 == other.gateway_ipv4
        &&& self.allocation_directory == other.allocation_directory
        &&& self.nat_enabled == other.nat_enabled
        &&& self.firewall_scope_id == other.firewall_scope_id
    }

    /// The firewall rules of run `run_id` for the guest address `address`.
    pub open spec fn expected_rules(&self, run_id: Seq<char>, address: u32) -> Seq<RuleView> {
        let prefix = rule_prefix_text(run_id);
        let local = net::ipv4_text(address);
        match self.network_mode {
            ControlledNetworkMode::HostServer => host_server_rules(
                prefix,
                local,
                net::ipv4_text(self.host_ipv4.bits),
                text::decimal(self.host_service_port->0 as nat),
            ),
            ControlledNetworkMode::External => external_rules(prefix, local, self.dns_servers@),
        }
    }

    /// `self` is `before` with the guest address, the rules and the capture of the run added.
    pub open spec fn activated(
        &self,
        before: &ControlledPlan,
        run_id: Seq<char>,
        run_root: &HostPath,
        lease: &GuestAddressLease,
    ) -> bool {
        let external = before.network_mode == ControlledNetworkMode::External;
        &&& self.same_configuration(before)
        &&& self.guest_ipv4 == Some(lease.address)
        &&& self.lease_path matches Some(path) && path.copies(&lease.path)
        &&& rule_views(self.firewall_rules@) == before.expected_rules(run_id, lease.address.bits)
        &&& if external {
            &&& self.host_firewall_rule_id == before.host_firewall_rule_id
            &&& self.capture_session matches Some(session) && session@ == "FoxholeNet-"@ + run_id
            &&& self.capture_file matches Some(file) && file.extends(
                run_root,
                "network-capture.etl"@,
            )
        } else {
            &&& self.host_firewall_rule_id matches Some(rule) && rule@ == rule_prefix_text(run_id)
                + "host-inbound"@
            &&& self.capture_session == before.capture_session
            &&& self.capture_file == before.capture_file
        }
    }
}

/// The mode that a policy asks of a gateway, or why it cannot be planned. `None` stands for no
/// network at all.
pub open spec fn plan_verdict(
    policy: &NetworkPolicy,
    gateway: Option<&ControlledGatewayConfig>,
    program_data: Option<&HostPath>,
) -> Result<Option<ControlledNetworkMode>, backend::Fault> {
    match policy {
        NetworkPolicy::DenyAll => Ok(None),
        _ => match gateway {
            None => Err(
                backend::fault(
                    "hyperv_network"@,
                    "networked Hyper-V modes require --hyperv-gateway-config or FOXHOLE_HYPERV_GATEWAY_CONFIG"@,
                ),
            ),
            Some(config) => match config.verdict(program_data) {
                Err(error) => Err(error),
                Ok(_) => match policy {
                    NetworkPolicy::HostServer => match config.mode_verdict(
                        ControlledNetworkMode::HostServer,
                    ) {
                        Err(error) => Err(error),
                        Ok(_) => Ok(Some(ControlledNetworkMode::HostServer)),
                    },
                    NetworkPolicy::AllowInternet => match config.mode_verdict(
                        ControlledNetworkMode::External,
                    ) {
                        Err(error) => Err(error),
                        Ok(_) => Ok(Some(ControlledNetworkMode::External)),
                    },
                    _ => Err(
                        backend::fault(
                            "hyperv_network"@,
                            "Hyper-V supports deny_all, host_server, and allow_internet; this policy has no attested host enforcement"@,
                        ),
                    ),
                },
            },
        },
    }
}

/// The plan of a run's network. Everything but the absence of a network takes a gateway whose
/// configuration passes every check.
pub fn plan(
    policy: &NetworkPolicy,
    gateway: Option<&ControlledGatewayConfig>,
    program_data: Option<&HostPath>,
) -> (planned: SandboxResult<HyperVNetworkPlan>)
    ensures
        match planned {
            Ok(HyperVNetworkPlan::DenyAll) => plan_verdict(policy, gateway, program_data) == Ok::<
                Option<ControlledNetworkMode>,
                backend::Fault,
            >(None),
            Ok(HyperVNetworkPlan::Controlled(controlled)) => {
                &&& plan_verdict(policy, gateway, program_data) == Ok::<
                    Option<ControlledNetworkMode>,
                    backend::Fault,
                >(Some(controlled.network_mode))
                &&& gateway matches Some(config) && controlled.planned_from(
                    config,
                    controlled.network_mode,
                )
                &&& controlled.supported()
            },
            Err(error) => plan_verdict(policy, gateway, program_data) == Err::<
                Option<ControlledNetworkMode>,
                backend::Fault,
            >(error@),
        },
{
    match policy {
        NetworkPolicy::DenyAll => {
            return Ok(HyperVNetworkPlan::DenyAll);
        },
        _ => {},
    }
    let gateway = match gateway {
        Some(gateway) => gateway,
        None => {
            return Err(
                SandboxError::new(
                    "hyperv_network",
                    "networked Hyper-V modes require --hyperv-gateway-config or FOXHOLE_HYPERV_GATEWAY_CONFIG",
                ),
            );
        },
    };
    match validate_gateway(gateway, program_data) {
        Err(error) => {
            return Err(error);
        },
        Ok(_) => {},
    }
    let network_mode = match policy {
        NetworkPolicy::HostServer => ControlledNetworkMode::HostServer,
        NetworkPolicy::AllowInternet => ControlledNetworkMode::External,
        _ => {
            return Err(
                SandboxError::new(
                    "hyperv_network",
                    "Hyper-V supports deny_all, host_server, and allow_internet; this policy has no attested host enforcement",
                ),
            );
        },
    };
    match validate_mode(gateway, network_mode) {
        Err(error) => {
            return Err(error);
        },
        Ok(_) => {},
    }
    Ok(
        HyperVNetworkPlan::Controlled(
            ControlledPlan {
                network_mode,
                switch_name: gateway.switch_name.clone(),
                switch_id: gateway.switch_id.clone(),
                switch_type: gateway.switch_type,
                gateway_id: gateway.gateway_id.clone(),
                host_ipv4: gateway.host_ipv4,
                prefix_length: gateway.prefix_length,
                host_service_port: gateway.host_service_port,
                host_adapter_id: gateway.host_adapter_id.clone(),
                guest_address_start: gateway.guest_address_start,
                guest_address_end: gateway.guest_address_end,
                dns_servers: net::clone_addresses(&gateway.dns_servers),
                gateway_ipv4: gateway.gateway_ipv4,
                allocation_directory: gateway.allocation_directory.duplicate(),
                nat_enabled: gateway.nat_enabled,
                guest_ipv4: None,
                lease_path: None,
                firewall_rules: Vec::new(),
                host_firewall_rule_id: None,
                capture_session: None,
                capture_file: None,
                firewall_scope_id: None,
            },
        ),
    )
}

// ---------------------------------------------------------------------------------------------
// Address leases
// ---------------------------------------------------------------------------------------------

/// The reservation of a guest address for one run.
#[derive(Clone, Debug, PartialEq, Eq)]
pub struct GuestAddressLease {
    pub run_id: String,
    pub address: Ipv4Addr,
    pub path: HostPath,
}

/// The name of the file that reserves an address.
pub open spec fn lease_name(bits: u32) -> Seq<char> {
    text::decimal(net::octet(bits, 0)) + "_"@ + text::decimal(net::octet(bits, 1)) + "_"@
        + text::decimal(net::octet(bits, 2)) + "_"@ + text::decimal(net::octet(bits, 3)) + ".lease"@
}

impl GuestAddressLease {
    /// Both leases name the same run, address and file.
    pub open spec fn same(&self, other: &GuestAddressLease) -> bool {
        &&& self.run_id@ == other.run_id@
        &&& self.address == other.address
        &&& self.path.equals(&other.path)
    }

    /// `self` is `other`, with the file named by the same text.
    pub open spec fn copies(&self, other: &GuestAddressLease) -> bool {
        &&& self.run_id@ == other.run_id@
        &&& self.address == other.address
        &&& self.path.copies(&other.path)
    }

    pub fn duplicate(&self) -> (copy: GuestAddressLease)
        ensures
            copy.copies(self),
    {
        GuestAddressLease {
            run_id: self.run_id.clone(),
            address: self.address,
            path: self.path.duplicate(),
        }
    }
}

/// The lease of `address` in `directory` for a run.
pub fn lease_for(directory: &HostPath, address: Ipv4Addr, run_id: &str) -> (lease: GuestAddressLease)
    ensures
        lease.run_id@ == run_id@,
        lease.address == address,
        lease.path.extends(directory, lease_name(address.bits)),
{
    let a = text::decimal_text(address.octet_at(0) as u64);
    let b = text::decimal_text(address.octet_at(1) as u64);
    let c = text::decimal_text(address.octet_at(2) as u64);
    let d = text::decimal_text(address.octet_at(3) as u64);
    let mut name = text::cat5(a.as_str(), "_", b.as_str(), "_", c.as_str());
    name.append("_");
    name.append(d.as_str());
    name.append(".lease");
    GuestAddressLease { run_id: run_id.to_owned(), address, path: directory.join(name.as_str()) }
}

pub open spec fn allocation_directory_verdict(
    directory: HostPath,
    is_directory: bool,
    is_link: bool,
) -> Result<(), backend::Fault> {
    if directory.absolute && is_directory && !is_link {
        Ok(())
    } else {
        Err(
            backend::fault(
                "hyperv_network_allocation"@,
                "guest allocation directory must be an existing absolute non-link directory"@,
            ),
        )
    }
}

/// Whether the directory can hold leases.
pub fn check_allocation_directory(directory: &HostPath, is_directory: bool, is_link: bool) -> (verdict:
    SandboxResult<()>)
    ensures
        backend::outcome(verdict) == allocation_directory_verdict(
            *directory,
            is_directory,
            is_link,
        ),
{
    if !directory.is_absolute() || !is_directory || is_link {
        Err(
            SandboxError::new(
                "hyperv_network_allocation",
                "guest allocation directory must be an existing absolute non-link directory",
            ),
        )
    } else {
        Ok(())
    }
}

/// What became of the attempt to create the lease file of one address.
#[derive(Clone, Copy, Debug, PartialEq, Eq, Structural)]
pub enum LeaseAttempt {
    Created,
    Taken,
}

/// The search for a free address: the addresses from `next` to `end` are still to be tried.
#[derive(Clone, Copy, Debug, PartialEq, Eq, Structural)]
pub struct AddressSearch {
    pub next: u64,
    pub end: u32,
}

impl AddressSearch {
    /// The addresses still to be tried.
    pub open spec fn pending(&self) -> Set<int> {
        Set::new(|address: int| self.next <= address <= self.end)
    }

    pub fn new(start: Ipv4Addr, end: Ipv4Addr) -> (search: AddressSearch)
        ensures
            search.next == start.bits,
            search.end == end.bits,
    {
        AddressSearch { next: start.bits as u64, end: end.bits }
    }

    /// The address to try now: the lowest that is pending.
    pub fn candidate(&self) -> (address: Option<Ipv4Addr>)
        ensures
            match address {
                Some(found) => self.pending().contains(found.bits as int) && found.bits == self.next
                    && forall|other: int| self.pending().contains(other) ==> found.bits <= other,
                None => self.pending() =~= Set::<int>::empty(),
            },
    {
        if self.next <= self.end as u64 {
            Some(Ipv4Addr { bits: self.next as u32 })
        } else {
            None
        }
    }

    /// The search after the attempt on `address`: over where the file was created, one address
    /// shorter where another run had it.
    pub fn advance(&mut self, address: Ipv4Addr, attempt: LeaseAttempt) -> (found: Option<Ipv4Addr>)
        requires
            address.bits == old(self).next,
            old(self).next <= old(self).end,
        ensures
            final(self).end == old(self).end,
            attempt == LeaseAttempt::Created ==> found == Some(address) && *final(self) == *old(self),
            attempt == LeaseAttempt::Taken ==> found is None && final(self).next == old(self).next + 1
                && final(self).pending() =~= old(self).pending().remove(address.bits as int),
    {
        match attempt {
            LeaseAttempt::Created => Some(address),
            LeaseAttempt::Taken => {
                self.next = self.next + 1;
                None
            },
        }
    }
}

/// The error where every address of the pool is taken.
pub fn pool_exhausted() -> (error: SandboxError)
    ensures
        error@ == backend::fault(
            "hyperv_network_allocation"@,
            "no unallocated guest IPv4 address remains in the configured pool"@,
        ),
{
    SandboxError::new(
        "hyperv_network_allocation",
        "no unallocated guest IPv4 address remains in the configured pool",
    )
}

pub open spec fn lease_file_verdict(facts: FileFacts) -> Result<(), backend::Fault> {
    if facts.regular && !facts.link && facts.len <= 4096 {
        Ok(())
    } else {
        Err(
            backend::fault(
                "hyperv_network_cleanup"@,
                "refusing to release an unverified guest address lease"@,
            ),
        )
    }
}

/// Whether a lease file may be read and removed.
pub fn check_lease_file(facts: &FileFacts) -> (verdict: SandboxResult<()>)
    ensures
        backend::outcome(verdict) == lease_file_verdict(*facts),
{
    if !facts.regular || facts.link || facts.len > 4096 {
        Err(
            SandboxError::new(
                "hyperv_network_cleanup",
                "refusing to release an unverified guest address lease",
            ),
        )
    } else {
        Ok(())
    }
}

/// Whether the lease found in the file is the one to be released.
pub fn check_lease_owner(recorded: &GuestAddressLease, lease: &GuestAddressLease) -> (verdict:
    SandboxResult<()>)
    ensures
        backend::outcome(verdict) == if recorded.same(lease) {
            Ok(())
        } else {
            Err(
                backend::fault(
                    "hyperv_network_cleanup"@,
                    "refusing to remove a guest lease whose ownership record changed"@,
                ),
            )
        },
{
    if text::same_text(recorded.run_id.as_str(), lease.run_id.as_str()) && recorded.address
        == lease.address && recorded.path.is_equal(&lease.path) {
        Ok(())
    } else {
        Err(
            SandboxError::new(
                "hyperv_network_cleanup",
                "refusing to remove a guest lease whose ownership record changed",
            ),
        )
    }
}

// ---------------------------------------------------------------------------------------------
// Activation
// ---------------------------------------------------------------------------------------------

/// What activation needs from the allocation directory, or why it cannot proceed.
pub open spec fn activation_verdict(plan: &HyperVNetworkPlan, run_id: Seq<char>) -> Result<
    bool,
    backend::Fault,
> {
    match run_id_verdict(run_id) {
        Err(error) => Err(error),
        Ok(_) => match plan {
            HyperVNetworkPlan::DenyAll => Ok(false),
            HyperVNetworkPlan::Controlled(controlled) => if controlled.guest_ipv4 is Some
                || controlled.lease_path is Some {
                Err(backend::fault("hyperv_network"@, "network plan was activated twice"@))
            } else {
                Ok(true)
            },
        },
    }
}

/// Whether a guest address has to be leased before the plan is activated.
pub fn needs_guest_address(plan: &HyperVNetworkPlan, run_id: &str) -> (needed: SandboxResult<bool>)
    ensures
        backend::outcome(needed) == activation_verdict(plan, run_id@),
{
    match validate_run_id(run_id) {
        Err(error) => {
            return Err(error);
        },
        Ok(_) => {},
    }
    match plan {
        HyperVNetworkPlan::DenyAll => Ok(false),
        HyperVNetworkPlan::Controlled(controlled) => {
            if controlled.guest_ipv4.is_some() || controlled.lease_path.is_some() {
                Err(SandboxError::new("hyperv_network", "network plan was activated twice"))
            } else {
                Ok(true)
            }
        },
    }
}

/// Binds the plan to a run: its guest address, its firewall rules and its capture. `allocation` is
/// the lease that was made for the run, or why none could be made; a plan without a network needs
/// none.
pub fn activate(
    plan: &mut HyperVNetworkPlan,
    run_id: &str,
    run_root: &HostPath,
    allocation: SandboxResult<GuestAddressLease>,
) -> (lease: SandboxResult<Option<GuestAddressLease>>)
    requires
        *old(plan) matches HyperVNetworkPlan::Controlled(controlled) ==> controlled.supported(),
    ensures
        match activation_verdict(old(plan), run_id@) {
            Err(error) => backend::outcome(lease) == Err::<
                Option<GuestAddressLease>,
                backend::Fault,
            >(error) && *final(plan) == *old(plan),
            Ok(false) => lease == Ok::<Option<GuestAddressLease>, SandboxError>(None) && *final(plan)
                == *old(plan),
            Ok(true) => match allocation {
                Err(error) => lease == Err::<Option<GuestAddressLease>, SandboxError>(error)
                    && *final(plan) == *old(plan),
                Ok(made) => {
                    &&& lease == Ok::<Option<GuestAddressLease>, SandboxError>(Some(made))
                    &&& *old(plan) matches HyperVNetworkPlan::Controlled(before) && *final(plan)
                        matches HyperVNetworkPlan::Controlled(after) && after.activated(
                        &before,
                        run_id@,
                        run_root,
                        &made,
                    ) && (before.dns_servers@.len() <= 8 ==> distinct_weights(
                        rule_views(after.firewall_rules@),
                    ))
                },
            },
        },
{
    match needs_guest_address(plan, run_id) {
        Err(error) => {
            return Err(error);
        },
        Ok(needed) => {
            if !needed {
                return Ok(None);
            }
        },
    }
    let lease = match allocation {
        Ok(lease) => lease,
        Err(error) => {
            return Err(error);
        },
    };
    let prefix = text::cat3("Foxhole-", run_id, "-");
    let local = lease.address.to_string();
    match plan {
        HyperVNetworkPlan::DenyAll => {},
        HyperVNetworkPlan::Controlled(controlled) => {
            controlled.guest_ipv4 = Some(lease.address);
            controlled.lease_path = Some(lease.path.duplicate());
            proof {
                if controlled.dns_servers@.len() <= 8 {
                    rule_weights_are_distinct(controlled, run_id@, lease.address.bits);
                }
            }
            match controlled.network_mode {
                ControlledNetworkMode::HostServer => {
                    let host = controlled.host_ipv4.to_string();
                    let number: u16 = match controlled.host_service_port {
                        Some(port) => port,
                        None => 0,
                    };
                    let port = text::decimal_text(number as u64);
                    controlled.host_firewall_rule_id = Some(
                        text::cat2(prefix.as_str(), "host-inbound"),
                    );
                    controlled.firewall_rules = make_host_server_rules(
                        prefix.as_str(),
                        local.as_str(),
                        host.as_str(),
                        port.as_str(),
                    );
                },
                ControlledNetworkMode::External => {
                    controlled.firewall_rules = make_external_rules(
                        prefix.as_str(),
                        local.as_str(),
                        &controlled.dns_servers,
                    );
                    controlled.capture_session = Some(text::cat2("FoxholeNet-", run_id));
                    controlled.capture_file = Some(run_root.join("network-capture.etl"));
                },
            }
        },
    }
    Ok(Some(lease))
}

// ---------------------------------------------------------------------------------------------
// Attestation
// ---------------------------------------------------------------------------------------------

/// What the host reports of the network of a virtual machine.
#[derive(Clone, Debug, PartialEq, Eq)]
pub struct NetworkAttachment {
    pub adapter_count: u32,
    pub switch_id: Option<String>,
    pub switch_type: Option<String>,
    pub host_adapter_id: Option<String>,
    pub firewall_scope_id: Option<String>,
    pub host_ipv4: Option<Ipv4Addr>,
    pub guest_ipv4: Option<Ipv4Addr>,
    pub nat_enabled: bool,
    pub firewall_rule_ids: Vec<String>,
    pub capture_active: bool,
    pub ipv6_disabled: bool,
    pub no_unexpected_routes: bool,
    pub warnings: Vec<String>,
}

impl Default for NetworkAttachment {
    fn default() -> (attachment: NetworkAttachment)
        ensures
            attachment.adapter_count == 0,
            attachment.switch_id is None,
            attachment.switch_type is None,
            attachment.host_adapter_id is None,
            attachment.firewall_scope_id is None,
            attachment.host_ipv4 is None,
            attachment.guest_ipv4 is None,
            !attachment.nat_enabled,
            attachment.firewall_rule_ids@.len() == 0,
            !attachment.capture_active,
            !attachment.ipv6_disabled,
            !attachment.no_unexpected_routes,
            attachment.warnings@.len() == 0,
    {
        NetworkAttachment {
            adapter_count: 0,
            switch_id: None,
            switch_type: None,
            host_adapter_id: None,
            firewall_scope_id: None,
            host_ipv4: None,
            guest_ipv4: None,
            nat_enabled: false,
            firewall_rule_ids: Vec::new(),
            capture_active: false,
            ipv6_disabled: false,
            no_unexpected_routes: false,
            warnings: Vec::new(),
        }
    }
}

/// The names of rules, in their order.
pub open spec fn rule_names(rules: Seq<FirewallRuleSpec>) -> Seq<Seq<char>> {
    rules.map_values(|rule: FirewallRuleSpec| rule.name@)
}

impl ControlledPlan {
    /// The names of everything that the run owns in the firewall.
    pub open spec fn owned_rule_names(&self) -> Seq<Seq<char>> {
        match self.host_firewall_rule_id {
            Some(rule) => rule_names(self.firewall_rules@).push(rule@),
            None => rule_names(self.firewall_rules@),
        }
    }

    /// The observed state is the planned one. The guest address counts where it is required, the
    /// firewall scope where the plan has one.
    pub open spec fn attested(&self, attachment: &NetworkAttachment, require_guest_address: bool) -> bool {
        &&& attachment.adapter_count == 1
        &&& attachment.switch_id matches Some(id) && id@ == self.switch_id@
        &&& attachment.switch_type matches Some(name) && name@ == self.switch_type.spec_name()
        &&& attachment.host_adapter_id matches Some(id) && text::same_identifier(
            id@,
            self.host_adapter_id@,
        )
        &&& attachment.host_ipv4 == Some(self.host_ipv4)
        &&& require_guest_address ==> attachment.guest_ipv4 == self.guest_ipv4
        &&& attachment.nat_enabled == self.nat_enabled
        &&& text::views(attachment.firewall_rule_ids@).to_multiset()
            == self.owned_rule_names().to_multiset()
        &&& attachment.firewall_scope_id matches Some(observed) && (self.firewall_scope_id matches Some(
            expected,
        ) ==> text::same_identifier(observed@, expected@))
        &&& attachment.capture_active == (self.capture_session is Some)
        &&& attachment.ipv6_disabled
        &&& attachment.no_unexpected_routes
    }
}

impl HyperVNetworkPlan {
    pub open spec fn attested(&self, attachment: &NetworkAttachment, require_guest_address: bool) -> bool {
        match self {
            HyperVNetworkPlan::DenyAll => {
                &&& attachment.adapter_count == 0
                &&& attachment.switch_id is None
                &&& attachment.firewall_rule_ids@.len() == 0
                &&& !attachment.capture_active
            },
            HyperVNetworkPlan::Controlled(controlled) => controlled.attested(
                attachment,
                require_guest_address,
            ),
        }
    }
}

pub open spec fn attachment_verdict(
    plan: &HyperVNetworkPlan,
    attachment: &NetworkAttachment,
    require_guest_address: bool,
) -> Result<(), backend::Fault> {
    if plan.attested(attachment, require_guest_address) {
        Ok(())
    } else {
        Err(
            backend::fault(
                "hyperv_network"@,
                "observed switch, adapter, addressing, NAT, firewall, capture, IPv6, or route state does not match the fail-closed plan"@,
            ),
        )
    }
}

fn collect_rule_names(controlled: &ControlledPlan) -> (names: Vec<String>)
    ensures
        text::views(names@) == controlled.owned_rule_names(),
{
    let mut names = names_of(&controlled.firewall_rules);
    match &controlled.host_firewall_rule_id {
        Some(rule) => {
            let ghost before = names@;
            names.push(rule.clone());
            proof {
                assert(text::views(names@) =~= text::views(before).push(rule@));
            }
        },
        None => {},
    }
    names
}

fn names_of(rules: &Vec<FirewallRuleSpec>) -> (names: Vec<String>)
    ensures
        text::views(names@) == rule_names(rules@),
{
    let mut names: Vec<String> = Vec::new();
    let mut i: usize = 0;
    while i < rules.len()
        invariant
            i <= rules@.len(),
            text::views(names@) == rule_names(rules@).take(i as int),
        decreases rules@.len() - i,
    {
        let ghost before = names@;
        names.push(rules[i].name.clone());
        proof {
            assert(text::views(names@) =~= text::views(before).push(rules@[i as int].name@));
            assert(text::views(names@) =~= rule_names(rules@).take(i + 1));
        }
        i = i + 1;
    }
    proof {
        assert(rule_names(rules@).take(i as int) =~= rule_names(rules@));
    }
    names
}

fn option_is(value: &Option<String>, expected: &str) -> (yes: bool)
    ensures
        yes == (*value matches Some(inner) && inner@ == expected@),
{
    match value {
        Some(inner) => text::same_text(inner.as_str(), expected),
        None => false,
    }
}

/// Holds the observed state against the plan.
pub fn verify_attachment(
    plan: &HyperVNetworkPlan,
    attachment: &NetworkAttachment,
    require_guest_address: bool,
) -> (verdict: SandboxResult<()>)
    ensures
        backend::outcome(verdict) == attachment_verdict(plan, attachment, require_guest_address),
{
    let valid = match plan {
        HyperVNetworkPlan::DenyAll => attachment.adapter_count == 0 && attachment.switch_id.is_none()
            && attachment.firewall_rule_ids.len() == 0 && !attachment.capture_active,
        HyperVNetworkPlan::Controlled(controlled) => {
            let expected_names = collect_rule_names(controlled);
            let adapter_matches = match &attachment.host_adapter_id {
                Some(observed) => text::eq_identifier(
                    observed.as_str(),
                    controlled.host_adapter_id.as_str(),
                ),
                None => false,
            };
            let scope_matches = match &attachment.firewall_scope_id {
                Some(observed) => match &controlled.firewall_scope_id {
                    Some(expected) => text::eq_identifier(observed.as_str(), expected.as_str()),
                    None => true,
                },
                None => false,
            };
            attachment.adapter_count == 1 && option_is(
                &attachment.switch_id,
                controlled.switch_id.as_str(),
            ) && option_is(&attachment.switch_type, controlled.switch_type.powershell_name())
                && adapter_matches && net::same_optional(
                attachment.host_ipv4,
                Some(controlled.host_ipv4),
            ) && (!require_guest_address || net::same_optional(
                attachment.guest_ipv4,
                controlled.guest_ipv4,
            )) && attachment.nat_enabled == controlled.nat_enabled && text::same_collection(
                &attachment.firewall_rule_ids,
                &expected_names,
            ) && scope_matches && attachment.capture_active == controlled.capture_session.is_some()
                && attachment.ipv6_disabled && attachment.no_unexpected_routes
        },
    };
    if valid {
        Ok(())
    } else {
        Err(
            SandboxError::new(
                "hyperv_network",
                "observed switch, adapter, addressing, NAT, firewall, capture, IPv6, or route state does not match the fail-closed plan",
            ),
        )
    }
}

impl ControlledPlan {
    /// The guest reports the addresses, the routes and the resolvers of the plan.
    pub open spec fn confirmed_by(&self, attestation: &GuestNetworkAttestation) -> bool {
        &&& self.guest_ipv4 == Some(attestation.guest_ipv4)
        &&& attestation.prefix_length == self.prefix_length
        &&& attestation.gateway_ipv4 == self.gateway_ipv4
        &&& attestation.dns_servers@ == self.dns_servers@
        &&& attestation.ipv6_disabled
        &&& attestation.no_unexpected_routes
    }

    pub open spec fn binding_verdict(&self, attestation: Option<&GuestNetworkAttestation>) -> Result<
        (),
        backend::Fault,
    > {
        match attestation {
            None => Err(
                backend::fault(
                    "hyperv_network"@,
                    "controlled guest result omitted its trusted NIC attestation"@,
                ),
            ),
            Some(report) => match report.verdict() {
                Err(error) => Err(
                    backend::fault(
                        "hyperv_network"@,
                        "guest NIC attestation is invalid: "@ + guest_protocol::protocol_fault_text(
                            error,
                        ),
                    ),
                ),
                Ok(_) => if self.confirmed_by(report) {
                    Ok(())
                } else {
                    Err(
                        backend::fault(
                            "hyperv_network"@,
                            "guest NIC address, prefix, route, DNS, or IPv6 attestation contradicts the controlled plan"@,
                        ),
                    )
                },
            },
        }
    }
}

/// The host attestation with the guest address that the guest reported.
pub open spec fn with_guest_address(
    after: &NetworkAttachment,
    before: &NetworkAttachment,
    address: Ipv4Addr,
) -> bool {
    *after == (NetworkAttachment { guest_ipv4: Some(address), ..*before })
}

/// Binds the attestation inside the authenticated guest result to the attestation of the host.
pub fn bind_guest_attestation(
    plan: &HyperVNetworkPlan,
    attachment: &mut NetworkAttachment,
    attestation: Option<&GuestNetworkAttestation>,
) -> (verdict: SandboxResult<()>)
    ensures
        match plan {
            HyperVNetworkPlan::DenyAll => *final(attachment) == *old(attachment) && backend::outcome(
                verdict,
            ) == if attestation is Some {
                Err(
                    backend::fault(
                        "hyperv_network"@,
                        "deny-all guest result unexpectedly carried a NIC attestation"@,
                    ),
                )
            } else {
                Ok(())
            },
            HyperVNetworkPlan::Controlled(controlled) => match controlled.binding_verdict(
                attestation,
            ) {
                Err(error) => *final(attachment) == *old(attachment) && backend::outcome(verdict)
                    == Err::<(), backend::Fault>(error),
                Ok(_) => {
                    &&& attestation matches Some(report) && with_guest_address(
                        final(attachment),
                        old(attachment),
                        report.guest_ipv4,
                    )
                    &&& backend::outcome(verdict) == attachment_verdict(plan, final(attachment), true)
                },
            },
        },
{
    match plan {
        HyperVNetworkPlan::DenyAll => {
            if attestation.is_some() {
                return Err(
                    SandboxError::new(
                        "hyperv_network",
                        "deny-all guest result unexpectedly carried a NIC attestation",
                    ),
                );
            }
            Ok(())
        },
        HyperVNetworkPlan::Controlled(controlled) => {
            let report = match attestation {
                Some(report) => report,
                None => {
                    return Err(
                        SandboxError::new(
                            "hyperv_network",
                            "controlled guest result omitted its trusted NIC attestation",
                        ),
                    );
                },
            };
            match report.validate() {
                Err(error) => {
                    let shown = error.to_string();
                    let message = text::cat2("guest NIC attestation is invalid: ", shown.as_str());
                    return Err(SandboxError::new("hyperv_network", message.as_str()));
                },
                Ok(_) => {},
            }
            if !net::same_optional(Some(report.guest_ipv4), controlled.guest_ipv4)
                || report.prefix_length != controlled.prefix_length || !net::same_optional(
                report.gateway_ipv4,
                controlled.gateway_ipv4,
            ) || !net::same_addresses(&report.dns_servers, &controlled.dns_servers)
                || !report.ipv6_disabled || !report.no_unexpected_routes {
                return Err(
                    SandboxError::new(
                        "hyperv_network",
                        "guest NIC address, prefix, route, DNS, or IPv6 attestation contradicts the controlled plan",
                    ),
                );
            }
            attachment.guest_ipv4 = Some(report.guest_ipv4);
            verify_attachment(plan, attachment, true)
        },
    }
}

// ---------------------------------------------------------------------------------------------
// Provisioning
// ---------------------------------------------------------------------------------------------

/// The data of the script that provisions and attests a controlled network.
#[derive(Clone, Debug, PartialEq, Eq)]
pub struct ControlledInput {
    pub vm_id: String,
    pub configure: bool,
    pub configure_adapter: bool,
    pub prepare_only: bool,
    pub mode: &'static str,
    pub switch_name: String,
    pub switch_id: String,
    pub switch_type: &'static str,
    pub gateway_id: String,
    pub host_ipv4: Ipv4Addr,
    pub prefix_length: u8,
    pub subnet_prefix: String,
    pub host_service_port: Option<u16>,
    pub host_adapter_id: String,
    pub guest_ipv4: Ipv4Addr,
    pub dns_servers: Vec<Ipv4Addr>,
    pub gateway_ipv4: Option<Ipv4Addr>,
    pub nat_enabled: bool,
    pub firewall_rules: Vec<FirewallRuleSpec>,
    pub host_firewall_rule_id: Option<String>,
    pub capture_required: bool,
    pub capture_session: Option<String>,
    pub capture_file: Option<HostPath>,
    pub firewall_scope_id: Option<String>,
}

/// The data of a network script.
#[derive(Clone, Debug, PartialEq, Eq)]
pub enum NetworkInput {
    DenyAll { vm_id: String, configure: bool },
    Controlled(ControlledInput),
}

impl ControlledInput {
    /// The data are those of the plan, bound to the virtual machine.
    pub open spec fn describes(
        &self,
        plan: &ControlledPlan,
        vm_id: Seq<char>,
        configure: bool,
        prepare: bool,
    ) -> bool {
        &&& self.vm_id@ == vm_id
        &&& self.configure == configure
        &&& self.configure_adapter == prepare
        &&& self.prepare_only == prepare
        &&& self.mode@ == plan.network_mode.spec_script_name()
        &&& self.switch_name@ == plan.switch_name@
        &&& self.switch_id@ == plan.switch_id@
        &&& self.switch_type@ == plan.switch_type.spec_name()
        &&& self.gateway_id@ == plan.gateway_id@
        &&& self.host_ipv4 == plan.host_ipv4
        &&& self.prefix_length == plan.prefix_length
        &&& self.subnet_prefix@ == net::ipv4_text(
            net::subnet_start(plan.host_ipv4.bits, plan.prefix_length) as u32,
        ) + "/"@ + text::decimal(plan.prefix_length as nat)
        &&& self.host_service_port == plan.host_service_port
        &&& self.host_adapter_id@ == plan.host_adapter_id@
        &&& Some(self.guest_ipv4) == plan.guest_ipv4
        &&& self.dns_servers@ == plan.dns_servers@
        &&& self.gateway_ipv4 == plan.gateway_ipv4
        &&& self.nat_enabled == plan.nat_enabled
        &&& rule_views(self.firewall_rules@) == rule_views(plan.firewall_rules@)
        &&& self.host_firewall_rule_id == plan.host_firewall_rule_id
        &&& self.capture_required == (plan.capture_session is Some)
        &&& self.capture_session == plan.capture_session
        &&& host_path::copies_option(self.capture_file, plan.capture_file)
        &&& self.firewall_scope_id == plan.firewall_scope_id
    }
}

fn clone_rule(rule: &FirewallRuleSpec) -> (copy: FirewallRuleSpec)
    ensures
        copy@ == rule@,
{
    FirewallRuleSpec {
        name: rule.name.clone(),
        direction: rule.direction.clone(),
        action: rule.action.clone(),
        protocol: rule.protocol.clone(),
        priority: rule.priority,
        stateful: rule.stateful,
        local_addresses: text::clone_list(&rule.local_addresses),
        remote_addresses: text::clone_list(&rule.remote_addresses),
        remote_ports: text::clone_list(&rule.remote_ports),
    }
}

pub fn clone_rules(rules: &Vec<FirewallRuleSpec>) -> (copy: Vec<FirewallRuleSpec>)
    ensures
        rule_views(copy@) == rule_views(rules@),
{
    let mut copy: Vec<FirewallRuleSpec> = Vec::new();
    let mut i: usize = 0;
    while i < rules.len()
        invariant
            i <= rules@.len(),
            rule_views(copy@) == rule_views(rules@).take(i as int),
        decreases rules@.len() - i,
    {
        let ghost before = copy@;
        let rule = clone_rule(&rules[i]);
        copy.push(rule);
        proof {
            lemma_rule_views_push(before, rule);
            assert(rule_views(copy@) =~= rule_views(rules@).take(i + 1));
        }
        i = i + 1;
    }
    proof {
        assert(rule_views(rules@).take(i as int) =~= rule_views(rules@));
    }
    copy
}

pub open spec fn controlled_input_fault(plan: &HyperVNetworkPlan) -> Option<backend::Fault> {
    match plan {
        HyperVNetworkPlan::DenyAll => Some(
            backend::fault("hyperv_network"@, "controlled input requested for deny-all"@),
        ),
        HyperVNetworkPlan::Controlled(controlled) => if controlled.guest_ipv4 is None {
            Some(
                backend::fault(
                    "hyperv_network"@,
                    "controlled plan has no allocated guest address"@,
                ),
            )
        } else {
            None
        },
    }
}

/// The data of the provisioning script for an activated plan.
pub fn controlled_input(vm_id: &str, plan: &HyperVNetworkPlan, configure: bool, prepare: bool) -> (input:
    SandboxResult<ControlledInput>)
    requires
        plan matches HyperVNetworkPlan::Controlled(controlled) ==> 1 <= controlled.prefix_length <= 32,
    ensures
        match input {
            Ok(data) => controlled_input_fault(plan) is None && (plan
                matches HyperVNetworkPlan::Controlled(controlled) && data.describes(
                controlled,
                vm_id@,
                configure,
                prepare,
            )),
            Err(error) => controlled_input_fault(plan) == Some(error@),
        },
{
    match plan {
        HyperVNetworkPlan::DenyAll => Err(
            SandboxError::new("hyperv_network", "controlled input requested for deny-all"),
        ),
        HyperVNetworkPlan::Controlled(controlled) => {
            let guest_ipv4 = match controlled.guest_ipv4 {
                Some(address) => address,
                None => {
                    return Err(
                        SandboxError::new(
                            "hyperv_network",
                            "controlled plan has no allocated guest address",
                        ),
                    );
                },
            };
            let network = address_space::network_address(
                controlled.host_ipv4,
                controlled.prefix_length,
            ).to_string();
            let length = text::decimal_text(controlled.prefix_length as u64);
            Ok(
                ControlledInput {
                    vm_id: vm_id.to_owned(),
                    configure,
                    configure_adapter: prepare,
                    prepare_only: prepare,
                    mode: controlled.network_mode.script_name(),
                    switch_name: controlled.switch_name.clone(),
                    switch_id: controlled.switch_id.clone(),
                    switch_type: controlled.switch_type.powershell_name(),
                    gateway_id: controlled.gateway_id.clone(),
                    host_ipv4: controlled.host_ipv4,
                    prefix_length: controlled.prefix_length,
                    subnet_prefix: text::cat3(network.as_str(), "/", length.as_str()),
                    host_service_port: controlled.host_service_port,
                    host_adapter_id: controlled.host_adapter_id.clone(),
                    guest_ipv4,
                    dns_servers: net::clone_addresses(&controlled.dns_servers),
                    gateway_ipv4: controlled.gateway_ipv4,
                    nat_enabled: controlled.nat_enabled,
                    firewall_rules: clone_rules(&controlled.firewall_rules),
                    host_firewall_rule_id: text::clone_option(&controlled.host_firewall_rule_id),
                    capture_required: controlled.capture_session.is_some(),
                    capture_session: text::clone_option(&controlled.capture_session),
                    capture_file: host_path::duplicate_option(&controlled.capture_file),
                    firewall_scope_id: text::clone_option(&controlled.firewall_scope_id),
                },
            )
        },
    }
}

/// The invocation that attaches the controlled adapter and finds its firewall scope, where the plan
/// has an adapter.
pub fn prepare_controlled_adapter(vm_id: &str, plan: &HyperVNetworkPlan) -> (invocation: SandboxResult<
    Option<PowerShellInvocation<ControlledInput>>,
>)
    requires
        plan matches HyperVNetworkPlan::Controlled(controlled) ==> 1 <= controlled.prefix_length <= 32,
    ensures
        match plan {
            HyperVNetworkPlan::DenyAll => invocation == Ok::<
                Option<PowerShellInvocation<ControlledInput>>,
                SandboxError,
            >(None),
            HyperVNetworkPlan::Controlled(controlled) => match (identifier_verdict(
                vm_id@,
                "VM identifier"@,
            ), controlled_input_fault(plan), invocation) {
                (Err(error), _, Err(found)) => found@ == error,
                (Ok(_), Some(error), Err(found)) => found@ == error,
                (Ok(_), None, Ok(Some(made))) => {
                    &&& made.operation@
                        == "attach controlled adapter and discover its exact firewall scope"@
                    &&& made.script@ == scripts::CONTROLLED_NETWORK_SCRIPT@
                    &&& made.input.describes(&controlled, vm_id@, false, true)
                    &&& made.admission_limits_are_default()
                },
                _ => false,
            },
        },
{
    match plan {
        HyperVNetworkPlan::DenyAll => {
            return Ok(None);
        },
        _ => {},
    }
    match validate_identifier(vm_id, "VM identifier") {
        Err(error) => {
            return Err(error);
        },
        Ok(_) => {},
    }
    match controlled_input(vm_id, plan, false, true) {
        Err(error) => Err(error),
        Ok(input) => Ok(
            Some(
                PowerShellInvocation::new(
                    "attach controlled adapter and discover its exact firewall scope",
                    scripts::CONTROLLED_NETWORK_SCRIPT,
                    input,
                ),
            ),
        ),
    }
}

pub open spec fn attestation_operation(plan: &HyperVNetworkPlan, configure: bool) -> Seq<char> {
    match plan {
        HyperVNetworkPlan::DenyAll => if configure {
            "remove every Hyper-V network adapter"@
        } else {
            "verify deny-all Hyper-V networking"@
        },
        HyperVNetworkPlan::Controlled(_) => if configure {
            "provision and attest controlled Hyper-V networking"@
        } else {
            "verify complete Hyper-V network containment"@
        },
    }
}

/// The invocation that puts the plan into effect, or only looks at what is in effect. Its reply is
/// held against the plan by `verify_attachment`.
pub fn run_attestation(vm_id: &str, plan: &HyperVNetworkPlan, configure: bool) -> (invocation:
    SandboxResult<PowerShellInvocation<NetworkInput>>)
    requires
        plan matches HyperVNetworkPlan::Controlled(controlled) ==> 1 <= controlled.prefix_length <= 32,
    ensures
        match (identifier_verdict(vm_id@, "VM identifier"@), invocation) {
            (Err(error), Err(found)) => found@ == error,
            (Ok(_), made) => match plan {
                HyperVNetworkPlan::DenyAll => {
                    &&& made matches Ok(invocation)
                    &&& invocation.script@ == scripts::CONFIGURE_DENY_ALL_SCRIPT@
                    &&& invocation.operation@ == attestation_operation(plan, configure)
                    &&& invocation.input matches NetworkInput::DenyAll { vm_id: id, configure: flag }
                    &&& id@ == vm_id@
                    &&& flag == configure
                    &&& invocation.admission_limits_are_default()
                },
                HyperVNetworkPlan::Controlled(controlled) => match (
                    controlled_input_fault(plan),
                    made,
                ) {
                    (Some(error), Err(found)) => found@ == error,
                    (None, Ok(invocation)) => {
                        &&& invocation.script@ == scripts::CONTROLLED_NETWORK_SCRIPT@
                        &&& invocation.operation@ == attestation_operation(plan, configure)
                        &&& invocation.input matches NetworkInput::Controlled(data)
                        &&& data.describes(&controlled, vm_id@, configure, false)
                        &&& invocation.admission_limits_are_default()
                    },
                    _ => false,
                },
            },
            _ => false,
        },
{
    match validate_identifier(vm_id, "VM identifier") {
        Err(error) => {
            return Err(error);
        },
        Ok(_) => {},
    }
    match plan {
        HyperVNetworkPlan::DenyAll => {
            let operation = if configure {
                "remove every Hyper-V network adapter"
            } else {
                "verify deny-all Hyper-V networking"
            };
            Ok(
                PowerShellInvocation::new(
                    operation,
                    scripts::CONFIGURE_DENY_ALL_SCRIPT,
                    NetworkInput::DenyAll { vm_id: vm_id.to_owned(), configure },
                ),
            )
        },
        HyperVNetworkPlan::Controlled(_) => {
            let input = match controlled_input(vm_id, plan, configure, false) {
                Ok(input) => input,
                Err(error) => {
                    return Err(error);
                },
            };
            let operation = if configure {
                "provision and attest controlled Hyper-V networking"
            } else {
                "verify complete Hyper-V network containment"
            };
            Ok(
                PowerShellInvocation::new(
                    operation,
                    scripts::CONTROLLED_NETWORK_SCRIPT,
                    NetworkInput::Controlled(input),
                ),
            )
        },
    }
}

/// A scope is an identifier, and once recorded it may not change.
pub open spec fn scope_verdict(plan: &ControlledPlan, observed: Seq<char>) -> Result<
    (),
    backend::Fault,
> {
    match identifier_verdict(observed, "Hyper-V firewall scope identifier"@) {
        Err(error) => Err(error),
        Ok(_) => match plan.firewall_scope_id {
            Some(expected) => if text::same_ignoring_case(expected@, observed) {
                Ok(())
            } else {
                Err(
                    backend::fault(
                        "hyperv_network"@,
                        "Hyper-V firewall scope changed during provisioning"@,
                    ),
                )
            },
            None => Ok(()),
        },
    }
}

/// Puts the observed firewall scope into the plan.
pub fn record_firewall_scope(plan: &mut HyperVNetworkPlan, attachment: &NetworkAttachment) -> (verdict:
    SandboxResult<()>)
    ensures
        match *old(plan) {
            HyperVNetworkPlan::DenyAll => verdict is Ok && *final(plan) == *old(plan),
            HyperVNetworkPlan::Controlled(before) => match attachment.firewall_scope_id {
                None => *final(plan) == *old(plan) && backend::outcome(verdict) == Err::<
                    (),
                    backend::Fault,
                >(
                    backend::fault(
                        "hyperv_network"@,
                        "network attestation omitted the exact Hyper-V firewall scope"@,
                    ),
                ),
                Some(observed) => match scope_verdict(&before, observed@) {
                    Err(error) => *final(plan) == *old(plan) && backend::outcome(verdict) == Err::<
                        (),
                        backend::Fault,
                    >(error),
                    Ok(_) => verdict is Ok && *final(plan) == HyperVNetworkPlan::Controlled(
                        ControlledPlan { firewall_scope_id: Some(observed), ..before },
                    ),
                },
            },
        },
{
    match plan {
        HyperVNetworkPlan::DenyAll => Ok(()),
        HyperVNetworkPlan::Controlled(controlled) => {
            let observed = match &attachment.firewall_scope_id {
                Some(observed) => observed,
                None => {
                    return Err(
                        SandboxError::new(
                            "hyperv_network",
                            "network attestation omitted the exact Hyper-V firewall scope",
                        ),
                    );
                },
            };
            match validate_identifier(observed.as_str(), "Hyper-V firewall scope identifier") {
                Err(error) => {
                    return Err(error);
                },
                Ok(_) => {},
            }
            let changed = match &controlled.firewall_scope_id {
                Some(expected) => !text::eq_ignoring_case(expected.as_str(), observed.as_str()),
                None => false,
            };
            if changed {
                return Err(
                    SandboxError::new(
                        "hyperv_network",
                        "Hyper-V firewall scope changed during provisioning",
                    ),
                );
            }
            controlled.firewall_scope_id = Some(observed.clone());
            Ok(())
        },
    }
}

// ---------------------------------------------------------------------------------------------
// Owned resources
// ---------------------------------------------------------------------------------------------

/// What a run owns on the host's network, as its journal records it.
#[derive(Clone, Debug, PartialEq, Eq)]
pub struct NetworkOwnedResources {
    pub vm_id: String,
    pub firewall_scope_id: String,
    pub rule_prefix: String,
    pub firewall_rule_ids: Vec<String>,
    pub firewall_rules: Vec<FirewallRuleSpec>,
    pub host_firewall_rule_id: Option<String>,
    pub host_ipv4: Option<Ipv4Addr>,
    pub host_service_port: Option<u16>,
    pub host_adapter_id: Option<String>,
    pub capture_session: Option<String>,
    pub capture_file: Option<HostPath>,
    pub guest_lease: Option<GuestAddressLease>,
    pub nat_mapping_ids: Vec<String>,
}

impl NetworkOwnedResources {
    /// Nothing is owned.
    pub open spec fn is_empty(&self) -> bool {
        &&& self.vm_id@.len() == 0
        &&& self.firewall_scope_id@.len() == 0
        &&& self.rule_prefix@.len() == 0
        &&& self.firewall_rule_ids@.len() == 0
        &&& self.firewall_rules@.len() == 0
        &&& self.host_firewall_rule_id is None
        &&& self.host_ipv4 is None
        &&& self.host_service_port is None
        &&& self.host_adapter_id is None
        &&& self.capture_session is None
        &&& self.capture_file is None
        &&& self.guest_lease is None
        &&& self.nat_mapping_ids@.len() == 0
    }

    /// Something is owned that a script has to remove.
    pub open spec fn has_host_resources(&self) -> bool {
        ||| self.firewall_rule_ids@.len() > 0
        ||| self.host_firewall_rule_id is Some
        ||| self.capture_session is Some
        ||| self.nat_mapping_ids@.len() > 0
    }

    /// Nothing is recorded that cleanup would act on.
    pub open spec fn nothing_to_clean(&self) -> bool {
        &&& self.firewall_rule_ids@.len() == 0
        &&& self.host_firewall_rule_id is None
        &&& self.host_ipv4 is None
        &&& self.host_service_port is None
        &&& self.host_adapter_id is None
        &&& self.capture_session is None
        &&& self.guest_lease is None
        &&& self.nat_mapping_ids@.len() == 0
    }

    /// The inbound rule of the host is recorded completely and under the prefix, or not at all.
    pub open spec fn host_firewall_owned(&self, prefix: Seq<char>) -> bool {
        match (
            self.host_firewall_rule_id,
            self.host_ipv4,
            self.host_service_port,
            self.host_adapter_id,
        ) {
            (Some(rule), Some(_), Some(port), Some(adapter)) => text::begins(rule@, prefix) && port > 0
                && valid_identifier(adapter@),
            (None, None, None, None) => true,
            _ => false,
        }
    }

    /// Every rule is under the prefix, and the rules are those of the identifiers, in their order.
    pub open spec fn rules_owned(&self, prefix: Seq<char>) -> bool {
        &&& forall|i: int|
            0 <= i < self.firewall_rule_ids@.len() ==> text::begins(
                (#[trigger] self.firewall_rule_ids@[i])@,
                prefix,
            )
        &&& rule_names(self.firewall_rules@) == text::views(self.firewall_rule_ids@)
        &&& self.host_firewall_rule_id matches Some(rule) ==> text::begins(rule@, prefix)
    }
}

impl Default for NetworkOwnedResources {
    fn default() -> (resources: NetworkOwnedResources)
        ensures
            resources.is_empty(),
    {
        NetworkOwnedResources {
            vm_id: String::new(),
            firewall_scope_id: String::new(),
            rule_prefix: String::new(),
            firewall_rule_ids: Vec::new(),
            firewall_rules: Vec::new(),
            host_firewall_rule_id: None,
            host_ipv4: None,
            host_service_port: None,
            host_adapter_id: None,
            capture_session: None,
            capture_file: None,
            guest_lease: None,
            nat_mapping_ids: Vec::new(),
        }
    }
}

/// What a script reports to have removed.
#[derive(Clone, Debug, PartialEq, Eq)]
pub struct NetworkCleanupResult {
    pub removed: Vec<String>,
}

impl Default for NetworkCleanupResult {
    fn default() -> (result: NetworkCleanupResult)
        ensures
            result.removed@.len() == 0,
    {
        NetworkCleanupResult { removed: Vec::new() }
    }
}

impl ControlledPlan {
    pub open spec fn ownership_verdict(&self, vm_id: Seq<char>, run_id: Seq<char>) -> Result<
        (),
        backend::Fault,
    > {
        backend::both(
            run_id_verdict(run_id),
            backend::both(
                identifier_verdict(vm_id, "network cleanup VM identifier"@),
                match self.firewall_scope_id {
                    None => Err(
                        backend::fault(
                            "hyperv_network"@,
                            "cannot journal controlled firewall rules without an attested scope"@,
                        ),
                    ),
                    Some(scope) => identifier_verdict(
                        scope@,
                        "Hyper-V firewall scope identifier"@,
                    ),
                },
            ),
        )
    }

    /// The record holds exactly what the run adds to the host's network.
    pub open spec fn owned_as(
        &self,
        resources: &NetworkOwnedResources,
        vm_id: Seq<char>,
        run_id: Seq<char>,
    ) -> bool {
        let host_rule = self.host_firewall_rule_id is Some;
        &&& resources.vm_id@ == vm_id
        &&& Some(resources.firewall_scope_id) == self.firewall_scope_id
        &&& resources.rule_prefix@ == rule_prefix_text(run_id)
        &&& text::views(resources.firewall_rule_ids@) == rule_names(self.firewall_rules@)
        &&& rule_views(resources.firewall_rules@) == rule_views(self.firewall_rules@)
        &&& resources.host_firewall_rule_id == self.host_firewall_rule_id
        &&& resources.host_ipv4 == if host_rule {
            Some(self.host_ipv4)
        } else {
            None
        }
        &&& resources.host_service_port == self.host_service_port
        &&& host_rule ==> resources.host_adapter_id == Some(self.host_adapter_id)
        &&& !host_rule ==> resources.host_adapter_id is None
        &&& resources.capture_session == self.capture_session
        &&& host_path::copies_option(resources.capture_file, self.capture_file)
        &&& match (self.guest_ipv4, self.lease_path, resources.guest_lease) {
            (Some(address), Some(path), Some(lease)) => lease.run_id@ == run_id && lease.address
                == address && lease.path.copies(&path),
            (Some(_), Some(_), None) => false,
            (_, _, found) => found is None,
        }
        &&& resources.nat_mapping_ids@.len() == 0
    }
}

/// What the run owns on the host's network.
pub fn owned_resources(vm_id: &str, run_id: &str, plan: &HyperVNetworkPlan) -> (owned: SandboxResult<
    NetworkOwnedResources,
>)
    ensures
        match plan {
            HyperVNetworkPlan::DenyAll => owned matches Ok(resources) && resources.is_empty(),
            HyperVNetworkPlan::Controlled(controlled) => match (
                controlled.ownership_verdict(vm_id@, run_id@),
                owned,
            ) {
                (Ok(_), Ok(resources)) => controlled.owned_as(&resources, vm_id@, run_id@),
                (Err(error), Err(found)) => found@ == error,
                _ => false,
            },
        },
{
    match plan {
        HyperVNetworkPlan::DenyAll => Ok(NetworkOwnedResources::default()),
        HyperVNetworkPlan::Controlled(controlled) => {
            match validate_run_id(run_id) {
                Err(error) => {
                    return Err(error);
                },
                Ok(_) => {},
            }
            match validate_identifier(vm_id, "network cleanup VM identifier") {
                Err(error) => {
                    return Err(error);
                },
                Ok(_) => {},
            }
            let scope = match &controlled.firewall_scope_id {
                Some(scope) => scope,
                None => {
                    return Err(
                        SandboxError::new(
                            "hyperv_network",
                            "cannot journal controlled firewall rules without an attested scope",
                        ),
                    );
                },
            };
            match validate_identifier(scope.as_str(), "Hyper-V firewall scope identifier") {
                Err(error) => {
                    return Err(error);
                },
                Ok(_) => {},
            }
            let guest_lease = match (&controlled.guest_ipv4, &controlled.lease_path) {
                (Some(address), Some(path)) => Some(
                    GuestAddressLease {
                        run_id: run_id.to_owned(),
                        address: *address,
                        path: path.duplicate(),
                    },
                ),
                _ => None,
            };
            let host_rule = controlled.host_firewall_rule_id.is_some();
            Ok(
                NetworkOwnedResources {
                    vm_id: vm_id.to_owned(),
                    firewall_scope_id: scope.clone(),
                    rule_prefix: text::cat3("Foxhole-", run_id, "-"),
                    firewall_rule_ids: names_of(&controlled.firewall_rules),
                    firewall_rules: clone_rules(&controlled.firewall_rules),
                    host_firewall_rule_id: text::clone_option(&controlled.host_firewall_rule_id),
                    host_ipv4: if host_rule {
                        Some(controlled.host_ipv4)
                    } else {
                        None
                    },
                    host_service_port: controlled.host_service_port,
                    host_adapter_id: if host_rule {
                        Some(controlled.host_adapter_id.clone())
                    } else {
                        None
                    },
                    capture_session: text::clone_option(&controlled.capture_session),
                    capture_file: host_path::duplicate_option(&controlled.capture_file),
                    guest_lease,
                    nat_mapping_ids: Vec::new(),
                },
            )
        },
    }
}

fn owns_host_firewall(resources: &NetworkOwnedResources, prefix: &str) -> (yes: bool)
    ensures
        yes == resources.host_firewall_owned(prefix@),
{
    match (
        &resources.host_firewall_rule_id,
        &resources.host_ipv4,
        &resources.host_service_port,
        &resources.host_adapter_id,
    ) {
        (Some(rule), Some(_), Some(port), Some(adapter)) => text::starts_with(rule.as_str(), prefix)
            && *port > 0 && is_identifier(adapter.as_str()),
        (None, None, None, None) => true,
        _ => false,
    }
}

fn owns_rules(resources: &NetworkOwnedResources, prefix: &str) -> (yes: bool)
    ensures
        yes == resources.rules_owned(prefix@),
{
    let ids = &resources.firewall_rule_ids;
    let rules = &resources.firewall_rules;
    let mut i: usize = 0;
    while i < ids.len()
        invariant
            i <= ids@.len(),
            ids == resources.firewall_rule_ids,
            forall|j: int| 0 <= j < i ==> text::begins((#[trigger] ids@[j])@, prefix@),
        decreases ids@.len() - i,
    {
        if !text::starts_with(ids[i].as_str(), prefix) {
            return false;
        }
        i = i + 1;
    }
    if rules.len() != ids.len() {
        proof {
            if rule_names(rules@) == text::views(ids@) {
                assert(rule_names(rules@).len() == rules@.len());
                assert(text::views(ids@).len() == ids@.len());
            }
        }
        return false;
    }
    let mut k: usize = 0;
    while k < ids.len()
        invariant
            k <= ids@.len(),
            rules@.len() == ids@.len(),
            ids == resources.firewall_rule_ids,
            rules == resources.firewall_rules,
            forall|j: int| 0 <= j < k ==> #[trigger] rule_names(rules@)[j] == text::views(ids@)[j],
        decreases ids@.len() - k,
    {
        if !text::same_text(rules[k].name.as_str(), ids[k].as_str()) {
            proof {
                assert(rule_names(rules@)[k as int] != text::views(ids@)[k as int]);
            }
            return false;
        }
        k = k + 1;
    }
    proof {
        assert(rule_names(rules@) =~= text::views(ids@));
    }
    match &resources.host_firewall_rule_id {
        Some(rule) => text::starts_with(rule.as_str(), prefix),
        None => true,
    }
}

/// The data of the script that removes what a run owns.
#[derive(Clone, Debug, PartialEq, Eq)]
pub struct NetworkCleanupInput {
    pub vm_id: String,
    pub firewall_scope_id: String,
    pub rule_prefix: String,
    pub firewall_rule_ids: Vec<String>,
    pub firewall_rules: Vec<FirewallRuleSpec>,
    pub host_firewall_rule_id: Option<String>,
    pub host_ipv4: Option<Ipv4Addr>,
    pub host_service_port: Option<u16>,
    pub host_adapter_id: Option<String>,
    pub guest_ipv4: Option<Ipv4Addr>,
    pub capture_session: Option<String>,
    pub capture_file: Option<HostPath>,
}

impl NetworkCleanupInput {
    /// The data name exactly what is recorded.
    pub open spec fn names(&self, resources: &NetworkOwnedResources) -> bool {
        &&& self.vm_id@ == resources.vm_id@
        &&& self.firewall_scope_id@ == resources.firewall_scope_id@
        &&& self.rule_prefix@ == resources.rule_prefix@
        &&& text::views(self.firewall_rule_ids@) == text::views(resources.firewall_rule_ids@)
        &&& rule_views(self.firewall_rules@) == rule_views(resources.firewall_rules@)
        &&& self.host_firewall_rule_id == resources.host_firewall_rule_id
        &&& self.host_ipv4 == resources.host_ipv4
        &&& self.host_service_port == resources.host_service_port
        &&& self.host_adapter_id == resources.host_adapter_id
        &&& self.guest_ipv4 == match resources.guest_lease {
            Some(lease) => Some(lease.address),
            None => None,
        }
        &&& self.capture_session == resources.capture_session
        &&& host_path::copies_option(self.capture_file, resources.capture_file)
    }
}

/// What cleaning up takes: a script to run first, then a lease to release.
#[derive(Clone, Debug)]
pub struct NetworkCleanupWork {
    pub invocation: Option<PowerShellInvocation<NetworkCleanupInput>>,
    pub lease: Option<GuestAddressLease>,
}

impl NetworkOwnedResources {
    /// The record proves that the run owns all it names.
    pub open spec fn proves_ownership(&self) -> bool {
        &&& self.has_host_resources() ==> {
            &&& 1 <= self.rule_prefix@.len()
            &&& text::byte_len(self.rule_prefix@) <= 96
            &&& text::begins(self.rule_prefix@, "Foxhole-"@)
            &&& self.rules_owned(self.rule_prefix@)
        }
        &&& self.host_firewall_owned(self.rule_prefix@)
        &&& self.capture_session is Some <==> self.capture_file is Some
        &&& self.nat_mapping_ids@.len() == 0
    }

    pub open spec fn cleanup_verdict(&self) -> Result<(), backend::Fault> {
        backend::both(
            if self.has_host_resources() {
                backend::both(
                    identifier_verdict(self.vm_id@, "network cleanup VM identifier"@),
                    identifier_verdict(
                        self.firewall_scope_id@,
                        "network cleanup firewall scope identifier"@,
                    ),
                )
            } else {
                Ok(())
            },
            if self.proves_ownership() {
                Ok(())
            } else {
                Err(
                    backend::fault(
                        "hyperv_network_cleanup"@,
                        "network cleanup journal does not prove exact run ownership"@,
                    ),
                )
            },
        )
    }
}

fn same_lease_option(left: &Option<GuestAddressLease>) -> (copy: Option<GuestAddressLease>)
    ensures
        match (*left, copy) {
            (Some(lease), Some(made)) => made.copies(&lease),
            (None, None) => true,
            _ => false,
        },
{
    match left {
        Some(lease) => Some(lease.duplicate()),
        None => None,
    }
}

/// What has to be done to remove what a run owns. Nothing is done on a record that does not prove
/// the ownership of all it names.
pub fn cleanup_owned_resources(resources: &NetworkOwnedResources) -> (work: SandboxResult<
    Option<NetworkCleanupWork>,
>)
    ensures
        if resources.nothing_to_clean() {
            work == Ok::<Option<NetworkCleanupWork>, SandboxError>(None)
        } else {
            match (resources.cleanup_verdict(), work) {
                (Err(error), Err(found)) => found@ == error,
                (Ok(_), Ok(Some(planned))) => {
                    &&& match planned.invocation {
                        Some(invocation) => {
                            &&& resources.has_host_resources()
                            &&& invocation.operation@
                                == "remove only run-owned Hyper-V firewall and capture resources"@
                            &&& invocation.script@ == scripts::CLEANUP_CONTROLLED_NETWORK_SCRIPT@
                            &&& invocation.input.names(resources)
                            &&& invocation.admission_limits_are_default()
                        },
                        None => !resources.has_host_resources(),
                    }
                    &&& match (resources.guest_lease, planned.lease) {
                        (Some(lease), Some(made)) => made.copies(&lease),
                        (None, None) => true,
                        _ => false,
                    }
                },
                _ => false,
            }
        },
{
    if resources.firewall_rule_ids.len() == 0 && resources.host_firewall_rule_id.is_none()
        && resources.host_ipv4.is_none() && resources.host_service_port.is_none()
        && resources.host_adapter_id.is_none() && resources.capture_session.is_none()
        && resources.guest_lease.is_none() && resources.nat_mapping_ids.len() == 0 {
        return Ok(None);
    }
    let has_host_resources = resources.firewall_rule_ids.len() > 0
        || resources.host_firewall_rule_id.is_some() || resources.capture_session.is_some()
        || resources.nat_mapping_ids.len() > 0;
    if has_host_resources {
        match validate_identifier(resources.vm_id.as_str(), "network cleanup VM identifier") {
            Err(error) => {
                return Err(error);
            },
            Ok(_) => {},
        }
        match validate_identifier(
            resources.firewall_scope_id.as_str(),
            "network cleanup firewall scope identifier",
        ) {
            Err(error) => {
                return Err(error);
            },
            Ok(_) => {},
        }
    }
    let prefix = resources.rule_prefix.as_str();
    if (has_host_resources && (prefix.is_empty() || text::utf8_len(prefix) > 96 || !text::starts_with(
        prefix,
        "Foxhole-",
    ) || !owns_rules(resources, prefix))) || !owns_host_firewall(resources, prefix)
        || resources.capture_session.is_some() != resources.capture_file.is_some()
        || resources.nat_mapping_ids.len() > 0 {
        return Err(
            SandboxError::new(
                "hyperv_network_cleanup",
                "network cleanup journal does not prove exact run ownership",
            ),
        );
    }
    let invocation = if has_host_resources {
        Some(
            PowerShellInvocation::new(
                "remove only run-owned Hyper-V firewall and capture resources",
                scripts::CLEANUP_CONTROLLED_NETWORK_SCRIPT,
                NetworkCleanupInput {
                    vm_id: resources.vm_id.clone(),
                    firewall_scope_id: resources.firewall_scope_id.clone(),
                    rule_prefix: resources.rule_prefix.clone(),
                    firewall_rule_ids: text::clone_list(&resources.firewall_rule_ids),
                    firewall_rules: clone_rules(&resources.firewall_rules),
                    host_firewall_rule_id: text::clone_option(&resources.host_firewall_rule_id),
                    host_ipv4: resources.host_ipv4,
                    host_service_port: resources.host_service_port,
                    host_adapter_id: text::clone_option(&resources.host_adapter_id),
                    guest_ipv4: match &resources.guest_lease {
                        Some(lease) => Some(lease.address),
                        None => None,
                    },
                    capture_session: text::clone_option(&resources.capture_session),
                    capture_file: host_path::duplicate_option(&resources.capture_file),
                },
            ),
        )
    } else {
        None
    };
    Ok(Some(NetworkCleanupWork { invocation, lease: same_lease_option(&resources.guest_lease) }))
}

/// The result of a cleanup after the lease of `address` was released.
pub fn record_released_address(result: &mut NetworkCleanupResult, address: Ipv4Addr)
    ensures
        text::views(final(result).removed@) == text::views(old(result).removed@).push(
            "guest_ip:"@ + net::ipv4_text(address.bits),
        ),
{
    let shown = address.to_string();
    let line = text::cat2("guest_ip:", shown.as_str());
    let ghost before = result.removed@;
    result.removed.push(line);
    proof {
        assert(text::views(result.removed@) =~= text::views(before).push(line@));
    }
}

impl NetworkOwnedResources {
    /// The capture is recorded completely and is that of the run, or not at all.
    pub open spec fn capture_owned(&self, run_id: Seq<char>, run_root: &HostPath) -> bool {
        match (self.capture_session, self.capture_file) {
            (Some(session), Some(file)) => session@ == "FoxholeNet-"@ + run_id
                && host_path::equal_parts(
                file.style,
                file.spec_parts(),
                run_root.spec_parts().push(host_path::PartView::Normal("network-capture.etl"@)),
            ),
            (None, None) => true,
            _ => false,
        }
    }

    /// Every identifier is scoped to the run.
    pub open spec fn scoped_to(&self, run_id: Seq<char>, run_root: &HostPath) -> bool {
        let prefix = rule_prefix_text(run_id);
        &&& self.has_host_resources() ==> {
            &&& valid_identifier(self.vm_id@)
            &&& valid_identifier(self.firewall_scope_id@)
            &&& self.rule_prefix@ == prefix
            &&& self.rules_owned(prefix)
            &&& self.capture_owned(run_id, run_root)
        }
        &&& self.host_firewall_owned(prefix)
    }

    /// The verdict on the network part of a journal.
    pub open spec fn journal_verdict(
        &self,
        run_id: Seq<char>,
        run_root: &HostPath,
        program_data: Option<&HostPath>,
    ) -> Result<(), backend::Fault> {
        backend::both(
            run_id_verdict(run_id),
            if !self.scoped_to(run_id, run_root) {
                Err(
                    backend::fault(
                        "hyperv_cleanup_journal"@,
                        "network resource identifiers are not scoped to this run"@,
                    ),
                )
            } else if self.nat_mapping_ids@.len() > 0 {
                Err(
                    backend::fault(
                        "hyperv_cleanup_journal"@,
                        "unimplemented NAT mappings cannot appear in a cleanup journal"@,
                    ),
                )
            } else if self.guest_lease matches Some(lease) && !lease_scoped(
                &lease,
                run_id,
                program_data,
            ) {
                Err(
                    backend::fault(
                        "hyperv_cleanup_journal"@,
                        "guest address lease is outside the protected allocation directory"@,
                    ),
                )
            } else {
                Ok(())
            },
        )
    }
}

/// The lease is one of the run, in the allocation directory.
pub open spec fn lease_scoped(
    lease: &GuestAddressLease,
    run_id: Seq<char>,
    program_data: Option<&HostPath>,
) -> bool {
    &&& lease.run_id@ == run_id
    &&& allowed_allocation(
        host_path::directory_text(lease.path.style, lease.path.shown@),
        program_data,
    )
    &&& host_path::extension_of(lease.path.spec_parts()) == Some("lease"@)
}

/// Checks the network part of a cleanup journal.
pub fn validate_owned_resources(
    resources: &NetworkOwnedResources,
    run_id: &str,
    run_root: &HostPath,
    program_data: Option<&HostPath>,
) -> (verdict: SandboxResult<()>)
    ensures
        backend::outcome(verdict) == resources.journal_verdict(run_id@, run_root, program_data),
{
    match validate_run_id(run_id) {
        Err(error) => {
            return Err(error);
        },
        Ok(_) => {},
    }
    let prefix = text::cat3("Foxhole-", run_id, "-");
    let host_resources = resources.firewall_rule_ids.len() > 0
        || resources.host_firewall_rule_id.is_some() || resources.capture_session.is_some()
        || resources.nat_mapping_ids.len() > 0;
    let capture_owned = match (&resources.capture_session, &resources.capture_file) {
        (Some(session), Some(file)) => {
            let expected_session = text::cat2("FoxholeNet-", run_id);
            let expected_file = run_root.join("network-capture.etl");
            text::same_text(session.as_str(), expected_session.as_str()) && file.is_equal(
                &expected_file,
            )
        },
        (None, None) => true,
        _ => false,
    };
    if (host_resources && (!is_identifier(resources.vm_id.as_str()) || !is_identifier(
        resources.firewall_scope_id.as_str(),
    ) || !text::same_text(resources.rule_prefix.as_str(), prefix.as_str()) || !owns_rules(
        resources,
        prefix.as_str(),
    ) || !capture_owned)) || !owns_host_firewall(resources, prefix.as_str()) {
        return Err(
            SandboxError::new(
                "hyperv_cleanup_journal",
                "network resource identifiers are not scoped to this run",
            ),
        );
    }
    if resources.nat_mapping_ids.len() > 0 {
        return Err(
            SandboxError::new(
                "hyperv_cleanup_journal",
                "unimplemented NAT mappings cannot appear in a cleanup journal",
            ),
        );
    }
    match &resources.guest_lease {
        Some(lease) => {
            let directory = host_path::directory_of(&lease.path);
            let is_lease = match lease.path.extension() {
                Some(extension) => text::same_text(extension.as_str(), "lease"),
                None => false,
            };
            if !text::same_text(lease.run_id.as_str(), run_id) || !allocation_directory_is_allowed(
                directory.as_str(),
                program_data,
            ) || !is_lease {
                return Err(
                    SandboxError::new(
                        "hyperv_cleanup_journal",
                        "guest address lease is outside the protected allocation directory",
                    ),
                );
            }
        },
        None => {},
    }
    Ok(())
}

// ---------------------------------------------------------------------------------------------
// Reports
// ---------------------------------------------------------------------------------------------

/// An attestation as it is reported, once it was held against the plan.
pub fn verification_record(value: NetworkAttachment) -> (record: HyperVNetworkVerification)
    ensures
        record == (HyperVNetworkVerification {
            verified: true,
            adapter_count: value.adapter_count,
            switch_id: value.switch_id,
            switch_type: value.switch_type,
            host_adapter_id: value.host_adapter_id,
            firewall_scope_id: value.firewall_scope_id,
            host_ipv4: value.host_ipv4,
            guest_ipv4: value.guest_ipv4,
            nat_enabled: value.nat_enabled,
            firewall_rule_ids: value.firewall_rule_ids,
            capture_active: value.capture_active,
            ipv6_disabled: value.ipv6_disabled,
            no_unexpected_routes: value.no_unexpected_routes,
            warnings: value.warnings,
        }),
{
    HyperVNetworkVerification {
        verified: true,
        adapter_count: value.adapter_count,
        switch_id: value.switch_id,
        switch_type: value.switch_type,
        host_adapter_id: value.host_adapter_id,
        firewall_scope_id: value.firewall_scope_id,
        host_ipv4: value.host_ipv4,
        guest_ipv4: value.guest_ipv4,
        nat_enabled: value.nat_enabled,
        firewall_rule_ids: value.firewall_rule_ids,
        capture_active: value.capture_active,
        ipv6_disabled: value.ipv6_disabled,
        no_unexpected_routes: value.no_unexpected_routes,
        warnings: value.warnings,
    }
}

/// The record of an attestation.
pub open spec fn recorded(value: NetworkAttachment) -> HyperVNetworkVerification {
    HyperVNetworkVerification {
        verified: true,
        adapter_count: value.adapter_count,
        switch_id: value.switch_id,
        switch_type: value.switch_type,
        host_adapter_id: value.host_adapter_id,
        firewall_scope_id: value.firewall_scope_id,
        host_ipv4: value.host_ipv4,
        guest_ipv4: value.guest_ipv4,
        nat_enabled: value.nat_enabled,
        firewall_rule_ids: value.firewall_rule_ids,
        capture_active: value.capture_active,
        ipv6_disabled: value.ipv6_disabled,
        no_unexpected_routes: value.no_unexpected_routes,
        warnings: value.warnings,
    }
}

pub open spec fn recorded_option(value: Option<NetworkAttachment>) -> Option<
    HyperVNetworkVerification,
> {
    match value {
        Some(inner) => Some(recorded(inner)),
        None => None,
    }
}

fn record_option(value: Option<NetworkAttachment>) -> (record: Option<HyperVNetworkVerification>)
    ensures
        record == recorded_option(value),
{
    match value {
        Some(inner) => Some(verification_record(inner)),
        None => None,
    }
}

impl ControlledPlan {
    /// The address of the host's service as a URL.
    pub open spec fn service_endpoint(&self) -> Option<Seq<char>> {
        match self.host_service_port {
            Some(port) => Some(
                "http://"@ + net::ipv4_text(self.host_ipv4.bits) + ":"@ + text::decimal(port as nat),
            ),
            None => None,
        }
    }

    pub open spec fn reported_in(&self, report: &HyperVNetworkMetadata) -> bool {
        &&& report.requested_mode@ == self.network_mode.spec_name()
        &&& report.switch_id matches Some(id) && id@ == self.switch_id@
        &&& report.switch_type matches Some(name) && name@ == self.switch_type.spec_name()
        &&& report.guest_ipv4 == self.guest_ipv4
        &&& report.prefix_length == Some(self.prefix_length)
        &&& report.gateway_ipv4 == self.gateway_ipv4
        &&& report.dns_servers@ == self.dns_servers@
        &&& match (report.host_service_endpoint, self.service_endpoint()) {
            (Some(found), Some(expected)) => found@ == expected,
            (None, None) => true,
            _ => false,
        }
        &&& report.firewall_scope_id == self.firewall_scope_id
        &&& text::views(report.firewall_rule_ids@) == self.owned_rule_names()
        &&& report.capture_status@ == if self.capture_session is Some {
            "active_before_target"@
        } else {
            "not_requested"@
        }
    }
}

/// The report tells what the plan is.
pub open spec fn plan_reported(plan: &HyperVNetworkPlan, report: &HyperVNetworkMetadata) -> bool {
    match plan {
        HyperVNetworkPlan::DenyAll => {
            &&& report.requested_mode@ == "deny_all"@
            &&& report.capture_status@ == "not_requested"@
            &&& report.switch_id is None
            &&& report.switch_type is None
            &&& report.guest_ipv4 is None
            &&& report.prefix_length is None
            &&& report.gateway_ipv4 is None
            &&& report.dns_servers@.len() == 0
            &&& report.host_service_endpoint is None
            &&& report.firewall_scope_id is None
            &&& report.firewall_rule_ids@.len() == 0
        },
        HyperVNetworkPlan::Controlled(controlled) => controlled.reported_in(report),
    }
}

/// The network part of a run's report.
pub fn metadata(
    plan: &HyperVNetworkPlan,
    pre: Option<NetworkAttachment>,
    post: Option<NetworkAttachment>,
    cleanup_results: Vec<String>,
    warnings: Vec<String>,
) -> (report: HyperVNetworkMetadata)
    ensures
        report.pre_run_verification == recorded_option(pre),
        report.post_run_verification == recorded_option(post),
        report.cleanup_results == cleanup_results,
        report.warnings == warnings,
        plan_reported(plan, &report),
{
    match plan {
        HyperVNetworkPlan::DenyAll => {
            let mut report = HyperVNetworkMetadata::default();
            report.requested_mode = "deny_all".to_owned();
            report.capture_status = "not_requested".to_owned();
            report.pre_run_verification = record_option(pre);
            report.post_run_verification = record_option(post);
            report.cleanup_results = cleanup_results;
            report.warnings = warnings;
            report
        },
        HyperVNetworkPlan::Controlled(controlled) => {
            let host_service_endpoint = match controlled.host_service_port {
                Some(port) => {
                    let host = controlled.host_ipv4.to_string();
                    let number = text::decimal_text(port as u64);
                    Some(text::cat4("http://", host.as_str(), ":", number.as_str()))
                },
                None => None,
            };
            HyperVNetworkMetadata {
                requested_mode: controlled.network_mode.name().to_owned(),
                switch_id: Some(controlled.switch_id.clone()),
                switch_type: Some(controlled.switch_type.powershell_name().to_owned()),
                guest_ipv4: controlled.guest_ipv4,
                prefix_length: Some(controlled.prefix_length),
                gateway_ipv4: controlled.gateway_ipv4,
                dns_servers: net::clone_addresses(&controlled.dns_servers),
                host_service_endpoint,
                firewall_scope_id: text::clone_option(&controlled.firewall_scope_id),
                firewall_rule_ids: collect_rule_names(controlled),
                capture_status: if controlled.capture_session.is_some() {
                    "active_before_target".to_owned()
                } else {
                    "not_requested".to_owned()
                },
                pre_run_verification: record_option(pre),
                post_run_verification: record_option(post),
                cleanup_results,
                warnings,
            }
        },
    }
}

/// Guest address, prefix length, gateway, resolvers, service address and service port.
pub type GuestNetworkConfiguration = (
    Option<Ipv4Addr>,
    Option<u8>,
    Option<Ipv4Addr>,
    Vec<Ipv4Addr>,
    Option<Ipv4Addr>,
    Option<u16>,
);

/// The settings of the guest's interface.
pub fn guest_configuration(plan: &HyperVNetworkPlan) -> (configuration: GuestNetworkConfiguration)
    requires
        plan matches HyperVNetworkPlan::Controlled(controlled) ==> controlled.supported(),
    ensures
        match plan {
            HyperVNetworkPlan::DenyAll => {
                &&& configuration.0 is None
                &&& configuration.1 is None
                &&& configuration.2 is None
                &&& configuration.3@.len() == 0
                &&& configuration.4 is None
                &&& configuration.5 is None
            },
            HyperVNetworkPlan::Controlled(controlled) => {
                &&& configuration.0 == controlled.guest_ipv4
                &&& configuration.1 == Some(controlled.prefix_length)
                &&& configuration.2 == controlled.gateway_ipv4
                &&& configuration.3@ == controlled.dns_servers@
                &&& controlled.network_mode == ControlledNetworkMode::HostServer ==> configuration.4
                    == Some(controlled.host_ipv4) && configuration.5 == controlled.host_service_port
                &&& controlled.network_mode == ControlledNetworkMode::External ==> configuration.4
                    is None && configuration.5 is None
            },
        },
{
    match plan {
        HyperVNetworkPlan::DenyAll => (None, None, None, Vec::new(), None, None),
        HyperVNetworkPlan::Controlled(controlled) => {
            let serves = controlled.network_mode == ControlledNetworkMode::HostServer;
            (
                controlled.guest_ipv4,
                Some(controlled.prefix_length),
                controlled.gateway_ipv4,
                net::clone_addresses(&controlled.dns_servers),
                if serves {
                    Some(controlled.host_ipv4)
                } else {
                    None
                },
                if serves {
                    controlled.host_service_port
                } else {
                    None
                },
            )
        },
    }
}

// ---------------------------------------------------------------------------------------------
// Laws
// ---------------------------------------------------------------------------------------------

/// A policy is planned as it is or not at all: no network exactly for the policy that denies it, the
/// host's endpoint only where that was asked for, the internet only where that was asked for, and
/// nothing for a policy that the host cannot enforce.
pub proof fn policies_are_never_broadened(
    policy: &NetworkPolicy,
    gateway: Option<&ControlledGatewayConfig>,
    program_data: Option<&HostPath>,
)
    ensures
        policy is DenyAll <==> plan_verdict(policy, gateway, program_data) == Ok::<
            Option<ControlledNetworkMode>,
            backend::Fault,
        >(None),
        plan_verdict(policy, gateway, program_data) == Ok::<
            Option<ControlledNetworkMode>,
            backend::Fault,
        >(Some(ControlledNetworkMode::HostServer)) ==> policy is HostServer,
        plan_verdict(policy, gateway, program_data) == Ok::<
            Option<ControlledNetworkMode>,
            backend::Fault,
        >(Some(ControlledNetworkMode::External)) ==> policy is AllowInternet,
        policy is AllowList || policy is CaptureOnly ==> plan_verdict(
            policy,
            gateway,
            program_data,
        ) is Err,
{
}

/// A network is only ever planned on a persistent internal switch that is not the default one, that
/// no run owns and whose firewall is enforced; towards the internet, with one to eight distinct
/// public resolvers.
pub proof fn networks_are_planned_on_persistent_internal_switches(
    policy: &NetworkPolicy,
    gateway: &ControlledGatewayConfig,
    program_data: Option<&HostPath>,
    mode: ControlledNetworkMode,
)
    requires
        plan_verdict(policy, Some(gateway), program_data) == Ok::<
            Option<ControlledNetworkMode>,
            backend::Fault,
        >(Some(mode)),
    ensures
        gateway.switch_type == ControlledSwitchType::Internal,
        !text::same_ignoring_case(gateway.switch_name@, "Default Switch"@),
        !gateway.owned_by_run,
        gateway.firewall_enforced,
        mode == ControlledNetworkMode::HostServer ==> !gateway.nat_enabled
            && gateway.dns_servers@.len() == 0 && gateway.gateway_ipv4 is None,
        mode == ControlledNetworkMode::External ==> {
            &&& gateway.nat_enabled
            &&& gateway.packet_capture_enabled
            &&& 1 <= gateway.dns_servers@.len() <= 8
            &&& gateway.dns_servers@.no_duplicates()
            &&& forall|i: int|
                0 <= i < gateway.dns_servers@.len() ==> !address_space::is_forbidden(
                    (#[trigger] gateway.dns_servers@[i]).bits as int,
                )
        },
{
}

/// A run without a network passes its verification only with no adapter at all, and a run with one
/// only with exactly one adapter, without IPv6 and without unexpected routes.
pub proof fn verified_adapters_are_those_of_the_plan(
    plan: &HyperVNetworkPlan,
    attachment: &NetworkAttachment,
    require_guest_address: bool,
)
    requires
        attachment_verdict(plan, attachment, require_guest_address) is Ok,
    ensures
        plan is DenyAll ==> attachment.adapter_count == 0 && attachment.switch_id is None,
        plan is Controlled ==> attachment.adapter_count == 1 && attachment.ipv6_disabled
            && attachment.no_unexpected_routes,
{
}

/// A guest of the host-server mode is let through to one address and one port, by TCP alone, and
/// everything else is blocked in both directions.
pub proof fn host_server_reaches_only_its_endpoint(
    prefix: Seq<char>,
    local: Seq<char>,
    host: Seq<char>,
    port: Seq<char>,
    index: int,
)
    requires
        0 <= index < host_server_rules(prefix, local, host, port).len(),
    ensures
        ({
            let rules = host_server_rules(prefix, local, host, port);
            let rule = rules[index];
            &&& rule.local_addresses == seq![local]
            &&& rule.action == "Allow"@ ==> rule.protocol == "TCP"@ && rule.remote_addresses
                == seq![host] && rule.remote_ports == seq![port]
            &&& rules[2] == closing_rules(prefix, local)[0]
            &&& rules[3] == closing_rules(prefix, local)[1]
        }),
{
    reveal_strlit("Allow");
    reveal_strlit("Deny");
    let rules = host_server_rules(prefix, local, host, port);
    assert(rules.len() == 4);
    assert("Allow"@.len() == 5);
    assert("Deny"@.len() == 4);
}

/// What stands at each place of the rules of a guest that reaches the internet.
proof fn lemma_external_places(prefix: Seq<char>, local: Seq<char>, servers: Seq<Ipv4Addr>, index: int)
    requires
        0 <= index < external_rules(prefix, local, servers).len(),
    ensures
        ({
            let rules = external_rules(prefix, local, servers);
            let dns = 2 * servers.len();
            let banned = address_space::all_forbidden_blocks();
            let public = address_space::all_public_blocks();
            &&& rules.len() == dns + 1 + banned.len() + public.len() + 2
            &&& index < dns ==> rules[index] == resolver_rules(prefix, local, servers)[index]
            &&& index == dns ==> rules[index] == other_dns_rule(prefix, local)
            &&& dns < index <= dns + banned.len() ==> rules[index] == local_block_rules(
                prefix,
                local,
                banned,
            )[index - dns - 1]
            &&& dns + banned.len() < index <= dns + banned.len() + public.len() ==> rules[index]
                == public_rules(prefix, local, public)[index - dns - 1 - banned.len()]
            &&& dns + banned.len() + public.len() < index ==> rules[index] == closing_rules(
                prefix,
                local,
            )[index - dns - 1 - banned.len() - public.len()]
        }),
{
}

/// Of a guest that reaches the internet, what is let through without a port goes out by TCP to one
/// block of public addresses; what is let through to a port goes to port 53 of a listed resolver.
pub proof fn external_allows_only_resolvers_and_public_tcp(
    prefix: Seq<char>,
    local: Seq<char>,
    servers: Seq<Ipv4Addr>,
    index: int,
)
    requires
        0 <= index < external_rules(prefix, local, servers).len(),
    ensures
        ({
            let rule = external_rules(prefix, local, servers)[index];
            &&& rule.local_addresses == seq![local]
            &&& rule.action == "Allow"@ && rule.remote_ports.len() == 0 ==> {
                &&& rule.direction == "Outbound"@
                &&& rule.protocol == "TCP"@
                &&& rule.stateful
                &&& exists|k: int|
                    {
                        &&& 0 <= k < address_space::all_public_blocks().len()
                        &&& rule.remote_addresses
                            == seq![(#[trigger] address_space::all_public_blocks()[k]).spec_text()]
                    }
            }
            &&& rule.action == "Allow"@ && rule.remote_ports.len() > 0 ==> {
                &&& rule.remote_ports == seq!["53"@]
                &&& exists|k: int|
                    {
                        &&& 0 <= k < servers.len()
                        &&& rule.remote_addresses == seq![net::ipv4_text((#[trigger] servers[k]).bits)]
                    }
            }
        }),
{
    reveal_strlit("Allow");
    reveal_strlit("Deny");
    assert("Allow"@.len() == 5);
    assert("Deny"@.len() == 4);
    lemma_external_places(prefix, local, servers, index);
    let rule = external_rules(prefix, local, servers)[index];
    let dns = 2 * servers.len();
    let banned = address_space::all_forbidden_blocks();
    let public = address_space::all_public_blocks();
    if index < dns {
        let k = index / 2;
        assert(0 <= k < servers.len());
        assert(rule.remote_addresses == seq![net::ipv4_text(servers[k].bits)]);
        assert(rule.remote_ports == seq!["53"@]);
    } else if dns + banned.len() < index <= dns + banned.len() + public.len() {
        let k = index - dns - 1 - banned.len();
        assert(rule.remote_addresses == seq![public[k].spec_text()]);
    }
}

/// Rule `index` blocks forbidden block `k`, which contains `address`, for every protocol and port,
/// and weighs more than every rule that lets a guest out without a port.
pub open spec fn blocks_address(rules: Seq<RuleView>, index: int, k: int, address: int) -> bool {
    &&& 0 <= index < rules.len()
    &&& 0 <= k < address_space::all_forbidden_blocks().len()
    &&& address_space::all_forbidden_blocks()[k].contains(address)
    &&& rules[index].remote_addresses == seq![address_space::all_forbidden_blocks()[k].spec_text()]
    &&& rules[index].action == "Deny"@
    &&& rules[index].direction == "Outbound"@
    &&& rules[index].protocol == "Any"@
    &&& rules[index].remote_ports.len() == 0
    &&& forall|other: int|
        0 <= other < rules.len() && (#[trigger] rules[other]).action == "Allow"@
            && rules[other].remote_ports.len() == 0 ==> rules[other].priority
            < rules[index].priority
}

/// The addresses that no guest may reach are blocked for every protocol and port, by rules that
/// weigh more than every rule that lets a guest out to the public addresses; and those rules cover
/// no such address.
pub proof fn external_blocks_forbidden_addresses(
    prefix: Seq<char>,
    local: Seq<char>,
    servers: Seq<Ipv4Addr>,
    address: u32,
)
    requires
        address_space::is_forbidden(address as int),
    ensures
        exists|index: int, k: int| #[trigger]
            blocks_address(external_rules(prefix, local, servers), index, k, address as int),
        forall|k: int|
            0 <= k < address_space::all_public_blocks().len() ==> !(
            #[trigger] address_space::all_public_blocks()[k]).contains(address as int),
{
    reveal_strlit("Allow");
    reveal_strlit("Deny");
    assert("Allow"@.len() == 5);
    assert("Deny"@.len() == 4);
    address_space::blocks_divide_the_address_space(address);
    let rules = external_rules(prefix, local, servers);
    let dns = 2 * servers.len();
    let banned = address_space::all_forbidden_blocks();
    let public = address_space::all_public_blocks();
    let k = choose|k: int| 0 <= k < banned.len() && (#[trigger] banned[k]).contains(address as int);
    let index = dns + 1 + k;
    lemma_external_places(prefix, local, servers, index);
    assert(rules[index].remote_addresses == seq![banned[k].spec_text()]);
    assert(rules[index].priority == 40_000 - k);
    assert forall|other: int|
        0 <= other < rules.len() && (#[trigger] rules[other]).action == "Allow"@
            && rules[other].remote_ports.len() == 0 implies rules[other].priority
        < rules[index].priority by {
        lemma_external_places(prefix, local, servers, other);
        if other < dns {
            assert(rules[other].remote_ports == seq!["53"@]);
        }
    }
    assert(blocks_address(rules, index, k, address as int));
    assert(!address_space::covers(public, address as int));
    assert forall|j: int| 0 <= j < public.len() implies !(#[trigger] public[j]).contains(
        address as int,
    ) by {
        if public[j].contains(address as int) {
            assert(address_space::covers(public, address as int));
        }
    }
}

/// No two rules of a run have the same weight, in either mode and whatever their directions, so
/// which of two matching rules prevails is never left open.
pub proof fn rule_weights_are_distinct(plan: &ControlledPlan, run_id: Seq<char>, address: u32)
    requires
        plan.dns_servers@.len() <= 8,
    ensures
        distinct_weights(plan.expected_rules(run_id, address)),
{
    let rules = plan.expected_rules(run_id, address);
    let prefix = rule_prefix_text(run_id);
    let local = net::ipv4_text(address);
    assert forall|i: int, j: int| 0 <= i < j < rules.len() implies (#[trigger] rules[i]).priority != (
    #[trigger] rules[j]).priority by {
        if plan.network_mode == ControlledNetworkMode::External {
            address_space::blocks_divide_the_address_space(0);
            lemma_external_places(prefix, local, plan.dns_servers@, i);
            lemma_external_places(prefix, local, plan.dns_servers@, j);
        }
    }
}

/// In each direction one rule blocks every peer, protocol and port, and no other rule of that
/// direction weighs as little.
pub proof fn catch_all_denials_weigh_least(
    plan: &ControlledPlan,
    run_id: Seq<char>,
    address: u32,
    index: int,
)
    requires
        plan.dns_servers@.len() <= 8,
        0 <= index < plan.expected_rules(run_id, address).len() - 2,
    ensures
        ({
            let rules = plan.expected_rules(run_id, address);
            let closing = closing_rules(rule_prefix_text(run_id), net::ipv4_text(address));
            &&& rules[rules.len() - 2] == closing[0]
            &&& rules[rules.len() - 1] == closing[1]
            &&& closing[0].priority < rules[index].priority
            &&& closing[1].priority < rules[index].priority
        }),
{
    let rules = plan.expected_rules(run_id, address);
    let prefix = rule_prefix_text(run_id);
    let local = net::ipv4_text(address);
    if plan.network_mode == ControlledNetworkMode::External {
        address_space::blocks_divide_the_address_space(0);
        lemma_external_places(prefix, local, plan.dns_servers@, index);
        lemma_external_places(prefix, local, plan.dns_servers@, rules.len() - 2);
        lemma_external_places(prefix, local, plan.dns_servers@, rules.len() - 1);
    }
}

proof fn lemma_begins(prefix: Seq<char>, rest: Seq<char>)
    ensures
        text::begins(prefix + rest, prefix),
{
    assert((prefix + rest).take(prefix.len() as int) =~= prefix);
}

proof fn lemma_begins_twice(prefix: Seq<char>, middle: Seq<char>, rest: Seq<char>)
    ensures
        text::begins(prefix + middle + rest, prefix),
{
    assert((prefix + middle + rest).take(prefix.len() as int) =~= prefix);
}

/// Every rule of a run is named under its prefix.
proof fn lemma_rules_are_prefixed(plan: &ControlledPlan, run_id: Seq<char>, address: u32, index: int)
    requires
        0 <= index < plan.expected_rules(run_id, address).len(),
    ensures
        text::begins(plan.expected_rules(run_id, address)[index].name, rule_prefix_text(run_id)),
{
    let prefix = rule_prefix_text(run_id);
    let local = net::ipv4_text(address);
    match plan.network_mode {
        ControlledNetworkMode::HostServer => {
            lemma_begins(prefix, "host-service"@);
            lemma_begins(prefix, "host-service-reply"@);
            lemma_begins(prefix, "block-outbound"@);
            lemma_begins(prefix, "block-inbound"@);
        },
        ControlledNetworkMode::External => {
            lemma_external_places(prefix, local, plan.dns_servers@, index);
            let dns = 2 * plan.dns_servers@.len();
            let banned = address_space::all_forbidden_blocks();
            if index < dns {
                lemma_begins_twice(prefix, "dns-"@, text::decimal((index / 2) as nat));
                lemma_begins_twice(prefix, "dns-reply-"@, text::decimal((index / 2) as nat));
            } else {
                lemma_begins(prefix, "block-other-dns"@);
                lemma_begins_twice(
                    prefix,
                    "block-local-"@,
                    text::padded3((index - dns - 1) as nat),
                );
                lemma_begins_twice(
                    prefix,
                    "public-ipv4-"@,
                    text::padded3((index - dns - 1 - banned.len()) as nat),
                );
                lemma_begins(prefix, "block-outbound"@);
                lemma_begins(prefix, "block-inbound"@);
            }
        },
    }
}

/// The prefix of a run is a short text that begins as cleanup asks.
proof fn lemma_rule_prefix(run_id: Seq<char>)
    requires
        network_run_id(run_id),
    ensures
        rule_prefix_text(run_id).len() >= 1,
        text::byte_len(rule_prefix_text(run_id)) <= 96,
        text::begins(rule_prefix_text(run_id), "Foxhole-"@),
{
    reveal_strlit("Foxhole-");
    reveal_strlit("-");
    let prefix = rule_prefix_text(run_id);
    assert("Foxhole-"@.len() == 8);
    assert("-"@.len() == 1);
    assert(prefix.len() == run_id.len() + 9);
    lemma_begins_twice("Foxhole-"@, run_id, "-"@);
    assert(vstd::utf8::is_ascii_chars(prefix)) by {
        assert forall|i: int| 0 <= i < prefix.len() implies '\0' <= #[trigger] prefix[i] <= '\u{7f}' by {
            if i < 8 {
                assert(prefix[i] == "Foxhole-"@[i]);
            } else if i < 8 + run_id.len() {
                assert(prefix[i] == run_id[i - 8]);
                assert(text::is_hex_digit(run_id[i - 8]));
            } else {
                assert(prefix[i] == "-"@[0]);
            }
        }
    }
    vstd::utf8::is_ascii_chars_encode_utf8(prefix);
}

/// The directory of a lease is the directory that it was made in.
proof fn lemma_lease_directory(lease: &GuestAddressLease, directory: &HostPath, root: &HostPath)
    requires
        lease.path.extends(directory, lease_name(lease.address.bits)),
        allowed_allocation(directory.shown@, Some(root)),
    ensures
        host_path::directory_text(lease.path.style, lease.path.shown@) == directory.shown@,
        host_path::extension_of_name(lease_name(lease.address.bits)) == Some("lease"@),
{
    let style = directory.style;
    let shown = directory.shown@;
    let name = lease_name(lease.address.bits);
    reveal_strlit("allocations");
    reveal_strlit(".lease");
    reveal_strlit("lease");
    reveal_strlit("_");
    let expected = allocation_text(root);
    assert("allocations"@.len() == 11);
    assert(".lease"@.len() == 6);
    assert("lease"@.len() == 5);
    assert(expected.last() == 's') by {
        assert("allocations"@[10] == 's');
        assert(expected[expected.len() - 1] == "allocations"@[10]);
    }
    assert(shown.len() > 0 && text::ascii_lower(shown.last()) == 's') by {
        assert(text::lower(shown).len() == shown.len());
        assert(text::lower(expected).len() == expected.len());
        assert(text::lower(expected).last() == text::ascii_lower(expected.last()));
        assert(text::lower(shown).last() == text::ascii_lower(shown.last()));
    }
    assert(shown.last() != '.' && !host_path::is_separator(style, shown.last()));
    // The name holds digits, underscores and the extension.
    let stem = name.take(name.len() - 6);
    lemma_lease_name_chars(lease.address.bits);
    assert(name.len() >= 6);
    assert forall|i: int| 0 <= i < name.len() implies !host_path::is_separator(
        style,
        #[trigger] name[i],
    ) by {}
    let joined = shown.push(host_path::separator(style)) + name;
    assert(lease.path.shown@ == joined);
    assert(joined.last() == name.last());
    assert(host_path::trimmed_end(style, joined) == joined);
    lemma_without_name(style, shown.push(host_path::separator(style)), name);
    assert(host_path::without_name(style, joined) == shown.push(host_path::separator(style)));
    assert(shown.push(host_path::separator(style)).drop_last() =~= shown);
    assert(host_path::trimmed_end(style, shown) == shown);
    // The last dot is the one before the extension.
    text::lemma_last_index(name, '.');
    let dot = text::last_index(name, '.');
    assert(name[name.len() - 6] == '.');
    assert(dot >= name.len() - 6) by {
        if dot < name.len() - 6 {
            assert(name[name.len() - 6] != '.');
        }
    }
    assert(dot == name.len() - 6) by {
        if dot > name.len() - 6 {
            assert(name[dot] == ".lease"@[dot - (name.len() - 6)]);
            assert(".lease"@[1] != '.' && ".lease"@[2] != '.' && ".lease"@[3] != '.' && ".lease"@[4]
                != '.' && ".lease"@[5] != '.');
        }
    }
    assert(name.skip(dot + 1) =~= "lease"@) by {
        assert forall|i: int| 0 <= i < 5 implies name.skip(dot + 1)[i] == "lease"@[i] by {
            assert(name[dot + 1 + i] == ".lease"@[1 + i]);
        }
    }
}

proof fn lemma_decimal_chars(n: nat)
    ensures
        text::decimal(n).len() >= 1,
        text::all_digits(text::decimal(n)),
    decreases n,
{
    if n >= 10 {
        lemma_decimal_chars(n / 10);
        let shorter = text::decimal(n / 10);
        assert forall|i: int| 0 <= i < text::decimal(n).len() implies text::is_digit(
            #[trigger] text::decimal(n)[i],
        ) by {
            if i < shorter.len() {
                assert(text::is_digit(shorter[i]));
            }
        }
    }
}

/// A lease name holds digits and underscores before its extension, at least one digit among them.
proof fn lemma_lease_name_chars(bits: u32)
    ensures
        lease_name(bits).len() > 6,
        forall|i: int|
            0 <= i < lease_name(bits).len() ==> (#[trigger] lease_name(bits)[i]) != '/'
                && lease_name(bits)[i] != '\\',
        forall|i: int| 0 <= i < 6 ==> lease_name(bits)[lease_name(bits).len() - 6 + i] == (
        #[trigger] ".lease"@[i]),
{
    reveal_strlit(".lease");
    reveal_strlit("_");
    let name = lease_name(bits);
    let a = text::decimal(net::octet(bits, 0));
    let b = text::decimal(net::octet(bits, 1));
    let c = text::decimal(net::octet(bits, 2));
    let d = text::decimal(net::octet(bits, 3));
    lemma_decimal_chars(net::octet(bits, 0));
    lemma_decimal_chars(net::octet(bits, 1));
    lemma_decimal_chars(net::octet(bits, 2));
    lemma_decimal_chars(net::octet(bits, 3));
    let ab = a + "_"@ + b;
    let abc = ab + "_"@ + c;
    let abcd = abc + "_"@ + d;
    assert(name =~= abcd + ".lease"@);
    assert(plain_chars(a) && plain_chars(b) && plain_chars(c) && plain_chars(d)) by {
        lemma_digits_plain(a);
        lemma_digits_plain(b);
        lemma_digits_plain(c);
        lemma_digits_plain(d);
    }
    assert(plain_chars("_"@));
    assert(plain_chars(".lease"@));
    lemma_plain_concat(a, "_"@);
    lemma_plain_concat(a + "_"@, b);
    lemma_plain_concat(ab, "_"@);
    lemma_plain_concat(ab + "_"@, c);
    lemma_plain_concat(abc, "_"@);
    lemma_plain_concat(abc + "_"@, d);
    lemma_plain_concat(abcd, ".lease"@);
    assert(plain_chars(name));
}

/// No character is a separator.
spec fn plain_chars(value: Seq<char>) -> bool {
    forall|i: int| 0 <= i < value.len() ==> (#[trigger] value[i]) != '/' && value[i] != '\\'
}

proof fn lemma_digits_plain(value: Seq<char>)
    requires
        text::all_digits(value),
    ensures
        plain_chars(value),
{
    assert forall|i: int| 0 <= i < value.len() implies (#[trigger] value[i]) != '/' && value[i]
        != '\\' by {
        assert(text::is_digit(value[i]));
    }
}

proof fn lemma_plain_concat(left: Seq<char>, right: Seq<char>)
    requires
        plain_chars(left),
        plain_chars(right),
    ensures
        plain_chars(left + right),
{
    let all = left + right;
    assert forall|i: int| 0 <= i < all.len() implies (#[trigger] all[i]) != '/' && all[i] != '\\' by {
        if i < left.len() {
            assert(all[i] == left[i]);
        } else {
            assert(all[i] == right[i - left.len()]);
        }
    }
}

/// A name without separators is what stands behind the last separator.
proof fn lemma_without_name(style: host_path::PathStyle, base: Seq<char>, name: Seq<char>)
    requires
        base.len() > 0,
        host_path::is_separator(style, base.last()),
        forall|i: int| 0 <= i < name.len() ==> !host_path::is_separator(style, #[trigger] name[i]),
    ensures
        host_path::without_name(style, base + name) == base,
    decreases name.len(),
{
    if name.len() == 0 {
        assert(base + name =~= base);
    } else {
        assert((base + name).drop_last() =~= base + name.drop_last());
        assert((base + name).last() == name.last());
        assert forall|i: int| 0 <= i < name.drop_last().len() implies !host_path::is_separator(
            style,
            #[trigger] name.drop_last()[i],
        ) by {
            assert(name.drop_last()[i] == name[i]);
        }
        lemma_without_name(style, base, name.drop_last());
    }
}

/// Nothing that a run adds to the host's network is beyond its cleanup: what an activated and
/// journaled plan owns passes the check of the journal, and cleanup accepts it.
pub proof fn owned_network_is_cleanable(
    gateway: &ControlledGatewayConfig,
    program_data: &HostPath,
    planned: &ControlledPlan,
    activated: &ControlledPlan,
    scope: String,
    lease: &GuestAddressLease,
    resources: &NetworkOwnedResources,
    vm_id: Seq<char>,
    run_id: Seq<char>,
    run_root: &HostPath,
)
    requires
        gateway.verdict(Some(program_data)) is Ok,
        gateway.mode_verdict(planned.network_mode) is Ok,
        planned.planned_from(gateway, planned.network_mode),
        lease.run_id@ == run_id,
        lease.path.extends(&planned.allocation_directory, lease_name(lease.address.bits)),
        activated.activated(planned, run_id, run_root, lease),
        (ControlledPlan { firewall_scope_id: Some(scope), ..*activated }).ownership_verdict(
            vm_id,
            run_id,
        ) is Ok,
        (ControlledPlan { firewall_scope_id: Some(scope), ..*activated }).owned_as(
            resources,
            vm_id,
            run_id,
        ),
    ensures
        resources.journal_verdict(run_id, run_root, Some(program_data)) is Ok,
        resources.cleanup_verdict() is Ok,
{
    let prefix = rule_prefix_text(run_id);
    let rules = planned.expected_rules(run_id, lease.address.bits);
    assert(valid_identifier(gateway.host_adapter_id@)) by {
        assert(identifier_verdict(gateway.host_adapter_id@, "host adapter identifier"@) is Ok);
    }
    lemma_rule_prefix(run_id);
    assert(rule_views(resources.firewall_rules@) == rules);
    assert(rule_views(resources.firewall_rules@).len() == resources.firewall_rules@.len());
    assert(rule_views(activated.firewall_rules@).len() == activated.firewall_rules@.len());
    assert(rule_names(resources.firewall_rules@) =~= rule_names(activated.firewall_rules@)) by {
        assert forall|i: int| 0 <= i < resources.firewall_rules@.len() implies #[trigger] rule_names(
            resources.firewall_rules@,
        )[i] == rule_names(activated.firewall_rules@)[i] by {
            assert(rule_views(resources.firewall_rules@)[i] == rules[i]);
            assert(rule_views(activated.firewall_rules@)[i] == rules[i]);
        }
    }
    assert forall|i: int| 0 <= i < resources.firewall_rule_ids@.len() implies text::begins(
        (#[trigger] resources.firewall_rule_ids@[i])@,
        prefix,
    ) by {
        assert(text::views(resources.firewall_rule_ids@)[i] == resources.firewall_rule_ids@[i]@);
        assert(text::views(resources.firewall_rule_ids@).len() == resources.firewall_rule_ids@.len());
        assert(rule_names(activated.firewall_rules@)[i] == rule_views(activated.firewall_rules@)[i].name);
        lemma_rules_are_prefixed(planned, run_id, lease.address.bits, i);
    }
    lemma_begins(prefix, "host-inbound"@);
    assert(resources.rules_owned(prefix));
    lemma_lease_directory(lease, &planned.allocation_directory, program_data);
    assert(host_path::name_of(lease.path.spec_parts()) == Some(lease_name(lease.address.bits)));
    assert(resources.guest_lease is Some);
    let recorded_lease = resources.guest_lease->0;
    assert(lease_scoped(&recorded_lease, run_id, Some(program_data)));
    assert(resources.host_firewall_owned(prefix));
    assert(resources.scoped_to(run_id, run_root));
}

// ---------------------------------------------------------------------------------------------
// What the rules let through
// ---------------------------------------------------------------------------------------------

/// The text of a rule's peer names `peer`: every address, or a network that it lies in. An address
/// without a prefix length is the network of that address alone.
pub open spec fn names_peer(shown: Seq<char>, peer: u32) -> bool {
    ||| shown == "Any"@
    ||| backend::network_value(shown) matches Ok(backend::NetworkView::V4(first, prefix)) && first
        <= peer < first + vstd::arithmetic::power2::pow2((32 - prefix) as nat)
}

/// The rule speaks of traffic in this direction, of this protocol, with this port of this peer.
pub open spec fn concerns(
    rule: RuleView,
    direction: Seq<char>,
    protocol: Seq<char>,
    peer: u32,
    port: u16,
) -> bool {
    &&& rule.direction == direction
    &&& rule.protocol == "Any"@ || rule.protocol == protocol
    &&& rule.remote_addresses.len() == 1 && names_peer(rule.remote_addresses[0], peer)
    &&& rule.remote_ports.len() == 0 || rule.remote_ports == seq![text::decimal(port as nat)]
}

/// Of the rules that speak of the traffic, the one that weighs most says `action`.
pub open spec fn decides(
    rules: Seq<RuleView>,
    index: int,
    action: Seq<char>,
    direction: Seq<char>,
    protocol: Seq<char>,
    peer: u32,
    port: u16,
) -> bool {
    &&& 0 <= index < rules.len()
    &&& concerns(rules[index], direction, protocol, peer, port)
    &&& rules[index].action == action
    &&& forall|other: int|
        0 <= other < rules.len() && other != index && concerns(
            #[trigger] rules[other],
            direction,
            protocol,
            peer,
            port,
        ) ==> rules[other].priority < rules[index].priority
}

proof fn lemma_address_is_named(bits: u32, peer: u32)
    ensures
        names_peer(net::ipv4_text(bits), peer) <==> peer == bits,
{
    let network = backend::NetworkView::V4(bits as nat, 32);
    address_text::bare_addresses_read_with_the_full_prefix(network);
    assert(address_text::bare_text(network) == net::ipv4_text(bits));
    vstd::arithmetic::power2::lemma2_to64();
    lemma_digit_first(bits);
}

/// The text of an address begins with a digit.
proof fn lemma_digit_first(bits: u32)
    ensures
        net::ipv4_text(bits).len() > 0,
        text::is_digit(net::ipv4_text(bits)[0]),
        net::ipv4_text(bits) != "Any"@,
{
    reveal_strlit("Any");
    let first = text::decimal(net::octet(bits, 0));
    address_text::lemma_decimal(net::octet(bits, 0));
    assert(net::ipv4_text(bits)[0] == first[0]);
    assert(text::is_digit(first[0]));
    assert("Any"@[0] == 'A');
}

proof fn lemma_block_is_named(block: address_space::Block, peer: u32)
    requires
        block.aligned(),
    ensures
        names_peer(block.spec_text(), peer) <==> block.contains(peer as int),
{
    reveal_strlit("Any");
    address_space::block_texts_name_their_addresses(block);
    lemma_digit_first(block.start);
    assert(block.spec_text()[0] == net::ipv4_text(block.start)[0]);
    assert("Any"@[0] == 'A');
}

proof fn lemma_ports(left: u16, right: u16)
    ensures
        text::decimal(left as nat) == text::decimal(right as nat) <==> left == right,
        text::decimal(left as nat) == "53"@ <==> left == 53,
{
    reveal_strlit("53");
    address_text::lemma_decimal(left as nat);
    address_text::lemma_decimal(right as nat);
    address_text::lemma_decimal(53);
    assert(text::decimal(5) =~= seq!['5']);
    assert(text::decimal(53) =~= "53"@);
}

proof fn lemma_rule_words()
    ensures
        "Allow"@ != "Deny"@,
        "Outbound"@ != "Inbound"@,
        "TCP"@ != "Any"@,
{
    reveal_strlit("Allow");
    reveal_strlit("Deny");
    reveal_strlit("Outbound");
    reveal_strlit("Inbound");
    reveal_strlit("TCP");
    reveal_strlit("Any");
    assert("Allow"@.len() == 5 && "Deny"@.len() == 4);
    assert("Outbound"@.len() == 8 && "Inbound"@.len() == 7);
    assert("TCP"@[0] == 'T' && "Any"@[0] == 'A');
}

/// Which of the rules of a guest that reaches the internet speak of some traffic.
proof fn lemma_external_concerns(
    prefix: Seq<char>,
    local: Seq<char>,
    servers: Seq<Ipv4Addr>,
    index: int,
    direction: Seq<char>,
    protocol: Seq<char>,
    peer: u32,
    port: u16,
)
    requires
        0 <= index < external_rules(prefix, local, servers).len(),
        direction == "Outbound"@ || direction == "Inbound"@,
        protocol != "Any"@,
    ensures
        ({
            let rules = external_rules(prefix, local, servers);
            let dns = 2 * servers.len();
            let banned = address_space::all_forbidden_blocks();
            let public = address_space::all_public_blocks();
            let outbound = direction == "Outbound"@;
            concerns(rules[index], direction, protocol, peer, port) <==> {
                ||| index < dns && servers[index / 2].bits == peer && port == 53 && (if index % 2 == 0 {
                    outbound
                } else {
                    !outbound
                })
                ||| index == dns && port == 53 && outbound
                ||| dns < index <= dns + banned.len() && banned[index - dns - 1].contains(
                    peer as int,
                ) && outbound
                ||| dns + banned.len() < index <= dns + banned.len() + public.len() && public[index
                    - dns - 1 - banned.len()].contains(peer as int) && outbound && protocol == "TCP"@
                ||| index == dns + 1 + banned.len() + public.len() && outbound
                ||| index == dns + 2 + banned.len() + public.len() && !outbound
            }
        }),
{
    lemma_rule_words();
    lemma_ports(port, port);
    lemma_external_places(prefix, local, servers, index);
    address_space::blocks_divide_the_address_space(peer);
    let rules = external_rules(prefix, local, servers);
    let rule = rules[index];
    let dns = 2 * servers.len();
    let banned = address_space::all_forbidden_blocks();
    let public = address_space::all_public_blocks();
    if index < dns {
        lemma_address_is_named(servers[index / 2].bits, peer);
        assert(rule.remote_addresses[0] == net::ipv4_text(servers[index / 2].bits));
        assert(rule.remote_ports == seq!["53"@]);
        assert(rule.remote_ports[0] == "53"@);
    } else if index == dns {
        assert(rule.remote_addresses[0] == "Any"@);
        assert(rule.remote_ports[0] == "53"@);
    } else if index <= dns + banned.len() {
        let k = index - dns - 1;
        assert(banned[k].aligned());
        lemma_block_is_named(banned[k], peer);
        assert(rule.remote_addresses[0] == banned[k].spec_text());
    } else if index <= dns + banned.len() + public.len() {
        let k = index - dns - 1 - banned.len();
        assert(public[k].aligned());
        lemma_block_is_named(public[k], peer);
        assert(rule.remote_addresses[0] == public[k].spec_text());
    } else {
        assert(rule.remote_addresses[0] == "Any"@);
    }
    assert(seq!["53"@] == seq![text::decimal(port as nat)] <==> "53"@ == text::decimal(port as nat))
        by {
        assert(seq!["53"@][0] == "53"@);
        assert(seq![text::decimal(port as nat)][0] == text::decimal(port as nat));
    }
}

/// What a guest that reaches the internet can do: it reaches port 53 of its resolvers, by any
/// protocol, and hears their replies; it reaches every other port of every address that is not
/// forbidden, by TCP alone; and nothing else goes out or comes in.
pub proof fn internet_guests_reach_public_addresses_alone(
    plan: &ControlledPlan,
    run_id: Seq<char>,
    address: u32,
    direction: Seq<char>,
    protocol: Seq<char>,
    peer: u32,
    port: u16,
)
    requires
        plan.network_mode == ControlledNetworkMode::External,
        plan.dns_servers@.len() <= 8,
        plan.dns_servers@.no_duplicates(),
        direction == "Outbound"@ || direction == "Inbound"@,
        protocol != "Any"@,
    ensures
        ({
            let rules = plan.expected_rules(run_id, address);
            let resolver = exists|k: int|
                0 <= k < plan.dns_servers@.len() && (#[trigger] plan.dns_servers@[k]).bits == peer;
            let allowed = if port == 53 {
                resolver
            } else {
                direction == "Outbound"@ && protocol == "TCP"@ && !address_space::is_forbidden(
                    peer as int,
                )
            };
            &&& allowed ==> exists|index: int| #[trigger]
                decides(rules, index, "Allow"@, direction, protocol, peer, port)
            &&& !allowed ==> exists|index: int| #[trigger]
                decides(rules, index, "Deny"@, direction, protocol, peer, port)
        }),
{
    let prefix = rule_prefix_text(run_id);
    let local = net::ipv4_text(address);
    let servers = plan.dns_servers@;
    let rules = plan.expected_rules(run_id, address);
    let dns = 2 * servers.len();
    let banned = address_space::all_forbidden_blocks();
    let public = address_space::all_public_blocks();
    let outbound = direction == "Outbound"@;
    lemma_rule_words();
    address_space::blocks_divide_the_address_space(peer);
    let resolver = exists|k: int|
        0 <= k < servers.len() && (#[trigger] servers[k]).bits == peer;
    let closing = dns + 1 + banned.len() + public.len();
    lemma_external_places(prefix, local, servers, 0);
    let index: int = if port == 53 && resolver {
        let k = choose|k: int| 0 <= k < servers.len() && (#[trigger] servers[k]).bits == peer;
        if outbound {
            2 * k
        } else {
            2 * k + 1
        }
    } else if port == 53 && outbound {
        dns as int
    } else if outbound && address_space::is_forbidden(peer as int) {
        let k = choose|k: int|
            0 <= k < banned.len() && (#[trigger] banned[k]).contains(peer as int);
        dns + 1 + k
    } else if outbound && protocol == "TCP"@ {
        let k = choose|k: int|
            0 <= k < public.len() && (#[trigger] public[k]).contains(peer as int);
        dns + 1 + banned.len() + k
    } else if outbound {
        closing as int
    } else {
        (closing + 1) as int
    };
    let action = if port == 53 && resolver || port != 53 && outbound && protocol == "TCP"@
        && !address_space::is_forbidden(peer as int) {
        "Allow"@
    } else {
        "Deny"@
    };
    lemma_external_concerns(prefix, local, servers, index, direction, protocol, peer, port);
    lemma_external_places(prefix, local, servers, index);
    assert forall|other: int|
        0 <= other < rules.len() && other != index && concerns(
            #[trigger] rules[other],
            direction,
            protocol,
            peer,
            port,
        ) implies rules[other].priority < rules[index].priority by {
        lemma_external_concerns(prefix, local, servers, other, direction, protocol, peer, port);
        lemma_external_places(prefix, local, servers, other);
        if port == 53 && resolver && other < dns {
            assert(servers[other / 2].bits == servers[index / 2].bits);
            assert(servers[other / 2] == servers[index / 2]);
            assert(other / 2 == index / 2);
        }
    }
    assert(decides(rules, index, action, direction, protocol, peer, port));
}

/// What a guest of the host-server mode can do: it reaches one port of the host by TCP and hears
/// from it; nothing else goes out or comes in.
pub proof fn service_guests_reach_the_service_alone(
    plan: &ControlledPlan,
    run_id: Seq<char>,
    address: u32,
    direction: Seq<char>,
    protocol: Seq<char>,
    peer: u32,
    port: u16,
)
    requires
        plan.network_mode == ControlledNetworkMode::HostServer,
        plan.host_service_port is Some,
        direction == "Outbound"@ || direction == "Inbound"@,
        protocol != "Any"@,
    ensures
        ({
            let rules = plan.expected_rules(run_id, address);
            let allowed = protocol == "TCP"@ && peer == plan.host_ipv4.bits && port
                == plan.host_service_port->0;
            &&& allowed ==> exists|index: int| #[trigger]
                decides(rules, index, "Allow"@, direction, protocol, peer, port)
            &&& !allowed ==> exists|index: int| #[trigger]
                decides(rules, index, "Deny"@, direction, protocol, peer, port)
        }),
{
    let rules = plan.expected_rules(run_id, address);
    let service = plan.host_service_port->0;
    let allowed = protocol == "TCP"@ && peer == plan.host_ipv4.bits && port == service;
    let outbound = direction == "Outbound"@;
    lemma_rule_words();
    lemma_ports(port, service);
    lemma_address_is_named(plan.host_ipv4.bits, peer);
    assert(rules.len() == 4);
    let index: int = if allowed {
        if outbound {
            0
        } else {
            1
        }
    } else if outbound {
        2
    } else {
        3
    };
    let told = text::decimal(service as nat);
    let asked = text::decimal(port as nat);
    assert(seq![told] == seq![asked] <==> told == asked) by {
        assert(seq![told][0] == told);
        assert(seq![asked][0] == asked);
    }
    assert(rules[0].remote_addresses[0] == net::ipv4_text(plan.host_ipv4.bits));
    assert(rules[1].remote_addresses[0] == net::ipv4_text(plan.host_ipv4.bits));
    assert(rules[2].remote_addresses[0] == "Any"@);
    assert(rules[3].remote_addresses[0] == "Any"@);
    let action = if allowed {
        "Allow"@
    } else {
        "Deny"@
    };
    assert(rules[0].remote_ports == seq![told] && rules[1].remote_ports == seq![told]);
    assert(rules[2].remote_ports.len() == 0 && rules[3].remote_ports.len() == 0);
    assert forall|other: int|
        0 <= other < rules.len() && other != index && concerns(
            #[trigger] rules[other],
            direction,
            protocol,
            peer,
            port,
        ) implies rules[other].priority < rules[index].priority by {
        assert(other == 0 || other == 1 || other == 2 || other == 3);
    }
    assert(decides(rules, index, action, direction, protocol, peer, port));
}

/// Every address that is not forbidden lies in the block of a rule that lets a guest out to it by TCP,
/// to any port, statefully.
pub proof fn every_public_address_is_let_through(
    plan: &ControlledPlan,
    run_id: Seq<char>,
    address: u32,
    peer: u32,
)
    requires
        plan.network_mode == ControlledNetworkMode::External,
        !address_space::is_forbidden(peer as int),
    ensures
        exists|index: int, first: u32, bits: u8|
            #![trigger plan.expected_rules(run_id, address)[index], net::ipv4_text(first), text::decimal((32 - bits) as nat)]
            {
                &&& 0 <= index < plan.expected_rules(run_id, address).len()
                &&& plan.expected_rules(run_id, address)[index].action == "Allow"@
                &&& plan.expected_rules(run_id, address)[index].direction == "Outbound"@
                &&& plan.expected_rules(run_id, address)[index].protocol == "TCP"@
                &&& plan.expected_rules(run_id, address)[index].stateful
                &&& plan.expected_rules(run_id, address)[index].local_addresses == seq![
                    net::ipv4_text(address),
                ]
                &&& plan.expected_rules(run_id, address)[index].remote_ports.len() == 0
                &&& plan.expected_rules(run_id, address)[index].remote_addresses == seq![
                    net::ipv4_text(first) + "/"@ + text::decimal((32 - bits) as nat),
                ]
                &&& bits <= 32
                &&& first <= peer < first + vstd::arithmetic::power2::pow2(bits as nat)
            },
{
    let prefix = rule_prefix_text(run_id);
    let local = net::ipv4_text(address);
    let servers = plan.dns_servers@;
    let rules = plan.expected_rules(run_id, address);
    let dns = 2 * servers.len();
    let banned = address_space::all_forbidden_blocks();
    let public = address_space::all_public_blocks();
    address_space::blocks_divide_the_address_space(peer);
    let k = choose|k: int| 0 <= k < public.len() && (#[trigger] public[k]).contains(peer as int);
    let index = dns + 1 + banned.len() + k;
    lemma_external_places(prefix, local, servers, index);
    assert(public[k].aligned());
    let first = public[k].start;
    let bits = public[k].host_bits;
    assert(rules[index].remote_addresses == seq![
        net::ipv4_text(first) + "/"@ + text::decimal((32 - bits) as nat),
    ]);
}

/// Every rule of a run is for its guest's address alone and is named under the run; only what goes out
/// to the public addresses, and to the host's service, is stateful.
pub proof fn rules_are_the_runs_own(plan: &ControlledPlan, run_id: Seq<char>, address: u32, index: int)
    requires
        0 <= index < plan.expected_rules(run_id, address).len(),
    ensures
        ({
            let rule = plan.expected_rules(run_id, address)[index];
            &&& rule.local_addresses == seq![net::ipv4_text(address)]
            &&& text::begins(rule.name, "Foxhole-"@ + run_id + "-"@)
            &&& rule.stateful <==> rule.action == "Allow"@ && rule.direction == "Outbound"@
                && rule.protocol == "TCP"@
        }),
{
    lemma_rules_are_prefixed(plan, run_id, address, index);
    lemma_rule_words();
    if plan.network_mode == ControlledNetworkMode::External {
        lemma_external_places(
            rule_prefix_text(run_id),
            net::ipv4_text(address),
            plan.dns_servers@,
            index,
        );
    }
}

/// Host identifiers are one to 128 letters, digits, hyphens, underscores, braces, colons and
/// backslashes; the identifier of a run with a network is 16 to 64 hexadecimal digits.
pub proof fn identifiers_are_plain(identifier: Seq<char>, description: Seq<char>)
    ensures
        identifier_verdict(identifier, description) is Ok <==> 1 <= identifier.len() <= 128 && (forall|
            i: int,
        |
            0 <= i < identifier.len() ==> {
                let c = #[trigger] identifier[i];
                'a' <= c <= 'z' || 'A' <= c <= 'Z' || '0' <= c <= '9' || c == '-' || c == '_' || c
                    == '{' || c == '}' || c == ':' || c == '\\'
            }),
        identifier_verdict(identifier, description) is Ok <==> valid_identifier(identifier),
        run_id_verdict(identifier) is Ok <==> 16 <= identifier.len() <= 64 && (forall|i: int|
            0 <= i < identifier.len() ==> {
                let c = #[trigger] identifier[i];
                '0' <= c <= '9' || 'a' <= c <= 'f' || 'A' <= c <= 'F'
            }),
        run_id_verdict(identifier) matches Err(fault) ==> fault.stage == "hyperv_network"@,
{
    if valid_identifier(identifier) {
        assert forall|i: int| 0 <= i < identifier.len() implies ({
            let c = #[trigger] identifier[i];
            'a' <= c <= 'z' || 'A' <= c <= 'Z' || '0' <= c <= '9' || c == '-' || c == '_' || c == '{'
                || c == '}' || c == ':' || c == '\\'
        }) by {
            assert(identifier_char(identifier[i]));
        }
    }
    if text::all_hex(identifier) {
        assert forall|i: int| 0 <= i < identifier.len() implies ({
            let c = #[trigger] identifier[i];
            '0' <= c <= '9' || 'a' <= c <= 'f' || 'A' <= c <= 'F'
        }) by {
            assert(text::is_hex_digit(identifier[i]));
        }
    }
}

/// A gateway is usable exactly where its identifiers are plain, its switch is named, is not the
/// default one and not external, no run owns it, its leases lie in the protected directory, and its
/// addresses are unicast addresses of one subnet: the host outside an ascending pool, and none of
/// them at the edge.
pub proof fn usable_gateways(gateway: &ControlledGatewayConfig, program_data: Option<&HostPath>)
    ensures
        gateway.verdict(program_data) is Ok <==> {
            let prefix = gateway.prefix_length;
            let host = gateway.host_ipv4.bits;
            let start = gateway.guest_address_start.bits;
            let end = gateway.guest_address_end.bits;
            &&& valid_identifier(gateway.switch_id@)
            &&& valid_identifier(gateway.gateway_id@)
            &&& valid_identifier(gateway.host_adapter_id@)
            &&& !text::blank(gateway.switch_name@)
            &&& vstd::utf8::encode_utf8(gateway.switch_name@).len() <= 80
            &&& !text::has_control(gateway.switch_name@)
            &&& !text::same_ignoring_case(gateway.switch_name@, "Default Switch"@)
            &&& gateway.switch_type == ControlledSwitchType::Private || gateway.switch_type
                == ControlledSwitchType::Internal
            &&& !gateway.owned_by_run
            &&& 1 <= prefix <= 30
            &&& gateway.allocation_directory.absolute
            &&& program_data is Some && text::same_ignoring_case(
                gateway.allocation_directory.shown@,
                allocation_text(program_data->0),
            )
            &&& guest_protocol::guest_unicast(host)
            &&& guest_protocol::guest_unicast(start)
            &&& guest_protocol::guest_unicast(end)
            &&& start <= end
            &&& host < start || end < host
            &&& net::subnet_start(start, prefix) == net::subnet_start(host, prefix)
            &&& net::subnet_start(end, prefix) == net::subnet_start(host, prefix)
            &&& host != net::subnet_start(host, prefix) && host != net::subnet_end(host, prefix)
            &&& start != net::subnet_start(host, prefix) && start != net::subnet_end(host, prefix)
            &&& end != net::subnet_start(host, prefix) && end != net::subnet_end(host, prefix)
        },
        gateway.verdict(program_data) matches Err(fault) ==> fault.stage == "hyperv_network"@,
{
}

/// The host's service is offered on the internal switch of that name at 192.168.250.1/24 and nowhere
/// else, without a way further; the internet is reached through an internal switch whose gateway is
/// the host, behind translation, firewall, capture and blocked private ranges, with one to eight
/// different public resolvers.
pub proof fn usable_modes(gateway: &ControlledGatewayConfig)
    ensures
        gateway.mode_verdict(ControlledNetworkMode::HostServer) is Ok <==> {
            &&& gateway.switch_type == ControlledSwitchType::Internal
            &&& gateway.switch_name@ == "Foxhole Internal"@
            &&& gateway.host_ipv4.bits == 0xc0a8_fa01
            &&& gateway.prefix_length == 24
            &&& !gateway.nat_enabled
            &&& gateway.gateway_ipv4 is None
            &&& gateway.dns_servers@.len() == 0
            &&& gateway.host_service_port is Some && gateway.host_service_port->0 >= 1
            &&& gateway.firewall_enforced
        },
        gateway.mode_verdict(ControlledNetworkMode::External) is Ok <==> {
            &&& gateway.gateway_ipv4 is Some
            &&& gateway.gateway_ipv4->0 == gateway.host_ipv4
            &&& guest_protocol::guest_unicast(gateway.gateway_ipv4->0.bits)
            &&& gateway.switch_type == ControlledSwitchType::Internal
            &&& gateway.nat_enabled
            &&& gateway.firewall_enforced
            &&& gateway.packet_capture_enabled
            &&& gateway.host_private_ranges_blocked
            &&& gateway.host_service_port is None
            &&& 1 <= gateway.dns_servers@.len() <= 8
            &&& forall|i: int, j: int|
                0 <= i < j < gateway.dns_servers@.len() ==> (#[trigger] gateway.dns_servers@[i]) != (
                #[trigger] gateway.dns_servers@[j])
            &&& forall|i: int|
                0 <= i < gateway.dns_servers@.len() ==> !address_space::is_forbidden(
                    (#[trigger] gateway.dns_servers@[i]).bits as int,
                )
        },
{
    let servers = gateway.dns_servers@;
    if forall|i: int, j: int|
        0 <= i < j < servers.len() ==> (#[trigger] servers[i]) != (#[trigger] servers[j]) {
        assert(servers.no_duplicates());
    }
}

/// A policy is planned exactly where it needs no network, or where the gateway is usable and offers
/// the mode that goes with the policy.
pub proof fn plannable_policies(
    policy: &NetworkPolicy,
    gateway: Option<&ControlledGatewayConfig>,
    program_data: Option<&HostPath>,
)
    ensures
        plan_verdict(policy, gateway, program_data) is Ok <==> {
            ||| policy is DenyAll
            ||| gateway is Some && gateway->0.verdict(program_data) is Ok && policy is HostServer
                && gateway->0.mode_verdict(ControlledNetworkMode::HostServer) is Ok
            ||| gateway is Some && gateway->0.verdict(program_data) is Ok && policy is AllowInternet
                && gateway->0.mode_verdict(ControlledNetworkMode::External) is Ok
        },
{
}

/// What is observed passes exactly where it is what was planned. Without a network: no adapter, no
/// switch, no rule and no capture. With one: the one adapter, on the planned switch of the planned
/// type, the host's adapter and address, the guest's where it is asked for, the translation, each
/// planned rule and no other, a scope that did not change, a capture exactly where one was planned,
/// and neither IPv6 nor unexpected routes.
pub proof fn observed_networks_are_the_planned_ones(
    plan: &HyperVNetworkPlan,
    seen: &NetworkAttachment,
    require_guest_address: bool,
)
    ensures
        plan is DenyAll ==> (attachment_verdict(plan, seen, require_guest_address) is Ok <==> {
            &&& seen.adapter_count == 0
            &&& seen.switch_id is None
            &&& seen.firewall_rule_ids@.len() == 0
            &&& !seen.capture_active
        }),
        plan matches HyperVNetworkPlan::Controlled(controlled) ==> (attachment_verdict(
            plan,
            seen,
            require_guest_address,
        ) is Ok <==> {
            &&& seen.adapter_count == 1
            &&& seen.switch_id is Some && seen.switch_id->0@ == controlled.switch_id@
            &&& seen.switch_type is Some && seen.switch_type->0@ == match controlled.switch_type {
                ControlledSwitchType::Private => "Private"@,
                ControlledSwitchType::Internal => "Internal"@,
                ControlledSwitchType::External => "External"@,
            }
            &&& seen.host_adapter_id is Some && text::same_identifier(
                seen.host_adapter_id->0@,
                controlled.host_adapter_id@,
            )
            &&& seen.host_ipv4 == Some(controlled.host_ipv4)
            &&& require_guest_address ==> seen.guest_ipv4 == controlled.guest_ipv4
            &&& seen.nat_enabled == controlled.nat_enabled
            &&& text::views(seen.firewall_rule_ids@).to_multiset() == if
                controlled.host_firewall_rule_id is Some {
                rule_names(controlled.firewall_rules@).push(
                    controlled.host_firewall_rule_id->0@,
                ).to_multiset()
            } else {
                rule_names(controlled.firewall_rules@).to_multiset()
            }
            &&& seen.firewall_scope_id is Some
            &&& controlled.firewall_scope_id is Some ==> text::same_identifier(
                seen.firewall_scope_id->0@,
                controlled.firewall_scope_id->0@,
            )
            &&& seen.capture_active <==> controlled.capture_session is Some
            &&& seen.ipv6_disabled
            &&& seen.no_unexpected_routes
        }),
        attachment_verdict(plan, seen, require_guest_address) matches Err(fault) ==> fault.stage
            == "hyperv_network"@,
{
}

/// The guest's own account of a controlled network is bound exactly where it was given, is
/// acceptable, and names the planned address, prefix, gateway and resolvers.
pub proof fn guests_confirm_the_plan(
    plan: &ControlledPlan,
    attestation: Option<&GuestNetworkAttestation>,
)
    ensures
        plan.binding_verdict(attestation) is Ok <==> attestation is Some && {
            let report = attestation->0;
            &&& report.verdict() is Ok
            &&& plan.guest_ipv4 == Some(report.guest_ipv4)
            &&& report.prefix_length == plan.prefix_length
            &&& report.gateway_ipv4 == plan.gateway_ipv4
            &&& report.dns_servers@ == plan.dns_servers@
            &&& report.ipv6_disabled
            &&& report.no_unexpected_routes
        },
{
}

/// An activated plan keeps its configuration and gains the leased address, the rules and, by its
/// mode, either the host's own rule or the capture, all named after the run.
pub proof fn activations_are_named_after_their_run(
    after: &ControlledPlan,
    before: &ControlledPlan,
    run_id: Seq<char>,
    run_root: &HostPath,
    lease: &GuestAddressLease,
)
    requires
        after.activated(before, run_id, run_root, lease),
    ensures
        after.network_mode == before.network_mode,
        after.switch_id == before.switch_id,
        after.switch_name == before.switch_name,
        after.host_ipv4 == before.host_ipv4,
        after.prefix_length == before.prefix_length,
        after.gateway_ipv4 == before.gateway_ipv4,
        after.dns_servers == before.dns_servers,
        after.host_service_port == before.host_service_port,
        after.nat_enabled == before.nat_enabled,
        after.guest_ipv4 == Some(lease.address),
        rule_views(after.firewall_rules@) == before.expected_rules(run_id, lease.address.bits),
        before.network_mode == ControlledNetworkMode::HostServer
            ==> after.host_firewall_rule_id is Some && after.host_firewall_rule_id->0@ == "Foxhole-"@
            + run_id + "-"@ + "host-inbound"@,
        before.network_mode == ControlledNetworkMode::External ==> after.capture_session is Some
            && after.capture_session->0@ == "FoxholeNet-"@ + run_id && after.capture_file is Some
            && after.capture_file->0.extends(run_root, "network-capture.etl"@),
{
}

/// A planned network is the configured one, before anything of a run is in it.
pub proof fn plans_hold_the_configuration(
    plan: &ControlledPlan,
    gateway: &ControlledGatewayConfig,
    mode: ControlledNetworkMode,
)
    requires
        plan.planned_from(gateway, mode),
    ensures
        plan.network_mode == mode,
        plan.switch_name@ == gateway.switch_name@ && plan.switch_id@ == gateway.switch_id@,
        plan.switch_type == gateway.switch_type && plan.gateway_id@ == gateway.gateway_id@,
        plan.host_ipv4 == gateway.host_ipv4 && plan.prefix_length == gateway.prefix_length,
        plan.host_service_port == gateway.host_service_port,
        plan.host_adapter_id@ == gateway.host_adapter_id@,
        plan.guest_address_start == gateway.guest_address_start && plan.guest_address_end
            == gateway.guest_address_end,
        plan.dns_servers@ == gateway.dns_servers@ && plan.gateway_ipv4 == gateway.gateway_ipv4,
        plan.nat_enabled == gateway.nat_enabled,
        plan.guest_ipv4 is None && plan.lease_path is None && plan.firewall_rules@.len() == 0,
        plan.host_firewall_rule_id is None && plan.capture_session is None && plan.capture_file
            is None && plan.firewall_scope_id is None,
{
}

/// A plan is activated once, for a run that is properly named; only one with a network needs an
/// address.
pub proof fn plans_are_activated_once(plan: &HyperVNetworkPlan, run_id: Seq<char>)
    ensures
        activation_verdict(plan, run_id) is Ok <==> run_id_verdict(run_id) is Ok && (
        plan matches HyperVNetworkPlan::Controlled(controlled) ==> controlled.guest_ipv4 is None
            && controlled.lease_path is None),
        activation_verdict(plan, run_id) matches Ok(needed) ==> (needed <==> plan is Controlled),
{
}

/// The file of a lease is named by its address alone: two addresses never share one.
pub proof fn leases_are_named_by_their_address(first: u32, second: u32)
    requires
        lease_name(first) == lease_name(second),
    ensures
        first == second,
{
    lemma_lease_pieces(first);
    lemma_lease_pieces(second);
    address_text::shown_ipv4_addresses_read_back(first);
    address_text::shown_ipv4_addresses_read_back(second);
    assert forall|k: int| 0 <= k < 4 implies net::octet(first, k) == net::octet(second, k) by {
        address_text::lemma_decimal(net::octet(first, k));
        address_text::lemma_decimal(net::octet(second, k));
        let left = text::split(lease_name(first), '_');
        let right = text::split(lease_name(second), '_');
        assert(left[k] == right[k]);
        if k == 3 {
            let a = text::decimal(net::octet(first, 3));
            let b = text::decimal(net::octet(second, 3));
            assert(a + ".lease"@ == b + ".lease"@);
            assert(a.len() == b.len());
            assert((a + ".lease"@).take(a.len() as int) =~= a);
            assert((b + ".lease"@).take(b.len() as int) =~= b);
        }
    }
    assert(net::ipv4_text(first) == net::ipv4_text(second)) by {
        assert(net::octet(first, 0) == net::octet(second, 0));
        assert(net::octet(first, 1) == net::octet(second, 1));
        assert(net::octet(first, 2) == net::octet(second, 2));
        assert(net::octet(first, 3) == net::octet(second, 3));
    }
}

proof fn lemma_lease_pieces(bits: u32)
    ensures
        text::split(lease_name(bits), '_') == seq![
            text::decimal(net::octet(bits, 0)),
            text::decimal(net::octet(bits, 1)),
            text::decimal(net::octet(bits, 2)),
            text::decimal(net::octet(bits, 3)) + ".lease"@,
        ],
{
    reveal_strlit("_");
    reveal_strlit(".lease");
    let a = text::decimal(net::octet(bits, 0));
    let b = text::decimal(net::octet(bits, 1));
    let c = text::decimal(net::octet(bits, 2));
    let d = text::decimal(net::octet(bits, 3)) + ".lease"@;
    address_text::lemma_decimal(net::octet(bits, 0));
    address_text::lemma_decimal(net::octet(bits, 1));
    address_text::lemma_decimal(net::octet(bits, 2));
    address_text::lemma_decimal(net::octet(bits, 3));
    let parts = seq![a, b, c, d];
    assert forall|i: int| 0 <= i < parts.len() implies address_text::free(
        #[trigger] parts[i],
        '_',
    ) by {
        let last = text::decimal(net::octet(bits, 3));
        assert forall|j: int| 0 <= j < parts[i].len() implies #[trigger] parts[i][j] != '_' by {
            if i < 3 {
                assert(text::is_digit(parts[i][j]));
            } else if j < last.len() {
                assert(text::is_digit(last[j]));
            } else {
                assert(parts[i][j] == ".lease"@[j - last.len()]);
            }
        }
    }
    address_text::lemma_split_join(parts, '_');
    let sep = seq!['_'];
    assert("_"@ =~= sep);
    assert(parts.drop_last() =~= seq![a, b, c]);
    assert(seq![a, b, c].drop_last() =~= seq![a, b]);
    assert(seq![a, b].drop_last() =~= seq![a]);
    assert(text::join(seq![a], sep) == a);
    assert(text::join(seq![a, b], sep) == a + sep + b);
    assert(text::join(seq![a, b, c], sep) == a + sep + b + sep + c);
    assert(text::join(parts, sep) == a + sep + b + sep + c + sep + d);
    assert(lease_name(bits) =~= a + sep + b + sep + c + sep + d);
}

/// A lease is let go only from a plain small file that records the same run and address.
pub proof fn only_recorded_leases_are_released(
    facts: FileFacts,
    recorded: &GuestAddressLease,
    lease: &GuestAddressLease,
    directory: HostPath,
    is_directory: bool,
    is_link: bool,
)
    ensures
        lease_file_verdict(facts) is Ok <==> facts.regular && !facts.link && facts.len <= 4096,
        recorded.same(lease) ==> recorded.run_id@ == lease.run_id@ && recorded.address
            == lease.address,
        allocation_directory_verdict(directory, is_directory, is_link) is Ok <==> directory.absolute
            && is_directory && !is_link,
{
}

/// A record of what a run owns lets cleanup act exactly where it proves that all of it is the run's:
/// every rule under a prefix of its own, the rule of the host complete or absent, a capture with its
/// file, and no translation.
pub proof fn cleanups_need_proof_of_ownership(owned: &NetworkOwnedResources)
    ensures
        owned.cleanup_verdict() is Ok <==> {
            let named = owned.firewall_rule_ids@.len() > 0 || owned.host_firewall_rule_id is Some
                || owned.capture_session is Some;
            let host = owned.host_firewall_rule_id is Some;
            &&& owned.nat_mapping_ids@.len() == 0
            &&& owned.capture_session is Some <==> owned.capture_file is Some
            &&& host <==> owned.host_ipv4 is Some
            &&& host <==> owned.host_service_port is Some
            &&& host <==> owned.host_adapter_id is Some
            &&& host ==> owned.host_service_port->0 >= 1 && valid_identifier(
                owned.host_adapter_id->0@,
            ) && text::begins(owned.host_firewall_rule_id->0@, owned.rule_prefix@)
            &&& named ==> {
                &&& valid_identifier(owned.vm_id@)
                &&& valid_identifier(owned.firewall_scope_id@)
                &&& owned.rule_prefix@.len() >= 1
                &&& vstd::utf8::encode_utf8(owned.rule_prefix@).len() <= 96
                &&& text::begins(owned.rule_prefix@, "Foxhole-"@)
                &&& forall|i: int|
                    0 <= i < owned.firewall_rule_ids@.len() ==> text::begins(
                        (#[trigger] owned.firewall_rule_ids@[i])@,
                        owned.rule_prefix@,
                    )
                &&& rule_names(owned.firewall_rules@) == text::views(owned.firewall_rule_ids@)
            }
        },
{
}

/// The network part of a journal is accepted exactly where what it names is the run's: rules under
/// the prefix of the run, the capture of the run in the directory of the run, no translation, and a
/// lease of the run in the protected directory.
pub proof fn journals_name_the_runs_own_network(
    owned: &NetworkOwnedResources,
    run_id: Seq<char>,
    run_root: &HostPath,
    program_data: Option<&HostPath>,
)
    ensures
        owned.journal_verdict(run_id, run_root, program_data) is Ok <==> {
            let named = owned.firewall_rule_ids@.len() > 0 || owned.host_firewall_rule_id is Some
                || owned.capture_session is Some;
            let prefix = "Foxhole-"@ + run_id + "-"@;
            &&& run_id_verdict(run_id) is Ok
            &&& owned.nat_mapping_ids@.len() == 0
            &&& owned.host_firewall_owned(prefix)
            &&& named ==> {
                &&& valid_identifier(owned.vm_id@)
                &&& valid_identifier(owned.firewall_scope_id@)
                &&& owned.rule_prefix@ == prefix
                &&& owned.rules_owned(prefix)
                &&& owned.capture_session is Some <==> owned.capture_file is Some
                &&& owned.capture_session is Some ==> owned.capture_session->0@ == "FoxholeNet-"@
                    + run_id && host_path::equal_parts(
                    owned.capture_file->0.style,
                    owned.capture_file->0.spec_parts(),
                    run_root.spec_parts().push(
                        host_path::PartView::Normal("network-capture.etl"@),
                    ),
                )
            }
            &&& owned.guest_lease is Some ==> {
                let lease = owned.guest_lease->0;
                &&& lease.run_id@ == run_id
                &&& program_data is Some && text::same_ignoring_case(
                    host_path::directory_text(lease.path.style, lease.path.shown@),
                    allocation_text(program_data->0),
                )
                &&& host_path::extension_of(lease.path.spec_parts()) == Some("lease"@)
            }
        },
{
}

/// A scope that was recorded never changes, and what is not an identifier is never recorded.
pub proof fn firewall_scopes_do_not_change(plan: &ControlledPlan, observed: Seq<char>)
    ensures
        scope_verdict(plan, observed) is Ok <==> valid_identifier(observed) && (
        plan.firewall_scope_id is Some ==> text::same_ignoring_case(
            plan.firewall_scope_id->0@,
            observed,
        )),
{
}

/// A report names the mode, the switch and the capture as they were planned.
pub proof fn reports_tell_the_planned_network(
    plan: &HyperVNetworkPlan,
    report: &HyperVNetworkMetadata,
)
    requires
        plan_reported(plan, report),
    ensures
        plan is DenyAll ==> report.requested_mode@ == "deny_all"@ && report.capture_status@
            == "not_requested"@ && report.guest_ipv4 is None && report.firewall_rule_ids@.len() == 0,
        plan matches HyperVNetworkPlan::Controlled(controlled) ==> {
            &&& report.requested_mode@ == match controlled.network_mode {
                ControlledNetworkMode::HostServer => "host_server"@,
                ControlledNetworkMode::External => "allow_internet"@,
            }
            &&& report.guest_ipv4 == controlled.guest_ipv4
            &&& report.prefix_length == Some(controlled.prefix_length)
            &&& report.gateway_ipv4 == controlled.gateway_ipv4
            &&& report.dns_servers@ == controlled.dns_servers@
            &&& report.host_service_endpoint is Some <==> controlled.host_service_port is Some
            &&& controlled.host_service_port is Some ==> report.host_service_endpoint->0@ == "http://"@
                + net::ipv4_text(controlled.host_ipv4.bits) + ":"@ + text::decimal(
                controlled.host_service_port->0 as nat,
            )
            &&& report.capture_status@ == if controlled.capture_session is Some {
                "active_before_target"@
            } else {
                "not_requested"@
            }
        },
{
}

/// What a script is told of a plan is the plan itself, for the machine that it is called for.
pub proof fn scripts_are_told_the_plan(
    input: ControlledInput,
    plan: &ControlledPlan,
    vm_id: Seq<char>,
    configure: bool,
    prepare: bool,
)
    requires
        input.describes(plan, vm_id, configure, prepare),
    ensures
        input.vm_id@ == vm_id,
        input.configure == configure,
        input.prepare_only == prepare,
        input.configure_adapter == prepare,
        input.mode@ == if plan.network_mode is HostServer {
            "host_server"@
        } else {
            "external"@
        },
        input.switch_name@ == plan.switch_name@,
        input.switch_id@ == plan.switch_id@,
        input.gateway_id@ == plan.gateway_id@,
        input.host_adapter_id@ == plan.host_adapter_id@,
        input.host_ipv4 == plan.host_ipv4,
        input.gateway_ipv4 == plan.gateway_ipv4,
        plan.guest_ipv4 == Some(input.guest_ipv4),
        input.prefix_length == plan.prefix_length,
        input.host_service_port == plan.host_service_port,
        input.dns_servers@ == plan.dns_servers@,
        input.nat_enabled == plan.nat_enabled,
        input.capture_required <==> plan.capture_session is Some,
        input.capture_session == plan.capture_session,
        input.firewall_scope_id == plan.firewall_scope_id,
        input.host_firewall_rule_id == plan.host_firewall_rule_id,
        input.firewall_rules@.len() == plan.firewall_rules@.len(),
{
    assert(rule_views(input.firewall_rules@).len() == input.firewall_rules@.len());
    assert(rule_views(plan.firewall_rules@).len() == plan.firewall_rules@.len());
}

/// What a run is recorded to own is what its plan has: its rules, its capture, its lease and, where it
/// has a rule on the host, where that rule applies.
pub proof fn owned_resources_are_those_of_the_plan(
    plan: &ControlledPlan,
    resources: &NetworkOwnedResources,
    vm_id: Seq<char>,
    run_id: Seq<char>,
)
    requires
        plan.owned_as(resources, vm_id, run_id),
    ensures
        resources.vm_id@ == vm_id,
        plan.firewall_scope_id == Some(resources.firewall_scope_id),
        resources.rule_prefix@ == "Foxhole-"@ + run_id + "-"@,
        resources.firewall_rule_ids@.len() == plan.firewall_rules@.len(),
        resources.firewall_rules@.len() == plan.firewall_rules@.len(),
        resources.host_firewall_rule_id == plan.host_firewall_rule_id,
        resources.host_service_port == plan.host_service_port,
        resources.host_ipv4 is Some <==> plan.host_firewall_rule_id is Some,
        resources.host_ipv4 is Some ==> resources.host_ipv4->0 == plan.host_ipv4,
        resources.host_adapter_id is Some <==> plan.host_firewall_rule_id is Some,
        resources.host_adapter_id is Some ==> resources.host_adapter_id->0 == plan.host_adapter_id,
        resources.capture_session == plan.capture_session,
        resources.capture_file is Some <==> plan.capture_file is Some,
        resources.guest_lease is Some <==> plan.guest_ipv4 is Some && plan.lease_path is Some,
        resources.guest_lease is Some ==> resources.guest_lease->0.run_id@ == run_id && Some(
            resources.guest_lease->0.address,
        ) == plan.guest_ipv4,
        resources.nat_mapping_ids@.len() == 0,
{
    assert(rule_views(resources.firewall_rules@).len() == resources.firewall_rules@.len());
    assert(rule_views(plan.firewall_rules@).len() == plan.firewall_rules@.len());
    assert(rule_names(plan.firewall_rules@).len() == plan.firewall_rules@.len());
    assert(text::views(resources.firewall_rule_ids@).len() == resources.firewall_rule_ids@.len());
}

/// A lease is a file that is named after its address, in the allocation directory of the host.
pub proof fn leases_lie_in_the_allocation_directory(bits: u32, program_data: &HostPath)
    ensures
        text::ends(lease_name(bits), ".lease"@),
        text::begins(lease_name(bits), text::decimal(net::octet(bits, 0)) + "_"@),
        ({
            let style = program_data.style;
            allocation_text(program_data) == host_path::joined_text(
                style,
                host_path::joined_text(
                    style,
                    host_path::joined_text(style, program_data.shown@, "Foxhole"@),
                    "network"@,
                ),
                "allocations"@,
            )
        }),
{
    let name = lease_name(bits);
    let head = text::decimal(net::octet(bits, 0)) + "_"@;
    assert(name.take(head.len() as int) =~= head);
    assert(name.skip(name.len() - ".lease"@.len()) =~= ".lease"@);
}

} // verus!
