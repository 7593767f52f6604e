use foxhole::backend::{NetworkPolicy, SandboxError};
use foxhole::host_path::HostPath;
use foxhole::hyperv::address_space::{
    forbidden_ipv4_cidrs, is_public_ipv4, public_ipv4_cidrs, range_to_cidrs,
};
use foxhole::hyperv::guest_protocol::{FileFacts, GuestNetworkAttestation};
use foxhole::hyperv::leases::{
    AllocationEvent, AllocationStep, DirectoryFacts, LeaseAllocation, LeaseRelease, ReleaseEvent,
    ReleaseStep, Reservation,
};
use foxhole::hyperv::network::{
    activate, bind_guest_attestation, check_lease_file, check_lease_owner, cleanup_owned_resources,
    guest_configuration, lease_for, metadata, owned_resources, plan, pool_exhausted,
    prepare_controlled_adapter, record_firewall_scope, run_attestation, validate_owned_resources,
    verify_attachment, AddressSearch, ControlledGatewayConfig, ControlledNetworkMode,
    ControlledPlan, ControlledSwitchType, FirewallRuleSpec, HyperVNetworkPlan, LeaseAttempt,
    NetworkAttachment, NetworkInput, NetworkOwnedResources,
};
use foxhole::net::Ipv4Addr;

fn program_data() -> HostPath {
    HostPath::parse("/tmp/foxhole-network")
}

fn allocations() -> HostPath {
    program_data().join("Foxhole").join("network").join("allocations")
}

fn gateway(mode: ControlledNetworkMode) -> ControlledGatewayConfig {
    let external = matches!(mode, ControlledNetworkMode::External);
    ControlledGatewayConfig {
        switch_name: "Foxhole Internal".into(),
        switch_id: "11111111-1111-1111-1111-111111111111".into(),
        switch_type: ControlledSwitchType::Internal,
        gateway_id: "FoxholeNat".into(),
        host_ipv4: Ipv4Addr::new(192, 168, 250, 1),
        prefix_length: 24,
        host_service_port: if external { None } else { Some(8080) },
        host_adapter_id: "22222222-2222-2222-2222-222222222222".into(),
        guest_address_start: Ipv4Addr::new(192, 168, 250, 10),
        guest_address_end: Ipv4Addr::new(192, 168, 250, 10),
        dns_servers: if external { vec![Ipv4Addr::new(1, 1, 1, 1)] } else { Vec::new() },
        gateway_ipv4: if external { Some(Ipv4Addr::new(192, 168, 250, 1)) } else { None },
        allocation_directory: allocations(),
        firewall_enforced: true,
        packet_capture_enabled: external,
        host_private_ranges_blocked: external,
        nat_enabled: external,
        owned_by_run: false,
    }
}

fn planned(policy: NetworkPolicy, config: &ControlledGatewayConfig) -> HyperVNetworkPlan {
    plan(&policy, Some(config), Some(&program_data())).unwrap()
}

fn refuses(policy: NetworkPolicy, config: &ControlledGatewayConfig) -> bool {
    plan(&policy, Some(config), Some(&program_data())).is_err()
}

fn activated(plan: &mut HyperVNetworkPlan, run_id: &str) -> Ipv4Addr {
    let address = Ipv4Addr::new(192, 168, 250, 10);
    let lease = lease_for(&allocations(), address, run_id);
    let lease = activate(plan, run_id, &HostPath::parse("/tmp/run"), Ok(lease)).unwrap().unwrap();
    lease.address
}

fn controlled(plan: &HyperVNetworkPlan) -> &ControlledPlan {
    match plan {
        HyperVNetworkPlan::Controlled(controlled) => controlled,
        HyperVNetworkPlan::DenyAll => unreachable!(),
    }
}

#[test]
fn deny_all_is_the_default_safe_host_network_plan() {
    assert_eq!(plan(&NetworkPolicy::DenyAll, None, None).unwrap(), HyperVNetworkPlan::DenyAll);
}

#[test]
fn missing_gateway_and_forbidden_host_switches_fail_closed() {
    assert!(plan(&NetworkPolicy::HostServer, None, Some(&program_data())).is_err());
    assert!(plan(&NetworkPolicy::AllowInternet, None, Some(&program_data())).is_err());
    assert!(!refuses(NetworkPolicy::HostServer, &gateway(ControlledNetworkMode::HostServer)));
    let mut config = gateway(ControlledNetworkMode::HostServer);
    config.switch_name = "Default Switch".into();
    assert!(refuses(NetworkPolicy::HostServer, &config));
    config = gateway(ControlledNetworkMode::HostServer);
    config.switch_type = ControlledSwitchType::External;
    assert!(refuses(NetworkPolicy::HostServer, &config));
    config = gateway(ControlledNetworkMode::HostServer);
    config.switch_type = ControlledSwitchType::Private;
    assert!(refuses(NetworkPolicy::HostServer, &config));
}

#[test]
fn missing_host_ip_wrong_nat_and_unattested_external_controls_fail() {
    assert!(!refuses(NetworkPolicy::AllowInternet, &gateway(ControlledNetworkMode::External)));
    let mut config = gateway(ControlledNetworkMode::HostServer);
    config.host_ipv4 = Ipv4Addr::new(0, 0, 0, 0);
    assert!(refuses(NetworkPolicy::HostServer, &config));
    config = gateway(ControlledNetworkMode::HostServer);
    config.nat_enabled = true;
    assert!(refuses(NetworkPolicy::HostServer, &config));
    config = gateway(ControlledNetworkMode::External);
    config.packet_capture_enabled = false;
    assert!(refuses(NetworkPolicy::AllowInternet, &config));
    config = gateway(ControlledNetworkMode::External);
    config.dns_servers.push(Ipv4Addr::new(1, 1, 1, 1));
    assert!(refuses(NetworkPolicy::AllowInternet, &config));
}

#[test]
fn unsupported_policies_are_never_mapped_to_broader_access() {
    let config = gateway(ControlledNetworkMode::External);
    assert!(refuses(NetworkPolicy::CaptureOnly, &config));
    assert!(refuses(NetworkPolicy::AllowList(Vec::new()), &config));
    let mut elsewhere = gateway(ControlledNetworkMode::HostServer);
    elsewhere.allocation_directory = HostPath::parse("/tmp/elsewhere");
    assert!(refuses(NetworkPolicy::HostServer, &elsewhere));
}

#[test]
fn host_server_creates_only_endpoint_allow_and_default_block_rules() {
    let mut plan = planned(NetworkPolicy::HostServer, &gateway(ControlledNetworkMode::HostServer));
    activated(&mut plan, "11111111111111111111111111111111");
    let active = controlled(&plan);
    let allows: Vec<&FirewallRuleSpec> =
        active.firewall_rules.iter().filter(|rule| rule.action == "Allow").collect();
    assert_eq!(allows.len(), 2);
    assert!(allows.iter().all(|rule| {
        rule.protocol == "TCP"
            && rule.remote_addresses == ["192.168.250.1"]
            && rule.remote_ports == ["8080"]
    }));
    assert!(allows.iter().any(|rule| rule.direction == "Outbound"));
    assert!(allows.iter().any(|rule| rule.direction == "Inbound"));
    assert!(active.dns_servers.is_empty());
    assert!(active.gateway_ipv4.is_none());
    assert!(active.capture_session.is_none());
}

#[test]
fn external_public_ranges_block_local_metadata_and_multicast() {
    for blocked in [
        Ipv4Addr::new(10, 0, 0, 1),
        Ipv4Addr::new(127, 0, 0, 1),
        Ipv4Addr::new(169, 254, 169, 254),
        Ipv4Addr::new(192, 168, 1, 1),
        Ipv4Addr::new(168, 63, 129, 16),
        Ipv4Addr::new(224, 0, 0, 1),
    ] {
        assert!(!is_public_ipv4(blocked), "blocked address accepted: {}", blocked.to_string());
    }
    assert!(is_public_ipv4(Ipv4Addr::new(1, 1, 1, 1)));
    assert!(is_public_ipv4(Ipv4Addr::new(93, 184, 216, 34)));
}

#[test]
fn external_rules_allow_only_approved_dns_and_public_tcp() {
    let mut config = gateway(ControlledNetworkMode::External);
    config.dns_servers.push(Ipv4Addr::new(8, 8, 8, 8));
    let mut plan = planned(NetworkPolicy::AllowInternet, &config);
    let address = activated(&mut plan, "88888888888888888888888888888888");
    let rules = &controlled(&plan).firewall_rules;
    let allows: Vec<&FirewallRuleSpec> =
        rules.iter().filter(|rule| rule.action == "Allow").collect();
    let dns_allows: Vec<&&FirewallRuleSpec> =
        allows.iter().filter(|rule| rule.remote_ports == ["53"]).collect();
    assert_eq!(dns_allows.len(), 4);
    assert!(dns_allows.iter().all(|rule| {
        rule.protocol == "Any"
            && !rule.stateful
            && (rule.remote_addresses == ["1.1.1.1"] || rule.remote_addresses == ["8.8.8.8"])
            && rule.local_addresses == [address.to_string()]
    }));
    assert!(dns_allows.iter().any(|rule| rule.direction == "Outbound"));
    assert!(dns_allows.iter().any(|rule| rule.direction == "Inbound"));
    let outbound: Vec<u16> = rules
        .iter()
        .filter(|rule| rule.direction == "Outbound")
        .map(|rule| rule.priority)
        .collect();
    let mut weights = outbound.clone();
    weights.sort();
    weights.dedup();
    assert_eq!(weights.len(), outbound.len());
    assert!(allows.iter().filter(|rule| rule.remote_ports.is_empty()).all(|rule| {
        rule.direction == "Outbound" && rule.protocol == "TCP" && rule.stateful
    }));
    assert!(rules.iter().any(|rule| {
        rule.action == "Deny"
            && rule.direction == "Outbound"
            && rule.protocol == "Any"
            && rule.remote_addresses == ["Any"]
            && rule.remote_ports == ["53"]
    }));
    for blocked in forbidden_ipv4_cidrs() {
        assert!(rules.iter().any(|rule| rule.action == "Deny"
            && rule.remote_addresses == [blocked.clone()]));
    }
}

#[test]
fn external_guest_configuration_has_gateway_dns_and_no_host_service() {
    let mut plan = planned(NetworkPolicy::AllowInternet, &gateway(ControlledNetworkMode::External));
    activated(&mut plan, "99999999999999999999999999999999");
    let (guest, prefix, gateway, dns, host, port) = guest_configuration(&plan);
    assert_eq!(guest, Some(Ipv4Addr::new(192, 168, 250, 10)));
    assert_eq!(prefix, Some(24));
    assert_eq!(gateway, Some(Ipv4Addr::new(192, 168, 250, 1)));
    assert_eq!(dns, [Ipv4Addr::new(1, 1, 1, 1)]);
    assert_eq!(host, None);
    assert_eq!(port, None);
}

#[test]
fn duplicate_address_allocation_and_owner_mismatch_are_rejected() {
    let address = Ipv4Addr::new(192, 168, 250, 10);
    let mut search = AddressSearch::new(address, address);
    assert_eq!(search.candidate(), Some(address));
    assert_eq!(search.advance(address, LeaseAttempt::Created), Some(address));
    let first = lease_for(&allocations(), address, "22222222222222222222222222222222");

    let mut second = AddressSearch::new(address, address);
    assert_eq!(second.advance(address, LeaseAttempt::Taken), None);
    assert_eq!(second.candidate(), None);
    assert_eq!(pool_exhausted().stage, "hyperv_network_allocation");

    let mut forged = first.clone();
    forged.run_id = "33333333333333333333333333333333".into();
    assert!(check_lease_owner(&first, &forged).is_err());
    assert!(check_lease_owner(&first, &first).is_ok());
    assert_eq!(first.path.file_name().as_deref(), Some("192_168_250_10.lease"));
}

#[test]
fn lease_files_are_plain_and_small() {
    let facts = FileFacts { regular: true, link: false, reparse_point: false, len: 100 };
    assert!(check_lease_file(&facts).is_ok());
    assert!(check_lease_file(&FileFacts { link: true, ..facts }).is_err());
    assert!(check_lease_file(&FileFacts { len: u64::MAX, ..facts }).is_err());
}

#[test]
fn cleanup_journal_rejects_partial_host_firewall_ownership() {
    let run_id = "77777777777777777777777777777777";
    let run_root = HostPath::parse("/tmp/partial-host-firewall");
    let resources = NetworkOwnedResources {
        host_ipv4: Some(Ipv4Addr::new(192, 168, 250, 1)),
        ..NetworkOwnedResources::default()
    };
    assert!(validate_owned_resources(&resources, run_id, &run_root, Some(&program_data())).is_err());
}

#[test]
fn attachment_and_post_run_drift_checks_cover_all_critical_state() {
    let mut plan = planned(NetworkPolicy::HostServer, &gateway(ControlledNetworkMode::HostServer));
    let address = activated(&mut plan, "44444444444444444444444444444444");
    let active = controlled(&plan);
    let mut rule_ids: Vec<String> =
        active.firewall_rules.iter().map(|rule| rule.name.clone()).collect();
    rule_ids.push("Foxhole-44444444444444444444444444444444-host-inbound".to_string());
    let valid = NetworkAttachment {
        adapter_count: 1,
        switch_id: Some(active.switch_id.clone()),
        switch_type: Some("Internal".into()),
        host_adapter_id: Some(active.host_adapter_id.clone()),
        firewall_scope_id: Some("66666666-6666-6666-6666-666666666666".into()),
        host_ipv4: Some(active.host_ipv4),
        guest_ipv4: Some(address),
        nat_enabled: false,
        firewall_rule_ids: rule_ids,
        capture_active: false,
        ipv6_disabled: true,
        no_unexpected_routes: true,
        warnings: Vec::new(),
    };
    assert!(verify_attachment(&plan, &valid, true).is_ok());
    let mut drift = valid.clone();
    drift.adapter_count = 2;
    assert!(verify_attachment(&plan, &drift, true).is_err());
    drift = valid.clone();
    drift.switch_id = Some("55555555-5555-5555-5555-555555555555".into());
    assert!(verify_attachment(&plan, &drift, true).is_err());
    drift = valid.clone();
    drift.firewall_rule_ids.clear();
    assert!(verify_attachment(&plan, &drift, true).is_err());
    drift = valid.clone();
    drift.guest_ipv4 = None;
    assert!(verify_attachment(&plan, &drift, true).is_err());
    assert!(verify_attachment(&plan, &drift, false).is_ok());

    // The guest's own attestation fills the address in, and only a matching one does.
    let report = GuestNetworkAttestation {
        interface_index: 4,
        interface_guid: "77777777-7777-7777-7777-777777777777".into(),
        mac_address: "00-15-5D-00-00-01".into(),
        guest_ipv4: address,
        prefix_length: 24,
        gateway_ipv4: None,
        dns_servers: Vec::new(),
        ipv6_disabled: true,
        no_unexpected_routes: true,
    };
    bind_guest_attestation(&plan, &mut drift, Some(&report)).unwrap();
    assert_eq!(drift.guest_ipv4, Some(address));
    let mut unbound = valid;
    assert!(bind_guest_attestation(&plan, &mut unbound, None).is_err());
    let mut denied = NetworkAttachment::default();
    assert!(bind_guest_attestation(&HyperVNetworkPlan::DenyAll, &mut denied, Some(&report)).is_err());
    assert!(bind_guest_attestation(&HyperVNetworkPlan::DenyAll, &mut denied, None).is_ok());
}

#[test]
fn deny_all_fake_verifies_zero_nics_and_never_interpolates_vm_id() {
    let vm_id = "11111111-1111-1111-1111-111111111111";
    let invocation = run_attestation(vm_id, &HyperVNetworkPlan::DenyAll, true).unwrap();
    assert!(!invocation.script.contains(vm_id));
    match invocation.input {
        NetworkInput::DenyAll { vm_id: given, configure } => {
            assert_eq!(given, vm_id);
            assert!(configure);
        }
        NetworkInput::Controlled(_) => unreachable!(),
    }
    let attachment = NetworkAttachment::default();
    assert!(verify_attachment(&HyperVNetworkPlan::DenyAll, &attachment, false).is_ok());
    let attached = NetworkAttachment { adapter_count: 1, ..NetworkAttachment::default() };
    assert!(verify_attachment(&HyperVNetworkPlan::DenyAll, &attached, false).is_err());
}

fn active_host_plan() -> HyperVNetworkPlan {
    HyperVNetworkPlan::Controlled(ControlledPlan {
        network_mode: ControlledNetworkMode::HostServer,
        switch_name: "Foxhole Internal".into(),
        switch_id: "11111111-1111-1111-1111-111111111111".into(),
        switch_type: ControlledSwitchType::Internal,
        gateway_id: "FoxholeHostOnly".into(),
        host_ipv4: Ipv4Addr::new(192, 168, 250, 1),
        prefix_length: 24,
        host_service_port: Some(8080),
        host_adapter_id: "22222222-2222-2222-2222-222222222222".into(),
        guest_address_start: Ipv4Addr::new(192, 168, 250, 10),
        guest_address_end: Ipv4Addr::new(192, 168, 250, 20),
        dns_servers: Vec::new(),
        gateway_ipv4: None,
        allocation_directory: HostPath::parse(r"C:\ProgramData\Foxhole\network\allocations"),
        nat_enabled: false,
        guest_ipv4: Some(Ipv4Addr::new(192, 168, 250, 10)),
        lease_path: None,
        firewall_rules: vec![FirewallRuleSpec {
            name: "Foxhole-aaaaaaaaaaaaaaaaaaaaaaaaaaaaaaaa-host-service".into(),
            direction: "Outbound".into(),
            action: "Allow".into(),
            protocol: "TCP".into(),
            priority: 1,
            stateful: true,
            local_addresses: vec!["192.168.250.10".into()],
            remote_addresses: vec!["192.168.250.1".into()],
            remote_ports: vec!["8080".into()],
        }],
        host_firewall_rule_id: Some("Foxhole-aaaaaaaaaaaaaaaaaaaaaaaaaaaaaaaa-host-inbound".into()),
        capture_session: None,
        capture_file: None,
        firewall_scope_id: Some("33333333-3333-3333-3333-333333333333".into()),
    })
}

fn host_attachment(rule_ids: Vec<&str>) -> NetworkAttachment {
    NetworkAttachment {
        adapter_count: 1,
        switch_id: Some("11111111-1111-1111-1111-111111111111".into()),
        switch_type: Some("Internal".into()),
        host_adapter_id: Some("22222222-2222-2222-2222-222222222222".into()),
        firewall_scope_id: Some("33333333-3333-3333-3333-333333333333".into()),
        host_ipv4: Some(Ipv4Addr::new(192, 168, 250, 1)),
        guest_ipv4: None,
        nat_enabled: false,
        firewall_rule_ids: rule_ids.into_iter().map(|id| id.to_string()).collect(),
        capture_active: false,
        ipv6_disabled: true,
        no_unexpected_routes: true,
        warnings: Vec::new(),
    }
}

#[test]
fn controlled_mock_requires_exact_firewall_rules_and_keeps_input_as_data() {
    let rule = "Foxhole-aaaaaaaaaaaaaaaaaaaaaaaaaaaaaaaa-host-service";
    let host_rule = "Foxhole-aaaaaaaaaaaaaaaaaaaaaaaaaaaaaaaa-host-inbound";
    let vm_id = "33333333-3333-3333-3333-333333333333";
    let plan = active_host_plan();
    let invocation = run_attestation(vm_id, &plan, true).unwrap();
    assert!(!invocation.script.contains(vm_id));
    match invocation.input {
        NetworkInput::Controlled(input) => {
            assert_eq!(input.vm_id, vm_id);
            assert_eq!(input.firewall_rules[0].remote_ports[0], "8080");
        }
        NetworkInput::DenyAll { .. } => unreachable!(),
    }
    assert!(verify_attachment(&plan, &host_attachment(vec![rule, host_rule]), false).is_ok());

    let overly_broad = host_attachment(vec![rule, host_rule, "Global-Allow"]);
    assert!(verify_attachment(&plan, &overly_broad, false).is_err());
}

#[test]
fn cleanup_mock_removes_only_run_prefixed_resources() {
    let run_id = "aaaaaaaaaaaaaaaaaaaaaaaaaaaaaaaa";
    let rule = format!("Foxhole-{run_id}-host-service");
    let resources = NetworkOwnedResources {
        vm_id: "44444444-4444-4444-4444-444444444444".into(),
        firewall_scope_id: "33333333-3333-3333-3333-333333333333".into(),
        rule_prefix: format!("Foxhole-{run_id}-"),
        firewall_rule_ids: vec![rule.clone()],
        firewall_rules: vec![FirewallRuleSpec {
            name: rule.clone(),
            direction: "Outbound".into(),
            action: "Allow".into(),
            protocol: "TCP".into(),
            priority: 300,
            stateful: true,
            local_addresses: vec!["192.168.250.10".into()],
            remote_addresses: vec!["192.168.250.1".into()],
            remote_ports: vec!["8080".into()],
        }],
        host_firewall_rule_id: None,
        host_ipv4: None,
        host_service_port: None,
        host_adapter_id: None,
        capture_session: Some(format!("FoxholeNet-{run_id}")),
        capture_file: Some(HostPath::parse(r"C:\Foxhole\runs\network-capture.etl")),
        guest_lease: None,
        nat_mapping_ids: Vec::new(),
    };
    let work = cleanup_owned_resources(&resources).unwrap().unwrap();
    let input = work.invocation.unwrap().input;
    assert_eq!(input.firewall_rule_ids, [rule]);
    assert_eq!(input.rule_prefix, format!("Foxhole-{run_id}-"));

    let mut forged = resources;
    forged.firewall_rule_ids.push("unrelated-global-rule".into());
    assert!(cleanup_owned_resources(&forged).is_err());
}

#[test]
fn a_failed_allocation_leaves_the_plan_untouched() {
    let mut plan = planned(NetworkPolicy::HostServer, &gateway(ControlledNetworkMode::HostServer));
    let before = plan.clone();
    let error = activate(
        &mut plan,
        "11111111111111111111111111111111",
        &HostPath::parse("/tmp/run"),
        Err(SandboxError::new("hyperv_network", "no address")),
    )
    .unwrap_err();
    assert_eq!(error.message, "no address");
    assert_eq!(plan, before);
    activated(&mut plan, "11111111111111111111111111111111");
    let lease = lease_for(&allocations(), Ipv4Addr::new(192, 168, 250, 10), "1111111111111111");
    let error =
        activate(&mut plan, "1111111111111111", &HostPath::parse("/tmp/run"), Ok(lease)).unwrap_err();
    assert_eq!(error.message, "network plan was activated twice");
}

#[test]
fn firewall_scopes_are_recorded_once() {
    let run_id = "11111111111111111111111111111111";
    let vm_id = "44444444-4444-4444-4444-444444444444";
    let mut plan = planned(NetworkPolicy::HostServer, &gateway(ControlledNetworkMode::HostServer));
    activated(&mut plan, run_id);
    assert!(owned_resources(vm_id, run_id, &plan).is_err());
    let adapter = prepare_controlled_adapter(vm_id, &plan).unwrap().unwrap();
    assert!(adapter.input.prepare_only);
    assert!(record_firewall_scope(&mut plan, &NetworkAttachment::default()).is_err());
    let scope = NetworkAttachment {
        firewall_scope_id: Some("33333333-3333-3333-3333-333333333333".into()),
        ..NetworkAttachment::default()
    };
    record_firewall_scope(&mut plan, &scope).unwrap();
    record_firewall_scope(&mut plan, &scope).unwrap();
    let other = NetworkAttachment {
        firewall_scope_id: Some("55555555-5555-5555-5555-555555555555".into()),
        ..NetworkAttachment::default()
    };
    assert!(record_firewall_scope(&mut plan, &other).is_err());
    let owned = owned_resources(vm_id, run_id, &plan).unwrap();
    assert_eq!(owned.rule_prefix, format!("Foxhole-{run_id}-"));
    assert_eq!(
        owned.host_firewall_rule_id,
        Some(format!("Foxhole-{run_id}-host-inbound"))
    );
    let report = metadata(&plan, None, None, Vec::new(), Vec::new());
    assert_eq!(report.requested_mode, "host_server");
    assert_eq!(report.host_service_endpoint.as_deref(), Some("http://192.168.250.1:8080"));
}

#[test]
fn address_ranges_become_exact_blocks() {
    assert_eq!(range_to_cidrs(0, u32::MAX), ["0.0.0.0/0"]);
    assert_eq!(range_to_cidrs(0x0a00_0001, 0x0a00_0003), ["10.0.0.1/32", "10.0.0.2/31"]);
    assert!(forbidden_ipv4_cidrs().contains(&"10.0.0.0/8".to_string()));
    assert!(!public_ipv4_cidrs().contains(&"10.0.0.0/8".to_string()));
}

fn reserving(first: u8, last: u8) -> LeaseAllocation {
    let mut run = LeaseAllocation::allocate_guest_address(
        &allocations(),
        Ipv4Addr::new(192, 168, 250, first),
        Ipv4Addr::new(192, 168, 250, last),
        "22222222222222222222222222222222",
    );
    run.advance(AllocationEvent::Settled(Ok(())));
    run.advance(AllocationEvent::Settled(Ok(())));
    run.advance(AllocationEvent::Inspected(Ok(DirectoryFacts { directory: true, link: false })));
    run
}

#[test]
fn the_first_free_address_is_leased() {
    let mut run = reserving(10, 12);
    assert_eq!(run.step, AllocationStep::Reserve);
    run.advance(AllocationEvent::Reserved(Reservation::Taken));
    run.advance(AllocationEvent::Reserved(Reservation::Created));
    run.advance(AllocationEvent::Settled(Ok(())));
    run.advance(AllocationEvent::Settled(Ok(())));
    let lease = run.outcome.unwrap().unwrap();
    assert_eq!(lease.address, Ipv4Addr::new(192, 168, 250, 11));
    assert_eq!(lease.path.file_name().as_deref(), Some("192_168_250_11.lease"));
    assert_eq!(lease.run_id, "22222222222222222222222222222222");
}

#[test]
fn exhausted_pools_and_failed_reservations_are_errors() {
    let mut run = reserving(10, 11);
    run.advance(AllocationEvent::Reserved(Reservation::Taken));
    run.advance(AllocationEvent::Reserved(Reservation::Taken));
    assert_eq!(
        run.outcome.unwrap().unwrap_err().message,
        "no unallocated guest IPv4 address remains in the configured pool"
    );
    assert!(reserving(11, 10).outcome.unwrap().is_err());

    let mut run = reserving(10, 11);
    run.advance(AllocationEvent::Reserved(Reservation::Failed("denied".into())));
    assert_eq!(run.outcome.unwrap().unwrap_err().message, "reserve a unique guest address");

    let mut run = reserving(10, 11);
    run.advance(AllocationEvent::Reserved(Reservation::Created));
    run.advance(AllocationEvent::Settled(Ok(())));
    run.advance(AllocationEvent::Settled(Err("full".into())));
    assert!(run.discard);
    assert_eq!(run.outcome.unwrap().unwrap_err().message, "durably reserve guest address");
}

#[test]
fn leases_of_another_run_are_never_removed() {
    let address = Ipv4Addr::new(192, 168, 250, 10);
    let lease = lease_for(&allocations(), address, "22222222222222222222222222222222");
    let facts = FileFacts { regular: true, link: false, reparse_point: false, len: 64 };

    let mut run = LeaseRelease::release_guest_address(lease.clone());
    run.advance(ReleaseEvent::Inspected(Ok(facts)));
    run.advance(ReleaseEvent::Settled(Ok(())));
    run.advance(ReleaseEvent::Decoded(Ok(lease.clone())));
    assert_eq!(run.step, ReleaseStep::Remove);
    run.advance(ReleaseEvent::Settled(Ok(())));
    assert!(run.outcome.unwrap().is_ok());

    let mut forged = lease.clone();
    forged.run_id = "33333333333333333333333333333333".into();
    let mut run = LeaseRelease::release_guest_address(lease.clone());
    run.advance(ReleaseEvent::Inspected(Ok(facts)));
    run.advance(ReleaseEvent::Settled(Ok(())));
    run.advance(ReleaseEvent::Decoded(Ok(forged)));
    assert_eq!(
        run.outcome.unwrap().unwrap_err().message,
        "refusing to remove a guest lease whose ownership record changed"
    );

    let mut run = LeaseRelease::release_guest_address(lease);
    run.advance(ReleaseEvent::Inspected(Ok(FileFacts { len: 4097, ..facts })));
    assert_eq!(
        run.outcome.unwrap().unwrap_err().message,
        "refusing to release an unverified guest address lease"
    );
}

fn weights(rules: &[FirewallRuleSpec], direction: &str) -> Vec<u16> {
    rules.iter().filter(|rule| rule.direction == direction).map(|rule| rule.priority).collect()
}

fn assert_own_weights(rules: &[FirewallRuleSpec]) {
    let mut all: Vec<u16> = rules.iter().map(|rule| rule.priority).collect();
    all.sort();
    all.dedup();
    assert_eq!(all.len(), rules.len());
    for direction in ["Outbound", "Inbound"] {
        let lowest = rules
            .iter()
            .filter(|rule| rule.direction == direction)
            .min_by_key(|rule| rule.priority)
            .unwrap();
        assert_eq!(lowest.action, "Deny");
        assert_eq!(lowest.remote_addresses, ["Any"]);
        assert!(lowest.remote_ports.is_empty());
    }
}

#[test]
fn every_rule_has_a_weight_of_its_own() {
    let run_id = "88888888888888888888888888888888";
    let mut host = planned(
        NetworkPolicy::HostServer,
        &gateway(ControlledNetworkMode::HostServer),
    );
    activated(&mut host, run_id);
    let rules = &controlled(&host).firewall_rules;
    assert_own_weights(rules);
    assert_eq!(weights(rules, "Outbound"), [300, 1]);
    assert_eq!(weights(rules, "Inbound"), [299, 2]);

    for count in 1..=8u8 {
        let mut config = gateway(ControlledNetworkMode::External);
        config.dns_servers = (1..=count).map(|last| Ipv4Addr::new(9, 9, 9, last)).collect();
        let mut external = planned(NetworkPolicy::AllowInternet, &config);
        activated(&mut external, run_id);
        let rules = &controlled(&external).firewall_rules;
        assert_own_weights(rules);
        let outbound = weights(rules, "Outbound");
        assert_eq!(outbound[0], 60_000);
        assert!(outbound.windows(2).all(|pair| pair[0] > pair[1]));
        let inbound = weights(rules, "Inbound");
        assert_eq!(inbound.len(), usize::from(count) + 1);
        assert_eq!(inbound[0], 65_000);
        assert!(inbound.windows(2).all(|pair| pair[0] > pair[1]));
    }
}

#[test]
fn cleanup_releases_the_lease_under_its_own_text() {
    let run_id = "88888888888888888888888888888888";
    let lease = lease_for(&allocations(), Ipv4Addr::new(192, 168, 250, 10), run_id);
    let mut resources = NetworkOwnedResources::default();
    resources.guest_lease = Some(lease.clone());
    let work = cleanup_owned_resources(&resources).unwrap().unwrap();
    assert!(work.invocation.is_none());
    assert_eq!(work.lease.unwrap().path.shown, lease.path.shown);
}
