use foxhole::backend::{
    BackendKind, HyperVGuestProfile, IpNetwork, MappedPath, MappedPathAccess, MitigationProfile,
    NetworkPolicy, ReportStage, ResourceLimits, SandboxError, SandboxRequest, StageTimer,
};
use foxhole::host_path::HostPath;
use foxhole::net::{IpAddr, Ipv4Addr, Ipv6Addr};

fn path(shown: &str) -> HostPath {
    HostPath::parse(shown)
}

fn mapping(name: &str, access: MappedPathAccess) -> MappedPath {
    MappedPath { host_path: path("data"), guest_name: name.to_string(), access }
}

#[test]
fn parses_ipv4_and_ipv6_allow_list_entries() {
    assert_eq!(
        "192.0.2.0/24".parse::<IpNetwork>().unwrap(),
        IpNetwork::V4 { address: Ipv4Addr::new(192, 0, 2, 0), prefix: 24 }
    );
    assert_eq!(
        "2001:db8::1".parse::<IpNetwork>().unwrap(),
        IpNetwork::V6 { address: Ipv6Addr::parse("2001:db8::1").unwrap(), prefix: 128 }
    );
}

#[test]
fn rejects_invalid_allow_list_prefixes() {
    assert!("192.0.2.1/33".parse::<IpNetwork>().is_err());
    assert!("2001:db8::/129".parse::<IpNetwork>().is_err());
}

#[test]
fn validates_mapped_path_names() {
    let mut request = SandboxRequest::restricted(path("sample.exe"));
    request.mapped_paths.push(mapping("../escape", MappedPathAccess::ReadOnly));
    assert!(request.validate().is_err());
}

#[test]
fn rejects_windows_unsafe_mapped_path_names() {
    for guest_name in [
        "C:escape",
        "file:stream",
        "CON",
        "NUL.txt",
        "COM1.log",
        "trailing.",
        "trailing ",
    ] {
        let mut request = SandboxRequest::restricted(path("sample.exe"));
        request.mapped_paths.push(mapping(guest_name, MappedPathAccess::ReadOnly));
        assert!(
            request.validate().is_err(),
            "Windows-unsafe mapping name should be rejected: {guest_name}"
        );
    }
}

#[test]
fn names_defaults_and_capabilities_are_stable() {
    assert_eq!(BackendKind::RestrictedProcess.to_string(), "restricted_process");
    assert_eq!(BackendKind::HyperV.to_string(), "hyperv");
    assert_eq!(MitigationProfile::Compatible.to_string(), "compatible");
    assert_eq!(MitigationProfile::Strict.to_string(), "strict");
    assert_eq!(MitigationProfile::Maximum.to_string(), "maximum");

    let policies = [
        (NetworkPolicy::DenyAll, "deny_all", false),
        (NetworkPolicy::HostServer, "host_server", false),
        (NetworkPolicy::AllowList(Vec::new()), "allow_list", true),
        (NetworkPolicy::AllowInternet, "allow_internet", true),
        (NetworkPolicy::CaptureOnly, "capture_only", true),
    ];
    for (policy, name, capability) in policies {
        assert_eq!(policy.name(), name);
        assert_eq!(policy.needs_internet_capability(), capability);
    }

    let request = SandboxRequest::restricted(path("sample.exe"));
    assert_eq!(request.timeout_secs, 30);
    assert_eq!(request.resource_limits, ResourceLimits::default());
    assert_eq!(request.resource_limits.active_process_limit, 32);
    assert!(request.validate().is_ok());
    let request = SandboxRequest::hyperv(path("sample.exe"));
    assert_eq!(request.backend, BackendKind::HyperV);
    assert!(request.validate_for_backend(BackendKind::HyperV).is_ok());
    assert!(request.validate_for_backend(BackendKind::RestrictedProcess).is_err());
}

#[test]
fn address_parsing_covers_defaults_display_and_malformed_values() {
    let v4 = "192.0.2.1".parse::<IpNetwork>().unwrap();
    assert_eq!(v4.to_string(), "192.0.2.1/32");
    let v6 = "2001:db8::/64".parse::<IpNetwork>().unwrap();
    assert_eq!(v6.to_string(), "2001:db8::/64");

    for value in ["not-an-ip", "192.0.2.1/nope", "2001:db8::/999"] {
        let error = value.parse::<IpNetwork>().expect_err("must reject malformed CIDR");
        assert_eq!(error.stage, "request_validation");
    }
}

#[test]
fn every_resource_limit_failure_is_rejected() {
    let mut cases = Vec::new();
    let mut request = SandboxRequest::restricted(path("sample.exe"));
    request.timeout_secs = 0;
    cases.push(request);

    for mutate in [
        |limits: &mut ResourceLimits| limits.active_process_limit = 0,
        |limits: &mut ResourceLimits| limits.process_memory_bytes = 0,
        |limits: &mut ResourceLimits| limits.job_memory_bytes = 0,
        |limits: &mut ResourceLimits| limits.cpu_rate_percent = 0,
        |limits: &mut ResourceLimits| limits.cpu_rate_percent = 101,
    ] {
        let mut request = SandboxRequest::restricted(path("sample.exe"));
        mutate(&mut request.resource_limits);
        cases.push(request);
    }
    let mut request = SandboxRequest::restricted(path("sample.exe"));
    request.resource_limits.job_memory_bytes = request.resource_limits.process_memory_bytes - 1;
    cases.push(request);

    for request in cases {
        assert!(request.validate().is_err());
    }
}

#[test]
fn guest_profiles_require_hyperv_and_compatible_mitigations() {
    for profile in [HyperVGuestProfile::Normal, HyperVGuestProfile::Admin] {
        let mut local = SandboxRequest::restricted(path("sample.exe"));
        local.hyperv_guest_profile = profile;
        assert!(local.validate().is_err());

        let mut hyperv = SandboxRequest::hyperv(path("sample.exe"));
        hyperv.hyperv_guest_profile = profile;
        assert!(hyperv.validate().is_ok());
        hyperv.mitigation_profile = MitigationProfile::Strict;
        assert!(hyperv.validate().is_err());
    }
}

#[test]
fn every_unsafe_or_duplicate_mapping_name_is_rejected() {
    for names in [
        vec![""],
        vec!["."],
        vec![".."],
        vec!["a/b"],
        vec![r"a\b"],
        vec!["Data", "data"],
    ] {
        let mut request = SandboxRequest::restricted(path("sample.exe"));
        request.mapped_paths = names
            .into_iter()
            .map(|name| mapping(name, MappedPathAccess::ReadWrite))
            .collect();
        assert!(request.validate().is_err());
    }
}

#[test]
fn sandbox_errors_preserve_stage_message_and_source() {
    let plain = SandboxError::new("prepare", "failed");
    assert_eq!(plain.to_string(), "prepare: failed");
    assert!(plain.source().is_none());

    let sourced = SandboxError::with_source("workspace", "open file", "denied");
    assert!(sourced.to_string().contains("workspace: open file: denied"));
    assert!(sourced.source().is_some());
}

#[test]
fn report_stage_timers_are_monotonic_and_structured() {
    let stage = StageTimer::start("preparation").finish(
        false,
        vec!["warning".to_string()],
        vec!["error".to_string()],
    );
    assert_eq!(stage.stage, "preparation");
    assert!(stage.end_time_unix_ms >= stage.start_time_unix_ms);
    assert!(!stage.success);
    assert_eq!(stage.warnings, ["warning"]);
    assert_eq!(stage.errors, ["error"]);

    let instant = ReportStage::instant("cleanup", true);
    assert_eq!(instant.start_time_unix_ms, instant.end_time_unix_ms);
    assert_eq!(instant.duration_ms, 0);
    assert!(instant.success);
}

#[test]
fn stage_timers_read_both_clocks() {
    let timer = StageTimer::start("work");
    // The system clock stands after the first of January 2020.
    assert!(timer.start_time_unix_ms > 1_577_836_800_000);
    let start = timer.start_time_unix_ms;
    let stage = timer.finish_at(start + 5, u128::MAX, true, Vec::new(), Vec::new());
    assert_eq!(stage.end_time_unix_ms, start + 5);
    assert_eq!(stage.duration_ms, u64::MAX);
    let stage = StageTimer::start("work").finish_at(0, 7, true, Vec::new(), Vec::new());
    assert_eq!(stage.end_time_unix_ms, stage.start_time_unix_ms);
    assert_eq!(stage.duration_ms, 7);
}

#[test]
fn requests_are_compared_field_by_field() {
    let request = SandboxRequest::hyperv(path("sample.exe"));
    assert!(request.is_same(&SandboxRequest::hyperv(path("sample.exe"))));
    assert!(!request.is_same(&SandboxRequest::hyperv(path("other.exe"))));
    assert!(!request.is_same(&SandboxRequest::restricted(path("sample.exe"))));

    let mut other = SandboxRequest::hyperv(path("sample.exe"));
    other.arguments.push("--flag".to_string());
    assert!(!request.is_same(&other));

    let mut left = SandboxRequest::hyperv(path("sample.exe"));
    let mut right = SandboxRequest::hyperv(path("sample.exe"));
    left.network_policy = NetworkPolicy::AllowList(vec!["2001:db8::/32".parse().unwrap()]);
    right.network_policy = NetworkPolicy::AllowList(vec!["2001:db8::/32".parse().unwrap()]);
    assert!(left.is_same(&right));
    right.network_policy = NetworkPolicy::AllowList(vec!["2001:db8::/33".parse().unwrap()]);
    assert!(!left.is_same(&right));
    right.network_policy = NetworkPolicy::AllowInternet;
    assert!(!left.is_same(&right));

    left = SandboxRequest::restricted(path("sample.exe"));
    right = SandboxRequest::restricted(path("sample.exe"));
    left.mapped_paths.push(mapping("data", MappedPathAccess::ReadOnly));
    assert!(!left.is_same(&right));
    right.mapped_paths.push(mapping("data", MappedPathAccess::ReadWrite));
    assert!(!left.is_same(&right));
    right.mapped_paths[0].access = MappedPathAccess::ReadOnly;
    assert!(left.is_same(&right));
}

#[test]
fn addresses_are_read_and_shown_in_their_shortest_form() {
    assert_eq!(Ipv4Addr::parse("127.0.0.1"), Some(Ipv4Addr::new(127, 0, 0, 1)));
    for malformed in ["", "1.2.3", "1.2.3.4.5", "1.2.3.256", "01.2.3.4", "1.2.3.4 ", "1..2.3"] {
        assert_eq!(Ipv4Addr::parse(malformed), None, "{malformed:?}");
    }
    assert_eq!(Ipv4Addr::new(10, 0, 255, 1).to_string(), "10.0.255.1");

    assert_eq!(Ipv6Addr::new(0, 0, 0, 0, 0, 0, 0, 0).to_string(), "::");
    assert_eq!(Ipv6Addr::new(0, 0, 0, 0, 0, 0, 0, 1).to_string(), "::1");
    assert_eq!(Ipv6Addr::new(0x2001, 0xdb8, 0, 0, 1, 0, 0, 1).to_string(), "2001:db8::1:0:0:1");
    assert_eq!(Ipv6Addr::parse("::ffff:192.0.2.1").unwrap().to_string(), "::ffff:192.0.2.1");
    for malformed in [":", "1:2:3:4:5:6:7", "1::2::3", "12345::", "::g", "1:2:3:4:5:6:7:8:9"] {
        assert!(Ipv6Addr::parse(malformed).is_none(), "{malformed:?}");
    }
    assert!(matches!(IpAddr::parse("1.2.3.4"), Some(IpAddr::V4(_))));
    assert!(matches!(IpAddr::parse("fe80::1"), Some(IpAddr::V6(_))));
    assert!(IpAddr::parse("fe80::1%eth0").is_none());
}

#[test]
fn requests_are_refused_with_their_reason() {
    let mut request = SandboxRequest::restricted(path("sample.exe"));
    request.timeout_secs = 0;
    assert_eq!(request.validate().unwrap_err().stage, "request_validation");
    let error = SandboxRequest::hyperv(path("sample.exe"))
        .validate_for_backend(BackendKind::RestrictedProcess)
        .unwrap_err();
    assert_eq!(error.stage, "request_validation");
    assert!(error.message.contains("hyperv"));
    assert!(error.message.contains("restricted_process"));
}

#[test]
fn shown_networks_are_read_back() {
    for shown in [
        "0.0.0.0/0",
        "192.0.2.0/24",
        "255.255.255.255/32",
        "::/0",
        "::1/128",
        "2001:db8::/64",
        "2001:db8:0:1:1:1:1:1/128",
        "1:0:0:2:0:0:0:3/48",
        "::ffff:192.0.2.1/96",
    ] {
        let network = shown.parse::<IpNetwork>().unwrap();
        assert_eq!(network.to_string().parse::<IpNetwork>().unwrap(), network);
    }
    assert_eq!("1:0:0:2:0:0:0:3/48".parse::<IpNetwork>().unwrap().to_string(), "1:0:0:2::3/48");
    assert_eq!(
        "::ffff:c000:201/96".parse::<IpNetwork>().unwrap().to_string(),
        "::ffff:192.0.2.1/96"
    );
}
