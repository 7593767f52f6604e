use foxhole::backend::BackendKind;
use foxhole::dispatcher::{
    resolve_backend, CapabilityAvailability, HyperVCapabilityEvidence, RequestedBackend,
};

#[derive(Clone, Copy, Debug)]
enum Expected {
    Selected { backend: BackendKind, fallback_used: bool, warning_count: usize },
    Rejected,
}

#[test]
fn selection_policy_table_is_exhaustive() {
    let cases = [
        (
            RequestedBackend::Restricted,
            CapabilityAvailability::Available,
            false,
            Expected::Selected {
                backend: BackendKind::RestrictedProcess,
                fallback_used: false,
                warning_count: 0,
            },
        ),
        (
            RequestedBackend::Restricted,
            CapabilityAvailability::Available,
            true,
            Expected::Selected {
                backend: BackendKind::RestrictedProcess,
                fallback_used: false,
                warning_count: 0,
            },
        ),
        (
            RequestedBackend::Restricted,
            CapabilityAvailability::Unavailable,
            false,
            Expected::Selected {
                backend: BackendKind::RestrictedProcess,
                fallback_used: false,
                warning_count: 0,
            },
        ),
        (
            RequestedBackend::Restricted,
            CapabilityAvailability::Unavailable,
            true,
            Expected::Selected {
                backend: BackendKind::RestrictedProcess,
                fallback_used: false,
                warning_count: 0,
            },
        ),
        (
            RequestedBackend::HyperV,
            CapabilityAvailability::Available,
            false,
            Expected::Selected {
                backend: BackendKind::HyperV,
                fallback_used: false,
                warning_count: 0,
            },
        ),
        (
            RequestedBackend::HyperV,
            CapabilityAvailability::Available,
            true,
            Expected::Selected {
                backend: BackendKind::HyperV,
                fallback_used: false,
                warning_count: 0,
            },
        ),
        (
            RequestedBackend::HyperV,
            CapabilityAvailability::Unavailable,
            false,
            Expected::Rejected,
        ),
        (RequestedBackend::HyperV, CapabilityAvailability::Unavailable, true, Expected::Rejected),
        (
            RequestedBackend::Auto,
            CapabilityAvailability::Available,
            false,
            Expected::Selected {
                backend: BackendKind::HyperV,
                fallback_used: false,
                warning_count: 0,
            },
        ),
        (
            RequestedBackend::Auto,
            CapabilityAvailability::Available,
            true,
            Expected::Selected {
                backend: BackendKind::HyperV,
                fallback_used: false,
                warning_count: 0,
            },
        ),
        (RequestedBackend::Auto, CapabilityAvailability::Unavailable, false, Expected::Rejected),
        (
            RequestedBackend::Auto,
            CapabilityAvailability::Unavailable,
            true,
            Expected::Selected {
                backend: BackendKind::RestrictedProcess,
                fallback_used: true,
                warning_count: 1,
            },
        ),
    ];

    for (requested, availability, fallback_permitted, expected) in cases {
        let evidence = HyperVCapabilityEvidence {
            availability,
            reason: Some("test evidence".to_string()),
        };
        let actual = resolve_backend(requested, &evidence, fallback_permitted);

        match expected {
            Expected::Selected { backend, fallback_used, warning_count } => {
                let actual = actual.unwrap_or_else(|error| {
                    panic!(
                        "{requested:?}/{availability:?}/{fallback_permitted} was rejected: {}",
                        error.to_string()
                    )
                });
                assert_eq!(actual.requested, requested);
                assert_eq!(actual.selected, backend);
                assert_eq!(actual.fallback_used, fallback_used);
                assert_eq!(actual.warnings.len(), warning_count);
            }
            Expected::Rejected => {
                let error = match actual {
                    Ok(selection) => panic!(
                        "{requested:?}/{availability:?}/{fallback_permitted} unexpectedly selected {:?}",
                        selection.selected
                    ),
                    Err(error) => error,
                };
                assert_eq!(error.stage, "backend_selection");
                assert!(error.to_string().contains("test evidence"));
            }
        }
    }
}

#[test]
fn fallback_warning_is_explicit_and_preserves_capability_evidence() {
    let selection = resolve_backend(
        RequestedBackend::Auto,
        &HyperVCapabilityEvidence::unavailable("Hyper-V feature is disabled"),
        true,
    )
    .expect("explicit auto fallback should resolve");

    assert_eq!(selection.selected, BackendKind::RestrictedProcess);
    assert!(selection.fallback_used);
    assert_eq!(selection.warnings.len(), 1);
    assert!(selection.warnings[0].contains("weaker restricted-process"));
    assert!(selection.warnings[0].contains("explicitly permitted"));
    assert!(selection.warnings[0].contains("Hyper-V feature is disabled"));
}

#[test]
fn missing_unavailability_reason_has_a_bounded_diagnostic() {
    let evidence = HyperVCapabilityEvidence {
        availability: CapabilityAvailability::Unavailable,
        reason: None,
    };
    let error = resolve_backend(RequestedBackend::Auto, &evidence, false)
        .expect_err("auto without fallback must fail closed");

    assert!(error
        .to_string()
        .contains("capability detection reported no additional reason"));
}

#[test]
fn requested_backend_display_names_match_cli_values() {
    assert_eq!(RequestedBackend::Restricted.to_string(), "restricted");
    assert_eq!(RequestedBackend::HyperV.to_string(), "hyperv");
    assert_eq!(RequestedBackend::Auto.to_string(), "auto");
}

#[test]
fn blank_reasons_count_as_missing() {
    let error = resolve_backend(
        RequestedBackend::HyperV,
        &HyperVCapabilityEvidence::unavailable(" \t"),
        true,
    )
    .unwrap_err();
    assert_eq!(
        error.message,
        "Hyper-V was explicitly requested but is unavailable: capability detection reported no additional reason"
    );
    let chosen =
        resolve_backend(RequestedBackend::HyperV, &HyperVCapabilityEvidence::available(), false)
            .unwrap();
    assert_eq!(chosen.selected, BackendKind::HyperV);
}
