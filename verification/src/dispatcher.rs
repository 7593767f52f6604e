//! The choice of a backend, from what was asked for and what the host was found capable of.

use vstd::prelude::*;
use vstd::string::*;

use crate::backend;
use crate::backend::{BackendKind, SandboxError, SandboxResult};
use crate::text;

verus! {

pub const FALLBACK_WARNING_PREFIX: &'static str =
    "Hyper-V is unavailable; using the weaker restricted-process backend because fallback was explicitly permitted";

/// The backend mode that the caller asks for. `Auto` is a policy, not a backend: a successful
/// choice always gives a concrete one.
#[derive(Clone, Copy, Debug, PartialEq, Eq, Structural)]
pub enum RequestedBackend {
    Restricted,
    HyperV,
    Auto,
}

impl RequestedBackend {
    pub open spec fn spec_name(self) -> Seq<char> {
        match self {
            RequestedBackend::Restricted => "restricted"@,
            RequestedBackend::HyperV => "hyperv"@,
            RequestedBackend::Auto => "auto"@,
        }
    }

    pub fn to_string(&self) -> (shown: String)
        ensures
            shown@ == self.spec_name(),
    {
        match self {
            RequestedBackend::Restricted => "restricted".to_owned(),
            RequestedBackend::HyperV => "hyperv".to_owned(),
            RequestedBackend::Auto => "auto".to_owned(),
        }
    }
}

/// Whether the host was found able to run Hyper-V.
#[derive(Clone, Copy, Debug, PartialEq, Eq, Structural)]
pub enum CapabilityAvailability {
    Available,
    Unavailable,
}

/// What was found out of the host's capability, before anything is prepared or run. Later failures
/// are no such evidence and never lead to a fallback.
#[derive(Clone, Debug, PartialEq, Eq)]
pub struct HyperVCapabilityEvidence {
    pub availability: CapabilityAvailability,
    pub reason: Option<String>,
}

impl HyperVCapabilityEvidence {
    pub fn available() -> (evidence: HyperVCapabilityEvidence)
        ensures
            evidence.availability == CapabilityAvailability::Available,
            evidence.reason is None,
    {
        HyperVCapabilityEvidence { availability: CapabilityAvailability::Available, reason: None }
    }

    pub fn unavailable(reason: &str) -> (evidence: HyperVCapabilityEvidence)
        ensures
            evidence.availability == CapabilityAvailability::Unavailable,
            text::view_option(evidence.reason) == Some(reason@),
    {
        HyperVCapabilityEvidence {
            availability: CapabilityAvailability::Unavailable,
            reason: Some(reason.to_owned()),
        }
    }

    /// The reason that is given, or a standard one where it is missing or blank.
    pub open spec fn spec_unavailable_reason(&self) -> Seq<char> {
        match self.reason {
            Some(reason) => if text::blank(reason@) {
                "capability detection reported no additional reason"@
            } else {
                reason@
            },
            None => "capability detection reported no additional reason"@,
        }
    }

    fn unavailable_reason(&self) -> (reason: &str)
        ensures
            reason@ == self.spec_unavailable_reason(),
    {
        match &self.reason {
            Some(reason) => if text::is_blank(reason.as_str()) {
                "capability detection reported no additional reason"
            } else {
                reason.as_str()
            },
            None => "capability detection reported no additional reason",
        }
    }
}

/// A concrete choice, fit for execution and for reports.
#[derive(Clone, Debug, PartialEq, Eq)]
pub struct BackendSelection {
    pub requested: RequestedBackend,
    pub selected: BackendKind,
    pub fallback_used: bool,
    pub warnings: Vec<String>,
}

/// What a choice says.
pub struct SelectionView {
    pub requested: RequestedBackend,
    pub selected: BackendKind,
    pub fallback_used: bool,
    pub warnings: Seq<Seq<char>>,
}

impl View for BackendSelection {
    type V = SelectionView;

    open spec fn view(&self) -> SelectionView {
        SelectionView {
            requested: self.requested,
            selected: self.selected,
            fallback_used: self.fallback_used,
            warnings: text::views(self.warnings@),
        }
    }
}

/// The choice for a request.
pub open spec fn selection_value(
    requested: RequestedBackend,
    evidence: &HyperVCapabilityEvidence,
    allow_restricted_fallback: bool,
) -> Result<SelectionView, backend::Fault> {
    let available = evidence.availability == CapabilityAvailability::Available;
    let reason = evidence.spec_unavailable_reason();
    match requested {
        RequestedBackend::Restricted => Ok(
            SelectionView {
                requested,
                selected: BackendKind::RestrictedProcess,
                fallback_used: false,
                warnings: Seq::empty(),
            },
        ),
        _ => if available {
            Ok(
                SelectionView {
                    requested,
                    selected: BackendKind::HyperV,
                    fallback_used: false,
                    warnings: Seq::empty(),
                },
            )
        } else if requested == RequestedBackend::HyperV {
            Err(
                backend::fault(
                    "backend_selection"@,
                    "Hyper-V was explicitly requested but is unavailable: "@ + reason,
                ),
            )
        } else if allow_restricted_fallback {
            Ok(
                SelectionView {
                    requested,
                    selected: BackendKind::RestrictedProcess,
                    fallback_used: true,
                    warnings: seq![FALLBACK_WARNING_PREFIX@ + ": "@ + reason],
                },
            )
        } else {
            Err(
                backend::fault(
                    "backend_selection"@,
                    "Hyper-V is unavailable and fallback to the weaker restricted-process backend was not explicitly permitted: "@
                        + reason,
                ),
            )
        },
    }
}

/// Resolves a request by the evidence of capability. A fallback needs all of: `Auto`, a host without
/// the capability, and explicit permission for the weaker isolation.
pub fn resolve_backend(
    requested: RequestedBackend,
    hyperv: &HyperVCapabilityEvidence,
    allow_restricted_fallback: bool,
) -> (selected: SandboxResult<BackendSelection>)
    ensures
        match (selection_value(requested, hyperv, allow_restricted_fallback), selected) {
            (Ok(expected), Ok(found)) => found@ == expected,
            (Err(fault), Err(error)) => error@ == fault,
            _ => false,
        },
{
    match requested {
        RequestedBackend::Restricted => Ok(
            selection(requested, BackendKind::RestrictedProcess, false, Vec::new()),
        ),
        RequestedBackend::HyperV => match hyperv.availability {
            CapabilityAvailability::Available => Ok(
                selection(requested, BackendKind::HyperV, false, Vec::new()),
            ),
            CapabilityAvailability::Unavailable => {
                let message = text::cat2(
                    "Hyper-V was explicitly requested but is unavailable: ",
                    hyperv.unavailable_reason(),
                );
                Err(SandboxError::new("backend_selection", message.as_str()))
            },
        },
        RequestedBackend::Auto => match hyperv.availability {
            CapabilityAvailability::Available => Ok(
                selection(requested, BackendKind::HyperV, false, Vec::new()),
            ),
            CapabilityAvailability::Unavailable => {
                if allow_restricted_fallback {
                    let warning = text::cat3(
                        FALLBACK_WARNING_PREFIX,
                        ": ",
                        hyperv.unavailable_reason(),
                    );
                    let mut warnings: Vec<String> = Vec::new();
                    warnings.push(warning);
                    proof {
                        assert(text::views(warnings@) =~= seq![warning@]);
                    }
                    Ok(selection(requested, BackendKind::RestrictedProcess, true, warnings))
                } else {
                    let message = text::cat2(
                        "Hyper-V is unavailable and fallback to the weaker restricted-process backend was not explicitly permitted: ",
                        hyperv.unavailable_reason(),
                    );
                    Err(SandboxError::new("backend_selection", message.as_str()))
                }
            },
        },
    }
}

fn selection(
    requested: RequestedBackend,
    selected: BackendKind,
    fallback_used: bool,
    warnings: Vec<String>,
) -> (made: BackendSelection)
    ensures
        made@ == (SelectionView {
            requested,
            selected,
            fallback_used,
            warnings: text::views(warnings@),
        }),
        warnings@.len() == 0 ==> made@.warnings == Seq::<Seq<char>>::empty(),
{
    proof {
        if warnings@.len() == 0 {
            assert(text::views(warnings@) =~= Seq::<Seq<char>>::empty());
        }
    }
    BackendSelection { requested, selected, fallback_used, warnings }
}

/// The weaker backend is chosen only where it was asked for by name, or where `Auto` met a host
/// without the capability and the fallback was explicitly permitted; the latter is always marked
/// and warned of. An explicit request for Hyper-V never falls back.
pub proof fn fallback_is_only_by_permission(
    requested: RequestedBackend,
    evidence: &HyperVCapabilityEvidence,
    allow_restricted_fallback: bool,
)
    ensures
        selection_value(requested, evidence, allow_restricted_fallback) matches Ok(chosen) ==> {
            &&& chosen.requested == requested
            &&& chosen.fallback_used <==> requested == RequestedBackend::Auto
                && evidence.availability == CapabilityAvailability::Unavailable
                && allow_restricted_fallback
            &&& chosen.fallback_used <==> chosen.warnings.len() == 1
            &&& chosen.selected == BackendKind::RestrictedProcess <==> requested
                == RequestedBackend::Restricted || chosen.fallback_used
            &&& chosen.selected == BackendKind::HyperV ==> evidence.availability
                == CapabilityAvailability::Available
        },
        requested == RequestedBackend::HyperV && evidence.availability
            == CapabilityAvailability::Unavailable ==> selection_value(
            requested,
            evidence,
            allow_restricted_fallback,
        ) is Err,
{
}

/// A backend is found exactly where the restricted one was asked for, where Hyper-V is there, or where
/// falling back was left open and permitted; what kept Hyper-V from being there is told.
pub proof fn selections_succeed_where_a_backend_is_left(
    requested: RequestedBackend,
    evidence: &HyperVCapabilityEvidence,
    allow_restricted_fallback: bool,
)
    ensures
        selection_value(requested, evidence, allow_restricted_fallback) is Ok <==> requested
            == RequestedBackend::Restricted || evidence.availability
            == CapabilityAvailability::Available || requested == RequestedBackend::Auto
            && allow_restricted_fallback,
        selection_value(requested, evidence, allow_restricted_fallback) matches Err(fault) ==> {
            &&& fault.stage == "backend_selection"@
            &&& text::ends(fault.message, evidence.spec_unavailable_reason())
        },
        selection_value(requested, evidence, allow_restricted_fallback) matches Ok(chosen)
            ==> chosen.warnings.len() == 1 ==> text::ends(
            chosen.warnings[0],
            evidence.spec_unavailable_reason(),
        ),
        evidence.reason is Some && !text::blank(evidence.reason->0@)
            ==> evidence.spec_unavailable_reason() == evidence.reason->0@,
{
    let reason = evidence.spec_unavailable_reason();
    lemma_ends(
        "Hyper-V was explicitly requested but is unavailable: "@,
        reason,
    );
    lemma_ends(
        "Hyper-V is unavailable and fallback to the weaker restricted-process backend was not explicitly permitted: "@,
        reason,
    );
    lemma_ends(FALLBACK_WARNING_PREFIX@ + ": "@, reason);
}

proof fn lemma_ends(front: Seq<char>, back: Seq<char>)
    ensures
        text::ends(front + back, back),
{
    assert((front + back).skip(front.len() as int) =~= back);
}

/// A requested backend is reported under the name that it is requested by.
pub proof fn requested_backends_are_named(requested: RequestedBackend)
    ensures
        requested.spec_name() == match requested {
            RequestedBackend::Restricted => "restricted"@,
            RequestedBackend::HyperV => "hyperv"@,
            RequestedBackend::Auto => "auto"@,
        },
{
}

} // verus!
