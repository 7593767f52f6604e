//! The execution of a provisioned run: the machine is started, watched until it ends, and its output
//! collected, between two verifications of its containment.

use vstd::prelude::*;
use vstd::string::*;

use crate::backend;
use crate::backend::{ReportStage, SandboxError, SandboxRequest, SandboxResult, StageTimer};
use crate::clock;
use crate::host_path::HostPath;
use crate::hyperv::cleanup;
use crate::hyperv::data_disk::{DataDiskMount, DataDiskState, RunDataDisk};
use crate::hyperv::exchange;
use crate::hyperv::exchange::SyntheticOutcome;
use crate::hyperv::guest_protocol;
use crate::hyperv::journal::{CleanupJournal, CleanupPhase, JournalView};
use crate::hyperv::network;
use crate::hyperv::network::{HyperVNetworkPlan, NetworkAttachment};
use crate::hyperv::result_collector::{CollectedGuestOutput, PartialCollection};
use crate::hyperv::runtime;
use crate::hyperv::runtime::VmCompletion;
use crate::hyperv::vm;
use crate::hyperv::vm::VmStatus;
use crate::structs::SandboxRunResult;
use crate::text;

verus! {

/// What an execution waits for.
#[derive(Clone, Copy, Debug, PartialEq, Eq, Structural)]
pub enum ExecutionStep {
    VerifyBefore,
    StartVm,
    PersistRunning,
    AwaitCompletion,
    /// After an error of the watch.
    StopAfterError,
    VerifyAfterError,
    /// After a run that did not end by itself.
    ForceStop,
    AwaitOff,
    DetachPartial,
    MountPartial,
    PersistPartialMount,
    CollectPartial,
    DismountPartial,
    PersistPartialDismount,
    VerifyAfterStop,
    /// After a machine that switched itself off.
    VerifyAfter,
    DetachData,
    MountData,
    PersistMount,
    Collect,
    DismountData,
    PersistDismount,
    Done,
}

/// What the host answered.
#[derive(Debug)]
pub enum ExecutionEvent {
    Attested(SandboxResult<NetworkAttachment>),
    Started(SandboxResult<VmStatus>),
    /// To the writing of the journal, or to the detachment of the data disk.
    Settled(SandboxResult<()>),
    Completed(SandboxResult<VmCompletion>),
    /// To a stop, or to the wait for one.
    Stopped(SandboxResult<bool>),
    Mounted(SandboxResult<DataDiskMount>),
    Rescued(SandboxResult<PartialCollection>),
    Collected(SandboxResult<CollectedGuestOutput>),
    /// Whether the dismount was confirmed.
    Dismounted(SandboxResult<bool>),
}

/// How the watch of the machine ended.
#[derive(Debug)]
pub enum Ending {
    Running,
    Failed(SandboxError),
    TimedOut(String),
    DiskQuota(u64, u64),
    PoweredOff(String),
}

pub enum EndingView {
    Running,
    Failed(backend::Fault),
    TimedOut(Seq<char>),
    DiskQuota(u64, u64),
    PoweredOff(Seq<char>),
}

impl View for Ending {
    type V = EndingView;

    open spec fn view(&self) -> EndingView {
        match self {
            Ending::Running => EndingView::Running,
            Ending::Failed(error) => EndingView::Failed(error@),
            Ending::TimedOut(observation) => EndingView::TimedOut(observation@),
            Ending::DiskQuota(observed, maximum) => EndingView::DiskQuota(*observed, *maximum),
            Ending::PoweredOff(observation) => EndingView::PoweredOff(observation@),
        }
    }
}

/// Whether partial output could be kept, and what is reported of it.
#[derive(Debug)]
pub struct PartialPreservation {
    pub message: String,
    pub success: bool,
}

pub struct PreservationView {
    pub message: Seq<char>,
    pub success: bool,
}

impl View for PartialPreservation {
    type V = PreservationView;

    open spec fn view(&self) -> PreservationView {
        PreservationView { message: self.message@, success: self.success }
    }
}

/// What a stage of the report says, but for its times: those rest on the clocks, and `clocked` says
/// how they are carried on.
pub struct StageView {
    pub stage: Seq<char>,
    pub success: bool,
    pub warnings: Seq<Seq<char>>,
    pub errors: Seq<Seq<char>>,
}

pub open spec fn stage_view(stage: ReportStage) -> StageView {
    StageView {
        stage: stage.stage@,
        success: stage.success,
        warnings: text::views(stage.warnings@),
        errors: text::views(stage.errors@),
    }
}

pub open spec fn stage_views(stages: Seq<ReportStage>) -> Seq<StageView> {
    stages.map_values(|stage: ReportStage| stage_view(stage))
}

/// What does not change while a run is executed.
#[derive(Debug)]
pub struct RunSetting {
    pub request: SandboxRequest,
    pub image_version: String,
    pub request_sha256: String,
    pub plan: HyperVNetworkPlan,
    pub program_data: Option<HostPath>,
}

/// A run being executed.
pub struct Execution {
    pub step: ExecutionStep,
    pub setting: RunSetting,
    pub journal: CleanupJournal,
    pub post_verification: Option<NetworkAttachment>,
    pub stages: Vec<ReportStage>,
    pub ending: Ending,
    pub stop_error: Option<String>,
    pub preservation: Option<PartialPreservation>,
    pub partial: Option<SandboxResult<PartialCollection>>,
    pub collected: Option<SandboxResult<CollectedGuestOutput>>,
    pub dismount: Option<SandboxResult<()>>,
    pub started: std::time::Instant,
    pub observation_timer: Option<StageTimer>,
    pub completion_timer: Option<StageTimer>,
    pub artifact_timer: Option<StageTimer>,
    pub result: Option<SandboxResult<SandboxRunResult>>,
}

/// Where an execution stands.
pub struct ExecutionView {
    pub step: ExecutionStep,
    pub journal: JournalView,
    pub post: Option<NetworkAttachment>,
    pub stages: Seq<StageView>,
    pub ending: EndingView,
    pub stop_error: Option<Seq<char>>,
    pub preservation: Option<PreservationView>,
    pub partial: Option<Result<PartialCollection, backend::Fault>>,
    pub collected: Option<Result<CollectedGuestOutput, backend::Fault>>,
    pub dismount: Option<Result<(), backend::Fault>>,
    /// Whether there is a result, or why not, once the execution is done.
    pub verdict: Option<Result<(), backend::Fault>>,
}

pub open spec fn outcome_option<T>(held: Option<SandboxResult<T>>) -> Option<
    Result<T, backend::Fault>,
> {
    match held {
        Some(result) => Some(backend::outcome(result)),
        None => None,
    }
}

pub open spec fn verdict_option<T>(held: Option<SandboxResult<T>>) -> Option<
    Result<(), backend::Fault>,
> {
    match held {
        Some(Ok(_)) => Some(Ok(())),
        Some(Err(error)) => Some(Err(error@)),
        None => None,
    }
}

impl View for Execution {
    type V = ExecutionView;

    open spec fn view(&self) -> ExecutionView {
        ExecutionView {
            step: self.step,
            journal: self.journal@,
            post: self.post_verification,
            stages: stage_views(self.stages@),
            ending: self.ending@,
            stop_error: text::view_option(self.stop_error),
            preservation: match self.preservation {
                Some(preservation) => Some(preservation@),
                None => None,
            },
            partial: outcome_option(self.partial),
            collected: outcome_option(self.collected),
            dismount: outcome_option(self.dismount),
            verdict: verdict_option(self.result),
        }
    }
}

// ---------------------------------------------------------------------------------------------
// Reports
// ---------------------------------------------------------------------------------------------

pub open spec fn quota_text(observed: u64, maximum: u64) -> Seq<char> {
    "disposable VM writable storage reached "@ + text::decimal(observed as nat)
        + " bytes and exceeded its "@ + text::decimal(maximum as nat) + " byte host quota"@
}

/// The stages of a run that ran out of time.
pub open spec fn timeout_stages(observation: Seq<char>) -> Seq<StageView> {
    seq![
        StageView {
            stage: "observation"@,
            success: true,
            warnings: seq![
                "host VM observation ended when the authoritative VM deadline expired"@,
                observation,
            ],
            errors: Seq::empty(),
        },
        StageView {
            stage: "timeout_or_completion"@,
            success: true,
            warnings: seq![
                "the authoritative host VM deadline expired before authenticated guest completion"@,
            ],
            errors: Seq::empty(),
        },
    ]
}

/// The stages of a run whose disks outgrew their quota.
pub open spec fn quota_stages(observation: Seq<char>, observed: u64, maximum: u64) -> Seq<StageView> {
    seq![
        StageView {
            stage: "observation"@,
            success: false,
            warnings: seq![observation],
            errors: seq!["critical containment event: "@ + quota_text(observed, maximum)],
        },
        StageView {
            stage: "timeout_or_completion"@,
            success: false,
            warnings: Seq::empty(),
            errors: seq!["VM execution was terminated by the host disk quota"@],
        },
    ]
}

/// The stages of a run whose machine switched itself off.
pub open spec fn completion_stages(observation: Seq<char>) -> Seq<StageView> {
    seq![
        StageView {
            stage: "observation"@,
            success: true,
            warnings: seq![observation],
            errors: Seq::empty(),
        },
        StageView {
            stage: "timeout_or_completion"@,
            success: true,
            warnings: Seq::empty(),
            errors: Seq::empty(),
        },
    ]
}

/// The stages with a warning added to the first one of a name.
pub open spec fn warn_first(stages: Seq<StageView>, name: Seq<char>, warning: Seq<char>) -> Seq<
    StageView,
>
    decreases stages.len(),
{
    if stages.len() == 0 {
        stages
    } else if stages[0].stage == name {
        stages.update(0, StageView { warnings: stages[0].warnings.push(warning), ..stages[0] })
    } else {
        seq![stages[0]] + warn_first(stages.skip(1), name, warning)
    }
}

pub open spec fn target_timeout_text() -> Seq<char> {
    "the guest agent reported that the target timeout expired; the host VM deadline did not expire"@
}

/// What is reported of partial output that was kept.
pub open spec fn preserved_text(partial: PartialCollection) -> Seq<char> {
    "preserved "@ + text::decimal(partial.artifact_count as nat)
        + " bounded untrusted partial guest output file(s), "@ + text::decimal(
        partial.total_bytes as nat,
    ) + " bytes total"@
}

pub open spec fn unpreserved_text(fault: backend::Fault) -> Seq<char> {
    "could not preserve partial guest output: "@ + backend::fault_text(fault)
}

// ---------------------------------------------------------------------------------------------
// Transitions
// ---------------------------------------------------------------------------------------------

impl ExecutionView {
    /// The machine and its data disk are recorded.
    pub open spec fn equipped(self) -> bool {
        self.journal.vm is Some && self.journal.data_disk is Some
    }

    /// A run that did not end by itself is being stopped and its output rescued.
    pub open spec fn rescuing(self) -> bool {
        ||| self.step == ExecutionStep::ForceStop
        ||| self.step == ExecutionStep::AwaitOff
        ||| self.step == ExecutionStep::DetachPartial
        ||| self.step == ExecutionStep::MountPartial
        ||| self.step == ExecutionStep::PersistPartialMount
        ||| self.step == ExecutionStep::CollectPartial
        ||| self.step == ExecutionStep::DismountPartial
        ||| self.step == ExecutionStep::PersistPartialDismount
        ||| self.step == ExecutionStep::VerifyAfterStop
    }

    /// The output of a machine that switched itself off is being collected.
    pub open spec fn collecting(self) -> bool {
        ||| self.step == ExecutionStep::DetachData
        ||| self.step == ExecutionStep::MountData
        ||| self.step == ExecutionStep::PersistMount
        ||| self.step == ExecutionStep::Collect
        ||| self.step == ExecutionStep::DismountData
        ||| self.step == ExecutionStep::PersistDismount
    }

    /// What is known where a step has come.
    pub open spec fn consistent(self) -> bool {
        &&& self.equipped()
        &&& self.rescuing() ==> self.ending is TimedOut || self.ending is DiskQuota
        &&& self.step == ExecutionStep::VerifyAfterStop ==> self.preservation is Some
        &&& self.step == ExecutionStep::DismountPartial ==> self.partial is Some
        &&& self.step == ExecutionStep::PersistPartialDismount ==> self.partial is Some
        &&& self.collecting() || self.step == ExecutionStep::VerifyAfter ==> self.ending is PoweredOff
        &&& self.collecting() ==> self.post is Some
        &&& self.step == ExecutionStep::DismountData ==> self.collected is Some
        &&& self.step == ExecutionStep::PersistDismount ==> self.collected is Some
        &&& self.step == ExecutionStep::StopAfterError ==> self.ending is Failed
        &&& self.step == ExecutionStep::VerifyAfterError ==> self.ending is Failed
        &&& (self.step == ExecutionStep::Done) == (self.verdict is Some)
    }

    pub open spec fn at(self, step: ExecutionStep) -> ExecutionView {
        ExecutionView { step, ..self }
    }

    pub open spec fn fail(self, fault: backend::Fault) -> ExecutionView {
        ExecutionView { step: ExecutionStep::Done, verdict: Some(Err(fault)), ..self }
    }

    pub open spec fn succeed(self) -> ExecutionView {
        ExecutionView { step: ExecutionStep::Done, verdict: Some(Ok(())), ..self }
    }

    /// Goes on to write the journal.
    #[verifier::opaque]
    pub open spec fn persist(self, setting: &RunSetting, step: ExecutionStep) -> ExecutionView {
        match self.journal.persist_fault(cleanup::held(&setting.program_data)) {
            Some(fault) => self.fail(fault),
            None => ExecutionView { journal: self.journal.next_generation(), step, ..self },
        }
    }

    pub open spec fn with_data_disk(self, disk: RunDataDisk) -> ExecutionView {
        ExecutionView {
            journal: JournalView { data_disk: Some(disk), ..self.journal },
            ..self
        }
    }

    // Start ----------------------------------------------------------------------------------

    #[verifier::opaque]
    pub open spec fn verified_before(
        self,
        setting: &RunSetting,
        attested: SandboxResult<NetworkAttachment>,
    ) -> ExecutionView {
        match attestation_value(setting, attested) {
            Err(fault) => self.fail(fault),
            Ok(_) => self.at(ExecutionStep::StartVm),
        }
    }

    #[verifier::opaque]
    pub open spec fn started(
        self,
        setting: &RunSetting,
        started: SandboxResult<VmStatus>,
    ) -> ExecutionView {
        match started {
            Err(error) => self.fail(error@),
            Ok(status) => match vm::start_verdict(&self.journal.vm->0, &status) {
                Err(fault) => self.fail(fault),
                Ok(_) => ExecutionView {
                    journal: JournalView { phase: CleanupPhase::Running, ..self.journal },
                    ..self
                }.persist(setting, ExecutionStep::PersistRunning),
            },
        }
    }

    #[verifier::opaque]
    pub open spec fn running(self, written: SandboxResult<()>) -> ExecutionView {
        match written {
            Err(error) => self.fail(error@),
            Ok(_) => if self.journal.os_disk is None {
                self.fail(runtime::runtime_fault("differencing disk path was not retained"@))
            } else {
                self.at(ExecutionStep::AwaitCompletion)
            },
        }
    }

    #[verifier::opaque]
    pub open spec fn completed(self, completion: SandboxResult<VmCompletion>) -> ExecutionView {
        match completion {
            Err(error) => ExecutionView {
                ending: EndingView::Failed(error@),
                step: ExecutionStep::StopAfterError,
                ..self
            },
            Ok(VmCompletion::TimedOut(observations)) => {
                let observation = observations@.summary_text();
                ExecutionView {
                    ending: EndingView::TimedOut(observation),
                    stages: self.stages + timeout_stages(observation),
                    step: ExecutionStep::ForceStop,
                    ..self
                }
            },
            Ok(
                VmCompletion::DiskQuotaExceeded { observed_bytes, maximum_bytes, observations },
            ) => ExecutionView {
                ending: EndingView::DiskQuota(observed_bytes, maximum_bytes),
                stages: self.stages + quota_stages(
                    observations@.summary_text(),
                    observed_bytes,
                    maximum_bytes,
                ),
                step: ExecutionStep::ForceStop,
                ..self
            },
            Ok(VmCompletion::PoweredOff(observations)) => {
                let observation = observations@.summary_text();
                ExecutionView {
                    ending: EndingView::PoweredOff(observation),
                    journal: JournalView {
                        warnings: self.journal.warnings.push(observation),
                        ..self.journal
                    },
                    stages: self.stages + completion_stages(observation),
                    step: ExecutionStep::VerifyAfter,
                    ..self
                }
            },
        }
    }

    // An error of the watch ------------------------------------------------------------------

    #[verifier::opaque]
    pub open spec fn verified_after_error(
        self,
        setting: &RunSetting,
        attested: SandboxResult<NetworkAttachment>,
    ) -> ExecutionView {
        match self.ending {
            EndingView::Failed(cause) => match attestation_value(setting, attested) {
                Ok(attachment) => ExecutionView { post: Some(attachment), ..self }.fail(cause),
                Err(drift) => self.fail(
                    backend::fault(
                        "hyperv_containment_drift"@,
                        backend::fault_text(cause)
                            + "; post-run network containment also failed: "@
                            + backend::fault_text(drift),
                    ),
                ),
            },
            _ => self,
        }
    }

    // A run that did not end by itself -----------------------------------------------------

    #[verifier::opaque]
    pub open spec fn force_stopped(self, stopped: SandboxResult<bool>) -> ExecutionView {
        ExecutionView {
            stop_error: match stopped {
                Err(error) => Some(backend::fault_text(error@)),
                Ok(_) => None,
            },
            step: ExecutionStep::AwaitOff,
            ..self
        }
    }

    /// Partial output could not be kept.
    pub open spec fn unpreserved(self, fault: backend::Fault) -> ExecutionView {
        ExecutionView {
            preservation: Some(
                PreservationView { message: unpreserved_text(fault), success: false },
            ),
            step: ExecutionStep::VerifyAfterStop,
            ..self
        }
    }

    pub open spec fn preserved(self, partial: PartialCollection) -> ExecutionView {
        ExecutionView {
            preservation: Some(
                PreservationView { message: preserved_text(partial), success: true },
            ),
            step: ExecutionStep::VerifyAfterStop,
            ..self
        }
    }

    #[verifier::opaque]
    pub open spec fn waited(self, stopped: SandboxResult<bool>) -> ExecutionView {
        match stopped {
            Err(error) => self.unpreserved(error@),
            Ok(false) => self.unpreserved(
                backend::fault(
                    "hyperv_partial_collection"@,
                    "VM did not stop within the partial-output collection grace period"@,
                ),
            ),
            Ok(true) => self.at(ExecutionStep::DetachPartial),
        }
    }

    /// What follows a piece of the rescue that only succeeds or fails.
    #[verifier::opaque]
    pub open spec fn rescue_settled(
        self,
        settled: SandboxResult<()>,
        next: ExecutionStep,
    ) -> ExecutionView {
        match settled {
            Err(error) => self.unpreserved(error@),
            Ok(_) => self.at(next),
        }
    }

    #[verifier::opaque]
    pub open spec fn rescue_mounted(
        self,
        setting: &RunSetting,
        mounted: SandboxResult<DataDiskMount>,
    ) -> ExecutionView {
        match mounted {
            Err(error) => self.unpreserved(error@),
            Ok(mount) => match remount_value(self.journal.data_disk->0, mount) {
                Err(fault) => self.unpreserved(fault),
                Ok(disk) => {
                    let next = self.with_data_disk(disk);
                    match next.journal.persist_fault(cleanup::held(&setting.program_data)) {
                        Some(fault) => next.unpreserved(fault),
                        None => ExecutionView {
                            journal: next.journal.next_generation(),
                            step: ExecutionStep::PersistPartialMount,
                            ..next
                        },
                    }
                },
            },
        }
    }

    #[verifier::opaque]
    pub open spec fn rescued(self, collected: SandboxResult<PartialCollection>) -> ExecutionView {
        ExecutionView {
            partial: Some(backend::outcome(collected)),
            step: ExecutionStep::DismountPartial,
            ..self
        }
    }

    /// The end of the rescue: the first of the dismount, the journal and the collection that failed.
    #[verifier::opaque]
    pub open spec fn rescue_ended(self, written: Result<(), backend::Fault>) -> ExecutionView {
        match (self.dismount, written, self.partial) {
            (Some(Err(fault)), _, _) => self.unpreserved(fault),
            (_, Err(fault), _) => self.unpreserved(fault),
            (_, _, Some(Err(fault))) => self.unpreserved(fault),
            (_, _, Some(Ok(partial))) => self.preserved(partial),
            _ => self,
        }
    }

    #[verifier::opaque]
    pub open spec fn rescue_dismounted(
        self,
        setting: &RunSetting,
        dismounted: SandboxResult<bool>,
    ) -> ExecutionView {
        let next = self.dismounted_with(dismounted);
        match next.journal.persist_fault(cleanup::held(&setting.program_data)) {
            Some(fault) => next.rescue_ended(Err(fault)),
            None => ExecutionView {
                journal: next.journal.next_generation(),
                step: ExecutionStep::PersistPartialDismount,
                ..next
            },
        }
    }

    /// The record of the data disk and of the dismount, once the host answered it.
    pub open spec fn dismounted_with(self, dismounted: SandboxResult<bool>) -> ExecutionView {
        let disk = self.journal.data_disk->0;
        match dismounted {
            Err(error) => ExecutionView { dismount: Some(Err(error@)), ..self },
            Ok(false) => ExecutionView {
                dismount: Some(
                    Err(
                        backend::fault(
                            "hyperv_data_disk"@,
                            "PowerShell did not confirm data-disk dismount"@,
                        ),
                    ),
                ),
                ..self
            },
            Ok(true) => ExecutionView {
                dismount: Some(Ok(())),
                ..self.with_data_disk(RunDataDisk { state: DataDiskState::Detached, ..disk })
            },
        }
    }

    /// The stage of the rescue.
    pub open spec fn rescue_stage(self, drift: Option<backend::Fault>) -> StageView {
        let preservation = self.preservation->0;
        let kept = if preservation.success {
            Seq::<Seq<char>>::empty()
        } else {
            seq![preservation.message]
        };
        let stopped = match self.stop_error {
            Some(error) => kept.push("force-stop request failed: "@ + error),
            None => kept,
        };
        let errors = match drift {
            Some(fault) => stopped.push(
                "post-run network containment drifted: "@ + backend::fault_text(fault),
            ),
            None => stopped,
        };
        StageView {
            stage: "artifact_collection"@,
            success: errors.len() == 0,
            warnings: if preservation.success {
                seq![preservation.message]
            } else {
                Seq::empty()
            },
            errors,
        }
    }

    #[verifier::opaque]
    pub open spec fn verified_after_stop(
        self,
        setting: &RunSetting,
        attested: SandboxResult<NetworkAttachment>,
    ) -> ExecutionView {
        match attestation_value(setting, attested) {
            Err(drift) => ExecutionView {
                stages: self.stages.push(self.rescue_stage(Some(drift))),
                ..self
            }.fail(backend::fault("hyperv_containment_drift"@, backend::fault_text(drift))),
            Ok(attachment) => {
                let next = ExecutionView {
                    post: Some(attachment),
                    stages: self.stages.push(self.rescue_stage(None)),
                    ..self
                };
                match self.ending {
                    EndingView::DiskQuota(observed, maximum) => next.fail(
                        exchange::quota_fault(
                            observed,
                            maximum,
                            self.preservation->0.message,
                        ),
                    ),
                    _ => next.succeed(),
                }
            },
        }
    }

    // A machine that switched itself off ----------------------------------------------------

    #[verifier::opaque]
    pub open spec fn verified_after(
        self,
        setting: &RunSetting,
        attested: SandboxResult<NetworkAttachment>,
    ) -> ExecutionView {
        match attestation_value(setting, attested) {
            Err(fault) => self.fail(fault),
            Ok(attachment) => ExecutionView {
                post: Some(attachment),
                step: ExecutionStep::DetachData,
                ..self
            },
        }
    }

    /// What follows a piece of the collection that only succeeds or fails.
    #[verifier::opaque]
    pub open spec fn collection_settled(
        self,
        settled: SandboxResult<()>,
        next: ExecutionStep,
    ) -> ExecutionView {
        match settled {
            Err(error) => self.fail(error@),
            Ok(_) => self.at(next),
        }
    }

    #[verifier::opaque]
    pub open spec fn mounted(
        self,
        setting: &RunSetting,
        mounted: SandboxResult<DataDiskMount>,
    ) -> ExecutionView {
        match mounted {
            Err(error) => self.fail(error@),
            Ok(mount) => match remount_value(self.journal.data_disk->0, mount) {
                Err(fault) => self.fail(fault),
                Ok(disk) => self.with_data_disk(disk).persist(setting, ExecutionStep::PersistMount),
            },
        }
    }

    #[verifier::opaque]
    pub open spec fn collected(self, collected: SandboxResult<CollectedGuestOutput>) -> ExecutionView {
        ExecutionView {
            collected: Some(backend::outcome(collected)),
            step: ExecutionStep::DismountData,
            ..self
        }
    }

    #[verifier::opaque]
    pub open spec fn dismounted(
        self,
        setting: &RunSetting,
        dismounted: SandboxResult<bool>,
    ) -> ExecutionView {
        self.dismounted_with(dismounted).persist(setting, ExecutionStep::PersistDismount)
    }

    /// The result of the guest, held against all that the host knows.
    #[verifier::opaque]
    pub open spec fn concluded(self, setting: &RunSetting, written: SandboxResult<()>) -> ExecutionView {
        let taken = ExecutionView { collected: None, ..self };
        match (written, self.dismount, self.collected) {
            (Err(error), _, _) => self.fail(error@),
            (_, Some(Err(fault)), _) => self.fail(fault),
            (_, _, Some(Err(fault))) => taken.fail(fault),
            (_, _, Some(Ok(output))) => match envelope_verdict(
                &output,
                setting,
                self.journal.run_id,
            ) {
                Err(fault) => taken.fail(fault),
                Ok(_) => taken.bound(setting, &output),
            },
            _ => self,
        }
    }

    /// With the attestation of the guest bound to that of the host.
    pub open spec fn bound(self, setting: &RunSetting, output: &CollectedGuestOutput) -> ExecutionView {
        match self.post {
            None => self.fail(
                backend::fault(
                    "hyperv_network"@,
                    "post-run host network attestation was not retained"@,
                ),
            ),
            Some(post) => match (&setting.plan, output.result.network_attestation) {
                (HyperVNetworkPlan::DenyAll, Some(_)) => self.fail(
                    backend::fault(
                        "hyperv_network"@,
                        "deny-all guest result unexpectedly carried a NIC attestation"@,
                    ),
                ),
                (HyperVNetworkPlan::DenyAll, None) => self.reported(output),
                (HyperVNetworkPlan::Controlled(plan), attestation) => match plan.binding_verdict(
                    held_attestation(&attestation),
                ) {
                    Err(fault) => self.fail(fault),
                    Ok(_) => {
                        let next = NetworkAttachment {
                            guest_ipv4: Some(attestation->0.guest_ipv4),
                            ..post
                        };
                        let bound = ExecutionView { post: Some(next), ..self };
                        match network::attachment_verdict(&setting.plan, &next, true) {
                            Err(fault) => bound.fail(fault),
                            Ok(_) => bound.reported(output),
                        }
                    },
                },
            },
        }
    }

    /// With the last stage reported.
    pub open spec fn reported(self, output: &CollectedGuestOutput) -> ExecutionView {
        match output.result.execution {
            None => self.fail(
                exchange::result_fault("guest result did not contain an execution result"@),
            ),
            Some(execution) => {
                let warned = if execution.timed_out {
                    warn_first(self.stages, "timeout_or_completion"@, target_timeout_text())
                } else {
                    self.stages
                };
                ExecutionView {
                    stages: warned.push(
                        StageView {
                            stage: "artifact_collection"@,
                            success: true,
                            warnings: Seq::empty(),
                            errors: Seq::empty(),
                        },
                    ),
                    ..self
                }.succeed()
            },
        }
    }

    /// How an answer of the host carries the execution on. An answer to another question changes
    /// nothing.
    pub open spec fn after(self, setting: &RunSetting, event: ExecutionEvent) -> ExecutionView {
        match (self.step, event) {
            (ExecutionStep::VerifyBefore, ExecutionEvent::Attested(attested)) => {
                self.verified_before(setting, attested)
            },
            (ExecutionStep::StartVm, ExecutionEvent::Started(started)) => {
                self.started(setting, started)
            },
            (ExecutionStep::PersistRunning, ExecutionEvent::Settled(written)) => {
                self.running(written)
            },
            (ExecutionStep::AwaitCompletion, ExecutionEvent::Completed(completion)) => {
                self.completed(completion)
            },
            (ExecutionStep::StopAfterError, ExecutionEvent::Stopped(_)) => {
                self.at(ExecutionStep::VerifyAfterError)
            },
            (ExecutionStep::VerifyAfterError, ExecutionEvent::Attested(attested)) => {
                self.verified_after_error(setting, attested)
            },
            (ExecutionStep::ForceStop, ExecutionEvent::Stopped(stopped)) => {
                self.force_stopped(stopped)
            },
            (ExecutionStep::AwaitOff, ExecutionEvent::Stopped(stopped)) => self.waited(stopped),
            (ExecutionStep::DetachPartial, ExecutionEvent::Settled(settled)) => {
                self.rescue_settled(settled, ExecutionStep::MountPartial)
            },
            (ExecutionStep::MountPartial, ExecutionEvent::Mounted(mounted)) => {
                self.rescue_mounted(setting, mounted)
            },
            (ExecutionStep::PersistPartialMount, ExecutionEvent::Settled(settled)) => {
                self.rescue_settled(settled, ExecutionStep::CollectPartial)
            },
            (ExecutionStep::CollectPartial, ExecutionEvent::Rescued(collected)) => {
                self.rescued(collected)
            },
            (ExecutionStep::DismountPartial, ExecutionEvent::Dismounted(dismounted)) => {
                self.rescue_dismounted(setting, dismounted)
            },
            (ExecutionStep::PersistPartialDismount, ExecutionEvent::Settled(settled)) => {
                self.rescue_ended(backend::outcome(settled))
            },
            (ExecutionStep::VerifyAfterStop, ExecutionEvent::Attested(attested)) => {
                self.verified_after_stop(setting, attested)
            },
            (ExecutionStep::VerifyAfter, ExecutionEvent::Attested(attested)) => {
                self.verified_after(setting, attested)
            },
            (ExecutionStep::DetachData, ExecutionEvent::Settled(settled)) => {
                self.collection_settled(settled, ExecutionStep::MountData)
            },
            (ExecutionStep::MountData, ExecutionEvent::Mounted(mounted)) => {
                self.mounted(setting, mounted)
            },
            (ExecutionStep::PersistMount, ExecutionEvent::Settled(settled)) => {
                self.collection_settled(settled, ExecutionStep::Collect)
            },
            (ExecutionStep::Collect, ExecutionEvent::Collected(collected)) => {
                self.collected(collected)
            },
            (ExecutionStep::DismountData, ExecutionEvent::Dismounted(dismounted)) => {
                self.dismounted(setting, dismounted)
            },
            (ExecutionStep::PersistDismount, ExecutionEvent::Settled(settled)) => {
                self.concluded(setting, settled)
            },
            _ => self,
        }
    }
}

/// What the host attested, where it matches the plan.
pub open spec fn attestation_value(
    setting: &RunSetting,
    attested: SandboxResult<NetworkAttachment>,
) -> Result<NetworkAttachment, backend::Fault> {
    match attested {
        Err(error) => Err(error@),
        Ok(attachment) => match network::attachment_verdict(&setting.plan, &attachment, false) {
            Err(fault) => Err(fault),
            Ok(_) => Ok(attachment),
        },
    }
}

/// The record of the data disk once the host mounted it, where it is the recorded one.
pub open spec fn remount_value(disk: RunDataDisk, mount: DataDiskMount) -> Result<
    RunDataDisk,
    backend::Fault,
> {
    if disk.remounted_as(&mount) {
        Ok(disk.mounted_with(mount))
    } else {
        Err(
            backend::fault(
                "hyperv_data_disk"@,
                "mounted data disk does not match the recorded run disk"@,
            ),
        )
    }
}

/// A reference to the attestation, where there is one.
pub open spec fn held_attestation<'a>(
    attestation: &'a Option<guest_protocol::GuestNetworkAttestation>,
) -> Option<&'a guest_protocol::GuestNetworkAttestation> {
    match attestation {
        Some(found) => Some(found),
        None => None,
    }
}

/// The result names this run and answers its request.
pub open spec fn envelope_verdict(
    output: &CollectedGuestOutput,
    setting: &RunSetting,
    run_id: Seq<char>,
) -> Result<(), backend::Fault> {
    match output.result.metadata_verdict() {
        Err(fault) => Err(exchange::result_fault(guest_protocol::protocol_fault_text(fault))),
        Ok(_) => if output.result.run_id@ != run_id {
            Err(exchange::result_fault("guest result run identifier does not match"@))
        } else {
            exchange::guest_result_verdict(
                &output.result,
                &setting.request,
                setting.image_version@,
            )
        },
    }
}

/// The host's own result of a run that ran out of time.
pub open spec fn is_timeout_result(
    result: &SandboxRunResult,
    request: &SandboxRequest,
    observation: Seq<char>,
    preservation: Seq<char>,
) -> bool {
    exists|base: SandboxRunResult, elapsed: nat|
        {
            &&& #[trigger] exchange::is_synthetic(
                &base,
                request,
                SyntheticOutcome::HostVmTimeout,
                elapsed,
            )
            &&& *result == (SandboxRunResult {
                monitor_warnings: result.monitor_warnings,
                ..base
            })
            &&& text::views(result.monitor_warnings@) == seq![
                exchange::synthetic_warning(SyntheticOutcome::HostVmTimeout),
                observation,
                preservation,
            ]
        }
}

/// A result that was just given is the one of the run's ending: the host's own after a timeout, the
/// guest's with what was collected after a machine that switched itself off.
pub open spec fn answered(before: Execution, after: Execution) -> bool {
    match (before.result, after.result) {
        (None, Some(Ok(result))) => match before.ending {
            Ending::TimedOut(observation) => before.preservation is Some && is_timeout_result(
                &result,
                &before.setting.request,
                observation@,
                before.preservation->0.message@,
            ),
            Ending::PoweredOff(observation) => before.collected matches Some(Ok(output))
                && exchange::is_final(&result, &output, observation@),
            _ => false,
        },
        (Some(earlier), later) => later == Some(earlier),
        _ => true,
    }
}

// ---------------------------------------------------------------------------------------------
// The clocks
// ---------------------------------------------------------------------------------------------

/// The stages that were there keep their times.
pub open spec fn keeps_times(before: Seq<ReportStage>, after: Seq<ReportStage>) -> bool {
    &&& before.len() <= after.len()
    &&& forall|i: int|
        0 <= i < before.len() ==> {
            &&& (#[trigger] after[i]).start_time_unix_ms == before[i].start_time_unix_ms
            &&& after[i].end_time_unix_ms == before[i].end_time_unix_ms
            &&& after[i].duration_ms == before[i].duration_ms
        }
}

/// The steps that belong to the stage in which artifacts are collected.
pub open spec fn collects(step: ExecutionStep) -> bool {
    match step {
        ExecutionStep::ForceStop => true,
        ExecutionStep::AwaitOff => true,
        ExecutionStep::DetachPartial => true,
        ExecutionStep::MountPartial => true,
        ExecutionStep::PersistPartialMount => true,
        ExecutionStep::CollectPartial => true,
        ExecutionStep::DismountPartial => true,
        ExecutionStep::PersistPartialDismount => true,
        ExecutionStep::VerifyAfterStop => true,
        ExecutionStep::DetachData => true,
        ExecutionStep::MountData => true,
        ExecutionStep::PersistMount => true,
        ExecutionStep::Collect => true,
        ExecutionStep::DismountData => true,
        ExecutionStep::PersistDismount => true,
        _ => false,
    }
}

/// The stages with clocks have different names.
proof fn lemma_names_differ()
    ensures
        "observation"@ != "timeout_or_completion"@,
        "observation"@ != "artifact_collection"@,
        "timeout_or_completion"@ != "artifact_collection"@,
{
    reveal_strlit("observation");
    reveal_strlit("timeout_or_completion");
    reveal_strlit("artifact_collection");
    assert("observation"@.len() == 11);
    assert("timeout_or_completion"@.len() == 21);
    assert("artifact_collection"@.len() == 19);
}

/// Where no clock and no stage changes, the times are carried on.
proof fn lemma_same_clocks(before: Execution, after: Execution)
    requires
        after.same_clocks(before),
        before.step == ExecutionStep::PersistRunning ==> after.step
            != ExecutionStep::AwaitCompletion,
        collects(after.step) ==> collects(before.step),
    ensures
        clocked(before, after),
{
    reveal(clocked);
}

/// What carries the times on keeps the clocks in order.
proof fn lemma_well_clocked(before: Execution, after: Execution)
    requires
        clocked(before, after),
        before.well_clocked(),
        after.step == ExecutionStep::AwaitCompletion ==> before.step == after.step || before.step
            == ExecutionStep::PersistRunning,
    ensures
        after.well_clocked(),
{
    reveal(clocked);
    assert forall|i: int| 0 <= i < after.stages@.len() implies (
    #[trigger] after.stages@[i]).well_timed() by {
        if i < before.stages@.len() {
            assert(before.stages@[i].well_timed());
        }
    }
}

impl Execution {
    /// The clock of the stage of a name.
    pub open spec fn timer_of(&self, name: Seq<char>) -> Option<StageTimer> {
        if name == "observation"@ {
            self.observation_timer
        } else if name == "timeout_or_completion"@ {
            self.completion_timer
        } else {
            self.artifact_timer
        }
    }

    /// The stage runs from where the clock of its name was started, and does not end before it
    /// starts.
    pub open spec fn times(&self, stage: ReportStage) -> bool {
        &&& stage.timed_from(
            match self.timer_of(stage.stage@) {
                Some(begun) => begun.start_time_unix_ms,
                None => stage.start_time_unix_ms,
            },
        )
        &&& stage.well_timed()
    }

    /// No stage ends before it starts, and the clocks of the stages that are going on run.
    pub open spec fn well_clocked(&self) -> bool {
        &&& backend::all_well_timed(self.stages@)
        &&& self.step == ExecutionStep::AwaitCompletion ==> self.observation_timer is Some
            && self.completion_timer is Some
        &&& collects(self.step) ==> self.artifact_timer is Some
    }

    /// Neither a stage nor a clock differs.
    pub open spec fn same_clocks(&self, before: Execution) -> bool {
        &&& self.started == before.started
        &&& self.stages == before.stages
        &&& self.observation_timer == before.observation_timer
        &&& self.completion_timer == before.completion_timer
        &&& self.artifact_timer == before.artifact_timer
    }
}

/// How the times of the stages are carried on: a stage that was reported keeps its times, a new one
/// runs from where its clock was started, and a clock changes only where its stage begins or ends.
#[verifier::opaque]
pub open spec fn clocked(before: Execution, after: Execution) -> bool {
    let count = before.stages@.len();
    &&& after.started == before.started
    &&& keeps_times(before.stages@, after.stages@)
    &&& forall|i: int|
        count <= i < after.stages@.len() ==> before.times(#[trigger] after.stages@[i])
    &&& (before.step != ExecutionStep::PersistRunning && before.step
        != ExecutionStep::AwaitCompletion) || after.step == before.step
        ==> after.observation_timer == before.observation_timer && after.completion_timer
        == before.completion_timer
    &&& before.step == ExecutionStep::PersistRunning && after.step == ExecutionStep::AwaitCompletion
        ==> after.observation_timer is Some && after.completion_timer is Some
    &&& (before.step != ExecutionStep::AwaitCompletion && before.step
        != ExecutionStep::VerifyAfter && (after.stages@.len() == count || collects(after.step)))
        || after.step == before.step ==> after.artifact_timer == before.artifact_timer
    &&& collects(after.step) && !collects(before.step) ==> after.artifact_timer is Some
}

// ---------------------------------------------------------------------------------------------
// The machine
// ---------------------------------------------------------------------------------------------

fn one(line: &str) -> (list: Vec<String>)
    ensures
        text::views(list@) == seq![line@],
{
    let mut list: Vec<String> = Vec::new();
    list.push(line.to_owned());
    proof {
        assert(text::views(list@) =~= seq![line@]);
    }
    list
}

fn none() -> (list: Vec<String>)
    ensures
        text::views(list@) == Seq::<Seq<char>>::empty(),
{
    let list: Vec<String> = Vec::new();
    proof {
        assert(text::views(list@) =~= Seq::<Seq<char>>::empty());
    }
    list
}

fn add_line(list: &mut Vec<String>, line: String)
    ensures
        text::views(final(list)@) == text::views(old(list)@).push(line@),
{
    let ghost before = list@;
    list.push(line);
    proof {
        assert(text::views(list@) =~= text::views(before).push(line@));
    }
}

/// The report of a stage that ends now; one that was never begun takes no time.
fn report(
    timer: Option<StageTimer>,
    name: &str,
    success: bool,
    warnings: Vec<String>,
    errors: Vec<String>,
) -> (stage: ReportStage)
    ensures
        stage_view(stage) == (StageView {
            stage: name@,
            success,
            warnings: text::views(warnings@),
            errors: text::views(errors@),
        }),
        stage.timed_from(
            match timer {
                Some(begun) => begun.start_time_unix_ms,
                None => stage.start_time_unix_ms,
            },
        ),
        stage.well_timed(),
{
    let timer = match timer {
        Some(timer) => timer,
        None => StageTimer::start(name),
    };
    let mut stage = timer.finish(success, warnings, errors);
    let ghost finished = stage;
    stage.stage = name.to_owned();
    proof {
        let (now, elapsed) = choose|now: u64, elapsed: u128| #[trigger]
            finished.measured(finished.start_time_unix_ms, now, elapsed);
        assert(stage.measured(stage.start_time_unix_ms, now, elapsed));
    }
    stage
}

fn add_stage(stages: &mut Vec<ReportStage>, stage: ReportStage)
    ensures
        stage_views(final(stages)@) == stage_views(old(stages)@).push(stage_view(stage)),
        final(stages)@ == old(stages)@.push(stage),
{
    let ghost before = stages@;
    stages.push(stage);
    proof {
        assert(stage_views(stages@) =~= stage_views(before).push(stage_view(stage)));
    }
}

/// Where an execution stands before anything was done.
pub open spec fn execution_start(journal: JournalView) -> ExecutionView {
    ExecutionView {
        step: ExecutionStep::VerifyBefore,
        journal,
        post: None,
        stages: Seq::empty(),
        ending: EndingView::Running,
        stop_error: None,
        preservation: None,
        partial: None,
        collected: None,
        dismount: None,
        verdict: None,
    }
}

impl Execution {
    /// No stage was begun.
    pub open spec fn untimed(&self) -> bool {
        self.observation_timer is None && self.completion_timer is None && self.artifact_timer
            is None
    }

    /// The execution of a provisioned run, with nothing done yet.
    pub fn new(setting: RunSetting, journal: CleanupJournal, started: std::time::Instant) -> (run:
        Execution)
        requires
            journal.vm is Some,
            journal.data_disk is Some,
        ensures
            run@.consistent(),
            run.setting == setting,
            run.started == started,
            run.journal == journal,
            run@ == execution_start(journal@),
            run.well_clocked(),
            run.untimed(),
    {
        let run = Execution {
            step: ExecutionStep::VerifyBefore,
            setting,
            journal,
            post_verification: None,
            stages: Vec::new(),
            ending: Ending::Running,
            stop_error: None,
            preservation: None,
            partial: None,
            collected: None,
            dismount: None,
            started,
            observation_timer: None,
            completion_timer: None,
            artifact_timer: None,
            result: None,
        };
        proof {
            assert(stage_views(run.stages@) =~= Seq::<StageView>::empty());
        }
        run
    }

    fn fail(&mut self, error: SandboxError)
        ensures
            final(self)@ == old(self)@.fail(error@),
            final(self).setting == old(self).setting,
            final(self).same_clocks(*old(self)),
    {
        self.step = ExecutionStep::Done;
        self.result = Some(Err(error));
    }

    /// Makes the journal its next generation, or tells why it cannot be written.
    fn bump(&mut self) -> (fault: Option<SandboxError>)
        ensures
            final(self).setting == old(self).setting,
            final(self).same_clocks(*old(self)),
            match (
                old(self)@.journal.persist_fault(cleanup::held(&old(self).setting.program_data)),
                fault,
            ) {
                (Some(expected), Some(found)) => found@ == expected && *final(self) == *old(self),
                (None, None) => final(self)@ == (ExecutionView {
                    journal: old(self)@.journal.next_generation(),
                    ..old(self)@
                }),
                _ => false,
            },
    {
        let program_data = match &self.setting.program_data {
            Some(path) => Some(path),
            None => None,
        };
        match self.journal.persist(program_data) {
            Ok(_) => None,
            Err(error) => Some(error),
        }
    }

    fn persist(&mut self, step: ExecutionStep)
        ensures
            final(self)@ == old(self)@.persist(&old(self).setting, step),
            final(self).setting == old(self).setting,
            final(self).same_clocks(*old(self)),
    {
        proof {
            reveal(ExecutionView::persist);
        }
        match self.bump() {
            Some(error) => {
                self.fail(error);
            },
            None => {
                self.step = step;
            },
        }
    }

    /// What the host attested, where it matches the plan.
    fn attest(&self, attested: SandboxResult<NetworkAttachment>) -> (verdict: SandboxResult<
        NetworkAttachment,
    >)
        ensures
            backend::outcome(verdict) == attestation_value(&self.setting, attested),
    {
        match attested {
            Err(error) => Err(error),
            Ok(attachment) => match network::verify_attachment(
                &self.setting.plan,
                &attachment,
                false,
            ) {
                Err(error) => Err(error),
                Ok(_) => Ok(attachment),
            },
        }
    }

    // Start ----------------------------------------------------------------------------------

    fn accept_verified_before(&mut self, attested: SandboxResult<NetworkAttachment>)
        ensures
            final(self)@ == old(self)@.verified_before(&old(self).setting, attested),
            final(self).setting == old(self).setting,
            final(self).same_clocks(*old(self)),
    {
        proof {
            reveal(ExecutionView::verified_before);
        }
        match self.attest(attested) {
            Err(error) => {
                self.fail(error);
            },
            Ok(_) => {
                self.step = ExecutionStep::StartVm;
            },
        }
    }

    fn accept_started(&mut self, started: SandboxResult<VmStatus>)
        requires
            old(self)@.equipped(),
        ensures
            final(self)@ == old(self)@.started(&old(self).setting, started),
            final(self).setting == old(self).setting,
            final(self).same_clocks(*old(self)),
    {
        proof {
            reveal(ExecutionView::started);
        }
        let status = match started {
            Err(error) => {
                self.fail(error);
                return ;
            },
            Ok(status) => status,
        };
        let verdict = match &self.journal.vm {
            Some(machine) => vm::accept_started(machine, &status),
            None => Ok(()),
        };
        match verdict {
            Err(error) => {
                self.fail(error);
            },
            Ok(_) => {
                self.journal.phase = CleanupPhase::Running;
                self.persist(ExecutionStep::PersistRunning);
            },
        }
    }

    fn accept_running(&mut self, written: SandboxResult<()>)
        requires
            old(self).step == ExecutionStep::PersistRunning,
        ensures
            final(self)@ == old(self)@.running(written),
            final(self).setting == old(self).setting,
            clocked(*old(self), *final(self)),
    {
        proof {
            reveal(ExecutionView::running);
            reveal(clocked);
        }
        match written {
            Err(error) => {
                self.fail(error);
            },
            Ok(_) => {
                self.observation_timer = Some(StageTimer::start("observation"));
                self.completion_timer = Some(StageTimer::start("timeout_or_completion"));
                if self.journal.os_disk.is_none() {
                    self.fail(
                        SandboxError::new(
                            "hyperv_runtime",
                            "differencing disk path was not retained",
                        ),
                    );
                } else {
                    self.step = ExecutionStep::AwaitCompletion;
                }
            },
        }
    }

    fn accept_completed(&mut self, completion: SandboxResult<VmCompletion>)
        requires
            old(self).step == ExecutionStep::AwaitCompletion,
        ensures
            final(self)@ == old(self)@.completed(completion),
            final(self).setting == old(self).setting,
            clocked(*old(self), *final(self)),
    {
        proof {
            reveal(ExecutionView::completed);
            reveal(clocked);
        }
        match completion {
            Err(error) => {
                self.ending = Ending::Failed(error);
                self.step = ExecutionStep::StopAfterError;
            },
            Ok(VmCompletion::TimedOut(observations)) => {
                self.end_by_timeout(observations.summary());
            },
            Ok(
                VmCompletion::DiskQuotaExceeded { observed_bytes, maximum_bytes, observations },
            ) => {
                self.end_by_quota(observed_bytes, maximum_bytes, observations.summary());
            },
            Ok(VmCompletion::PoweredOff(observations)) => {
                self.end_by_power_off(observations.summary());
            },
        }
    }

    fn end_by_timeout(&mut self, observation: String)
        requires
            old(self).step == ExecutionStep::AwaitCompletion,
        ensures
            final(self)@ == (ExecutionView {
                ending: EndingView::TimedOut(observation@),
                stages: old(self)@.stages + timeout_stages(observation@),
                step: ExecutionStep::ForceStop,
                ..old(self)@
            }),
            final(self).setting == old(self).setting,
            clocked(*old(self), *final(self)),
    {
        let ghost before = self@.stages;
        let mut warnings = one(
            "host VM observation ended when the authoritative VM deadline expired",
        );
        add_line(&mut warnings, observation.clone());
        let stage = report(self.observation_timer.take(), "observation", true, warnings, none());
        proof {
            assert(text::views(warnings@) =~= timeout_stages(observation@)[0].warnings);
        }
        add_stage(&mut self.stages, stage);
        let expired = one(
            "the authoritative host VM deadline expired before authenticated guest completion",
        );
        let stage = report(
            self.completion_timer.take(),
            "timeout_or_completion",
            true,
            expired,
            none(),
        );
        add_stage(&mut self.stages, stage);
        self.artifact_timer = Some(StageTimer::start("artifact_collection"));
        proof {
            assert(self@.stages =~= before + timeout_stages(observation@));
            lemma_names_differ();
            reveal(clocked);
        }
        self.ending = Ending::TimedOut(observation);
        self.step = ExecutionStep::ForceStop;
    }

    fn end_by_quota(&mut self, observed: u64, maximum: u64, observation: String)
        requires
            old(self).step == ExecutionStep::AwaitCompletion,
        ensures
            final(self)@ == (ExecutionView {
                ending: EndingView::DiskQuota(observed, maximum),
                stages: old(self)@.stages + quota_stages(observation@, observed, maximum),
                step: ExecutionStep::ForceStop,
                ..old(self)@
            }),
            final(self).setting == old(self).setting,
            clocked(*old(self), *final(self)),
    {
        let ghost before = self@.stages;
        let reached = text::decimal_text(observed);
        let limit = text::decimal_text(maximum);
        let quota = text::cat5(
            "disposable VM writable storage reached ",
            reached.as_str(),
            " bytes and exceeded its ",
            limit.as_str(),
            " byte host quota",
        );
        let critical = text::cat2("critical containment event: ", quota.as_str());
        let stage = report(
            self.observation_timer.take(),
            "observation",
            false,
            one(observation.as_str()),
            one(critical.as_str()),
        );
        add_stage(&mut self.stages, stage);
        let stage = report(
            self.completion_timer.take(),
            "timeout_or_completion",
            false,
            none(),
            one("VM execution was terminated by the host disk quota"),
        );
        add_stage(&mut self.stages, stage);
        self.artifact_timer = Some(StageTimer::start("artifact_collection"));
        proof {
            assert(self@.stages =~= before + quota_stages(observation@, observed, maximum));
            lemma_names_differ();
            reveal(clocked);
        }
        self.ending = Ending::DiskQuota(observed, maximum);
        self.step = ExecutionStep::ForceStop;
    }

    fn end_by_power_off(&mut self, observation: String)
        requires
            old(self).step == ExecutionStep::AwaitCompletion,
        ensures
            final(self)@ == (ExecutionView {
                ending: EndingView::PoweredOff(observation@),
                journal: JournalView {
                    warnings: old(self)@.journal.warnings.push(observation@),
                    ..old(self)@.journal
                },
                stages: old(self)@.stages + completion_stages(observation@),
                step: ExecutionStep::VerifyAfter,
                ..old(self)@
            }),
            final(self).setting == old(self).setting,
            clocked(*old(self), *final(self)),
    {
        let ghost before = self@.stages;
        add_line(&mut self.journal.warnings, observation.clone());
        let stage = report(
            self.observation_timer.take(),
            "observation",
            true,
            one(observation.as_str()),
            none(),
        );
        add_stage(&mut self.stages, stage);
        let stage = report(
            self.completion_timer.take(),
            "timeout_or_completion",
            true,
            none(),
            none(),
        );
        add_stage(&mut self.stages, stage);
        proof {
            assert(self@.stages =~= before + completion_stages(observation@));
            lemma_names_differ();
            reveal(clocked);
        }
        self.ending = Ending::PoweredOff(observation);
        self.step = ExecutionStep::VerifyAfter;
    }

    // An error of the watch ------------------------------------------------------------------

    fn accept_verified_after_error(&mut self, attested: SandboxResult<NetworkAttachment>)
        ensures
            final(self)@ == old(self)@.verified_after_error(&old(self).setting, attested),
            final(self).setting == old(self).setting,
            final(self).same_clocks(*old(self)),
    {
        proof {
            reveal(ExecutionView::verified_after_error);
        }
        let cause = match &self.ending {
            Ending::Failed(error) => error.duplicate(),
            _ => {
                return ;
            },
        };
        match self.attest(attested) {
            Ok(attachment) => {
                self.post_verification = Some(attachment);
                self.fail(cause);
            },
            Err(drift) => {
                let first = cause.to_string();
                let second = drift.to_string();
                let message = text::cat3(
                    first.as_str(),
                    "; post-run network containment also failed: ",
                    second.as_str(),
                );
                self.fail(SandboxError::new("hyperv_containment_drift", message.as_str()));
            },
        }
    }

    // A run that did not end by itself -----------------------------------------------------

    fn accept_force_stopped(&mut self, stopped: SandboxResult<bool>)
        ensures
            final(self)@ == old(self)@.force_stopped(stopped),
            final(self).setting == old(self).setting,
            final(self).same_clocks(*old(self)),
    {
        proof {
            reveal(ExecutionView::force_stopped);
        }
        self.stop_error = match stopped {
            Err(error) => Some(error.to_string()),
            Ok(_) => None,
        };
        self.step = ExecutionStep::AwaitOff;
    }

    fn give_up_rescue(&mut self, error: &SandboxError)
        ensures
            final(self)@ == old(self)@.unpreserved(error@),
            final(self).setting == old(self).setting,
            final(self).same_clocks(*old(self)),
    {
        let shown = error.to_string();
        self.preservation = Some(
            PartialPreservation {
                message: text::cat2("could not preserve partial guest output: ", shown.as_str()),
                success: false,
            },
        );
        self.step = ExecutionStep::VerifyAfterStop;
    }

    fn accept_waited(&mut self, stopped: SandboxResult<bool>)
        ensures
            final(self)@ == old(self)@.waited(stopped),
            final(self).setting == old(self).setting,
            final(self).same_clocks(*old(self)),
    {
        proof {
            reveal(ExecutionView::waited);
        }
        match stopped {
            Err(error) => {
                self.give_up_rescue(&error);
            },
            Ok(false) => {
                let error = SandboxError::new(
                    "hyperv_partial_collection",
                    "VM did not stop within the partial-output collection grace period",
                );
                self.give_up_rescue(&error);
            },
            Ok(true) => {
                self.step = ExecutionStep::DetachPartial;
            },
        }
    }

    fn accept_rescue_settled(&mut self, settled: SandboxResult<()>, next: ExecutionStep)
        ensures
            final(self)@ == old(self)@.rescue_settled(settled, next),
            final(self).setting == old(self).setting,
            final(self).same_clocks(*old(self)),
    {
        proof {
            reveal(ExecutionView::rescue_settled);
        }
        match settled {
            Err(error) => {
                self.give_up_rescue(&error);
            },
            Ok(_) => {
                self.step = next;
            },
        }
    }

    /// Records that the data disk was mounted, where it is the recorded one.
    fn remount(&mut self, mount: DataDiskMount) -> (verdict: SandboxResult<()>)
        requires
            old(self)@.equipped(),
        ensures
            final(self).setting == old(self).setting,
            final(self).same_clocks(*old(self)),
            match (remount_value(old(self)@.journal.data_disk->0, mount), verdict) {
                (Ok(disk), Ok(_)) => final(self)@ == old(self)@.with_data_disk(disk),
                (Err(fault), Err(error)) => error@ == fault && final(self)@ == old(self)@,
                _ => false,
            },
    {
        match self.journal.data_disk.take() {
            None => Ok(()),
            Some(mut disk) => {
                let verdict = disk.accept_mounted(mount);
                self.journal.data_disk = Some(disk);
                verdict
            },
        }
    }

    fn accept_rescue_mounted(&mut self, mounted: SandboxResult<DataDiskMount>)
        requires
            old(self)@.equipped(),
        ensures
            final(self)@ == old(self)@.rescue_mounted(&old(self).setting, mounted),
            final(self).setting == old(self).setting,
            final(self).same_clocks(*old(self)),
    {
        proof {
            reveal(ExecutionView::rescue_mounted);
        }
        let verdict = match mounted {
            Err(error) => Err(error),
            Ok(mount) => self.remount(mount),
        };
        match verdict {
            Err(error) => {
                self.give_up_rescue(&error);
            },
            Ok(_) => match self.bump() {
                Some(error) => {
                    self.give_up_rescue(&error);
                },
                None => {
                    self.step = ExecutionStep::PersistPartialMount;
                },
            },
        }
    }

    fn accept_rescued(&mut self, collected: SandboxResult<PartialCollection>)
        ensures
            final(self)@ == old(self)@.rescued(collected),
            final(self).setting == old(self).setting,
            final(self).same_clocks(*old(self)),
    {
        proof {
            reveal(ExecutionView::rescued);
        }
        self.partial = Some(collected);
        self.step = ExecutionStep::DismountPartial;
    }

    /// Records the dismount of the data disk, or why it failed.
    fn record_dismount(&mut self, dismounted: SandboxResult<bool>)
        requires
            old(self)@.equipped(),
        ensures
            final(self)@ == old(self)@.dismounted_with(dismounted),
            final(self).setting == old(self).setting,
            final(self).same_clocks(*old(self)),
    {
        let outcome = match dismounted {
            Err(error) => Err(error),
            Ok(confirmed) => match self.journal.data_disk.take() {
                None => Ok(()),
                Some(mut disk) => {
                    let verdict = disk.record_dismount(confirmed);
                    self.journal.data_disk = Some(disk);
                    verdict
                },
            },
        };
        self.dismount = Some(outcome);
    }

    fn end_rescue(&mut self, written: SandboxResult<()>)
        ensures
            final(self)@ == old(self)@.rescue_ended(backend::outcome(written)),
            final(self).setting == old(self).setting,
            final(self).same_clocks(*old(self)),
    {
        proof {
            reveal(ExecutionView::rescue_ended);
        }
        let first = match &self.dismount {
            Some(Err(error)) => Some(error.duplicate()),
            _ => match written {
                Err(error) => Some(error),
                Ok(_) => match &self.partial {
                    Some(Err(error)) => Some(error.duplicate()),
                    _ => None,
                },
            },
        };
        match first {
            Some(error) => {
                self.give_up_rescue(&error);
            },
            None => {
                let message = match &self.partial {
                    Some(Ok(partial)) => {
                        let count = text::decimal_text(partial.artifact_count as u64);
                        let bytes = text::decimal_text(partial.total_bytes);
                        text::cat5(
                            "preserved ",
                            count.as_str(),
                            " bounded untrusted partial guest output file(s), ",
                            bytes.as_str(),
                            " bytes total",
                        )
                    },
                    _ => {
                        return ;
                    },
                };
                self.preservation = Some(PartialPreservation { message, success: true });
                self.step = ExecutionStep::VerifyAfterStop;
            },
        }
    }

    fn accept_rescue_dismounted(&mut self, dismounted: SandboxResult<bool>)
        requires
            old(self)@.equipped(),
        ensures
            final(self)@ == old(self)@.rescue_dismounted(&old(self).setting, dismounted),
            final(self).setting == old(self).setting,
            final(self).same_clocks(*old(self)),
    {
        proof {
            reveal(ExecutionView::rescue_dismounted);
        }
        self.record_dismount(dismounted);
        match self.bump() {
            Some(error) => {
                self.end_rescue(Err(error));
            },
            None => {
                self.step = ExecutionStep::PersistPartialDismount;
            },
        }
    }
}

/// Adds a warning to the first stage of a name.
fn add_warning(stages: &mut Vec<ReportStage>, name: &str, warning: &str)
    ensures
        stage_views(final(stages)@) == warn_first(stage_views(old(stages)@), name@, warning@),
        keeps_times(old(stages)@, final(stages)@),
        final(stages)@.len() == old(stages)@.len(),
{
    let ghost all = stage_views(stages@);
    let mut i: usize = 0;
    proof {
        assert(all.skip(0) =~= all);
        assert(all.take(0) + warn_first(all.skip(0), name@, warning@) =~= warn_first(
            all,
            name@,
            warning@,
        ));
    }
    while i < stages.len()
        invariant
            i <= stages@.len(),
            *stages == *old(stages),
            all == stage_views(stages@),
            all.take(i as int) + warn_first(all.skip(i as int), name@, warning@) == warn_first(
                all,
                name@,
                warning@,
            ),
        decreases stages@.len() - i,
    {
        let ghost rest = all.skip(i as int);
        if text::same_text(stages[i].stage.as_str(), name) {
            let mut stage = stages.remove(i);
            let ghost before = stage_view(stage);
            add_line(&mut stage.warnings, warning.to_owned());
            stages.insert(i, stage);
            proof {
                let warned = StageView { warnings: before.warnings.push(warning@), ..before };
                assert(rest[0] == before);
                assert(warn_first(rest, name@, warning@) == rest.update(0, warned));
                assert(stage_views(stages@) =~= all.take(i as int) + rest.update(0, warned));
            }
            return ;
        }
        proof {
            assert(rest[0] == all[i as int]);
            assert(rest.skip(1) =~= all.skip(i + 1));
            assert(all.take(i as int) + (seq![rest[0]] + warn_first(
                rest.skip(1),
                name@,
                warning@,
            )) =~= all.take(i + 1) + warn_first(all.skip(i + 1), name@, warning@));
        }
        i = i + 1;
    }
    proof {
        assert(all.take(i as int) + warn_first(all.skip(i as int), name@, warning@) =~= all);
    }
}

impl Execution {
    /// The report of the rescue.
    fn report_rescue(&mut self, drift: Option<&SandboxError>)
        requires
            old(self)@.preservation is Some,
        ensures
            final(self)@ == (ExecutionView {
                stages: old(self)@.stages.push(
                    old(self)@.rescue_stage(
                        match drift {
                            Some(error) => Some(error@),
                            None => None,
                        },
                    ),
                ),
                ..old(self)@
            }),
            final(self).setting == old(self).setting,
            final(self).started == old(self).started,
            final(self).stages@ == old(self).stages@.push(final(self).stages@.last()),
            final(self).stages@.last().stage@ == "artifact_collection"@,
            old(self).times(final(self).stages@.last()),
            final(self).observation_timer == old(self).observation_timer,
            final(self).completion_timer == old(self).completion_timer,
            final(self).preservation == old(self).preservation,
            final(self).ending == old(self).ending,
            final(self).result == old(self).result,
    {
        let mut warnings = none();
        let mut errors = none();
        match &self.preservation {
            Some(preservation) => {
                if preservation.success {
                    warnings = one(preservation.message.as_str());
                } else {
                    errors = one(preservation.message.as_str());
                }
            },
            None => {},
        }
        match &self.stop_error {
            Some(error) => {
                add_line(&mut errors, text::cat2("force-stop request failed: ", error.as_str()));
            },
            None => {},
        }
        match drift {
            Some(error) => {
                let shown = error.to_string();
                add_line(
                    &mut errors,
                    text::cat2("post-run network containment drifted: ", shown.as_str()),
                );
            },
            None => {},
        }
        let success = errors.len() == 0;
        proof {
            assert(text::views(errors@).len() == errors@.len());
            lemma_names_differ();
        }
        let stage = report(
            self.artifact_timer.take(),
            "artifact_collection",
            success,
            warnings,
            errors,
        );
        add_stage(&mut self.stages, stage);
    }

    fn accept_verified_after_stop(&mut self, attested: SandboxResult<NetworkAttachment>)
        requires
            old(self)@.consistent(),
            old(self).step == ExecutionStep::VerifyAfterStop,
        ensures
            final(self)@ == old(self)@.verified_after_stop(&old(self).setting, attested),
            final(self).setting == old(self).setting,
            clocked(*old(self), *final(self)),
            answered(*old(self), *final(self)),
    {
        proof {
            reveal(ExecutionView::verified_after_stop);
            reveal(clocked);
        }
        match self.attest(attested) {
            Err(drift) => {
                self.report_rescue(Some(&drift));
                let message = drift.to_string();
                self.fail(SandboxError::new("hyperv_containment_drift", message.as_str()));
            },
            Ok(attachment) => {
                self.post_verification = Some(attachment);
                self.report_rescue(None);
                let message = match &self.preservation {
                    Some(preservation) => preservation.message.clone(),
                    None => String::new(),
                };
                match &self.ending {
                    Ending::DiskQuota(observed, maximum) => {
                        let error = exchange::os_disk_quota_error(
                            *observed,
                            *maximum,
                            message.as_str(),
                        );
                        self.fail(error);
                    },
                    Ending::TimedOut(observation) => {
                        let result = self.timeout_result(observation, message);
                        self.step = ExecutionStep::Done;
                        self.result = Some(Ok(result));
                    },
                    _ => {},
                }
            },
        }
    }

    fn timeout_result(&self, observation: &String, message: String) -> (result: SandboxRunResult)
        ensures
            is_timeout_result(&result, &self.setting.request, observation@, message@),
    {
        let elapsed: u128 = clock::elapsed_millis(&self.started);
        let mut result = exchange::synthetic_result(
            &self.setting.request,
            SyntheticOutcome::HostVmTimeout,
            elapsed,
        );
        let ghost base = result;
        add_line(&mut result.monitor_warnings, observation.clone());
        add_line(&mut result.monitor_warnings, message);
        proof {
            assert(exchange::is_synthetic(
                &base,
                &self.setting.request,
                SyntheticOutcome::HostVmTimeout,
                elapsed as nat,
            ));
            assert(text::views(result.monitor_warnings@) =~= seq![
                exchange::synthetic_warning(SyntheticOutcome::HostVmTimeout),
                observation@,
                message@,
            ]);
        }
        result
    }

    // A machine that switched itself off ----------------------------------------------------

    fn accept_verified_after(&mut self, attested: SandboxResult<NetworkAttachment>)
        requires
            old(self).step == ExecutionStep::VerifyAfter,
        ensures
            final(self)@ == old(self)@.verified_after(&old(self).setting, attested),
            final(self).setting == old(self).setting,
            clocked(*old(self), *final(self)),
    {
        proof {
            reveal(ExecutionView::verified_after);
            reveal(clocked);
        }
        match self.attest(attested) {
            Err(error) => {
                self.fail(error);
            },
            Ok(attachment) => {
                self.post_verification = Some(attachment);
                self.artifact_timer = Some(StageTimer::start("artifact_collection"));
                self.step = ExecutionStep::DetachData;
            },
        }
    }

    fn accept_collection_settled(&mut self, settled: SandboxResult<()>, next: ExecutionStep)
        ensures
            final(self)@ == old(self)@.collection_settled(settled, next),
            final(self).setting == old(self).setting,
            final(self).same_clocks(*old(self)),
    {
        proof {
            reveal(ExecutionView::collection_settled);
        }
        match settled {
            Err(error) => {
                self.fail(error);
            },
            Ok(_) => {
                self.step = next;
            },
        }
    }

    fn accept_mounted(&mut self, mounted: SandboxResult<DataDiskMount>)
        requires
            old(self)@.equipped(),
        ensures
            final(self)@ == old(self)@.mounted(&old(self).setting, mounted),
            final(self).setting == old(self).setting,
            final(self).same_clocks(*old(self)),
    {
        proof {
            reveal(ExecutionView::mounted);
        }
        let verdict = match mounted {
            Err(error) => Err(error),
            Ok(mount) => self.remount(mount),
        };
        match verdict {
            Err(error) => {
                self.fail(error);
            },
            Ok(_) => {
                self.persist(ExecutionStep::PersistMount);
            },
        }
    }

    fn accept_collected(&mut self, collected: SandboxResult<CollectedGuestOutput>)
        ensures
            final(self)@ == old(self)@.collected(collected),
            final(self).setting == old(self).setting,
            final(self).same_clocks(*old(self)),
    {
        proof {
            reveal(ExecutionView::collected);
        }
        self.collected = Some(collected);
        self.step = ExecutionStep::DismountData;
    }

    fn accept_dismounted(&mut self, dismounted: SandboxResult<bool>)
        requires
            old(self)@.equipped(),
        ensures
            final(self)@ == old(self)@.dismounted(&old(self).setting, dismounted),
            final(self).setting == old(self).setting,
            final(self).same_clocks(*old(self)),
    {
        proof {
            reveal(ExecutionView::dismounted);
        }
        self.record_dismount(dismounted);
        self.persist(ExecutionStep::PersistDismount);
    }

    /// Holds the result of the guest against the request.
    fn check_envelope(&self, output: &CollectedGuestOutput) -> (verdict: SandboxResult<()>)
        ensures
            backend::outcome(verdict) == envelope_verdict(
                output,
                &self.setting,
                self.journal.run_id@,
            ),
    {
        match output.result.validate_metadata() {
            Err(error) => {
                let shown = error.to_string();
                return Err(SandboxError::new("hyperv_result", shown.as_str()));
            },
            Ok(_) => {},
        }
        if !text::same_text(output.result.run_id.as_str(), self.journal.run_id.as_str()) {
            return Err(
                SandboxError::new("hyperv_result", "guest result run identifier does not match"),
            );
        }
        exchange::validate_guest_result(
            &output.result,
            &self.setting.request,
            self.setting.image_version.as_str(),
        )
    }

    fn conclude(&mut self, written: SandboxResult<()>)
        requires
            old(self)@.consistent(),
            old(self).step == ExecutionStep::PersistDismount,
        ensures
            final(self)@ == old(self)@.concluded(&old(self).setting, written),
            final(self).setting == old(self).setting,
            clocked(*old(self), *final(self)),
            answered(*old(self), *final(self)),
    {
        proof {
            reveal(ExecutionView::concluded);
            reveal(clocked);
        }
        match written {
            Err(error) => {
                self.fail(error);
                return ;
            },
            Ok(_) => {},
        }
        let refused = match &self.dismount {
            Some(Err(error)) => Some(error.duplicate()),
            _ => None,
        };
        match refused {
            Some(error) => {
                self.fail(error);
                return ;
            },
            None => {},
        }
        let output = match self.collected.take() {
            None => {
                return ;
            },
            Some(Err(error)) => {
                self.fail(error);
                return ;
            },
            Some(Ok(output)) => output,
        };
        match self.check_envelope(&output) {
            Err(error) => {
                self.fail(error);
            },
            Ok(_) => {
                self.bind(output);
            },
        }
    }

    /// Binds the attestation of the guest to that of the host and gives the result.
    fn bind(&mut self, output: CollectedGuestOutput)
        requires
            old(self).step == ExecutionStep::PersistDismount,
            old(self).ending is PoweredOff,
            old(self).result is None,
        ensures
            final(self)@ == old(self)@.bound(&old(self).setting, &output),
            final(self).setting == old(self).setting,
            clocked(*old(self), *final(self)),
            final(self).result matches Some(Ok(result)) ==> exchange::is_final(
                &result,
                &output,
                old(self).ending->PoweredOff_0@,
            ),
    {
        proof {
            reveal(clocked);
        }
        let mut post = match self.post_verification.take() {
            None => {
                self.fail(
                    SandboxError::new(
                        "hyperv_network",
                        "post-run host network attestation was not retained",
                    ),
                );
                return ;
            },
            Some(post) => post,
        };
        let attestation = match &output.result.network_attestation {
            Some(found) => Some(found),
            None => None,
        };
        let verdict = network::bind_guest_attestation(
            &self.setting.plan,
            &mut post,
            attestation,
        );
        self.post_verification = Some(post);
        match verdict {
            Err(error) => {
                self.fail(error);
            },
            Ok(_) => {
                self.give_result(output);
            },
        }
    }

    fn give_result(&mut self, output: CollectedGuestOutput)
        requires
            old(self).step == ExecutionStep::PersistDismount,
            old(self).ending is PoweredOff,
            old(self).result is None,
        ensures
            final(self)@ == old(self)@.reported(&output),
            final(self).setting == old(self).setting,
            clocked(*old(self), *final(self)),
            final(self).result matches Some(Ok(result)) ==> exchange::is_final(
                &result,
                &output,
                old(self).ending->PoweredOff_0@,
            ),
    {
        proof {
            lemma_names_differ();
            reveal(clocked);
        }
        let observation = match &self.ending {
            Ending::PoweredOff(observation) => observation.clone(),
            _ => String::new(),
        };
        match exchange::assemble_result(output, observation) {
            Err(error) => {
                self.fail(error);
            },
            Ok(result) => {
                if result.timed_out {
                    add_warning(
                        &mut self.stages,
                        "timeout_or_completion",
                        "the guest agent reported that the target timeout expired; the host VM deadline did not expire",
                    );
                }
                let stage = report(
                    self.artifact_timer.take(),
                    "artifact_collection",
                    true,
                    none(),
                    none(),
                );
                add_stage(&mut self.stages, stage);
                self.step = ExecutionStep::Done;
                self.result = Some(Ok(result));
            },
        }
    }
}

proof fn lemma_verified_before(
    before: ExecutionView,
    setting: &RunSetting,
    attested: SandboxResult<NetworkAttachment>,
)
    requires
        before.consistent(),
        before.step == ExecutionStep::VerifyBefore,
    ensures
        before.verified_before(setting, attested).consistent(),
{
    reveal(ExecutionView::verified_before);
}

proof fn lemma_started(
    before: ExecutionView,
    setting: &RunSetting,
    started: SandboxResult<VmStatus>,
)
    requires
        before.consistent(),
        before.step == ExecutionStep::StartVm,
    ensures
        before.started(setting, started).consistent(),
{
    reveal(ExecutionView::started);
    reveal(ExecutionView::persist);
}

proof fn lemma_running(
    before: ExecutionView,
    written: SandboxResult<()>,
)
    requires
        before.consistent(),
        before.step == ExecutionStep::PersistRunning,
    ensures
        before.running(written).consistent(),
{
    reveal(ExecutionView::running);
}

proof fn lemma_completed(
    before: ExecutionView,
    completion: SandboxResult<VmCompletion>,
)
    requires
        before.consistent(),
        before.step == ExecutionStep::AwaitCompletion,
    ensures
        before.completed(completion).consistent(),
{
    reveal(ExecutionView::completed);
}

proof fn lemma_verified_after_error(
    before: ExecutionView,
    setting: &RunSetting,
    attested: SandboxResult<NetworkAttachment>,
)
    requires
        before.consistent(),
        before.step == ExecutionStep::VerifyAfterError,
    ensures
        before.verified_after_error(setting, attested).consistent(),
{
    reveal(ExecutionView::verified_after_error);
}

proof fn lemma_force_stopped(
    before: ExecutionView,
    stopped: SandboxResult<bool>,
)
    requires
        before.consistent(),
        before.step == ExecutionStep::ForceStop,
    ensures
        before.force_stopped(stopped).consistent(),
{
    reveal(ExecutionView::force_stopped);
}

proof fn lemma_waited(
    before: ExecutionView,
    stopped: SandboxResult<bool>,
)
    requires
        before.consistent(),
        before.step == ExecutionStep::AwaitOff,
    ensures
        before.waited(stopped).consistent(),
{
    reveal(ExecutionView::waited);
}

proof fn lemma_rescue_mounted(
    before: ExecutionView,
    setting: &RunSetting,
    mounted: SandboxResult<DataDiskMount>,
)
    requires
        before.consistent(),
        before.step == ExecutionStep::MountPartial,
    ensures
        before.rescue_mounted(setting, mounted).consistent(),
{
    reveal(ExecutionView::rescue_mounted);
}

proof fn lemma_rescued(
    before: ExecutionView,
    rescue: SandboxResult<PartialCollection>,
)
    requires
        before.consistent(),
        before.step == ExecutionStep::CollectPartial,
    ensures
        before.rescued(rescue).consistent(),
{
    reveal(ExecutionView::rescued);
}

proof fn lemma_rescue_dismounted(
    before: ExecutionView,
    setting: &RunSetting,
    dismounted: SandboxResult<bool>,
)
    requires
        before.consistent(),
        before.step == ExecutionStep::DismountPartial,
    ensures
        before.rescue_dismounted(setting, dismounted).consistent(),
{
    reveal(ExecutionView::rescue_dismounted);
    reveal(ExecutionView::rescue_ended);
}

proof fn lemma_verified_after_stop(
    before: ExecutionView,
    setting: &RunSetting,
    attested: SandboxResult<NetworkAttachment>,
)
    requires
        before.consistent(),
        before.step == ExecutionStep::VerifyAfterStop,
    ensures
        before.verified_after_stop(setting, attested).consistent(),
{
    reveal(ExecutionView::verified_after_stop);
}

proof fn lemma_verified_after(
    before: ExecutionView,
    setting: &RunSetting,
    attested: SandboxResult<NetworkAttachment>,
)
    requires
        before.consistent(),
        before.step == ExecutionStep::VerifyAfter,
    ensures
        before.verified_after(setting, attested).consistent(),
{
    reveal(ExecutionView::verified_after);
}

proof fn lemma_mounted(
    before: ExecutionView,
    setting: &RunSetting,
    mounted: SandboxResult<DataDiskMount>,
)
    requires
        before.consistent(),
        before.step == ExecutionStep::MountData,
    ensures
        before.mounted(setting, mounted).consistent(),
{
    reveal(ExecutionView::mounted);
    reveal(ExecutionView::persist);
}

proof fn lemma_collected(
    before: ExecutionView,
    output: SandboxResult<CollectedGuestOutput>,
)
    requires
        before.consistent(),
        before.step == ExecutionStep::Collect,
    ensures
        before.collected(output).consistent(),
{
    reveal(ExecutionView::collected);
}

proof fn lemma_dismounted(
    before: ExecutionView,
    setting: &RunSetting,
    dismounted: SandboxResult<bool>,
)
    requires
        before.consistent(),
        before.step == ExecutionStep::DismountData,
    ensures
        before.dismounted(setting, dismounted).consistent(),
{
    reveal(ExecutionView::dismounted);
    reveal(ExecutionView::persist);
}

proof fn lemma_concluded(
    before: ExecutionView,
    setting: &RunSetting,
    settled: SandboxResult<()>,
)
    requires
        before.consistent(),
        before.step == ExecutionStep::PersistDismount,
    ensures
        before.concluded(setting, settled).consistent(),
{
    reveal(ExecutionView::concluded);
}

proof fn lemma_rescue_settled(
    before: ExecutionView,
    settled: SandboxResult<()>,
    next: ExecutionStep,
)
    requires
        before.consistent(),
        before.step == ExecutionStep::DetachPartial && next == ExecutionStep::MountPartial
            || before.step == ExecutionStep::PersistPartialMount && next
            == ExecutionStep::CollectPartial,
    ensures
        before.rescue_settled(settled, next).consistent(),
{
    reveal(ExecutionView::rescue_settled);
}

proof fn lemma_rescue_ended(before: ExecutionView, written: Result<(), backend::Fault>)
    requires
        before.consistent(),
        before.step == ExecutionStep::PersistPartialDismount,
    ensures
        before.rescue_ended(written).consistent(),
{
    reveal(ExecutionView::rescue_ended);
}

proof fn lemma_collection_settled(
    before: ExecutionView,
    settled: SandboxResult<()>,
    next: ExecutionStep,
)
    requires
        before.consistent(),
        before.step == ExecutionStep::DetachData && next == ExecutionStep::MountData || before.step
            == ExecutionStep::PersistMount && next == ExecutionStep::Collect,
    ensures
        before.collection_settled(settled, next).consistent(),
{
    reveal(ExecutionView::collection_settled);
}

/// What is known where a step has come stays known.
proof fn lemma_consistent(before: ExecutionView, setting: &RunSetting, event: ExecutionEvent)
    requires
        before.consistent(),
    ensures
        before.after(setting, event).consistent(),
{
    match (before.step, event) {
        (ExecutionStep::VerifyBefore, ExecutionEvent::Attested(attested)) => {
            lemma_verified_before(before, setting, attested);
        },
        (ExecutionStep::StartVm, ExecutionEvent::Started(started)) => {
            lemma_started(before, setting, started);
        },
        (ExecutionStep::PersistRunning, ExecutionEvent::Settled(written)) => {
            lemma_running(before, written);
        },
        (ExecutionStep::AwaitCompletion, ExecutionEvent::Completed(completion)) => {
            lemma_completed(before, completion);
        },
        (ExecutionStep::VerifyAfterError, ExecutionEvent::Attested(attested)) => {
            lemma_verified_after_error(before, setting, attested);
        },
        (ExecutionStep::ForceStop, ExecutionEvent::Stopped(stopped)) => {
            lemma_force_stopped(before, stopped);
        },
        (ExecutionStep::AwaitOff, ExecutionEvent::Stopped(stopped)) => {
            lemma_waited(before, stopped);
        },
        (ExecutionStep::MountPartial, ExecutionEvent::Mounted(mounted)) => {
            lemma_rescue_mounted(before, setting, mounted);
        },
        (ExecutionStep::CollectPartial, ExecutionEvent::Rescued(rescue)) => {
            lemma_rescued(before, rescue);
        },
        (ExecutionStep::DismountPartial, ExecutionEvent::Dismounted(dismounted)) => {
            lemma_rescue_dismounted(before, setting, dismounted);
        },
        (ExecutionStep::VerifyAfterStop, ExecutionEvent::Attested(attested)) => {
            lemma_verified_after_stop(before, setting, attested);
        },
        (ExecutionStep::VerifyAfter, ExecutionEvent::Attested(attested)) => {
            lemma_verified_after(before, setting, attested);
        },
        (ExecutionStep::MountData, ExecutionEvent::Mounted(mounted)) => {
            lemma_mounted(before, setting, mounted);
        },
        (ExecutionStep::Collect, ExecutionEvent::Collected(output)) => {
            lemma_collected(before, output);
        },
        (ExecutionStep::DismountData, ExecutionEvent::Dismounted(dismounted)) => {
            lemma_dismounted(before, setting, dismounted);
        },
        (ExecutionStep::PersistDismount, ExecutionEvent::Settled(settled)) => {
            lemma_concluded(before, setting, settled);
        },
        (ExecutionStep::DetachPartial, ExecutionEvent::Settled(settled)) => {
            lemma_rescue_settled(before, settled, ExecutionStep::MountPartial);
        },
        (ExecutionStep::PersistPartialMount, ExecutionEvent::Settled(settled)) => {
            lemma_rescue_settled(before, settled, ExecutionStep::CollectPartial);
        },
        (ExecutionStep::PersistPartialDismount, ExecutionEvent::Settled(settled)) => {
            lemma_rescue_ended(before, backend::outcome(settled));
        },
        (ExecutionStep::DetachData, ExecutionEvent::Settled(settled)) => {
            lemma_collection_settled(before, settled, ExecutionStep::MountData);
        },
        (ExecutionStep::PersistMount, ExecutionEvent::Settled(settled)) => {
            lemma_collection_settled(before, settled, ExecutionStep::Collect);
        },
        _ => {},
    }
}

/// Only the first verification leads to the start of the machine.
proof fn lemma_start(before: ExecutionView, setting: &RunSetting, event: ExecutionEvent)
    requires
        before.step != ExecutionStep::StartVm,
        before.after(setting, event).step == ExecutionStep::StartVm,
    ensures
        before.step == ExecutionStep::VerifyBefore,
        event is Attested,
{
    match (before.step, event) {
        (ExecutionStep::PersistRunning, ExecutionEvent::Settled(_)) => {
            reveal(ExecutionView::running);
        },
        (ExecutionStep::AwaitCompletion, ExecutionEvent::Completed(_)) => {
            reveal(ExecutionView::completed);
        },
        (_, ExecutionEvent::Attested(_)) => {
            reveal(ExecutionView::verified_after_error);
            reveal(ExecutionView::verified_after_stop);
            reveal(ExecutionView::verified_after);
        },
        (_, ExecutionEvent::Stopped(_)) => {
            reveal(ExecutionView::force_stopped);
            reveal(ExecutionView::waited);
        },
        (_, ExecutionEvent::Mounted(_)) => {
            reveal(ExecutionView::rescue_mounted);
            reveal(ExecutionView::mounted);
            reveal(ExecutionView::persist);
        },
        (_, ExecutionEvent::Dismounted(_)) => {
            reveal(ExecutionView::rescue_dismounted);
            reveal(ExecutionView::rescue_ended);
            reveal(ExecutionView::dismounted);
            reveal(ExecutionView::persist);
        },
        (ExecutionStep::PersistDismount, ExecutionEvent::Settled(_)) => {
            reveal(ExecutionView::concluded);
        },
        (_, ExecutionEvent::Settled(_)) => {
            reveal(ExecutionView::rescue_settled);
            reveal(ExecutionView::rescue_ended);
            reveal(ExecutionView::collection_settled);
        },
        _ => {
            reveal(ExecutionView::rescued);
            reveal(ExecutionView::collected);
        },
    }
}

/// The clocks that the next step counts on are those of the present one, but where they are started.
proof fn lemma_next_step(before: ExecutionView, setting: &RunSetting, event: ExecutionEvent)
    requires
        before.consistent(),
    ensures
        ({
            let next = before.after(setting, event).step;
            &&& next == ExecutionStep::AwaitCompletion ==> before.step == next || before.step
                == ExecutionStep::PersistRunning
            &&& collects(next) ==> collects(before.step) || before.step
                == ExecutionStep::AwaitCompletion && next == ExecutionStep::ForceStop || before.step
                == ExecutionStep::VerifyAfter && next == ExecutionStep::DetachData
        }),
{
    match (before.step, event) {
        (ExecutionStep::PersistRunning, ExecutionEvent::Settled(_)) => {
            reveal(ExecutionView::running);
        },
        (ExecutionStep::AwaitCompletion, ExecutionEvent::Completed(_)) => {
            reveal(ExecutionView::completed);
        },
        (ExecutionStep::StartVm, ExecutionEvent::Started(_)) => {
            reveal(ExecutionView::started);
            reveal(ExecutionView::persist);
        },
        (_, ExecutionEvent::Attested(_)) => {
            reveal(ExecutionView::verified_before);
            reveal(ExecutionView::verified_after_error);
            reveal(ExecutionView::verified_after_stop);
            reveal(ExecutionView::verified_after);
        },
        (_, ExecutionEvent::Stopped(_)) => {
            reveal(ExecutionView::force_stopped);
            reveal(ExecutionView::waited);
        },
        (_, ExecutionEvent::Mounted(_)) => {
            reveal(ExecutionView::rescue_mounted);
            reveal(ExecutionView::mounted);
            reveal(ExecutionView::persist);
        },
        (_, ExecutionEvent::Dismounted(_)) => {
            reveal(ExecutionView::rescue_dismounted);
            reveal(ExecutionView::rescue_ended);
            reveal(ExecutionView::dismounted);
            reveal(ExecutionView::persist);
        },
        (ExecutionStep::PersistDismount, ExecutionEvent::Settled(_)) => {
            reveal(ExecutionView::concluded);
        },
        (_, ExecutionEvent::Settled(_)) => {
            reveal(ExecutionView::rescue_settled);
            reveal(ExecutionView::rescue_ended);
            reveal(ExecutionView::collection_settled);
        },
        _ => {
            reveal(ExecutionView::rescued);
            reveal(ExecutionView::collected);
        },
    }
}

/// Only two steps give a result: the verification after a forced stop, and the end of a collection.
proof fn lemma_answer(before: ExecutionView, setting: &RunSetting, event: ExecutionEvent)
    requires
        before.consistent(),
        before.verdict is None,
        before.after(setting, event).verdict == Some(Ok::<(), backend::Fault>(())),
    ensures
        before.step == ExecutionStep::VerifyAfterStop || before.step
            == ExecutionStep::PersistDismount,
{
    match (before.step, event) {
        (ExecutionStep::VerifyBefore, ExecutionEvent::Attested(_)) => {
            reveal(ExecutionView::verified_before);
        },
        (ExecutionStep::StartVm, ExecutionEvent::Started(_)) => {
            reveal(ExecutionView::started);
            reveal(ExecutionView::persist);
        },
        (ExecutionStep::PersistRunning, ExecutionEvent::Settled(_)) => {
            reveal(ExecutionView::running);
        },
        (ExecutionStep::AwaitCompletion, ExecutionEvent::Completed(_)) => {
            reveal(ExecutionView::completed);
        },
        (ExecutionStep::VerifyAfterError, ExecutionEvent::Attested(_)) => {
            reveal(ExecutionView::verified_after_error);
        },
        (ExecutionStep::ForceStop, ExecutionEvent::Stopped(_)) => {
            reveal(ExecutionView::force_stopped);
        },
        (ExecutionStep::AwaitOff, ExecutionEvent::Stopped(_)) => {
            reveal(ExecutionView::waited);
        },
        (ExecutionStep::DetachPartial, ExecutionEvent::Settled(_)) => {
            reveal(ExecutionView::rescue_settled);
        },
        (ExecutionStep::MountPartial, ExecutionEvent::Mounted(_)) => {
            reveal(ExecutionView::rescue_mounted);
        },
        (ExecutionStep::PersistPartialMount, ExecutionEvent::Settled(_)) => {
            reveal(ExecutionView::rescue_settled);
        },
        (ExecutionStep::CollectPartial, ExecutionEvent::Rescued(_)) => {
            reveal(ExecutionView::rescued);
        },
        (ExecutionStep::DismountPartial, ExecutionEvent::Dismounted(_)) => {
            reveal(ExecutionView::rescue_dismounted);
            reveal(ExecutionView::rescue_ended);
        },
        (ExecutionStep::PersistPartialDismount, ExecutionEvent::Settled(_)) => {
            reveal(ExecutionView::rescue_ended);
        },
        (ExecutionStep::VerifyAfter, ExecutionEvent::Attested(_)) => {
            reveal(ExecutionView::verified_after);
        },
        (ExecutionStep::DetachData, ExecutionEvent::Settled(_)) => {
            reveal(ExecutionView::collection_settled);
        },
        (ExecutionStep::MountData, ExecutionEvent::Mounted(_)) => {
            reveal(ExecutionView::mounted);
            reveal(ExecutionView::persist);
        },
        (ExecutionStep::PersistMount, ExecutionEvent::Settled(_)) => {
            reveal(ExecutionView::collection_settled);
        },
        (ExecutionStep::Collect, ExecutionEvent::Collected(_)) => {
            reveal(ExecutionView::collected);
        },
        (ExecutionStep::DismountData, ExecutionEvent::Dismounted(_)) => {
            reveal(ExecutionView::dismounted);
            reveal(ExecutionView::persist);
        },
        _ => {},
    }
}

impl Execution {
    /// Carries the execution on with an answer of the host.
    pub fn advance(&mut self, event: ExecutionEvent)
        requires
            old(self).well_clocked(),
            old(self)@.consistent(),
        ensures
            final(self)@ == old(self)@.after(&old(self).setting, event),
            final(self)@.consistent(),
            final(self).setting == old(self).setting,
            clocked(*old(self), *final(self)),
            final(self).well_clocked(),
            answered(*old(self), *final(self)),
    {
        proof {
            lemma_consistent(self@, &self.setting, event);
            lemma_next_step(self@, &self.setting, event);
            if self@.verdict is None && self@.after(&self.setting, event).verdict == Some(
                Ok::<(), backend::Fault>(()),
            ) {
                lemma_answer(self@, &self.setting, event);
            }
        }
        match (self.step, event) {
            (ExecutionStep::VerifyBefore, ExecutionEvent::Attested(attested)) => {
                self.accept_verified_before(attested);
            },
            (ExecutionStep::StartVm, ExecutionEvent::Started(started)) => {
                self.accept_started(started);
            },
            (ExecutionStep::PersistRunning, ExecutionEvent::Settled(written)) => {
                self.accept_running(written);
            },
            (ExecutionStep::AwaitCompletion, ExecutionEvent::Completed(completion)) => {
                self.accept_completed(completion);
            },
            (ExecutionStep::StopAfterError, ExecutionEvent::Stopped(_)) => {
                self.step = ExecutionStep::VerifyAfterError;
            },
            (ExecutionStep::VerifyAfterError, ExecutionEvent::Attested(attested)) => {
                self.accept_verified_after_error(attested);
            },
            (ExecutionStep::ForceStop, ExecutionEvent::Stopped(stopped)) => {
                self.accept_force_stopped(stopped);
            },
            (ExecutionStep::AwaitOff, ExecutionEvent::Stopped(stopped)) => {
                self.accept_waited(stopped);
            },
            (ExecutionStep::DetachPartial, ExecutionEvent::Settled(settled)) => {
                self.accept_rescue_settled(settled, ExecutionStep::MountPartial);
            },
            (ExecutionStep::MountPartial, ExecutionEvent::Mounted(mounted)) => {
                self.accept_rescue_mounted(mounted);
            },
            (ExecutionStep::PersistPartialMount, ExecutionEvent::Settled(settled)) => {
                self.accept_rescue_settled(settled, ExecutionStep::CollectPartial);
            },
            (ExecutionStep::CollectPartial, ExecutionEvent::Rescued(collected)) => {
                self.accept_rescued(collected);
            },
            (ExecutionStep::DismountPartial, ExecutionEvent::Dismounted(dismounted)) => {
                self.accept_rescue_dismounted(dismounted);
            },
            (ExecutionStep::PersistPartialDismount, ExecutionEvent::Settled(settled)) => {
                self.end_rescue(settled);
            },
            (ExecutionStep::VerifyAfterStop, ExecutionEvent::Attested(attested)) => {
                self.accept_verified_after_stop(attested);
            },
            (ExecutionStep::VerifyAfter, ExecutionEvent::Attested(attested)) => {
                self.accept_verified_after(attested);
            },
            (ExecutionStep::DetachData, ExecutionEvent::Settled(settled)) => {
                self.accept_collection_settled(settled, ExecutionStep::MountData);
            },
            (ExecutionStep::MountData, ExecutionEvent::Mounted(mounted)) => {
                self.accept_mounted(mounted);
            },
            (ExecutionStep::PersistMount, ExecutionEvent::Settled(settled)) => {
                self.accept_collection_settled(settled, ExecutionStep::Collect);
            },
            (ExecutionStep::Collect, ExecutionEvent::Collected(collected)) => {
                self.accept_collected(collected);
            },
            (ExecutionStep::DismountData, ExecutionEvent::Dismounted(dismounted)) => {
                self.accept_dismounted(dismounted);
            },
            (ExecutionStep::PersistDismount, ExecutionEvent::Settled(settled)) => {
                self.conclude(settled);
            },
            _ => {},
        }
        proof {
            if self.same_clocks(*old(self)) && (collects(self.step) ==> collects(old(self).step))
                && (old(self).step == ExecutionStep::PersistRunning ==> self.step
                != ExecutionStep::AwaitCompletion) {
                lemma_same_clocks(*old(self), *self);
            }
            lemma_well_clocked(*old(self), *self);
        }
    }
}

// ---------------------------------------------------------------------------------------------
// Laws
// ---------------------------------------------------------------------------------------------

/// A machine is started only right after the host's network was verified against the plan.
pub proof fn machines_start_after_a_verification(
    before: ExecutionView,
    setting: &RunSetting,
    event: ExecutionEvent,
)
    requires
        before.consistent(),
        before.step != ExecutionStep::StartVm,
        before.after(setting, event).step == ExecutionStep::StartVm,
    ensures
        before.step == ExecutionStep::VerifyBefore,
        event matches ExecutionEvent::Attested(Ok(attachment)) && network::attachment_verdict(
            &setting.plan,
            &attachment,
            false,
        ) is Ok,
{
    lemma_start(before, setting, event);
    reveal(ExecutionView::verified_before);
}

/// Whatever ends the watch of a machine but its own switching off is followed by a forced stop.
pub proof fn unfinished_runs_are_stopped(
    before: ExecutionView,
    setting: &RunSetting,
    completion: SandboxResult<VmCompletion>,
)
    requires
        before.step == ExecutionStep::AwaitCompletion,
        !(completion matches Ok(VmCompletion::PoweredOff(_))),
    ensures
        ({
            let after = before.after(setting, ExecutionEvent::Completed(completion));
            after.step == ExecutionStep::StopAfterError || after.step == ExecutionStep::ForceStop
        }),
{
    reveal(ExecutionView::completed);
}

/// A result is given only after the containment of the run was verified once more against its plan.
pub proof fn results_follow_a_second_verification(
    before: ExecutionView,
    setting: &RunSetting,
    event: ExecutionEvent,
)
    requires
        before.consistent(),
        before.verdict is None,
        before.after(setting, event).verdict == Some(Ok::<(), backend::Fault>(())),
    ensures
        before.after(setting, event).post is Some,
        before.step == ExecutionStep::VerifyAfterStop ==> (event matches ExecutionEvent::Attested(
            Ok(attachment),
        ) && network::attachment_verdict(&setting.plan, &attachment, false) is Ok),
{
    lemma_answer(before, setting, event);
    reveal(ExecutionView::verified_after_stop);
    reveal(ExecutionView::concluded);
}

/// The attestation that the collection of a guest's output starts from matches the plan.
pub proof fn collections_follow_a_verification(
    before: ExecutionView,
    setting: &RunSetting,
    attested: SandboxResult<NetworkAttachment>,
)
    requires
        before.step == ExecutionStep::VerifyAfter,
        before.after(setting, ExecutionEvent::Attested(attested)).step == ExecutionStep::DetachData,
    ensures
        attested matches Ok(attachment) && network::attachment_verdict(
            &setting.plan,
            &attachment,
            false,
        ) is Ok,
{
    reveal(ExecutionView::verified_after);
}

/// A run whose containment drifted ends in an error, whatever else it brought.
pub proof fn drift_is_never_a_result(
    before: ExecutionView,
    setting: &RunSetting,
    attested: SandboxResult<NetworkAttachment>,
)
    requires
        before.consistent(),
        before.step == ExecutionStep::VerifyAfterStop || before.step
            == ExecutionStep::VerifyAfterError || before.step == ExecutionStep::VerifyAfter,
        attestation_value(setting, attested) is Err,
    ensures
        before.after(setting, ExecutionEvent::Attested(attested)).verdict matches Some(Err(_)),
{
    reveal(ExecutionView::verified_after_stop);
    reveal(ExecutionView::verified_after_error);
    reveal(ExecutionView::verified_after);
}

/// A run that outgrew its disks is never given a result.
pub proof fn quota_breaches_are_never_a_result(
    before: ExecutionView,
    setting: &RunSetting,
    event: ExecutionEvent,
)
    requires
        before.consistent(),
        before.verdict is None,
        before.ending is DiskQuota,
    ensures
        before.after(setting, event).verdict != Some(Ok::<(), backend::Fault>(())),
{
    if before.after(setting, event).verdict == Some(Ok::<(), backend::Fault>(())) {
        lemma_answer(before, setting, event);
        reveal(ExecutionView::verified_after_stop);
    }
}

/// How an execution begins: the network is verified, the machine is started and recorded as running,
/// and then watched. An error on the way ends the execution with that error.
pub proof fn executions_begin_in_order(before: ExecutionView, setting: &RunSetting, event: ExecutionEvent)
    requires
        before.consistent(),
    ensures
        ({
            let after = before.after(setting, event);
            &&& before.step == ExecutionStep::VerifyBefore && event is Attested ==> {
                let sound = event->Attested_0 is Ok && network::attachment_verdict(
                    &setting.plan,
                    &event->Attested_0->Ok_0,
                    false,
                ) is Ok;
                &&& sound ==> after.step == ExecutionStep::StartVm
                &&& !sound ==> after.step == ExecutionStep::Done && after.verdict is Some
                    && after.verdict->0 is Err
            }
            &&& before.step == ExecutionStep::StartVm && event is Started ==> {
                let started = event->Started_0 is Ok && vm::start_verdict(
                    &before.journal.vm->0,
                    &event->Started_0->Ok_0,
                ) is Ok;
                &&& after.step == ExecutionStep::PersistRunning ==> started && after.journal.phase
                    == CleanupPhase::Running && after.journal.sequence == before.journal.sequence + 1
                &&& !started ==> after.step == ExecutionStep::Done && after.verdict is Some
                    && after.verdict->0 is Err
                &&& after.step == ExecutionStep::PersistRunning || after.step == ExecutionStep::Done
            }
            &&& before.step == ExecutionStep::PersistRunning && event is Settled ==> {
                &&& event->Settled_0 is Ok && before.journal.os_disk is Some ==> after.step
                    == ExecutionStep::AwaitCompletion
                &&& event->Settled_0 is Err ==> after.verdict == Some(
                    Err::<(), backend::Fault>(event->Settled_0->Err_0@),
                )
            }
        }),
{
    reveal(ExecutionView::verified_before);
    reveal(ExecutionView::started);
    reveal(ExecutionView::persist);
    reveal(ExecutionView::running);
}

/// What comes of the watch: an error stops the machine and ends the run; a machine that is off has its
/// network verified and its output collected; one that ran out of time, or outgrew its disks, is
/// stopped by force and what it left is rescued.
pub proof fn executions_follow_their_ending(
    before: ExecutionView,
    setting: &RunSetting,
    completion: SandboxResult<VmCompletion>,
)
    requires
        before.consistent(),
        before.step == ExecutionStep::AwaitCompletion,
    ensures
        ({
            let after = before.after(setting, ExecutionEvent::Completed(completion));
            &&& completion is Err ==> after.step == ExecutionStep::StopAfterError && after.ending
                == EndingView::Failed(completion->Err_0@) && after.stages == before.stages
            &&& completion matches Ok(VmCompletion::TimedOut(seen)) ==> {
                &&& after.step == ExecutionStep::ForceStop
                &&& after.ending == EndingView::TimedOut(seen@.summary_text())
                &&& after.stages.len() == before.stages.len() + 2
                &&& after.stages[before.stages.len() as int].stage == "observation"@
                &&& after.stages[before.stages.len() as int].success
                &&& after.stages[before.stages.len() as int].warnings.contains(
                    seen@.summary_text(),
                )
                &&& after.stages[before.stages.len() as int + 1].stage == "timeout_or_completion"@
                &&& after.stages[before.stages.len() as int + 1].success
                &&& after.stages[before.stages.len() as int + 1].warnings.len() == 1
            }
            &&& completion matches Ok(
                VmCompletion::DiskQuotaExceeded { observed_bytes, maximum_bytes, observations },
            ) ==> {
                &&& after.step == ExecutionStep::ForceStop
                &&& after.ending == EndingView::DiskQuota(observed_bytes, maximum_bytes)
                &&& after.stages.len() == before.stages.len() + 2
                &&& after.stages[before.stages.len() as int].stage == "observation"@
                &&& !after.stages[before.stages.len() as int].success
                &&& after.stages[before.stages.len() as int].errors.len() == 1
                &&& after.stages[before.stages.len() as int + 1].stage == "timeout_or_completion"@
                &&& !after.stages[before.stages.len() as int + 1].success
            }
            &&& completion matches Ok(VmCompletion::PoweredOff(seen)) ==> {
                &&& after.step == ExecutionStep::VerifyAfter
                &&& after.ending == EndingView::PoweredOff(seen@.summary_text())
                &&& after.journal.warnings == before.journal.warnings.push(seen@.summary_text())
                &&& after.stages.len() == before.stages.len() + 2
                &&& after.stages[before.stages.len() as int].stage == "observation"@
                &&& after.stages[before.stages.len() as int].success
                &&& after.stages[before.stages.len() as int + 1].stage == "timeout_or_completion"@
                &&& after.stages[before.stages.len() as int + 1].success
                &&& after.stages[before.stages.len() as int + 1].errors.len() == 0
            }
        }),
{
    reveal(ExecutionView::completed);
    match completion {
        Ok(VmCompletion::TimedOut(seen)) => {
            let shown = seen@.summary_text();
            assert(timeout_stages(shown)[0].warnings[1] == shown);
        },
        _ => {},
    }
}

/// How the output of a machine that is off is taken: the network is verified again, the disk is
/// detached and mounted, the mount is recorded, the output is collected, the disk is dismounted and
/// that is recorded.
pub proof fn outputs_are_taken_in_order(before: ExecutionView, setting: &RunSetting, event: ExecutionEvent)
    requires
        before.consistent(),
    ensures
        ({
            let after = before.after(setting, event);
            &&& before.step == ExecutionStep::VerifyAfter && event is Attested ==> {
                let sound = event->Attested_0 is Ok && network::attachment_verdict(
                    &setting.plan,
                    &event->Attested_0->Ok_0,
                    false,
                ) is Ok;
                &&& sound ==> after.step == ExecutionStep::DetachData && after.post == Some(
                    event->Attested_0->Ok_0,
                )
                &&& !sound ==> after.verdict is Some && after.verdict->0 is Err
            }
            &&& before.step == ExecutionStep::DetachData && event is Settled && event->Settled_0 is Ok
                ==> after.step == ExecutionStep::MountData
            &&& before.step == ExecutionStep::MountData && event is Mounted ==> {
                let recorded = event->Mounted_0 is Ok && before.journal.data_disk->0.remounted_as(
                    &event->Mounted_0->Ok_0,
                );
                &&& after.step == ExecutionStep::PersistMount ==> recorded
                &&& !recorded ==> after.verdict is Some && after.verdict->0 is Err
            }
            &&& before.step == ExecutionStep::PersistMount && event is Settled && event->Settled_0
                is Ok ==> after.step == ExecutionStep::Collect
            &&& before.step == ExecutionStep::Collect && event is Collected ==> after.step
                == ExecutionStep::DismountData && after.collected == Some(
                backend::outcome(event->Collected_0),
            )
            &&& before.step == ExecutionStep::DismountData && event is Dismounted ==> {
                &&& after.step == ExecutionStep::PersistDismount || after.step == ExecutionStep::Done
                &&& event->Dismounted_0 == Ok::<bool, SandboxError>(true) ==> after.dismount is Some
                    && after.dismount->0 is Ok && after.journal.data_disk is Some
                    && after.journal.data_disk->0.state == DataDiskState::Detached
                &&& event->Dismounted_0 != Ok::<bool, SandboxError>(true) ==> after.dismount is Some
                    && after.dismount->0 is Err
            }
            &&& (before.step == ExecutionStep::DetachData || before.step
                == ExecutionStep::PersistMount || before.step == ExecutionStep::PersistDismount)
                && event is Settled && event->Settled_0 is Err ==> after.verdict == Some(
                Err::<(), backend::Fault>(event->Settled_0->Err_0@),
            )
        }),
{
    reveal(ExecutionView::verified_after);
    reveal(ExecutionView::collection_settled);
    reveal(ExecutionView::mounted);
    reveal(ExecutionView::persist);
    reveal(ExecutionView::collected);
    reveal(ExecutionView::dismounted);
    reveal(ExecutionView::concluded);
}

/// A collected output becomes the result exactly where the disk was dismounted and recorded, the
/// output was collected, its result is well formed, of the run and believed, and it has an execution;
/// without a network, where the guest claims none; with one, where the guest confirms it.
pub proof fn collected_outputs_become_results(
    before: ExecutionView,
    setting: &RunSetting,
    output: CollectedGuestOutput,
)
    requires
        before.consistent(),
        before.step == ExecutionStep::PersistDismount,
        before.collected == Some(Ok::<CollectedGuestOutput, backend::Fault>(output)),
        !(before.dismount is Some && before.dismount->0 is Err),
        setting.plan is DenyAll,
    ensures
        ({
            let after = before.after(setting, ExecutionEvent::Settled(Ok(())));
            &&& after.step == ExecutionStep::Done
            &&& after.verdict == Some(Ok::<(), backend::Fault>(())) <==> {
                &&& output.result.metadata_verdict() is Ok
                &&& output.result.run_id@ == before.journal.run_id
                &&& exchange::guest_result_verdict(
                    &output.result,
                    &setting.request,
                    setting.image_version@,
                ) is Ok
                &&& output.result.network_attestation is None
                &&& output.result.execution is Some
            }
        }),
{
    reveal(ExecutionView::concluded);
}

/// What is rescued of a machine that had to be stopped: it is stopped by force and waited for; once it
/// is off, its disk is detached, mounted, recorded, collected from, dismounted and recorded. Whatever
/// fails on the way only leaves the output unrescued.
pub proof fn rescues_go_in_order(before: ExecutionView, setting: &RunSetting, event: ExecutionEvent)
    requires
        before.consistent(),
    ensures
        ({
            let after = before.after(setting, event);
            &&& before.step == ExecutionStep::ForceStop && event is Stopped ==> {
                &&& after.step == ExecutionStep::AwaitOff
                &&& after.stop_error is Some <==> event->Stopped_0 is Err
            }
            &&& before.step == ExecutionStep::AwaitOff && event is Stopped ==> {
                let off = event->Stopped_0 == Ok::<bool, SandboxError>(true);
                &&& off ==> after.step == ExecutionStep::DetachPartial
                &&& !off ==> after.step == ExecutionStep::VerifyAfterStop && after.preservation is Some
                    && !after.preservation->0.success
            }
            &&& before.step == ExecutionStep::DetachPartial && event is Settled ==> {
                &&& event->Settled_0 is Ok ==> after.step == ExecutionStep::MountPartial
                &&& event->Settled_0 is Err ==> after.step == ExecutionStep::VerifyAfterStop
                    && !after.preservation->0.success
            }
            &&& before.step == ExecutionStep::MountPartial && event is Mounted ==> {
                &&& after.step == ExecutionStep::PersistPartialMount ==> event->Mounted_0 is Ok
                    && before.journal.data_disk->0.remounted_as(&event->Mounted_0->Ok_0)
                &&& after.step == ExecutionStep::PersistPartialMount || after.step
                    == ExecutionStep::VerifyAfterStop && !after.preservation->0.success
            }
            &&& before.step == ExecutionStep::PersistPartialMount && event is Settled ==> {
                &&& event->Settled_0 is Ok ==> after.step == ExecutionStep::CollectPartial
                &&& event->Settled_0 is Err ==> after.step == ExecutionStep::VerifyAfterStop
                    && !after.preservation->0.success
            }
            &&& before.step == ExecutionStep::CollectPartial && event is Rescued ==> after.step
                == ExecutionStep::DismountPartial && after.partial == Some(
                backend::outcome(event->Rescued_0),
            )
            &&& before.step == ExecutionStep::PersistPartialDismount && event is Settled ==> {
                let rescued = event->Settled_0 is Ok && before.partial->0 is Ok && !(before.dismount
                    is Some && before.dismount->0 is Err);
                &&& after.step == ExecutionStep::VerifyAfterStop
                &&& after.preservation is Some
                &&& after.preservation->0.success <==> rescued
            }
        }),
{
    reveal(ExecutionView::force_stopped);
    reveal(ExecutionView::waited);
    reveal(ExecutionView::rescue_settled);
    reveal(ExecutionView::rescue_mounted);
    reveal(ExecutionView::rescued);
    reveal(ExecutionView::rescue_ended);
}

/// How a stopped run ends: with drift where its network is not what was planned any more, with the
/// breach where its disks outgrew their quota, and otherwise with the host's own timeout result.
pub proof fn stopped_runs_end_by_their_cause(
    before: ExecutionView,
    setting: &RunSetting,
    attested: SandboxResult<NetworkAttachment>,
)
    requires
        before.consistent(),
        before.step == ExecutionStep::VerifyAfterStop,
    ensures
        ({
            let after = before.after(setting, ExecutionEvent::Attested(attested));
            let sound = attested is Ok && network::attachment_verdict(
                &setting.plan,
                &attested->Ok_0,
                false,
            ) is Ok;
            &&& after.step == ExecutionStep::Done && after.verdict is Some
            &&& !sound ==> after.verdict->0 is Err && after.verdict->0->Err_0.stage
                == "hyperv_containment_drift"@
            &&& sound && before.ending is DiskQuota ==> after.verdict->0 is Err
                && after.verdict->0->Err_0.stage == "hyperv_os_disk_quota"@
            &&& sound && before.ending is TimedOut ==> after.verdict->0 is Ok
            &&& after.stages.len() == before.stages.len() + 1
            &&& after.stages.last().stage == "artifact_collection"@
            &&& after.stages.last().success <==> sound && before.preservation->0.success
                && before.stop_error is None
        }),
{
    reveal(ExecutionView::verified_after_stop);
}

/// A run that the watch gave up ends with the error of the watch, or with drift that tells both.
pub proof fn failed_watches_end_with_their_error(
    before: ExecutionView,
    setting: &RunSetting,
    attested: SandboxResult<NetworkAttachment>,
    cause: backend::Fault,
)
    requires
        before.consistent(),
        before.step == ExecutionStep::VerifyAfterError,
        before.ending == EndingView::Failed(cause),
    ensures
        ({
            let after = before.after(setting, ExecutionEvent::Attested(attested));
            let sound = attested is Ok && network::attachment_verdict(
                &setting.plan,
                &attested->Ok_0,
                false,
            ) is Ok;
            &&& sound ==> after.verdict == Some(Err::<(), backend::Fault>(cause))
            &&& !sound ==> after.verdict is Some && after.verdict->0 is Err
                && after.verdict->0->Err_0.stage == "hyperv_containment_drift"@ && text::begins(
                after.verdict->0->Err_0.message,
                backend::fault_text(cause),
            )
        }),
{
    reveal(ExecutionView::verified_after_error);
    let after = before.after(setting, ExecutionEvent::Attested(attested));
    match after.verdict {
        Some(Err(fault)) => {
            let shown = backend::fault_text(cause);
            if fault.stage == "hyperv_containment_drift"@ && fault.message.len() >= shown.len() {
                match attestation_value(setting, attested) {
                    Err(_) => {
                        assert(fault.message.take(shown.len() as int) =~= shown);
                    },
                    Ok(_) => {},
                }
            }
        },
        _ => {},
    }
}

/// Whatever became of the rescued output, the disk of a stopped machine is dismounted, and what came of
/// that is kept.
pub proof fn rescued_disks_are_dismounted(
    before: ExecutionView,
    setting: &RunSetting,
    dismounted: SandboxResult<bool>,
)
    requires
        before.consistent(),
        before.step == ExecutionStep::DismountPartial,
    ensures
        ({
            let after = before.after(setting, ExecutionEvent::Dismounted(dismounted));
            let confirmed = dismounted == Ok::<bool, SandboxError>(true);
            &&& after.step == ExecutionStep::PersistPartialDismount || after.step
                == ExecutionStep::VerifyAfterStop
            &&& after.dismount is Some
            &&& after.dismount->0 is Ok <==> confirmed
            &&& confirmed ==> after.journal.data_disk->0.state == DataDiskState::Detached
            &&& !confirmed ==> after.journal.data_disk == before.journal.data_disk
            &&& after.partial == before.partial
        }),
{
    reveal(ExecutionView::rescue_dismounted);
    reveal(ExecutionView::rescue_ended);
}

} // verus!
